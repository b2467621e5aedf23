//! What callers may rely on, stated over the models of the builder and proved.

use vstd::prelude::*;
use vstd::seq_lib::{to_multiset_build, to_multiset_contains};
use vstd::multiset::lemma_insert_increases_count_by_1;
use crate::launch::{
    answer_view, assembled, bridged, install_path, launch_arguments, looked_up_view, outcome,
    with_install_path, with_transport, ConfigError, ConfigErrorView, LaunchSpec, LaunchSpecView,
    CONNECTION_TIMING_FLAG, CONNECTION_TIMING_KEY, INSTALL_PATH_FALLBACK_KEY, INSTALL_PATH_FLAG,
    INSTALL_PATH_KEY, SERVER_ID, TRANSPORT_FLAG,
};
use crate::settings::{
    distinct_names, lemma_lookup_ignores_order, lookup, BinarySettings, BinarySettingsView,
};
use crate::text::blank;

verus! {

/// A request for any server but the supported one fails as unknown, and the
/// answer does not depend on the settings: whatever two lookups returned, the
/// answers are the same.
pub proof fn unknown_server_is_refused(
    id: Seq<char>,
    first: Result<Option<BinarySettingsView>, Seq<char>>,
    second: Result<Option<BinarySettingsView>, Seq<char>>,
)
    requires
        id != SERVER_ID@,
    ensures
        outcome(id, first) == Err::<LaunchSpecView, ConfigErrorView>(
            ConfigErrorView::UnknownServerId,
        ),
        outcome(id, second) == outcome(id, first),
{
}

/// For the supported server, a lookup that finds no `binary` block is
/// answered with `MissingConfiguration`.
pub proof fn absent_block_is_missing_configuration()
    ensures
        outcome(SERVER_ID@, Ok(None)) == Err::<LaunchSpecView, ConfigErrorView>(
            ConfigErrorView::MissingConfiguration,
        ),
{
}

/// For the supported server, a `binary` block without `path` is answered
/// with `MissingPath`, whatever else the block holds.
pub proof fn absent_path_is_missing_path(block: BinarySettingsView)
    requires
        block.path is None,
    ensures
        outcome(SERVER_ID@, Ok(Some(block))) == Err::<LaunchSpecView, ConfigErrorView>(
            ConfigErrorView::MissingPath,
        ),
{
}

/// A store that could not be read is reported with its own message.
pub proof fn unreadable_store_is_reported(message: Seq<char>)
    ensures
        outcome(SERVER_ID@, Err(message)) == Err::<LaunchSpecView, ConfigErrorView>(
            ConfigErrorView::SettingsReadError(message),
        ),
{
}

/// A launch specification is produced exactly for the supported server with
/// a `binary` block that names an executable.
pub proof fn success_is_owed(
    id: Seq<char>,
    looked_up: Result<Option<BinarySettingsView>, Seq<char>>,
)
    ensures
        outcome(id, looked_up) is Ok <==> id == SERVER_ID@ && (looked_up matches Ok(Some(block))
            && block.path is Some),
{
}

/// Identical requests get identical answers: two answers of the builder to
/// inputs with the same content have the same content.
pub proof fn same_request_same_answer(
    first_id: &str,
    first_settings: Result<Option<BinarySettings>, String>,
    first_answer: Result<LaunchSpec, ConfigError>,
    second_id: &str,
    second_settings: Result<Option<BinarySettings>, String>,
    second_answer: Result<LaunchSpec, ConfigError>,
)
    requires
        first_id@ == second_id@,
        looked_up_view(first_settings) == looked_up_view(second_settings),
        answer_view(first_answer) == outcome(first_id@, looked_up_view(first_settings)),
        answer_view(second_answer) == outcome(second_id@, looked_up_view(second_settings)),
    ensures
        answer_view(first_answer) == answer_view(second_answer),
{
}

/// The transport flag is always among the arguments afterwards, and it is
/// added only where it was missing: arguments that carry it keep their count
/// of it, the others get exactly one. Doing the step twice changes nothing.
pub proof fn transport_flag_added_once(args: Seq<Seq<char>>, env: Seq<(Seq<char>, Seq<char>)>)
    ensures
        with_transport(args).contains(TRANSPORT_FLAG@),
        launch_arguments(args, env).contains(TRANSPORT_FLAG@),
        args.contains(TRANSPORT_FLAG@) ==> with_transport(args) == args,
        !args.contains(TRANSPORT_FLAG@) ==> with_transport(args).to_multiset().count(
            TRANSPORT_FLAG@,
        ) == 1,
        with_transport(with_transport(args)) == with_transport(args),
{
    broadcast use to_multiset_build, to_multiset_contains, lemma_insert_increases_count_by_1;

    if !args.contains(TRANSPORT_FLAG@) {
        let grown = args.push(TRANSPORT_FLAG@);
        assert(grown[args.len() as int] == TRANSPORT_FLAG@);
        assert(args.to_multiset().count(TRANSPORT_FLAG@) == 0);
        assert(grown.to_multiset() == args.to_multiset().insert(TRANSPORT_FLAG@));
    }
    let i = choose|i: int|
        0 <= i < with_transport(args).len() && with_transport(args)[i] == TRANSPORT_FLAG@;
    assert(launch_arguments(args, env)[i] == TRANSPORT_FLAG@);
}

/// Nothing configured is dropped or moved: the configured arguments open the
/// final ones, and each step only appends to what the step before left.
pub proof fn configured_arguments_are_kept(
    args: Seq<Seq<char>>,
    env: Seq<(Seq<char>, Seq<char>)>,
)
    ensures
        args.is_prefix_of(with_transport(args)),
        with_transport(args).is_prefix_of(with_install_path(args, env)),
        with_install_path(args, env).is_prefix_of(launch_arguments(args, env)),
        args.is_prefix_of(launch_arguments(args, env)),
{
}

/// The environment table is handed on as it came.
pub proof fn environment_is_handed_on(
    path: Seq<char>,
    arguments: Option<Seq<Seq<char>>>,
    env: Seq<(Seq<char>, Seq<char>)>,
)
    ensures
        assembled(path, arguments, Some(env)).env == env,
        assembled(path, arguments, Some(env)).command == path,
{
}

/// The order in which a mapping is written down does not matter: two tables
/// without repeated names that hold the same pairs lead to the same
/// arguments.
pub proof fn table_order_is_immaterial(
    args: Seq<Seq<char>>,
    first: Seq<(Seq<char>, Seq<char>)>,
    second: Seq<(Seq<char>, Seq<char>)>,
)
    requires
        distinct_names(first),
        distinct_names(second),
        forall|p: (Seq<char>, Seq<char>)| first.contains(p) <==> second.contains(p),
    ensures
        launch_arguments(args, first) == launch_arguments(args, second),
{
    lemma_lookup_ignores_order(first, second, INSTALL_PATH_KEY@);
    lemma_lookup_ignores_order(first, second, INSTALL_PATH_FALLBACK_KEY@);
    lemma_lookup_ignores_order(first, second, CONNECTION_TIMING_KEY@);
}

/// The primary environment name wins: where the arguments do not carry the
/// installation flag and the primary name has a value that is not blank, the
/// flag and that value are appended, whatever the fallback name holds.
pub proof fn primary_install_path_wins(
    args: Seq<Seq<char>>,
    env: Seq<(Seq<char>, Seq<char>)>,
    value: Seq<char>,
)
    requires
        !args.contains(INSTALL_PATH_FLAG@),
        lookup(env, INSTALL_PATH_KEY@) == Some(value),
        !blank(value),
    ensures
        with_install_path(args, env) == with_transport(args).push(INSTALL_PATH_FLAG@).push(value),
        lookup(env, CONNECTION_TIMING_KEY@) is None ==> launch_arguments(args, env)
            == with_transport(args).push(INSTALL_PATH_FLAG@).push(value),
{
    reveal_strlit("--stdio");
    reveal_strlit("--matlabInstallPath");
    assert(TRANSPORT_FLAG@.len() != INSTALL_PATH_FLAG@.len());
    assert(!with_transport(args).contains(INSTALL_PATH_FLAG@));
}

/// The fallback name is read only where the primary one is not set at all.
pub proof fn fallback_install_path_is_second(env: Seq<(Seq<char>, Seq<char>)>)
    ensures
        lookup(env, INSTALL_PATH_KEY@) is Some ==> install_path(env) == lookup(
            env,
            INSTALL_PATH_KEY@,
        ),
        lookup(env, INSTALL_PATH_KEY@) is None ==> install_path(env) == lookup(
            env,
            INSTALL_PATH_FALLBACK_KEY@,
        ),
{
}

/// Arguments that carry the installation flag themselves get nothing from
/// the environment for it: only the transport step applies.
pub proof fn explicit_install_flag_is_respected(
    args: Seq<Seq<char>>,
    env: Seq<(Seq<char>, Seq<char>)>,
)
    requires
        args.contains(INSTALL_PATH_FLAG@),
    ensures
        with_install_path(args, env) == with_transport(args),
        launch_arguments(args, env) == bridged(
            with_transport(args),
            CONNECTION_TIMING_FLAG@,
            lookup(env, CONNECTION_TIMING_KEY@),
        ),
        lookup(env, CONNECTION_TIMING_KEY@) is None ==> launch_arguments(args, env)
            == with_transport(args),
{
    let i = choose|i: int| 0 <= i < args.len() && args[i] == INSTALL_PATH_FLAG@;
    assert(with_transport(args)[i] == INSTALL_PATH_FLAG@);
}

/// A flag that is already among the arguments is never appended again.
pub proof fn present_flag_is_not_repeated(
    args: Seq<Seq<char>>,
    flag: Seq<char>,
    value: Option<Seq<char>>,
)
    requires
        args.contains(flag),
    ensures
        bridged(args, flag, value) == args,
{
}

/// A blank value counts as no value: nothing is appended for it.
pub proof fn blank_value_is_absent(args: Seq<Seq<char>>, flag: Seq<char>, value: Seq<char>)
    requires
        blank(value),
    ensures
        bridged(args, flag, Some(value)) == args,
        bridged(args, flag, Some(value)) == bridged(args, flag, None),
{
}

/// The empty text is blank.
pub proof fn empty_text_is_blank()
    ensures
        blank(Seq::<char>::empty()),
        blank(""@),
{
    reveal_strlit("");
}

/// A blank connection timing in the environment leaves the arguments as the
/// installation step left them.
pub proof fn blank_timing_adds_nothing(
    args: Seq<Seq<char>>,
    env: Seq<(Seq<char>, Seq<char>)>,
)
    requires
        lookup(env, CONNECTION_TIMING_KEY@) matches Some(v) && blank(v),
    ensures
        launch_arguments(args, env) == with_install_path(args, env),
{
}

} // verus!
