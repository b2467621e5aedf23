//! From a server identifier and its settings to the process to start.

use vstd::prelude::*;
use vstd::string::*;
use crate::settings::{env_get, lookup, pairs, BinarySettings, BinarySettingsView};
use crate::text::{blank, contains_text, is_blank, lemma_texts_push, same_text, texts};

verus! {

/// The one server this library knows how to launch.
pub const SERVER_ID: &'static str = "matlab-language-server";

/// Selects the standard-stream transport, the only one the server speaks.
pub const TRANSPORT_FLAG: &'static str = "--stdio";

/// Introduces the MATLAB installation directory.
pub const INSTALL_PATH_FLAG: &'static str = "--matlabInstallPath";

/// Introduces the moment at which the server connects to MATLAB.
pub const CONNECTION_TIMING_FLAG: &'static str = "--matlabConnectionTiming";

/// Environment name read first for the installation directory.
pub const INSTALL_PATH_KEY: &'static str = "MATLAB_LSP_INSTALL_PATH";

/// Environment name read when [`INSTALL_PATH_KEY`] is not set.
pub const INSTALL_PATH_FALLBACK_KEY: &'static str = "MATLAB_INSTALL_PATH";

/// Environment name read for the connection timing.
pub const CONNECTION_TIMING_KEY: &'static str = "MATLAB_LSP_CONNECTION_TIMING";

/// The process that the host is asked to start.
#[derive(Clone, Debug, PartialEq, Eq)]
pub struct LaunchSpec {
    /// The executable.
    pub command: String,
    /// Its arguments, in order.
    pub args: Vec<String>,
    /// The environment variables to set, as (name, value) pairs.
    pub env: Vec<(String, String)>,
}

/// The mathematical content of a [`LaunchSpec`].
pub ghost struct LaunchSpecView {
    pub command: Seq<char>,
    pub args: Seq<Seq<char>>,
    pub env: Seq<(Seq<char>, Seq<char>)>,
}

impl View for LaunchSpec {
    type V = LaunchSpecView;

    open spec fn view(&self) -> LaunchSpecView {
        LaunchSpecView { command: self.command@, args: texts(self.args@), env: pairs(self.env@) }
    }
}

/// Why no launch specification could be produced.
#[derive(Clone, Debug, PartialEq, Eq)]
pub enum ConfigError {
    /// The host asked for a server other than [`SERVER_ID`].
    UnknownServerId,
    /// The settings store could not be read; holds what the store reported.
    SettingsReadError(String),
    /// The settings hold no `binary` block for the server.
    MissingConfiguration,
    /// The `binary` block names no executable.
    MissingPath,
}

/// The mathematical content of a [`ConfigError`].
pub ghost enum ConfigErrorView {
    UnknownServerId,
    SettingsReadError(Seq<char>),
    MissingConfiguration,
    MissingPath,
}

impl View for ConfigError {
    type V = ConfigErrorView;

    open spec fn view(&self) -> ConfigErrorView {
        match self {
            ConfigError::UnknownServerId => ConfigErrorView::UnknownServerId,
            ConfigError::SettingsReadError(m) => ConfigErrorView::SettingsReadError(m@),
            ConfigError::MissingConfiguration => ConfigErrorView::MissingConfiguration,
            ConfigError::MissingPath => ConfigErrorView::MissingPath,
        }
    }
}

/// The text shown to the user for each error.
pub open spec fn message_of(e: ConfigErrorView) -> Seq<char> {
    match e {
        ConfigErrorView::UnknownServerId => "Unknown language server id"@,
        ConfigErrorView::SettingsReadError(m) =>
            "Failed to read Zed settings for matlab-language-server: "@ + m,
        ConfigErrorView::MissingConfiguration =>
            "Configure Zed: lsp.matlab-language-server.binary.path and .arguments (e.g. node + out/index.js --stdio)"@,
        ConfigErrorView::MissingPath => "lsp.matlab-language-server.binary.path is required"@,
    }
}

impl ConfigError {
    /// The text to show to the user.
    pub fn message(&self) -> (r: String)
        ensures
            r@ == message_of(self@),
    {
        match self {
            ConfigError::UnknownServerId => String::from_str("Unknown language server id"),
            ConfigError::SettingsReadError(m) => String::from_str(
                "Failed to read Zed settings for matlab-language-server: ",
            ).concat(m.as_str()),
            ConfigError::MissingConfiguration => String::from_str(
                "Configure Zed: lsp.matlab-language-server.binary.path and .arguments (e.g. node + out/index.js --stdio)",
            ),
            ConfigError::MissingPath => String::from_str(
                "lsp.matlab-language-server.binary.path is required",
            ),
        }
    }
}

/// The arguments with the transport flag appended unless it is among them.
pub open spec fn with_transport(args: Seq<Seq<char>>) -> Seq<Seq<char>> {
    if args.contains(TRANSPORT_FLAG@) {
        args
    } else {
        args.push(TRANSPORT_FLAG@)
    }
}

/// The arguments with `flag` and `value` appended, unless `flag` is already
/// among them or there is no value that is not blank.
pub open spec fn bridged(args: Seq<Seq<char>>, flag: Seq<char>, value: Option<Seq<char>>) -> Seq<
    Seq<char>,
> {
    match value {
        Some(v) if !args.contains(flag) && !blank(v) => args.push(flag).push(v),
        _ => args,
    }
}

/// The installation directory that the environment table names: the value
/// under the primary name if that name is set at all, else the one under the
/// fallback name.
pub open spec fn install_path(env: Seq<(Seq<char>, Seq<char>)>) -> Option<Seq<char>> {
    match lookup(env, INSTALL_PATH_KEY@) {
        Some(v) => Some(v),
        None => lookup(env, INSTALL_PATH_FALLBACK_KEY@),
    }
}

/// The arguments after the transport flag and the installation directory
/// have been seen to.
pub open spec fn with_install_path(
    args: Seq<Seq<char>>,
    env: Seq<(Seq<char>, Seq<char>)>,
) -> Seq<Seq<char>> {
    bridged(with_transport(args), INSTALL_PATH_FLAG@, install_path(env))
}

/// The arguments that the server is started with.
pub open spec fn launch_arguments(
    args: Seq<Seq<char>>,
    env: Seq<(Seq<char>, Seq<char>)>,
) -> Seq<Seq<char>> {
    bridged(
        with_install_path(args, env),
        CONNECTION_TIMING_FLAG@,
        lookup(env, CONNECTION_TIMING_KEY@),
    )
}

/// What a settings block with an executable turns into.
pub open spec fn assembled(
    path: Seq<char>,
    arguments: Option<Seq<Seq<char>>>,
    env: Option<Seq<(Seq<char>, Seq<char>)>>,
) -> LaunchSpecView {
    let args = match arguments {
        Some(a) => a,
        None => Seq::empty(),
    };
    let vars = match env {
        Some(e) => e,
        None => Seq::empty(),
    };
    LaunchSpecView { command: path, args: launch_arguments(args, vars), env: vars }
}

/// The answer to a request for the server `id`, given what the settings
/// store returned for it.
pub open spec fn outcome(
    id: Seq<char>,
    looked_up: Result<Option<BinarySettingsView>, Seq<char>>,
) -> Result<LaunchSpecView, ConfigErrorView> {
    if id != SERVER_ID@ {
        Err(ConfigErrorView::UnknownServerId)
    } else {
        match looked_up {
            Err(m) => Err(ConfigErrorView::SettingsReadError(m)),
            Ok(None) => Err(ConfigErrorView::MissingConfiguration),
            Ok(Some(b)) => match b.path {
                None => Err(ConfigErrorView::MissingPath),
                Some(p) => Ok(assembled(p, b.arguments, b.env)),
            },
        }
    }
}

/// The content of what a settings lookup returned.
pub open spec fn looked_up_view(
    looked_up: Result<Option<BinarySettings>, String>,
) -> Result<Option<BinarySettingsView>, Seq<char>> {
    match looked_up {
        Ok(Some(b)) => Ok(Some(b@)),
        Ok(None) => Ok(None),
        Err(m) => Err(m@),
    }
}

/// The content of a builder's answer.
pub open spec fn answer_view(r: Result<LaunchSpec, ConfigError>) -> Result<
    LaunchSpecView,
    ConfigErrorView,
> {
    match r {
        Ok(s) => Ok(s@),
        Err(e) => Err(e@),
    }
}

/// The content of an optional string.
pub open spec fn optional_text(v: Option<&String>) -> Option<Seq<char>> {
    match v {
        Some(s) => Some(s@),
        None => None,
    }
}

/// Accepts [`SERVER_ID`] and nothing else. The host calls this before it
/// reads any settings, so that a foreign identifier costs no lookup.
pub fn check_server_id(server_id: &str) -> (r: Result<(), ConfigError>)
    ensures
        r is Ok <==> server_id@ == SERVER_ID@,
        r matches Err(e) ==> e == ConfigError::UnknownServerId,
{
    if same_text(server_id, SERVER_ID) {
        Ok(())
    } else {
        Err(ConfigError::UnknownServerId)
    }
}

/// Appends the transport flag unless it is already among `args`.
pub fn ensure_transport(args: &mut Vec<String>)
    ensures
        texts(final(args)@) == with_transport(texts(old(args)@)),
{
    if !contains_text(args, TRANSPORT_FLAG) {
        let flag: String = String::from_str(TRANSPORT_FLAG);
        proof {
            lemma_texts_push(args@, flag);
        }
        args.push(flag);
    }
}

/// Appends `flag` and `value` unless `flag` is already among `args`, or
/// `value` is absent or blank.
pub fn bridge(args: &mut Vec<String>, flag: &str, value: Option<&String>)
    ensures
        texts(final(args)@) == bridged(texts(old(args)@), flag@, optional_text(value)),
{
    if !contains_text(args, flag) {
        if let Some(v) = value {
            if !is_blank(v.as_str()) {
                let name: String = String::from_str(flag);
                let text: String = v.clone();
                proof {
                    lemma_texts_push(args@, name);
                    lemma_texts_push(args@.push(name), text);
                }
                args.push(name);
                args.push(text);
            }
        }
    }
}

/// Completes the configured arguments: the transport flag first, then the
/// installation directory and the connection timing from `env`, each only
/// where the arguments do not carry the flag themselves.
pub fn complete_arguments(args: Vec<String>, env: &Vec<(String, String)>) -> (r: Vec<String>)
    ensures
        texts(r@) == launch_arguments(texts(args@), pairs(env@)),
{
    let mut args = args;
    ensure_transport(&mut args);
    let install: Option<&String> = match env_get(env, INSTALL_PATH_KEY) {
        Some(v) => Some(v),
        None => env_get(env, INSTALL_PATH_FALLBACK_KEY),
    };
    bridge(&mut args, INSTALL_PATH_FLAG, install);
    let timing: Option<&String> = env_get(env, CONNECTION_TIMING_KEY);
    bridge(&mut args, CONNECTION_TIMING_FLAG, timing);
    args
}

/// Builds the launch specification for `server_id` from what the settings
/// store returned for it.
pub fn build_launch_command(
    server_id: &str,
    looked_up: Result<Option<BinarySettings>, String>,
) -> (r: Result<LaunchSpec, ConfigError>)
    ensures
        answer_view(r) == outcome(server_id@, looked_up_view(looked_up)),
        server_id@ != SERVER_ID@ ==> r == Err::<LaunchSpec, ConfigError>(
            ConfigError::UnknownServerId,
        ),
        server_id@ == SERVER_ID@ ==> match looked_up {
            Err(m) => r matches Err(ConfigError::SettingsReadError(t)) && t@ == m@,
            Ok(None) => r == Err::<LaunchSpec, ConfigError>(ConfigError::MissingConfiguration),
            Ok(Some(b)) => match b.path {
                None => r == Err::<LaunchSpec, ConfigError>(ConfigError::MissingPath),
                Some(p) => r matches Ok(s) && s@ == assembled(p@, b@.arguments, b@.env),
            },
        },
{
    if !same_text(server_id, SERVER_ID) {
        return Err(ConfigError::UnknownServerId);
    }
    let found: Option<BinarySettings> = match looked_up {
        Ok(found) => found,
        Err(m) => {
            return Err(ConfigError::SettingsReadError(m));
        },
    };
    let settings: BinarySettings = match found {
        Some(b) => b,
        None => {
            return Err(ConfigError::MissingConfiguration);
        },
    };
    let BinarySettings { path, arguments, env } = settings;
    let command: String = match path {
        Some(p) => p,
        None => {
            return Err(ConfigError::MissingPath);
        },
    };
    let env: Vec<(String, String)> = match env {
        Some(e) => e,
        None => Vec::new(),
    };
    let args: Vec<String> = match arguments {
        Some(a) => a,
        None => Vec::new(),
    };
    proof {
        assert(texts(Seq::<String>::empty()) =~= Seq::<Seq<char>>::empty());
        assert(pairs(Seq::<(String, String)>::empty()) =~= Seq::<(Seq<char>, Seq<char>)>::empty());
    }
    let args: Vec<String> = complete_arguments(args, &env);
    Ok(LaunchSpec { command, args, env })
}

} // verus!
