use matlab_lsp_launch::launch::{
    bridge, build_launch_command, check_server_id, complete_arguments, ensure_transport,
    ConfigError, LaunchSpec, CONNECTION_TIMING_FLAG, INSTALL_PATH_FLAG, SERVER_ID, TRANSPORT_FLAG,
};
use matlab_lsp_launch::options::initialization_options;
use matlab_lsp_launch::settings::{env_get, BinarySettings};
use matlab_lsp_launch::text::{contains_text, is_blank, same_text};

fn strings(items: &[&str]) -> Vec<String> {
    items.iter().map(|s| s.to_string()).collect()
}

fn table(items: &[(&str, &str)]) -> Vec<(String, String)> {
    items.iter().map(|(k, v)| (k.to_string(), v.to_string())).collect()
}

fn block(path: &str, arguments: &[&str], env: &[(&str, &str)]) -> BinarySettings {
    BinarySettings {
        path: Some(path.to_string()),
        arguments: Some(strings(arguments)),
        env: Some(table(env)),
    }
}

fn launch(arguments: &[&str], env: &[(&str, &str)]) -> LaunchSpec {
    build_launch_command(SERVER_ID, Ok(Some(block("node", arguments, env)))).unwrap()
}

#[test]
fn supported_identifier_is_the_matlab_server() {
    assert_eq!(SERVER_ID, "matlab-language-server");
    assert_eq!(check_server_id("matlab-language-server"), Ok(()));
}

#[test]
fn foreign_identifier_is_refused() {
    assert_eq!(check_server_id("rust-analyzer"), Err(ConfigError::UnknownServerId));
    assert_eq!(check_server_id(""), Err(ConfigError::UnknownServerId));
    assert_eq!(check_server_id("matlab-language-server "), Err(ConfigError::UnknownServerId));
    assert_eq!(check_server_id("Matlab-Language-Server"), Err(ConfigError::UnknownServerId));
}

#[test]
fn foreign_identifier_fails_whatever_the_settings_hold() {
    let good = Ok(Some(block("node", &["/out/index.js"], &[])));
    assert_eq!(build_launch_command("pyright", good), Err(ConfigError::UnknownServerId));
    assert_eq!(build_launch_command("pyright", Ok(None)), Err(ConfigError::UnknownServerId));
    assert_eq!(
        build_launch_command("pyright", Err("store is down".to_string())),
        Err(ConfigError::UnknownServerId)
    );
}

#[test]
fn unreadable_store_carries_its_message() {
    let r = build_launch_command(SERVER_ID, Err("permission denied".to_string()));
    assert_eq!(r, Err(ConfigError::SettingsReadError("permission denied".to_string())));
    assert_eq!(
        r.unwrap_err().message(),
        "Failed to read Zed settings for matlab-language-server: permission denied"
    );
}

#[test]
fn absent_block_is_missing_configuration() {
    let r = build_launch_command(SERVER_ID, Ok(None));
    assert_eq!(r, Err(ConfigError::MissingConfiguration));
    assert_eq!(
        r.unwrap_err().message(),
        "Configure Zed: lsp.matlab-language-server.binary.path and .arguments (e.g. node + out/index.js --stdio)"
    );
}

#[test]
fn absent_path_is_missing_path() {
    let b = BinarySettings {
        path: None,
        arguments: Some(strings(&["/out/index.js", "--stdio"])),
        env: Some(table(&[("MATLAB_INSTALL_PATH", "/opt/matlab")])),
    };
    let r = build_launch_command(SERVER_ID, Ok(Some(b)));
    assert_eq!(r, Err(ConfigError::MissingPath));
    assert_eq!(r.unwrap_err().message(), "lsp.matlab-language-server.binary.path is required");
    let bare = BinarySettings { path: None, arguments: None, env: None };
    assert_eq!(build_launch_command(SERVER_ID, Ok(Some(bare))), Err(ConfigError::MissingPath));
}

#[test]
fn unknown_identifier_message() {
    assert_eq!(ConfigError::UnknownServerId.message(), "Unknown language server id");
}

#[test]
fn repeated_calls_give_the_same_specification() {
    let env = [
        ("MATLAB_INSTALL_PATH", "/opt/matlab"),
        ("MATLAB_LSP_CONNECTION_TIMING", "onDemand"),
    ];
    let first = launch(&["/out/index.js"], &env);
    let second = launch(&["/out/index.js"], &env);
    assert_eq!(first, second);
    assert_eq!(
        first.args,
        strings(&[
            "/out/index.js",
            "--stdio",
            "--matlabInstallPath",
            "/opt/matlab",
            "--matlabConnectionTiming",
            "onDemand",
        ])
    );
    assert_eq!(first.env, table(&env));
}

#[test]
fn transport_flag_is_not_duplicated() {
    assert_eq!(launch(&["--stdio"], &[]).args, strings(&["--stdio"]));
    assert_eq!(
        launch(&["/out/index.js", "--stdio", "--verbose"], &[]).args,
        strings(&["/out/index.js", "--stdio", "--verbose"])
    );
}

#[test]
fn transport_flag_is_matched_exactly() {
    assert_eq!(
        launch(&["--stdio=1", " --stdio"], &[]).args,
        strings(&["--stdio=1", " --stdio", "--stdio"])
    );
}

#[test]
fn primary_install_path_takes_precedence() {
    let spec = launch(&[], &[("MATLAB_LSP_INSTALL_PATH", "A"), ("MATLAB_INSTALL_PATH", "B")]);
    assert_eq!(spec.args, strings(&["--stdio", "--matlabInstallPath", "A"]));
    let swapped = launch(&[], &[("MATLAB_INSTALL_PATH", "B"), ("MATLAB_LSP_INSTALL_PATH", "A")]);
    assert_eq!(swapped.args, strings(&["--stdio", "--matlabInstallPath", "A"]));
}

#[test]
fn fallback_install_path_is_used_when_primary_is_unset() {
    let spec = launch(&["/out/index.js"], &[("MATLAB_INSTALL_PATH", "B")]);
    assert_eq!(spec.args, strings(&["/out/index.js", "--stdio", "--matlabInstallPath", "B"]));
}

#[test]
fn blank_primary_install_path_hides_the_fallback() {
    let spec = launch(&[], &[("MATLAB_LSP_INSTALL_PATH", "  "), ("MATLAB_INSTALL_PATH", "B")]);
    assert_eq!(spec.args, strings(&["--stdio"]));
}

#[test]
fn explicit_install_flag_skips_bridging() {
    let spec = launch(&["--matlabInstallPath", "/x"], &[("MATLAB_INSTALL_PATH", "B")]);
    assert_eq!(spec.args, strings(&["--matlabInstallPath", "/x", "--stdio"]));
    assert_eq!(spec.env, table(&[("MATLAB_INSTALL_PATH", "B")]));
}

#[test]
fn blank_timing_is_treated_as_absent() {
    assert_eq!(launch(&[], &[("MATLAB_LSP_CONNECTION_TIMING", "")]).args, strings(&["--stdio"]));
    assert_eq!(
        launch(&[], &[("MATLAB_LSP_CONNECTION_TIMING", " \t\n")]).args,
        strings(&["--stdio"])
    );
    assert_eq!(
        launch(&[], &[("MATLAB_LSP_CONNECTION_TIMING", "\u{3000}\u{a0}")]).args,
        strings(&["--stdio"])
    );
}

#[test]
fn timing_is_bridged_with_its_value_untrimmed() {
    let spec = launch(&["--stdio"], &[("MATLAB_LSP_CONNECTION_TIMING", " onStart ")]);
    assert_eq!(spec.args, strings(&["--stdio", "--matlabConnectionTiming", " onStart "]));
}

#[test]
fn explicit_timing_flag_skips_bridging() {
    let spec = launch(
        &["--matlabConnectionTiming", "never"],
        &[("MATLAB_LSP_CONNECTION_TIMING", "onStart")],
    );
    assert_eq!(spec.args, strings(&["--matlabConnectionTiming", "never", "--stdio"]));
}

#[test]
fn install_value_that_reads_as_the_timing_flag_counts_as_that_flag() {
    let spec = launch(
        &[],
        &[
            ("MATLAB_INSTALL_PATH", "--matlabConnectionTiming"),
            ("MATLAB_LSP_CONNECTION_TIMING", "onStart"),
        ],
    );
    assert_eq!(
        spec.args,
        strings(&["--stdio", "--matlabInstallPath", "--matlabConnectionTiming"])
    );
}

#[test]
fn end_to_end_minimal_configuration() {
    let spec = launch(&["/out/index.js"], &[]);
    assert_eq!(spec.command, "node");
    assert_eq!(spec.args, strings(&["/out/index.js", "--stdio"]));
    assert_eq!(spec.env, Vec::<(String, String)>::new());
}

#[test]
fn absent_arguments_and_environment_default_to_empty() {
    let b = BinarySettings { path: Some("matlab-ls".to_string()), arguments: None, env: None };
    let spec = build_launch_command(SERVER_ID, Ok(Some(b))).unwrap();
    assert_eq!(spec.command, "matlab-ls");
    assert_eq!(spec.args, strings(&["--stdio"]));
    assert!(spec.env.is_empty());
}

#[test]
fn empty_path_is_passed_through() {
    let spec = build_launch_command(SERVER_ID, Ok(Some(block("", &[], &[])))).unwrap();
    assert_eq!(spec.command, "");
}

#[test]
fn environment_is_handed_on_in_order() {
    let env = [("B", "2"), ("A", "1"), ("MATLAB_INSTALL_PATH", "/m")];
    assert_eq!(launch(&[], &env).env, table(&env));
}

#[test]
fn ensure_transport_appends_only_when_missing() {
    let mut args = strings(&["a"]);
    ensure_transport(&mut args);
    assert_eq!(args, strings(&["a", "--stdio"]));
    ensure_transport(&mut args);
    assert_eq!(args, strings(&["a", "--stdio"]));
    assert_eq!(TRANSPORT_FLAG, "--stdio");
}

#[test]
fn bridge_appends_flag_and_value() {
    let mut args = strings(&["a"]);
    let value = "v".to_string();
    bridge(&mut args, INSTALL_PATH_FLAG, Some(&value));
    assert_eq!(args, strings(&["a", "--matlabInstallPath", "v"]));
    bridge(&mut args, INSTALL_PATH_FLAG, Some(&value));
    assert_eq!(args, strings(&["a", "--matlabInstallPath", "v"]));
    bridge(&mut args, CONNECTION_TIMING_FLAG, None);
    assert_eq!(args, strings(&["a", "--matlabInstallPath", "v"]));
    let blank = " ".to_string();
    bridge(&mut args, CONNECTION_TIMING_FLAG, Some(&blank));
    assert_eq!(args, strings(&["a", "--matlabInstallPath", "v"]));
    assert_eq!(CONNECTION_TIMING_FLAG, "--matlabConnectionTiming");
}

#[test]
fn complete_arguments_runs_all_three_steps() {
    let env = table(&[
        ("MATLAB_LSP_CONNECTION_TIMING", "onStart"),
        ("MATLAB_LSP_INSTALL_PATH", "/m"),
    ]);
    assert_eq!(
        complete_arguments(strings(&["x"]), &env),
        strings(&[
            "x",
            "--stdio",
            "--matlabInstallPath",
            "/m",
            "--matlabConnectionTiming",
            "onStart",
        ])
    );
}

#[test]
fn env_get_returns_the_first_pair_so_named() {
    let env = table(&[("A", "1"), ("B", "2"), ("A", "3")]);
    assert_eq!(env_get(&env, "A"), Some(&"1".to_string()));
    assert_eq!(env_get(&env, "B"), Some(&"2".to_string()));
    assert_eq!(env_get(&env, "C"), None);
    assert_eq!(env_get(&env, "a"), None);
    assert_eq!(env_get(&Vec::new(), "A"), None);
}

#[test]
fn blank_means_whitespace_only() {
    assert!(is_blank(""));
    assert!(is_blank(" "));
    assert!(is_blank("\t\r\n "));
    assert!(is_blank("\u{2003}"));
    assert!(!is_blank("a"));
    assert!(!is_blank("  a  "));
    assert!(!is_blank("\u{200b}"));
    assert!(!is_blank("_"));
}

#[test]
fn text_comparisons_are_exact() {
    assert!(same_text("--stdio", "--stdio"));
    assert!(!same_text("--stdio", "--STDIO"));
    assert!(!same_text("", " "));
    assert!(contains_text(&strings(&["a", "b"]), "b"));
    assert!(!contains_text(&strings(&["a", "b"]), "ab"));
    assert!(!contains_text(&Vec::new(), ""));
    assert!(contains_text(&strings(&[""]), ""));
}

#[test]
fn initialization_options_are_none() {
    assert_eq!(initialization_options(SERVER_ID).unwrap(), None);
    assert_eq!(initialization_options("anything").unwrap(), None);
}
