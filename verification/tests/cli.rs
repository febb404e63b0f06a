use baton::cli::CliArgs;
use baton::cli::Config;

fn argv(args: &[&str]) -> Vec<String> {
    args.iter().map(|s| s.to_string()).collect()
}

#[test]
fn cli_test_cli_args_valid() {
    CliArgs::try_parse_from(argv(&["baton", "//./pipe/test"])).unwrap();
}

#[test]
fn test_parse_basic() {
    let args = CliArgs::try_parse_from(argv(&["baton", "//./pipe/test"])).unwrap();
    assert_eq!(args.pipe_name, "//./pipe/test");
    assert!(!args.poll);
    assert!(!args.verbose);
}

#[test]
fn cli_test_parse_all_flags() {
    let args = CliArgs::try_parse_from(argv(&[
        "baton", "-p", "-l", "-s", "--ep", "--ei", "--bg", "-a", "-v", "//./pipe/test",
    ]))
    .unwrap();
    assert!(args.poll);
    assert!(args.limited_poll);
    assert!(args.send_zero);
    assert!(args.exit_on_pipe_eof);
    assert!(args.exit_on_stdin_eof);
    assert!(args.bg);
    assert!(args.assuan);
    assert!(args.verbose);
}

#[test]
fn test_parse_missing_pipe_name() {
    let result = CliArgs::try_parse_from(argv(&["baton"]));
    assert!(result.is_err());
}

#[test]
fn test_config_from_args() {
    let args = CliArgs::try_parse_from(argv(&["baton", "-p", "-v", "//./pipe/test"])).unwrap();
    let config: Config = args.into();
    assert_eq!(config.pipe_name, "//./pipe/test");
    assert!(config.poll);
    assert!(config.verbose);
    assert!(!config.limited_poll);
    assert!(!config.assuan);
}

#[test]
fn test_parse_windows_style_path() {
    let args = CliArgs::try_parse_from(argv(&["baton", "\\\\.\\pipe\\openssh-ssh-agent"])).unwrap();
    assert_eq!(args.pipe_name, "\\\\.\\pipe\\openssh-ssh-agent");
}

#[test]
fn test_parse_unix_style_path() {
    let args = CliArgs::try_parse_from(argv(&["baton", "//./pipe/docker_engine"])).unwrap();
    assert_eq!(args.pipe_name, "//./pipe/docker_engine");
}

#[test]
fn test_parse_assuan_socket_path() {
    let args = CliArgs::try_parse_from(argv(&[
        "baton",
        "-a",
        "C:\\Users\\test\\AppData\\Roaming\\gnupg\\S.gpg-agent",
    ]))
    .unwrap();
    assert!(args.assuan);
    assert!(args.pipe_name.contains("gnupg"));
}

#[test]
fn cli_test_version_flag() {
    let result = CliArgs::try_parse_from(argv(&["baton", "--version"]));
    assert!(result.is_err());
}

#[test]
fn cli_test_help_flag() {
    let result = CliArgs::try_parse_from(argv(&["baton", "--help"]));
    assert!(result.is_err());
}

#[test]
fn test_unknown_flag() {
    let result = CliArgs::try_parse_from(argv(&["baton", "--unknown", "//./pipe/test"]));
    assert!(result.is_err());
}

#[test]
fn test_second_positional_refused() {
    let result = CliArgs::try_parse_from(argv(&["baton", "//./pipe/a", "//./pipe/b"]));
    assert_eq!(result.unwrap_err(), baton::cli::CliError::UnexpectedArgument);
}

#[test]
fn test_flags_after_positional() {
    let args = CliArgs::try_parse_from(argv(&["baton", "//./pipe/test", "-p"])).unwrap();
    assert!(args.poll);
    assert_eq!(args.pipe_name, "//./pipe/test");
}
