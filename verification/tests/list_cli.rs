use baton::cli::CliError;
use baton::cli::ListPipesArgs;

fn argv(args: &[&str]) -> Vec<String> {
    args.iter().map(|s| s.to_string()).collect()
}

#[test]
fn list_pipes_test_cli_args_valid() {
    ListPipesArgs::try_parse_from(argv(&["list_pipes"])).unwrap();
}

#[test]
fn test_parse_no_args() {
    let args = ListPipesArgs::try_parse_from(argv(&["list_pipes"])).unwrap();
    assert!(args.filter.is_none());
    assert!(!args.verbose);
}

#[test]
fn test_parse_filter() {
    let args = ListPipesArgs::try_parse_from(argv(&["list_pipes", "-f", "docker_*"])).unwrap();
    assert_eq!(args.filter.as_deref(), Some("docker_*"));
}

#[test]
fn test_parse_filter_long() {
    let args = ListPipesArgs::try_parse_from(argv(&["list_pipes", "--filter", "gpg-*"])).unwrap();
    assert_eq!(args.filter.as_deref(), Some("gpg-*"));
}

#[test]
fn test_parse_verbose() {
    let args = ListPipesArgs::try_parse_from(argv(&["list_pipes", "-v"])).unwrap();
    assert!(args.verbose);
}

#[test]
fn test_parse_verbose_long() {
    let args = ListPipesArgs::try_parse_from(argv(&["list_pipes", "--verbose"])).unwrap();
    assert!(args.verbose);
}

#[test]
fn test_parse_filter_and_verbose() {
    let args =
        ListPipesArgs::try_parse_from(argv(&["list_pipes", "-v", "-f", "agent*"])).unwrap();
    assert_eq!(args.filter.as_deref(), Some("agent*"));
    assert!(args.verbose);
}

#[test]
fn test_parse_path() {
    let args = ListPipesArgs::try_parse_from(argv(&["list_pipes", "-p"])).unwrap();
    assert!(args.path);
}

#[test]
fn test_parse_path_long() {
    let args = ListPipesArgs::try_parse_from(argv(&["list_pipes", "--path"])).unwrap();
    assert!(args.path);
}

#[test]
fn list_pipes_test_parse_all_flags() {
    let args =
        ListPipesArgs::try_parse_from(argv(&["list_pipes", "-v", "-p", "-f", "agent*"])).unwrap();
    assert_eq!(args.filter.as_deref(), Some("agent*"));
    assert!(args.verbose);
    assert!(args.path);
}

#[test]
fn list_pipes_test_version_flag() {
    let result = ListPipesArgs::try_parse_from(argv(&["list_pipes", "--version"]));
    let err = result.unwrap_err();
    assert_eq!(err, CliError::DisplayVersion);
}

#[test]
fn list_pipes_test_help_flag() {
    let result = ListPipesArgs::try_parse_from(argv(&["list_pipes", "--help"]));
    let err = result.unwrap_err();
    assert_eq!(err, CliError::DisplayHelp);
}

#[test]
fn test_filter_without_value_refused() {
    let result = ListPipesArgs::try_parse_from(argv(&["list_pipes", "-f"]));
    assert_eq!(result.unwrap_err(), CliError::MissingValue);
}

#[test]
fn test_positional_refused() {
    let result = ListPipesArgs::try_parse_from(argv(&["list_pipes", "docker"]));
    assert_eq!(result.unwrap_err(), CliError::UnexpectedArgument);
}
