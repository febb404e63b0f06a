//! Command-line grammar of the relay and of the pipe-listing tool, and the
//! configuration record the core consumes.

use vstd::prelude::*;
use vstd::string::StrSliceExecFns;
use vstd::string::StringExecFns;

verus! {

/// The relay's arguments as given on the command line.
#[derive(Debug)]
pub struct CliArgs {
    /// Poll every 200 ms until the named pipe exists and is not busy.
    pub poll: bool,
    /// When polling, limit attempts to 300.
    pub limited_poll: bool,
    /// Send a zero-byte message to the pipe after EOF on stdin.
    pub send_zero: bool,
    /// Exit immediately on EOF when reading from the pipe.
    pub exit_on_pipe_eof: bool,
    /// Exit immediately on EOF when reading from stdin.
    pub exit_on_stdin_eof: bool,
    /// Hide the console window and run in the background.
    pub bg: bool,
    /// Treat the target as an Assuan file socket.
    pub assuan: bool,
    /// Enable verbose output on stderr.
    pub verbose: bool,
    /// Named pipe name or Assuan socket path.
    pub pipe_name: String,
}

/// Why parsing returned no arguments.
#[derive(Debug, PartialEq, Eq, Structural)]
pub enum CliError {
    /// Help was asked for.
    DisplayHelp,
    /// The version was asked for.
    DisplayVersion,
    /// An argument starting with a dash is not a known flag.
    UnknownFlag,
    /// A flag that takes a value came last, without one.
    MissingValue,
    /// The required target is missing.
    MissingTarget,
    /// More than one positional argument was given.
    UnexpectedArgument,
}

/// The parsed arguments as specification values.
pub struct SpecCliArgs {
    pub poll: bool,
    pub limited_poll: bool,
    pub send_zero: bool,
    pub exit_on_pipe_eof: bool,
    pub exit_on_stdin_eof: bool,
    pub bg: bool,
    pub assuan: bool,
    pub verbose: bool,
    pub pipe_name: Option<Seq<char>>,
}

/// The empty accumulator: no flag set, no target seen.
pub open spec fn spec_cli_start() -> SpecCliArgs {
    SpecCliArgs {
        poll: false,
        limited_poll: false,
        send_zero: false,
        exit_on_pipe_eof: false,
        exit_on_stdin_eof: false,
        bg: false,
        assuan: false,
        verbose: false,
        pipe_name: None,
    }
}

/// The views of the argument strings.
pub open spec fn arg_views(args: Seq<String>) -> Seq<Seq<char>> {
    args.map_values(|s: String| s@)
}

/// The relay's grammar, read from argument `i` on with what was seen so
/// far: help and version stop at once; each known flag sets its field; an
/// unknown dash argument is refused; the first bare argument is the
/// target, a second one is refused; at the end the target must be there.
pub open spec fn spec_parse_cli_from(args: Seq<Seq<char>>, i: nat, acc: SpecCliArgs) -> Result<
    SpecCliArgs,
    CliError,
>
    decreases args.len() - i,
{
    if i >= args.len() {
        if acc.pipe_name is Some {
            Ok(acc)
        } else {
            Err(CliError::MissingTarget)
        }
    } else {
        let a = args[i as int];
        if a == "-h"@ || a == "--help"@ {
            Err(CliError::DisplayHelp)
        } else if a == "-V"@ || a == "--version"@ {
            Err(CliError::DisplayVersion)
        } else if a == "-p"@ {
            spec_parse_cli_from(args, i + 1, SpecCliArgs { poll: true, ..acc })
        } else if a == "-l"@ {
            spec_parse_cli_from(args, i + 1, SpecCliArgs { limited_poll: true, ..acc })
        } else if a == "-s"@ {
            spec_parse_cli_from(args, i + 1, SpecCliArgs { send_zero: true, ..acc })
        } else if a == "--ep"@ {
            spec_parse_cli_from(args, i + 1, SpecCliArgs { exit_on_pipe_eof: true, ..acc })
        } else if a == "--ei"@ {
            spec_parse_cli_from(args, i + 1, SpecCliArgs { exit_on_stdin_eof: true, ..acc })
        } else if a == "--bg"@ {
            spec_parse_cli_from(args, i + 1, SpecCliArgs { bg: true, ..acc })
        } else if a == "-a"@ {
            spec_parse_cli_from(args, i + 1, SpecCliArgs { assuan: true, ..acc })
        } else if a == "-v"@ {
            spec_parse_cli_from(args, i + 1, SpecCliArgs { verbose: true, ..acc })
        } else if a.len() > 0 && a[0] == '-' {
            Err(CliError::UnknownFlag)
        } else if acc.pipe_name is Some {
            Err(CliError::UnexpectedArgument)
        } else {
            spec_parse_cli_from(args, i + 1, SpecCliArgs { pipe_name: Some(a), ..acc })
        }
    }
}

/// The relay's grammar over a whole command line; the first element is the
/// program's own name and is skipped.
pub open spec fn spec_parse_cli(argv: Seq<Seq<char>>) -> Result<SpecCliArgs, CliError> {
    spec_parse_cli_from(argv, 1, spec_cli_start())
}

/// Whether parsed arguments agree with their specification value.
pub open spec fn cli_args_match(c: CliArgs, s: SpecCliArgs) -> bool {
    &&& c.poll == s.poll
    &&& c.limited_poll == s.limited_poll
    &&& c.send_zero == s.send_zero
    &&& c.exit_on_pipe_eof == s.exit_on_pipe_eof
    &&& c.exit_on_stdin_eof == s.exit_on_stdin_eof
    &&& c.bg == s.bg
    &&& c.assuan == s.assuan
    &&& c.verbose == s.verbose
    &&& s.pipe_name == Some(c.pipe_name@)
}

impl CliArgs {
    /// Parses the relay's command line, program name first: exactly the
    /// grammar of [`spec_parse_cli`].
    pub fn try_parse_from(args: Vec<String>) -> (r: Result<CliArgs, CliError>)
        ensures
            r is Ok <==> spec_parse_cli(arg_views(args@)) is Ok,
            r matches Ok(c) ==> cli_args_match(c, spec_parse_cli(arg_views(args@))->Ok_0),
            r matches Err(e) ==> Err::<SpecCliArgs, CliError>(e) == spec_parse_cli(
                arg_views(args@),
            ),
    {
        let f_help_s = String::from_str("-h");
        let f_help = String::from_str("--help");
        let f_version_s = String::from_str("-V");
        let f_version = String::from_str("--version");
        let f_poll = String::from_str("-p");
        let f_limited = String::from_str("-l");
        let f_send_zero = String::from_str("-s");
        let f_ep = String::from_str("--ep");
        let f_ei = String::from_str("--ei");
        let f_bg = String::from_str("--bg");
        let f_assuan = String::from_str("-a");
        let f_verbose = String::from_str("-v");

        let mut poll = false;
        let mut limited_poll = false;
        let mut send_zero = false;
        let mut exit_on_pipe_eof = false;
        let mut exit_on_stdin_eof = false;
        let mut bg = false;
        let mut assuan = false;
        let mut verbose = false;
        let mut pipe_name: Option<String> = None;

        let ghost views = arg_views(args@);
        let mut i: usize = 1;
        while i < args.len()
            invariant
                1 <= i,
                views == arg_views(args@),
                f_help_s@ == "-h"@ && f_help@ == "--help"@ && f_version_s@ == "-V"@ && f_version@
                    == "--version"@,
                f_poll@ == "-p"@ && f_limited@ == "-l"@ && f_send_zero@ == "-s"@ && f_ep@ == "--ep"@
                    && f_ei@ == "--ei"@ && f_bg@ == "--bg"@ && f_assuan@ == "-a"@ && f_verbose@
                    == "-v"@,
                spec_parse_cli_from(
                    views,
                    i as nat,
                    SpecCliArgs {
                        poll,
                        limited_poll,
                        send_zero,
                        exit_on_pipe_eof,
                        exit_on_stdin_eof,
                        bg,
                        assuan,
                        verbose,
                        pipe_name: match pipe_name {
                            Some(p) => Some(p@),
                            None => None,
                        },
                    },
                ) == spec_parse_cli(views),
            decreases args@.len() - i,
        {
            let arg = &args[i];
            if *arg == f_help_s || *arg == f_help {
                return Err(CliError::DisplayHelp);
            } else if *arg == f_version_s || *arg == f_version {
                return Err(CliError::DisplayVersion);
            } else if *arg == f_poll {
                poll = true;
            } else if *arg == f_limited {
                limited_poll = true;
            } else if *arg == f_send_zero {
                send_zero = true;
            } else if *arg == f_ep {
                exit_on_pipe_eof = true;
            } else if *arg == f_ei {
                exit_on_stdin_eof = true;
            } else if *arg == f_bg {
                bg = true;
            } else if *arg == f_assuan {
                assuan = true;
            } else if *arg == f_verbose {
                verbose = true;
            } else if arg.as_str().unicode_len() > 0 && arg.as_str().get_char(0) == '-' {
                return Err(CliError::UnknownFlag);
            } else if pipe_name.is_some() {
                return Err(CliError::UnexpectedArgument);
            } else {
                pipe_name = Some(arg.clone());
            }
            i = i + 1;
        }
        match pipe_name {
            Some(name) => Ok(
                CliArgs {
                    poll,
                    limited_poll,
                    send_zero,
                    exit_on_pipe_eof,
                    exit_on_stdin_eof,
                    bg,
                    assuan,
                    verbose,
                    pipe_name: name,
                },
            ),
            None => Err(CliError::MissingTarget),
        }
    }
}

/// The configuration consumed by connect and relay.
#[derive(Debug, Clone)]
pub struct Config {
    /// Named pipe name or Assuan socket path.
    pub pipe_name: String,
    /// Poll every 200 ms until the named pipe exists and is not busy.
    pub poll: bool,
    /// When polling, limit attempts to 300.
    pub limited_poll: bool,
    /// Send a zero-byte message to the pipe after EOF on stdin.
    pub send_zero: bool,
    /// Exit immediately on EOF when reading from the pipe.
    pub exit_on_pipe_eof: bool,
    /// Exit immediately on EOF when reading from stdin.
    pub exit_on_stdin_eof: bool,
    /// Hide the console window and run in the background.
    pub bg: bool,
    /// Treat the target as an Assuan file socket.
    pub assuan: bool,
    /// Enable verbose output on stderr.
    pub verbose: bool,
}

impl From<CliArgs> for Config {
    /// Carries every field over unchanged, as `from_spec` states.
    fn from(args: CliArgs) -> (r: Config) {
        Config {
            pipe_name: args.pipe_name,
            poll: args.poll,
            limited_poll: args.limited_poll,
            send_zero: args.send_zero,
            exit_on_pipe_eof: args.exit_on_pipe_eof,
            exit_on_stdin_eof: args.exit_on_stdin_eof,
            bg: args.bg,
            assuan: args.assuan,
            verbose: args.verbose,
        }
    }
}

impl vstd::std_specs::convert::FromSpecImpl<CliArgs> for Config {
    open spec fn obeys_from_spec() -> bool {
        true
    }

    open spec fn from_spec(args: CliArgs) -> Config {
        Config {
            pipe_name: args.pipe_name,
            poll: args.poll,
            limited_poll: args.limited_poll,
            send_zero: args.send_zero,
            exit_on_pipe_eof: args.exit_on_pipe_eof,
            exit_on_stdin_eof: args.exit_on_stdin_eof,
            bg: args.bg,
            assuan: args.assuan,
            verbose: args.verbose,
        }
    }
}

/// Whether a configuration agrees with parsed specification arguments.
pub open spec fn config_matches(c: Config, s: SpecCliArgs) -> bool {
    &&& c.poll == s.poll
    &&& c.limited_poll == s.limited_poll
    &&& c.send_zero == s.send_zero
    &&& c.exit_on_pipe_eof == s.exit_on_pipe_eof
    &&& c.exit_on_stdin_eof == s.exit_on_stdin_eof
    &&& c.bg == s.bg
    &&& c.assuan == s.assuan
    &&& c.verbose == s.verbose
    &&& s.pipe_name == Some(c.pipe_name@)
}

/// Parses a command line, program name first, into the configuration the
/// core consumes: the grammar of [`spec_parse_cli`], with the fields
/// carried over unchanged.
pub fn parse(args: Vec<String>) -> (r: Result<Config, CliError>)
    ensures
        r is Ok <==> spec_parse_cli(arg_views(args@)) is Ok,
        r matches Ok(c) ==> config_matches(c, spec_parse_cli(arg_views(args@))->Ok_0),
        r matches Err(e) ==> Err::<SpecCliArgs, CliError>(e) == spec_parse_cli(arg_views(args@)),
{
    match CliArgs::try_parse_from(args) {
        Ok(a) => Ok(Config::from(a)),
        Err(e) => Err(e),
    }
}

/// The pipe-listing tool's arguments as given on the command line.
#[derive(Debug)]
pub struct ListPipesArgs {
    /// Glob pattern to narrow the pipe names.
    pub filter: Option<String>,
    /// Enable verbose logging.
    pub verbose: bool,
    /// Print full pipe paths instead of bare names.
    pub path: bool,
}

/// The parsed listing arguments as specification values.
pub struct SpecListArgs {
    pub filter: Option<Seq<char>>,
    pub verbose: bool,
    pub path: bool,
}

/// The empty accumulator for the listing tool.
pub open spec fn spec_list_start() -> SpecListArgs {
    SpecListArgs { filter: None, verbose: false, path: false }
}

/// The listing tool's grammar, read from argument `i` on: help and version
/// stop at once; the filter flag takes the next argument as its value and
/// must not come last; the other flags set their field; anything else is
/// refused.
pub open spec fn spec_parse_list_from(args: Seq<Seq<char>>, i: nat, acc: SpecListArgs) -> Result<
    SpecListArgs,
    CliError,
>
    decreases args.len() - i,
{
    if i >= args.len() {
        Ok(acc)
    } else {
        let a = args[i as int];
        if a == "-h"@ || a == "--help"@ {
            Err(CliError::DisplayHelp)
        } else if a == "-V"@ || a == "--version"@ {
            Err(CliError::DisplayVersion)
        } else if a == "-f"@ || a == "--filter"@ {
            if i + 1 < args.len() {
                spec_parse_list_from(
                    args,
                    i + 2,
                    SpecListArgs { filter: Some(args[i + 1 as int]), ..acc },
                )
            } else {
                Err(CliError::MissingValue)
            }
        } else if a == "-v"@ || a == "--verbose"@ {
            spec_parse_list_from(args, i + 1, SpecListArgs { verbose: true, ..acc })
        } else if a == "-p"@ || a == "--path"@ {
            spec_parse_list_from(args, i + 1, SpecListArgs { path: true, ..acc })
        } else if a.len() > 0 && a[0] == '-' {
            Err(CliError::UnknownFlag)
        } else {
            Err(CliError::UnexpectedArgument)
        }
    }
}

/// The listing tool's grammar over a whole command line; the first element
/// is the program's own name and is skipped.
pub open spec fn spec_parse_list(argv: Seq<Seq<char>>) -> Result<SpecListArgs, CliError> {
    spec_parse_list_from(argv, 1, spec_list_start())
}

/// Whether parsed listing arguments agree with their specification value.
pub open spec fn list_args_match(c: ListPipesArgs, s: SpecListArgs) -> bool {
    &&& c.verbose == s.verbose
    &&& c.path == s.path
    &&& s.filter == (match c.filter {
        Some(f) => Some(f@),
        None => None,
    })
}

impl ListPipesArgs {
    /// Parses the listing tool's command line, program name first: exactly
    /// the grammar of [`spec_parse_list`].
    pub fn try_parse_from(args: Vec<String>) -> (r: Result<ListPipesArgs, CliError>)
        ensures
            r is Ok <==> spec_parse_list(arg_views(args@)) is Ok,
            r matches Ok(c) ==> list_args_match(c, spec_parse_list(arg_views(args@))->Ok_0),
            r matches Err(e) ==> Err::<SpecListArgs, CliError>(e) == spec_parse_list(
                arg_views(args@),
            ),
    {
        let f_help_s = String::from_str("-h");
        let f_help = String::from_str("--help");
        let f_version_s = String::from_str("-V");
        let f_version = String::from_str("--version");
        let f_filter_s = String::from_str("-f");
        let f_filter = String::from_str("--filter");
        let f_verbose_s = String::from_str("-v");
        let f_verbose = String::from_str("--verbose");
        let f_path_s = String::from_str("-p");
        let f_path = String::from_str("--path");

        let mut filter: Option<String> = None;
        let mut verbose = false;
        let mut path = false;

        let ghost views = arg_views(args@);
        let mut i: usize = 1;
        while i < args.len()
            invariant
                1 <= i,
                views == arg_views(args@),
                f_help_s@ == "-h"@ && f_help@ == "--help"@ && f_version_s@ == "-V"@ && f_version@
                    == "--version"@,
                f_filter_s@ == "-f"@ && f_filter@ == "--filter"@ && f_verbose_s@ == "-v"@
                    && f_verbose@ == "--verbose"@ && f_path_s@ == "-p"@ && f_path@ == "--path"@,
                spec_parse_list_from(
                    views,
                    i as nat,
                    SpecListArgs {
                        filter: match filter {
                            Some(f) => Some(f@),
                            None => None,
                        },
                        verbose,
                        path,
                    },
                ) == spec_parse_list(views),
            decreases args@.len() - i,
        {
            let arg = &args[i];
            if *arg == f_help_s || *arg == f_help {
                return Err(CliError::DisplayHelp);
            } else if *arg == f_version_s || *arg == f_version {
                return Err(CliError::DisplayVersion);
            } else if *arg == f_filter_s || *arg == f_filter {
                if i + 1 < args.len() {
                    filter = Some(args[i + 1].clone());
                    i = i + 2;
                } else {
                    return Err(CliError::MissingValue);
                }
            } else if *arg == f_verbose_s || *arg == f_verbose {
                verbose = true;
                i = i + 1;
            } else if *arg == f_path_s || *arg == f_path {
                path = true;
                i = i + 1;
            } else if arg.as_str().unicode_len() > 0 && arg.as_str().get_char(0) == '-' {
                return Err(CliError::UnknownFlag);
            } else {
                return Err(CliError::UnexpectedArgument);
            }
        }
        Ok(ListPipesArgs { filter, verbose, path })
    }
}

} // verus!
