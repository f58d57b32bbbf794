//! The command-line surface: which command a process invocation asks for.
//!
//! The daemon's bundled client takes one command word and, for `disable`, an
//! optional duration.  A bare `disable` falls back to a canonical default
//! window.  A malformed duration is a usage error surfaced to the user;
//! extra trailing arguments are ignored.  With no arguments at all the
//! process runs the daemon itself.

use vstd::prelude::*;

use crate::text::decimal_value;
use crate::text::is_decimal;
use crate::text::parse_u64;
use crate::text::str_eq;

verus! {

/// Default suppression window, in seconds, for a bare `disable` invocation.
pub const DEFAULT_DISABLE_SECS: u64 = 3600;

/// A parsed command-line invocation.
#[derive(Clone, Copy, PartialEq, Eq, Structural, Debug)]
pub enum CliCommand {
    /// No arguments: run the daemon itself.
    RunDaemon,
    /// `enable`: clear suppression.
    Enable,
    /// `disable [seconds]`: suppress for the given window,
    /// `DEFAULT_DISABLE_SECS` when omitted.
    Disable { seconds: u64 },
    /// `status`: print the daemon's current state.
    Status,
    /// `quit`: ask the daemon to shut down.
    Quit,
}

/// A usage error in the command line.
#[derive(Clone, Copy, PartialEq, Eq, Structural, Debug)]
pub enum CliError {
    /// The first argument is not one of the four command words.
    UnknownCommand,
    /// The `disable` duration is not a base-ten numeral that fits in 64 bits.
    MalformedDuration,
}

/// What a list of arguments (everything after the program name) parses to.
pub open spec fn spec_parse_args(args: Seq<Seq<char>>) -> Result<CliCommand, CliError> {
    if args.len() == 0 {
        Ok(CliCommand::RunDaemon)
    } else if args[0] == "enable"@ {
        Ok(CliCommand::Enable)
    } else if args[0] == "status"@ {
        Ok(CliCommand::Status)
    } else if args[0] == "quit"@ {
        Ok(CliCommand::Quit)
    } else if args[0] == "disable"@ {
        if args.len() == 1 {
            Ok(CliCommand::Disable { seconds: DEFAULT_DISABLE_SECS })
        } else if is_decimal(args[1]) && decimal_value(args[1]) <= u64::MAX {
            Ok(CliCommand::Disable { seconds: decimal_value(args[1]) as u64 })
        } else {
            Err(CliError::MalformedDuration)
        }
    } else {
        Err(CliError::UnknownCommand)
    }
}

/// Parse the arguments after the program name into a command.
pub fn parse_args(args: &Vec<String>) -> (r: Result<CliCommand, CliError>)
    ensures
        r == spec_parse_args(args@.map_values(|a: String| a@)),
{
    if args.len() == 0 {
        return Ok(CliCommand::RunDaemon);
    }
    let first: &str = args[0].as_str();
    if str_eq(first, "enable") {
        Ok(CliCommand::Enable)
    } else if str_eq(first, "status") {
        Ok(CliCommand::Status)
    } else if str_eq(first, "quit") {
        Ok(CliCommand::Quit)
    } else if str_eq(first, "disable") {
        if args.len() == 1 {
            Ok(CliCommand::Disable { seconds: DEFAULT_DISABLE_SECS })
        } else {
            match parse_u64(args[1].as_str()) {
                Some(seconds) => Ok(CliCommand::Disable { seconds }),
                None => Err(CliError::MalformedDuration),
            }
        }
    } else {
        Err(CliError::UnknownCommand)
    }
}

} // verus!
