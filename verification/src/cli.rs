//! Argument dispatch: which command an invocation asks for. The program
//! takes `install <package>` or `uninstall <package>`; anything else earns
//! a usage or error message, never a failure exit.

use vstd::prelude::*;
use vstd::string::*;

use crate::Operation;

verus! {

/// What a command line asks for. The first argument is the program name;
/// the second selects the command; the third names the package.
#[derive(Debug, PartialEq, Eq)]
pub enum CliCommand {
    Usage,
    Install(String),
    Uninstall(String),
    MissingPackage(Operation),
    Unknown(String),
}

/// The command denoted by an argument list: too few arguments ask for the
/// usage message; `install`/`uninstall` without a package ask for the
/// "provide a package" message; any other command word is unknown.
pub open spec fn dispatch_spec(args: Seq<String>) -> CliCommand {
    if args.len() < 2 {
        CliCommand::Usage
    } else if args[1]@ == "install"@ {
        if args.len() < 3 {
            CliCommand::MissingPackage(Operation::Install)
        } else {
            CliCommand::Install(args[2])
        }
    } else if args[1]@ == "uninstall"@ {
        if args.len() < 3 {
            CliCommand::MissingPackage(Operation::Uninstall)
        } else {
            CliCommand::Uninstall(args[2])
        }
    } else {
        CliCommand::Unknown(args[1])
    }
}

pub fn dispatch(args: &Vec<String>) -> (r: CliCommand)
    ensures
        r == dispatch_spec(args@),
{
    if args.len() < 2 {
        return CliCommand::Usage;
    }
    if args[1] == String::from_str("install") {
        if args.len() < 3 {
            CliCommand::MissingPackage(Operation::Install)
        } else {
            CliCommand::Install(args[2].clone())
        }
    } else if args[1] == String::from_str("uninstall") {
        if args.len() < 3 {
            CliCommand::MissingPackage(Operation::Uninstall)
        } else {
            CliCommand::Uninstall(args[2].clone())
        }
    } else {
        CliCommand::Unknown(args[1].clone())
    }
}

} // verus!
