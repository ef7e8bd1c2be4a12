//! The machine's name and the command that turns the machine off.

use vstd::prelude::*;
use vstd::string::*;
use crate::gateway::{CommandLine, Platform};

verus! {

/// The name shown for a machine that does not tell its own.
pub open spec fn unknown_host() -> Seq<char> {
    "Unknown PC"@
}

/// The machine's name as the environment gives it, or the stand-in name
/// where it gives none.
pub fn hostname_or_unknown(from_environment: Option<String>) -> (name: String)
    ensures
        name@ == match from_environment {
            Some(h) => h@,
            None => unknown_host(),
        },
{
    match from_environment {
        Some(h) => h,
        None => String::from_str("Unknown PC"),
    }
}

/// The arguments that make the shutdown program turn the machine off at
/// once.
pub open spec fn shutdown_args() -> Seq<Seq<char>> {
    seq!["/s"@, "/t"@, "0"@]
}

/// The command that turns the machine off. Only Windows has one here; on
/// other platforms there is nothing to run.
pub fn shutdown_command(platform: Platform) -> (r: Option<CommandLine>)
    ensures
        match platform {
            Platform::Windows => r matches Some(c) && c.program@ == "shutdown"@ && c.args@.len() == 3
                && forall|i: int| 0 <= i < 3 ==> (#[trigger] c.args@[i])@ == shutdown_args()[i],
            _ => r is None,
        },
{
    match platform {
        Platform::Windows => {
            let mut args: Vec<&'static str> = Vec::new();
            args.push("/s");
            args.push("/t");
            args.push("0");
            Some(CommandLine { program: "shutdown", args })
        },
        _ => None,
    }
}

/// What is reported where the shutdown program could not be run.
pub fn shutdown_failure(why: &str) -> (message: String)
    ensures
        message@ == "Failed to shutdown: "@ + why@,
{
    String::from_str("Failed to shutdown: ").concat(why)
}

} // verus!
