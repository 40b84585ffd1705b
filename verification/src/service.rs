//! Commands to the service manager: sender and receiver each run as a user
//! service.

use vstd::prelude::*;
use crate::command::{CommandLine, CommandModel};

verus! {

/// The command that has the service manager do `action` to a user service.
pub open spec fn action_command(service: Seq<char>, action: Seq<char>) -> CommandModel {
    CommandModel { program: "systemctl"@, args: seq!["--user"@, action, service] }
}

/// The command whose exit status says whether a user service is running.
pub open spec fn query_command(service: Seq<char>) -> CommandModel {
    CommandModel { program: "systemctl"@, args: seq!["--user"@, "is-active"@, "--quiet"@, service] }
}

/// The command that has the service manager do `action` to `service`.
pub fn service_action(service: &str, action: &str) -> (cmd: CommandLine)
    ensures
        cmd@ == action_command(service@, action@),
{
    let mut args: Vec<String> = Vec::new();
    args.push("--user".to_owned());
    args.push(action.to_owned());
    args.push(service.to_owned());
    let cmd = CommandLine { program: "systemctl".to_owned(), args };
    assert(cmd@.args =~= action_command(service@, action@).args);
    cmd
}

/// The command that asks whether `service` is running. It succeeds exactly
/// if it is.
pub fn service_is_active(service: &str) -> (cmd: CommandLine)
    ensures
        cmd@ == query_command(service@),
{
    let mut args: Vec<String> = Vec::new();
    args.push("--user".to_owned());
    args.push("is-active".to_owned());
    args.push("--quiet".to_owned());
    args.push(service.to_owned());
    let cmd = CommandLine { program: "systemctl".to_owned(), args };
    assert(cmd@.args =~= query_command(service@).args);
    cmd
}

} // verus!
