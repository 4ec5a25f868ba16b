//! Process launcher: resolving the executable, and what the supervision of
//! a contained process reports once it ends. Spawning and waiting are done
//! by the host program with the plan's environment overlaid on its own.

use vstd::prelude::*;
use crate::runtime::HookPlan;

verus! {

/// A contained executable to start under a hook plan.
#[derive(Clone, Debug)]
pub struct LaunchRequest {
    pub executable: String,
    pub args: Vec<String>,
    pub working_dir: Option<String>,
    pub hook_plan: HookPlan,
}

/// Why a launch failed.
#[derive(Clone, Debug)]
pub enum LaunchError {
    /// The executable is neither an existing path nor found on the search
    /// path; it names what was asked for.
    NotFound(String),
    /// The process could not be started.
    SpawnFailed,
}

/// How the host's attempt to run the process ended.
#[derive(Clone, Copy, Debug)]
pub enum ChildEvent {
    SpawnFailed,
    /// The process started but its exit could not be awaited.
    WaitFailed,
    Exited { success: bool, code: Option<i32> },
}

/// What a launch reports when it did not fail.
#[derive(Clone, Copy, Debug, PartialEq, Eq)]
pub enum LaunchOutcome {
    /// The process exited with a success status.
    Clean,
    /// The process ended otherwise; to be logged as a warning, with the exit
    /// code where there is one.
    Unexpected { code: Option<i32> },
}

/// Relies on `which::which`: the path of an executable file of that name,
/// searched as the name says (a path, or each directory of the search
/// path). What it finds depends on the machine, so nothing is stated.
#[verifier::external_body]
pub(crate) fn search_path(name: &str) -> (r: Option<String>) {
    match which::which(name) {
        Ok(p) => Some(p.to_string_lossy().into_owned()),
        Err(_) => None,
    }
}

pub open spec fn not_found(path: Seq<char>, r: Result<(), LaunchError>) -> bool {
    r matches Err(LaunchError::NotFound(p)) && p@ == path
}

/// Verdict on an executable `path` given whether it exists as a path and
/// whether the search path resolves it.
pub fn binary_verdict(path: &str, on_disk: bool, resolved: bool) -> (r: Result<(), LaunchError>)
    ensures
        (on_disk || resolved) ==> r is Ok,
        !(on_disk || resolved) ==> not_found(path@, r),
{
    if on_disk || resolved {
        Ok(())
    } else {
        Err(LaunchError::NotFound(String::from_str(path)))
    }
}

/// Checks that `path` names an executable: one that exists as a path
/// (`on_disk`, as the host observed it) is accepted at once, any other is
/// looked up on the search path.
pub fn validate_binary(path: &str, on_disk: bool) -> (r: Result<(), LaunchError>)
    ensures
        on_disk ==> r is Ok,
        r is Ok || not_found(path@, r),
{
    let resolved = if on_disk {
        false
    } else {
        search_path(path).is_some()
    };
    binary_verdict(path, on_disk, resolved)
}

/// The launch's result once the host reports how the process ended: only a
/// failed start is an error; a failing exit status, or an exit that could
/// not be awaited, is reported for a warning and the launch still succeeds.
pub fn conclude_launch(event: ChildEvent) -> (r: Result<LaunchOutcome, LaunchError>)
    ensures
        r is Err <==> event is SpawnFailed,
        event is SpawnFailed ==> r matches Err(LaunchError::SpawnFailed),
        event is WaitFailed ==> r == Ok::<LaunchOutcome, LaunchError>(
            LaunchOutcome::Unexpected { code: None },
        ),
        event matches ChildEvent::Exited { success, code } ==> r == Ok::<
            LaunchOutcome,
            LaunchError,
        >(if success {
            LaunchOutcome::Clean
        } else {
            LaunchOutcome::Unexpected { code }
        }),
{
    match event {
        ChildEvent::SpawnFailed => Err(LaunchError::SpawnFailed),
        ChildEvent::WaitFailed => Ok(LaunchOutcome::Unexpected { code: None }),
        ChildEvent::Exited { success, code } => {
            if success {
                Ok(LaunchOutcome::Clean)
            } else {
                Ok(LaunchOutcome::Unexpected { code })
            }
        },
    }
}

} // verus!
