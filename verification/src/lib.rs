//! Clone a remote source-control repository by invoking the external
//! version-control tool, with a pre-flight capability probe.
//!
//! The library holds the decisions: whether the tool counts as installed,
//! whether a clone subprocess should be spawned at all, and how a subprocess
//! outcome translates into the caller-facing result. The host application
//! spawns the subprocesses and hands their outcomes back as plain values.

use vstd::prelude::*;

verus! {

/// What one run of the external tool produced, as plain values.
#[derive(Debug, PartialEq, Eq)]
pub enum ExecOutcome {
    /// The process could not be launched at all (not found, not executable,
    /// permission denied); the launch error rendered as text.
    LaunchFailed(String),
    /// The process ran to completion: whether its exit status reported
    /// success, and its standard-error stream decoded as text.
    Completed { success: bool, stderr: String },
}

/// The tool counts as available exactly when the version query launched and
/// exited successfully; a launch failure is treated the same as a failing
/// exit status.
pub open spec fn probe_ok(outcome: ExecOutcome) -> bool {
    outcome matches ExecOutcome::Completed { success, .. } && success
}

/// Capability probe: the boolean the host acts on, read off the observed
/// outcome of the version-query subprocess.
pub fn probe_available(outcome: &ExecOutcome) -> (r: bool)
    ensures
        r == probe_ok(*outcome),
{
    match outcome {
        ExecOutcome::Completed { success, .. } => *success,
        ExecOutcome::LaunchFailed(_) => false,
    }
}

/// The fixed failure message returned when the tool is unavailable.
pub open spec fn not_installed_msg() -> Seq<char> {
    "Git is not installed"@
}

/// The failure message when the clone subprocess could not be launched,
/// embedding the launch error text.
pub open spec fn launch_failure_msg(error: Seq<char>) -> Seq<char> {
    "Failed to execute command: "@ + error
}

/// The failure message when the clone subprocess exited unsuccessfully,
/// embedding its captured standard-error text.
pub open spec fn clone_failure_msg(stderr: Seq<char>) -> Seq<char> {
    "Failed to clone repository: "@ + stderr
}

/// What the host should do next, once the probe outcome is in hand.
#[derive(Debug, PartialEq, Eq)]
pub enum CloneAction {
    /// Spawn the clone subprocess with the url and path, synchronously, and
    /// translate its outcome with `clone_outcome`.
    SpawnClone,
    /// Return this result now; no clone subprocess is spawned.
    Report(Result<(), String>),
}

/// The invoker's branch: with the tool available the clone is spawned,
/// otherwise the fixed not-installed failure is reported at once.
pub fn next_action(probe: &ExecOutcome) -> (a: CloneAction)
    ensures
        probe_ok(*probe) ==> a == CloneAction::SpawnClone,
        !probe_ok(*probe) ==> (a matches CloneAction::Report(r) && r matches Err(m)
            && m@ == not_installed_msg()),
{
    if probe_available(probe) {
        CloneAction::SpawnClone
    } else {
        CloneAction::Report(Err(String::from_str("Git is not installed")))
    }
}

/// Translation of the clone subprocess outcome into the caller-facing result:
/// success exactly when the process ran and exited successfully, otherwise a
/// failure message embedding what went wrong.
pub fn clone_outcome(outcome: &ExecOutcome) -> (r: Result<(), String>)
    ensures
        r is Ok <==> (*outcome) matches ExecOutcome::Completed { success: true, .. },
        (*outcome) matches ExecOutcome::LaunchFailed(e) ==> (r matches Err(m)
            && m@ == launch_failure_msg(e@)),
        (*outcome) matches ExecOutcome::Completed { success: false, stderr } ==> (r matches Err(m)
            && m@ == clone_failure_msg(stderr@)),
{
    match outcome {
        ExecOutcome::LaunchFailed(error) => {
            Err(String::from_str("Failed to execute command: ").concat(error.as_str()))
        },
        ExecOutcome::Completed { success, stderr } => {
            if *success {
                Ok(())
            } else {
                Err(String::from_str("Failed to clone repository: ").concat(stderr.as_str()))
            }
        },
    }
}

/// The probe's verdict is a function of the observed outcome alone: probing
/// twice without any environment change observes equal outcomes, and equal
/// outcomes yield the same boolean both times.
pub proof fn lemma_probe_idempotent(first: ExecOutcome, second: ExecOutcome)
    requires
        first == second,
    ensures
        probe_ok(first) == probe_ok(second),
{
}

/// A relayed clone failure message is never empty, and embeds the clone
/// subprocess's captured standard-error text verbatim after its fixed prefix.
pub proof fn lemma_clone_failure_msg_embeds_stderr(stderr: Seq<char>)
    ensures
        clone_failure_msg(stderr).len() > stderr.len(),
        clone_failure_msg(stderr).skip(
            clone_failure_msg(stderr).len() - stderr.len(),
        ) == stderr,
{
    reveal_strlit("Failed to clone repository: ");
    assert(clone_failure_msg(stderr).skip("Failed to clone repository: "@.len() as int)
        =~= stderr);
}

} // verus!
