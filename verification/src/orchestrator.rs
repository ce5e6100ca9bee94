//! Per-share remount orchestration.
//!
//! On an up edge the daemon attempts to restore every configured share
//! independently: a share whose local path already exists is skipped and no
//! mount is invoked for it, otherwise the external mount operation runs and
//! its success or failure is recorded. The pass as a whole succeeds exactly
//! when no share failed, and only then may the post-mount hook run. The
//! unverified binary observes the filesystem and invokes the mounts; the
//! decisions and the aggregation live here.

use vstd::prelude::*;

verus! {

/// Outcome of one share's remount attempt.
#[derive(Clone, Copy, PartialEq, Eq, Structural, Debug)]
pub enum RemountOutcome {
    /// The local path already existed; the share is treated as already
    /// mounted and no mount was attempted.
    Skipped,
    /// The mount operation ran and reported success.
    Succeeded,
    /// The mount operation ran and reported failure.
    Failed,
}

/// What to do for one share, given whether its local path exists.
#[derive(Clone, Copy, PartialEq, Eq, Structural, Debug)]
pub enum MountAction {
    /// Do not invoke the mount operation.
    Skip,
    /// Invoke the external mount operation for this share.
    Mount,
}

/// What the loop observed for one share during a pass: whether its local
/// path existed beforehand, and, where a mount was invoked, whether it
/// succeeded. `mount_ok` carries no meaning for a share whose path existed.
#[derive(Clone, Copy, PartialEq, Eq, Structural, Debug)]
pub struct ShareObservation {
    pub path_exists: bool,
    pub mount_ok: bool,
}

pub open spec fn spec_plan_share(path_exists: bool) -> MountAction {
    if path_exists {
        MountAction::Skip
    } else {
        MountAction::Mount
    }
}

/// Decide whether to mount one share. A share whose local path already
/// exists never leads to a mount invocation.
pub fn plan_share(path_exists: bool) -> (a: MountAction)
    ensures
        a == spec_plan_share(path_exists),
        (a is Skip) <==> path_exists,
{
    if path_exists {
        MountAction::Skip
    } else {
        MountAction::Mount
    }
}

pub open spec fn spec_share_outcome(path_exists: bool, mount_ok: bool) -> RemountOutcome {
    if path_exists {
        RemountOutcome::Skipped
    } else if mount_ok {
        RemountOutcome::Succeeded
    } else {
        RemountOutcome::Failed
    }
}

/// Classify one share's result: an existing path is a skip, otherwise the
/// mount operation's own result decides.
pub fn share_outcome(path_exists: bool, mount_ok: bool) -> (r: RemountOutcome)
    ensures
        r == spec_share_outcome(path_exists, mount_ok),
{
    if path_exists {
        RemountOutcome::Skipped
    } else if mount_ok {
        RemountOutcome::Succeeded
    } else {
        RemountOutcome::Failed
    }
}

/// A pass succeeds exactly when no outcome is a failure; skips do not fail
/// the pass.
pub open spec fn spec_pass_success(outcomes: Seq<RemountOutcome>) -> bool {
    forall|i: int| 0 <= i < outcomes.len() ==> !(outcomes[i] is Failed)
}

/// Whether a completed pass succeeded overall.
pub fn pass_success(outcomes: &Vec<RemountOutcome>) -> (r: bool)
    ensures
        r == spec_pass_success(outcomes@),
{
    let mut i: usize = 0;
    while i < outcomes.len()
        invariant
            0 <= i <= outcomes.len(),
            forall|k: int| 0 <= k < i ==> !(outcomes@[k] is Failed),
        decreases outcomes.len() - i,
    {
        if matches!(outcomes[i], RemountOutcome::Failed) {
            return false;
        }
        i = i + 1;
    }
    true
}

/// Aggregate a whole pass: one outcome per observed share, in order, and
/// the overall result. One share's failure never hides another's outcome.
pub fn remount_all(observations: &Vec<ShareObservation>) -> (r: (Vec<RemountOutcome>, bool))
    ensures
        r.0.len() == observations.len(),
        forall|i: int|
            0 <= i < observations.len() ==> r.0[i] == spec_share_outcome(
                observations[i].path_exists,
                observations[i].mount_ok,
            ),
        r.1 == spec_pass_success(r.0@),
{
    let mut outcomes: Vec<RemountOutcome> = Vec::new();
    let mut i: usize = 0;
    while i < observations.len()
        invariant
            0 <= i <= observations.len(),
            outcomes.len() == i,
            forall|k: int|
                0 <= k < i ==> outcomes@[k] == spec_share_outcome(
                    observations@[k].path_exists,
                    observations@[k].mount_ok,
                ),
        decreases observations.len() - i,
    {
        let obs = observations[i];
        outcomes.push(share_outcome(obs.path_exists, obs.mount_ok));
        i = i + 1;
    }
    let ok = pass_success(&outcomes);
    (outcomes, ok)
}

/// Decide whether the post-mount hook runs: only after a fully successful
/// pass, and only when a hook command was configured.
pub fn should_run_hook(pass_ok: bool, hook_configured: bool) -> (r: bool)
    ensures
        r <==> (pass_ok && hook_configured),
{
    pass_ok && hook_configured
}

} // verus!
