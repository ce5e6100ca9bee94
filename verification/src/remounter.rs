//! The remounter: configuration plus the latched connectivity state.
//!
//! A `Remounter` holds the monitored server's name, the ordered list of
//! share paths to restore, the optional post-mount command, and the latched
//! reachability used for edge detection. The unverified binary resolves the
//! hostname, probes the endpoint, checks the filesystem, invokes mounts and
//! sleeps; every decision it takes comes from the methods here and from the
//! orchestration functions.

use vstd::prelude::*;
use vstd::string::StringExecFns;

use crate::monitor::{spec_next_state, spec_probe_action, ProbeAction};

verus! {

/// Configuration and state of the monitor loop.
pub struct Remounter {
    /// Hostname of the server whose shares are restored.
    pub server: String,
    /// Local mount paths of the shares, in the order they are attempted.
    pub smb_shares: Vec<String>,
    /// Optional command to run after a fully successful pass.
    pub post_mount_script: Option<String>,
    /// Latched state for edge detection: whether the last poll was up.
    pub was_up: bool,
}

/// Create a remounter. The monitor starts down: the first reachable poll is
/// an up edge and triggers a pass.
pub fn new_remounter(
    server: String,
    smb_shares: Vec<String>,
    post_mount_script: Option<String>,
) -> (r: Remounter)
    ensures
        r.server == server,
        r.smb_shares == smb_shares,
        r.post_mount_script == post_mount_script,
        !r.was_up,
{
    Remounter { server, smb_shares, post_mount_script, was_up: false }
}

impl Remounter {
    /// Advance the state machine by one probe result and say what to do:
    /// start a remount pass on a down-to-up edge, note the loss on an
    /// up-to-down edge, do nothing while the state is stable.
    ///
    /// The latched state always advances to the probe's result, also when
    /// the pass that the edge starts will fail: a failed pass is not
    /// retried until connectivity goes down and comes up again.
    pub fn on_probe(&mut self, reachable: bool) -> (a: ProbeAction)
        ensures
            final(self).was_up == spec_next_state(old(self).was_up, reachable),
            a == spec_probe_action(old(self).was_up, reachable),
            final(self).server == old(self).server,
            final(self).smb_shares == old(self).smb_shares,
            final(self).post_mount_script == old(self).post_mount_script,
    {
        let was_up = self.was_up;
        self.was_up = reachable;
        if reachable && !was_up {
            ProbeAction::StartRemount
        } else if !reachable && was_up {
            ProbeAction::NoteDown
        } else {
            ProbeAction::Idle
        }
    }

    /// The remote volume identifier handed to the mount operation for one
    /// share path: the server's name and the path under the SMB scheme.
    pub fn remote_volume(&self, share: &str) -> (r: String)
        ensures
            r@ == "smb://"@ + self.server@ + share@,
    {
        let mut volume = String::from_str("smb://");
        volume.append(self.server.as_str());
        volume.append(share);
        volume
    }
}

} // verus!
