// End-to-end runs of the decision logic, driven the way the monitor loop
// drives it: shutdown check, probe, edge reaction, per-share plan, pass
// aggregation, hook decision.

use remounter::monitor::{begin_iteration, LoopStep, ProbeAction};
use remounter::orchestrator::{
    plan_share, remount_all, should_run_hook, MountAction, RemountOutcome, ShareObservation,
};
use remounter::remounter::new_remounter;

#[test]
fn down_three_polls_then_up_mounts_both_and_runs_hook() {
    let shares = vec![String::from("/mnt/a"), String::from("/mnt/b")];
    let mut r = new_remounter(
        String::from("fileserver.local"),
        shares,
        Some(String::from("refresh-caches")),
    );

    // Endpoint is down for three polls: nothing happens.
    for _ in 0..3 {
        assert_eq!(begin_iteration(false), LoopStep::Poll);
        assert_eq!(r.on_probe(false), ProbeAction::Idle);
    }

    // Endpoint comes up: one pass is triggered.
    assert_eq!(begin_iteration(false), LoopStep::Poll);
    assert_eq!(r.on_probe(true), ProbeAction::StartRemount);

    // Neither path exists, both mount calls succeed.
    let mut observations = Vec::new();
    for _share in &r.smb_shares {
        let path_exists = false;
        assert_eq!(plan_share(path_exists), MountAction::Mount);
        let mount_ok = true;
        observations.push(ShareObservation { path_exists, mount_ok });
    }
    let (outcomes, pass_ok) = remount_all(&observations);
    assert_eq!(outcomes, vec![RemountOutcome::Succeeded, RemountOutcome::Succeeded]);
    assert!(pass_ok);

    // Hook configured and pass successful: the hook runs, once.
    assert!(should_run_hook(pass_ok, r.post_mount_script.is_some()));

    // The loop continues polling; stable up triggers nothing more.
    assert_eq!(begin_iteration(false), LoopStep::Poll);
    assert_eq!(r.on_probe(true), ProbeAction::Idle);
}

#[test]
fn skip_plus_failure_fails_pass_and_skips_hook() {
    let shares = vec![String::from("/mnt/a"), String::from("/mnt/b")];
    let mut r = new_remounter(
        String::from("fileserver.local"),
        shares,
        Some(String::from("refresh-caches")),
    );

    // Down, then up: the edge triggers a pass.
    assert_eq!(r.on_probe(false), ProbeAction::Idle);
    assert_eq!(r.on_probe(true), ProbeAction::StartRemount);

    // "/mnt/a" already exists (skip, no mount invoked); "/mnt/b" fails.
    assert_eq!(plan_share(true), MountAction::Skip);
    assert_eq!(plan_share(false), MountAction::Mount);
    let observations = vec![
        ShareObservation { path_exists: true, mount_ok: false },
        ShareObservation { path_exists: false, mount_ok: false },
    ];
    let (outcomes, pass_ok) = remount_all(&observations);
    assert_eq!(outcomes, vec![RemountOutcome::Skipped, RemountOutcome::Failed]);
    assert!(!pass_ok);

    // Hook is not invoked after a failed pass.
    assert!(!should_run_hook(pass_ok, r.post_mount_script.is_some()));

    // The state stays latched up: no retry on the next stable poll.
    assert!(r.was_up);
    assert_eq!(r.on_probe(true), ProbeAction::Idle);
}

#[test]
fn termination_mid_sleep_stops_before_next_probe() {
    let mut r = new_remounter(String::from("fileserver.local"), Vec::new(), None);
    assert_eq!(r.on_probe(false), ProbeAction::Idle);

    // The termination flag is set between polls; the next iteration check
    // observes it and no further probe or mount begins.
    let terminated = true;
    assert_eq!(begin_iteration(terminated), LoopStep::Stop);
}
