//! Edge-triggered connectivity monitoring.
//!
//! The monitor loop latches the last classified state (`was_up`) and reacts
//! only to transitions: an unreachable-to-reachable edge starts a remount
//! pass, a reachable-to-unreachable edge merely re-arms the monitor, and a
//! stable state does nothing. Shutdown is cooperative: the loop asks
//! [`begin_iteration`] before every poll and stops as soon as the
//! termination flag has been observed.

use vstd::prelude::*;

verus! {

/// What a loop iteration does before polling: stop, or go on to probe.
#[derive(Clone, Copy, PartialEq, Eq, Structural, Debug)]
pub enum LoopStep {
    Stop,
    Poll,
}

/// The decision at the top of an iteration: poll only while the
/// termination flag is unset.
pub open spec fn spec_loop_step(terminated: bool) -> LoopStep {
    if terminated {
        LoopStep::Stop
    } else {
        LoopStep::Poll
    }
}

/// Decision taken at the top of every loop iteration.
///
/// Once the termination flag has been observed, no new poll begins: the
/// loop exits at this iteration boundary.
pub fn begin_iteration(terminated: bool) -> (s: LoopStep)
    ensures
        s == spec_loop_step(terminated),
        (s is Stop) <==> terminated,
        (s is Poll) <==> !terminated,
{
    if terminated {
        LoopStep::Stop
    } else {
        LoopStep::Poll
    }
}

/// The termination flag is set at most once and never reset: within the
/// sequence of values the loop reads, a set flag stays set.
pub open spec fn shutdown_monotonic(flags: Seq<bool>) -> bool {
    forall|i: int, j: int| 0 <= i <= j < flags.len() ==> (flags[i] ==> flags[j])
}

/// Law: once the shutdown flag has been observed set, no later iteration
/// polls — the loop exits at the first iteration boundary after the flag
/// is set, and no new probe or pass begins.
pub proof fn lemma_no_poll_after_shutdown(flags: Seq<bool>, i: int, j: int)
    requires
        shutdown_monotonic(flags),
        0 <= i <= j < flags.len(),
        flags[i],
    ensures
        spec_loop_step(flags[j]) is Stop,
{
    assert(flags[j]);
}

/// Reaction of the monitor to one probe result.
#[derive(Clone, Copy, PartialEq, Eq, Structural, Debug)]
pub enum ProbeAction {
    /// Down-to-up edge: run a remount pass now.
    StartRemount,
    /// Up-to-down edge: note the loss and re-arm for the next up edge.
    NoteDown,
    /// No transition: nothing to do until the next poll.
    Idle,
}

/// The latched state after a probe: exactly the probe's result.
pub open spec fn spec_next_state(was_up: bool, reachable: bool) -> bool {
    reachable
}

/// The action the monitor takes given the latched state and a probe result.
pub open spec fn spec_probe_action(was_up: bool, reachable: bool) -> ProbeAction {
    if reachable && !was_up {
        ProbeAction::StartRemount
    } else if !reachable && was_up {
        ProbeAction::NoteDown
    } else {
        ProbeAction::Idle
    }
}

/// The latched state after feeding a whole sequence of probe results to a
/// monitor that starts down.
pub open spec fn was_up_after(probes: Seq<bool>) -> bool
    decreases probes.len(),
{
    if probes.len() == 0 {
        false
    } else {
        spec_next_state(was_up_after(probes.drop_last()), probes.last())
    }
}

/// The action taken at step `i` of a run over `probes`, starting down.
pub open spec fn action_at(probes: Seq<bool>, i: int) -> ProbeAction
    recommends
        0 <= i < probes.len(),
{
    spec_probe_action(was_up_after(probes.take(i)), probes[i])
}

/// A remount pass is triggered at step `i`.
pub open spec fn remount_at(probes: Seq<bool>, i: int) -> bool {
    0 <= i < probes.len() && action_at(probes, i) is StartRemount
}

/// Step `i` is a down-to-up (or initial-to-up) edge of the probe sequence.
pub open spec fn is_up_edge(probes: Seq<bool>, i: int) -> bool {
    0 <= i < probes.len() && probes[i] && (i == 0 || !probes[i - 1])
}

/// The probe sequence contains a down-to-up (or initial-to-up) edge.
pub open spec fn has_up_edge(probes: Seq<bool>) -> bool {
    exists|i: int| is_up_edge(probes, i)
}

/// After `i` probes the monitor is up exactly when the last of them was up.
proof fn lemma_was_up_after_take(probes: Seq<bool>, i: int)
    requires
        0 <= i <= probes.len(),
    ensures
        was_up_after(probes.take(i)) == (i > 0 && probes[i - 1]),
{
    let t = probes.take(i);
    if i == 0 {
        assert(t.len() == 0);
    } else {
        assert(t.last() == probes[i - 1]);
    }
}

/// Law: a remount pass is triggered at a step exactly when that step is a
/// down-to-up (or initial-to-up) edge; never on a stable run or a downward
/// transition.
pub proof fn lemma_remount_at_iff_edge(probes: Seq<bool>, i: int)
    requires
        0 <= i < probes.len(),
    ensures
        remount_at(probes, i) <==> is_up_edge(probes, i),
{
    lemma_was_up_after_take(probes, i);
}

/// Law: over any probe sequence, some remount pass is triggered exactly
/// when the sequence contains a down-to-up (or initial-to-up) edge.
pub proof fn lemma_pass_iff_edge(probes: Seq<bool>)
    ensures
        (exists|i: int| remount_at(probes, i)) <==> has_up_edge(probes),
{
    if exists|i: int| remount_at(probes, i) {
        let i = choose|i: int| remount_at(probes, i);
        lemma_remount_at_iff_edge(probes, i);
        assert(is_up_edge(probes, i));
    }
    if has_up_edge(probes) {
        let i = choose|i: int| is_up_edge(probes, i);
        lemma_remount_at_iff_edge(probes, i);
        assert(remount_at(probes, i));
    }
}

/// Law: one up edge triggers at most one pass. Two distinct remount
/// triggers are always separated by an unreachable poll, so a pass is never
/// run twice for the same edge.
pub proof fn lemma_one_pass_per_edge(probes: Seq<bool>, i: int, j: int)
    requires
        remount_at(probes, i),
        remount_at(probes, j),
        i < j,
    ensures
        exists|k: int| i <= k < j && !probes[k],
{
    lemma_remount_at_iff_edge(probes, j);
    assert(is_up_edge(probes, j));
    assert(i <= j - 1 < j && !probes[j - 1]);
}

} // verus!
