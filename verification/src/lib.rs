//! Connectivity-driven remount state machine.
//!
//! A daemon watches whether a remote host's file-sharing port is reachable
//! and, on the transition from unreachable to reachable, re-establishes a
//! fixed set of network file-share mounts, optionally running a follow-up
//! command afterwards. This crate holds the verified core of that daemon:
//! the edge-triggered transition logic, the per-share remount orchestration
//! with partial-failure aggregation, and the cooperative-shutdown decision.
//! The surrounding binary performs the actual probing, mounting, signal
//! handling and sleeping, and feeds the observed results into these
//! functions.

use vstd::prelude::*;

pub mod monitor;
pub mod orchestrator;
pub mod remounter;

verus! {

/// Classified reachability of the monitored endpoint at one poll.
#[derive(Clone, Copy, PartialEq, Eq, Structural, Debug)]
pub enum ConnectionState {
    Up,
    Down,
}

/// Classify a single probe result.
pub fn classify(reachable: bool) -> (s: ConnectionState)
    ensures
        (s is Up) <==> reachable,
{
    if reachable {
        ConnectionState::Up
    } else {
        ConnectionState::Down
    }
}

} // verus!
