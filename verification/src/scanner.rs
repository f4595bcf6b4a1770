//! Shared scanner state and its two mutators: the control surface that flips
//! the enabled flag (and says when to raise the wake signal), and the scan
//! cycle that matches sampled processes, computes the transition event, and
//! records the new detection.
//!
//! The surrounding runtime owns the locking and the wake signal itself; the
//! functions here are the decisions taken under those locks.

use vstd::prelude::*;
use crate::catalog::{build_catalog, synthetic_signature, DetectableGame};
use crate::detect::{find_match, find_match_spec};
use crate::transition::{active_name, compute_transition, transition_spec, GameActivity};

verus! {

/// Seconds a scanning cycle waits before the next one, unless the wake
/// signal ends the wait early.
pub const SCAN_INTERVAL_SECS: u64 = 15;

/// State shared between the scan loop and the control surface: the current
/// catalog, the signature currently believed to be running, and the enabled
/// flag. `current_game` is `Some(x)` only if the most recent completed cycle
/// matched a running process against a signature named `x`.
pub struct ScannerState {
    pub watch_list: Vec<DetectableGame>,
    pub current_game: Option<String>,
    pub is_enabled: bool,
}

impl ScannerState {
    /// The state at startup: empty catalog, nothing detected, scanning
    /// disabled.
    pub fn new() -> (s: ScannerState)
        ensures
            s.watch_list@.len() == 0,
            s.current_game is None,
            !s.is_enabled,
    {
        ScannerState { watch_list: Vec::new(), current_game: None, is_enabled: false }
    }
}

/// The decision of the control surface, on the enabled flag alone (the one
/// field it may touch): sets the flag to `desired` and returns whether the
/// wake signal must be raised — exactly when the value actually changed, so
/// a call with the value already in effect never wakes the loop.
pub fn set_enabled_flag(is_enabled: &mut bool, desired: bool) -> (wake: bool)
    ensures
        *final(is_enabled) == desired,
        wake == (*old(is_enabled) != desired),
{
    if *is_enabled != desired {
        *is_enabled = desired;
        true
    } else {
        false
    }
}

/// Control surface: sets the enabled flag to `enabled` and returns whether
/// the wake signal must be raised — exactly when the value actually changed.
/// A call with the value already in effect changes nothing and never wakes
/// the loop; no call touches the catalog or the active signature.
pub fn set_scanner_enabled(state: &mut ScannerState, enabled: bool) -> (wake: bool)
    ensures
        final(state).is_enabled == enabled,
        final(state).watch_list == old(state).watch_list,
        final(state).current_game == old(state).current_game,
        wake == (old(state).is_enabled != enabled),
        old(state).is_enabled == enabled ==> *final(state) == *old(state) && !wake,
{
    set_enabled_flag(&mut state.is_enabled, enabled)
}

/// Installs a successfully fetched signature list: the catalog becomes the
/// fetched list, in order, with the synthetic diagnostic signature appended
/// last. A failed fetch never reaches this function, so failures leave the
/// prior catalog untouched.
pub fn store_catalog(state: &mut ScannerState, games: Vec<DetectableGame>)
    ensures
        final(state).watch_list.deep_view() == games.deep_view().push(synthetic_signature()),
        final(state).current_game == old(state).current_game,
        final(state).is_enabled == old(state).is_enabled,
{
    let catalog = build_catalog(games);
    state.watch_list = catalog;
}

/// The compute part of one scan cycle, done between the snapshot of the
/// shared state and the write-back of the result, so that no lock need be
/// held while matching: from the snapshotted catalog `watch_list`, the
/// previously active signature `prev`, and the sampled process names
/// `procs`, yields the event to emit (if any) and the new active signature.
pub fn scan_outcome(
    watch_list: &Vec<DetectableGame>,
    prev: &Option<String>,
    procs: &Vec<String>,
) -> (r: (Option<GameActivity>, Option<String>))
    ensures
        ({
            let det = find_match_spec(watch_list.deep_view(), procs.deep_view());
            &&& r.0.deep_view() == transition_spec(prev.deep_view(), det)
            &&& r.1.deep_view() == active_name(det)
        }),
{
    let detected = find_match(watch_list, procs);
    let ev = compute_transition(prev, &detected);
    let new_current = match detected {
        Some(d) => Some(d.name),
        None => None,
    };
    (ev, new_current)
}

/// One scan cycle over the sampled process names `procs`: matches them
/// against the catalog, returns the transition event to emit (if any), and
/// unconditionally records the new detection result as the active signature.
/// The catalog and the enabled flag are untouched; whether the caller
/// manages to deliver the event has no bearing on the recorded state.
pub fn scan_cycle(state: &mut ScannerState, procs: &Vec<String>) -> (ev: Option<GameActivity>)
    ensures
        ({
            let det = find_match_spec(old(state).watch_list.deep_view(), procs.deep_view());
            &&& ev.deep_view() == transition_spec(old(state).current_game.deep_view(), det)
            &&& final(state).current_game.deep_view() == active_name(det)
        }),
        final(state).watch_list == old(state).watch_list,
        final(state).is_enabled == old(state).is_enabled,
{
    let (ev, new_current) = scan_outcome(&state.watch_list, &state.current_game, procs);
    state.current_game = new_current;
    ev
}

} // verus!
