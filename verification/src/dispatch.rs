//! What a key press does: the slot that fired is found in the active
//! shortcuts, and the stitch workflow is started under its guard.

use vstd::prelude::*;
use crate::coordinator::{AppState, AppStateView};
use crate::grammar::Shortcut;
use crate::guard::{deadline_after, CaptureGuard, GUARD_TIMEOUT_MS};
use crate::slots::{Slot, SlotShortcuts};

verus! {

/// What the caller is to do about a key event.
#[derive(Clone, Copy, Debug, PartialEq, Eq, Structural)]
pub enum Dispatch {
    /// Nothing.
    Ignore,
    /// Capture an area of the screen.
    CaptureArea,
    /// Capture the whole screen.
    CaptureFullscreen,
    /// Start the stitch workflow, and let the watchdog fire at the deadline.
    StartStitch { deadline: u64 },
}

/// The slot whose active shortcut is `fired`. The slots are asked in the
/// order area, fullscreen, stitch.
pub open spec fn fired_slot(active: SlotShortcuts, fired: Shortcut) -> Option<Slot> {
    if fired == active.area {
        Some(Slot::Area)
    } else if fired == active.fullscreen {
        Some(Slot::Fullscreen)
    } else if fired == active.stitch {
        Some(Slot::Stitch)
    } else {
        None
    }
}

/// Whether a key event is passed over: a key that was released, or any key
/// while the shortcuts are being configured.
pub open spec fn passed_over(pressed: bool, configuring: bool) -> bool {
    !pressed || configuring
}

/// What a key event leads to.
pub open spec fn dispatched(
    state: AppStateView,
    fired: Shortcut,
    pressed: bool,
    configuring: bool,
    now: u64,
) -> Dispatch {
    if passed_over(pressed, configuring) {
        Dispatch::Ignore
    } else {
        match fired_slot(state.active, fired) {
            Some(Slot::Area) => Dispatch::CaptureArea,
            Some(Slot::Fullscreen) => Dispatch::CaptureFullscreen,
            Some(Slot::Stitch) => match state.stitch_lock.start_answer(now) {
                Ok(deadline) => Dispatch::StartStitch { deadline },
                Err(_) => Dispatch::Ignore,
            },
            None => Dispatch::Ignore,
        }
    }
}

/// The guard after a key event: started where the stitch shortcut fired and
/// is not passed over, else as it was.
pub open spec fn guard_after(
    state: AppStateView,
    fired: Shortcut,
    pressed: bool,
    configuring: bool,
    now: u64,
) -> CaptureGuard {
    if !passed_over(pressed, configuring) && fired_slot(state.active, fired) == Some(Slot::Stitch) {
        state.stitch_lock.after_start(now)
    } else {
        state.stitch_lock
    }
}

/// Finds the slot that fired.
pub fn resolve_slot(state: &AppState, fired: Shortcut) -> (r: Option<Slot>)
    ensures
        r == fired_slot(state@.active, fired),
{
    if fired == state.active_area_shortcut {
        Some(Slot::Area)
    } else if fired == state.active_fullscreen_shortcut {
        Some(Slot::Fullscreen)
    } else if fired == state.active_stitch_shortcut {
        Some(Slot::Stitch)
    } else {
        None
    }
}

/// Answers a key event at time `now`.
///
/// Only the guard of the stitch workflow can change, and only when the
/// stitch shortcut was pressed while nothing is being configured: an idle guard
/// is started, an active one refuses and the event is ignored.
pub fn dispatch(state: &mut AppState, fired: Shortcut, pressed: bool, configuring: bool, now: u64)
    -> (r: Dispatch)
    ensures
        r == dispatched(old(state)@, fired, pressed, configuring, now),
        final(state)@ == (AppStateView {
            stitch_lock: guard_after(old(state)@, fired, pressed, configuring, now),
            ..old(state)@
        }),
{
    if !pressed || configuring {
        return Dispatch::Ignore;
    }
    match resolve_slot(state, fired) {
        Some(Slot::Area) => Dispatch::CaptureArea,
        Some(Slot::Fullscreen) => Dispatch::CaptureFullscreen,
        Some(Slot::Stitch) => match state.stitch_lock.try_start(now) {
            Ok(deadline) => Dispatch::StartStitch { deadline },
            Err(_) => Dispatch::Ignore,
        },
        None => Dispatch::Ignore,
    }
}

/// The stitch workflow reports its end.
pub fn clear_stitch_lock(state: &mut AppState)
    ensures
        final(state)@ == (AppStateView { stitch_lock: CaptureGuard::Idle, ..old(state)@ }),
{
    state.stitch_lock.clear();
}

/// The watchdog of the stitch workflow fires at `now`. The answer says
/// whether it cleared the guard by force.
pub fn stitch_watchdog(state: &mut AppState, now: u64) -> (forced: bool)
    ensures
        forced == old(state)@.stitch_lock.is_overdue(now),
        final(state)@ == (AppStateView {
            stitch_lock: old(state)@.stitch_lock.after_watchdog(now),
            ..old(state)@
        }),
{
    state.stitch_lock.watchdog(now)
}

/// While the stitch workflow is in progress, its shortcut starts no second
/// one.
pub proof fn stitch_runs_once(
    state: AppStateView,
    fired: Shortcut,
    pressed: bool,
    configuring: bool,
    now: u64,
)
    requires
        state.stitch_lock is Active,
    ensures
        !(dispatched(state, fired, pressed, configuring, now) is StartStitch),
        guard_after(state, fired, pressed, configuring, now) == state.stitch_lock,
{
}

/// A stitch workflow that never reports its end blocks no longer than the
/// timeout. Let the stitch shortcut be pressed at `now` while the guard is idle
/// and nothing is being configured: the workflow starts. Let the watchdog fire
/// at `later`, the timeout or more after `now`: the guard is idle again, by
/// force. Let the stitch shortcut be pressed again at `again`: the workflow
/// starts anew, once, with the deadline of the new start.
pub proof fn watchdog_frees_stitch(state: AppStateView, now: u64, later: u64, again: u64)
    requires
        state.stitch_lock == CaptureGuard::Idle,
        state.active.stitch != state.active.area,
        state.active.stitch != state.active.fullscreen,
        later >= now + GUARD_TIMEOUT_MS,
    ensures
        ({
            let fired = state.active.stitch;
            let started = AppStateView {
                stitch_lock: guard_after(state, fired, true, false, now),
                ..state
            };
            let freed = AppStateView { stitch_lock: started.stitch_lock.after_watchdog(later), ..started };
            let restarted = AppStateView {
                stitch_lock: guard_after(freed, fired, true, false, again),
                ..freed
            };
            &&& dispatched(state, fired, true, false, now) == Dispatch::StartStitch {
                deadline: deadline_after(now),
            }
            &&& started.stitch_lock is Active
            &&& started.stitch_lock.is_overdue(later)
            &&& freed.stitch_lock == CaptureGuard::Idle
            &&& dispatched(freed, fired, true, false, again) == Dispatch::StartStitch {
                deadline: deadline_after(again),
            }
            &&& restarted.stitch_lock == CaptureGuard::Active { deadline: deadline_after(again) }
            &&& dispatched(restarted, fired, true, false, again) == Dispatch::Ignore
        }),
{
}

/// After the stitch workflow has reported its end, the watchdog finds
/// nothing to clear, whenever it fires, and the state stays as it is.
pub proof fn watchdog_spares_cleared_stitch(state: AppStateView, later: u64)
    ensures
        ({
            let cleared = AppStateView { stitch_lock: CaptureGuard::Idle, ..state };
            &&& !cleared.stitch_lock.is_overdue(later)
            &&& cleared.stitch_lock.after_watchdog(later) == CaptureGuard::Idle
        }),
{
}

} // verus!
