//! An update of the shortcuts is all or nothing: whatever the system and the
//! store answer, afterwards the system's table, the state and the stored
//! configuration all show the new bindings, or all show the old ones.
//!
//! The proof runs the steps of an update against a model of what lies outside:
//! a table that takes a shortcut unless it refuses it, and a store that keeps
//! what it is given unless it fails.

use vstd::prelude::*;
use crate::coordinator::{
    after_save, canonical_texts, is_consistent, next_step, opened, rebound, requested, save_end,
    saved_settings, shortcut_texts, ActionView, AppStateView, Phase, StepView, TransactionView,
};
use crate::errors::UpdateFault;
use crate::grammar::{parse, Shortcut};
use crate::settings::SettingsView;
use crate::slots::{Slot, SlotShortcuts};

verus! {

/// What lies outside the library, as far as an update touches it.
pub struct World {
    /// The shortcuts in the system's table.
    pub registered: Set<Shortcut>,
    /// The stored configuration.
    pub document: SettingsView,
    /// The shortcuts that the system refuses to register.
    pub refused: Set<Shortcut>,
    /// What the system says when it refuses.
    pub refusal: Seq<char>,
    /// Why the store fails, if it does.
    pub store_failure: Option<Seq<char>>,
    /// Why the labels cannot be renewed, if they cannot.
    pub label_failure: Option<Seq<char>>,
}

/// What an action does to the world, and its outcome.
pub open spec fn perform(world: World, action: ActionView) -> (World, Result<(), Seq<char>>) {
    match action {
        ActionView::Unregister(s) => (
            World { registered: world.registered.remove(s), ..world },
            Ok(()),
        ),
        ActionView::Register(s) => if world.refused.contains(s) {
            (world, Err(world.refusal))
        } else {
            (World { registered: world.registered.insert(s), ..world }, Ok(()))
        },
        ActionView::Persist(settings) => match world.store_failure {
            Some(cause) => (world, Err(cause)),
            None => (World { document: settings, ..world }, Ok(())),
        },
        ActionView::RefreshLabels => match world.label_failure {
            Some(cause) => (world, Err(cause)),
            None => (world, Ok(())),
        },
    }
}

/// The place of a slot in the order of the slots.
pub open spec fn slot_index(slot: Slot) -> nat {
    match slot {
        Slot::Fullscreen => 0,
        Slot::Area => 1,
        Slot::Stitch => 2,
    }
}

/// A bound on the steps that an update has before it, by where it stands.
pub open spec fn steps_left(phase: Phase) -> nat {
    match phase {
        Phase::Releasing(slot) => (20 - slot_index(slot)) as nat,
        Phase::Registering(slot) => (17 - slot_index(slot)) as nat,
        Phase::Persisting => 14,
        Phase::Labelling => 13,
        Phase::Undoing(slot) => 4 + slot_index(slot),
        Phase::Restoring(slot) => (3 - slot_index(slot)) as nat,
    }
}

/// An update run to its end: each action is performed on the world and its
/// outcome handed to the next step. The result is how the update ended, with
/// the state and the world after it.
#[verifier::opaque]
pub open spec fn run_update(tx: TransactionView, action: ActionView, state: AppStateView, world: World)
    -> (Result<(), UpdateFault>, AppStateView, World)
    decreases steps_left(tx.phase),
{
    let (world1, outcome) = perform(world, action);
    let (step, state1) = next_step(tx, state, outcome);
    match step {
        StepView::Done(r) => (r, state1, world1),
        StepView::Next(tx1, action1) => if steps_left(tx1.phase) < steps_left(tx.phase) {
            run_update(tx1, action1, state1, world1)
        } else {
            (Ok(()), state1, world1)
        },
    }
}

/// Every step brings an update nearer to its end.
pub proof fn lemma_step_decreases(
    tx: TransactionView,
    state: AppStateView,
    outcome: Result<(), Seq<char>>,
)
    ensures
        match next_step(tx, state, outcome).0 {
            StepView::Done(_) => true,
            StepView::Next(tx1, _) => steps_left(tx1.phase) < steps_left(tx.phase),
        },
{
}

/// How an update ends in a given world: with the refusal of the first new
/// shortcut that the system refuses, else with the failure of the store, else
/// with that of the labels, else well.
pub open spec fn expected_end(world: World, shortcuts: SlotShortcuts) -> Result<(), UpdateFault> {
    if world.refused.contains(shortcuts.fullscreen) {
        Err(UpdateFault::RegistrationFailed { slot: Slot::Fullscreen, cause: world.refusal })
    } else if world.refused.contains(shortcuts.area) {
        Err(UpdateFault::RegistrationFailed { slot: Slot::Area, cause: world.refusal })
    } else if world.refused.contains(shortcuts.stitch) {
        Err(UpdateFault::RegistrationFailed { slot: Slot::Stitch, cause: world.refusal })
    } else {
        match world.store_failure {
            Some(cause) => Err(UpdateFault::PersistFailed { cause }),
            None => match world.label_failure {
                Some(cause) => Err(UpdateFault::LabelsFailed { cause }),
                None => Ok(()),
            },
        }
    }
}

/// Whether an update that ended so has taken effect: it ended well, or only
/// the labels could not be renewed.
pub open spec fn took_effect(end: Result<(), UpdateFault>) -> bool {
    match end {
        Ok(_) => true,
        Err(UpdateFault::LabelsFailed { .. }) => true,
        Err(_) => false,
    }
}

/// The state and the world agree: the system's table holds the active
/// shortcuts and no others, and the stored configuration is that of the state.
pub open spec fn in_agreement(state: AppStateView, world: World) -> bool {
    &&& world.registered == state.active.as_set()
    &&& world.document == state.settings
}

/// A run is its first step and then the run of what is left.
pub proof fn lemma_run_unfold(
    tx: TransactionView,
    action: ActionView,
    state: AppStateView,
    world: World,
)
    ensures
        run_update(tx, action, state, world) == ({
            let (world1, outcome) = perform(world, action);
            let (step, state1) = next_step(tx, state, outcome);
            match step {
                StepView::Done(r) => (r, state1, world1),
                StepView::Next(tx1, action1) => run_update(tx1, action1, state1, world1),
            }
        }),
{
    reveal(run_update);
    lemma_step_decreases(tx, state, perform(world, action).1);
}

/// The new shortcuts of the slots up to `slot`.
pub open spec fn up_to(shortcuts: SlotShortcuts, slot: Slot) -> Set<Shortcut> {
    match slot {
        Slot::Fullscreen => set![shortcuts.fullscreen],
        Slot::Area => set![shortcuts.fullscreen, shortcuts.area],
        Slot::Stitch => set![shortcuts.fullscreen, shortcuts.area, shortcuts.stitch],
    }
}

/// Whether the system takes back every shortcut that was bound before.
pub open spec fn takes_back(world: World, old: SlotShortcuts) -> bool {
    &&& !world.refused.contains(old.fullscreen)
    &&& !world.refused.contains(old.area)
    &&& !world.refused.contains(old.stitch)
}

proof fn lemma_released(tx: TransactionView, state: AppStateView, world: World)
    requires
        tx.phase == Phase::Releasing(Slot::Fullscreen),
        world.registered == tx.old_shortcuts.as_set(),
    ensures
        run_update(tx, ActionView::Unregister(tx.old_shortcuts.fullscreen), state, world) == run_update(
            TransactionView { phase: Phase::Registering(Slot::Fullscreen), ..tx },
            ActionView::Register(tx.new_shortcuts.fullscreen),
            state,
            World { registered: Set::empty(), ..world },
        ),
{
    let o = tx.old_shortcuts;
    lemma_run_unfold(tx, ActionView::Unregister(o.fullscreen), state, world);
    let w1 = World { registered: world.registered.remove(o.fullscreen), ..world };
    let tx1 = TransactionView { phase: Phase::Releasing(Slot::Area), ..tx };
    lemma_run_unfold(tx1, ActionView::Unregister(o.area), state, w1);
    let w2 = World { registered: w1.registered.remove(o.area), ..world };
    let tx2 = TransactionView { phase: Phase::Releasing(Slot::Stitch), ..tx };
    lemma_run_unfold(tx2, ActionView::Unregister(o.stitch), state, w2);
    assert(w2.registered.remove(o.stitch) =~= Set::<Shortcut>::empty());
}

proof fn lemma_restored(tx: TransactionView, state: AppStateView, world: World, fault: UpdateFault)
    requires
        tx.phase == Phase::Restoring(Slot::Fullscreen),
        tx.failure == Some(fault),
        world.registered == Set::<Shortcut>::empty(),
        takes_back(world, tx.old_shortcuts),
    ensures
        run_update(tx, ActionView::Register(tx.old_shortcuts.fullscreen), state, world) == (
            Err::<(), UpdateFault>(fault),
            state,
            World { registered: tx.old_shortcuts.as_set(), ..world },
        ),
{
    let o = tx.old_shortcuts;
    lemma_run_unfold(tx, ActionView::Register(o.fullscreen), state, world);
    let w1 = World { registered: world.registered.insert(o.fullscreen), ..world };
    let tx1 = TransactionView { phase: Phase::Restoring(Slot::Area), ..tx };
    lemma_run_unfold(tx1, ActionView::Register(o.area), state, w1);
    let w2 = World { registered: w1.registered.insert(o.area), ..world };
    let tx2 = TransactionView { phase: Phase::Restoring(Slot::Stitch), ..tx };
    lemma_run_unfold(tx2, ActionView::Register(o.stitch), state, w2);
    assert(w2.registered.insert(o.stitch) =~= o.as_set());
}

proof fn lemma_undone(
    tx: TransactionView,
    state: AppStateView,
    world: World,
    from: Slot,
    fault: UpdateFault,
)
    requires
        tx.phase == Phase::Undoing(from),
        tx.failure == Some(fault),
        world.registered.subset_of(up_to(tx.new_shortcuts, from)),
        takes_back(world, tx.old_shortcuts),
    ensures
        run_update(tx, ActionView::Unregister(tx.new_shortcuts.spec_get(from)), state, world) == (
            Err::<(), UpdateFault>(fault),
            state,
            World { registered: tx.old_shortcuts.as_set(), ..world },
        ),
    decreases slot_index(from),
{
    let n = tx.new_shortcuts;
    lemma_run_unfold(tx, ActionView::Unregister(n.spec_get(from)), state, world);
    let w1 = World { registered: world.registered.remove(n.spec_get(from)), ..world };
    match from.spec_prev() {
        Some(p) => {
            let tx1 = TransactionView { phase: Phase::Undoing(p), ..tx };
            assert(w1.registered.subset_of(up_to(n, p)));
            lemma_undone(tx1, state, w1, p, fault);
        },
        None => {
            let tx1 = TransactionView { phase: Phase::Restoring(Slot::Fullscreen), ..tx };
            assert(w1.registered =~= Set::<Shortcut>::empty());
            lemma_restored(tx1, state, w1, fault);
        },
    }
}

proof fn lemma_refused(tx: TransactionView, state: AppStateView, world: World, slot: Slot)
    requires
        tx.phase == Phase::Registering(slot),
        tx.failure is None,
        world.refused.contains(tx.new_shortcuts.spec_get(slot)),
        match slot.spec_prev() {
            Some(p) => world.registered.subset_of(up_to(tx.new_shortcuts, p)),
            None => world.registered == Set::<Shortcut>::empty(),
        },
        takes_back(world, tx.old_shortcuts),
    ensures
        run_update(tx, ActionView::Register(tx.new_shortcuts.spec_get(slot)), state, world) == (
            Err::<(), UpdateFault>(
                UpdateFault::RegistrationFailed { slot, cause: world.refusal },
            ),
            state,
            World { registered: tx.old_shortcuts.as_set(), ..world },
        ),
{
    let n = tx.new_shortcuts;
    let fault = UpdateFault::RegistrationFailed { slot, cause: world.refusal };
    lemma_run_unfold(tx, ActionView::Register(n.spec_get(slot)), state, world);
    let turned = TransactionView { failure: Some(fault), ..tx };
    match slot.spec_prev() {
        Some(p) => {
            lemma_undone(TransactionView { phase: Phase::Undoing(p), ..turned }, state, world, p, fault);
        },
        None => {
            lemma_restored(
                TransactionView { phase: Phase::Restoring(Slot::Fullscreen), ..turned },
                state,
                world,
                fault,
            );
        },
    }
}

proof fn lemma_accepted(tx: TransactionView, state: AppStateView, world: World, slot: Slot)
    requires
        tx.phase == Phase::Registering(slot),
        !world.refused.contains(tx.new_shortcuts.spec_get(slot)),
    ensures
        run_update(tx, ActionView::Register(tx.new_shortcuts.spec_get(slot)), state, world) == ({
            let world1 = World {
                registered: world.registered.insert(tx.new_shortcuts.spec_get(slot)),
                ..world
            };
            match slot.spec_next() {
                Some(n) => run_update(
                    TransactionView { phase: Phase::Registering(n), ..tx },
                    ActionView::Register(tx.new_shortcuts.spec_get(n)),
                    state,
                    world1,
                ),
                None => {
                    let bound = rebound(state, tx.new_shortcuts, tx.new_texts);
                    run_update(
                        TransactionView { phase: Phase::Persisting, ..tx },
                        ActionView::Persist(bound.settings),
                        bound,
                        world1,
                    )
                },
            }
        }),
{
    lemma_run_unfold(tx, ActionView::Register(tx.new_shortcuts.spec_get(slot)), state, world);
}

proof fn lemma_stored(tx: TransactionView, state: AppStateView, world: World)
    requires
        tx.phase == Phase::Persisting,
        tx.failure is None,
        tx.old_shortcuts == state.active,
        tx.old_texts == shortcut_texts(state.settings),
        world.registered == tx.new_shortcuts.as_set(),
        takes_back(world, tx.old_shortcuts),
    ensures
        ({
            let bound = rebound(state, tx.new_shortcuts, tx.new_texts);
            let (end, state1, world1) = run_update(tx, ActionView::Persist(bound.settings), bound, world);
            match world.store_failure {
                Some(cause) => end == Err::<(), UpdateFault>(UpdateFault::PersistFailed { cause })
                    && state1 == state && world1 == World {
                    registered: state.active.as_set(),
                    ..world
                },
                None => state1 == bound && world1 == World { document: bound.settings, ..world }
                    && end == match world.label_failure {
                    Some(cause) => Err::<(), UpdateFault>(UpdateFault::LabelsFailed { cause }),
                    None => Ok(()),
                },
            }
        }),
{
    let bound = rebound(state, tx.new_shortcuts, tx.new_texts);
    lemma_run_unfold(tx, ActionView::Persist(bound.settings), bound, world);
    match world.store_failure {
        Some(cause) => {
            let fault = UpdateFault::PersistFailed { cause };
            let back = TransactionView {
                phase: Phase::Undoing(Slot::Stitch),
                failure: Some(fault),
                ..tx
            };
            assert(rebound(bound, tx.old_shortcuts, tx.old_texts) == state);
            lemma_undone(back, state, world, Slot::Stitch, fault);
        },
        None => {
            let stored = World { document: bound.settings, ..world };
            lemma_run_unfold(
                TransactionView { phase: Phase::Labelling, ..tx },
                ActionView::RefreshLabels,
                bound,
                stored,
            );
        },
    }
}

/// An update is all or nothing.
///
/// Take a state and a world in agreement, where the system takes back the
/// shortcuts that it holds. Run an update towards any three shortcuts, in any
/// such world. It ends as the world decides: see [`expected_end`]. Where it
/// took effect, the state is bound to the new shortcuts and their canonical
/// strings, the system's table holds the new shortcuts and no others, and the
/// stored configuration is that of the state. Where it did not, the state and
/// the world are what they were.
pub proof fn update_is_atomic(state: AppStateView, world: World, shortcuts: SlotShortcuts)
    requires
        in_agreement(state, world),
        takes_back(world, state.active),
    ensures
        ({
            let (end, state1, world1) = run_update(
                opened(state, shortcuts),
                ActionView::Unregister(state.active.fullscreen),
                state,
                world,
            );
            &&& end == expected_end(world, shortcuts)
            &&& took_effect(end) ==> state1 == rebound(
                state,
                shortcuts,
                canonical_texts(shortcuts),
            ) && in_agreement(state1, world1)
            &&& !took_effect(end) ==> state1 == state && world1 == world
        }),
{
    let tx = opened(state, shortcuts);
    let n = shortcuts;
    lemma_released(tx, state, world);
    let tx1 = TransactionView { phase: Phase::Registering(Slot::Fullscreen), ..tx };
    let w1 = World { registered: Set::empty(), ..world };
    assert(World { registered: tx.old_shortcuts.as_set(), ..world } == world);
    if world.refused.contains(n.fullscreen) {
        lemma_refused(tx1, state, w1, Slot::Fullscreen);
    } else {
        lemma_accepted(tx1, state, w1, Slot::Fullscreen);
        let tx2 = TransactionView { phase: Phase::Registering(Slot::Area), ..tx };
        let w2 = World { registered: w1.registered.insert(n.fullscreen), ..world };
        if world.refused.contains(n.area) {
            lemma_refused(tx2, state, w2, Slot::Area);
        } else {
            lemma_accepted(tx2, state, w2, Slot::Area);
            let tx3 = TransactionView { phase: Phase::Registering(Slot::Stitch), ..tx };
            let w3 = World { registered: w2.registered.insert(n.area), ..world };
            if world.refused.contains(n.stitch) {
                lemma_refused(tx3, state, w3, Slot::Stitch);
            } else {
                lemma_accepted(tx3, state, w3, Slot::Stitch);
                let w4 = World { registered: w3.registered.insert(n.stitch), ..world };
                assert(w4.registered =~= n.as_set());
                let tx4 = TransactionView { phase: Phase::Persisting, ..tx };
                lemma_stored(tx4, state, w4);
            }
        }
    }
}

/// Three strings that spell shortcuts, two of them the same one however
/// written, are refused as a duplicate assignment: no update is opened, and so
/// no action is handed out.
pub proof fn duplicate_is_refused(fullscreen: Seq<char>, area: Seq<char>, stitch: Seq<char>)
    requires
        parse(fullscreen) is Ok,
        parse(area) is Ok,
        parse(stitch) is Ok,
        parse(fullscreen) == parse(area) || parse(fullscreen) == parse(stitch) || parse(area)
            == parse(stitch),
    ensures
        requested(fullscreen, area, stitch) == Err::<SlotShortcuts, UpdateFault>(
            UpdateFault::DuplicateAssignment,
        ),
{
}

/// A request that is taken names three different shortcuts, each with a
/// modifier: those that the three strings spell.
pub proof fn request_is_sound(fullscreen: Seq<char>, area: Seq<char>, stitch: Seq<char>)
    requires
        requested(fullscreen, area, stitch) is Ok,
    ensures
        ({
            let shortcuts = requested(fullscreen, area, stitch)->Ok_0;
            &&& parse(fullscreen) == Ok::<Shortcut, crate::errors::GrammarFault>(
                shortcuts.fullscreen,
            )
            &&& parse(area) == Ok::<Shortcut, crate::errors::GrammarFault>(shortcuts.area)
            &&& parse(stitch) == Ok::<Shortcut, crate::errors::GrammarFault>(shortcuts.stitch)
            &&& shortcuts.all_valid()
            &&& shortcuts.spec_distinct()
        }),
{
}

/// The state that a request that was taken leads to agrees with itself.
pub proof fn update_keeps_consistency(
    state: AppStateView,
    fullscreen: Seq<char>,
    area: Seq<char>,
    stitch: Seq<char>,
)
    requires
        requested(fullscreen, area, stitch) is Ok,
    ensures
        ({
            let shortcuts = requested(fullscreen, area, stitch)->Ok_0;
            is_consistent(rebound(state, shortcuts, canonical_texts(shortcuts)))
        }),
{
}

/// A save keeps the bindings: whatever configuration is given, a state that
/// agrees with itself still does after the save, and its active shortcuts and
/// shortcut strings are what they were.
pub proof fn save_keeps_bindings(
    state: AppStateView,
    given: SettingsView,
    outcome: Result<(), Seq<char>>,
)
    ensures
        ({
            let after = after_save(state, saved_settings(state, given), outcome);
            &&& after.active == state.active
            &&& after.stitch_lock == state.stitch_lock
            &&& shortcut_texts(after.settings) == shortcut_texts(state.settings)
            &&& is_consistent(state) ==> is_consistent(after)
        }),
{
}

/// A save is all or nothing. Take a state and a world in agreement, and save
/// any configuration. Afterwards they are in agreement again: where the store
/// took the configuration, both hold it, with the shortcut strings that the
/// state held; where the store failed, both are what they were, and the failure
/// is reported.
pub proof fn save_is_atomic(state: AppStateView, world: World, given: SettingsView)
    requires
        in_agreement(state, world),
    ensures
        ({
            let saved = saved_settings(state, given);
            let (world1, outcome) = perform(world, ActionView::Persist(saved));
            let state1 = after_save(state, saved, outcome);
            &&& in_agreement(state1, world1)
            &&& save_end(outcome) is Ok ==> state1.settings == saved
            &&& save_end(outcome) is Err ==> state1 == state && world1 == world
            &&& save_end(outcome) == match world.store_failure {
                Some(cause) => Err::<(), UpdateFault>(UpdateFault::PersistFailed { cause }),
                None => Ok(()),
            }
        }),
{
}

} // verus!
