//! The shortcut coordinator: the state that binds a shortcut to each slot, and
//! the update of all bindings as one transaction.
//!
//! The system's table of global shortcuts and the stored configuration are
//! outside this library. An update therefore runs in steps: each step hands the
//! caller one action to perform, and the caller hands its outcome to the next
//! step. Every action that changes something has an inverse, and a failure
//! part of the way is answered by the inverses of what was done, in reverse
//! order.

use vstd::prelude::*;
use vstd::string::*;
use crate::errors::{UpdateError, UpdateFault};
use crate::grammar::{canonical, normalize_and_parse, parse, Shortcut};
use crate::guard::CaptureGuard;
use crate::settings::{Settings, SettingsView};
use crate::slots::{Slot, SlotShortcuts, SlotStrings, SlotTexts};

verus! {

/// The state of the application: the configuration, the shortcut that is
/// active for each slot, and the guard of the stitch workflow.
#[derive(Debug, PartialEq, Eq)]
pub struct AppState {
    pub settings: Settings,
    pub active_fullscreen_shortcut: Shortcut,
    pub active_area_shortcut: Shortcut,
    pub active_stitch_shortcut: Shortcut,
    pub stitch_lock: CaptureGuard,
}

/// An [`AppState`] over plain values.
pub struct AppStateView {
    pub settings: SettingsView,
    pub active: SlotShortcuts,
    pub stitch_lock: CaptureGuard,
}

impl View for AppState {
    type V = AppStateView;

    open spec fn view(&self) -> AppStateView {
        AppStateView {
            settings: self.settings@,
            active: SlotShortcuts {
                fullscreen: self.active_fullscreen_shortcut,
                area: self.active_area_shortcut,
                stitch: self.active_stitch_shortcut,
            },
            stitch_lock: self.stitch_lock,
        }
    }
}

/// The shortcut strings of a configuration.
pub open spec fn shortcut_texts(settings: SettingsView) -> SlotTexts {
    SlotTexts {
        fullscreen: settings.fullscreen_shortcut,
        area: settings.area_shortcut,
        stitch: settings.stitch_shortcut,
    }
}

/// A configuration with its shortcut strings replaced; every other field
/// stays as it is.
pub open spec fn with_shortcut_texts(settings: SettingsView, texts: SlotTexts) -> SettingsView {
    SettingsView {
        fullscreen_shortcut: texts.fullscreen,
        area_shortcut: texts.area,
        stitch_shortcut: texts.stitch,
        ..settings
    }
}

/// The canonical strings of the shortcuts of the slots.
pub open spec fn canonical_texts(shortcuts: SlotShortcuts) -> SlotTexts {
    SlotTexts {
        fullscreen: canonical(shortcuts.fullscreen),
        area: canonical(shortcuts.area),
        stitch: canonical(shortcuts.stitch),
    }
}

/// A state with the bindings of all slots replaced, in the active shortcuts
/// and in the configuration alike.
pub open spec fn rebound(state: AppStateView, shortcuts: SlotShortcuts, texts: SlotTexts)
    -> AppStateView {
    AppStateView {
        settings: with_shortcut_texts(state.settings, texts),
        active: shortcuts,
        stitch_lock: state.stitch_lock,
    }
}

/// A state agrees with itself when the slots hold three different shortcuts,
/// each with a modifier, and the configuration holds their canonical strings.
pub open spec fn is_consistent(state: AppStateView) -> bool {
    &&& state.active.all_valid()
    &&& state.active.spec_distinct()
    &&& shortcut_texts(state.settings) == canonical_texts(state.active)
}

/// Where an update stands: the action that was handed out last.
#[derive(Clone, Copy, Debug, PartialEq, Eq, Structural)]
pub enum Phase {
    /// The old shortcut of the slot is being taken out of the system's table.
    Releasing(Slot),
    /// The new shortcut of the slot is being registered.
    Registering(Slot),
    /// After a failure: the new shortcut of the slot is being taken out again.
    Undoing(Slot),
    /// After a failure: the old shortcut of the slot is being registered again.
    Restoring(Slot),
    /// The configuration is being stored.
    Persisting,
    /// The labels are being renewed.
    Labelling,
}

/// An update in progress: what was bound before, what is to be bound, and
/// where the update stands.
#[derive(Debug, PartialEq, Eq)]
pub struct Transaction {
    pub old_shortcuts: SlotShortcuts,
    pub old_strings: SlotStrings,
    pub new_shortcuts: SlotShortcuts,
    pub new_strings: SlotStrings,
    pub phase: Phase,
    pub failure: Option<UpdateError>,
}

/// A [`Transaction`] over plain values.
pub struct TransactionView {
    pub old_shortcuts: SlotShortcuts,
    pub old_texts: SlotTexts,
    pub new_shortcuts: SlotShortcuts,
    pub new_texts: SlotTexts,
    pub phase: Phase,
    pub failure: Option<UpdateFault>,
}

/// An optional error over plain values.
pub open spec fn failure_view(failure: Option<UpdateError>) -> Option<UpdateFault> {
    match failure {
        Some(e) => Some(e@),
        None => None,
    }
}

impl View for Transaction {
    type V = TransactionView;

    open spec fn view(&self) -> TransactionView {
        TransactionView {
            old_shortcuts: self.old_shortcuts,
            old_texts: self.old_strings@,
            new_shortcuts: self.new_shortcuts,
            new_texts: self.new_strings@,
            phase: self.phase,
            failure: failure_view(self.failure),
        }
    }
}

/// What the caller is to do next.
#[derive(Debug, PartialEq, Eq)]
pub enum Action {
    /// Take the shortcut out of the system's table. A failure is of no
    /// account: what was not registered need not be taken out.
    Unregister(Shortcut),
    /// Register the shortcut with the system.
    Register(Shortcut),
    /// Store the configuration.
    Persist(Settings),
    /// Renew the labels that show the shortcuts.
    RefreshLabels,
}

/// An [`Action`] over plain values.
pub enum ActionView {
    Unregister(Shortcut),
    Register(Shortcut),
    Persist(SettingsView),
    RefreshLabels,
}

impl View for Action {
    type V = ActionView;

    open spec fn view(&self) -> ActionView {
        match self {
            Action::Unregister(s) => ActionView::Unregister(*s),
            Action::Register(s) => ActionView::Register(*s),
            Action::Persist(settings) => ActionView::Persist(settings@),
            Action::RefreshLabels => ActionView::RefreshLabels,
        }
    }
}

/// What a step of an update gives: the next action, or the end.
#[derive(Debug, PartialEq, Eq)]
pub enum Step {
    Next(Transaction, Action),
    Done(Result<(), UpdateError>),
}

/// A [`Step`] over plain values.
pub enum StepView {
    Next(TransactionView, ActionView),
    Done(Result<(), UpdateFault>),
}

/// The end of an update over plain values.
pub open spec fn result_view(r: Result<(), UpdateError>) -> Result<(), UpdateFault> {
    match r {
        Ok(_) => Ok(()),
        Err(e) => Err(e@),
    }
}

impl View for Step {
    type V = StepView;

    open spec fn view(&self) -> StepView {
        match self {
            Step::Next(tx, action) => StepView::Next(tx@, action@),
            Step::Done(r) => StepView::Done(result_view(*r)),
        }
    }
}

/// The outcome of an action over plain values.
pub open spec fn outcome_view(outcome: Result<(), String>) -> Result<(), Seq<char>> {
    match outcome {
        Ok(_) => Ok(()),
        Err(cause) => Err(cause@),
    }
}

/// The shortcuts that three strings spell, or the first error among them in
/// the order of the slots; three that parse but are not all different are a
/// duplicate assignment.
pub open spec fn requested(fullscreen: Seq<char>, area: Seq<char>, stitch: Seq<char>) -> Result<
    SlotShortcuts,
    UpdateFault,
> {
    match parse(fullscreen) {
        Err(e) => Err(UpdateFault::InvalidGrammar(e)),
        Ok(f) => match parse(area) {
            Err(e) => Err(UpdateFault::InvalidGrammar(e)),
            Ok(a) => match parse(stitch) {
                Err(e) => Err(UpdateFault::InvalidGrammar(e)),
                Ok(s) => {
                    let shortcuts = SlotShortcuts { fullscreen: f, area: a, stitch: s };
                    if shortcuts.spec_distinct() {
                        Ok(shortcuts)
                    } else {
                        Err(UpdateFault::DuplicateAssignment)
                    }
                },
            },
        },
    }
}

/// The update that begins in `state` towards `shortcuts`: it remembers what
/// is bound, and its first action takes the old shortcut of the first slot out
/// of the system's table.
pub open spec fn opened(state: AppStateView, shortcuts: SlotShortcuts) -> TransactionView {
    TransactionView {
        old_shortcuts: state.active,
        old_texts: shortcut_texts(state.settings),
        new_shortcuts: shortcuts,
        new_texts: canonical_texts(shortcuts),
        phase: Phase::Releasing(Slot::Fullscreen),
        failure: None,
    }
}

/// The first step of the way back: the new shortcuts that were registered
/// are taken out from `from` downwards; with none to take out, the old ones are
/// registered again.
pub open spec fn way_back(tx: TransactionView, from: Option<Slot>) -> StepView {
    match from {
        Some(p) => StepView::Next(
            TransactionView { phase: Phase::Undoing(p), ..tx },
            ActionView::Unregister(tx.new_shortcuts.spec_get(p)),
        ),
        None => StepView::Next(
            TransactionView { phase: Phase::Restoring(Slot::Fullscreen), ..tx },
            ActionView::Register(tx.old_shortcuts.fullscreen),
        ),
    }
}

/// After an old shortcut was released: the next one is released, and after
/// the last the first new one is registered.
pub open spec fn release_next(tx: TransactionView, slot: Slot) -> StepView {
    match slot.spec_next() {
        Some(n) => StepView::Next(
            TransactionView { phase: Phase::Releasing(n), ..tx },
            ActionView::Unregister(tx.old_shortcuts.spec_get(n)),
        ),
        None => StepView::Next(
            TransactionView { phase: Phase::Registering(Slot::Fullscreen), ..tx },
            ActionView::Register(tx.new_shortcuts.fullscreen),
        ),
    }
}

/// After a new shortcut was registered: the next one is registered, and
/// after the last the state is rebound and the configuration is to be stored.
pub open spec fn register_next(tx: TransactionView, state: AppStateView, slot: Slot) -> (
    StepView,
    AppStateView,
) {
    match slot.spec_next() {
        Some(n) => (
            StepView::Next(
                TransactionView { phase: Phase::Registering(n), ..tx },
                ActionView::Register(tx.new_shortcuts.spec_get(n)),
            ),
            state,
        ),
        None => {
            let bound = rebound(state, tx.new_shortcuts, tx.new_texts);
            (
                StepView::Next(
                    TransactionView { phase: Phase::Persisting, ..tx },
                    ActionView::Persist(bound.settings),
                ),
                bound,
            )
        },
    }
}

/// On the way back, after an old shortcut was registered again: the next
/// one is, and after the last the update ends in the error that turned it.
pub open spec fn restore_next(tx: TransactionView, slot: Slot) -> StepView {
    match slot.spec_next() {
        Some(n) => StepView::Next(
            TransactionView { phase: Phase::Restoring(n), ..tx },
            ActionView::Register(tx.old_shortcuts.spec_get(n)),
        ),
        None => match tx.failure {
            Some(f) => StepView::Done(Err(f)),
            None => StepView::Done(Ok(())),
        },
    }
}

/// An update with the error that turns it back.
pub open spec fn failed(tx: TransactionView, fault: UpdateFault) -> TransactionView {
    TransactionView { failure: Some(fault), ..tx }
}

/// One step of an update: from where it stands, the state, and the outcome
/// of the action handed out last, to what comes next and the state after it.
///
/// Forward, the old shortcuts are released slot by slot, whatever the
/// outcome; the new ones are registered slot by slot; then the state is rebound
/// and the configuration stored; then the labels are renewed. A refused
/// registration turns the update back before the state was touched. A failure to
/// store puts the state back as it was and turns the update back. The way back
/// ends in the error that caused it.
pub open spec fn next_step(tx: TransactionView, state: AppStateView, outcome: Result<(), Seq<char>>)
    -> (StepView, AppStateView) {
    match tx.phase {
        Phase::Releasing(slot) => (release_next(tx, slot), state),
        Phase::Registering(slot) => match outcome {
            Ok(_) => register_next(tx, state, slot),
            Err(cause) => (
                way_back(
                    failed(tx, UpdateFault::RegistrationFailed { slot, cause }),
                    slot.spec_prev(),
                ),
                state,
            ),
        },
        Phase::Undoing(slot) => (way_back(tx, slot.spec_prev()), state),
        Phase::Restoring(slot) => (restore_next(tx, slot), state),
        Phase::Persisting => match outcome {
            Ok(_) => (
                StepView::Next(
                    TransactionView { phase: Phase::Labelling, ..tx },
                    ActionView::RefreshLabels,
                ),
                state,
            ),
            Err(cause) => (
                way_back(failed(tx, UpdateFault::PersistFailed { cause }), Some(Slot::Stitch)),
                rebound(state, tx.old_shortcuts, tx.old_texts),
            ),
        },
        Phase::Labelling => match outcome {
            Ok(_) => (StepView::Done(Ok(())), state),
            Err(cause) => (StepView::Done(Err(UpdateFault::LabelsFailed { cause })), state),
        },
    }
}

impl Clone for AppState {
    fn clone(&self) -> (r: Self)
        ensures
            r@ == self@,
    {
        AppState {
            settings: self.settings.clone(),
            active_fullscreen_shortcut: self.active_fullscreen_shortcut,
            active_area_shortcut: self.active_area_shortcut,
            active_stitch_shortcut: self.active_stitch_shortcut,
            stitch_lock: self.stitch_lock,
        }
    }
}

/// Hands out a copy of the configuration.
pub fn get_settings(state: &AppState) -> (r: Settings)
    ensures
        r@ == state@.settings,
{
    state.settings.clone()
}

/// The configuration that a save leads to: every field as it is given, but
/// for the shortcut strings, which stay as the state holds them. The bindings of
/// the slots change through an update of the shortcuts and in no other way.
pub open spec fn saved_settings(state: AppStateView, given: SettingsView) -> SettingsView {
    with_shortcut_texts(given, shortcut_texts(state.settings))
}

/// A save in progress: the configuration that is being stored.
#[derive(Debug, PartialEq, Eq)]
pub struct PendingSave {
    pub settings: Settings,
}

impl View for PendingSave {
    type V = SettingsView;

    open spec fn view(&self) -> SettingsView {
        self.settings@
    }
}

/// The state after a save came to its end: with the configuration that was
/// stored where the store took it, and as it was where the store failed.
pub open spec fn after_save(state: AppStateView, pending: SettingsView, outcome: Result<
    (),
    Seq<char>,
>) -> AppStateView {
    match outcome {
        Ok(_) => AppStateView { settings: pending, ..state },
        Err(_) => state,
    }
}

/// How a save ends: well, or with the failure of the store.
pub open spec fn save_end(outcome: Result<(), Seq<char>>) -> Result<(), UpdateFault> {
    match outcome {
        Ok(_) => Ok(()),
        Err(cause) => Err(UpdateFault::PersistFailed { cause }),
    }
}

/// Begins a save of the configuration, and hands out the action that stores
/// it.
///
/// What is stored is the given configuration with the shortcut strings of
/// the state in place of its own. The state, which is only read, stays as it is
/// until the outcome of the store is known: see [`finish_save`].
pub fn save_settings(state: &AppState, settings: Settings) -> (r: (PendingSave, Action))
    ensures
        r.0@ == saved_settings(state@, settings@),
        r.1@ == ActionView::Persist(saved_settings(state@, settings@)),
{
    let mut settings = settings;
    settings.fullscreen_shortcut = state.settings.fullscreen_shortcut.clone();
    settings.area_shortcut = state.settings.area_shortcut.clone();
    settings.stitch_shortcut = state.settings.stitch_shortcut.clone();
    let action = Action::Persist(settings.clone());
    (PendingSave { settings }, action)
}

/// Ends a save, given the outcome of the store.
///
/// Where the store took the configuration, the state takes it too. Where
/// the store failed, the state stays as it was, and the failure is reported. The
/// active shortcuts and the guard stay as they are either way.
pub fn finish_save(pending: PendingSave, state: &mut AppState, outcome: Result<(), String>) -> (r:
    Result<(), UpdateError>)
    ensures
        final(state)@ == after_save(old(state)@, pending@, outcome_view(outcome)),
        result_view(r) == save_end(outcome_view(outcome)),
{
    match outcome {
        Ok(_) => {
            state.settings = pending.settings;
            Ok(())
        },
        Err(cause) => Err(UpdateError::PersistFailed { cause }),
    }
}

impl AppState {
    /// The shortcuts that are active, by slot.
    pub fn active(&self) -> (r: SlotShortcuts)
        ensures
            r == self@.active,
    {
        SlotShortcuts {
            fullscreen: self.active_fullscreen_shortcut,
            area: self.active_area_shortcut,
            stitch: self.active_stitch_shortcut,
        }
    }

    /// Binds all slots anew, in the active shortcuts and in the
    /// configuration.
    fn rebind(&mut self, shortcuts: SlotShortcuts, strings: &SlotStrings)
        ensures
            final(self)@ == rebound(old(self)@, shortcuts, strings@),
    {
        self.settings.fullscreen_shortcut = strings.fullscreen.clone();
        self.settings.area_shortcut = strings.area.clone();
        self.settings.stitch_shortcut = strings.stitch.clone();
        self.active_fullscreen_shortcut = shortcuts.fullscreen;
        self.active_area_shortcut = shortcuts.area;
        self.active_stitch_shortcut = shortcuts.stitch;
    }
}

/// Reads the three requested shortcuts and their canonical strings.
pub fn read_request(fullscreen_shortcut: &str, area_shortcut: &str, stitch_shortcut: &str) -> (r:
    Result<(SlotShortcuts, SlotStrings), UpdateError>)
    ensures
        match requested(fullscreen_shortcut@, area_shortcut@, stitch_shortcut@) {
            Ok(shortcuts) => r is Ok && r->Ok_0.0 == shortcuts && r->Ok_0.1@ == canonical_texts(
                shortcuts,
            ),
            Err(f) => r is Err && r->Err_0@ == f,
        },
{
    let (full_text, full) = match normalize_and_parse(fullscreen_shortcut) {
        Ok(pair) => pair,
        Err(e) => {
            return Err(UpdateError::InvalidGrammar(e));
        },
    };
    let (area_text, area) = match normalize_and_parse(area_shortcut) {
        Ok(pair) => pair,
        Err(e) => {
            return Err(UpdateError::InvalidGrammar(e));
        },
    };
    let (stitch_text, stitch) = match normalize_and_parse(stitch_shortcut) {
        Ok(pair) => pair,
        Err(e) => {
            return Err(UpdateError::InvalidGrammar(e));
        },
    };
    let shortcuts = SlotShortcuts { fullscreen: full, area, stitch };
    if !shortcuts.distinct() {
        return Err(UpdateError::DuplicateAssignment);
    }
    Ok((shortcuts, SlotStrings { fullscreen: full_text, area: area_text, stitch: stitch_text }))
}

/// Begins an update of the shortcuts of all slots.
///
/// The three strings are read in the order of the slots. The first that is
/// no shortcut ends the update with its error; three shortcuts that are not all
/// different end it as a duplicate assignment. In both cases no action is
/// handed out and the state, which is only read, is as it was. Otherwise the
/// update is open, and its first action is handed out with it.
pub fn update_shortcuts(
    state: &AppState,
    fullscreen_shortcut: &str,
    area_shortcut: &str,
    stitch_shortcut: &str,
) -> (r: Result<(Transaction, Action), UpdateError>)
    ensures
        match requested(fullscreen_shortcut@, area_shortcut@, stitch_shortcut@) {
            Ok(shortcuts) => r is Ok && r->Ok_0.0@ == opened(state@, shortcuts) && r->Ok_0.1@
                == ActionView::Unregister(state@.active.fullscreen),
            Err(f) => r is Err && r->Err_0@ == f,
        },
{
    let (shortcuts, strings) = match read_request(
        fullscreen_shortcut,
        area_shortcut,
        stitch_shortcut,
    ) {
        Ok(pair) => pair,
        Err(e) => {
            return Err(e);
        },
    };
    let tx = Transaction {
        old_shortcuts: state.active(),
        old_strings: SlotStrings {
            fullscreen: state.settings.fullscreen_shortcut.clone(),
            area: state.settings.area_shortcut.clone(),
            stitch: state.settings.stitch_shortcut.clone(),
        },
        new_shortcuts: shortcuts,
        new_strings: strings,
        phase: Phase::Releasing(Slot::Fullscreen),
        failure: None,
    };
    Ok((tx, Action::Unregister(state.active_fullscreen_shortcut)))
}

/// Turns an update back, starting with the new shortcut of `from`.
fn turn_back(tx: Transaction, from: Option<Slot>) -> (r: Step)
    ensures
        r@ == way_back(tx@, from),
{
    let mut tx = tx;
    match from {
        Some(p) => {
            let action = Action::Unregister(tx.new_shortcuts.get(p));
            tx.phase = Phase::Undoing(p);
            Step::Next(tx, action)
        },
        None => {
            let action = Action::Register(tx.old_shortcuts.fullscreen);
            tx.phase = Phase::Restoring(Slot::Fullscreen);
            Step::Next(tx, action)
        },
    }
}

fn release_step(tx: Transaction, slot: Slot) -> (r: Step)
    ensures
        r@ == release_next(tx@, slot),
{
    let mut tx = tx;
    match slot.next() {
        Some(n) => {
            let action = Action::Unregister(tx.old_shortcuts.get(n));
            tx.phase = Phase::Releasing(n);
            Step::Next(tx, action)
        },
        None => {
            let action = Action::Register(tx.new_shortcuts.fullscreen);
            tx.phase = Phase::Registering(Slot::Fullscreen);
            Step::Next(tx, action)
        },
    }
}

fn register_step(tx: Transaction, state: &mut AppState, slot: Slot) -> (r: Step)
    ensures
        r@ == register_next(tx@, old(state)@, slot).0,
        final(state)@ == register_next(tx@, old(state)@, slot).1,
{
    let mut tx = tx;
    match slot.next() {
        Some(n) => {
            let action = Action::Register(tx.new_shortcuts.get(n));
            tx.phase = Phase::Registering(n);
            Step::Next(tx, action)
        },
        None => {
            state.rebind(tx.new_shortcuts, &tx.new_strings);
            let action = Action::Persist(state.settings.clone());
            tx.phase = Phase::Persisting;
            Step::Next(tx, action)
        },
    }
}

fn restore_step(tx: Transaction, slot: Slot) -> (r: Step)
    ensures
        r@ == restore_next(tx@, slot),
{
    let mut tx = tx;
    match slot.next() {
        Some(n) => {
            let action = Action::Register(tx.old_shortcuts.get(n));
            tx.phase = Phase::Restoring(n);
            Step::Next(tx, action)
        },
        None => match tx.failure {
            Some(e) => Step::Done(Err(e)),
            None => Step::Done(Ok(())),
        },
    }
}

fn fail(tx: Transaction, error: UpdateError) -> (r: Transaction)
    ensures
        r@ == failed(tx@, error@),
{
    let mut tx = tx;
    tx.failure = Some(error);
    tx
}

/// Takes an update one step further, given the outcome of the action that
/// was handed out last.
///
/// The state is touched at two points only: it is rebound to the new
/// shortcuts when the last of them has been registered, and it is put back as
/// it was when the configuration could not be stored.
pub fn advance(tx: Transaction, state: &mut AppState, outcome: Result<(), String>) -> (r: Step)
    ensures
        r@ == next_step(tx@, old(state)@, outcome_view(outcome)).0,
        final(state)@ == next_step(tx@, old(state)@, outcome_view(outcome)).1,
{
    match tx.phase {
        Phase::Releasing(slot) => release_step(tx, slot),
        Phase::Registering(slot) => match outcome {
            Ok(_) => register_step(tx, state, slot),
            Err(cause) => turn_back(
                fail(tx, UpdateError::RegistrationFailed { slot, cause }),
                slot.prev(),
            ),
        },
        Phase::Undoing(slot) => turn_back(tx, slot.prev()),
        Phase::Restoring(slot) => restore_step(tx, slot),
        Phase::Persisting => match outcome {
            Ok(_) => {
                let mut tx = tx;
                tx.phase = Phase::Labelling;
                Step::Next(tx, Action::RefreshLabels)
            },
            Err(cause) => {
                state.rebind(tx.old_shortcuts, &tx.old_strings);
                turn_back(fail(tx, UpdateError::PersistFailed { cause }), Some(Slot::Stitch))
            },
        },
        Phase::Labelling => match outcome {
            Ok(_) => Step::Done(Ok(())),
            Err(cause) => Step::Done(Err(UpdateError::LabelsFailed { cause })),
        },
    }
}

} // verus!
