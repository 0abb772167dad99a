//! The state at start: the shortcut strings of the loaded configuration are
//! brought into canonical form, and whatever cannot stand gives way to the
//! defaults.

use vstd::prelude::*;
use vstd::string::*;
use crate::coordinator::{is_consistent, AppState, AppStateView};
use crate::errors::GrammarFault;
use crate::grammar::{canonical, normalize, normalize_and_parse, parse, Shortcut};
use crate::guard::CaptureGuard;
use crate::keys::{Code, Modifiers};
use crate::round_trip::parse_inverts_canonical;
use crate::settings::{
    default_area_shortcut, default_fullscreen_shortcut, default_stitch_shortcut, Settings,
    SettingsView,
};
use crate::slots::{Slot, SlotShortcuts, SlotTexts};

verus! {

/// The shortcut of a slot unless configured otherwise: Cmd and Shift with
/// the digit 3 for the whole screen, 4 for an area, 2 for stitching.
pub open spec fn default_shortcut(slot: Slot) -> Shortcut {
    Shortcut {
        modifiers: Modifiers { cmd: true, shift: true, alt: false, ctrl: false },
        key: match slot {
            Slot::Fullscreen => Code::Digit3,
            Slot::Area => Code::Digit4,
            Slot::Stitch => Code::Digit2,
        },
    }
}

/// The default shortcuts of all slots.
pub open spec fn default_shortcuts() -> SlotShortcuts {
    SlotShortcuts {
        fullscreen: default_shortcut(Slot::Fullscreen),
        area: default_shortcut(Slot::Area),
        stitch: default_shortcut(Slot::Stitch),
    }
}

/// The default shortcut string of a slot.
pub open spec fn default_text(slot: Slot) -> Seq<char> {
    match slot {
        Slot::Fullscreen => "Cmd+Shift+3"@,
        Slot::Area => "Cmd+Shift+4"@,
        Slot::Stitch => "Cmd+Shift+2"@,
    }
}

/// The default shortcut strings of all slots.
pub open spec fn default_texts() -> SlotTexts {
    SlotTexts {
        fullscreen: default_text(Slot::Fullscreen),
        area: default_text(Slot::Area),
        stitch: default_text(Slot::Stitch),
    }
}

/// What a stored shortcut string becomes at start: the shortcut that it
/// spells, or the default of its slot where it spells none.
pub open spec fn mended_shortcut(text: Seq<char>, slot: Slot) -> Shortcut {
    match parse(text) {
        Ok(sc) => sc,
        Err(_) => default_shortcut(slot),
    }
}

/// The string that stands for a stored shortcut string at start: its
/// canonical form, or the default of its slot.
pub open spec fn mended_text(text: Seq<char>, slot: Slot) -> Seq<char> {
    match parse(text) {
        Ok(sc) => canonical(sc),
        Err(_) => default_text(slot),
    }
}

/// The shortcuts of a configuration, each mended by itself.
pub open spec fn mended_shortcuts(settings: SettingsView) -> SlotShortcuts {
    SlotShortcuts {
        fullscreen: mended_shortcut(settings.fullscreen_shortcut, Slot::Fullscreen),
        area: mended_shortcut(settings.area_shortcut, Slot::Area),
        stitch: mended_shortcut(settings.stitch_shortcut, Slot::Stitch),
    }
}

/// The shortcut strings of a configuration, each mended by itself.
pub open spec fn mended_texts(settings: SettingsView) -> SlotTexts {
    SlotTexts {
        fullscreen: mended_text(settings.fullscreen_shortcut, Slot::Fullscreen),
        area: mended_text(settings.area_shortcut, Slot::Area),
        stitch: mended_text(settings.stitch_shortcut, Slot::Stitch),
    }
}

/// The shortcuts that are active at start: those of the configuration, each
/// mended by itself; and the defaults of all slots where two of those are the
/// same.
pub open spec fn initial_shortcuts(settings: SettingsView) -> SlotShortcuts {
    let mended = mended_shortcuts(settings);
    if mended.spec_distinct() {
        mended
    } else {
        default_shortcuts()
    }
}

/// The shortcut strings of the configuration at start.
pub open spec fn initial_texts(settings: SettingsView) -> SlotTexts {
    if mended_shortcuts(settings).spec_distinct() {
        mended_texts(settings)
    } else {
        default_texts()
    }
}

/// The state at start.
pub open spec fn initial_view(settings: SettingsView) -> AppStateView {
    crate::coordinator::rebound(
        AppStateView {
            settings,
            active: initial_shortcuts(settings),
            stitch_lock: CaptureGuard::Idle,
        },
        initial_shortcuts(settings),
        initial_texts(settings),
    )
}

/// The shortcut of a slot unless configured otherwise.
pub fn default_shortcut_of(slot: Slot) -> (r: Shortcut)
    ensures
        r == default_shortcut(slot),
{
    Shortcut {
        modifiers: Modifiers { cmd: true, shift: true, alt: false, ctrl: false },
        key: match slot {
            Slot::Fullscreen => Code::Digit3,
            Slot::Area => Code::Digit4,
            Slot::Stitch => Code::Digit2,
        },
    }
}

/// The default shortcut string of a slot.
pub fn default_text_of(slot: Slot) -> (r: String)
    ensures
        r@ == default_text(slot),
{
    match slot {
        Slot::Fullscreen => default_fullscreen_shortcut(),
        Slot::Area => default_area_shortcut(),
        Slot::Stitch => default_stitch_shortcut(),
    }
}

/// Mends one stored shortcut string.
fn mend(text: &String, slot: Slot) -> (r: (String, Shortcut))
    ensures
        r.0@ == mended_text(text@, slot),
        r.1 == mended_shortcut(text@, slot),
{
    match normalize_and_parse(text.as_str()) {
        Ok(pair) => pair,
        Err(_) => (default_text_of(slot), default_shortcut_of(slot)),
    }
}

/// Builds the state at start from the configuration that was loaded.
///
/// Each shortcut string is put in canonical form; one that is no shortcut
/// gives way to the default of its slot. Where two slots would then hold the
/// same shortcut, all three get their defaults. The other fields of the
/// configuration stay as they are, and the guard is idle. The second part of the
/// result says whether the configuration is to be stored again: when loading
/// mended it (`mended`) or a shortcut string was changed here.
pub fn initial_state(settings: Settings, mended: bool) -> (r: (AppState, bool))
    ensures
        r.0@ == initial_view(settings@),
        r.1 == (mended || initial_texts(settings@) != crate::coordinator::shortcut_texts(
            settings@,
        )),
{
    let mut settings = settings;
    let ghost before = settings@;
    let (full_text, full) = mend(&settings.fullscreen_shortcut, Slot::Fullscreen);
    let (area_text, area) = mend(&settings.area_shortcut, Slot::Area);
    let (stitch_text, stitch) = mend(&settings.stitch_shortcut, Slot::Stitch);
    let shortcuts = SlotShortcuts { fullscreen: full, area, stitch };
    let distinct = shortcuts.distinct();
    let (full_text, area_text, stitch_text, shortcuts) = if distinct {
        (full_text, area_text, stitch_text, shortcuts)
    } else {
        (
            default_fullscreen_shortcut(),
            default_area_shortcut(),
            default_stitch_shortcut(),
            SlotShortcuts {
                fullscreen: default_shortcut_of(Slot::Fullscreen),
                area: default_shortcut_of(Slot::Area),
                stitch: default_shortcut_of(Slot::Stitch),
            },
        )
    };
    let changed = !(full_text == settings.fullscreen_shortcut) || !(area_text
        == settings.area_shortcut) || !(stitch_text == settings.stitch_shortcut);
    settings.fullscreen_shortcut = full_text;
    settings.area_shortcut = area_text;
    settings.stitch_shortcut = stitch_text;
    let state = AppState {
        settings,
        active_fullscreen_shortcut: shortcuts.fullscreen,
        active_area_shortcut: shortcuts.area,
        active_stitch_shortcut: shortcuts.stitch,
        stitch_lock: CaptureGuard::new(),
    };
    (state, mended || changed)
}

/// The default strings are the canonical strings of the default shortcuts.
pub proof fn lemma_default_texts_canonical(slot: Slot)
    ensures
        canonical(default_shortcut(slot)) == default_text(slot),
{
    reveal_strlit("Cmd+");
    reveal_strlit("Shift+");
    reveal_strlit("2");
    reveal_strlit("3");
    reveal_strlit("4");
    reveal_strlit("Cmd+Shift+2");
    reveal_strlit("Cmd+Shift+3");
    reveal_strlit("Cmd+Shift+4");
    assert(canonical(default_shortcut(slot)) =~= default_text(slot));
}

/// In a state that agrees with itself every shortcut string is canonical and
/// spells the active shortcut of its slot.
pub proof fn consistent_strings_spell_active(state: AppStateView)
    requires
        is_consistent(state),
    ensures
        parse(state.settings.fullscreen_shortcut) == Ok::<Shortcut, GrammarFault>(
            state.active.fullscreen,
        ),
        parse(state.settings.area_shortcut) == Ok::<Shortcut, GrammarFault>(state.active.area),
        parse(state.settings.stitch_shortcut) == Ok::<Shortcut, GrammarFault>(state.active.stitch),
        normalize(state.settings.fullscreen_shortcut) == Ok::<Seq<char>, GrammarFault>(
            state.settings.fullscreen_shortcut,
        ),
        normalize(state.settings.area_shortcut) == Ok::<Seq<char>, GrammarFault>(
            state.settings.area_shortcut,
        ),
        normalize(state.settings.stitch_shortcut) == Ok::<Seq<char>, GrammarFault>(
            state.settings.stitch_shortcut,
        ),
{
    parse_inverts_canonical(state.active.fullscreen);
    parse_inverts_canonical(state.active.area);
    parse_inverts_canonical(state.active.stitch);
}

/// The state at start agrees with itself, whatever was loaded: three
/// different shortcuts, each with a modifier, and their canonical strings in
/// the configuration, each of which spells the active shortcut of its slot. The
/// guard is idle, and the fields of the configuration that are no shortcut
/// strings are as they were loaded.
pub proof fn initial_state_is_consistent(settings: SettingsView)
    ensures
        is_consistent(initial_view(settings)),
        initial_view(settings).stitch_lock == CaptureGuard::Idle,
        initial_view(settings).settings == crate::coordinator::with_shortcut_texts(
            settings,
            crate::coordinator::shortcut_texts(initial_view(settings).settings),
        ),
        parse(initial_view(settings).settings.fullscreen_shortcut) == Ok::<Shortcut, GrammarFault>(
            initial_view(settings).active.fullscreen,
        ),
        parse(initial_view(settings).settings.area_shortcut) == Ok::<Shortcut, GrammarFault>(
            initial_view(settings).active.area,
        ),
        parse(initial_view(settings).settings.stitch_shortcut) == Ok::<Shortcut, GrammarFault>(
            initial_view(settings).active.stitch,
        ),
{
    lemma_default_texts_canonical(Slot::Fullscreen);
    lemma_default_texts_canonical(Slot::Area);
    lemma_default_texts_canonical(Slot::Stitch);
    consistent_strings_spell_active(initial_view(settings));
}

/// The shortcuts that are registered with the system at start: those of the
/// slots area, fullscreen and stitch, in this order.
pub open spec fn initial_registrations(state: AppStateView) -> Seq<Shortcut> {
    seq![state.active.area, state.active.fullscreen, state.active.stitch]
}

/// Lists the shortcuts to register with the system at start.
pub fn shortcuts_to_register(state: &AppState) -> (r: Vec<Shortcut>)
    ensures
        r@ == initial_registrations(state@),
{
    let mut out: Vec<Shortcut> = Vec::new();
    out.push(state.active_area_shortcut);
    out.push(state.active_fullscreen_shortcut);
    out.push(state.active_stitch_shortcut);
    assert(out@ =~= initial_registrations(state@));
    out
}

/// A configuration whose shortcut strings are canonical and spell three
/// different shortcuts is taken at start as it is.
pub proof fn initial_state_keeps_canonical(settings: SettingsView, shortcuts: SlotShortcuts)
    requires
        shortcuts.all_valid(),
        shortcuts.spec_distinct(),
        crate::coordinator::shortcut_texts(settings) == crate::coordinator::canonical_texts(
            shortcuts,
        ),
    ensures
        initial_view(settings).settings == settings,
        initial_view(settings).active == shortcuts,
{
    parse_inverts_canonical(shortcuts.fullscreen);
    parse_inverts_canonical(shortcuts.area);
    parse_inverts_canonical(shortcuts.stitch);
}

} // verus!
