//! The labels of the tray menu: how the shortcuts of the slots are shown.

use vstd::prelude::*;
use vstd::string::*;
use crate::coordinator::{is_consistent, AppStateView};
use crate::grammar::{display, display_text, shortcut_display, shortcut_to_display};
use crate::round_trip::parse_inverts_canonical;
use crate::settings::{Settings, SettingsView};
use crate::slots::{SlotShortcuts, SlotStrings, SlotTexts};

verus! {

/// An entry of the tray menu.
#[derive(Debug, PartialEq, Eq)]
pub struct MenuEntry {
    pub id: String,
    pub text: String,
}

/// A [`MenuEntry`] over plain values.
pub struct MenuEntryView {
    pub id: Seq<char>,
    pub text: Seq<char>,
}

impl View for MenuEntry {
    type V = MenuEntryView;

    open spec fn view(&self) -> MenuEntryView {
        MenuEntryView { id: self.id@, text: self.text@ }
    }
}

/// How the shortcuts of the slots are shown.
pub open spec fn display_texts(shortcuts: SlotShortcuts) -> SlotTexts {
    SlotTexts {
        fullscreen: display(shortcuts.fullscreen),
        area: display(shortcuts.area),
        stitch: display(shortcuts.stitch),
    }
}

/// The entries of the tray menu for a configuration: the capture of the
/// whole screen and that of an area, each with its shortcut as it is shown,
/// then the entries that show the application and quit it.
pub open spec fn tray_menu(settings: SettingsView) -> Seq<MenuEntryView> {
    seq![
        MenuEntryView {
            id: "fullscreen"@,
            text: "Screenshot Full ("@ + display_text(settings.fullscreen_shortcut) + ")"@,
        },
        MenuEntryView {
            id: "screenshot"@,
            text: "Screenshot Area ("@ + display_text(settings.area_shortcut) + ")"@,
        },
        MenuEntryView { id: "show"@, text: "Show App"@ },
        MenuEntryView { id: "quit"@, text: "Quit"@ },
    ]
}

/// The views of the entries of a menu.
pub open spec fn menu_view(menu: Seq<MenuEntry>) -> Seq<MenuEntryView> {
    Seq::new(menu.len(), |i: int| menu[i]@)
}

/// Shows the shortcut of each slot.
pub fn labels(shortcuts: &SlotShortcuts) -> (r: SlotStrings)
    ensures
        r@ == display_texts(*shortcuts),
{
    SlotStrings {
        fullscreen: shortcut_display(&shortcuts.fullscreen),
        area: shortcut_display(&shortcuts.area),
        stitch: shortcut_display(&shortcuts.stitch),
    }
}

fn entry(id: &str, text: String) -> (r: MenuEntry)
    ensures
        r@ == (MenuEntryView { id: id@, text: text@ }),
{
    MenuEntry { id: String::from_str(id), text }
}

fn capture_label(title: &str, shortcut_str: &str) -> (r: String)
    ensures
        r@ == title@ + display_text(shortcut_str@) + ")"@,
{
    let mut text = String::from_str(title);
    let shown = shortcut_to_display(shortcut_str);
    text.append(shown.as_str());
    text.append(")");
    text
}

/// Builds the entries of the tray menu.
pub fn build_tray_menu(settings: &Settings) -> (r: Vec<MenuEntry>)
    ensures
        menu_view(r@) == tray_menu(settings@),
{
    let mut menu: Vec<MenuEntry> = Vec::new();
    menu.push(
        entry("fullscreen", capture_label("Screenshot Full (", settings.fullscreen_shortcut.as_str())),
    );
    menu.push(
        entry("screenshot", capture_label("Screenshot Area (", settings.area_shortcut.as_str())),
    );
    menu.push(entry("show", String::from_str("Show App")));
    menu.push(entry("quit", String::from_str("Quit")));
    assert(menu_view(menu@) =~= tray_menu(settings@));
    menu
}

/// In a state that agrees with itself the menu shows the active shortcuts:
/// what is shown for the string of a slot is what is shown for its shortcut.
pub proof fn menu_shows_active_shortcuts(state: AppStateView)
    requires
        is_consistent(state),
    ensures
        display_text(state.settings.fullscreen_shortcut) == display(state.active.fullscreen),
        display_text(state.settings.area_shortcut) == display(state.active.area),
        display_text(state.settings.stitch_shortcut) == display(state.active.stitch),
{
    parse_inverts_canonical(state.active.fullscreen);
    parse_inverts_canonical(state.active.area);
    parse_inverts_canonical(state.active.stitch);
}

} // verus!
