use screenshotapp::coordinator::{advance, read_request, update_shortcuts, Action, AppState, Phase, Step};
use screenshotapp::errors::{GrammarError, UpdateError};
use screenshotapp::grammar::{parse_shortcut, Shortcut};
use screenshotapp::settings::Settings;
use screenshotapp::slots::{Slot, SlotShortcuts};
use screenshotapp::startup::initial_state;

struct World {
    registered: Vec<Shortcut>,
    refused: Vec<Shortcut>,
    document: Settings,
    store_fails: bool,
    labels_fail: bool,
    log: Vec<String>,
}

fn sc(text: &str) -> Shortcut {
    parse_shortcut(text).unwrap()
}

fn start() -> (AppState, World) {
    let (state, _) = initial_state(Settings::default(), false);
    let world = World {
        registered: vec![sc("Cmd+Shift+3"), sc("Cmd+Shift+4"), sc("Cmd+Shift+2")],
        refused: Vec::new(),
        document: state.settings.clone(),
        store_fails: false,
        labels_fail: false,
        log: Vec::new(),
    };
    (state, world)
}

fn perform(world: &mut World, action: &Action) -> Result<(), String> {
    match action {
        Action::Unregister(s) => {
            world.log.push(format!("unregister {}", screenshotapp::grammar::shortcut_parts_to_string(s)));
            match world.registered.iter().position(|r| r == s) {
                Some(i) => {
                    world.registered.remove(i);
                    Ok(())
                }
                None => Err("not registered".to_string()),
            }
        }
        Action::Register(s) => {
            world.log.push(format!("register {}", screenshotapp::grammar::shortcut_parts_to_string(s)));
            if world.refused.contains(s) || world.registered.contains(s) {
                Err("taken".to_string())
            } else {
                world.registered.push(*s);
                Ok(())
            }
        }
        Action::Persist(settings) => {
            world.log.push("persist".to_string());
            if world.store_fails {
                Err("disk full".to_string())
            } else {
                world.document = settings.clone();
                Ok(())
            }
        }
        Action::RefreshLabels => {
            world.log.push("labels".to_string());
            if world.labels_fail {
                Err("no tray".to_string())
            } else {
                Ok(())
            }
        }
    }
}

fn update(state: &mut AppState, world: &mut World, f: &str, a: &str, s: &str) -> Result<(), UpdateError> {
    let (mut tx, mut action) = update_shortcuts(state, f, a, s)?;
    loop {
        let outcome = perform(world, &action);
        match advance(tx, state, outcome) {
            Step::Next(next_tx, next_action) => {
                tx = next_tx;
                action = next_action;
            }
            Step::Done(r) => return r,
        }
    }
}

fn sorted(list: &[Shortcut]) -> Vec<String> {
    let mut out: Vec<String> =
        list.iter().map(|s| screenshotapp::grammar::shortcut_parts_to_string(s)).collect();
    out.sort();
    out
}

#[test]
fn a_successful_update_rebinds_everything() {
    let (mut state, mut world) = start();
    let r = update(&mut state, &mut world, "ctrl+1", "Control+2", " alt + f5 ");
    assert_eq!(r, Ok(()));
    assert_eq!(state.active_fullscreen_shortcut, sc("Ctrl+1"));
    assert_eq!(state.active_area_shortcut, sc("Ctrl+2"));
    assert_eq!(state.active_stitch_shortcut, sc("Alt+F5"));
    assert_eq!(state.settings.fullscreen_shortcut, "Ctrl+1");
    assert_eq!(state.settings.area_shortcut, "Ctrl+2");
    assert_eq!(state.settings.stitch_shortcut, "Alt+F5");
    assert_eq!(state.settings.quality, 70);
    assert_eq!(world.document, state.settings);
    assert_eq!(sorted(&world.registered), vec!["Alt+F5", "Ctrl+1", "Ctrl+2"]);
    assert_eq!(
        world.log,
        vec![
            "unregister Cmd+Shift+3",
            "unregister Cmd+Shift+4",
            "unregister Cmd+Shift+2",
            "register Ctrl+1",
            "register Ctrl+2",
            "register Alt+F5",
            "persist",
            "labels",
        ]
    );
}

#[test]
fn slots_may_swap_their_shortcuts() {
    let (mut state, mut world) = start();
    let r = update(&mut state, &mut world, "Cmd+Shift+4", "Cmd+Shift+3", "Cmd+Shift+2");
    assert_eq!(r, Ok(()));
    assert_eq!(state.active_fullscreen_shortcut, sc("Cmd+Shift+4"));
    assert_eq!(state.active_area_shortcut, sc("Cmd+Shift+3"));
    assert_eq!(sorted(&world.registered), vec!["Cmd+Shift+2", "Cmd+Shift+3", "Cmd+Shift+4"]);
    assert_eq!(world.document, state.settings);
}

#[test]
fn equal_shortcuts_are_a_duplicate_assignment_without_any_call() {
    let (mut state, mut world) = start();
    let before = state.clone();
    let r = update(&mut state, &mut world, "cmd+shift+a", "Shift+Command+KeyA", "cmd+b");
    assert_eq!(r, Err(UpdateError::DuplicateAssignment));
    assert!(world.log.is_empty());
    assert_eq!(state, before);
    let r = update(&mut state, &mut world, "cmd+1", "cmd+2", "cmd+1");
    assert_eq!(r, Err(UpdateError::DuplicateAssignment));
    let r = update(&mut state, &mut world, "cmd+1", "cmd+2", "cmd+2");
    assert_eq!(r, Err(UpdateError::DuplicateAssignment));
    assert!(world.log.is_empty());
    assert_eq!(
        UpdateError::DuplicateAssignment.message(),
        "Shortcuts must be different"
    );
}

#[test]
fn a_string_that_is_no_shortcut_ends_the_update_without_any_call() {
    let (mut state, mut world) = start();
    let before = state.clone();
    let r = update(&mut state, &mut world, "cmd+1", "cmd", "nothing");
    assert_eq!(r, Err(UpdateError::InvalidGrammar(GrammarError::MissingKey)));
    let r = update(&mut state, &mut world, "cmd+1", "cmd+2", "cmd+nothing");
    assert_eq!(
        r,
        Err(UpdateError::InvalidGrammar(GrammarError::UnknownKey("nothing".to_string())))
    );
    // a grammar error comes before a duplicate
    let r = update(&mut state, &mut world, "cmd+1", "cmd+1", "");
    assert_eq!(r, Err(UpdateError::InvalidGrammar(GrammarError::EmptyToken)));
    assert!(world.log.is_empty());
    assert_eq!(state, before);
    assert_eq!(
        UpdateError::InvalidGrammar(GrammarError::MissingKey).message(),
        "No key specified in shortcut"
    );
}

#[test]
fn a_refusal_at_the_second_slot_leaves_everything_as_it_was() {
    let (mut state, mut world) = start();
    world.refused.push(sc("Ctrl+2"));
    let before = state.clone();
    let registered = sorted(&world.registered);
    let document = world.document.clone();
    let r = update(&mut state, &mut world, "ctrl+1", "ctrl+2", "ctrl+3");
    assert_eq!(
        r,
        Err(UpdateError::RegistrationFailed { slot: Slot::Area, cause: "taken".to_string() })
    );
    assert_eq!(state, before);
    assert_eq!(sorted(&world.registered), registered);
    assert_eq!(world.document, document);
    assert_eq!(
        world.log,
        vec![
            "unregister Cmd+Shift+3",
            "unregister Cmd+Shift+4",
            "unregister Cmd+Shift+2",
            "register Ctrl+1",
            "register Ctrl+2",
            "unregister Ctrl+1",
            "register Cmd+Shift+3",
            "register Cmd+Shift+4",
            "register Cmd+Shift+2",
        ]
    );
    assert_eq!(r.unwrap_err().message(), "Failed to register area shortcut: taken");
}

#[test]
fn a_refusal_at_the_first_slot_undoes_nothing_new() {
    let (mut state, mut world) = start();
    world.refused.push(sc("Ctrl+1"));
    let before = state.clone();
    let r = update(&mut state, &mut world, "ctrl+1", "ctrl+2", "ctrl+3");
    assert_eq!(
        r,
        Err(UpdateError::RegistrationFailed { slot: Slot::Fullscreen, cause: "taken".to_string() })
    );
    assert_eq!(state, before);
    assert_eq!(sorted(&world.registered), vec!["Cmd+Shift+2", "Cmd+Shift+3", "Cmd+Shift+4"]);
    assert_eq!(
        world.log,
        vec![
            "unregister Cmd+Shift+3",
            "unregister Cmd+Shift+4",
            "unregister Cmd+Shift+2",
            "register Ctrl+1",
            "register Cmd+Shift+3",
            "register Cmd+Shift+4",
            "register Cmd+Shift+2",
        ]
    );
    assert_eq!(r.unwrap_err().message(), "Failed to register fullscreen shortcut: taken");
}

#[test]
fn a_refusal_at_the_last_slot_undoes_the_new_ones_in_reverse() {
    let (mut state, mut world) = start();
    world.refused.push(sc("Ctrl+3"));
    let before = state.clone();
    let r = update(&mut state, &mut world, "ctrl+1", "ctrl+2", "ctrl+3");
    assert_eq!(
        r,
        Err(UpdateError::RegistrationFailed { slot: Slot::Stitch, cause: "taken".to_string() })
    );
    assert_eq!(state, before);
    assert_eq!(sorted(&world.registered), vec!["Cmd+Shift+2", "Cmd+Shift+3", "Cmd+Shift+4"]);
    assert_eq!(
        world.log[3..],
        [
            "register Ctrl+1",
            "register Ctrl+2",
            "register Ctrl+3",
            "unregister Ctrl+2",
            "unregister Ctrl+1",
            "register Cmd+Shift+3",
            "register Cmd+Shift+4",
            "register Cmd+Shift+2",
        ]
    );
    assert_eq!(r.unwrap_err().message(), "Failed to register stitch shortcut: taken");
}

#[test]
fn a_failure_to_store_leaves_everything_as_it_was() {
    let (mut state, mut world) = start();
    world.store_fails = true;
    let before = state.clone();
    let document = world.document.clone();
    let r = update(&mut state, &mut world, "ctrl+1", "ctrl+2", "ctrl+3");
    assert_eq!(r, Err(UpdateError::PersistFailed { cause: "disk full".to_string() }));
    assert_eq!(state, before);
    assert_eq!(sorted(&world.registered), vec!["Cmd+Shift+2", "Cmd+Shift+3", "Cmd+Shift+4"]);
    assert_eq!(world.document, document);
    assert_eq!(
        world.log[3..],
        [
            "register Ctrl+1",
            "register Ctrl+2",
            "register Ctrl+3",
            "persist",
            "unregister Ctrl+3",
            "unregister Ctrl+2",
            "unregister Ctrl+1",
            "register Cmd+Shift+3",
            "register Cmd+Shift+4",
            "register Cmd+Shift+2",
        ]
    );
    assert_eq!(r.unwrap_err().message(), "disk full");
}

#[test]
fn a_failure_of_the_labels_is_reported_and_the_update_stands() {
    let (mut state, mut world) = start();
    world.labels_fail = true;
    let r = update(&mut state, &mut world, "ctrl+1", "ctrl+2", "ctrl+3");
    assert_eq!(r, Err(UpdateError::LabelsFailed { cause: "no tray".to_string() }));
    assert_eq!(state.active_stitch_shortcut, sc("Ctrl+3"));
    assert_eq!(state.settings.stitch_shortcut, "Ctrl+3");
    assert_eq!(world.document, state.settings);
    assert_eq!(sorted(&world.registered), vec!["Ctrl+1", "Ctrl+2", "Ctrl+3"]);
    assert_eq!(r.unwrap_err().message(), "no tray");
}

#[test]
fn a_failed_update_can_be_tried_again() {
    let (mut state, mut world) = start();
    world.refused.push(sc("Ctrl+2"));
    assert!(update(&mut state, &mut world, "ctrl+1", "ctrl+2", "ctrl+3").is_err());
    assert_eq!(update(&mut state, &mut world, "ctrl+1", "ctrl+4", "ctrl+3"), Ok(()));
    assert_eq!(sorted(&world.registered), vec!["Ctrl+1", "Ctrl+3", "Ctrl+4"]);
    assert_eq!(world.document, state.settings);
}

#[test]
fn the_two_backslash_keys_may_fill_two_slots() {
    let (mut state, mut world) = start();
    let r = update(&mut state, &mut world, "cmd+backslash", "cmd+intlbackslash", "cmd+b");
    assert_eq!(r, Ok(()));
    assert_eq!(state.settings.fullscreen_shortcut, "Cmd+\\");
    assert_eq!(state.settings.area_shortcut, "Cmd+IntlBackslash");
    assert_ne!(state.settings.fullscreen_shortcut, state.settings.area_shortcut);
    let (again, save) = initial_state(state.settings.clone(), false);
    assert!(!save);
    assert_eq!(again, state);
}

#[test]
fn the_first_step_of_an_update() {
    let (state, _) = start();
    let (tx, action) = update_shortcuts(&state, "ctrl+1", "ctrl+2", "ctrl+3").unwrap();
    assert_eq!(action, Action::Unregister(sc("Cmd+Shift+3")));
    assert_eq!(tx.phase, Phase::Releasing(Slot::Fullscreen));
    assert_eq!(
        tx.old_shortcuts,
        SlotShortcuts {
            fullscreen: sc("Cmd+Shift+3"),
            area: sc("Cmd+Shift+4"),
            stitch: sc("Cmd+Shift+2")
        }
    );
    assert_eq!(tx.old_strings.area, "Cmd+Shift+4");
    assert_eq!(tx.new_shortcuts.get(Slot::Stitch), sc("Ctrl+3"));
    assert_eq!(tx.new_strings.stitch, "Ctrl+3");
    assert_eq!(tx.failure, None);
}

#[test]
fn a_failed_release_does_not_stop_the_update() {
    let (mut state, _) = start();
    let (tx, _) = update_shortcuts(&state, "ctrl+1", "ctrl+2", "ctrl+3").unwrap();
    let step = advance(tx, &mut state, Err("stale".to_string()));
    match step {
        Step::Next(tx, action) => {
            assert_eq!(action, Action::Unregister(sc("Cmd+Shift+4")));
            assert_eq!(tx.phase, Phase::Releasing(Slot::Area));
            assert_eq!(tx.failure, None);
        }
        Step::Done(_) => panic!("the update ended"),
    }
}

#[test]
fn reading_a_request() {
    let (shortcuts, strings) = read_request("cmd+a", "cmd+b", "cmd+c").unwrap();
    assert_eq!(shortcuts.area, sc("Cmd+B"));
    assert_eq!(strings.fullscreen, "Cmd+A");
    assert_eq!(strings.stitch, "Cmd+C");
    assert!(shortcuts.distinct());
    assert_eq!(read_request("cmd+a", "cmd+a", "cmd+c"), Err(UpdateError::DuplicateAssignment));
}

#[test]
fn slots_in_order() {
    assert_eq!(Slot::Fullscreen.next(), Some(Slot::Area));
    assert_eq!(Slot::Area.next(), Some(Slot::Stitch));
    assert_eq!(Slot::Stitch.next(), None);
    assert_eq!(Slot::Fullscreen.prev(), None);
    assert_eq!(Slot::Area.prev(), Some(Slot::Fullscreen));
    assert_eq!(Slot::Stitch.prev(), Some(Slot::Area));
    assert_eq!(Slot::Fullscreen.name(), "fullscreen");
    assert_eq!(Slot::Area.name(), "area");
    assert_eq!(Slot::Stitch.name(), "stitch");
}
