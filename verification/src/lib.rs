//! The core of a desktop capture utility.
//!
//! Three things must always agree: the system's table of global shortcuts, the
//! shortcuts that the application holds as active, and the stored
//! configuration. This library holds the rules that keep them so:
//!
//! - the shortcut grammar ([`keys`], [`grammar`]) and the proof that what is
//!   written is read back ([`round_trip`]);
//! - the configuration, its defaults and its loading with healing
//!   ([`settings`], [`document`]);
//! - the update of all shortcuts as one transaction ([`slots`],
//!   [`coordinator`]) and the proof that it is all or nothing ([`atomicity`]);
//! - the state at start ([`startup`]), the answer to a key press
//!   ([`dispatch`]) and the labels of the tray menu ([`tray`]);
//! - the guard that lets one capture workflow run at a time ([`guard`]).
//!
//! Beside them stand the rules for the files of captures: their names
//! ([`naming`]), their backups ([`backup`]), their images ([`imaging`],
//! [`report`]) and the addresses handed to the windows ([`links`]).
//!
//! The library performs no input or output. Each step that needs the world
//! outside hands the caller an action and takes its outcome.

pub mod text;
pub mod errors;
pub mod keys;
pub mod grammar;
pub mod round_trip;
pub mod settings;
pub mod document;
pub mod guard;
pub mod slots;
pub mod coordinator;
pub mod atomicity;
pub mod startup;
pub mod dispatch;
pub mod tray;
pub mod naming;
pub mod backup;
pub mod imaging;
pub mod report;
pub mod links;
