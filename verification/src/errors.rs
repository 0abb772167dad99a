//! The errors that the library reports.

use vstd::prelude::*;
use vstd::string::*;
use crate::slots::{slot_name, Slot};

verus! {

/// Why a string is not a shortcut.
#[derive(Debug, PartialEq, Eq)]
pub enum GrammarError {
    /// No token names a modifier.
    MissingModifier,
    /// No token names a key.
    MissingKey,
    /// More than one token is not a modifier.
    DuplicateKey,
    /// A segment between separators is blank.
    EmptyToken,
    /// A token is neither a modifier nor a known key; it is kept as written.
    UnknownKey(String),
}

/// What a [`GrammarError`] says, over plain values.
pub enum GrammarFault {
    MissingModifier,
    MissingKey,
    DuplicateKey,
    EmptyToken,
    UnknownKey(Seq<char>),
}

impl View for GrammarError {
    type V = GrammarFault;

    open spec fn view(&self) -> GrammarFault {
        match self {
            GrammarError::MissingModifier => GrammarFault::MissingModifier,
            GrammarError::MissingKey => GrammarFault::MissingKey,
            GrammarError::DuplicateKey => GrammarFault::DuplicateKey,
            GrammarError::EmptyToken => GrammarFault::EmptyToken,
            GrammarError::UnknownKey(t) => GrammarFault::UnknownKey(t@),
        }
    }
}

/// The text shown for a [`GrammarFault`].
pub open spec fn grammar_message(f: GrammarFault) -> Seq<char> {
    match f {
        GrammarFault::MissingModifier => "At least one modifier required"@,
        GrammarFault::MissingKey => "No key specified in shortcut"@,
        GrammarFault::DuplicateKey => "Shortcut must have only one main key"@,
        GrammarFault::EmptyToken => "Shortcut contains an empty token"@,
        GrammarFault::UnknownKey(t) => "Unknown key: "@ + t,
    }
}

impl GrammarError {
    /// The text shown for this error.
    pub fn message(&self) -> (r: String)
        ensures
            r@ == grammar_message(self@),
    {
        match self {
            GrammarError::MissingModifier => String::from_str("At least one modifier required"),
            GrammarError::MissingKey => String::from_str("No key specified in shortcut"),
            GrammarError::DuplicateKey => String::from_str("Shortcut must have only one main key"),
            GrammarError::EmptyToken => String::from_str("Shortcut contains an empty token"),
            GrammarError::UnknownKey(t) => String::from_str("Unknown key: ").concat(t.as_str()),
        }
    }
}

impl Clone for GrammarError {
    fn clone(&self) -> (r: Self)
        ensures
            r@ == self@,
    {
        match self {
            GrammarError::MissingModifier => GrammarError::MissingModifier,
            GrammarError::MissingKey => GrammarError::MissingKey,
            GrammarError::DuplicateKey => GrammarError::DuplicateKey,
            GrammarError::EmptyToken => GrammarError::EmptyToken,
            GrammarError::UnknownKey(t) => GrammarError::UnknownKey(t.clone()),
        }
    }
}

/// Why an update of the shortcuts did not go through, or did with a flaw.
#[derive(Debug, PartialEq, Eq)]
pub enum UpdateError {
    /// A string is not a shortcut. Nothing was changed.
    InvalidGrammar(GrammarError),
    /// Two slots were given the same shortcut. Nothing was changed.
    DuplicateAssignment,
    /// The system refused the shortcut of `slot`. Everything is as it was.
    RegistrationFailed { slot: Slot, cause: String },
    /// The configuration could not be stored. Everything is as it was.
    PersistFailed { cause: String },
    /// The update stands, but the labels that show it could not be renewed.
    LabelsFailed { cause: String },
}

/// What an [`UpdateError`] says, over plain values.
pub enum UpdateFault {
    InvalidGrammar(GrammarFault),
    DuplicateAssignment,
    RegistrationFailed { slot: Slot, cause: Seq<char> },
    PersistFailed { cause: Seq<char> },
    LabelsFailed { cause: Seq<char> },
}

impl View for UpdateError {
    type V = UpdateFault;

    open spec fn view(&self) -> UpdateFault {
        match self {
            UpdateError::InvalidGrammar(e) => UpdateFault::InvalidGrammar(e@),
            UpdateError::DuplicateAssignment => UpdateFault::DuplicateAssignment,
            UpdateError::RegistrationFailed { slot, cause } => UpdateFault::RegistrationFailed {
                slot: *slot,
                cause: cause@,
            },
            UpdateError::PersistFailed { cause } => UpdateFault::PersistFailed { cause: cause@ },
            UpdateError::LabelsFailed { cause } => UpdateFault::LabelsFailed { cause: cause@ },
        }
    }
}

/// The text shown for an [`UpdateFault`].
pub open spec fn update_message(f: UpdateFault) -> Seq<char> {
    match f {
        UpdateFault::InvalidGrammar(e) => grammar_message(e),
        UpdateFault::DuplicateAssignment => "Shortcuts must be different"@,
        UpdateFault::RegistrationFailed { slot, cause } => "Failed to register "@ + slot_name(slot)
            + " shortcut: "@ + cause,
        UpdateFault::PersistFailed { cause } => cause,
        UpdateFault::LabelsFailed { cause } => cause,
    }
}

impl UpdateError {
    /// The text shown for this error.
    pub fn message(&self) -> (r: String)
        ensures
            r@ == update_message(self@),
    {
        match self {
            UpdateError::InvalidGrammar(e) => e.message(),
            UpdateError::DuplicateAssignment => String::from_str("Shortcuts must be different"),
            UpdateError::RegistrationFailed { slot, cause } => {
                let mut out = String::from_str("Failed to register ");
                let name = slot.name();
                out.append(name.as_str());
                out.append(" shortcut: ");
                out.append(cause.as_str());
                out
            },
            UpdateError::PersistFailed { cause } => cause.clone(),
            UpdateError::LabelsFailed { cause } => cause.clone(),
        }
    }
}

} // verus!
