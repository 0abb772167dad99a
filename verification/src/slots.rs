//! The slots: the fixed roles that a shortcut is bound to.

use vstd::prelude::*;
use vstd::string::*;
use crate::grammar::Shortcut;

verus! {

/// A role that one shortcut is bound to at a time. The slots are visited in
/// the order in which they are listed.
#[derive(Clone, Copy, Debug, PartialEq, Eq, Hash, Structural)]
pub enum Slot {
    Fullscreen,
    Area,
    Stitch,
}

/// The name of a slot.
pub open spec fn slot_name(slot: Slot) -> Seq<char> {
    match slot {
        Slot::Fullscreen => "fullscreen"@,
        Slot::Area => "area"@,
        Slot::Stitch => "stitch"@,
    }
}

impl Slot {
    /// The slot after this one, if there is one.
    pub open spec fn spec_next(self) -> Option<Slot> {
        match self {
            Slot::Fullscreen => Some(Slot::Area),
            Slot::Area => Some(Slot::Stitch),
            Slot::Stitch => None,
        }
    }

    /// The slot before this one, if there is one.
    pub open spec fn spec_prev(self) -> Option<Slot> {
        match self {
            Slot::Fullscreen => None,
            Slot::Area => Some(Slot::Fullscreen),
            Slot::Stitch => Some(Slot::Area),
        }
    }

    #[verifier::when_used_as_spec(spec_next)]
    pub fn next(self) -> (r: Option<Slot>)
        ensures
            r == self.spec_next(),
    {
        match self {
            Slot::Fullscreen => Some(Slot::Area),
            Slot::Area => Some(Slot::Stitch),
            Slot::Stitch => None,
        }
    }

    #[verifier::when_used_as_spec(spec_prev)]
    pub fn prev(self) -> (r: Option<Slot>)
        ensures
            r == self.spec_prev(),
    {
        match self {
            Slot::Fullscreen => None,
            Slot::Area => Some(Slot::Fullscreen),
            Slot::Stitch => Some(Slot::Area),
        }
    }

    /// The name of the slot.
    pub fn name(self) -> (r: String)
        ensures
            r@ == slot_name(self),
    {
        match self {
            Slot::Fullscreen => String::from_str("fullscreen"),
            Slot::Area => String::from_str("area"),
            Slot::Stitch => String::from_str("stitch"),
        }
    }
}

/// One shortcut for each slot.
#[derive(Clone, Copy, Debug, PartialEq, Eq, Structural)]
pub struct SlotShortcuts {
    pub fullscreen: Shortcut,
    pub area: Shortcut,
    pub stitch: Shortcut,
}

impl SlotShortcuts {
    /// The shortcut of a slot.
    pub open spec fn spec_get(self, slot: Slot) -> Shortcut {
        match slot {
            Slot::Fullscreen => self.fullscreen,
            Slot::Area => self.area,
            Slot::Stitch => self.stitch,
        }
    }

    /// Whether no two slots hold the same shortcut.
    pub open spec fn spec_distinct(self) -> bool {
        self.fullscreen != self.area && self.fullscreen != self.stitch && self.area != self.stitch
    }

    /// Whether every slot holds a shortcut with a modifier.
    pub open spec fn all_valid(self) -> bool {
        self.fullscreen.is_valid() && self.area.is_valid() && self.stitch.is_valid()
    }

    /// The shortcuts as a set.
    pub open spec fn as_set(self) -> Set<Shortcut> {
        set![self.fullscreen, self.area, self.stitch]
    }

    #[verifier::when_used_as_spec(spec_get)]
    pub fn get(self, slot: Slot) -> (r: Shortcut)
        ensures
            r == self.spec_get(slot),
    {
        match slot {
            Slot::Fullscreen => self.fullscreen,
            Slot::Area => self.area,
            Slot::Stitch => self.stitch,
        }
    }

    #[verifier::when_used_as_spec(spec_distinct)]
    pub fn distinct(self) -> (r: bool)
        ensures
            r == self.spec_distinct(),
    {
        self.fullscreen != self.area && self.fullscreen != self.stitch && self.area != self.stitch
    }
}

/// One string for each slot.
#[derive(Debug, PartialEq, Eq)]
pub struct SlotStrings {
    pub fullscreen: String,
    pub area: String,
    pub stitch: String,
}

/// A [`SlotStrings`] over plain values.
pub struct SlotTexts {
    pub fullscreen: Seq<char>,
    pub area: Seq<char>,
    pub stitch: Seq<char>,
}

impl View for SlotStrings {
    type V = SlotTexts;

    open spec fn view(&self) -> SlotTexts {
        SlotTexts { fullscreen: self.fullscreen@, area: self.area@, stitch: self.stitch@ }
    }
}

impl Clone for SlotStrings {
    fn clone(&self) -> (r: Self)
        ensures
            r@ == self@,
    {
        SlotStrings {
            fullscreen: self.fullscreen.clone(),
            area: self.area.clone(),
            stitch: self.stitch.clone(),
        }
    }
}

} // verus!
