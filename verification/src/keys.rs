//! Physical key identifiers and modifier sets.

use vstd::prelude::*;

verus! {

/// Platform-independent identifier for a physical key.
///
/// `Character` keys are the character-producing keys (letters, digits,
/// punctuation); the named variants are control and modifier keys.
#[derive(Clone, Copy, PartialEq, Eq, Structural, Debug)]
pub enum Key {
    Character(char),
    Shift,
    Control,
    Alt,
    Meta,
    Escape,
    Enter,
    Tab,
    Backspace,
    Delete,
    ArrowLeft,
    ArrowRight,
    ArrowUp,
    ArrowDown,
    Home,
    End,
    PageUp,
    PageDown,
}

impl Key {
    /// True of the keys that produce a character when typed.
    pub open spec fn is_character_producing(self) -> bool {
        self is Character
    }
}

/// The set of modifier keys held at some moment.
#[derive(Clone, Copy, PartialEq, Eq, Structural, Debug)]
pub struct ModifierSet {
    pub shift: bool,
    pub ctrl: bool,
    pub alt: bool,
    pub meta: bool,
}

impl ModifierSet {
    /// The empty modifier set.
    pub fn none() -> (r: ModifierSet)
        ensures
            r == (ModifierSet { shift: false, ctrl: false, alt: false, meta: false }),
    {
        ModifierSet { shift: false, ctrl: false, alt: false, meta: false }
    }

    /// How many modifiers the set holds; the measure of how specific a
    /// binding's modifier combination is.
    pub open spec fn count(self) -> nat {
        (if self.shift { 1nat } else { 0nat }) + (if self.ctrl { 1nat } else { 0nat })
            + (if self.alt { 1nat } else { 0nat }) + (if self.meta { 1nat } else { 0nat })
    }

    /// Every modifier of `self` is also held in `other`.
    pub open spec fn subset_of(self, other: ModifierSet) -> bool {
        &&& self.shift ==> other.shift
        &&& self.ctrl ==> other.ctrl
        &&& self.alt ==> other.alt
        &&& self.meta ==> other.meta
    }

    /// Executable form of `subset_of`.
    pub fn is_subset_of(&self, other: &ModifierSet) -> (r: bool)
        ensures
            r == self.subset_of(*other),
    {
        (!self.shift || other.shift) && (!self.ctrl || other.ctrl) && (!self.alt || other.alt)
            && (!self.meta || other.meta)
    }

    /// Executable form of `count`.
    pub fn specificity(&self) -> (n: u32)
        ensures
            n == self.count(),
    {
        let mut n: u32 = 0;
        if self.shift {
            n = n + 1;
        }
        if self.ctrl {
            n = n + 1;
        }
        if self.alt {
            n = n + 1;
        }
        if self.meta {
            n = n + 1;
        }
        n
    }
}

} // verus!
