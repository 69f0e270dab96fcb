//! Raw input events as the host delivers them, and the mouse state owned by
//! the preprocessor.

use vstd::prelude::*;
use crate::keys::Key;
use crate::keys::ModifierSet;
use crate::mapper::DocumentPoint;

verus! {

/// Whether input is interpreted as canvas commands or as literal text; read
/// each call from the host, never owned by this core.
#[derive(Clone, Copy, PartialEq, Eq, Structural, Debug)]
pub enum Mode {
    Canvas,
    TextEntry,
}

/// A mouse button.
#[derive(Clone, Copy, PartialEq, Eq, Structural, Debug)]
pub enum MouseButton {
    Left,
    Right,
    Middle,
}

/// The set of mouse buttons currently held.
#[derive(Clone, Copy, PartialEq, Eq, Structural, Debug)]
pub struct ButtonSet {
    pub left: bool,
    pub right: bool,
    pub middle: bool,
}

impl ButtonSet {
    /// Whether `button` is in the set.
    pub open spec fn holds(self, button: MouseButton) -> bool {
        match button {
            MouseButton::Left => self.left,
            MouseButton::Right => self.right,
            MouseButton::Middle => self.middle,
        }
    }

    /// The set with `button` present iff `pressed`.
    pub open spec fn with(self, button: MouseButton, pressed: bool) -> ButtonSet {
        match button {
            MouseButton::Left => ButtonSet { left: pressed, ..self },
            MouseButton::Right => ButtonSet { right: pressed, ..self },
            MouseButton::Middle => ButtonSet { middle: pressed, ..self },
        }
    }

    /// The empty button set.
    pub fn none() -> (r: ButtonSet)
        ensures
            r == (ButtonSet { left: false, right: false, middle: false }),
    {
        ButtonSet { left: false, right: false, middle: false }
    }

    /// Executable form of `holds`.
    pub fn contains(&self, button: MouseButton) -> (r: bool)
        ensures
            r == self.holds(button),
    {
        match button {
            MouseButton::Left => self.left,
            MouseButton::Right => self.right,
            MouseButton::Middle => self.middle,
        }
    }

    /// Sets whether `button` is held.
    pub fn set(&mut self, button: MouseButton, pressed: bool)
        ensures
            *final(self) == old(self).with(button, pressed),
    {
        match button {
            MouseButton::Left => self.left = pressed,
            MouseButton::Right => self.right = pressed,
            MouseButton::Middle => self.middle = pressed,
        }
    }
}

/// One raw input occurrence, exactly as delivered by the host's event loop.
///
/// The `modifiers` a `KeyDown` carries are the host's claim and may be stale;
/// the preprocessor derives the authoritative modifier set from its own key
/// state instead.
#[derive(Clone, Copy, PartialEq, Eq, Structural, Debug)]
pub enum Event {
    KeyDown { key: Key, modifiers: ModifierSet, repeat: bool, timestamp: u64 },
    KeyUp { key: Key, timestamp: u64 },
    MouseMove { x: i32, y: i32 },
    MouseButton { button: MouseButton, pressed: bool, x: i32, y: i32 },
    Scroll { dx: i32, dy: i32 },
    TextInput { character: char },
}

/// `a + b` clamped to the `i64` range.
pub open spec fn saturating_add(a: int, b: int) -> int {
    if a + b > i64::MAX {
        i64::MAX as int
    } else if a + b < i64::MIN {
        i64::MIN as int
    } else {
        a + b
    }
}

/// Executable form of `saturating_add`.
pub fn saturating_add_i64(a: i64, b: i64) -> (r: i64)
    ensures
        r as int == saturating_add(a as int, b as int),
{
    let wide: i128 = a as i128 + b as i128;
    if wide > i64::MAX as i128 {
        i64::MAX
    } else if wide < i64::MIN as i128 {
        i64::MIN
    } else {
        wide as i64
    }
}

/// Pointer position (in document space), held buttons and accumulated scroll,
/// owned by the preprocessor and mutated only by normalized mouse events.
#[derive(Clone, Copy, PartialEq, Eq, Structural, Debug)]
pub struct MouseState {
    pub position: DocumentPoint,
    pub buttons: ButtonSet,
    pub scroll_x: i64,
    pub scroll_y: i64,
}

impl MouseState {
    /// The state before any event: origin position, no buttons, no scroll.
    pub open spec fn initial() -> MouseState {
        MouseState {
            position: DocumentPoint { x: 0, y: 0 },
            buttons: ButtonSet { left: false, right: false, middle: false },
            scroll_x: 0,
            scroll_y: 0,
        }
    }

    /// Builds the initial mouse state.
    pub fn new() -> (r: MouseState)
        ensures
            r == MouseState::initial(),
    {
        MouseState {
            position: DocumentPoint { x: 0, y: 0 },
            buttons: ButtonSet::none(),
            scroll_x: 0,
            scroll_y: 0,
        }
    }

    /// Moves the pointer to `position`.
    pub fn apply_move(&mut self, position: DocumentPoint)
        ensures
            *final(self) == (MouseState { position, ..*old(self) }),
    {
        self.position = position;
    }

    /// Records a button transition at `position`.
    pub fn apply_button(&mut self, button: MouseButton, pressed: bool, position: DocumentPoint)
        ensures
            *final(self) == (MouseState {
                position,
                buttons: old(self).buttons.with(button, pressed),
                ..*old(self)
            }),
    {
        self.position = position;
        self.buttons.set(button, pressed);
    }

    /// Accumulates scroll, saturating at the `i64` range.
    pub fn apply_scroll(&mut self, dx: i32, dy: i32)
        ensures
            *final(self) == (MouseState {
                scroll_x: saturating_add(old(self).scroll_x as int, dx as int) as i64,
                scroll_y: saturating_add(old(self).scroll_y as int, dy as int) as i64,
                ..*old(self)
            }),
    {
        self.scroll_x = saturating_add_i64(self.scroll_x, dx as i64);
        self.scroll_y = saturating_add_i64(self.scroll_y, dy as i64);
    }
}

} // verus!
