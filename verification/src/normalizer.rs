//! Detection and repair of impossible or duplicate transitions before they
//! reach the key and mouse state.

use vstd::prelude::*;
use crate::events::ButtonSet;
use crate::events::Event;
use crate::events::MouseButton;
use crate::keys::Key;
use crate::tracker::KeyState;
use crate::tracker::KeyStateTracker;
use crate::tracker::map_is_pressed;

verus! {

/// An event after normalization, safe to apply to the trackers.
///
/// A `KeyDown` carries `repeat: true` exactly when its key was already held,
/// whether the press came from OS auto-repeat or from a missed release; the
/// host's own repeat flag is untrusted and ignored.
#[derive(Clone, Copy, PartialEq, Eq, Structural, Debug)]
pub enum NormalizedEvent {
    KeyDown { key: Key, repeat: bool, timestamp: u64 },
    KeyUp { key: Key, timestamp: u64 },
    MouseMove { x: i32, y: i32 },
    MouseButton { button: MouseButton, pressed: bool, x: i32, y: i32 },
    Scroll { dx: i32, dy: i32 },
    TextInput { character: char },
}

/// The normalizer's verdict on one raw event.
#[derive(Clone, Copy, PartialEq, Eq, Structural, Debug)]
pub enum NormalizeDecision {
    Forward(NormalizedEvent),
    Dropped,
}

/// What `normalize` decides, over the current key-state map and held-button
/// set:
/// - a `KeyDown` is always forwarded, tagged as repeat exactly when the key
///   is already held;
/// - a `KeyUp` for a key not currently held is dropped as spurious;
/// - a redundant mouse-button transition (press while held, release while not
///   held) is dropped;
/// - mouse moves, scrolls and text input pass through unchanged.
pub open spec fn normalize_spec(
    event: Event,
    keys: Map<Key, KeyState>,
    buttons: ButtonSet,
) -> NormalizeDecision {
    match event {
        Event::KeyDown { key, modifiers: _, repeat: _, timestamp } => NormalizeDecision::Forward(
            NormalizedEvent::KeyDown { key, repeat: map_is_pressed(keys, key), timestamp },
        ),
        Event::KeyUp { key, timestamp } => if map_is_pressed(keys, key) {
            NormalizeDecision::Forward(NormalizedEvent::KeyUp { key, timestamp })
        } else {
            NormalizeDecision::Dropped
        },
        Event::MouseMove { x, y } => NormalizeDecision::Forward(NormalizedEvent::MouseMove { x, y }),
        Event::MouseButton { button, pressed, x, y } => if pressed == buttons.holds(button) {
            NormalizeDecision::Dropped
        } else {
            NormalizeDecision::Forward(NormalizedEvent::MouseButton { button, pressed, x, y })
        },
        Event::Scroll { dx, dy } => NormalizeDecision::Forward(NormalizedEvent::Scroll { dx, dy }),
        Event::TextInput { character } => NormalizeDecision::Forward(
            NormalizedEvent::TextInput { character },
        ),
    }
}

/// Decides whether `event` is forwarded (possibly repaired) or dropped. Reads
/// the tracker and the held-button set; mutates nothing.
pub fn normalize(event: &Event, tracker: &KeyStateTracker, buttons: &ButtonSet) -> (r:
    NormalizeDecision)
    requires
        tracker.wf(),
    ensures
        r == normalize_spec(*event, tracker@, *buttons),
{
    match *event {
        Event::KeyDown { key, modifiers: _, repeat: _, timestamp } => NormalizeDecision::Forward(
            NormalizedEvent::KeyDown { key, repeat: tracker.is_pressed(key), timestamp },
        ),
        Event::KeyUp { key, timestamp } => if tracker.is_pressed(key) {
            NormalizeDecision::Forward(NormalizedEvent::KeyUp { key, timestamp })
        } else {
            NormalizeDecision::Dropped
        },
        Event::MouseMove { x, y } => NormalizeDecision::Forward(NormalizedEvent::MouseMove { x, y }),
        Event::MouseButton { button, pressed, x, y } => if pressed == buttons.contains(button) {
            NormalizeDecision::Dropped
        } else {
            NormalizeDecision::Forward(NormalizedEvent::MouseButton { button, pressed, x, y })
        },
        Event::Scroll { dx, dy } => NormalizeDecision::Forward(NormalizedEvent::Scroll { dx, dy }),
        Event::TextInput { character } => NormalizeDecision::Forward(
            NormalizedEvent::TextInput { character },
        ),
    }
}

} // verus!
