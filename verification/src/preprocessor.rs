//! The orchestrator: sequences normalization, state application, coordinate
//! mapping and translation for each incoming event.

use vstd::prelude::*;
use crate::events::Event;
use crate::events::Mode;
use crate::events::MouseState;
use crate::events::saturating_add;
use crate::keys::Key;
use crate::keys::ModifierSet;
use crate::mapper::ViewportTransform;
use crate::mapper::map_point;
use crate::mapper::to_document_space;
use crate::normalizer::NormalizeDecision;
use crate::normalizer::NormalizedEvent;
use crate::normalizer::normalize;
use crate::normalizer::normalize_spec;
use crate::tracker::KeyState;
use crate::tracker::KeyStateTracker;
use crate::tracker::map_active_modifiers;
use crate::tracker::map_apply_key_down;
use crate::tracker::map_apply_key_up;
use crate::tracker::map_is_pressed;
use crate::translator::KeyTranslationTable;
use crate::translator::TableEntry;
use crate::translator::VirtualInputAction;
use crate::translator::translate_entry;
use crate::translator::translate_entry_spec;

verus! {

/// The preprocessor's whole mutable state, as contracts speak of it: the
/// per-key state map and the mouse state.
pub struct PreprocessorState {
    pub keys: Map<Key, KeyState>,
    pub mouse: MouseState,
}

impl PreprocessorState {
    /// The state of a freshly constructed preprocessor: no key observed, the
    /// mouse at its initial state.
    pub open spec fn initial() -> PreprocessorState {
        PreprocessorState { keys: Map::empty(), mouse: MouseState::initial() }
    }
}

/// The state after one event: a dropped event changes nothing; a forwarded
/// key transition goes to the key map (a repeat press leaves it untouched, so
/// press timestamps are never reset); a forwarded mouse event goes to the
/// mouse state, pointer coordinates mapped into document space under
/// `viewport`; text input changes no state.
pub open spec fn handle_state(
    s: PreprocessorState,
    event: Event,
    viewport: ViewportTransform,
) -> PreprocessorState {
    match normalize_spec(event, s.keys, s.mouse.buttons) {
        NormalizeDecision::Dropped => s,
        NormalizeDecision::Forward(ne) => match ne {
            NormalizedEvent::KeyDown { key, repeat, timestamp } => if repeat {
                s
            } else {
                PreprocessorState { keys: map_apply_key_down(s.keys, key, timestamp), ..s }
            },
            NormalizedEvent::KeyUp { key, timestamp: _ } => PreprocessorState {
                keys: map_apply_key_up(s.keys, key),
                ..s
            },
            NormalizedEvent::MouseMove { x, y } => PreprocessorState {
                mouse: MouseState {
                    position: map_point(x as int, y as int, viewport),
                    ..s.mouse
                },
                ..s
            },
            NormalizedEvent::MouseButton { button, pressed, x, y } => PreprocessorState {
                mouse: MouseState {
                    position: map_point(x as int, y as int, viewport),
                    buttons: s.mouse.buttons.with(button, pressed),
                    ..s.mouse
                },
                ..s
            },
            NormalizedEvent::Scroll { dx, dy } => PreprocessorState {
                mouse: MouseState {
                    scroll_x: saturating_add(s.mouse.scroll_x as int, dx as int) as i64,
                    scroll_y: saturating_add(s.mouse.scroll_y as int, dy as int) as i64,
                    ..s.mouse
                },
                ..s
            },
            NormalizedEvent::TextInput { character: _ } => s,
        },
    }
}

/// The actions a forwarded key press yields, given the key map `keys` as it
/// stands after the press was applied:
/// - a binding resolved through the table fires, except that auto-repeat
///   re-fires only bindings declared continuous (`retrigger_on_repeat`);
/// - in text-entry mode a character-producing key held without ctrl, alt or
///   meta yields a text-insertion action instead (such keys resolve to no
///   binding in that mode).
pub open spec fn key_down_actions(
    keys: Map<Key, KeyState>,
    key: Key,
    repeat: bool,
    mode: Mode,
    entries: Seq<TableEntry>,
) -> Seq<VirtualInputAction> {
    let modifiers = map_active_modifiers(keys);
    match translate_entry_spec(key, modifiers, mode, entries) {
        Some(e) => if !repeat || e.retrigger_on_repeat {
            seq![e.action]
        } else {
            Seq::empty()
        },
        None => if mode is TextEntry && key.is_character_producing() && !modifiers.ctrl
            && !modifiers.alt && !modifiers.meta {
            seq![VirtualInputAction::TextInsert(key->0)]
        } else {
            Seq::empty()
        },
    }
}

/// The ordered actions one event yields. Only key presses and text input
/// produce actions: a dropped event, a key release and every mouse event
/// yield the empty sequence; a text-input event yields a text-insertion
/// action exactly in text-entry mode.
pub open spec fn handle_actions(
    s: PreprocessorState,
    event: Event,
    mode: Mode,
    entries: Seq<TableEntry>,
) -> Seq<VirtualInputAction> {
    match normalize_spec(event, s.keys, s.mouse.buttons) {
        NormalizeDecision::Dropped => Seq::empty(),
        NormalizeDecision::Forward(ne) => match ne {
            NormalizedEvent::KeyDown { key, repeat, timestamp } => {
                let keys_after = if repeat {
                    s.keys
                } else {
                    map_apply_key_down(s.keys, key, timestamp)
                };
                key_down_actions(keys_after, key, repeat, mode, entries)
            },
            NormalizedEvent::TextInput { character } => if mode is TextEntry {
                seq![VirtualInputAction::TextInsert(character)]
            } else {
                Seq::empty()
            },
            _ => Seq::empty(),
        },
    }
}

/// Owns all mutable input state and sequences the preprocessing of each
/// incoming event. Single-threaded and synchronous: the host must hand events
/// over one at a time, in arrival order.
pub struct InputPreprocessor {
    tracker: KeyStateTracker,
    mouse: MouseState,
}

impl View for InputPreprocessor {
    type V = PreprocessorState;

    closed spec fn view(&self) -> PreprocessorState {
        PreprocessorState { keys: self.tracker@, mouse: self.mouse }
    }
}

impl InputPreprocessor {
    /// The representation invariant of the owned key state.
    pub closed spec fn wf(&self) -> bool {
        self.tracker.wf()
    }

    /// A preprocessor that has seen no event.
    pub fn new() -> (r: InputPreprocessor)
        ensures
            r.wf(),
            r@ == PreprocessorState::initial(),
    {
        InputPreprocessor { tracker: KeyStateTracker::new(), mouse: MouseState::new() }
    }

    /// Whether `key` is currently held according to the normalized state.
    pub fn is_pressed(&self, key: Key) -> (r: bool)
        requires
            self.wf(),
        ensures
            r == map_is_pressed(self@.keys, key),
    {
        self.tracker.is_pressed(key)
    }

    /// The currently active modifier set, derived from the key state.
    pub fn active_modifiers(&self) -> (r: ModifierSet)
        requires
            self.wf(),
        ensures
            r == map_active_modifiers(self@.keys),
    {
        self.tracker.active_modifiers()
    }

    /// The current mouse state.
    pub fn mouse_state(&self) -> (r: MouseState)
        ensures
            r == self@.mouse,
    {
        self.mouse
    }

    /// Preprocesses one raw event: normalizes it (a dropped event yields the
    /// empty sequence), applies it to the key or mouse state — pointer
    /// coordinates mapped into document space under `viewport` — and
    /// translates key presses and text input into the ordered, possibly
    /// empty, sequence of actions for this event.
    ///
    /// `mode`, `table` and `viewport` are externally owned configuration,
    /// read for this call alone. The result and the new state are functions
    /// of the old state and the arguments, so replaying an identical event
    /// sequence from an identical state yields identical actions.
    pub fn handle_user_input(
        &mut self,
        event: Event,
        mode: Mode,
        table: &KeyTranslationTable,
        viewport: &ViewportTransform,
    ) -> (actions: Vec<VirtualInputAction>)
        requires
            old(self).wf(),
        ensures
            final(self).wf(),
            final(self)@ == handle_state(old(self)@, event, *viewport),
            actions@ == handle_actions(old(self)@, event, mode, table@),
    {
        match normalize(&event, &self.tracker, &self.mouse.buttons) {
            NormalizeDecision::Dropped => Vec::new(),
            NormalizeDecision::Forward(ne) => match ne {
                NormalizedEvent::KeyDown { key, repeat, timestamp } => {
                    if !repeat {
                        self.tracker.apply_key_down(key, timestamp);
                    }
                    let modifiers = self.tracker.active_modifiers();
                    let mut actions: Vec<VirtualInputAction> = Vec::new();
                    match translate_entry(key, modifiers, mode, table) {
                        Some(e) => {
                            if !repeat || e.retrigger_on_repeat {
                                actions.push(e.action);
                            }
                        },
                        None => {
                            if mode == Mode::TextEntry && !modifiers.ctrl && !modifiers.alt
                                && !modifiers.meta {
                                match key {
                                    Key::Character(c) => {
                                        actions.push(VirtualInputAction::TextInsert(c));
                                    },
                                    _ => {},
                                }
                            }
                        },
                    }
                    proof {
                        assert(actions@ =~= handle_actions(old(self)@, event, mode, table@));
                    }
                    actions
                },
                NormalizedEvent::KeyUp { key, timestamp: _ } => {
                    self.tracker.apply_key_up(key);
                    Vec::new()
                },
                NormalizedEvent::MouseMove { x, y } => {
                    let position = to_document_space(x, y, viewport);
                    self.mouse.apply_move(position);
                    Vec::new()
                },
                NormalizedEvent::MouseButton { button, pressed, x, y } => {
                    let position = to_document_space(x, y, viewport);
                    self.mouse.apply_button(button, pressed, position);
                    Vec::new()
                },
                NormalizedEvent::Scroll { dx, dy } => {
                    self.mouse.apply_scroll(dx, dy);
                    Vec::new()
                },
                NormalizedEvent::TextInput { character } => {
                    let mut actions: Vec<VirtualInputAction> = Vec::new();
                    if mode == Mode::TextEntry {
                        actions.push(VirtualInputAction::TextInsert(character));
                    }
                    proof {
                        assert(actions@ =~= handle_actions(old(self)@, event, mode, table@));
                    }
                    actions
                },
            },
        }
    }
}

} // verus!
