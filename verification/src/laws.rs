//! Properties of whole event sequences, proved over the preprocessor's
//! specification.

use vstd::prelude::*;
use crate::events::Event;
use crate::events::Mode;
use crate::keys::Key;
use crate::keys::ModifierSet;
use crate::mapper::ViewportTransform;
use crate::normalizer::NormalizeDecision;
use crate::normalizer::NormalizedEvent;
use crate::normalizer::normalize_spec;
use crate::preprocessor::PreprocessorState;
use crate::preprocessor::handle_actions;
use crate::preprocessor::handle_state;
use crate::tracker::map_active_modifiers;
use crate::tracker::map_apply_key_down;
use crate::tracker::map_is_pressed;
use crate::translator::TableEntry;
use crate::translator::VirtualInputAction;

verus! {

/// The state after processing `events` in order, starting from `s`.
pub open spec fn run_state(
    s: PreprocessorState,
    events: Seq<Event>,
    viewport: ViewportTransform,
) -> PreprocessorState
    decreases events.len(),
{
    if events.len() == 0 {
        s
    } else {
        handle_state(run_state(s, events.drop_last(), viewport), events.last(), viewport)
    }
}

/// The concatenated actions that processing `events` in order from `s`
/// yields.
pub open spec fn run_actions(
    s: PreprocessorState,
    events: Seq<Event>,
    mode: Mode,
    entries: Seq<TableEntry>,
    viewport: ViewportTransform,
) -> Seq<VirtualInputAction>
    decreases events.len(),
{
    if events.len() == 0 {
        Seq::empty()
    } else {
        run_actions(s, events.drop_last(), mode, entries, viewport) + handle_actions(
            run_state(s, events.drop_last(), viewport),
            events.last(),
            mode,
            entries,
        )
    }
}

/// Whether `event`, arriving in state `s`, is a press of `key` that the
/// normalizer forwards as fresh: a key-down while the key is not held.
/// Repeats are forwarded too but do not count as a new press.
pub open spec fn counts_as_press(s: PreprocessorState, event: Event, key: Key) -> bool {
    normalize_spec(event, s.keys, s.mouse.buttons) matches NormalizeDecision::Forward(
        NormalizedEvent::KeyDown { key: k, repeat, .. },
    ) && k == key && !repeat
}

/// Whether `event`, arriving in state `s`, is a release of `key` that the
/// normalizer forwards: a key-up while the key is held. A release of a key
/// not held is dropped and does not count.
pub open spec fn counts_as_release(s: PreprocessorState, event: Event, key: Key) -> bool {
    normalize_spec(event, s.keys, s.mouse.buttons) matches NormalizeDecision::Forward(
        NormalizedEvent::KeyUp { key: k, .. },
    ) && k == key
}

/// How many events of `events`, processed in order from `s`, count as fresh
/// presses of `key`.
pub open spec fn count_presses(
    s: PreprocessorState,
    events: Seq<Event>,
    key: Key,
    viewport: ViewportTransform,
) -> nat
    decreases events.len(),
{
    if events.len() == 0 {
        0nat
    } else {
        count_presses(s, events.drop_last(), key, viewport) + (if counts_as_press(
            run_state(s, events.drop_last(), viewport),
            events.last(),
            key,
        ) {
            1nat
        } else {
            0nat
        })
    }
}

/// How many events of `events`, processed in order from `s`, count as
/// forwarded releases of `key`.
pub open spec fn count_releases(
    s: PreprocessorState,
    events: Seq<Event>,
    key: Key,
    viewport: ViewportTransform,
) -> nat
    decreases events.len(),
{
    if events.len() == 0 {
        0nat
    } else {
        count_releases(s, events.drop_last(), key, viewport) + (if counts_as_release(
            run_state(s, events.drop_last(), viewport),
            events.last(),
            key,
        ) {
            1nat
        } else {
            0nat
        })
    }
}

/// 1 when `key` is held in `s`, else 0.
pub open spec fn pressed_indicator(s: PreprocessorState, key: Key) -> int {
    if map_is_pressed(s.keys, key) {
        1int
    } else {
        0int
    }
}

/// Bookkeeping behind the press-counting law: over any event sequence from
/// any state, the number of counted presses of a key less the number of
/// counted releases equals the change of its pressed indicator.
pub proof fn lemma_press_release_balance(
    s: PreprocessorState,
    events: Seq<Event>,
    key: Key,
    viewport: ViewportTransform,
)
    ensures
        count_presses(s, events, key, viewport) + pressed_indicator(s, key) == count_releases(
            s,
            events,
            key,
            viewport,
        ) + pressed_indicator(run_state(s, events, viewport), key),
    decreases events.len(),
{
    if events.len() > 0 {
        lemma_press_release_balance(s, events.drop_last(), key, viewport);
    }
}

/// The press-counting law: starting from a fresh preprocessor, a key is
/// observed pressed exactly when its counted (non-dropped) down-events exceed
/// its counted up-events — and they then exceed them by exactly one, since a
/// repeat of a held key never counts as a second press.
pub proof fn lemma_is_pressed_counts(events: Seq<Event>, key: Key, viewport: ViewportTransform)
    ensures
        count_releases(PreprocessorState::initial(), events, key, viewport) <= count_presses(
            PreprocessorState::initial(),
            events,
            key,
            viewport,
        ) <= count_releases(PreprocessorState::initial(), events, key, viewport) + 1,
        map_is_pressed(run_state(PreprocessorState::initial(), events, viewport).keys, key)
            <==> count_presses(PreprocessorState::initial(), events, key, viewport)
            > count_releases(PreprocessorState::initial(), events, key, viewport),
{
    lemma_press_release_balance(PreprocessorState::initial(), events, key, viewport);
}

/// Releasing a key never observed pressed leaves the whole state unchanged
/// and produces the empty action sequence.
pub proof fn lemma_spurious_release_ignored(
    s: PreprocessorState,
    key: Key,
    timestamp: u64,
    mode: Mode,
    entries: Seq<TableEntry>,
    viewport: ViewportTransform,
)
    requires
        !map_is_pressed(s.keys, key),
    ensures
        handle_state(s, Event::KeyUp { key, timestamp }, viewport) == s,
        handle_actions(s, Event::KeyUp { key, timestamp }, mode, entries) == Seq::<
            VirtualInputAction,
        >::empty(),
{
}

/// Translation is deterministic: processing equal event sequences from equal
/// initial states, under equal configuration, yields equal action sequences
/// and equal final states. In particular two freshly constructed
/// preprocessors replaying one recording agree action for action.
pub proof fn lemma_replay_deterministic(
    s1: PreprocessorState,
    s2: PreprocessorState,
    events1: Seq<Event>,
    events2: Seq<Event>,
    mode: Mode,
    entries: Seq<TableEntry>,
    viewport: ViewportTransform,
)
    requires
        s1 == s2,
        events1 == events2,
    ensures
        run_actions(s1, events1, mode, entries, viewport) == run_actions(
            s2,
            events2,
            mode,
            entries,
            viewport,
        ),
        run_state(s1, events1, viewport) == run_state(s2, events2, viewport),
{
}

/// In text-entry mode, pressing a character-producing key while no ctrl, alt
/// or meta modifier is held yields exactly the matching text-insertion
/// action — never a table binding, even when the key has one.
pub proof fn lemma_text_entry_inserts_text(
    s: PreprocessorState,
    c: char,
    claimed: ModifierSet,
    claimed_repeat: bool,
    timestamp: u64,
    entries: Seq<TableEntry>,
)
    requires
        !map_active_modifiers(s.keys).ctrl,
        !map_active_modifiers(s.keys).alt,
        !map_active_modifiers(s.keys).meta,
    ensures
        handle_actions(
            s,
            Event::KeyDown {
                key: Key::Character(c),
                modifiers: claimed,
                repeat: claimed_repeat,
                timestamp,
            },
            Mode::TextEntry,
            entries,
        ) == seq![VirtualInputAction::TextInsert(c)],
{
    let key = Key::Character(c);
    let keys_after = if map_is_pressed(s.keys, key) {
        s.keys
    } else {
        map_apply_key_down(s.keys, key, timestamp)
    };
    assert(map_active_modifiers(keys_after) == map_active_modifiers(s.keys));
}

} // verus!
