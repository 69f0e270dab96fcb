//! Per-key pressed/released state with press metadata, and the derived
//! modifier set.

use vstd::prelude::*;
use crate::keys::Key;
use crate::keys::ModifierSet;

verus! {

/// The recorded state of one key. An entry exists for every key observed at
/// least once this session; it is only ever toggled, never removed.
#[derive(Clone, Copy, PartialEq, Eq, Structural, Debug)]
pub struct KeyState {
    /// Whether the key is currently held.
    pub pressed: bool,
    /// Timestamp of the press that made it held; not reset by auto-repeat.
    pub pressed_at: u64,
    /// The modifier set derived from the tracker at the moment of that press.
    pub modifiers_at_press: ModifierSet,
}

/// No two entries record the same key.
pub open spec fn keys_unique(entries: Seq<(Key, KeyState)>) -> bool {
    forall|i: int, j: int| 0 <= i < j < entries.len() ==> entries[i].0 != entries[j].0
}

/// The map an entry list denotes: each recorded key to its state.
pub open spec fn entries_as_map(entries: Seq<(Key, KeyState)>) -> Map<Key, KeyState>
    decreases entries.len(),
{
    if entries.len() == 0 {
        Map::empty()
    } else {
        entries_as_map(entries.drop_last()).insert(entries.last().0, entries.last().1)
    }
}

/// A key is in the denoted map exactly when some entry records it.
proof fn lemma_as_map_contains(entries: Seq<(Key, KeyState)>, key: Key)
    ensures
        entries_as_map(entries).dom().contains(key) <==> (exists|i: int|
            0 <= i < entries.len() && entries[i].0 == key),
    decreases entries.len(),
{
    if entries.len() > 0 {
        lemma_as_map_contains(entries.drop_last(), key);
        if entries.last().0 == key {
            assert(entries[entries.len() - 1].0 == key);
        } else if entries_as_map(entries).dom().contains(key) {
            let i = choose|i: int| 0 <= i < entries.drop_last().len() && entries.drop_last()[i].0 == key;
            assert(entries[i].0 == key);
        } else if exists|i: int| 0 <= i < entries.len() && entries[i].0 == key {
            let i = choose|i: int| 0 <= i < entries.len() && entries[i].0 == key;
            assert(entries.drop_last()[i].0 == key);
        }
    }
}

/// With unique keys, the entry at `i` gives the denoted map's value at its key.
proof fn lemma_as_map_at(entries: Seq<(Key, KeyState)>, i: int)
    requires
        keys_unique(entries),
        0 <= i < entries.len(),
    ensures
        entries_as_map(entries).dom().contains(entries[i].0),
        entries_as_map(entries)[entries[i].0] == entries[i].1,
    decreases entries.len(),
{
    if i < entries.len() - 1 {
        lemma_as_map_at(entries.drop_last(), i);
        assert(entries.drop_last()[i] == entries[i]);
    }
}

/// With unique keys, updating the entry at `i` updates the denoted map at its
/// key.
proof fn lemma_as_map_update(entries: Seq<(Key, KeyState)>, i: int, state: KeyState)
    requires
        keys_unique(entries),
        0 <= i < entries.len(),
    ensures
        entries_as_map(entries.update(i, (entries[i].0, state))) == entries_as_map(
            entries,
        ).insert(entries[i].0, state),
    decreases entries.len(),
{
    let updated = entries.update(i, (entries[i].0, state));
    if i == entries.len() - 1 {
        assert(updated.drop_last() =~= entries.drop_last());
        assert(entries_as_map(updated) =~= entries_as_map(entries).insert(entries[i].0, state));
    } else {
        lemma_as_map_update(entries.drop_last(), i, state);
        assert(updated.drop_last() =~= entries.drop_last().update(i, (entries[i].0, state)));
        assert(updated.last() == entries.last());
        assert(entries_as_map(updated) =~= entries_as_map(entries).insert(entries[i].0, state));
    }
}

/// Pure state store for per-key pressed/released state; mutated only by
/// normalized key events.
pub struct KeyStateTracker {
    entries: Vec<(Key, KeyState)>,
}

impl View for KeyStateTracker {
    type V = Map<Key, KeyState>;

    closed spec fn view(&self) -> Map<Key, KeyState> {
        entries_as_map(self.entries@)
    }
}

/// Whether `key` is currently held according to state map `m`: recorded and
/// pressed.
pub open spec fn map_is_pressed(m: Map<Key, KeyState>, key: Key) -> bool {
    m.dom().contains(key) && m[key].pressed
}

/// The modifier set a state map derives: the pressed state of the four
/// reserved modifier keys.
pub open spec fn map_active_modifiers(m: Map<Key, KeyState>) -> ModifierSet {
    ModifierSet {
        shift: map_is_pressed(m, Key::Shift),
        ctrl: map_is_pressed(m, Key::Control),
        alt: map_is_pressed(m, Key::Alt),
        meta: map_is_pressed(m, Key::Meta),
    }
}

/// The state map after a fresh (non-repeat) press of `key` at `timestamp`:
/// the key's entry is inserted or overwritten as pressed, stamped with the
/// modifier set the map derived at that moment.
pub open spec fn map_apply_key_down(m: Map<Key, KeyState>, key: Key, timestamp: u64) -> Map<
    Key,
    KeyState,
> {
    m.insert(
        key,
        KeyState { pressed: true, pressed_at: timestamp, modifiers_at_press: map_active_modifiers(m) },
    )
}

/// The state map after a release of `key`: its entry is toggled to released
/// but retained with its press metadata; a key never recorded stays absent.
pub open spec fn map_apply_key_up(m: Map<Key, KeyState>, key: Key) -> Map<Key, KeyState> {
    if m.dom().contains(key) {
        m.insert(key, KeyState { pressed: false, ..m[key] })
    } else {
        m
    }
}

impl KeyStateTracker {
    /// The representation invariant: no key recorded twice.
    pub closed spec fn wf(&self) -> bool {
        keys_unique(self.entries@)
    }

    /// A tracker that has observed no key yet.
    pub fn new() -> (r: KeyStateTracker)
        ensures
            r.wf(),
            r@ == Map::<Key, KeyState>::empty(),
    {
        KeyStateTracker { entries: Vec::new() }
    }

    /// The index of the entry recording `key`, if the key was ever observed.
    fn find(&self, key: Key) -> (r: Option<usize>)
        requires
            self.wf(),
        ensures
            match r {
                Some(i) => i < self.entries@.len() && self.entries@[i as int].0 == key,
                None => forall|i: int| 0 <= i < self.entries@.len() ==> self.entries@[i].0 != key,
            },
    {
        let mut i: usize = 0;
        while i < self.entries.len()
            invariant
                i <= self.entries@.len(),
                forall|j: int| 0 <= j < i ==> self.entries@[j].0 != key,
            decreases self.entries@.len() - i,
        {
            if self.entries[i].0 == key {
                return Some(i);
            }
            i = i + 1;
        }
        None
    }

    /// The recorded state of `key`, if the key was ever observed.
    pub fn state_of(&self, key: Key) -> (r: Option<KeyState>)
        requires
            self.wf(),
        ensures
            match r {
                Some(s) => self@.dom().contains(key) && self@[key] == s,
                None => !self@.dom().contains(key),
            },
    {
        proof {
            lemma_as_map_contains(self.entries@, key);
        }
        match self.find(key) {
            Some(i) => {
                proof {
                    lemma_as_map_at(self.entries@, i as int);
                }
                Some(self.entries[i].1)
            },
            None => None,
        }
    }

    /// Whether `key` is currently held.
    pub fn is_pressed(&self, key: Key) -> (r: bool)
        requires
            self.wf(),
        ensures
            r == map_is_pressed(self@, key),
    {
        match self.state_of(key) {
            Some(state) => state.pressed,
            None => false,
        }
    }

    /// The active modifier set, recomputed on demand from the pressed state
    /// of the four reserved modifier keys; never cached.
    pub fn active_modifiers(&self) -> (r: ModifierSet)
        requires
            self.wf(),
        ensures
            r == map_active_modifiers(self@),
    {
        ModifierSet {
            shift: self.is_pressed(Key::Shift),
            ctrl: self.is_pressed(Key::Control),
            alt: self.is_pressed(Key::Alt),
            meta: self.is_pressed(Key::Meta),
        }
    }

    /// Records `state` for `key`, inserting the key's entry on first
    /// observation.
    fn put(&mut self, key: Key, state: KeyState)
        requires
            old(self).wf(),
        ensures
            final(self).wf(),
            final(self)@ == old(self)@.insert(key, state),
    {
        match self.find(key) {
            Some(i) => {
                proof {
                    lemma_as_map_update(self.entries@, i as int, state);
                }
                self.entries.set(i, (key, state));
            },
            None => {
                self.entries.push((key, state));
                proof {
                    assert(self.entries@.drop_last() =~= old(self).entries@);
                }
            },
        }
    }

    /// Applies a fresh (non-repeat) press of `key` at `timestamp`. The
    /// modifier set stamped into the entry is the one the tracker derives at
    /// the moment of the press.
    pub fn apply_key_down(&mut self, key: Key, timestamp: u64)
        requires
            old(self).wf(),
        ensures
            final(self).wf(),
            final(self)@ == map_apply_key_down(old(self)@, key, timestamp),
    {
        let modifiers_at_press = self.active_modifiers();
        self.put(key, KeyState { pressed: true, pressed_at: timestamp, modifiers_at_press });
    }

    /// Applies a release of `key`: the entry is toggled to released but
    /// retained; a release of a key never observed is a no-op.
    pub fn apply_key_up(&mut self, key: Key)
        requires
            old(self).wf(),
        ensures
            final(self).wf(),
            final(self)@ == map_apply_key_up(old(self)@, key),
    {
        match self.state_of(key) {
            Some(state) => {
                self.put(key, KeyState { pressed: false, ..state });
            },
            None => {},
        }
    }
}

} // verus!
