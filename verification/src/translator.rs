//! Deterministic mapping from (key, modifier set, mode) to at most one
//! virtual action, through a configured translation table.

use vstd::prelude::*;
use crate::events::Mode;
use crate::keys::Key;
use crate::keys::ModifierSet;

verus! {

/// A semantic editor action, decoupled from the physical key that triggered
/// it. A closed set: new actions extend this enum.
#[derive(Clone, Copy, PartialEq, Eq, Structural, Debug)]
pub enum VirtualInputAction {
    SelectSelectTool,
    SelectEllipseTool,
    Undo,
    Redo,
    IncreaseSize,
    DecreaseSize,
    MoveCaretLeft,
    MoveCaretRight,
    MoveCaretUp,
    MoveCaretDown,
    ExitTextEntry,
    TextInsert(char),
}

/// One configured binding: a key plus an exact modifier combination, the
/// action it triggers, and whether auto-repeat re-fires the action
/// (continuous actions) or is suppressed (one-shot actions).
#[derive(Clone, Copy, PartialEq, Eq, Structural, Debug)]
pub struct TableEntry {
    pub key: Key,
    pub modifiers: ModifierSet,
    pub action: VirtualInputAction,
    pub retrigger_on_repeat: bool,
}

/// The key-binding configuration, immutable per session and externally owned.
pub struct KeyTranslationTable {
    pub entries: Vec<TableEntry>,
}

impl View for KeyTranslationTable {
    type V = Seq<TableEntry>;

    open spec fn view(&self) -> Seq<TableEntry> {
        self.entries@
    }
}

/// A modifier combination of the default bindings.
pub open spec fn no_mods() -> ModifierSet {
    ModifierSet { shift: false, ctrl: false, alt: false, meta: false }
}

/// The entries of the default binding table: tool selection on bare letters,
/// undo/redo on control chords, size adjustment and caret movement on
/// continuous bindings.
pub open spec fn default_entries() -> Seq<TableEntry> {
    seq![
        TableEntry {
            key: Key::Character('s'),
            modifiers: no_mods(),
            action: VirtualInputAction::SelectSelectTool,
            retrigger_on_repeat: false,
        },
        TableEntry {
            key: Key::Character('e'),
            modifiers: no_mods(),
            action: VirtualInputAction::SelectEllipseTool,
            retrigger_on_repeat: false,
        },
        TableEntry {
            key: Key::Character('z'),
            modifiers: ModifierSet { shift: false, ctrl: true, alt: false, meta: false },
            action: VirtualInputAction::Undo,
            retrigger_on_repeat: false,
        },
        TableEntry {
            key: Key::Character('z'),
            modifiers: ModifierSet { shift: true, ctrl: true, alt: false, meta: false },
            action: VirtualInputAction::Redo,
            retrigger_on_repeat: false,
        },
        TableEntry {
            key: Key::Character('+'),
            modifiers: no_mods(),
            action: VirtualInputAction::IncreaseSize,
            retrigger_on_repeat: true,
        },
        TableEntry {
            key: Key::Character('-'),
            modifiers: no_mods(),
            action: VirtualInputAction::DecreaseSize,
            retrigger_on_repeat: true,
        },
        TableEntry {
            key: Key::Escape,
            modifiers: no_mods(),
            action: VirtualInputAction::ExitTextEntry,
            retrigger_on_repeat: false,
        },
        TableEntry {
            key: Key::ArrowLeft,
            modifiers: no_mods(),
            action: VirtualInputAction::MoveCaretLeft,
            retrigger_on_repeat: true,
        },
        TableEntry {
            key: Key::ArrowRight,
            modifiers: no_mods(),
            action: VirtualInputAction::MoveCaretRight,
            retrigger_on_repeat: true,
        },
        TableEntry {
            key: Key::ArrowUp,
            modifiers: no_mods(),
            action: VirtualInputAction::MoveCaretUp,
            retrigger_on_repeat: true,
        },
        TableEntry {
            key: Key::ArrowDown,
            modifiers: no_mods(),
            action: VirtualInputAction::MoveCaretDown,
            retrigger_on_repeat: true,
        },
    ]
}

/// The entry list with `e` overriding the table entry-by-entry: the first
/// entry binding the same key under the same exact modifier combination is
/// replaced, and a combination not yet bound is appended.
pub open spec fn override_entries(entries: Seq<TableEntry>, e: TableEntry) -> Seq<TableEntry>
    decreases entries.len(),
{
    if entries.len() == 0 {
        seq![e]
    } else if entries[0].key == e.key && entries[0].modifiers == e.modifiers {
        seq![e] + entries.skip(1)
    } else {
        seq![entries[0]] + override_entries(entries.skip(1), e)
    }
}

/// Overriding leaves the entries before the first entry for `e`'s combination
/// untouched.
proof fn lemma_override_skip(entries: Seq<TableEntry>, e: TableEntry, j: int)
    requires
        0 <= j <= entries.len(),
        forall|i: int|
            0 <= i < j ==> !(entries[i].key == e.key && entries[i].modifiers == e.modifiers),
    ensures
        override_entries(entries, e) == entries.take(j) + override_entries(entries.skip(j), e),
    decreases j,
{
    if j == 0 {
        assert(entries.skip(0) =~= entries);
        assert(entries.take(0) + override_entries(entries, e) =~= override_entries(entries, e));
    } else {
        lemma_override_skip(entries, e, j - 1);
        let tail = entries.skip(j - 1);
        assert(tail[0] == entries[j - 1]);
        assert(tail.skip(1) =~= entries.skip(j));
        assert(override_entries(tail, e) == seq![entries[j - 1]] + override_entries(
            entries.skip(j),
            e,
        ));
        assert(entries.take(j - 1) + (seq![entries[j - 1]] + override_entries(entries.skip(j), e))
            =~= entries.take(j) + override_entries(entries.skip(j), e));
    }
}

/// An entry applies to a key transition when it binds that key and every
/// modifier it demands is held.
pub open spec fn entry_matches(entry: TableEntry, key: Key, modifiers: ModifierSet) -> bool {
    entry.key == key && entry.modifiers.subset_of(modifiers)
}

impl KeyTranslationTable {
    /// The table of default bindings; each is overridable through
    /// `set_binding`.
    pub fn default_bindings() -> (r: KeyTranslationTable)
        ensures
            r@ == default_entries(),
    {
        let none = ModifierSet::none();
        let ctrl = ModifierSet { shift: false, ctrl: true, alt: false, meta: false };
        let ctrl_shift = ModifierSet { shift: true, ctrl: true, alt: false, meta: false };
        let mut entries: Vec<TableEntry> = Vec::new();
        entries.push(
            TableEntry {
                key: Key::Character('s'),
                modifiers: none,
                action: VirtualInputAction::SelectSelectTool,
                retrigger_on_repeat: false,
            },
        );
        entries.push(
            TableEntry {
                key: Key::Character('e'),
                modifiers: none,
                action: VirtualInputAction::SelectEllipseTool,
                retrigger_on_repeat: false,
            },
        );
        entries.push(
            TableEntry {
                key: Key::Character('z'),
                modifiers: ctrl,
                action: VirtualInputAction::Undo,
                retrigger_on_repeat: false,
            },
        );
        entries.push(
            TableEntry {
                key: Key::Character('z'),
                modifiers: ctrl_shift,
                action: VirtualInputAction::Redo,
                retrigger_on_repeat: false,
            },
        );
        entries.push(
            TableEntry {
                key: Key::Character('+'),
                modifiers: none,
                action: VirtualInputAction::IncreaseSize,
                retrigger_on_repeat: true,
            },
        );
        entries.push(
            TableEntry {
                key: Key::Character('-'),
                modifiers: none,
                action: VirtualInputAction::DecreaseSize,
                retrigger_on_repeat: true,
            },
        );
        entries.push(
            TableEntry {
                key: Key::Escape,
                modifiers: none,
                action: VirtualInputAction::ExitTextEntry,
                retrigger_on_repeat: false,
            },
        );
        entries.push(
            TableEntry {
                key: Key::ArrowLeft,
                modifiers: none,
                action: VirtualInputAction::MoveCaretLeft,
                retrigger_on_repeat: true,
            },
        );
        entries.push(
            TableEntry {
                key: Key::ArrowRight,
                modifiers: none,
                action: VirtualInputAction::MoveCaretRight,
                retrigger_on_repeat: true,
            },
        );
        entries.push(
            TableEntry {
                key: Key::ArrowUp,
                modifiers: none,
                action: VirtualInputAction::MoveCaretUp,
                retrigger_on_repeat: true,
            },
        );
        entries.push(
            TableEntry {
                key: Key::ArrowDown,
                modifiers: none,
                action: VirtualInputAction::MoveCaretDown,
                retrigger_on_repeat: true,
            },
        );
        let r = KeyTranslationTable { entries };
        proof {
            assert(r@ =~= default_entries());
        }
        r
    }

    /// Overrides one binding: the first entry for exactly this key and
    /// modifier combination is replaced, and a combination not yet bound is
    /// appended.
    pub fn set_binding(
        &mut self,
        key: Key,
        modifiers: ModifierSet,
        action: VirtualInputAction,
        retrigger_on_repeat: bool,
    )
        ensures
            final(self)@ == override_entries(
                old(self)@,
                TableEntry { key, modifiers, action, retrigger_on_repeat },
            ),
    {
        let e = TableEntry { key, modifiers, action, retrigger_on_repeat };
        let n = self.entries.len();
        let mut i: usize = 0;
        while i < n
            invariant
                i <= n,
                n == self@.len(),
                self@ == old(self)@,
                e == (TableEntry { key, modifiers, action, retrigger_on_repeat }),
                forall|j: int|
                    0 <= j < i ==> !(self@[j].key == e.key && self@[j].modifiers == e.modifiers),
        decreases n - i,
        {
            let cur = self.entries[i];
            if cur.key == key && cur.modifiers == modifiers {
                proof {
                    lemma_override_skip(self@, e, i as int);
                    assert(self@[i as int] == cur);
                    assert(self@.skip(i as int)[0] == self@[i as int]);
                    assert(override_entries(self@.skip(i as int), e) == seq![e] + self@.skip(
                        i as int,
                    ).skip(1));
                    assert(self@.skip(i as int).skip(1) =~= self@.skip(i + 1));
                    assert(self@.take(i as int) + (seq![e] + self@.skip(i + 1)) =~= self@.update(
                        i as int,
                        e,
                    ));
                }
                self.entries.set(i, e);
                return ;
            }
            i = i + 1;
        }
        proof {
            lemma_override_skip(self@, e, n as int);
            assert(self@.skip(n as int) =~= Seq::<TableEntry>::empty());
            assert(self@.take(n as int) + seq![e] =~= self@.push(e));
        }
        self.entries.push(e);
    }
}

/// The entry a table resolves `(key, modifiers)` to: among the applicable
/// entries, one whose modifier combination is most specific (demands the most
/// modifiers); between equally specific entries the earlier one in the table
/// wins.
pub open spec fn best_match(
    entries: Seq<TableEntry>,
    key: Key,
    modifiers: ModifierSet,
) -> Option<TableEntry>
    decreases entries.len(),
{
    if entries.len() == 0 {
        None::<TableEntry>
    } else {
        let prev = best_match(entries.drop_last(), key, modifiers);
        let e = entries.last();
        if entry_matches(e, key, modifiers) {
            match prev {
                None => Some(e),
                Some(b) => if e.modifiers.count() > b.modifiers.count() {
                    Some(e)
                } else {
                    Some(b)
                },
            }
        } else {
            prev
        }
    }
}

/// Whatever `best_match` returns is an applicable entry of the table.
pub proof fn lemma_best_match_applicable(entries: Seq<TableEntry>, key: Key, modifiers: ModifierSet)
    requires
        best_match(entries, key, modifiers) is Some,
    ensures
        exists|i: int|
            0 <= i < entries.len() && entries[i] == best_match(entries, key, modifiers)->0,
        entry_matches(best_match(entries, key, modifiers)->0, key, modifiers),
    decreases entries.len(),
{
    let chosen = best_match(entries, key, modifiers)->0;
    let prev = best_match(entries.drop_last(), key, modifiers);
    if prev is Some && chosen == prev->0 {
        lemma_best_match_applicable(entries.drop_last(), key, modifiers);
        let i = choose|i: int|
            0 <= i < entries.drop_last().len() && entries.drop_last()[i] == chosen;
        assert(entries[i] == chosen);
    } else {
        assert(entries[entries.len() - 1] == chosen);
    }
}

/// Specific beats general: the resolved entry demands at least as many
/// modifiers as any applicable entry of the table. In particular a binding
/// whose modifier combination is a strict subset of an applicable rival's is
/// never chosen over it.
pub proof fn lemma_specific_over_general(
    entries: Seq<TableEntry>,
    key: Key,
    modifiers: ModifierSet,
    i: int,
)
    requires
        0 <= i < entries.len(),
        entry_matches(entries[i], key, modifiers),
    ensures
        best_match(entries, key, modifiers) is Some,
        best_match(entries, key, modifiers)->0.modifiers.count() >= entries[i].modifiers.count(),
    decreases entries.len(),
{
    if i < entries.len() - 1 {
        assert(entries.drop_last()[i] == entries[i]);
        lemma_specific_over_general(entries.drop_last(), key, modifiers, i);
    }
}

/// Resolves `(key, modifiers)` through the table: the most specific
/// applicable binding, earlier entries winning ties.
pub fn lookup(table: &KeyTranslationTable, key: Key, modifiers: ModifierSet) -> (r: Option<
    TableEntry,
>)
    ensures
        r == best_match(table@, key, modifiers),
{
    let mut best: Option<TableEntry> = None;
    let mut i: usize = 0;
    proof {
        assert(table@.subrange(0, 0) =~= Seq::<TableEntry>::empty());
    }
    while i < table.entries.len()
        invariant
            i <= table@.len(),
            best == best_match(table@.subrange(0, i as int), key, modifiers),
        decreases table@.len() - i,
    {
        let e = table.entries[i];
        proof {
            assert(table@.subrange(0, i + 1).drop_last() =~= table@.subrange(0, i as int));
            assert(table@.subrange(0, i + 1).last() == table@[i as int]);
        }
        if e.key == key && e.modifiers.is_subset_of(&modifiers) {
            match best {
                None => {
                    best = Some(e);
                },
                Some(b) => {
                    if e.modifiers.specificity() > b.modifiers.specificity() {
                        best = Some(e);
                    }
                },
            }
        }
        i = i + 1;
    }
    proof {
        assert(table@.subrange(0, table@.len() as int) =~= table@);
    }
    best
}

/// The control keys that stay translatable in text-entry mode: caret
/// movement, editing keys and Escape. Character-producing and modifier keys
/// are not among them.
pub open spec fn text_entry_control(key: Key) -> bool {
    match key {
        Key::Escape => true,
        Key::Enter => true,
        Key::Tab => true,
        Key::Backspace => true,
        Key::Delete => true,
        Key::ArrowLeft => true,
        Key::ArrowRight => true,
        Key::ArrowUp => true,
        Key::ArrowDown => true,
        Key::Home => true,
        Key::End => true,
        Key::PageUp => true,
        Key::PageDown => true,
        _ => false,
    }
}

/// Executable form of `text_entry_control`.
pub fn is_text_entry_control(key: Key) -> (r: bool)
    ensures
        r == text_entry_control(key),
{
    match key {
        Key::Escape => true,
        Key::Enter => true,
        Key::Tab => true,
        Key::Backspace => true,
        Key::Delete => true,
        Key::ArrowLeft => true,
        Key::ArrowRight => true,
        Key::ArrowUp => true,
        Key::ArrowDown => true,
        Key::Home => true,
        Key::End => true,
        Key::PageUp => true,
        Key::PageDown => true,
        _ => false,
    }
}

/// The binding a key transition resolves to under `mode`:
/// - in canvas mode, the table's most specific applicable binding;
/// - in text-entry mode, only the allowlisted control keys are looked up at
///   all; every other key (in particular every character-producing key, bound
///   or not) resolves to nothing and flows through as raw text instead.
pub open spec fn translate_entry_spec(
    key: Key,
    modifiers: ModifierSet,
    mode: Mode,
    entries: Seq<TableEntry>,
) -> Option<TableEntry> {
    match mode {
        Mode::Canvas => best_match(entries, key, modifiers),
        Mode::TextEntry => if text_entry_control(key) {
            best_match(entries, key, modifiers)
        } else {
            None::<TableEntry>
        },
    }
}

/// The action `translate` yields: the action of the resolved binding, if any.
pub open spec fn translate_spec(
    key: Key,
    modifiers: ModifierSet,
    mode: Mode,
    entries: Seq<TableEntry>,
) -> Option<VirtualInputAction> {
    match translate_entry_spec(key, modifiers, mode, entries) {
        Some(e) => Some(e.action),
        None => None::<VirtualInputAction>,
    }
}

/// Resolves a key transition to its full binding (action plus repeat policy)
/// under `mode`. A pure function of its arguments.
pub fn translate_entry(
    key: Key,
    modifiers: ModifierSet,
    mode: Mode,
    table: &KeyTranslationTable,
) -> (r: Option<TableEntry>)
    ensures
        r == translate_entry_spec(key, modifiers, mode, table@),
{
    match mode {
        Mode::Canvas => lookup(table, key, modifiers),
        Mode::TextEntry => if is_text_entry_control(key) {
            lookup(table, key, modifiers)
        } else {
            None
        },
    }
}

/// Resolves a key transition to at most one action under `mode`. No
/// applicable binding is a normal outcome, not an error. A pure function of
/// its arguments: equal inputs always yield the equal action.
pub fn translate(key: Key, modifiers: ModifierSet, mode: Mode, table: &KeyTranslationTable) -> (r:
    Option<VirtualInputAction>)
    ensures
        r == translate_spec(key, modifiers, mode, table@),
{
    match translate_entry(key, modifiers, mode, table) {
        Some(e) => Some(e.action),
        None => None,
    }
}

} // verus!
