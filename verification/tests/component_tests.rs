use input_preprocessor::Key;
use input_preprocessor::KeyStateTracker;
use input_preprocessor::KeyTranslationTable;
use input_preprocessor::Mode;
use input_preprocessor::ModifierSet;
use input_preprocessor::TableEntry;
use input_preprocessor::VirtualInputAction;
use input_preprocessor::translate;

fn mods(shift: bool, ctrl: bool, alt: bool, meta: bool) -> ModifierSet {
    ModifierSet { shift, ctrl, alt, meta }
}

#[test]
fn tracker_retains_press_metadata() {
    let mut t = KeyStateTracker::new();
    t.apply_key_down(Key::Control, 10);
    t.apply_key_down(Key::Character('z'), 11);
    let state = t.state_of(Key::Character('z')).unwrap();
    assert!(state.pressed);
    assert_eq!(state.pressed_at, 11);
    assert_eq!(state.modifiers_at_press, mods(false, true, false, false));
    // Releasing toggles the entry but keeps it, metadata included.
    t.apply_key_up(Key::Character('z'));
    let released = t.state_of(Key::Character('z')).unwrap();
    assert!(!released.pressed);
    assert_eq!(released.pressed_at, 11);
    assert_eq!(released.modifiers_at_press, mods(false, true, false, false));
    // A key never observed has no entry.
    assert!(t.state_of(Key::Character('q')).is_none());
}

#[test]
fn tracker_release_of_unknown_key_adds_no_entry() {
    let mut t = KeyStateTracker::new();
    t.apply_key_up(Key::Escape);
    assert!(t.state_of(Key::Escape).is_none());
    assert!(!t.is_pressed(Key::Escape));
}

#[test]
fn most_specific_chord_wins_regardless_of_table_order() {
    let table = KeyTranslationTable {
        entries: vec![
            TableEntry {
                key: Key::Character('z'),
                modifiers: mods(false, false, false, false),
                action: VirtualInputAction::Undo,
                retrigger_on_repeat: false,
            },
            TableEntry {
                key: Key::Character('z'),
                modifiers: mods(true, true, false, false),
                action: VirtualInputAction::Redo,
                retrigger_on_repeat: false,
            },
            TableEntry {
                key: Key::Character('z'),
                modifiers: mods(false, true, false, false),
                action: VirtualInputAction::DecreaseSize,
                retrigger_on_repeat: false,
            },
        ],
    };
    // All three entries apply under Ctrl+Shift; the two-modifier chord wins.
    let held = mods(true, true, false, false);
    assert_eq!(
        translate(Key::Character('z'), held, Mode::Canvas, &table),
        Some(VirtualInputAction::Redo)
    );
    // Under Ctrl alone the one-modifier chord beats the bare binding.
    assert_eq!(
        translate(Key::Character('z'), mods(false, true, false, false), Mode::Canvas, &table),
        Some(VirtualInputAction::DecreaseSize)
    );
}

#[test]
fn binding_demanding_absent_modifier_does_not_apply() {
    let table = KeyTranslationTable {
        entries: vec![TableEntry {
            key: Key::Character('z'),
            modifiers: mods(false, true, false, false),
            action: VirtualInputAction::Redo,
            retrigger_on_repeat: false,
        }],
    };
    assert_eq!(
        translate(Key::Character('z'), mods(false, false, false, false), Mode::Canvas, &table),
        None
    );
}

#[test]
fn default_bindings_resolve_undo_and_redo() {
    let table = KeyTranslationTable::default_bindings();
    let ctrl = mods(false, true, false, false);
    let ctrl_shift = mods(true, true, false, false);
    assert_eq!(
        translate(Key::Character('z'), ctrl, Mode::Canvas, &table),
        Some(VirtualInputAction::Undo)
    );
    assert_eq!(
        translate(Key::Character('z'), ctrl_shift, Mode::Canvas, &table),
        Some(VirtualInputAction::Redo)
    );
    assert_eq!(
        translate(Key::Character('s'), mods(false, false, false, false), Mode::Canvas, &table),
        Some(VirtualInputAction::SelectSelectTool)
    );
    assert_eq!(translate(Key::Character('z'), mods(false, false, false, false), Mode::Canvas, &table), None);
}

#[test]
fn set_binding_overrides_entry_by_entry() {
    let mut table = KeyTranslationTable::default_bindings();
    let entries_before = table.entries.len();
    // Rebinding an existing combination replaces its entry in place.
    table.set_binding(
        Key::Character('s'),
        mods(false, false, false, false),
        VirtualInputAction::SelectEllipseTool,
        false,
    );
    assert_eq!(table.entries.len(), entries_before);
    assert_eq!(
        translate(Key::Character('s'), mods(false, false, false, false), Mode::Canvas, &table),
        Some(VirtualInputAction::SelectEllipseTool)
    );
    // Binding a fresh combination appends, leaving the rest untouched.
    table.set_binding(
        Key::Character('y'),
        mods(false, true, false, false),
        VirtualInputAction::Redo,
        false,
    );
    assert_eq!(table.entries.len(), entries_before + 1);
    assert_eq!(
        translate(Key::Character('y'), mods(false, true, false, false), Mode::Canvas, &table),
        Some(VirtualInputAction::Redo)
    );
    assert_eq!(
        translate(Key::Character('z'), mods(false, true, false, false), Mode::Canvas, &table),
        Some(VirtualInputAction::Undo)
    );
}

#[test]
fn text_entry_mode_excludes_character_keys_from_tables() {
    let table = KeyTranslationTable {
        entries: vec![TableEntry {
            key: Key::Character('a'),
            modifiers: mods(false, false, false, false),
            action: VirtualInputAction::SelectEllipseTool,
            retrigger_on_repeat: false,
        }],
    };
    let none_held = mods(false, false, false, false);
    assert_eq!(translate(Key::Character('a'), none_held, Mode::TextEntry, &table), None);
    assert_eq!(
        translate(Key::Character('a'), none_held, Mode::Canvas, &table),
        Some(VirtualInputAction::SelectEllipseTool)
    );
}
