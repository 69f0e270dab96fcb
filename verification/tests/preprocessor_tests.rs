use input_preprocessor::events::ButtonSet;
use input_preprocessor::DocumentPoint;
use input_preprocessor::Event;
use input_preprocessor::InputPreprocessor;
use input_preprocessor::Key;
use input_preprocessor::KeyTranslationTable;
use input_preprocessor::Mode;
use input_preprocessor::ModifierSet;
use input_preprocessor::MouseButton;
use input_preprocessor::TableEntry;
use input_preprocessor::ViewportTransform;
use input_preprocessor::VirtualInputAction;
use input_preprocessor::to_document_space;
use input_preprocessor::translate;

fn no_mods() -> ModifierSet {
    ModifierSet { shift: false, ctrl: false, alt: false, meta: false }
}

fn ctrl_only() -> ModifierSet {
    ModifierSet { shift: false, ctrl: true, alt: false, meta: false }
}

fn key_down(key: Key, timestamp: u64) -> Event {
    Event::KeyDown { key, modifiers: no_mods(), repeat: false, timestamp }
}

fn key_up(key: Key, timestamp: u64) -> Event {
    Event::KeyUp { key, timestamp }
}

fn entry(key: Key, modifiers: ModifierSet, action: VirtualInputAction) -> TableEntry {
    TableEntry { key, modifiers, action, retrigger_on_repeat: false }
}

/// Bindings {Z -> Undo, Ctrl+Z -> Redo}.
fn undo_redo_table() -> KeyTranslationTable {
    KeyTranslationTable {
        entries: vec![
            entry(Key::Character('z'), no_mods(), VirtualInputAction::Undo),
            entry(Key::Character('z'), ctrl_only(), VirtualInputAction::Redo),
        ],
    }
}

fn identity() -> ViewportTransform {
    ViewportTransform { scale: 1, pan_x: 0, pan_y: 0 }
}

#[test]
fn press_release_toggles_pressed_state() {
    let table = KeyTranslationTable { entries: Vec::new() };
    let vp = identity();
    let mut p = InputPreprocessor::new();
    assert!(!p.is_pressed(Key::Character('k')));
    p.handle_user_input(key_down(Key::Character('k'), 1), Mode::Canvas, &table, &vp);
    assert!(p.is_pressed(Key::Character('k')));
    p.handle_user_input(key_down(Key::Character('k'), 2), Mode::Canvas, &table, &vp);
    assert!(p.is_pressed(Key::Character('k')));
    p.handle_user_input(key_up(Key::Character('k'), 3), Mode::Canvas, &table, &vp);
    assert!(!p.is_pressed(Key::Character('k')));
    p.handle_user_input(key_down(Key::Character('k'), 4), Mode::Canvas, &table, &vp);
    assert!(p.is_pressed(Key::Character('k')));
}

#[test]
fn spurious_release_changes_nothing() {
    let table = undo_redo_table();
    let vp = identity();
    let mut p = InputPreprocessor::new();
    p.handle_user_input(key_down(Key::Shift, 1), Mode::Canvas, &table, &vp);
    let mouse_before = p.mouse_state();
    let mods_before = p.active_modifiers();
    let actions = p.handle_user_input(key_up(Key::Character('q'), 2), Mode::Canvas, &table, &vp);
    assert_eq!(actions, Vec::new());
    assert_eq!(p.mouse_state(), mouse_before);
    assert_eq!(p.active_modifiers(), mods_before);
    assert!(!p.is_pressed(Key::Character('q')));
    assert!(p.is_pressed(Key::Shift));
}

#[test]
fn specific_binding_beats_general() {
    let table = undo_redo_table();
    let vp = identity();
    let mut p = InputPreprocessor::new();
    let a1 = p.handle_user_input(key_down(Key::Control, 1), Mode::Canvas, &table, &vp);
    assert_eq!(a1, Vec::new());
    let a2 = p.handle_user_input(key_down(Key::Character('z'), 2), Mode::Canvas, &table, &vp);
    assert_eq!(a2, vec![VirtualInputAction::Redo]);
}

#[test]
fn bare_key_uses_general_binding() {
    let table = undo_redo_table();
    let vp = identity();
    let mut p = InputPreprocessor::new();
    let actions = p.handle_user_input(key_down(Key::Character('z'), 1), Mode::Canvas, &table, &vp);
    assert_eq!(actions, vec![VirtualInputAction::Undo]);
}

#[test]
fn earlier_entry_wins_specificity_tie() {
    let table = KeyTranslationTable {
        entries: vec![
            entry(Key::Character('x'), no_mods(), VirtualInputAction::SelectSelectTool),
            entry(Key::Character('x'), no_mods(), VirtualInputAction::SelectEllipseTool),
        ],
    };
    let actions = translate(Key::Character('x'), no_mods(), Mode::Canvas, &table);
    assert_eq!(actions, Some(VirtualInputAction::SelectSelectTool));
}

#[test]
fn translate_without_binding_is_none() {
    let table = undo_redo_table();
    assert_eq!(translate(Key::Character('q'), no_mods(), Mode::Canvas, &table), None);
}

#[test]
fn text_entry_letter_inserts_text_despite_binding() {
    let table = KeyTranslationTable {
        entries: vec![entry(Key::Character('a'), no_mods(), VirtualInputAction::SelectSelectTool)],
    };
    let vp = identity();
    let mut p = InputPreprocessor::new();
    let actions = p.handle_user_input(key_down(Key::Character('a'), 1), Mode::TextEntry, &table, &vp);
    assert_eq!(actions, vec![VirtualInputAction::TextInsert('a')]);
}

#[test]
fn text_entry_control_key_still_translated() {
    let table = KeyTranslationTable {
        entries: vec![entry(Key::Escape, no_mods(), VirtualInputAction::ExitTextEntry)],
    };
    let vp = identity();
    let mut p = InputPreprocessor::new();
    let actions = p.handle_user_input(key_down(Key::Escape, 1), Mode::TextEntry, &table, &vp);
    assert_eq!(actions, vec![VirtualInputAction::ExitTextEntry]);
}

#[test]
fn text_entry_chord_with_ctrl_inserts_nothing() {
    let table = KeyTranslationTable { entries: Vec::new() };
    let vp = identity();
    let mut p = InputPreprocessor::new();
    p.handle_user_input(key_down(Key::Control, 1), Mode::TextEntry, &table, &vp);
    let actions = p.handle_user_input(key_down(Key::Character('a'), 2), Mode::TextEntry, &table, &vp);
    assert_eq!(actions, Vec::new());
}

#[test]
fn text_input_event_inserts_only_in_text_entry() {
    let table = KeyTranslationTable { entries: Vec::new() };
    let vp = identity();
    let mut p = InputPreprocessor::new();
    let in_text = p.handle_user_input(Event::TextInput { character: 'q' }, Mode::TextEntry, &table, &vp);
    assert_eq!(in_text, vec![VirtualInputAction::TextInsert('q')]);
    let in_canvas = p.handle_user_input(Event::TextInput { character: 'q' }, Mode::Canvas, &table, &vp);
    assert_eq!(in_canvas, Vec::new());
}

#[test]
fn identity_transform_returns_input_unchanged() {
    let p = to_document_space(37, -1234, &identity());
    assert_eq!(p, DocumentPoint { x: 37, y: -1234 });
    let q = to_document_space(i32::MIN, i32::MAX, &identity());
    assert_eq!(q, DocumentPoint { x: i32::MIN as i64, y: i32::MAX as i64 });
}

#[test]
fn pan_and_zoom_are_affine() {
    let t = ViewportTransform { scale: 2, pan_x: 10, pan_y: -5 };
    let p = to_document_space(3, 4, &t);
    assert_eq!(p, DocumentPoint { x: 16, y: 3 });
}

#[test]
fn replaying_a_recording_twice_is_identical() {
    let table = undo_redo_table();
    let vp = identity();
    let recording = vec![
        key_down(Key::Control, 1),
        key_down(Key::Character('z'), 2),
        key_up(Key::Character('z'), 3),
        key_down(Key::Character('z'), 4),
        key_up(Key::Character('z'), 5),
        key_up(Key::Control, 6),
        key_down(Key::Character('z'), 7),
        Event::MouseMove { x: 4, y: 9 },
        Event::TextInput { character: 'h' },
    ];
    let mut first: Vec<VirtualInputAction> = Vec::new();
    let mut second: Vec<VirtualInputAction> = Vec::new();
    let mut p1 = InputPreprocessor::new();
    for e in &recording {
        first.extend(p1.handle_user_input(*e, Mode::Canvas, &table, &vp));
    }
    let mut p2 = InputPreprocessor::new();
    for e in &recording {
        second.extend(p2.handle_user_input(*e, Mode::Canvas, &table, &vp));
    }
    assert_eq!(first, second);
    assert_eq!(
        first,
        vec![VirtualInputAction::Redo, VirtualInputAction::Redo, VirtualInputAction::Undo]
    );
}

#[test]
fn end_to_end_ctrl_z_emits_redo_once() {
    let table = KeyTranslationTable {
        entries: vec![entry(Key::Character('z'), ctrl_only(), VirtualInputAction::Redo)],
    };
    let vp = identity();
    let mut p = InputPreprocessor::new();
    let a1 = p.handle_user_input(key_down(Key::Control, 1), Mode::Canvas, &table, &vp);
    let a2 = p.handle_user_input(key_down(Key::Character('z'), 2), Mode::Canvas, &table, &vp);
    let a3 = p.handle_user_input(key_up(Key::Character('z'), 3), Mode::Canvas, &table, &vp);
    let a4 = p.handle_user_input(key_up(Key::Control, 4), Mode::Canvas, &table, &vp);
    assert_eq!(a1, Vec::new());
    assert_eq!(a2, vec![VirtualInputAction::Redo]);
    assert_eq!(a3, Vec::new());
    assert_eq!(a4, Vec::new());
}

#[test]
fn one_shot_binding_is_not_refired_by_repeat() {
    let table = undo_redo_table();
    let vp = identity();
    let mut p = InputPreprocessor::new();
    let first = p.handle_user_input(key_down(Key::Character('z'), 1), Mode::Canvas, &table, &vp);
    assert_eq!(first, vec![VirtualInputAction::Undo]);
    let repeated = p.handle_user_input(key_down(Key::Character('z'), 2), Mode::Canvas, &table, &vp);
    assert_eq!(repeated, Vec::new());
}

#[test]
fn continuous_binding_refires_on_repeat() {
    let table = KeyTranslationTable {
        entries: vec![TableEntry {
            key: Key::Character('+'),
            modifiers: no_mods(),
            action: VirtualInputAction::IncreaseSize,
            retrigger_on_repeat: true,
        }],
    };
    let vp = identity();
    let mut p = InputPreprocessor::new();
    let first = p.handle_user_input(key_down(Key::Character('+'), 1), Mode::Canvas, &table, &vp);
    let repeated = p.handle_user_input(key_down(Key::Character('+'), 2), Mode::Canvas, &table, &vp);
    assert_eq!(first, vec![VirtualInputAction::IncreaseSize]);
    assert_eq!(repeated, vec![VirtualInputAction::IncreaseSize]);
}

#[test]
fn modifier_set_derived_from_key_state() {
    let table = KeyTranslationTable { entries: Vec::new() };
    let vp = identity();
    let mut p = InputPreprocessor::new();
    p.handle_user_input(key_down(Key::Shift, 1), Mode::Canvas, &table, &vp);
    p.handle_user_input(key_down(Key::Meta, 2), Mode::Canvas, &table, &vp);
    assert_eq!(
        p.active_modifiers(),
        ModifierSet { shift: true, ctrl: false, alt: false, meta: true }
    );
    p.handle_user_input(key_up(Key::Shift, 3), Mode::Canvas, &table, &vp);
    assert_eq!(
        p.active_modifiers(),
        ModifierSet { shift: false, ctrl: false, alt: false, meta: true }
    );
}

#[test]
fn redundant_mouse_button_press_is_dropped() {
    let table = KeyTranslationTable { entries: Vec::new() };
    let vp = identity();
    let mut p = InputPreprocessor::new();
    p.handle_user_input(
        Event::MouseButton { button: MouseButton::Left, pressed: true, x: 5, y: 6 },
        Mode::Canvas,
        &table,
        &vp,
    );
    let after_press = p.mouse_state();
    assert_eq!(after_press.buttons, ButtonSet { left: true, right: false, middle: false });
    assert_eq!(after_press.position, DocumentPoint { x: 5, y: 6 });
    // A duplicate press is dropped whole: even its coordinates move nothing.
    p.handle_user_input(
        Event::MouseButton { button: MouseButton::Left, pressed: true, x: 50, y: 60 },
        Mode::Canvas,
        &table,
        &vp,
    );
    assert_eq!(p.mouse_state(), after_press);
    // A release of a button not held is dropped too.
    p.handle_user_input(
        Event::MouseButton { button: MouseButton::Right, pressed: false, x: 7, y: 8 },
        Mode::Canvas,
        &table,
        &vp,
    );
    assert_eq!(p.mouse_state(), after_press);
}

#[test]
fn mouse_move_maps_into_document_space() {
    let table = KeyTranslationTable { entries: Vec::new() };
    let t = ViewportTransform { scale: 3, pan_x: -2, pan_y: 1 };
    let mut p = InputPreprocessor::new();
    let actions = p.handle_user_input(Event::MouseMove { x: 10, y: 20 }, Mode::Canvas, &table, &t);
    assert_eq!(actions, Vec::new());
    assert_eq!(p.mouse_state().position, DocumentPoint { x: 28, y: 61 });
}

#[test]
fn scroll_accumulates() {
    let table = KeyTranslationTable { entries: Vec::new() };
    let vp = identity();
    let mut p = InputPreprocessor::new();
    p.handle_user_input(Event::Scroll { dx: 3, dy: -7 }, Mode::Canvas, &table, &vp);
    p.handle_user_input(Event::Scroll { dx: -1, dy: -2 }, Mode::Canvas, &table, &vp);
    let mouse = p.mouse_state();
    assert_eq!(mouse.scroll_x, 2);
    assert_eq!(mouse.scroll_y, -9);
}

#[test]
fn host_claimed_modifiers_are_ignored() {
    let table = undo_redo_table();
    let vp = identity();
    let mut p = InputPreprocessor::new();
    // The host claims Ctrl is held, but no Ctrl press was ever seen: the
    // tracker-derived (empty) modifier set decides, so the bare binding fires.
    let actions = p.handle_user_input(
        Event::KeyDown {
            key: Key::Character('z'),
            modifiers: ctrl_only(),
            repeat: false,
            timestamp: 1,
        },
        Mode::Canvas,
        &table,
        &vp,
    );
    assert_eq!(actions, vec![VirtualInputAction::Undo]);
}

#[test]
fn host_claimed_repeat_of_unheld_key_is_a_fresh_press() {
    let table = undo_redo_table();
    let vp = identity();
    let mut p = InputPreprocessor::new();
    // The host tags the event as auto-repeat, but the key was never seen
    // held: the press is reconstructed as fresh, so the one-shot binding
    // still fires.
    let actions = p.handle_user_input(
        Event::KeyDown {
            key: Key::Character('z'),
            modifiers: no_mods(),
            repeat: true,
            timestamp: 1,
        },
        Mode::Canvas,
        &table,
        &vp,
    );
    assert_eq!(actions, vec![VirtualInputAction::Undo]);
    assert!(p.is_pressed(Key::Character('z')));
}

#[test]
fn repeat_does_not_reset_press_metadata() {
    let table = KeyTranslationTable { entries: Vec::new() };
    let vp = identity();
    let mut p = InputPreprocessor::new();
    p.handle_user_input(key_down(Key::Control, 1), Mode::Canvas, &table, &vp);
    p.handle_user_input(key_down(Key::Character('z'), 2), Mode::Canvas, &table, &vp);
    p.handle_user_input(key_up(Key::Control, 3), Mode::Canvas, &table, &vp);
    // An auto-repeat of the still-held key changes nothing observable:
    // the modifier set recorded at press time is gone from view, but pressed
    // state and the derived modifiers stay as they were.
    p.handle_user_input(key_down(Key::Character('z'), 4), Mode::Canvas, &table, &vp);
    assert!(p.is_pressed(Key::Character('z')));
    assert!(!p.active_modifiers().ctrl);
}
