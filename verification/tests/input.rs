use bevy::input::touch::Touches;
use bevy::input::Input;
use sickle_ui::input::{
    key_label_str, pointer_pressed, pointer_released, shortcut_pressed, symmetry_pressed, KeyCode,
    MouseButton,
};
use sickle_ui::widgets::scroll_container::{scroll_axis_for, ScrollAxis};

fn keys_down(held: &[KeyCode], just: &[KeyCode]) -> Input<KeyCode> {
    let mut keys = Input::<KeyCode>::default();
    for key in held {
        keys.press(*key);
    }
    keys.clear();
    for key in just {
        keys.press(*key);
    }
    keys
}

#[test]
fn debug_names_are_variant_names() {
    assert_eq!(KeyCode::A.debug_name(), "A");
    assert_eq!(KeyCode::Key1.debug_name(), "Key1");
    assert_eq!(KeyCode::NumpadEnter.debug_name(), "NumpadEnter");
    assert_eq!(KeyCode::Cut.debug_name(), "Cut");
    assert_eq!(KeyCode::Return.debug_name(), format!("{:?}", KeyCode::Return));
}

#[test]
fn key_labels_rename_symbols_and_modifiers() {
    assert_eq!(key_label_str(&KeyCode::Key1), "1");
    assert_eq!(key_label_str(&KeyCode::Key0), "0");
    assert_eq!(key_label_str(&KeyCode::Escape), "ESC");
    assert_eq!(key_label_str(&KeyCode::Insert), "Ins");
    assert_eq!(key_label_str(&KeyCode::Delete), "Del");
    assert_eq!(key_label_str(&KeyCode::ControlLeft), "Ctrl");
    assert_eq!(key_label_str(&KeyCode::ControlRight), "Ctrl");
    assert_eq!(key_label_str(&KeyCode::ShiftRight), "Shift");
    assert_eq!(key_label_str(&KeyCode::AltLeft), "Alt");
    assert_eq!(key_label_str(&KeyCode::Backslash), "\\");
    assert_eq!(key_label_str(&KeyCode::Grave), "`");
    assert_eq!(key_label_str(&KeyCode::Underline), "_");
    // The period key is shown as a comma.
    assert_eq!(key_label_str(&KeyCode::Period), ",");
    assert_eq!(key_label_str(&KeyCode::S), "S");
    assert_eq!(key_label_str(&KeyCode::F12), "F12");
    assert_eq!(key_label_str(&KeyCode::SuperLeft), "SuperLeft");
}

#[test]
fn symmetry_counts_either_side_of_a_modifier() {
    let keys = keys_down(&[KeyCode::ControlRight, KeyCode::A], &[]);
    assert!(symmetry_pressed(&keys, KeyCode::ControlLeft));
    assert!(symmetry_pressed(&keys, KeyCode::ControlRight));
    assert!(!symmetry_pressed(&keys, KeyCode::ShiftLeft));
    assert!(symmetry_pressed(&keys, KeyCode::A));
    assert!(!symmetry_pressed(&keys, KeyCode::B));
    let keys = keys_down(&[KeyCode::SuperLeft], &[]);
    assert!(symmetry_pressed(&keys, KeyCode::SuperRight));
    assert!(!symmetry_pressed(&keys, KeyCode::AltRight));
}

#[test]
fn shortcut_fires_on_its_last_key_going_down() {
    let shortcut = vec![KeyCode::ControlLeft, KeyCode::S];
    // Right Ctrl held, S just went down.
    let keys = keys_down(&[KeyCode::ControlRight], &[KeyCode::S]);
    assert!(shortcut_pressed(&shortcut, &keys));
    // S held from an earlier frame: no new press.
    let keys = keys_down(&[KeyCode::ControlLeft, KeyCode::S], &[]);
    assert!(!shortcut_pressed(&shortcut, &keys));
    // S went down without Ctrl.
    let keys = keys_down(&[], &[KeyCode::S]);
    assert!(!shortcut_pressed(&shortcut, &keys));
    // Ctrl went down last: the last key of the shortcut is S.
    let keys = keys_down(&[KeyCode::S], &[KeyCode::ControlLeft]);
    assert!(!shortcut_pressed(&shortcut, &keys));
}

#[test]
fn shortcut_edge_cases() {
    let keys = keys_down(&[KeyCode::ShiftLeft], &[KeyCode::F5]);
    assert!(!shortcut_pressed(&vec![], &keys));
    assert!(shortcut_pressed(&vec![KeyCode::F5], &keys));
    assert!(shortcut_pressed(
        &vec![KeyCode::ShiftRight, KeyCode::F5],
        &keys
    ));
    assert!(!shortcut_pressed(
        &vec![KeyCode::ShiftRight, KeyCode::AltLeft, KeyCode::F5],
        &keys
    ));
}

#[test]
fn pointer_goes_down_and_up_with_mouse_buttons() {
    let touches = Touches::default();
    let mut buttons = Input::<MouseButton>::default();
    assert!(!pointer_pressed(&buttons, &touches));
    assert!(!pointer_released(&buttons, &touches));
    buttons.press(MouseButton::Middle);
    assert!(pointer_pressed(&buttons, &touches));
    assert!(!pointer_released(&buttons, &touches));
    buttons.clear();
    buttons.release(MouseButton::Middle);
    assert!(!pointer_pressed(&buttons, &touches));
    assert!(pointer_released(&buttons, &touches));
    let mut buttons = Input::<MouseButton>::default();
    buttons.press(MouseButton::Other(4));
    assert!(!pointer_pressed(&buttons, &touches));
}

#[test]
fn wheel_scrolls_horizontally_to_the_right_or_with_shift() {
    let none = keys_down(&[], &[]);
    assert_eq!(scroll_axis_for(false, &none), ScrollAxis::Vertical);
    assert_eq!(scroll_axis_for(true, &none), ScrollAxis::Horizontal);
    let shift = keys_down(&[KeyCode::ShiftRight], &[]);
    assert_eq!(scroll_axis_for(false, &shift), ScrollAxis::Horizontal);
    let ctrl = keys_down(&[KeyCode::ControlLeft], &[]);
    assert_eq!(scroll_axis_for(false, &ctrl), ScrollAxis::Vertical);
    assert_eq!(ScrollAxis::default(), ScrollAxis::Horizontal);
}

#[test]
fn shortcut_side_of_a_modifier_does_not_matter() {
    let keys = keys_down(&[KeyCode::AltRight, KeyCode::ShiftLeft], &[KeyCode::K]);
    for (first, second) in [
        (KeyCode::AltLeft, KeyCode::ShiftLeft),
        (KeyCode::AltRight, KeyCode::ShiftLeft),
        (KeyCode::AltLeft, KeyCode::ShiftRight),
        (KeyCode::AltRight, KeyCode::ShiftRight),
    ] {
        assert!(shortcut_pressed(&vec![first, second, KeyCode::K], &keys));
    }
    assert!(!shortcut_pressed(&vec![KeyCode::ControlLeft, KeyCode::K], &keys));
}
