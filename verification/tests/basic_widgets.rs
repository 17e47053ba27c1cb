use bevy::input::Input;
use sickle_ui::context::{debug_list_string, get_context, str_eq};
use sickle_ui::entity::{Entity, PLACEHOLDER_BITS};
use sickle_ui::input::KeyCode;
use sickle_ui::interaction::{Display, FluxInteraction, PseudoState, Visibility};
use sickle_ui::widgets::checkbox::{toggle_checkbox, Checkbox};
use sickle_ui::widgets::inputs::radio_group as inputs_radio;
use sickle_ui::widgets::radio_group as classic_radio;

fn no_keys() -> Input<KeyCode> {
    Input::<KeyCode>::default()
}

fn ctrl_held() -> Input<KeyCode> {
    let mut keys = Input::<KeyCode>::default();
    keys.press(KeyCode::ControlRight);
    keys
}

#[test]
fn placeholder_entity_has_placeholder_bits() {
    assert_eq!(Entity::placeholder().to_bits(), PLACEHOLDER_BITS);
    assert_eq!(PLACEHOLDER_BITS, bevy::ecs::entity::Entity::PLACEHOLDER.to_bits());
    assert_eq!(PLACEHOLDER_BITS, u32::MAX as u64);
    assert_eq!(Entity(42).to_bits(), 42);
}

#[test]
fn str_eq_compares_characters() {
    assert!(str_eq("Label", "Label"));
    assert!(!str_eq("Label", "Labe"));
    assert!(!str_eq("Label", "label"));
    assert!(str_eq("", ""));
}

#[test]
fn debug_list_matches_debug_formatting() {
    let names = vec!["A", "Bc"];
    assert_eq!(debug_list_string(&names), format!("{:?}", names));
    let empty: Vec<&str> = vec![];
    assert_eq!(debug_list_string(&empty), "[]");
}

#[test]
fn get_context_finds_first_match_or_lists_names() {
    let names = vec!["One", "Two", "One"];
    let entities = vec![Entity(1), Entity(2), Entity(3)];
    assert_eq!(get_context("One", "W", &names, &entities), Ok(Entity(1)));
    assert_eq!(get_context("Two", "W", &names, &entities), Ok(Entity(2)));
    assert_eq!(
        get_context("Three", "W", &names, &entities),
        Err("Three doesn't exists for W. Possible contexts: [\"One\", \"Two\", \"One\"]".to_string())
    );
}

#[test]
fn checkbox_contexts_and_unknown_context() {
    let checkbox = Checkbox {
        checked: false,
        checkmark_background: Entity(10),
        checkmark: Entity(11),
        label: Entity(12),
    };
    assert_eq!(
        Checkbox::contexts(),
        vec!["CheckmarkBackground", "Checkmark", "Label"]
    );
    assert_eq!(checkbox.get("CheckmarkBackground"), Ok(Entity(10)));
    assert_eq!(checkbox.get("Checkmark"), Ok(Entity(11)));
    assert_eq!(checkbox.get("Label"), Ok(Entity(12)));
    assert_eq!(
        checkbox.get("Missing"),
        Err("Missing doesn't exists for Checkbox. Possible contexts: [\"CheckmarkBackground\", \"Checkmark\", \"Label\"]".to_string())
    );
}

#[test]
fn checkbox_flips_on_release_only() {
    let mut checkbox = Checkbox::default();
    assert!(!checkbox.checked);
    assert_eq!(checkbox.checkmark_visibility(), Visibility::Hidden);
    toggle_checkbox(&mut checkbox, FluxInteraction::Pressed);
    assert!(!checkbox.checked);
    toggle_checkbox(&mut checkbox, FluxInteraction::Released);
    assert!(checkbox.checked);
    assert_eq!(checkbox.checkmark_visibility(), Visibility::Inherited);
    toggle_checkbox(&mut checkbox, FluxInteraction::PressCanceled);
    assert!(checkbox.checked);
}

#[test]
fn checkbox_double_release_restores() {
    let mut checkbox = Checkbox::default();
    checkbox.checked = true;
    let before = checkbox;
    toggle_checkbox(&mut checkbox, FluxInteraction::Released);
    toggle_checkbox(&mut checkbox, FluxInteraction::Released);
    assert_eq!(checkbox, before);
}

#[test]
fn radio_press_checks_unchecked_button() {
    let mut button = inputs_radio::RadioButton::default();
    button.index = 3;
    let selection = inputs_radio::toggle_radio_button(&mut button, FluxInteraction::Pressed, &no_keys());
    assert!(button.checked);
    assert_eq!(selection, Some(Some(3)));
    assert_eq!(button.radiomark_visibility(), Visibility::Inherited);
    // A second press on a checked button changes nothing.
    let selection = inputs_radio::toggle_radio_button(&mut button, FluxInteraction::Pressed, &no_keys());
    assert!(button.checked);
    assert_eq!(selection, None);
}

#[test]
fn radio_ctrl_press_unchecks_unselectable_button() {
    let mut button = inputs_radio::RadioButton::default();
    button.index = 1;
    button.checked = true;
    button.unselectable = true;
    let selection = inputs_radio::toggle_radio_button(&mut button, FluxInteraction::Pressed, &ctrl_held());
    assert!(!button.checked);
    assert_eq!(selection, Some(None));
    // Without Ctrl, a checked button stays checked.
    let mut button = inputs_radio::RadioButton { checked: true, unselectable: true, ..button };
    let selection = inputs_radio::toggle_radio_button(&mut button, FluxInteraction::Pressed, &no_keys());
    assert!(button.checked);
    assert_eq!(selection, None);
}

#[test]
fn radio_release_is_ignored_by_input_group() {
    let mut button = inputs_radio::RadioButton::default();
    let selection = inputs_radio::toggle_radio_button(&mut button, FluxInteraction::Released, &no_keys());
    assert!(!button.checked);
    assert_eq!(selection, None);
}

#[test]
fn radio_group_sync_leaves_one_checked() {
    let mut group = inputs_radio::RadioGroup::default();
    assert_eq!(group.selected(), None);
    group.select(Some(1));
    assert_eq!(group.selected(), Some(1));
    let mut buttons: Vec<inputs_radio::RadioButton> = (0..3)
        .map(|i| inputs_radio::RadioButton { index: i, checked: i != 1, ..Default::default() })
        .collect();
    inputs_radio::update_radio_group_buttons(&group, &mut buttons);
    let checked: Vec<bool> = buttons.iter().map(|b| b.checked).collect();
    assert_eq!(checked, vec![false, true, false]);
    group.select(None);
    inputs_radio::update_radio_group_buttons(&group, &mut buttons);
    assert!(buttons.iter().all(|b| !b.checked));
}

#[test]
fn radio_button_contexts() {
    let button = inputs_radio::RadioButton {
        radiomark_background: Entity(5),
        radiomark: Entity(6),
        label: Entity(7),
        ..Default::default()
    };
    assert_eq!(button.contexts(), vec!["RadiomarkBackground", "Radiomark", "Label"]);
    assert_eq!(button.get("Radiomark"), Ok(Entity(6)));
    assert_eq!(
        button.get("Checkmark"),
        Err("Checkmark doesn't exists for RadioButton. Possible contexts: [\"RadiomarkBackground\", \"Radiomark\", \"Label\"]".to_string())
    );
}

#[test]
fn classic_radio_checks_on_release_and_reports_to_its_group() {
    let mut button = classic_radio::RadioButton::default();
    button.index = 2;
    button.group = Some(Entity(9));
    assert_eq!(button.check_display(), Display::Collapsed);
    let selection = classic_radio::toggle_radio_button(&mut button, FluxInteraction::Pressed, &no_keys());
    assert!(!button.checked);
    assert_eq!(selection, None);
    let selection = classic_radio::toggle_radio_button(&mut button, FluxInteraction::Released, &no_keys());
    assert!(button.checked);
    assert_eq!(selection, Some(Some(2)));
    assert_eq!(button.check_display(), Display::Flex);
}

#[test]
fn classic_radio_without_group_reports_nothing() {
    let mut button = classic_radio::RadioButton::default();
    let selection = classic_radio::toggle_radio_button(&mut button, FluxInteraction::Released, &no_keys());
    assert!(button.checked);
    assert_eq!(selection, None);
    let mut button = classic_radio::RadioButton { unselectable: true, group: Some(Entity(1)), ..button };
    let selection = classic_radio::toggle_radio_button(&mut button, FluxInteraction::Released, &ctrl_held());
    assert!(!button.checked);
    assert_eq!(selection, Some(None));
}

#[test]
fn classic_radio_group_sync() {
    let group = classic_radio::RadioGroup { selected: Some(0) };
    let mut buttons = vec![
        classic_radio::RadioButton { index: 0, ..Default::default() },
        classic_radio::RadioButton { index: 1, checked: true, ..Default::default() },
    ];
    classic_radio::update_radio_group_buttons(&group, &mut buttons);
    assert!(buttons[0].checked);
    assert!(!buttons[1].checked);
    assert_eq!(classic_radio::RadioGroup::default().selected, None);
}

#[test]
fn checked_radio_button_takes_the_checked_state() {
    let mut button = inputs_radio::RadioButton::default();
    assert_eq!(button.pseudo_state(), None);
    inputs_radio::toggle_radio_button(&mut button, FluxInteraction::Pressed, &no_keys());
    assert_eq!(button.pseudo_state(), Some(PseudoState::Checked));
}
