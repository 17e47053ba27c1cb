use bevy::input::touch::Touches;
use bevy::input::Input;
use sickle_ui::entity::Entity;
use sickle_ui::input::{KeyCode, MouseButton};
use sickle_ui::interaction::{Display, FluxInteraction};
use sickle_ui::widgets::menu::{handle_click_or_touch, Menu};
use sickle_ui::widgets::menu_item as classic_item;
use sickle_ui::widgets::menus::menu_item as item;
use sickle_ui::widgets::menus::toggle_menu_item as toggle;
use sickle_ui::widgets::submenu::{
    close_containers_of, close_submenus_on_menu_change, open_submenu_on_hover,
    update_open_submenu_containers, Submenu, SubmenuConfig, SubmenuContainer, SubmenuTimerChange,
    SUBMENU_ICON,
};
use sickle_ui::widgets::toggle_menu_item as classic_toggle;

fn keys_with_just(held: &[KeyCode], just: &[KeyCode]) -> Input<KeyCode> {
    let mut keys = Input::<KeyCode>::default();
    for key in held {
        keys.press(*key);
    }
    keys.clear();
    for key in just {
        keys.press(*key);
    }
    keys
}

fn menus(open: &[bool]) -> Vec<Menu> {
    open.iter()
        .enumerate()
        .map(|(i, o)| Menu { container: Entity(100 + i as u64), is_open: *o })
        .collect()
}

fn open_flags(menus: &[Menu]) -> Vec<bool> {
    menus.iter().map(|m| m.is_open).collect()
}

#[test]
fn keycode_and_shortcut_texts() {
    assert_eq!(classic_item::MenuItem::keycode_text(&KeyCode::Key5), "5");
    assert_eq!(classic_item::MenuItem::keycode_text(&KeyCode::Comma), ",");
    assert_eq!(classic_item::MenuItem::keycode_text(&KeyCode::Q), "Q");
    assert_eq!(
        classic_item::MenuItem::shortcut_text(&vec![KeyCode::ControlLeft, KeyCode::ShiftRight, KeyCode::Z]),
        "Ctrl+Shift+Z"
    );
    assert_eq!(classic_item::MenuItem::shortcut_text(&vec![KeyCode::Escape]), "ESC");
    assert_eq!(classic_item::MenuItem::shortcut_text(&vec![]), "");
}

#[test]
fn classic_menu_item_use_lasts_one_frame() {
    let mut menu_item = classic_item::MenuItem::default();
    classic_item::update_menu_item_on_pressed(&mut menu_item, FluxInteraction::Pressed);
    assert!(!menu_item.interacted());
    classic_item::update_menu_item_on_pressed(&mut menu_item, FluxInteraction::Released);
    assert!(menu_item.interacted());
    classic_item::update_menu_item_on_change(&mut menu_item);
    assert!(!menu_item.interacted());
}

#[test]
fn classic_menu_item_shortcut_marks_use() {
    let config = classic_item::MenuItemConfig {
        shortcut: Some(vec![KeyCode::ControlLeft, KeyCode::O]),
        ..Default::default()
    };
    let mut menu_item = classic_item::MenuItem::default();
    classic_item::update_menu_item_on_key_press(&mut menu_item, &config, &keys_with_just(&[KeyCode::ControlLeft], &[KeyCode::P]));
    assert!(!menu_item.interacted);
    classic_item::update_menu_item_on_key_press(&mut menu_item, &config, &keys_with_just(&[KeyCode::ControlRight], &[KeyCode::O]));
    assert!(menu_item.interacted);
    let mut menu_item = classic_item::MenuItem::default();
    let no_shortcut = classic_item::MenuItemConfig::default();
    classic_item::update_menu_item_on_key_press(&mut menu_item, &no_shortcut, &keys_with_just(&[], &[KeyCode::O]));
    assert!(!menu_item.interacted);
}

#[test]
fn classic_toggle_follows_menu_item_use() {
    let mut toggle_item = classic_toggle::ToggleMenuItem::default();
    let used = classic_item::MenuItem { interacted: true };
    let unused = classic_item::MenuItem { interacted: false };
    classic_toggle::update_toggle_menu_item_value(&mut toggle_item, &unused);
    assert!(!toggle_item.checked());
    classic_toggle::update_toggle_menu_item_value(&mut toggle_item, &used);
    assert!(toggle_item.checked());
    let mut config = classic_item::MenuItemConfig { name: "Grid".to_string(), ..Default::default() };
    classic_toggle::update_toggle_menu_checkmark(&toggle_item, &mut config);
    assert_eq!(config.icon, Some(classic_toggle::CHECKMARK_ICON.to_string()));
    assert_eq!(config.name, "Grid");
    classic_toggle::update_toggle_menu_item_value(&mut toggle_item, &used);
    classic_toggle::update_toggle_menu_checkmark(&toggle_item, &mut config);
    assert_eq!(config.icon, None);
}

#[test]
fn classic_toggle_config_into_menu_item_config() {
    let config = classic_toggle::ToggleMenuItemConfig {
        name: "Wrap".to_string(),
        alt_code: Some(KeyCode::W),
        shortcut: Some(vec![KeyCode::AltLeft, KeyCode::Z]),
    };
    let plain = config.into();
    assert_eq!(plain.name, "Wrap");
    assert_eq!(plain.alt_code, Some(KeyCode::W));
    assert_eq!(plain.shortcut, Some(vec![KeyCode::AltLeft, KeyCode::Z]));
    assert_eq!(plain.icon, None);
}

#[test]
fn menu_item_contexts_and_errors() {
    let menu_item = item::MenuItem {
        interacted: false,
        leading: Entity(1),
        label: Entity(2),
        shortcut_container: Entity(3),
        shortcut: Entity(4),
        trailing: Entity(5),
    };
    assert_eq!(
        menu_item.contexts(),
        vec!["LeadingIcon", "Label", "ShortcutContainer", "Shortcut", "TrailingIcon"]
    );
    assert_eq!(menu_item.get("Shortcut"), Ok(Entity(4)));
    assert_eq!(menu_item.get("TrailingIcon"), Ok(Entity(5)));
    assert_eq!(
        menu_item.get("Icon"),
        Err("Icon doesn't exists for MenuItem. Possible contexts: [\"LeadingIcon\", \"Label\", \"ShortcutContainer\", \"Shortcut\", \"TrailingIcon\"]".to_string())
    );
}

#[test]
fn menu_item_press_and_shortcut() {
    let mut menu_item = item::MenuItem::default();
    item::update_menu_item_on_pressed(&mut menu_item, FluxInteraction::Released);
    assert!(menu_item.interacted());
    item::update_menu_item_on_change(&mut menu_item);
    assert!(!menu_item.interacted());
    let config = item::MenuItemConfig {
        name: "Save".to_string(),
        shortcut: Some(vec![KeyCode::ControlLeft, KeyCode::S]),
        ..Default::default()
    };
    item::update_menu_item_on_key_press(&mut menu_item, &config, &keys_with_just(&[KeyCode::ControlLeft], &[KeyCode::S]));
    assert!(menu_item.interacted());
}

#[test]
fn menu_item_config_texts() {
    let config = item::MenuItemConfig {
        name: "Save".to_string(),
        shortcut: Some(vec![KeyCode::ControlLeft, KeyCode::S]),
        ..Default::default()
    };
    let (label, shortcut) = item::update_menu_item_on_config_change(&config);
    assert_eq!(label, "Save");
    assert_eq!(shortcut, "Ctrl+S");
    let (label, shortcut) = item::update_menu_item_on_config_change(&item::MenuItemConfig::default());
    assert_eq!(label, "");
    assert_eq!(shortcut, "");
}

#[test]
fn toggle_menu_item_flips_on_press() {
    let menu_item = item::MenuItem {
        interacted: false,
        leading: Entity(1),
        label: Entity(2),
        shortcut_container: Entity(3),
        shortcut: Entity(4),
        trailing: Entity(5),
    };
    let config = item::MenuItemConfig {
        name: "Snap".to_string(),
        alt_code: Some(KeyCode::N),
        trailing_icon: Some("icons/snap.png".to_string()),
        ..Default::default()
    };
    let mut toggle_item = toggle::ToggleMenuItem::from_menu_item(&menu_item, &config);
    assert!(!toggle_item.checked);
    assert_eq!(toggle_item.alt_code, Some(KeyCode::N));
    assert_eq!(toggle_item.trailing_icon, Some("icons/snap.png".to_string()));
    assert_eq!(toggle_item.get("Label"), Ok(Entity(2)));
    toggle::update_toggle_menu_item_value(&mut toggle_item, FluxInteraction::Pressed);
    assert!(toggle_item.checked);
    toggle::update_toggle_menu_item_value(&mut toggle_item, FluxInteraction::Released);
    assert!(toggle_item.checked);
    toggle::update_toggle_menu_item_value(&mut toggle_item, FluxInteraction::Pressed);
    assert!(!toggle_item.checked);
    assert_eq!(
        toggle_item.get("Checkmark"),
        Err("Checkmark doesn't exists for MenuItem. Possible contexts: [\"LeadingIcon\", \"Label\", \"ShortcutContainer\", \"Shortcut\", \"TrailingIcon\"]".to_string())
    );
}

#[test]
fn toggle_menu_item_config_into() {
    let config = toggle::ToggleMenuItemConfig {
        name: "Lock".to_string(),
        initially_checked: true,
        ..Default::default()
    };
    let plain = config.into();
    assert_eq!(plain.name, "Lock");
    assert_eq!(plain.leading_icon, None);
    assert_eq!(plain.trailing_icon, None);
}

#[test]
fn menus_close_on_press_elsewhere() {
    let touches = Touches::default();
    let mut buttons = Input::<MouseButton>::default();
    buttons.press(MouseButton::Left);
    let mut all = menus(&[true, false]);
    handle_click_or_touch(&buttons, &touches, &mut all, &vec![FluxInteraction::Idle, FluxInteraction::Idle], &vec![false, false]);
    assert_eq!(open_flags(&all), vec![false, false]);
    assert_eq!(all[0].container_display(), Display::Collapsed);
}

#[test]
fn menu_opens_on_press_and_others_close() {
    let touches = Touches::default();
    let mut buttons = Input::<MouseButton>::default();
    buttons.press(MouseButton::Left);
    let mut all = menus(&[true, false, false]);
    handle_click_or_touch(
        &buttons,
        &touches,
        &mut all,
        &vec![FluxInteraction::Idle, FluxInteraction::Idle, FluxInteraction::Pressed],
        &vec![false, false, true],
    );
    assert_eq!(open_flags(&all), vec![false, false, true]);
    assert_eq!(all[2].container_display(), Display::Flex);
}

#[test]
fn pressing_an_open_menu_closes_it() {
    let touches = Touches::default();
    let mut buttons = Input::<MouseButton>::default();
    buttons.press(MouseButton::Left);
    let mut all = menus(&[true, false]);
    handle_click_or_touch(
        &buttons,
        &touches,
        &mut all,
        &vec![FluxInteraction::Pressed, FluxInteraction::Idle],
        &vec![true, false],
    );
    assert_eq!(open_flags(&all), vec![false, false]);
}

#[test]
fn hovering_another_menu_moves_the_open_menu() {
    let touches = Touches::default();
    let buttons = Input::<MouseButton>::default();
    let mut all = menus(&[true, false]);
    handle_click_or_touch(
        &buttons,
        &touches,
        &mut all,
        &vec![FluxInteraction::PointerLeave, FluxInteraction::PointerEnter],
        &vec![false, true],
    );
    assert_eq!(open_flags(&all), vec![false, true]);
    // With no menu open, hovering opens nothing.
    let mut all = menus(&[false, false]);
    handle_click_or_touch(
        &buttons,
        &touches,
        &mut all,
        &vec![FluxInteraction::Idle, FluxInteraction::PointerEnter],
        &vec![false, true],
    );
    assert_eq!(open_flags(&all), vec![false, false]);
    // Nothing changed: nothing happens.
    let mut all = menus(&[false, true]);
    handle_click_or_touch(
        &buttons,
        &touches,
        &mut all,
        &vec![FluxInteraction::Idle, FluxInteraction::Idle],
        &vec![false, false],
    );
    assert_eq!(open_flags(&all), vec![false, true]);
}

#[test]
fn submenu_opens_on_hover() {
    let mut container = SubmenuContainer::default();
    assert_eq!(container.display(), Display::Collapsed);
    assert_eq!(open_submenu_on_hover(&mut container, FluxInteraction::PointerLeave), SubmenuTimerChange::Unlock);
    assert!(!container.is_open);
    assert_eq!(open_submenu_on_hover(&mut container, FluxInteraction::Pressed), SubmenuTimerChange::Keep);
    assert!(!container.is_open);
    assert_eq!(open_submenu_on_hover(&mut container, FluxInteraction::PointerEnter), SubmenuTimerChange::LockAndRestart);
    assert!(container.is_open);
    assert_eq!(container.display(), Display::Flex);
    assert_eq!(Submenu::default().container, Entity::placeholder());
}

#[test]
fn submenu_config_into_menu_item_config() {
    let config = SubmenuConfig { name: "Recent".to_string(), alt_code: Some(KeyCode::R), leading_icon: None };
    let plain = config.into();
    assert_eq!(plain.name, "Recent");
    assert_eq!(plain.alt_code, Some(KeyCode::R));
    assert_eq!(plain.trailing_icon, Some(SUBMENU_ICON.to_string()));
    assert_eq!(plain.shortcut, None);
}

fn container(open: bool, external: Option<u64>) -> SubmenuContainer {
    SubmenuContainer { is_open: open, external_container: external.map(Entity) }
}

#[test]
fn closing_a_container_closes_its_descendants() {
    let mut containers = vec![
        (Entity(1), container(true, None)),
        (Entity(2), container(true, Some(1))),
        (Entity(3), container(true, Some(2))),
        (Entity(4), container(true, Some(9))),
        (Entity(5), container(false, Some(1))),
    ];
    close_containers_of(&mut containers, Some(Entity(1)));
    let open: Vec<bool> = containers.iter().map(|(_, c)| c.is_open).collect();
    assert_eq!(open, vec![true, false, false, true, false]);
}

#[test]
fn opening_a_container_closes_its_open_siblings() {
    let mut containers = vec![
        (Entity(1), container(true, Some(7))),
        (Entity(2), container(true, Some(7))),
        (Entity(3), container(true, Some(2))),
        (Entity(4), container(true, Some(8))),
    ];
    update_open_submenu_containers(&mut containers, &vec![true, false, false, false]);
    let open: Vec<bool> = containers.iter().map(|(_, c)| c.is_open).collect();
    assert_eq!(open, vec![true, false, false, true]);
}

#[test]
fn a_closed_container_closes_what_it_holds() {
    let mut containers = vec![
        (Entity(1), container(false, None)),
        (Entity(2), container(true, Some(1))),
        (Entity(3), container(true, None)),
    ];
    update_open_submenu_containers(&mut containers, &vec![true, false, false]);
    let open: Vec<bool> = containers.iter().map(|(_, c)| c.is_open).collect();
    assert_eq!(open, vec![false, false, true]);
}

#[test]
fn menu_change_closes_all_submenus() {
    let mut containers = vec![container(true, None), container(false, Some(3))];
    close_submenus_on_menu_change(false, &mut containers);
    assert!(containers[0].is_open);
    close_submenus_on_menu_change(true, &mut containers);
    assert!(containers.iter().all(|c| !c.is_open));
    assert_eq!(containers[1].external_container, Some(Entity(3)));
}
