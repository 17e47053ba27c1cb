//! The first form of the toggle menu item: a menu item whose use flips a
//! check, shown as its icon.
use vstd::prelude::*;

use crate::input::KeyCode;
use crate::widgets::menu_item::{MenuItem, MenuItemConfig};

verus! {

/// The icon a checked toggle item shows.
pub const CHECKMARK_ICON: &'static str = "sickle://icons/checkmark.png";

/// A toggle menu item: its check.
#[derive(Clone, Copy, Debug, PartialEq, Eq, Structural)]
pub struct ToggleMenuItem {
    pub checked: bool,
}

impl Default for ToggleMenuItem {
    fn default() -> (t: Self)
        ensures
            !t.checked,
    {
        ToggleMenuItem { checked: false }
    }
}

impl ToggleMenuItem {
    pub fn checked(&self) -> (r: bool)
        ensures
            r == self.checked,
    {
        self.checked
    }
}

/// What a toggle menu item shows and answers to.
pub struct ToggleMenuItemConfig {
    pub name: String,
    pub alt_code: Option<KeyCode>,
    pub shortcut: Option<Vec<KeyCode>>,
}

impl Default for ToggleMenuItemConfig {
    fn default() -> (c: Self)
        ensures
            c.name@ == Seq::<char>::empty(),
            c.alt_code is None,
            c.shortcut is None,
    {
        ToggleMenuItemConfig { name: String::new(), alt_code: None, shortcut: None }
    }
}

impl ToggleMenuItemConfig {
    /// The configuration of the menu item underneath: the same name, access
    /// key and shortcut, and no icon.
    pub fn into(self) -> (config: MenuItemConfig)
        ensures
            config.name == self.name,
            config.alt_code == self.alt_code,
            config.shortcut == self.shortcut,
            config.icon is None,
    {
        MenuItemConfig { name: self.name, icon: None, alt_code: self.alt_code, shortcut: self.shortcut }
    }
}

/// A use of the item flips its check.
pub fn update_toggle_menu_item_value(toggle: &mut ToggleMenuItem, item: &MenuItem)
    ensures
        final(toggle).checked == (old(toggle).checked != item.interacted),
{
    if item.interacted() {
        toggle.checked = !toggle.checked;
    }
}

/// The icon follows the check: the checkmark while checked, none otherwise.
pub fn update_toggle_menu_checkmark(toggle: &ToggleMenuItem, config: &mut MenuItemConfig)
    ensures
        toggle.checked ==> (final(config).icon matches Some(icon) && icon@ == CHECKMARK_ICON@),
        !toggle.checked ==> final(config).icon is None,
        final(config).name == old(config).name,
        final(config).alt_code == old(config).alt_code,
        final(config).shortcut == old(config).shortcut,
{
    if toggle.checked() {
        config.icon = Some(String::from_str(CHECKMARK_ICON));
    } else {
        config.icon = None;
    }
}

} // verus!
