//! The first form of the menu item: a button that reports being used, by a
//! completed press or by its keyboard shortcut.
use bevy::input::Input;
use vstd::prelude::*;

use crate::input::{
    key_label, key_label_str, shortcut_fires, shortcut_label, shortcut_pressed, KeyCode,
};
use crate::interaction::FluxInteraction;

verus! {

/// A menu item: whether it was used this frame.
#[derive(Clone, Copy, Debug, PartialEq, Eq, Structural)]
pub struct MenuItem {
    pub interacted: bool,
}

impl Default for MenuItem {
    fn default() -> (m: Self)
        ensures
            !m.interacted,
    {
        MenuItem { interacted: false }
    }
}

/// What a menu item shows and answers to: its name, its icon (an asset
/// path), its access key and its shortcut.
pub struct MenuItemConfig {
    pub name: String,
    pub icon: Option<String>,
    pub alt_code: Option<KeyCode>,
    pub shortcut: Option<Vec<KeyCode>>,
}

impl Default for MenuItemConfig {
    fn default() -> (c: Self)
        ensures
            c.name@ == Seq::<char>::empty(),
            c.icon is None,
            c.alt_code is None,
            c.shortcut is None,
    {
        MenuItemConfig { name: String::new(), icon: None, alt_code: None, shortcut: None }
    }
}

impl MenuItem {
    pub fn interacted(&self) -> (r: bool)
        ensures
            r == self.interacted,
    {
        self.interacted
    }

    /// What a shortcut shows of a key.
    pub fn keycode_text(keycode: &KeyCode) -> (text: String)
        ensures
            text@ == key_label(*keycode),
    {
        String::from_str(key_label_str(keycode))
    }

    /// What a shortcut shows of its keys: their labels joined by `+`.
    pub fn shortcut_text(keycodes: &Vec<KeyCode>) -> (text: String)
        ensures
            text@ == shortcut_label(keycodes@),
    {
        let mut text = String::new();
        let mut i: usize = 0;
        proof {
            reveal_strlit("+");
        }
        while i < keycodes.len()
            invariant
                i <= keycodes.len(),
                text@ == shortcut_label(keycodes@.take(i as int)),
            decreases keycodes.len() - i,
        {
            assert(keycodes@.take(i + 1).drop_last() =~= keycodes@.take(i as int));
            assert(keycodes@.take(i + 1).last() == keycodes@[i as int]);
            if i > 0 {
                text.append("+");
            }
            let label = MenuItem::keycode_text(&keycodes[i]);
            text.append(label.as_str());
            proof {
                if i == 0 {
                    assert(text@ =~= key_label(keycodes@[0]));
                    assert(shortcut_label(keycodes@.take(1)) == key_label(keycodes@.take(1)[0]));
                }
            }
            i = i + 1;
        }
        assert(keycodes@.take(keycodes.len() as int) =~= keycodes@);
        text
    }
}

/// A completed press marks the item used.
pub fn update_menu_item_on_pressed(item: &mut MenuItem, interaction: FluxInteraction)
    ensures
        final(item).interacted == (old(item).interacted || interaction == FluxInteraction::Released),
{
    if interaction == FluxInteraction::Released {
        item.interacted = true;
    }
}

/// A fired shortcut marks the item used (see `shortcut_fires`).
pub fn update_menu_item_on_key_press(item: &mut MenuItem, config: &MenuItemConfig, keys: &Input<KeyCode>)
    ensures
        final(item).interacted == (old(item).interacted || match config.shortcut {
            Some(shortcut) => shortcut_fires(shortcut@, *keys),
            None => false,
        }),
{
    if let Some(shortcut) = &config.shortcut {
        if shortcut_pressed(shortcut, keys) {
            item.interacted = true;
        }
    }
}

/// The use of an item lasts one frame: a changed item that was used is reset.
pub fn update_menu_item_on_change(item: &mut MenuItem)
    ensures
        !final(item).interacted,
{
    if item.interacted {
        item.interacted = false;
    }
}

} // verus!
