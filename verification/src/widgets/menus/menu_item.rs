//! A menu item with a leading icon, a label, a shortcut and a trailing icon,
//! that reports being used by a completed press or by its shortcut.
use bevy::input::Input;
use vstd::prelude::*;

use crate::context::{
    context_lookup, context_outcome, distinct_names, get_context, lemma_lookup_distinct, names_view,
};
use crate::entity::Entity;
use crate::input::{shortcut_fires, shortcut_label, shortcut_pressed, KeyCode};
use crate::interaction::FluxInteraction;

verus! {

pub const LEADING_ICON: &'static str = "LeadingIcon";
pub const LABEL: &'static str = "Label";
pub const SHORTCUT_CONTAINER: &'static str = "ShortcutContainer";
pub const SHORTCUT: &'static str = "Shortcut";
pub const TRAILING_ICON: &'static str = "TrailingIcon";

/// The context names of a menu item's nodes.
pub open spec fn menu_item_context_names() -> Seq<Seq<char>> {
    seq!["LeadingIcon"@, "Label"@, "ShortcutContainer"@, "Shortcut"@, "TrailingIcon"@]
}

/// What a menu item shows and answers to: its name, its icons (asset
/// paths), its access key and its shortcut.
pub struct MenuItemConfig {
    pub name: String,
    pub leading_icon: Option<String>,
    pub trailing_icon: Option<String>,
    pub alt_code: Option<KeyCode>,
    pub shortcut: Option<Vec<KeyCode>>,
}

impl Default for MenuItemConfig {
    fn default() -> (c: Self)
        ensures
            c.name@ == Seq::<char>::empty(),
            c.leading_icon is None,
            c.trailing_icon is None,
            c.alt_code is None,
            c.shortcut is None,
    {
        MenuItemConfig {
            name: String::new(),
            leading_icon: None,
            trailing_icon: None,
            alt_code: None,
            shortcut: None,
        }
    }
}

/// A menu item: whether it was used this frame, and its nodes.
#[derive(Clone, Copy, Debug, PartialEq, Eq, Structural)]
pub struct MenuItem {
    pub interacted: bool,
    pub leading: Entity,
    pub label: Entity,
    pub shortcut_container: Entity,
    pub shortcut: Entity,
    pub trailing: Entity,
}

impl Default for MenuItem {
    fn default() -> (m: Self)
        ensures
            !m.interacted,
            m.leading.0 == crate::entity::PLACEHOLDER_BITS,
            m.label.0 == crate::entity::PLACEHOLDER_BITS,
            m.shortcut_container.0 == crate::entity::PLACEHOLDER_BITS,
            m.shortcut.0 == crate::entity::PLACEHOLDER_BITS,
            m.trailing.0 == crate::entity::PLACEHOLDER_BITS,
    {
        MenuItem {
            interacted: false,
            leading: Entity::placeholder(),
            label: Entity::placeholder(),
            shortcut_container: Entity::placeholder(),
            shortcut: Entity::placeholder(),
            trailing: Entity::placeholder(),
        }
    }
}

impl MenuItem {
    pub fn interacted(&self) -> (r: bool)
        ensures
            r == self.interacted,
    {
        self.interacted
    }

    /// The named nodes, in the order of `menu_item_context_names`.
    pub open spec fn context_entities(&self) -> Seq<Entity> {
        seq![self.leading, self.label, self.shortcut_container, self.shortcut, self.trailing]
    }

    /// The context names of a menu item's nodes.
    pub fn contexts(&self) -> (names: Vec<&'static str>)
        ensures
            names_view(names@) == menu_item_context_names(),
    {
        let names = vec![LEADING_ICON, LABEL, SHORTCUT_CONTAINER, SHORTCUT, TRAILING_ICON];
        assert(names_view(names@) =~= menu_item_context_names());
        names
    }

    /// The node of a context name, or the error that lists the names.
    pub fn get(&self, target: &str) -> (r: Result<Entity, String>)
        ensures
            context_outcome(r, target@, "MenuItem"@, menu_item_context_names(), self.context_entities()),
    {
        let names = self.contexts();
        let entities = vec![
            self.leading,
            self.label,
            self.shortcut_container,
            self.shortcut,
            self.trailing,
        ];
        assert(entities@ =~= self.context_entities());
        assert(names_view(names@).len() == names@.len());
        get_context(target, "MenuItem", &names, &entities)
    }
}

/// The use of an item lasts one frame: a changed item that was used is reset.
pub fn update_menu_item_on_change(item: &mut MenuItem)
    ensures
        *final(item) == (MenuItem { interacted: false, ..*old(item) }),
{
    if item.interacted {
        item.interacted = false;
    }
}

/// A completed press marks the item used.
pub fn update_menu_item_on_pressed(item: &mut MenuItem, interaction: FluxInteraction)
    ensures
        *final(item) == (MenuItem {
            interacted: old(item).interacted || interaction == FluxInteraction::Released,
            ..*old(item)
        }),
{
    if interaction == FluxInteraction::Released {
        item.interacted = true;
    }
}

/// A fired shortcut marks the item used (see `shortcut_fires`).
pub fn update_menu_item_on_key_press(item: &mut MenuItem, config: &MenuItemConfig, keys: &Input<KeyCode>)
    ensures
        *final(item) == (MenuItem {
            interacted: old(item).interacted || match config.shortcut {
                Some(shortcut) => shortcut_fires(shortcut@, *keys),
                None => false,
            },
            ..*old(item)
        }),
{
    if let Some(shortcut) = &config.shortcut {
        if shortcut_pressed(shortcut, keys) {
            item.interacted = true;
        }
    }
}

/// The texts a changed configuration puts on the item: its name for the
/// label, and its shortcut (or nothing) for the shortcut label.
pub fn update_menu_item_on_config_change(config: &MenuItemConfig) -> (texts: (String, String))
    ensures
        texts.0@ == config.name@,
        texts.1@ == match config.shortcut {
            Some(shortcut) => shortcut_label(shortcut@),
            None => Seq::<char>::empty(),
        },
{
    let name = config.name.clone();
    let shortcut = match &config.shortcut {
        Some(keys) => crate::widgets::menu_item::MenuItem::shortcut_text(keys),
        None => String::new(),
    };
    (name, shortcut)
}

/// Every context name that the menu item lists leads a lookup to the node of that
/// name, so `get` answers each of them with its node.
pub proof fn menu_item_contexts_resolve(item: MenuItem, i: int)
    requires
        0 <= i < 5,
    ensures
        context_lookup(
            menu_item_context_names(),
            item.context_entities(),
            menu_item_context_names()[i],
        ) == Some(item.context_entities()[i]),
{
    reveal_strlit("LeadingIcon");
    reveal_strlit("Label");
    reveal_strlit("ShortcutContainer");
    reveal_strlit("Shortcut");
    reveal_strlit("TrailingIcon");
    let names = menu_item_context_names();
    assert(distinct_names(names)) by {
        assert forall|i: int, j: int|
            0 <= i < names.len() && 0 <= j < names.len() && i != j implies names[i] != names[j] by {
            assert(names[i].len() != names[j].len());
        }
    }
    lemma_lookup_distinct(names, item.context_entities(), i);
}

} // verus!
