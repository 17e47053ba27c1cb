//! A menu item that flips a check every time it is pressed.
use vstd::prelude::*;

use crate::context::{
    context_lookup, context_outcome, distinct_names, get_context, lemma_lookup_distinct, names_view,
};
use crate::entity::Entity;
use crate::input::KeyCode;
use crate::interaction::FluxInteraction;
use crate::widgets::menus::menu_item::{
    menu_item_context_names, MenuItem, MenuItemConfig, LABEL, LEADING_ICON, SHORTCUT,
    SHORTCUT_CONTAINER, TRAILING_ICON,
};

verus! {

/// What a toggle menu item shows and answers to, and whether it starts
/// checked.
pub struct ToggleMenuItemConfig {
    pub name: String,
    pub trailing_icon: Option<String>,
    pub alt_code: Option<KeyCode>,
    pub shortcut: Option<Vec<KeyCode>>,
    pub initially_checked: bool,
}

impl Default for ToggleMenuItemConfig {
    fn default() -> (c: Self)
        ensures
            c.name@ == Seq::<char>::empty(),
            c.trailing_icon is None,
            c.alt_code is None,
            c.shortcut is None,
            !c.initially_checked,
    {
        ToggleMenuItemConfig {
            name: String::new(),
            trailing_icon: None,
            alt_code: None,
            shortcut: None,
            initially_checked: false,
        }
    }
}

impl ToggleMenuItemConfig {
    /// The configuration of the plain menu item underneath: the same name,
    /// access key, shortcut and trailing icon, and no leading icon.
    pub fn into(self) -> (config: MenuItemConfig)
        ensures
            config.name == self.name,
            config.alt_code == self.alt_code,
            config.shortcut == self.shortcut,
            config.trailing_icon == self.trailing_icon,
            config.leading_icon is None,
    {
        MenuItemConfig {
            name: self.name,
            leading_icon: None,
            trailing_icon: self.trailing_icon,
            alt_code: self.alt_code,
            shortcut: self.shortcut,
        }
    }
}

/// A toggle menu item: its check, the nodes of its menu item, its trailing
/// icon and its access key.
pub struct ToggleMenuItem {
    pub checked: bool,
    pub leading: Entity,
    pub label: Entity,
    pub shortcut_container: Entity,
    pub shortcut: Entity,
    pub trailing: Entity,
    pub trailing_icon: Option<String>,
    pub alt_code: Option<KeyCode>,
}

impl Default for ToggleMenuItem {
    fn default() -> (t: Self)
        ensures
            !t.checked,
            t.leading.0 == crate::entity::PLACEHOLDER_BITS,
            t.label.0 == crate::entity::PLACEHOLDER_BITS,
            t.shortcut_container.0 == crate::entity::PLACEHOLDER_BITS,
            t.shortcut.0 == crate::entity::PLACEHOLDER_BITS,
            t.trailing.0 == crate::entity::PLACEHOLDER_BITS,
            t.trailing_icon is None,
            t.alt_code is None,
    {
        ToggleMenuItem {
            checked: false,
            leading: Entity::placeholder(),
            label: Entity::placeholder(),
            shortcut_container: Entity::placeholder(),
            shortcut: Entity::placeholder(),
            trailing: Entity::placeholder(),
            trailing_icon: None,
            alt_code: None,
        }
    }
}

impl ToggleMenuItem {
    /// The toggle item made of a menu item and its configuration: unchecked,
    /// with the item's nodes and the configuration's trailing icon and access
    /// key.
    pub fn from_menu_item(item: &MenuItem, config: &MenuItemConfig) -> (t: ToggleMenuItem)
        ensures
            !t.checked,
            t.leading == item.leading,
            t.label == item.label,
            t.shortcut_container == item.shortcut_container,
            t.shortcut == item.shortcut,
            t.trailing == item.trailing,
            t.trailing_icon == config.trailing_icon,
            t.alt_code == config.alt_code,
    {
        ToggleMenuItem {
            checked: false,
            leading: item.leading,
            label: item.label,
            shortcut_container: item.shortcut_container,
            shortcut: item.shortcut,
            trailing: item.trailing,
            trailing_icon: config.trailing_icon.clone(),
            alt_code: config.alt_code,
        }
    }

    /// The named nodes, in the order of `menu_item_context_names`.
    pub open spec fn context_entities(&self) -> Seq<Entity> {
        seq![self.leading, self.label, self.shortcut_container, self.shortcut, self.trailing]
    }

    /// The context names of the item's nodes (those of a menu item).
    pub fn contexts(&self) -> (names: Vec<&'static str>)
        ensures
            names_view(names@) == menu_item_context_names(),
    {
        let names = vec![LEADING_ICON, LABEL, SHORTCUT_CONTAINER, SHORTCUT, TRAILING_ICON];
        assert(names_view(names@) =~= menu_item_context_names());
        names
    }

    /// The node of a context name, or the error that lists the names (the
    /// error speaks of a `MenuItem`).
    pub fn get(&self, target: &str) -> (r: Result<Entity, String>)
        ensures
            context_outcome(r, target@, "MenuItem"@, menu_item_context_names(), self.context_entities()),
    {
        let names = self.contexts();
        let entities = vec![
            self.leading,
            self.label,
            self.shortcut_container,
            self.shortcut,
            self.trailing,
        ];
        assert(entities@ =~= self.context_entities());
        assert(names_view(names@).len() == names@.len());
        get_context(target, "MenuItem", &names, &entities)
    }
}

/// A press flips the check.
pub fn update_toggle_menu_item_value(toggle: &mut ToggleMenuItem, interaction: FluxInteraction)
    ensures
        final(toggle).checked == (old(toggle).checked != (interaction == FluxInteraction::Pressed)),
        final(toggle).leading == old(toggle).leading,
        final(toggle).label == old(toggle).label,
        final(toggle).shortcut_container == old(toggle).shortcut_container,
        final(toggle).shortcut == old(toggle).shortcut,
        final(toggle).trailing == old(toggle).trailing,
        final(toggle).trailing_icon == old(toggle).trailing_icon,
        final(toggle).alt_code == old(toggle).alt_code,
{
    if interaction.is_pressed() {
        toggle.checked = !toggle.checked;
    }
}

/// Every context name that the toggle menu item lists leads a lookup to the node of that
/// name, so `get` answers each of them with its node.
pub proof fn toggle_menu_item_contexts_resolve(toggle: ToggleMenuItem, i: int)
    requires
        0 <= i < 5,
    ensures
        context_lookup(
            menu_item_context_names(),
            toggle.context_entities(),
            menu_item_context_names()[i],
        ) == Some(toggle.context_entities()[i]),
{
    reveal_strlit("LeadingIcon");
    reveal_strlit("Label");
    reveal_strlit("ShortcutContainer");
    reveal_strlit("Shortcut");
    reveal_strlit("TrailingIcon");
    let names = menu_item_context_names();
    assert(distinct_names(names)) by {
        assert forall|i: int, j: int|
            0 <= i < names.len() && 0 <= j < names.len() && i != j implies names[i] != names[j] by {
            assert(names[i].len() != names[j].len());
        }
    }
    lemma_lookup_distinct(names, toggle.context_entities(), i);
}

} // verus!
