//! A dropdown: a button that shows the chosen option and opens a panel of
//! options.
use bevy::input::touch::Touches;
use bevy::input::Input;
use vstd::prelude::*;

use crate::context::{
    context_lookup, context_outcome, distinct_names, get_context, lemma_lookup_distinct, names_view,
};
use crate::entity::Entity;
use crate::input::{pointer_released, pointer_went_up, MouseButton};
use crate::interaction::{Display, FluxInteraction, Visibility};

verus! {

pub const DROPDOWN_LABEL: &'static str = "Label";
pub const DROPDOWN_ICON: &'static str = "Icon";
pub const DROPDOWN_PANEL: &'static str = "Panel";
pub const DROPDOWN_SCROLL_VIEW: &'static str = "ScrollView";
pub const DROPDOWN_OPTION_LABEL: &'static str = "Label";
pub const DROPDOWN_PANEL_Z_INDEX: usize = 11000;

/// The corner of the dropdown button the option panel is anchored to.
#[derive(Clone, Copy, Debug, PartialEq, Eq, Structural)]
pub enum DropdownPanelAnchor {
    TopLeft,
    TopRight,
    BottomLeft,
    BottomRight,
}

impl Default for DropdownPanelAnchor {
    fn default() -> (a: Self)
        ensures
            a == DropdownPanelAnchor::BottomLeft,
    {
        DropdownPanelAnchor::BottomLeft
    }
}

/// The anchor of the panel of a dropdown, by where the button stands in its
/// container: a button past the middle horizontally opens its panel to the
/// left (anchored right), one past the middle vertically opens it upward.
pub open spec fn anchor_for(past_half_x: bool, past_half_y: bool) -> DropdownPanelAnchor {
    if past_half_x {
        if past_half_y {
            DropdownPanelAnchor::TopRight
        } else {
            DropdownPanelAnchor::BottomRight
        }
    } else {
        if past_half_y {
            DropdownPanelAnchor::TopLeft
        } else {
            DropdownPanelAnchor::BottomLeft
        }
    }
}

impl DropdownPanelAnchor {
    /// The anchor for a button whose top left corner is past the middle of
    /// the room available horizontally (`past_half_x`) and vertically
    /// (`past_half_y`).
    pub fn for_position(past_half_x: bool, past_half_y: bool) -> (a: DropdownPanelAnchor)
        ensures
            a == anchor_for(past_half_x, past_half_y),
    {
        if past_half_x {
            if past_half_y {
                DropdownPanelAnchor::TopRight
            } else {
                DropdownPanelAnchor::BottomRight
            }
        } else {
            if past_half_y {
                DropdownPanelAnchor::TopLeft
            } else {
                DropdownPanelAnchor::BottomLeft
            }
        }
    }

    /// Whether the panel opens above the button (and its top is animated as
    /// it opens).
    pub fn opens_upward(&self) -> (r: bool)
        ensures
            r == (*self == DropdownPanelAnchor::TopLeft || *self == DropdownPanelAnchor::TopRight),
    {
        match self {
            DropdownPanelAnchor::TopLeft => true,
            DropdownPanelAnchor::TopRight => true,
            _ => false,
        }
    }
}

/// The options of a dropdown.
#[derive(Debug)]
pub struct DropdownOptions(pub Vec<String>);

/// An option of a dropdown: its dropdown, its label node and its index.
#[derive(Clone, Copy, Debug, PartialEq, Eq, Structural)]
pub struct DropdownOption {
    pub dropdown: Entity,
    pub label: Entity,
    pub option: usize,
}

impl Default for DropdownOption {
    fn default() -> (o: Self)
        ensures
            o.dropdown.0 == crate::entity::PLACEHOLDER_BITS,
            o.label.0 == crate::entity::PLACEHOLDER_BITS,
            o.option == 0,
    {
        DropdownOption {
            dropdown: Entity::placeholder(),
            label: Entity::placeholder(),
            option: 0,
        }
    }
}

impl DropdownOption {
    /// The context names of an option's nodes.
    pub fn contexts(&self) -> (names: Vec<&'static str>)
        ensures
            names_view(names@) == seq!["Label"@],
    {
        let names = vec![DROPDOWN_OPTION_LABEL];
        assert(names_view(names@) =~= seq!["Label"@]);
        names
    }

    /// The node of a context name, or the error that lists the names.
    pub fn get(&self, target: &str) -> (r: Result<Entity, String>)
        ensures
            context_outcome(r, target@, "DropdownOption"@, seq!["Label"@], seq![self.label]),
    {
        let names = self.contexts();
        let entities = vec![self.label];
        assert(entities@ =~= seq![self.label]);
        assert(names_view(names@).len() == names@.len());
        get_context(target, "DropdownOption", &names, &entities)
    }
}

/// The panel of a dropdown.
#[derive(Clone, Copy, Debug, PartialEq, Eq, Structural)]
pub struct DropdownPanel {
    pub dropdown: Entity,
}

impl Default for DropdownPanel {
    fn default() -> (p: Self)
        ensures
            p.dropdown.0 == crate::entity::PLACEHOLDER_BITS,
    {
        DropdownPanel { dropdown: Entity::placeholder() }
    }
}

/// A dropdown: its chosen option, its nodes, and whether its panel is open.
#[derive(Clone, Copy, Debug, PartialEq, Eq, Structural)]
pub struct Dropdown {
    pub value: Option<usize>,
    pub label: Entity,
    pub icon: Entity,
    pub panel: Entity,
    pub scroll_view: Entity,
    pub scroll_view_content: Entity,
    pub is_open: bool,
}

/// The context names of a dropdown's nodes.
pub open spec fn dropdown_context_names() -> Seq<Seq<char>> {
    seq!["Label"@, "Icon"@, "Panel"@, "ScrollView"@]
}

impl Default for Dropdown {
    fn default() -> (d: Self)
        ensures
            d.value is None,
            !d.is_open,
            d.label.0 == crate::entity::PLACEHOLDER_BITS,
            d.icon.0 == crate::entity::PLACEHOLDER_BITS,
            d.panel.0 == crate::entity::PLACEHOLDER_BITS,
            d.scroll_view.0 == crate::entity::PLACEHOLDER_BITS,
            d.scroll_view_content.0 == crate::entity::PLACEHOLDER_BITS,
    {
        Dropdown {
            value: None,
            label: Entity::placeholder(),
            icon: Entity::placeholder(),
            panel: Entity::placeholder(),
            scroll_view: Entity::placeholder(),
            scroll_view_content: Entity::placeholder(),
            is_open: false,
        }
    }
}

impl Dropdown {
    pub fn value(&self) -> (v: Option<usize>)
        ensures
            v == self.value,
    {
        self.value
    }

    /// The named nodes, in the order of `dropdown_context_names`.
    pub open spec fn context_entities(&self) -> Seq<Entity> {
        seq![self.label, self.icon, self.panel, self.scroll_view]
    }

    /// The context names of a dropdown's nodes.
    pub fn contexts(&self) -> (names: Vec<&'static str>)
        ensures
            names_view(names@) == dropdown_context_names(),
    {
        let names = vec![DROPDOWN_LABEL, DROPDOWN_ICON, DROPDOWN_PANEL, DROPDOWN_SCROLL_VIEW];
        assert(names_view(names@) =~= dropdown_context_names());
        names
    }

    /// The node of a context name, or the error that lists the names.
    pub fn get(&self, target: &str) -> (r: Result<Entity, String>)
        ensures
            context_outcome(r, target@, "Dropdown"@, dropdown_context_names(), self.context_entities()),
    {
        let names = self.contexts();
        let entities = vec![self.label, self.icon, self.panel, self.scroll_view];
        assert(entities@ =~= self.context_entities());
        assert(names_view(names@).len() == names@.len());
        get_context(target, "Dropdown", &names, &entities)
    }

    /// How the option panel is shown: displayed and inherited while open,
    /// collapsed and hidden while closed. (While open, the panel's scroll view
    /// is also disabled until it is laid out.)
    pub fn panel_display(&self) -> (r: (Display, Visibility))
        ensures
            r == if self.is_open {
                (Display::Flex, Visibility::Inherited)
            } else {
                (Display::Collapsed, Visibility::Hidden)
            },
    {
        if self.is_open {
            (Display::Flex, Visibility::Inherited)
        } else {
            (Display::Collapsed, Visibility::Hidden)
        }
    }
}

/// The value a dropdown keeps when it has `len` options: a value that points
/// past the options is dropped.
pub open spec fn valid_value(value: Option<usize>, len: nat) -> Option<usize> {
    match value {
        Some(v) => if v < len {
            Some(v)
        } else {
            None
        },
        None => None,
    }
}

/// The text of the dropdown's label: the chosen option, or `---`.
pub open spec fn label_text(value: Option<usize>, options: Seq<String>) -> Seq<char> {
    match value {
        Some(v) => options[v as int]@,
        None => "---"@,
    }
}

/// Drops a value that points past the options and gives back the text of the
/// dropdown's label.
pub fn update_dropdown_label(dropdown: &mut Dropdown, options: &DropdownOptions) -> (text: String)
    ensures
        final(dropdown).value == valid_value(old(dropdown).value, options.0@.len()),
        text@ == label_text(final(dropdown).value, options.0@),
        final(dropdown).label == old(dropdown).label,
        final(dropdown).icon == old(dropdown).icon,
        final(dropdown).panel == old(dropdown).panel,
        final(dropdown).scroll_view == old(dropdown).scroll_view,
        final(dropdown).scroll_view_content == old(dropdown).scroll_view_content,
        final(dropdown).is_open == old(dropdown).is_open,
{
    if let Some(value) = dropdown.value {
        if value >= options.0.len() {
            dropdown.value = None;
        }
    }
    match dropdown.value {
        Some(value) => options.0[value].clone(),
        None => String::from_str("---"),
    }
}

/// A completed press on an option chooses it for its dropdown.
pub fn handle_option_press(
    dropdown: &mut Dropdown,
    option: &DropdownOption,
    interaction: FluxInteraction,
)
    ensures
        *final(dropdown) == if interaction == FluxInteraction::Released {
            (Dropdown { value: Some(option.option), ..*old(dropdown) })
        } else {
            *old(dropdown)
        },
{
    if interaction == FluxInteraction::Released {
        dropdown.value = Some(option.option);
    }
}

/// The index of the first dropdown whose press completed, if any.
pub open spec fn first_released(interactions: Seq<FluxInteraction>) -> Option<int>
    decreases interactions.len(),
{
    if interactions.len() == 0 {
        None
    } else if interactions[0] == FluxInteraction::Released {
        Some(0)
    } else {
        match first_released(interactions.drop_first()) {
            Some(i) => Some(i + 1),
            None => None,
        }
    }
}

/// Whether dropdown `i` is open after a click or touch ended somewhere: the
/// first dropdown whose press completed flips, every other one closes.
pub open spec fn open_after_click(
    was_open: bool,
    i: int,
    interactions: Seq<FluxInteraction>,
) -> bool {
    match first_released(interactions) {
        Some(o) => if i == o {
            !was_open
        } else {
            false
        },
        None => false,
    }
}

proof fn lemma_first_released(interactions: Seq<FluxInteraction>, i: int)
    requires
        0 <= i <= interactions.len(),
        forall|j: int| 0 <= j < i ==> interactions[j] != FluxInteraction::Released,
    ensures
        i < interactions.len() && interactions[i] == FluxInteraction::Released ==> first_released(
            interactions,
        ) == Some(i),
        i == interactions.len() ==> first_released(interactions) is None,
    decreases i,
{
    if i > 0 {
        lemma_first_released(interactions.drop_first(), i - 1);
    }
}

proof fn lemma_first_released_is_released(interactions: Seq<FluxInteraction>)
    ensures
        first_released(interactions) matches Some(o) ==> 0 <= o < interactions.len()
            && interactions[o] == FluxInteraction::Released,
    decreases interactions.len(),
{
    if interactions.len() > 0 {
        lemma_first_released_is_released(interactions.drop_first());
    }
}

/// Opens and closes the dropdowns when a mouse button or a touch was released
/// this frame (as `buttons` and `touches` tell): the dropdown whose press
/// completed flips and every other one closes. Without such a release nothing
/// changes.
pub fn handle_click_or_touch(
    buttons: &Input<MouseButton>,
    touches: &Touches,
    dropdowns: &mut Vec<Dropdown>,
    interactions: &Vec<FluxInteraction>,
)
    requires
        old(dropdowns).len() == interactions.len(),
    ensures
        final(dropdowns).len() == old(dropdowns).len(),
        forall|i: int|
            0 <= i < final(dropdowns).len() ==> #[trigger] final(dropdowns)@[i] == if pointer_went_up(
                *buttons,
                *touches,
            ) {
                (Dropdown {
                    is_open: open_after_click(old(dropdowns)@[i].is_open, i, interactions@),
                    ..old(dropdowns)@[i]
                })
            } else {
                old(dropdowns)@[i]
            },
{
    if !pointer_released(buttons, touches) {
        return;
    }
    let ghost initial = dropdowns@;
    let mut found = false;
    let mut i: usize = 0;
    while i < interactions.len() && !found
        invariant
            i <= interactions.len(),
            forall|j: int| 0 <= j < i ==> interactions@[j] != FluxInteraction::Released,
            found ==> i < interactions.len() && interactions@[i as int] == FluxInteraction::Released,
        decreases (interactions.len() - i) * 2 + if found {
            0int
        } else {
            1int
        },
    {
        if interactions[i] == FluxInteraction::Released {
            found = true;
        } else {
            i = i + 1;
        }
    }
    proof {
        lemma_first_released(interactions@, i as int);
    }
    let open: Option<usize> = if found {
        Some(i)
    } else {
        None
    };
    assert(first_released(interactions@) == match open {
        Some(o) => Some(o as int),
        None => None::<int>,
    });
    let mut i: usize = 0;
    while i < dropdowns.len()
        invariant
            i <= dropdowns.len(),
            dropdowns.len() == initial.len(),
            initial.len() == interactions.len(),
            first_released(interactions@) == match open {
                Some(o) => Some(o as int),
                None => None::<int>,
            },
            forall|j: int|
                0 <= j < i ==> dropdowns@[j] == (Dropdown {
                    is_open: open_after_click(initial[j].is_open, j, interactions@),
                    ..initial[j]
                }),
            forall|j: int| i <= j < dropdowns.len() ==> dropdowns@[j] == initial[j],
        decreases dropdowns.len() - i,
    {
        let mut dropdown = dropdowns[i];
        match open {
            Some(o) => {
                if i == o {
                    dropdown.is_open = !dropdown.is_open;
                } else if dropdown.is_open {
                    dropdown.is_open = false;
                }
            },
            None => {
                if dropdown.is_open {
                    dropdown.is_open = false;
                }
            },
        }
        dropdowns.set(i, dropdown);
        i = i + 1;
    }
}

/// After a click or touch ends, at most one dropdown is open, and an open one
/// is the one whose press completed.
pub proof fn at_most_one_open_after_click(
    was_open: Seq<bool>,
    interactions: Seq<FluxInteraction>,
)
    requires
        was_open.len() == interactions.len(),
    ensures
        forall|i: int, j: int|
            0 <= i < was_open.len() && 0 <= j < was_open.len() && open_after_click(
                was_open[i],
                i,
                interactions,
            ) && open_after_click(was_open[j], j, interactions) ==> i == j,
        forall|i: int|
            0 <= i < was_open.len() && #[trigger] open_after_click(was_open[i], i, interactions)
                ==> interactions[i] == FluxInteraction::Released,
{
    lemma_first_released_is_released(interactions);
}

/// Choosing an option and then updating the label shows that option's text.
pub proof fn chosen_option_is_shown(dropdown: Dropdown, option: DropdownOption, options: Seq<String>)
    requires
        option.option < options.len(),
    ensures
        ({
            let chosen = Dropdown { value: Some(option.option), ..dropdown };
            let kept = valid_value(chosen.value, options.len());
            kept == Some(option.option) && label_text(kept, options) == options[option.option as int]@
        }),
{
}

/// Every context name that the dropdown lists leads a lookup to the node of that
/// name, so `get` answers each of them with its node.
pub proof fn dropdown_contexts_resolve(dropdown: Dropdown, i: int)
    requires
        0 <= i < 4,
    ensures
        context_lookup(
            dropdown_context_names(),
            dropdown.context_entities(),
            dropdown_context_names()[i],
        ) == Some(dropdown.context_entities()[i]),
{
    reveal_strlit("Label");
    reveal_strlit("Icon");
    reveal_strlit("Panel");
    reveal_strlit("ScrollView");
    let names = dropdown_context_names();
    assert(distinct_names(names)) by {
        assert forall|i: int, j: int|
            0 <= i < names.len() && 0 <= j < names.len() && i != j implies names[i] != names[j] by {
            if names[i].len() == names[j].len() {
                assert(names[i][0] != names[j][0]);
            }
        }
    }
    lemma_lookup_distinct(names, dropdown.context_entities(), i);
}

} // verus!
