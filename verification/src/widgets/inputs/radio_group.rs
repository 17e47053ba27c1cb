//! A radio group: buttons of which at most one is checked, the group keeping
//! the index of the checked one.
use bevy::input::Input;
use vstd::prelude::*;

use crate::context::{
    context_lookup, context_outcome, distinct_names, get_context, lemma_lookup_distinct, names_view,
};
use crate::entity::Entity;
use crate::input::{ctrl_held, input_any_pressed, KeyCode};
use crate::interaction::{FluxInteraction, PseudoState, Visibility};

verus! {

pub const RADIOMARK_BACKGROUND: &'static str = "RadiomarkBackground";
pub const RADIOMARK: &'static str = "Radiomark";
pub const LABEL: &'static str = "Label";

/// The group: the index of the checked button, if any.
#[derive(Clone, Copy, Debug, PartialEq, Eq, Structural)]
pub struct RadioGroup {
    pub selected: Option<usize>,
}

impl Default for RadioGroup {
    fn default() -> (g: Self)
        ensures
            g.selected is None,
    {
        RadioGroup { selected: None }
    }
}

impl RadioGroup {
    pub fn selected(&self) -> (s: Option<usize>)
        ensures
            s == self.selected,
    {
        self.selected
    }

    /// Selects the button of index `value`, or none.
    pub fn select(&mut self, value: Option<usize>)
        ensures
            final(self).selected == value,
    {
        if self.selected != value {
            self.selected = value;
        }
    }
}

/// One button of a radio group and the nodes it is drawn with.
#[derive(Clone, Copy, Debug, PartialEq, Eq, Structural)]
pub struct RadioButton {
    pub index: usize,
    pub checked: bool,
    /// Whether a checked button can be unchecked (by a press with Ctrl held).
    pub unselectable: bool,
    pub group: Entity,
    pub radiomark_background: Entity,
    pub radiomark: Entity,
    pub label: Entity,
}

/// The context names of a radio button's nodes.
pub open spec fn radio_button_context_names() -> Seq<Seq<char>> {
    seq!["RadiomarkBackground"@, "Radiomark"@, "Label"@]
}

impl Default for RadioButton {
    fn default() -> (b: Self)
        ensures
            b.index == 0,
            !b.checked,
            !b.unselectable,
            b.group.0 == crate::entity::PLACEHOLDER_BITS,
            b.radiomark_background.0 == crate::entity::PLACEHOLDER_BITS,
            b.radiomark.0 == crate::entity::PLACEHOLDER_BITS,
            b.label.0 == crate::entity::PLACEHOLDER_BITS,
    {
        RadioButton {
            index: 0,
            checked: false,
            unselectable: false,
            group: Entity::placeholder(),
            radiomark_background: Entity::placeholder(),
            radiomark: Entity::placeholder(),
            label: Entity::placeholder(),
        }
    }
}

impl RadioButton {
    /// The named nodes, in the order of `radio_button_context_names`.
    pub open spec fn context_entities(&self) -> Seq<Entity> {
        seq![self.radiomark_background, self.radiomark, self.label]
    }

    /// The context names of a radio button's nodes.
    pub fn contexts(&self) -> (names: Vec<&'static str>)
        ensures
            names_view(names@) == radio_button_context_names(),
    {
        let names = vec![RADIOMARK_BACKGROUND, RADIOMARK, LABEL];
        assert(names_view(names@) =~= radio_button_context_names());
        names
    }

    /// The node of a context name, or the error that lists the names.
    pub fn get(&self, target: &str) -> (r: Result<Entity, String>)
        ensures
            context_outcome(
                r,
                target@,
                "RadioButton"@,
                radio_button_context_names(),
                self.context_entities(),
            ),
    {
        let names = self.contexts();
        let entities = vec![self.radiomark_background, self.radiomark, self.label];
        assert(entities@ =~= self.context_entities());
        assert(names_view(names@).len() == names@.len());
        get_context(target, "RadioButton", &names, &entities)
    }

    /// The pseudo state the button takes: `Checked` while checked, none
    /// otherwise.
    pub fn pseudo_state(&self) -> (state: Option<PseudoState>)
        ensures
            state == if self.checked {
                Some(PseudoState::Checked)
            } else {
                None
            },
    {
        if self.checked {
            Some(PseudoState::Checked)
        } else {
            None
        }
    }

    /// How the radio mark is shown: inherited while checked, hidden otherwise.
    pub fn radiomark_visibility(&self) -> (v: Visibility)
        ensures
            v == if self.checked {
                Visibility::Inherited
            } else {
                Visibility::Hidden
            },
    {
        if self.checked {
            Visibility::Inherited
        } else {
            Visibility::Hidden
        }
    }
}

/// What a press does to a button's check: a checked button that can be
/// unselected is unchecked when Ctrl is held, an unchecked button is checked,
/// and in every other case nothing changes (`None`).
pub open spec fn press_outcome(checked: bool, unselectable: bool, ctrl_pressed: bool) -> Option<
    bool,
> {
    if checked && unselectable && ctrl_pressed {
        Some(false)
    } else if !checked {
        Some(true)
    } else {
        None
    }
}

/// The group's selection after a button's check changed to `checked`.
pub open spec fn selection_for(index: usize, checked: bool) -> Option<usize> {
    if checked {
        Some(index)
    } else {
        None
    }
}

/// Applies an interaction to a button. On a press that changes the button's
/// check, gives back the selection its group takes (`Some`); otherwise `None`.
pub fn toggle_radio_button(
    button: &mut RadioButton,
    interaction: FluxInteraction,
    keys: &Input<KeyCode>,
) -> (selection: Option<Option<usize>>)
    ensures
        ({
            let outcome = press_outcome(old(button).checked, old(button).unselectable, ctrl_held(*keys));
            if interaction == FluxInteraction::Pressed && outcome is Some {
                &&& final(button).checked == outcome->0
                &&& selection == Some(selection_for(old(button).index, outcome->0))
            } else {
                &&& final(button).checked == old(button).checked
                &&& selection is None
            }
        }),
        final(button).index == old(button).index,
        final(button).unselectable == old(button).unselectable,
        final(button).group == old(button).group,
        final(button).radiomark_background == old(button).radiomark_background,
        final(button).radiomark == old(button).radiomark,
        final(button).label == old(button).label,
{
    if interaction != FluxInteraction::Pressed {
        return None;
    }
    let mut changed = false;
    if button.checked && button.unselectable && input_any_pressed(
        keys,
        KeyCode::ControlLeft,
        KeyCode::ControlRight,
    ) {
        button.checked = false;
        changed = true;
    } else if !button.checked {
        button.checked = true;
        changed = true;
    }
    if !changed {
        return None;
    }
    if button.checked {
        Some(Some(button.index))
    } else {
        Some(None)
    }
}

/// A button as the group's selection leaves it: checked exactly when the
/// group selects its index.
pub open spec fn synced(selected: Option<usize>, button: RadioButton) -> RadioButton {
    RadioButton { checked: selected == Some(button.index), ..button }
}

/// Makes the buttons of a group agree with its selection.
pub fn update_radio_group_buttons(group: &RadioGroup, buttons: &mut Vec<RadioButton>)
    ensures
        final(buttons)@ == old(buttons)@.map_values(|b: RadioButton| synced(group.selected, b)),
{
    let ghost initial = buttons@;
    let mut i: usize = 0;
    while i < buttons.len()
        invariant
            i <= buttons.len(),
            buttons.len() == initial.len(),
            forall|j: int| 0 <= j < i ==> buttons@[j] == synced(group.selected, initial[j]),
            forall|j: int| i <= j < buttons.len() ==> buttons@[j] == initial[j],
        decreases buttons.len() - i,
    {
        let mut button = buttons[i];
        let checked = group.selected == Some(button.index);
        if button.checked != checked {
            button.checked = checked;
        }
        buttons.set(i, button);
        i = i + 1;
    }
    assert(buttons@ =~= initial.map_values(|b: RadioButton| synced(group.selected, b)));
}

/// Whether no two buttons share an index.
pub open spec fn distinct_indices(buttons: Seq<RadioButton>) -> bool {
    forall|i: int, j: int|
        0 <= i < buttons.len() && 0 <= j < buttons.len() && i != j ==> buttons[i].index
            != buttons[j].index
}

/// Once synced with the group, buttons with distinct indices have at most one
/// checked, and that one carries the selected index.
pub proof fn synced_buttons_exclusive(selected: Option<usize>, buttons: Seq<RadioButton>)
    requires
        distinct_indices(buttons),
    ensures
        forall|i: int, j: int|
            0 <= i < buttons.len() && 0 <= j < buttons.len() && synced(selected, buttons[i]).checked
                && synced(selected, buttons[j]).checked ==> i == j,
        forall|i: int|
            0 <= i < buttons.len() && #[trigger] synced(selected, buttons[i]).checked ==> selected
                == Some(buttons[i].index),
{
}

/// Pressing an unchecked button selects it in the group, and once the group's
/// buttons are synced it is the only one checked.
pub proof fn press_selects_only_that_button(
    buttons: Seq<RadioButton>,
    k: int,
    ctrl_pressed: bool,
)
    requires
        distinct_indices(buttons),
        0 <= k < buttons.len(),
        !buttons[k].checked,
    ensures
        press_outcome(buttons[k].checked, buttons[k].unselectable, ctrl_pressed) == Some(true),
        ({
            let selected = selection_for(buttons[k].index, true);
            forall|j: int|
                0 <= j < buttons.len() ==> (#[trigger] synced(selected, buttons[j]).checked <==> j
                    == k)
        }),
{
}

/// Every context name that the radio button lists leads a lookup to the node of that
/// name, so `get` answers each of them with its node.
pub proof fn radio_button_contexts_resolve(button: RadioButton, i: int)
    requires
        0 <= i < 3,
    ensures
        context_lookup(
            radio_button_context_names(),
            button.context_entities(),
            radio_button_context_names()[i],
        ) == Some(button.context_entities()[i]),
{
    reveal_strlit("RadiomarkBackground");
    reveal_strlit("Radiomark");
    reveal_strlit("Label");
    let names = radio_button_context_names();
    assert(distinct_names(names)) by {
        assert forall|i: int, j: int|
            0 <= i < names.len() && 0 <= j < names.len() && i != j implies names[i] != names[j] by {
            assert(names[i].len() != names[j].len());
        }
    }
    lemma_lookup_distinct(names, button.context_entities(), i);
}

} // verus!
