//! The first form of the radio group: buttons that show a check node, each
//! optionally tied to a group that keeps the index of the checked one.
use bevy::input::Input;
use vstd::prelude::*;

use crate::entity::Entity;
use crate::input::{ctrl_held, input_any_pressed, KeyCode};
use crate::interaction::{Display, FluxInteraction};
use crate::widgets::inputs::radio_group::{press_outcome, selection_for};

verus! {

/// The group: the index of the checked button, if any.
#[derive(Clone, Copy, Debug, PartialEq, Eq, Structural)]
pub struct RadioGroup {
    pub selected: Option<usize>,
}

impl Default for RadioGroup {
    fn default() -> (g: Self)
        ensures
            g.selected is None,
    {
        RadioGroup { selected: None }
    }
}

/// One button and the node that shows its check.
#[derive(Clone, Copy, Debug, PartialEq, Eq, Structural)]
pub struct RadioButton {
    pub index: usize,
    pub checked: bool,
    pub unselectable: bool,
    pub check_node: Entity,
    pub group: Option<Entity>,
}

impl Default for RadioButton {
    fn default() -> (b: Self)
        ensures
            b.index == 0,
            !b.checked,
            !b.unselectable,
            b.check_node.0 == crate::entity::PLACEHOLDER_BITS,
            b.group is None,
    {
        RadioButton {
            index: 0,
            checked: false,
            unselectable: false,
            check_node: Entity::placeholder(),
            group: None,
        }
    }
}

impl RadioButton {
    /// How the check node is displayed: shown while checked, collapsed
    /// otherwise.
    pub fn check_display(&self) -> (d: Display)
        ensures
            d == if self.checked {
                Display::Flex
            } else {
                Display::Collapsed
            },
    {
        if self.checked {
            Display::Flex
        } else {
            Display::Collapsed
        }
    }
}

/// Applies an interaction to a button; here a completed press (a release)
/// is what counts. When the button's check changes and it belongs to a group,
/// gives back the selection the group takes.
pub fn toggle_radio_button(
    button: &mut RadioButton,
    interaction: FluxInteraction,
    keys: &Input<KeyCode>,
) -> (selection: Option<Option<usize>>)
    ensures
        ({
            let outcome = press_outcome(old(button).checked, old(button).unselectable, ctrl_held(*keys));
            if interaction == FluxInteraction::Released && outcome is Some {
                &&& final(button).checked == outcome->0
                &&& selection == if old(button).group is Some {
                    Some(selection_for(old(button).index, outcome->0))
                } else {
                    None
                }
            } else {
                &&& final(button).checked == old(button).checked
                &&& selection is None
            }
        }),
        final(button).index == old(button).index,
        final(button).unselectable == old(button).unselectable,
        final(button).check_node == old(button).check_node,
        final(button).group == old(button).group,
{
    if interaction != FluxInteraction::Released {
        return None;
    }
    let mut changed = false;
    if button.checked && button.unselectable && input_any_pressed(
        keys,
        KeyCode::ControlLeft,
        KeyCode::ControlRight,
    ) {
        button.checked = false;
        changed = true;
    } else if !button.checked {
        button.checked = true;
        changed = true;
    }
    if !changed || button.group.is_none() {
        return None;
    }
    if button.checked {
        Some(Some(button.index))
    } else {
        Some(None)
    }
}

/// A button as the group's selection leaves it.
pub open spec fn synced(selected: Option<usize>, button: RadioButton) -> RadioButton {
    RadioButton { checked: selected == Some(button.index), ..button }
}

/// Makes the buttons of a group agree with its selection.
pub fn update_radio_group_buttons(group: &RadioGroup, buttons: &mut Vec<RadioButton>)
    ensures
        final(buttons)@ == old(buttons)@.map_values(|b: RadioButton| synced(group.selected, b)),
{
    let ghost initial = buttons@;
    let mut i: usize = 0;
    while i < buttons.len()
        invariant
            i <= buttons.len(),
            buttons.len() == initial.len(),
            forall|j: int| 0 <= j < i ==> buttons@[j] == synced(group.selected, initial[j]),
            forall|j: int| i <= j < buttons.len() ==> buttons@[j] == initial[j],
        decreases buttons.len() - i,
    {
        let mut button = buttons[i];
        let checked = group.selected == Some(button.index);
        if button.checked != checked {
            button.checked = checked;
        }
        buttons.set(i, button);
        i = i + 1;
    }
    assert(buttons@ =~= initial.map_values(|b: RadioButton| synced(group.selected, b)));
}

} // verus!
