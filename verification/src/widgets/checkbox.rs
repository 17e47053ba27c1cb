//! A checkbox: a box with a checkmark and a label that flips on every
//! completed press.
use vstd::prelude::*;

use crate::context::{
    context_lookup, context_outcome, distinct_names, get_context, lemma_lookup_distinct, names_view,
};
use crate::entity::Entity;
use crate::interaction::{FluxInteraction, Visibility};

verus! {

pub const CHECKMARK_BACKGROUND: &'static str = "CheckmarkBackground";
pub const CHECKMARK: &'static str = "Checkmark";
pub const LABEL: &'static str = "Label";

/// A checkbox and the nodes it is drawn with.
#[derive(Clone, Copy, Debug, PartialEq, Eq, Structural)]
pub struct Checkbox {
    pub checked: bool,
    pub checkmark_background: Entity,
    pub checkmark: Entity,
    pub label: Entity,
}

/// The context names of a checkbox's nodes.
pub open spec fn checkbox_context_names() -> Seq<Seq<char>> {
    seq!["CheckmarkBackground"@, "Checkmark"@, "Label"@]
}

impl Default for Checkbox {
    fn default() -> (c: Self)
        ensures
            !c.checked,
            c.checkmark_background.0 == crate::entity::PLACEHOLDER_BITS,
            c.checkmark.0 == crate::entity::PLACEHOLDER_BITS,
            c.label.0 == crate::entity::PLACEHOLDER_BITS,
    {
        Checkbox {
            checked: false,
            checkmark_background: Entity::placeholder(),
            checkmark: Entity::placeholder(),
            label: Entity::placeholder(),
        }
    }
}

impl Checkbox {
    /// The named nodes, in the order of `checkbox_context_names`.
    pub open spec fn context_entities(&self) -> Seq<Entity> {
        seq![self.checkmark_background, self.checkmark, self.label]
    }

    /// The context names of a checkbox's nodes.
    pub fn contexts() -> (names: Vec<&'static str>)
        ensures
            names_view(names@) == checkbox_context_names(),
    {
        let names = vec![CHECKMARK_BACKGROUND, CHECKMARK, LABEL];
        assert(names_view(names@) =~= checkbox_context_names());
        names
    }

    /// The node of a context name, or the error that lists the names.
    pub fn get(&self, target: &str) -> (r: Result<Entity, String>)
        ensures
            context_outcome(r, target@, "Checkbox"@, checkbox_context_names(), self.context_entities()),
    {
        let names = Checkbox::contexts();
        let entities = vec![self.checkmark_background, self.checkmark, self.label];
        assert(entities@ =~= self.context_entities());
        assert(names_view(names@).len() == names@.len());
        get_context(target, "Checkbox", &names, &entities)
    }

    /// How the checkmark is shown: inherited while checked, hidden otherwise.
    pub fn checkmark_visibility(&self) -> (v: Visibility)
        ensures
            v == if self.checked {
                Visibility::Inherited
            } else {
                Visibility::Hidden
            },
    {
        if self.checked {
            Visibility::Inherited
        } else {
            Visibility::Hidden
        }
    }
}

/// Whether a checkbox is checked after an interaction: a completed press (a
/// release over the checkbox) flips it, nothing else changes it.
pub open spec fn checked_after(checked: bool, interaction: FluxInteraction) -> bool {
    if interaction == FluxInteraction::Released {
        !checked
    } else {
        checked
    }
}

/// Applies one interaction to a checkbox.
pub fn toggle_checkbox(checkbox: &mut Checkbox, interaction: FluxInteraction)
    ensures
        final(checkbox).checked == checked_after(old(checkbox).checked, interaction),
        final(checkbox).checkmark_background == old(checkbox).checkmark_background,
        final(checkbox).checkmark == old(checkbox).checkmark,
        final(checkbox).label == old(checkbox).label,
{
    if interaction == FluxInteraction::Released {
        checkbox.checked = !checkbox.checked;
    }
}

/// Two completed presses leave a checkbox as it was.
pub proof fn double_toggle_restores(checked: bool, interaction: FluxInteraction)
    ensures
        checked_after(checked_after(checked, interaction), interaction) == checked,
{
}

/// Every context name that the checkbox lists leads a lookup to the node of that
/// name, so `get` answers each of them with its node.
pub proof fn checkbox_contexts_resolve(checkbox: Checkbox, i: int)
    requires
        0 <= i < 3,
    ensures
        context_lookup(
            checkbox_context_names(),
            checkbox.context_entities(),
            checkbox_context_names()[i],
        ) == Some(checkbox.context_entities()[i]),
{
    reveal_strlit("CheckmarkBackground");
    reveal_strlit("Checkmark");
    reveal_strlit("Label");
    let names = checkbox_context_names();
    assert(distinct_names(names)) by {
        assert forall|i: int, j: int|
            0 <= i < names.len() && 0 <= j < names.len() && i != j implies names[i] != names[j] by {
            assert(names[i].len() != names[j].len());
        }
    }
    lemma_lookup_distinct(names, checkbox.context_entities(), i);
}

} // verus!
