//! A foldable: a button that shows or hides a container below it.
use vstd::prelude::*;

use crate::context::{
    context_lookup, context_outcome, distinct_names, get_context, lemma_lookup_distinct, names_view,
};
use crate::entity::Entity;
use crate::interaction::FluxInteraction;

verus! {

pub const BUTTON_ICON: &'static str = "ButtonIcon";
pub const BUTTON_LABEL: &'static str = "ButtonLabel";
pub const CONTAINER: &'static str = "Container";

/// The context names of a foldable's nodes.
pub open spec fn foldable_context_names() -> Seq<Seq<char>> {
    seq!["ButtonIcon"@, "ButtonLabel"@, "Container"@]
}

/// A foldable: whether it is open, whether it has nothing to show, and its
/// nodes.
#[derive(Clone, Copy, Debug, PartialEq, Eq, Structural)]
pub struct Foldable {
    pub open: bool,
    pub empty: bool,
    pub icon: Entity,
    pub label: Entity,
    pub container: Entity,
}

impl Default for Foldable {
    fn default() -> (f: Self)
        ensures
            !f.open,
            !f.empty,
            f.icon.0 == crate::entity::PLACEHOLDER_BITS,
            f.label.0 == crate::entity::PLACEHOLDER_BITS,
            f.container.0 == crate::entity::PLACEHOLDER_BITS,
    {
        Foldable {
            open: false,
            empty: false,
            icon: Entity::placeholder(),
            label: Entity::placeholder(),
            container: Entity::placeholder(),
        }
    }
}

impl Foldable {
    pub fn container(&self) -> (e: Entity)
        ensures
            e == self.container,
    {
        self.container
    }

    /// The named nodes, in the order of `foldable_context_names`.
    pub open spec fn context_entities(&self) -> Seq<Entity> {
        seq![self.icon, self.label, self.container]
    }

    /// The context names of a foldable's nodes.
    pub fn contexts(&self) -> (names: Vec<&'static str>)
        ensures
            names_view(names@) == foldable_context_names(),
    {
        let names = vec![BUTTON_ICON, BUTTON_LABEL, CONTAINER];
        assert(names_view(names@) =~= foldable_context_names());
        names
    }

    /// The node of a context name, or the error that lists the names.
    pub fn get(&self, target: &str) -> (r: Result<Entity, String>)
        ensures
            context_outcome(r, target@, "Foldable"@, foldable_context_names(), self.context_entities()),
    {
        let names = self.contexts();
        let entities = vec![self.icon, self.label, self.container];
        assert(entities@ =~= self.context_entities());
        assert(names_view(names@).len() == names@.len());
        get_context(target, "Foldable", &names, &entities)
    }

    /// The pseudo states the foldable shows, as (`Empty`, `Folded`): an empty
    /// foldable is `Empty` and never `Folded`; any other is `Folded` exactly
    /// when it is closed.
    pub fn pseudo_states(&self) -> (r: (bool, bool))
        ensures
            r == if self.empty {
                (true, false)
            } else {
                (false, !self.open)
            },
    {
        if self.empty {
            (true, false)
        } else {
            (false, !self.open)
        }
    }
}

/// The index of the first completed press, if any.
pub open spec fn first_release(interactions: Seq<FluxInteraction>) -> Option<int>
    decreases interactions.len(),
{
    if interactions.len() == 0 {
        None
    } else if interactions[0] == FluxInteraction::Released {
        Some(0)
    } else {
        match first_release(interactions.drop_first()) {
            Some(i) => Some(i + 1),
            None => None,
        }
    }
}

proof fn lemma_first_release(interactions: Seq<FluxInteraction>, i: int)
    requires
        0 <= i <= interactions.len(),
        forall|j: int| 0 <= j < i ==> interactions[j] != FluxInteraction::Released,
    ensures
        i < interactions.len() && interactions[i] == FluxInteraction::Released ==> first_release(
            interactions,
        ) == Some(i),
        i == interactions.len() ==> first_release(interactions) is None,
    decreases i,
{
    if i > 0 {
        lemma_first_release(interactions.drop_first(), i - 1);
    }
}

/// A completed press on a foldable's button flips it; at most one foldable
/// is flipped in a frame, the first one released.
pub fn handle_foldable_button_press(foldables: &mut Vec<Foldable>, interactions: &Vec<FluxInteraction>)
    requires
        old(foldables).len() == interactions.len(),
    ensures
        final(foldables).len() == old(foldables).len(),
        forall|i: int|
            0 <= i < final(foldables).len() ==> #[trigger] final(foldables)@[i] == if first_release(
                interactions@,
            ) == Some(i) {
                (Foldable { open: !old(foldables)@[i].open, ..old(foldables)@[i] })
            } else {
                old(foldables)@[i]
            },
{
    let ghost initial = foldables@;
    let mut i: usize = 0;
    while i < interactions.len()
        invariant
            i <= interactions.len(),
            foldables.len() == interactions.len(),
            foldables@ == initial,
            initial == old(foldables)@,
            forall|j: int| 0 <= j < i ==> interactions@[j] != FluxInteraction::Released,
        decreases interactions.len() - i,
    {
        if interactions[i].is_released() {
            proof {
                lemma_first_release(interactions@, i as int);
            }
            let mut foldable = foldables[i];
            foldable.open = !foldable.open;
            foldables.set(i, foldable);
            return;
        }
        i = i + 1;
    }
    proof {
        lemma_first_release(interactions@, i as int);
    }
}

/// Every context name that the foldable lists leads a lookup to the node of that
/// name, so `get` answers each of them with its node.
pub proof fn foldable_contexts_resolve(foldable: Foldable, i: int)
    requires
        0 <= i < 3,
    ensures
        context_lookup(
            foldable_context_names(),
            foldable.context_entities(),
            foldable_context_names()[i],
        ) == Some(foldable.context_entities()[i]),
{
    reveal_strlit("ButtonIcon");
    reveal_strlit("ButtonLabel");
    reveal_strlit("Container");
    let names = foldable_context_names();
    assert(distinct_names(names)) by {
        assert forall|i: int, j: int|
            0 <= i < names.len() && 0 <= j < names.len() && i != j implies names[i] != names[j] by {
            assert(names[i].len() != names[j].len());
        }
    }
    lemma_lookup_distinct(names, foldable.context_entities(), i);
}

} // verus!
