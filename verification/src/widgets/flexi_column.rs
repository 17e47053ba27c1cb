//! Flexible columns: columns that share their container's room by percent
//! and are resized against each other by the handles between them.
use vstd::prelude::*;

use crate::entity::Entity;
use crate::widgets::flexi::{
    handle_updates, handles_on_collection, unique_entities, without_repeats, FlexiChild,
    FlexiHandleUpdate,
};

verus! {

/// A resize handle of a flexible column: the column it belongs to and the
/// neighbour it resizes against.
#[derive(Clone, Copy, Debug, PartialEq, Eq, Structural)]
pub struct FlexiColumnResizeHandle {
    pub flexi_column: Option<Entity>,
    pub neighbour: Option<Entity>,
}

impl Default for FlexiColumnResizeHandle {
    fn default() -> (h: Self)
        ensures
            h.flexi_column is None,
            h.neighbour is None,
    {
        FlexiColumnResizeHandle { flexi_column: None, neighbour: None }
    }
}

/// The parents whose flexible columns are laid out, each once.
pub fn update_flexi_column_resize_handles(parents: &Vec<Entity>) -> (r: Vec<Entity>)
    ensures
        r@ == without_repeats(parents@),
{
    unique_entities(parents)
}

/// The handle updates of the children of one container (see
/// `handle_updates`: the first handle is the left one, the second the
/// right one).
pub fn update_flexi_column_handles_on_collection(children: &Vec<FlexiChild>) -> (updates: Vec<
    FlexiHandleUpdate,
>)
    ensures
        updates@ == handle_updates(children@),
{
    handles_on_collection(children)
}

/// Applies a handle update with neighbours to the left and right
/// handles of its column.
pub fn assign_handle_neighbours(
    update: &FlexiHandleUpdate,
    left: &mut FlexiColumnResizeHandle,
    right: &mut FlexiColumnResizeHandle,
)
    ensures
        update.assign_neighbours ==> *final(left) == (FlexiColumnResizeHandle {
            flexi_column: Some(update.flexi),
            neighbour: update.first_neighbour,
        }) && *final(right) == (FlexiColumnResizeHandle {
            flexi_column: Some(update.flexi),
            neighbour: update.second_neighbour,
        }),
        !update.assign_neighbours ==> *final(left) == *old(left) && *final(right)
            == *old(right),
{
    if update.assign_neighbours {
        left.flexi_column = Some(update.flexi);
        left.neighbour = update.first_neighbour;
        right.flexi_column = Some(update.flexi);
        right.neighbour = update.second_neighbour;
    }
}

} // verus!
