//! Flexible rows: rows that share their container's room by percent
//! and are resized against each other by the handles between them.
use vstd::prelude::*;

use crate::entity::Entity;
use crate::widgets::flexi::{
    handle_updates, handles_on_collection, unique_entities, without_repeats, FlexiChild,
    FlexiHandleUpdate,
};

verus! {

/// A resize handle of a flexible row: the row it belongs to and the
/// neighbour it resizes against.
#[derive(Clone, Copy, Debug, PartialEq, Eq, Structural)]
pub struct FlexiRowResizeHandle {
    pub flexi_row: Option<Entity>,
    pub neighbour: Option<Entity>,
}

impl Default for FlexiRowResizeHandle {
    fn default() -> (h: Self)
        ensures
            h.flexi_row is None,
            h.neighbour is None,
    {
        FlexiRowResizeHandle { flexi_row: None, neighbour: None }
    }
}

/// The parents whose flexible rows are laid out, each once.
pub fn update_flexi_row_resize_handles(parents: &Vec<Entity>) -> (r: Vec<Entity>)
    ensures
        r@ == without_repeats(parents@),
{
    unique_entities(parents)
}

/// The handle updates of the children of one container (see
/// `handle_updates`: the first handle is the top one, the second the
/// bottom one).
pub fn update_flexi_row_handles_on_collection(children: &Vec<FlexiChild>) -> (updates: Vec<
    FlexiHandleUpdate,
>)
    ensures
        updates@ == handle_updates(children@),
{
    handles_on_collection(children)
}

/// Applies a handle update with neighbours to the top and bottom
/// handles of its row.
pub fn assign_handle_neighbours(
    update: &FlexiHandleUpdate,
    top: &mut FlexiRowResizeHandle,
    bottom: &mut FlexiRowResizeHandle,
)
    ensures
        update.assign_neighbours ==> *final(top) == (FlexiRowResizeHandle {
            flexi_row: Some(update.flexi),
            neighbour: update.first_neighbour,
        }) && *final(bottom) == (FlexiRowResizeHandle {
            flexi_row: Some(update.flexi),
            neighbour: update.second_neighbour,
        }),
        !update.assign_neighbours ==> *final(top) == *old(top) && *final(bottom)
            == *old(bottom),
{
    if update.assign_neighbours {
        top.flexi_row = Some(update.flexi);
        top.neighbour = update.first_neighbour;
        bottom.flexi_row = Some(update.flexi);
        bottom.neighbour = update.second_neighbour;
    }
}

} // verus!
