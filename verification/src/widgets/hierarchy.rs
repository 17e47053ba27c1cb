//! Moving a node under another parent once it is spawned.
use vstd::prelude::*;

use crate::entity::Entity;

verus! {

/// A request to move a node under `parent`, or to the root when `None`.
#[derive(Clone, Copy, Debug, PartialEq, Eq, Structural)]
pub struct MoveToParent {
    pub parent: Option<Entity>,
}

impl Default for MoveToParent {
    fn default() -> (m: Self)
        ensures
            m.parent is None,
    {
        MoveToParent { parent: None }
    }
}

} // verus!
