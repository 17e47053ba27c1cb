//! A panel: a titled container of content.
use vstd::prelude::*;

use crate::entity::Entity;

verus! {

/// A panel: its own entity and its title.
pub struct Panel {
    pub own_id: Entity,
    pub title: String,
}

impl Default for Panel {
    fn default() -> (p: Self)
        ensures
            p.own_id.0 == crate::entity::PLACEHOLDER_BITS,
            p.title@ == Seq::<char>::empty(),
    {
        Panel { own_id: Entity::placeholder(), title: String::new() }
    }
}

impl Panel {
    pub fn own_id(&self) -> (e: Entity)
        ensures
            e == self.own_id,
    {
        self.own_id
    }

    pub fn title(&self) -> (t: String)
        ensures
            t@ == self.title@,
    {
        self.title.clone()
    }
}

} // verus!
