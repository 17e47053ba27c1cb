//! The decision logic of the sickle UI widget library: what each widget does
//! with the interactions, key presses and hierarchy changes it is handed, stated
//! over plain values so that every rule is checked by Verus.
use vstd::prelude::*;

pub mod context;
pub mod entity;
pub mod input;
pub mod interaction;
pub mod widgets;

verus! {

} // verus!
