//! Layout widgets.
pub mod foldable;
