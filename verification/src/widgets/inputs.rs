//! Input widgets.
pub mod radio_group;
