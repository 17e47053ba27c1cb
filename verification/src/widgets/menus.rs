//! The menu widgets.
pub mod menu_item;
pub mod toggle_menu_item;
