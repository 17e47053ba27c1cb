//! The widgets.
pub mod resize_handles;
pub mod checkbox;
pub mod inputs;
pub mod radio_group;
pub mod dropdown;
pub mod tab_container;
pub mod menu_item;
pub mod menu;
pub mod menus;
pub mod toggle_menu_item;
pub mod submenu;
pub mod layout;
pub mod scroll_container;
pub mod floating_panel;
pub mod docking_zone;
pub mod flexi;
pub mod flexi_row;
pub mod flexi_column;
pub mod panel;
pub mod hierarchy;
