//! Tray menu of a desktop application: the menu item keys, the menu that the
//! tray shows, and the action that each tray event calls for.
pub mod menu_id;
pub mod menu;
pub mod dispatch;
