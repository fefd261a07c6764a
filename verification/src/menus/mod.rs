//! The menus of the served application and the sign-in flow behind them.

pub mod auth_menu;
pub mod menu_system;
