//! Session management for a terminal application served to many remote
//! clients at once: input decoding, the per-client menu and sign-in state
//! machine, the buffered screen sink, and the registry of live sessions.

pub mod channel;
pub mod client_handler;
pub mod decimal;
pub mod decoder;
pub mod keys;
pub mod menus;
pub mod pokemon;
pub mod server;
pub mod session;
pub mod state_machine;
pub mod ui;
pub mod ui_tooling;
pub mod user_management;
