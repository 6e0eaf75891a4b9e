//! A small chat bot's logic: its configuration, the registry that turns
//! configured names into commands, the replies of each command, and the
//! operator console.

pub mod config;
pub mod console;
pub mod handlers;
pub mod registry;
pub mod text;
