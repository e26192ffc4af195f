//! A project switcher: resolves which project a command refers to, picks the
//! shell snippet configured for it, and fills in the snippet's placeholders.

pub mod args;
pub mod command;
pub mod config;
pub mod constants;
pub mod errors;
pub mod external;
pub mod handlers;
pub mod keyed;
pub mod state;
pub mod text;
pub mod value;
