//! A small plugin framework: one instance of application state, created when
//! the host signals initialization and handed to every later host callback.

pub mod gamepad;
pub mod handler;
pub mod hook;
pub mod input;
pub mod plugin;
pub mod update;

pub use gamepad::{Port, State};
pub use handler::Handler;
pub use hook::chain_after;
pub use input::OnInput;
pub use plugin::Plugin;
pub use update::OnUpdate;
