//! System-wide hotkeys: a catalog of physical keys, a registry of callbacks
//! keyed by them, the decisions of the thread that owns the operating
//! system's keyboard hook, and the order in which callbacks run.
pub mod dispatch;
pub mod error;
pub mod hook_thread;
pub mod key_code;
pub mod registry;

pub use error::{Error, Result};
pub use key_code::KeyCode;
pub use registry::Registry;
