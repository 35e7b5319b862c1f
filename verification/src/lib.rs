//! Text access to the Android clipboard.
//!
//! The platform's clipboard manager is reached through the Java Native
//! Interface. Which calls cross that bridge, in which order, and what each
//! answer means for the caller is decided by [`protocol::Session`], a value
//! that knows nothing of the bridge itself. [`invocation`] is the table of
//! the Java methods behind those calls. [`set_text`], [`get_text`] and
//! [`clear`] run a session against a Java virtual machine.
//!
//! [`laws`] holds what is true of every session whatever the bridge answers,
//! and [`platform`] what the three operations amount to against a clipboard
//! manager that does as it is asked.

pub mod bridge;
pub mod error;
pub mod invocation;
pub mod laws;
pub mod outside;
pub mod platform;
pub mod protocol;

pub use bridge::{clear, get_text, set_text};
pub use error::ClipboardError;
