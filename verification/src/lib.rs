//! A console output gateway for a command-line tool.
//!
//! Messages are gated by a verbosity level and laid out as a label, which a
//! status line right-justifies to twelve columns, followed by the message.
//! The destination is either the diagnostic terminal, where the label is
//! styled in bold colour while the process-wide colour switch is on, or a
//! captured sink, where it never is.
//!
//! A destination keeps what was put into it as text. Carrying that text out
//! to a device is left to the owner of the gateway, who takes it through
//! `Shell::err`; nothing in this crate performs a write that can fail.

pub mod gateway;
pub mod render;
pub mod style;

pub use gateway::{ColorChoice, Shell, ShellError, ShellOut, Verbosity};
pub use style::Color;
