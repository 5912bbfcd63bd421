//! Conveniences for command-line tools: annotating I/O failures with the
//! operation and path involved, and reading from a named file or from
//! standard input through one handle.
pub mod context;
pub mod input;

pub use context::{context_message, ContextError, IoContext, IoOp};
pub use input::Input;
