//! Adds two integers and writes a greeting into a caller-supplied,
//! zero-terminated byte buffer, the shape of a C calling convention, with
//! every bound on that buffer checked and proved.
//!
//! - `buffer`: buffers of C characters and the text they hold.
//! - `message`: the pieces of the message an add function writes.
//! - `add`: the add function, in the variants a caller may link against.
//! - `harness`: one call as a caller makes it, from label to message.
//! - `loader`: the decisions of loading an add function at run time.
pub mod add;
pub mod buffer;
pub mod harness;
pub mod loader;
pub mod message;

pub use add::{cdylib_add, linked_add, staticlib_add, AddError, Linkage};
pub use buffer::{buf, read_message};
pub use harness::{run_variant, CallReport};
pub use loader::{library_path, loader_start, loader_step, HostOs, LoadError, LoaderAction, LoaderState};
