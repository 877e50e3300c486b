//! Attachment and memory-access core of a process-inspection tool.
//!
//! A [`process::ProcessManager`] attaches to one running process at a time and
//! reads or writes its memory, either directly through the operating system's
//! debugging primitives (native mode) or by delegating every primitive to a
//! dynamically loaded extension module (extension mode).  The mode is fixed
//! once, at construction, and never re-evaluated per call.

pub mod error;
pub mod field;
pub mod process;
pub mod region;
pub mod window;

use vstd::prelude::*;

verus! {

} // verus!
