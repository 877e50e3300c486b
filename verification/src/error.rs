//! Error taxonomy of the attachment core.

use vstd::prelude::*;

verus! {

/// Everything that can go wrong while constructing a manager, attaching to a
/// process, or accessing its memory.
///
/// Construction-time failures (`PluginMissing`, `PluginLoad`) abort manager
/// creation; attach-time failures (`AttachRejected`, `ProcessOpen`,
/// `RegionQuery`) leave the manager detached or unchanged and can be retried;
/// access failures (`ReadFailed`, `WriteFailed`, `NameLookup`) are recoverable
/// per call.
#[derive(Clone, Copy, Debug, PartialEq, Eq, Structural)]
pub enum ProcessError {
    /// A plugin path was explicitly configured, but no file exists there.
    PluginMissing,
    /// The plugin module could not be loaded or misses a required entry point.
    PluginLoad,
    /// The extension module's attach entry point returned this non-zero status.
    AttachRejected(u32),
    /// The operating system refused to open the target process.
    ProcessOpen,
    /// The target's memory-region table could not be enumerated.
    RegionQuery,
    /// A memory read failed.
    ReadFailed,
    /// A memory write failed.
    WriteFailed,
    /// The target's display name could not be determined.
    NameLookup,
}

impl ProcessError {
    /// A short human-readable description, for the surrounding application to
    /// show to the user.
    pub fn describe(&self) -> (r: &'static str) {
        match self {
            ProcessError::PluginMissing => "failed to load plugin: path does not exist",
            ProcessError::PluginLoad => "failed to load plugin module",
            ProcessError::AttachRejected(_) => "plugin rejected the attach request",
            ProcessError::ProcessOpen => "failed to open the target process",
            ProcessError::RegionQuery => "failed to enumerate the target's memory regions",
            ProcessError::ReadFailed => "failed to read the target's memory",
            ProcessError::WriteFailed => "failed to write the target's memory",
            ProcessError::NameLookup => "failed to look up the target's name",
        }
    }
}

} // verus!
