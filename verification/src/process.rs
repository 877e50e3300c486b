//! The process manager: attach, detach, and memory access over one of two
//! backends, fixed at construction.
//!
//! Native mode talks to the operating system's debugging primitives through
//! the `memflex` crate.  Extension mode delegates every primitive to a
//! dynamically loaded module that the surrounding application owns; the
//! manager keeps the attachment state and turns each entry point's status
//! code into a typed result, while the application performs the foreign
//! calls themselves.

use crate::error::ProcessError;
use crate::region::{regions_allow_read, regions_can_read, Region};
use vstd::prelude::*;
use vstd::string::StringExecFns;

verus! {

/// Configuration consumed at manager construction: at most an explicit
/// plugin path.
pub struct YClassConfig {
    /// Path of the extension module to load, if the user configured one.
    pub plugin_path: Option<String>,
}

/// The default plugin file looked for when no path is configured.
pub const DEFAULT_PLUGIN_PATH: &'static str = "plugin.ycpl";

impl YClassConfig {
    /// The plugin file to probe on disk, and whether it was explicitly
    /// configured: the configured path when one is set, the default
    /// `plugin.ycpl` otherwise.
    pub fn plugin_target(&self) -> (r: (String, bool))
        ensures
            r.1 == (self.plugin_path is Some),
            self.plugin_path matches Some(p) ==> r.0@ == p@,
            self.plugin_path is None ==> r.0@ == DEFAULT_PLUGIN_PATH@,
    {
        match &self.plugin_path {
            Some(p) => (p.clone(), true),
            None => (String::from_str(DEFAULT_PLUGIN_PATH), false),
        }
    }
}

#[verifier::external_type_specification]
#[verifier::external_body]
pub struct ExOwnedProcess(memflex::external::OwnedProcess);

#[verifier::external_type_specification]
#[verifier::external_body]
pub struct ExMfError(memflex::MfError);

/// Relies on memflex::external::find_process_by_id: returns a handle to the
/// target process when it exists, an error otherwise.
#[verifier::external_body]
fn open_native(pid: u32) -> (r: Result<memflex::external::OwnedProcess, memflex::MfError>) {
    memflex::external::find_process_by_id(pid)
}

/// Relies on memflex's OwnedProcess::maps: one entry per currently mapped
/// region of the target, with its bounds and protection flags; each entry is
/// converted field for field.
#[verifier::external_body]
fn query_regions(
    proc: &memflex::external::OwnedProcess,
) -> (r: Result<Vec<Region>, memflex::MfError>) {
    proc.maps().map(|v| {
        v.iter()
            .map(|m| Region {
                from: m.from,
                to: m.to,
                read: m.prot.read(),
                write: m.prot.write(),
                execute: m.prot.execute(),
            })
            .collect()
    })
}

/// Relies on memflex's OwnedProcess::read_buf (process_vm_readv): fills at
/// most `buf.len()` bytes at the front of `buf`, returns how many bytes were
/// read, and never changes `buf`'s length.
#[verifier::external_body]
fn read_native(
    proc: &memflex::external::OwnedProcess,
    address: usize,
    buf: &mut Vec<u8>,
) -> (r: Result<usize, memflex::MfError>)
    ensures
        final(buf)@.len() == old(buf)@.len(),
        r matches Ok(n) ==> n <= old(buf)@.len(),
{
    proc.read_buf(address, buf.as_mut_slice())
}

/// Relies on memflex's OwnedProcess::write_buf (process_vm_writev): writes at
/// most `buf.len()` bytes and returns how many bytes were written.
#[verifier::external_body]
fn write_native(
    proc: &memflex::external::OwnedProcess,
    address: usize,
    buf: &Vec<u8>,
) -> (r: Result<usize, memflex::MfError>)
    ensures
        r matches Ok(n) ==> n <= buf@.len(),
{
    proc.write_buf(address, buf.as_slice())
}

/// Relies on memflex's OwnedProcess::name: reads the target's executable name
/// from the operating system.
#[verifier::external_body]
fn native_name(proc: &memflex::external::OwnedProcess) -> (r: Result<
    String,
    memflex::MfError,
>) {
    proc.name()
}

/// The attachment state: exactly one of the two backends, present only while
/// attached.
enum AttachedProcess {
    /// Native attachment: the handle opened through the operating system and
    /// the region table cached once at attach time.
    Internal {
        proc: memflex::external::OwnedProcess,
        pid: u32,
        cached_regions: Vec<Region>,
    },
    /// Extension attachment: only the process id; all further state lives in
    /// the loaded module.
    Managed { pid: u32 },
}

/// Attaches to one process at a time and mediates every memory access.
///
/// Whether the manager works natively or through an extension module is
/// decided once, at construction, and holds for its whole lifetime: a
/// well-formed manager never mixes the two backends.
pub struct ProcessManager {
    uses_plugin: bool,
    attached: Option<AttachedProcess>,
}

impl ProcessManager {
    /// Whether this manager delegates to an extension module (decided at
    /// construction).
    pub closed spec fn uses_extension(&self) -> bool {
        self.uses_plugin
    }

    /// Whether an attachment is currently live.
    pub closed spec fn attached(&self) -> bool {
        self.attached is Some
    }

    /// The id of the attached process; meaningful only while attached.
    pub closed spec fn attached_pid(&self) -> u32 {
        match self.attached {
            Some(AttachedProcess::Internal { pid, .. }) => pid,
            Some(AttachedProcess::Managed { pid }) => pid,
            None => 0,
        }
    }

    /// Whether the live attachment, if any, is the native variant.
    pub closed spec fn native_attachment(&self) -> bool {
        self.attached matches Some(AttachedProcess::Internal { .. })
    }

    /// Whether the live attachment, if any, is the extension variant.
    pub closed spec fn managed_attachment(&self) -> bool {
        self.attached matches Some(AttachedProcess::Managed { .. })
    }

    /// The region table cached at native attach time; empty otherwise.
    pub closed spec fn region_view(&self) -> Seq<Region> {
        match self.attached {
            Some(AttachedProcess::Internal { cached_regions, .. }) => cached_regions@,
            _ => Seq::empty(),
        }
    }

    /// Well-formedness: the attachment variant, when present, agrees with the
    /// backend fixed at construction.
    pub closed spec fn wf(&self) -> bool {
        match self.attached {
            Some(AttachedProcess::Internal { .. }) => !self.uses_plugin,
            Some(AttachedProcess::Managed { .. }) => self.uses_plugin,
            None => true,
        }
    }

    /// The backend fixed at construction is the backend of every attachment:
    /// a well-formed manager never holds a native and an extension attachment
    /// at once, nor an attachment of the mode it was not built for.
    pub proof fn lemma_backend_fixed(&self)
        requires
            self.wf(),
            self.attached(),
        ensures
            self.uses_extension() == self.managed_attachment(),
            !self.uses_extension() == self.native_attachment(),
            !(self.native_attachment() && self.managed_attachment()),
    {
    }

    /// Builds a manager, deciding its backend once from the plugin probe:
    /// with a plugin file present the manager delegates to the extension
    /// module (which the caller loads); with none present and none configured
    /// it works natively; a configured path with no file behind it is a hard
    /// configuration error.  Either way the manager starts detached.
    pub fn new(config: &YClassConfig, plugin_file_present: bool) -> (r: Result<
        ProcessManager,
        ProcessError,
    >)
        ensures
            plugin_file_present ==> (r matches Ok(m) && m.wf() && m.uses_extension()
                && !m.attached()),
            !plugin_file_present && config.plugin_path is Some ==> r == Err::<
                ProcessManager,
                ProcessError,
            >(ProcessError::PluginMissing),
            !plugin_file_present && config.plugin_path is None ==> (r matches Ok(m) && m.wf()
                && !m.uses_extension() && !m.attached()),
    {
        if plugin_file_present {
            Ok(ProcessManager { uses_plugin: true, attached: None })
        } else if config.plugin_path.is_some() {
            Err(ProcessError::PluginMissing)
        } else {
            Ok(ProcessManager { uses_plugin: false, attached: None })
        }
    }

    /// Whether an attachment is currently live.
    pub fn is_attached(&self) -> (r: bool)
        ensures
            r == self.attached(),
    {
        self.attached.is_some()
    }

    /// Whether this manager delegates to an extension module.
    pub fn is_extension_mode(&self) -> (r: bool)
        ensures
            r == self.uses_extension(),
    {
        self.uses_plugin
    }

    /// Native attach: opens the target process through the operating system,
    /// snapshots its memory-region table once, and replaces any prior
    /// attachment with the new one.  On failure the manager is left exactly
    /// as it was.
    pub fn attach(&mut self, pid: u32) -> (r: Result<(), ProcessError>)
        requires
            old(self).wf(),
            !old(self).uses_extension(),
        ensures
            final(self).wf(),
            !final(self).uses_extension(),
            r is Ok ==> final(self).attached() && final(self).attached_pid() == pid,
            r is Err ==> *final(self) == *old(self),
            r is Err ==> r == Err::<(), ProcessError>(ProcessError::ProcessOpen) || r == Err::<
                (),
                ProcessError,
            >(ProcessError::RegionQuery),
    {
        let proc = match open_native(pid) {
            Ok(p) => p,
            Err(_) => {
                return Err(ProcessError::ProcessOpen);
            },
        };
        let cached_regions = match query_regions(&proc) {
            Ok(v) => v,
            Err(_) => {
                return Err(ProcessError::RegionQuery);
            },
        };
        self.attached = Some(AttachedProcess::Internal { proc, pid, cached_regions });
        Ok(())
    }

    /// Extension attach: the caller has invoked the module's attach entry
    /// point with `pid` and hands in the returned status code.  Status zero
    /// establishes the attachment (replacing any prior one); any other status
    /// is an attach rejection carrying that code, and the manager is left
    /// exactly as it was.
    pub fn attach_extension(&mut self, pid: u32, status: u32) -> (r: Result<(), ProcessError>)
        requires
            old(self).wf(),
            old(self).uses_extension(),
        ensures
            final(self).wf(),
            final(self).uses_extension(),
            status == 0 ==> r is Ok && final(self).attached() && final(self).attached_pid()
                == pid,
            status != 0 ==> r == Err::<(), ProcessError>(ProcessError::AttachRejected(status))
                && *final(self) == *old(self),
    {
        if status != 0 {
            return Err(ProcessError::AttachRejected(status));
        }
        self.attached = Some(AttachedProcess::Managed { pid });
        Ok(())
    }

    /// Detach: unconditionally drops the attachment (releasing the native
    /// handle and region cache, if any) and never fails; calling it while
    /// already detached is a no-op.  In extension mode the caller invokes the
    /// module's fire-and-forget detach entry point alongside this.
    pub fn detach(&mut self)
        ensures
            final(self).wf(),
            !final(self).attached(),
            final(self).uses_extension() == old(self).uses_extension(),
    {
        self.attached = None;
    }

    /// The id of the attached process, as established by the attach call.
    pub fn id(&self) -> (r: u32)
        requires
            self.wf(),
            self.attached(),
        ensures
            r == self.attached_pid(),
    {
        match &self.attached {
            Some(AttachedProcess::Internal { pid, .. }) => *pid,
            Some(AttachedProcess::Managed { pid }) => *pid,
            None => {
                proof {
                    assert(false);
                }
                0
            },
        }
    }

    /// Native read: fills `buf` from the target's memory at `address`.  The
    /// buffer's length is never changed; any failure is reported as a typed
    /// read error.
    pub fn read(&self, address: usize, buf: &mut Vec<u8>) -> (r: Result<(), ProcessError>)
        requires
            self.wf(),
            self.attached(),
            !self.uses_extension(),
        ensures
            final(buf)@.len() == old(buf)@.len(),
            r is Err ==> r == Err::<(), ProcessError>(ProcessError::ReadFailed),
    {
        match &self.attached {
            Some(AttachedProcess::Internal { proc, .. }) => {
                match read_native(proc, address, buf) {
                    Ok(_) => Ok(()),
                    Err(_) => Err(ProcessError::ReadFailed),
                }
            },
            _ => {
                proof {
                    assert(false);
                }
                Err(ProcessError::ReadFailed)
            },
        }
    }

    /// Native write: copies `buf` into the target's memory at `address`; any
    /// failure is reported as a typed write error.
    pub fn write(&self, address: usize, buf: &Vec<u8>) -> (r: Result<(), ProcessError>)
        requires
            self.wf(),
            self.attached(),
            !self.uses_extension(),
        ensures
            r is Err ==> r == Err::<(), ProcessError>(ProcessError::WriteFailed),
    {
        match &self.attached {
            Some(AttachedProcess::Internal { proc, .. }) => {
                match write_native(proc, address, buf) {
                    Ok(_) => Ok(()),
                    Err(_) => Err(ProcessError::WriteFailed),
                }
            },
            _ => {
                proof {
                    assert(false);
                }
                Err(ProcessError::WriteFailed)
            },
        }
    }

    /// Extension read outcome: the caller has invoked the module's read entry
    /// point and hands in its status code; zero is success, anything else a
    /// typed read error.
    pub fn extension_read_result(&self, status: u32) -> (r: Result<(), ProcessError>)
        requires
            self.wf(),
            self.attached(),
            self.uses_extension(),
        ensures
            status == 0 <==> r is Ok,
            status != 0 ==> r == Err::<(), ProcessError>(ProcessError::ReadFailed),
    {
        if status == 0 {
            Ok(())
        } else {
            Err(ProcessError::ReadFailed)
        }
    }

    /// Extension write outcome: as the read outcome, with a typed write
    /// error.
    pub fn extension_write_result(&self, status: u32) -> (r: Result<(), ProcessError>)
        requires
            self.wf(),
            self.attached(),
            self.uses_extension(),
        ensures
            status == 0 <==> r is Ok,
            status != 0 ==> r == Err::<(), ProcessError>(ProcessError::WriteFailed),
    {
        if status == 0 {
            Ok(())
        } else {
            Err(ProcessError::WriteFailed)
        }
    }

    /// Native readability: true iff some region of the snapshot cached at
    /// attach time contains `address` (inclusive on both bounds) with read
    /// permission.  The cache is authoritative until the next attach: the
    /// answer depends on nothing but the cached table.
    pub fn can_read(&self, address: usize) -> (r: bool)
        requires
            self.wf(),
            self.attached(),
            !self.uses_extension(),
        ensures
            r == regions_allow_read(self.region_view(), address),
    {
        match &self.attached {
            Some(AttachedProcess::Internal { cached_regions, .. }) => {
                regions_can_read(cached_regions, address)
            },
            _ => {
                proof {
                    assert(false);
                }
                false
            },
        }
    }

    /// The attached process's display name.  In extension mode the manager
    /// cannot introspect an externally managed process and returns the fixed
    /// sentinel name; in native mode it queries the operating system, and any
    /// failure is a typed name-lookup error.
    pub fn name(&self) -> (r: Result<String, ProcessError>)
        requires
            self.wf(),
            self.attached(),
        ensures
            self.uses_extension() ==> (r matches Ok(s) && s@ == "[MANAGED]"@),
            r is Err ==> r == Err::<String, ProcessError>(ProcessError::NameLookup),
    {
        match &self.attached {
            Some(AttachedProcess::Managed { .. }) => Ok(String::from_str("[MANAGED]")),
            Some(AttachedProcess::Internal { proc, .. }) => {
                match native_name(proc) {
                    Ok(s) => Ok(s),
                    Err(_) => Err(ProcessError::NameLookup),
                }
            },
            None => {
                proof {
                    assert(false);
                }
                Err(ProcessError::NameLookup)
            },
        }
    }
}

} // verus!
