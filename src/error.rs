use vstd::prelude::*;

verus! {

/// Errors reported by the engine to its callers.
#[derive(Debug, Clone, PartialEq, Eq)]
pub enum TtyError {
    /// Opening, granting or unlocking the pseudo-terminal master failed.
    PtyCreation(String),
    /// The child process could not be forked or set up.
    Fork(String),
    /// A read, write or control syscall failed with this `errno`.
    Io { errno: i32 },
    /// Delivering a targeted signal failed with this `errno`.
    Signal { errno: i32 },
    /// No session is registered under this id.
    PtyNotFound { id: u64 },
    /// A terminal mode outside the known set was requested.
    InvalidMode { mode: String },
    /// A syscall reported more bytes than the buffers involved can hold.
    BufferOverflow { size: usize },
    /// The session's child is no longer alive.
    ProcessDied { pid: i32 },
    /// A blocking syscall did not finish in time.
    Timeout { timeout_ms: u64 },
}

} // verus!
