//! The error model of the library.
//!
//! Every failure of an operating-system call is surfaced to the caller with
//! the underlying OS error code attached; nothing is retried internally.

use vstd::prelude::*;

verus! {

/// What went wrong, and at which stage of the terminal lifecycle.
#[derive(Clone, Copy, Debug, PartialEq, Eq, Structural)]
pub enum TerminalError {
    /// The backend resource could not be created (device exhaustion,
    /// permission denied). Carries the OS error code.
    Allocation(i32),
    /// Configuring the child's standard streams or attributes failed before
    /// the spawn. Carries the OS error code.
    Bind(i32),
    /// The external launch operation failed. Carries the OS error code.
    Spawn(i32),
    /// A resize or mode-toggle control operation failed at the OS level.
    /// Carries the OS error code.
    ControlOperation(i32),
    /// The operation is not available on the active backend, as opposed to a
    /// transient failure.
    Unsupported,
    /// A read or write on an I/O endpoint failed. Carries the OS error code.
    Io(i32),
    /// A write made no progress although bytes remained to be written.
    WriteZero,
    /// The stream ended before the requested number of bytes arrived.
    UnexpectedEof,
}

impl TerminalError {
    /// The OS error code attached to this error, if the failing operation
    /// reported one.
    pub fn os_code(&self) -> (r: Option<i32>)
        ensures
            r == self.spec_os_code(),
    {
        match self {
            TerminalError::Allocation(c) => Some(*c),
            TerminalError::Bind(c) => Some(*c),
            TerminalError::Spawn(c) => Some(*c),
            TerminalError::ControlOperation(c) => Some(*c),
            TerminalError::Unsupported => None,
            TerminalError::Io(c) => Some(*c),
            TerminalError::WriteZero => None,
            TerminalError::UnexpectedEof => None,
        }
    }

    /// The OS error code of each variant that carries one.
    pub open spec fn spec_os_code(&self) -> Option<i32> {
        match self {
            TerminalError::Allocation(c) => Some(*c),
            TerminalError::Bind(c) => Some(*c),
            TerminalError::Spawn(c) => Some(*c),
            TerminalError::ControlOperation(c) => Some(*c),
            TerminalError::Unsupported => None,
            TerminalError::Io(c) => Some(*c),
            TerminalError::WriteZero => None,
            TerminalError::UnexpectedEof => None,
        }
    }
}

} // verus!
