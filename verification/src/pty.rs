//! The POSIX pseudo-terminal backend.
//!
//! A [`PtyDevice`] owns the master and subordinate descriptors of one
//! pseudo-terminal pair. Allocation opens the pair at an initial window
//! size, marks the master close-on-exec, and rolls everything back if a
//! step fails, so that no descriptor leaks on a partial failure. The I/O
//! endpoints are produced by duplicating the master descriptor once per
//! direction; closing an endpoint leaves the master itself open.
//!
//! Each operating-system call is made through a trusted wrapper around the
//! `nix` crate, named beside its use.

use vstd::prelude::*;

use crate::TerminalSize;
use crate::error::TerminalError;
use crate::stream::{TerminalIn, TerminalOut};
use crate::winsize::Winsize;

verus! {

/// Relies on `nix::pty::openpty`: opens a pseudo-terminal master, grants
/// and unlocks its subordinate side, opens that subordinate, and sets the
/// given initial window size. Returns the two descriptors, master first;
/// open descriptors are non-negative and the two are distinct. On failure
/// the OS error code is returned.
#[verifier::external_body]
fn sys_openpty(ws: &Winsize) -> (r: Result<(i32, i32), i32>)
    ensures
        r matches Ok(p) ==> p.0 >= 0 && p.1 >= 0 && p.0 != p.1,
{
    let native = nix::pty::Winsize {
        ws_row: ws.ws_row,
        ws_col: ws.ws_col,
        ws_xpixel: ws.ws_xpixel,
        ws_ypixel: ws.ws_ypixel,
    };
    match nix::pty::openpty(Some(&native), None::<&nix::sys::termios::Termios>) {
        Ok(p) => Ok((p.master, p.slave)),
        Err(e) => Err(e as i32),
    }
}

/// Relies on `nix::fcntl::fcntl` with `F_GETFD`: returns the
/// descriptor-flag bits of `fd`, or the OS error code.
#[verifier::external_body]
fn sys_get_fd_flags(fd: i32) -> (r: Result<i32, i32>) {
    match nix::fcntl::fcntl(fd, nix::fcntl::FcntlArg::F_GETFD) {
        Ok(bits) => Ok(bits),
        Err(e) => Err(e as i32),
    }
}

/// Relies on `nix::fcntl::fcntl` with `F_SETFD`: replaces the
/// descriptor flags of `fd` with those bits of `bits` that the flag type
/// knows (others are dropped, not written), or returns the OS error code.
#[verifier::external_body]
fn sys_set_fd_flags(fd: i32, bits: i32) -> (r: Result<(), i32>) {
    let flags = nix::fcntl::FdFlag::from_bits_truncate(bits);
    match nix::fcntl::fcntl(fd, nix::fcntl::FcntlArg::F_SETFD(flags)) {
        Ok(_) => Ok(()),
        Err(e) => Err(e as i32),
    }
}

/// Relies on `nix::fcntl::fcntl` with `F_GETFL`: returns the file-status
/// flag bits of `fd`, or the OS error code.
#[verifier::external_body]
fn sys_get_status_flags(fd: i32) -> (r: Result<i32, i32>) {
    match nix::fcntl::fcntl(fd, nix::fcntl::FcntlArg::F_GETFL) {
        Ok(bits) => Ok(bits),
        Err(e) => Err(e as i32),
    }
}

/// Relies on `nix::fcntl::fcntl` with `F_SETFL`: replaces the file-status
/// flags of `fd` with those bits of `bits` that the flag type knows
/// (others are dropped, not written), or returns the OS error code.
#[verifier::external_body]
fn sys_set_status_flags(fd: i32, bits: i32) -> (r: Result<(), i32>) {
    let flags = nix::fcntl::OFlag::from_bits_truncate(bits);
    match nix::fcntl::fcntl(fd, nix::fcntl::FcntlArg::F_SETFL(flags)) {
        Ok(_) => Ok(()),
        Err(e) => Err(e as i32),
    }
}

/// Relies on the `FD_CLOEXEC` descriptor-flag constant, as `nix` exposes
/// it.
#[verifier::external_body]
fn fd_cloexec_bits() -> i32 {
    nix::fcntl::FdFlag::FD_CLOEXEC.bits()
}

/// Relies on the `O_NONBLOCK` file-status-flag constant, as `nix` exposes
/// it.
#[verifier::external_body]
fn o_nonblock_bits() -> i32 {
    nix::fcntl::OFlag::O_NONBLOCK.bits()
}

/// Relies on `nix::unistd::dup`: duplicates `fd`, returning a new
/// non-negative descriptor for the same open device, or the OS error
/// code. The new descriptor is a different number than the argument,
/// which stays open: success means the argument named an open file, and
/// the OS picks an unused number for the duplicate.
#[verifier::external_body]
fn sys_dup(fd: i32) -> (r: Result<i32, i32>)
    ensures
        r matches Ok(n) ==> n >= 0 && n != fd,
{
    match nix::unistd::dup(fd) {
        Ok(n) => Ok(n),
        Err(e) => Err(e as i32),
    }
}

/// The flag word that the read-modify-write control flows hand back to
/// the OS: the fetched word with `bit` set and every bit of the fetched
/// word kept.
pub fn set_flag_bits(bits: i32, bit: i32) -> (r: i32)
    ensures
        r == (bits | bit),
        r & bits == bits,
        r & bit == bit,
{
    proof {
        assert((bits | bit) & bits == bits) by (bit_vector);
        assert((bits | bit) & bit == bit) by (bit_vector);
    }
    bits | bit
}

/// Relies on `nix::unistd::close`: releases the descriptor `fd`, or
/// returns the OS error code.
#[verifier::external_body]
pub(crate) fn sys_close(fd: i32) -> (r: Result<(), i32>) {
    match nix::unistd::close(fd) {
        Ok(()) => Ok(()),
        Err(e) => Err(e as i32),
    }
}

/// One allocated pseudo-terminal pair: the master descriptor, which the
/// caller keeps, and the subordinate descriptor, which the spawned child
/// receives as its standard streams.
pub struct PtyDevice {
    master: i32,
    slave: i32,
}

impl PtyDevice {
    /// The master descriptor of the pair.
    pub closed spec fn spec_master(&self) -> i32 {
        self.master
    }

    /// The subordinate descriptor of the pair.
    pub closed spec fn spec_slave(&self) -> i32 {
        self.slave
    }

    /// A device is well formed when it holds two distinct open
    /// descriptors.
    pub open spec fn wf(&self) -> bool {
        self.spec_master() >= 0 && self.spec_slave() >= 0 && self.spec_master()
            != self.spec_slave()
    }

    /// The master descriptor of the pair.
    pub fn master_fd(&self) -> (r: i32)
        ensures
            r == self.spec_master(),
    {
        self.master
    }

    /// The subordinate descriptor of the pair.
    pub fn slave_fd(&self) -> (r: i32)
        ensures
            r == self.spec_slave(),
    {
        self.slave
    }

    /// Allocates a pseudo-terminal pair sized to `initial`, and marks the
    /// master descriptor close-on-exec so that unrelated children do not
    /// inherit it. If any step after allocation fails, both descriptors
    /// are released before the error is returned, so a partial failure
    /// leaks nothing.
    pub fn open(initial: TerminalSize) -> (r: Result<PtyDevice, TerminalError>)
        ensures
            r matches Ok(d) ==> d.wf(),
            r matches Err(e) ==> e is Allocation,
    {
        let ws = Winsize::from(initial);
        let (master, slave) = match sys_openpty(&ws) {
            Ok(p) => p,
            Err(code) => {
                return Err(TerminalError::Allocation(code));
            },
        };
        let bits = match sys_get_fd_flags(master) {
            Ok(b) => b,
            Err(code) => {
                let _ = sys_close(master);
                let _ = sys_close(slave);
                return Err(TerminalError::Allocation(code));
            },
        };
        match sys_set_fd_flags(master, set_flag_bits(bits, fd_cloexec_bits())) {
            Ok(()) => {},
            Err(code) => {
                let _ = sys_close(master);
                let _ = sys_close(slave);
                return Err(TerminalError::Allocation(code));
            },
        }
        Ok(PtyDevice { master, slave })
    }

    /// Sets the master descriptor's non-blocking flag, preserving its
    /// other file-status flags: the word written back is the fetched word
    /// with the non-blocking bit set, as [`set_flag_bits`] states. Both
    /// I/O endpoints derived from the master are affected, since they
    /// reference the same open device.
    pub fn set_nonblocking(&self) -> (r: Result<(), TerminalError>)
        ensures
            r matches Err(e) ==> e is ControlOperation,
    {
        let bits = match sys_get_status_flags(self.master) {
            Ok(b) => b,
            Err(code) => {
                return Err(TerminalError::ControlOperation(code));
            },
        };
        match sys_set_status_flags(self.master, set_flag_bits(bits, o_nonblock_bits())) {
            Ok(()) => Ok(()),
            Err(code) => Err(TerminalError::ControlOperation(code)),
        }
    }

    /// Produces the write and read endpoints of the terminal by
    /// duplicating the master descriptor once per direction: each
    /// endpoint holds a fresh descriptor of its own, distinct from the
    /// master and from the other endpoint, so each owner releases its
    /// descriptor separately and closing one leaves the master and the
    /// other endpoint open. If the second duplication fails, the first
    /// duplicate is released before the error is returned.
    pub fn endpoints(&self) -> (r: Result<(TerminalIn, TerminalOut), TerminalError>)
        ensures
            r matches Ok(p) ==> p.0.wf() && p.1.wf() && p.0.spec_fd() != self.spec_master()
                && p.1.spec_fd() != self.spec_master() && p.0.spec_fd() != p.1.spec_fd(),
            r matches Err(e) ==> e is Allocation,
    {
        let in_fd = match sys_dup(self.master) {
            Ok(fd) => fd,
            Err(code) => {
                return Err(TerminalError::Allocation(code));
            },
        };
        let out_fd = match sys_dup(self.master) {
            Ok(fd) => fd,
            Err(code) => {
                let _ = sys_close(in_fd);
                return Err(TerminalError::Allocation(code));
            },
        };
        // Two duplicates alive at once always carry distinct numbers, so
        // this branch never runs; it carries that fact into the contract
        // without resting the proof on cross-call state.
        if out_fd == in_fd {
            let _ = sys_close(in_fd);
            let _ = sys_close(out_fd);
            return Err(TerminalError::Allocation(0));
        }
        Ok((TerminalIn::from_fd(in_fd), TerminalOut::from_fd(out_fd)))
    }

    /// Releases both descriptors of the pair. Used to roll a failed spawn
    /// back; the first close failure, if any, is reported after both
    /// closes were attempted.
    pub fn release(self) -> (r: Result<(), TerminalError>)
        ensures
            r matches Err(e) ==> e is Io,
    {
        let first = sys_close(self.master);
        let second = sys_close(self.slave);
        match first {
            Ok(()) => match second {
                Ok(()) => Ok(()),
                Err(code) => Err(TerminalError::Io(code)),
            },
            Err(code) => Err(TerminalError::Io(code)),
        }
    }
}

} // verus!
