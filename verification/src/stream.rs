//! The two byte-stream endpoints of a terminal.
//!
//! [`TerminalIn`] is the write side, [`TerminalOut`] the read side; each
//! owns one duplicate of the master descriptor and is usable independently
//! of the other and of the terminal that produced it. Writes and reads go
//! straight to the device — nothing is buffered, framed, or interpreted —
//! and each endpoint is released by an explicit `close`.

use vstd::prelude::*;

use crate::error::TerminalError;
use crate::pty::sys_close;

verus! {

/// Relies on `nix::unistd::write`: hands the bytes `buf[from..]` to the
/// device and returns how many of them the device accepted, never more
/// than were offered, or the OS error code.
#[verifier::external_body]
fn sys_write(fd: i32, buf: &[u8], from: usize) -> (r: Result<usize, i32>)
    requires
        from <= buf@.len(),
    ensures
        r matches Ok(n) ==> from + n <= buf@.len(),
{
    match nix::unistd::write(fd, &buf[from..]) {
        Ok(n) => Ok(n),
        Err(e) => Err(e as i32),
    }
}

/// Relies on `nix::unistd::read`: fills `buf[from..]` with bytes from the
/// device and returns how many arrived, never more than fit, or the OS
/// error code. The buffer keeps its length, and the bytes before `from`
/// are untouched; zero arrivals mean end of stream on a blocking
/// descriptor.
#[verifier::external_body]
fn sys_read(fd: i32, buf: &mut Vec<u8>, from: usize) -> (r: Result<usize, i32>)
    requires
        from <= old(buf)@.len(),
    ensures
        final(buf)@.len() == old(buf)@.len(),
        final(buf)@.subrange(0, from as int) == old(buf)@.subrange(0, from as int),
        r matches Ok(n) ==> from + n <= final(buf)@.len(),
{
    match nix::unistd::read(fd, &mut buf[from..]) {
        Ok(n) => Ok(n),
        Err(e) => Err(e as i32),
    }
}

/// The decision `write_all` makes of one device call's outcome, with
/// `written` bytes already taken of `total`: a failing call yields its
/// error with the OS code attached; a call that took nothing while bytes
/// remained yields the write-zero error; otherwise the offered range
/// advances by exactly the accepted count — each if and only if.
pub fn write_progress(outcome: Result<usize, i32>, written: usize, total: usize) -> (r: Result<
    usize,
    TerminalError,
>)
    requires
        written < total,
        outcome matches Ok(n) ==> written + n <= total,
    ensures
        r matches Ok(w) ==> (outcome matches Ok(n) && n > 0 && w == written + n),
        outcome matches Ok(n) ==> (n > 0 ==> (r matches Ok(w) && w == written + n)),
        outcome matches Ok(n) ==> (n == 0 ==> (r matches Err(e) && e == TerminalError::WriteZero)),
        outcome matches Err(c) ==> (r matches Err(e) && e == TerminalError::Io(c)),
        r matches Err(e) ==> e is Io || e is WriteZero,
{
    match outcome {
        Ok(n) => {
            if n == 0 {
                Err(TerminalError::WriteZero)
            } else {
                Ok(written + n)
            }
        },
        Err(code) => Err(TerminalError::Io(code)),
    }
}

/// The decision `read_exact` makes of one device call's outcome, with
/// `filled` bytes already arrived of `total`: a failing call yields its
/// error with the OS code attached; a call that delivered nothing while
/// slots remained means the stream ended early; otherwise the filled
/// range advances by exactly the arrived count — each if and only if.
pub fn read_progress(outcome: Result<usize, i32>, filled: usize, total: usize) -> (r: Result<
    usize,
    TerminalError,
>)
    requires
        filled < total,
        outcome matches Ok(n) ==> filled + n <= total,
    ensures
        r matches Ok(w) ==> (outcome matches Ok(n) && n > 0 && w == filled + n),
        outcome matches Ok(n) ==> (n > 0 ==> (r matches Ok(w) && w == filled + n)),
        outcome matches Ok(n) ==> (n == 0 ==> (r matches Err(e) && e == TerminalError::UnexpectedEof)),
        outcome matches Err(c) ==> (r matches Err(e) && e == TerminalError::Io(c)),
        r matches Err(e) ==> e is Io || e is UnexpectedEof,
{
    match outcome {
        Ok(n) => {
            if n == 0 {
                Err(TerminalError::UnexpectedEof)
            } else {
                Ok(filled + n)
            }
        },
        Err(code) => Err(TerminalError::Io(code)),
    }
}

/// The write side of a terminal: bytes written here appear as keyboard
/// input to the attached process, after the device's line discipline.
#[derive(Debug)]
pub struct TerminalIn {
    fd: i32,
}

impl TerminalIn {
    /// The descriptor this endpoint owns.
    pub closed spec fn spec_fd(&self) -> i32 {
        self.fd
    }

    /// An endpoint is well formed when it holds an open descriptor.
    pub open spec fn wf(&self) -> bool {
        self.spec_fd() >= 0
    }

    /// Wraps a duplicated master descriptor as the write endpoint.
    pub(crate) fn from_fd(fd: i32) -> (r: TerminalIn)
        requires
            fd >= 0,
        ensures
            r.spec_fd() == fd,
            r.wf(),
    {
        TerminalIn { fd }
    }

    /// The raw descriptor, for callers that integrate the endpoint with
    /// an event loop of their own. The endpoint keeps ownership.
    pub fn raw_fd(&self) -> (r: i32)
        ensures
            r == self.spec_fd(),
    {
        self.fd
    }

    /// Hands the device as many bytes of `buf` as it accepts in one call
    /// and returns how many it took, never more than `buf` holds. On
    /// failure the OS error code is attached.
    pub fn write(&mut self, buf: &[u8]) -> (r: Result<usize, TerminalError>)
        ensures
            *final(self) == *old(self),
            r matches Ok(n) ==> n <= buf@.len(),
            r matches Err(e) ==> e is Io,
    {
        match sys_write(self.fd, buf, 0) {
            Ok(n) => Ok(n),
            Err(code) => Err(TerminalError::Io(code)),
        }
    }

    /// Writes all of `buf`, repeating the device call until every byte is
    /// taken. What each call's outcome makes of the result is
    /// [`write_progress`]'s contract: `WriteZero` if the device stops
    /// accepting bytes while some remain, `Io` with the OS code if a call
    /// fails, and otherwise the offered range advances by exactly the
    /// accepted count, so the bytes are offered in order and none twice.
    pub fn write_all(&mut self, buf: &[u8]) -> (r: Result<(), TerminalError>)
        ensures
            *final(self) == *old(self),
            r matches Err(e) ==> e is Io || e is WriteZero,
    {
        let mut written: usize = 0;
        while written < buf.len()
            invariant
                written <= buf@.len(),
                *self == *old(self),
            decreases buf@.len() - written,
        {
            let outcome = sys_write(self.fd, buf, written);
            match write_progress(outcome, written, buf.len()) {
                Ok(w) => {
                    written = w;
                },
                Err(e) => {
                    return Err(e);
                },
            }
        }
        Ok(())
    }

    /// Nothing is buffered in this endpoint, so there is never anything
    /// left to push out: flushing always succeeds.
    pub fn flush(&mut self) -> (r: Result<(), TerminalError>)
        ensures
            *final(self) == *old(self),
            r is Ok,
    {
        Ok(())
    }

    /// Releases the endpoint's descriptor. The master descriptor and the
    /// other endpoint stay open.
    pub fn close(self) -> (r: Result<(), TerminalError>)
        ensures
            r matches Err(e) ==> e is Io,
    {
        match sys_close(self.fd) {
            Ok(()) => Ok(()),
            Err(code) => Err(TerminalError::Io(code)),
        }
    }
}

/// The read side of a terminal: bytes the attached process writes to its
/// screen arrive here, after the device's line discipline.
#[derive(Debug)]
pub struct TerminalOut {
    fd: i32,
}

impl TerminalOut {
    /// The descriptor this endpoint owns.
    pub closed spec fn spec_fd(&self) -> i32 {
        self.fd
    }

    /// An endpoint is well formed when it holds an open descriptor.
    pub open spec fn wf(&self) -> bool {
        self.spec_fd() >= 0
    }

    /// Wraps a duplicated master descriptor as the read endpoint.
    pub(crate) fn from_fd(fd: i32) -> (r: TerminalOut)
        requires
            fd >= 0,
        ensures
            r.spec_fd() == fd,
            r.wf(),
    {
        TerminalOut { fd }
    }

    /// The raw descriptor, for callers that integrate the endpoint with
    /// an event loop of their own. The endpoint keeps ownership.
    pub fn raw_fd(&self) -> (r: i32)
        ensures
            r == self.spec_fd(),
    {
        self.fd
    }

    /// Fills `buf` with as many bytes as one device call yields and
    /// returns how many arrived, never more than `buf` holds; zero means
    /// end of stream on a blocking descriptor. The buffer keeps its
    /// length. On failure the OS error code is attached.
    pub fn read(&mut self, buf: &mut Vec<u8>) -> (r: Result<usize, TerminalError>)
        ensures
            *final(self) == *old(self),
            final(buf)@.len() == old(buf)@.len(),
            r matches Ok(n) ==> n <= final(buf)@.len(),
            r matches Err(e) ==> e is Io,
    {
        match sys_read(self.fd, buf, 0) {
            Ok(n) => Ok(n),
            Err(code) => Err(TerminalError::Io(code)),
        }
    }

    /// Fills all of `buf`, repeating the device call until every slot
    /// holds an arrived byte. What each call's outcome makes of the
    /// result is [`read_progress`]'s contract: `UnexpectedEof` if the
    /// stream ends while slots remain, `Io` with the OS code if a call
    /// fails, and otherwise the filled range advances by exactly the
    /// arrived count. The buffer keeps its length, and bytes already read
    /// stay in place.
    pub fn read_exact(&mut self, buf: &mut Vec<u8>) -> (r: Result<(), TerminalError>)
        ensures
            *final(self) == *old(self),
            final(buf)@.len() == old(buf)@.len(),
            r matches Err(e) ==> e is Io || e is UnexpectedEof,
    {
        let mut filled: usize = 0;
        let total = buf.len();
        while filled < total
            invariant
                filled <= buf@.len(),
                total == buf@.len(),
                buf@.len() == old(buf)@.len(),
                *self == *old(self),
            decreases buf@.len() - filled,
        {
            let outcome = sys_read(self.fd, buf, filled);
            match read_progress(outcome, filled, total) {
                Ok(w) => {
                    filled = w;
                },
                Err(e) => {
                    return Err(e);
                },
            }
        }
        Ok(())
    }

    /// Releases the endpoint's descriptor. The master descriptor and the
    /// other endpoint stay open.
    pub fn close(self) -> (r: Result<(), TerminalError>)
        ensures
            r matches Err(e) ==> e is Io,
    {
        match sys_close(self.fd) {
            Ok(()) => Ok(()),
            Err(code) => Err(TerminalError::Io(code)),
        }
    }
}

} // verus!
