//! The terminal handle and its lifecycle.
//!
//! A [`Terminal`] owns the master descriptor of one pseudo-terminal pair
//! and the id of the child process attached to its subordinate side, and
//! holds the two I/O endpoints until they are handed out. The endpoints
//! leave exactly once, together, through `split`; `close` terminates the
//! child, best effort, and releases every descriptor the handle still
//! holds.

use vstd::prelude::*;

use crate::error::TerminalError;
use crate::pty::{sys_close, PtyDevice};
use crate::stream::{TerminalIn, TerminalOut};

verus! {

/// Relies on `nix::sys::signal::kill` with `SIGKILL`: asks the OS to
/// terminate the process with id `pid`; `Ok` when the signal was
/// delivered, otherwise the OS error code. A positive id is demanded,
/// since the call would address a whole process group otherwise.
#[verifier::external_body]
fn sys_kill(pid: i32) -> (r: Result<(), i32>)
    requires
        pid > 0,
{
    match nix::sys::signal::kill(
        nix::unistd::Pid::from_raw(pid),
        nix::sys::signal::Signal::SIGKILL,
    ) {
        Ok(()) => Ok(()),
        Err(e) => Err(e as i32),
    }
}

/// Relies on the `ESRCH` errno constant, as `nix` exposes it: the code
/// with which a signal to an already-gone process fails.
#[verifier::external_body]
fn errno_no_such_process() -> i32 {
    nix::errno::Errno::ESRCH as i32
}

/// The decision `close` makes of the kill outcome, given the code that
/// reports an already-gone process: a successful kill, or one failing
/// with exactly that code, is no failure; a kill failing with any other
/// code `c` yields the I/O error carrying `c` — each if and only if.
pub fn close_outcome(kill_result: Result<(), i32>, gone_code: i32) -> (r: Result<
    (),
    TerminalError,
>)
    ensures
        kill_result is Ok ==> r is Ok,
        kill_result matches Err(c) ==> (r is Ok <==> c == gone_code),
        kill_result matches Err(c) ==> (c != gone_code ==> (r matches Err(e) && e
            == TerminalError::Io(c))),
        r matches Err(e) ==> e is Io,
{
    match kill_result {
        Ok(()) => Ok(()),
        Err(code) => {
            if code == gone_code {
                Ok(())
            } else {
                Err(TerminalError::Io(code))
            }
        },
    }
}

/// A handle to one spawned terminal session: the backend device, the
/// child process attached to it, and — until `split` hands them out — the
/// two I/O endpoints.
///
/// The descriptor and process-id fields are readable so that callers can
/// drive resize control operations and liveness checks of their own; they
/// are owned by the handle and must not be written or released behind its
/// back.
#[derive(Debug)]
pub struct Terminal {
    /// The master descriptor of the backend device; released by `close`.
    pub master_fd: i32,
    /// The id of the attached child process; signalled by `close`.
    pub child_pid: i32,
    /// The write endpoint, present until the terminal is split.
    pub terminal_in: Option<TerminalIn>,
    /// The read endpoint, present until the terminal is split.
    pub terminal_out: Option<TerminalOut>,
}

/// How one `split` call relates the handle before it, the handle after
/// it, and what the call returned: when both endpoints were present they
/// are returned and the slots are emptied; otherwise nothing is returned
/// and the handle is unchanged. The device and the child are never
/// touched.
pub open spec fn split_transition(
    pre: Terminal,
    post: Terminal,
    r: Option<(TerminalIn, TerminalOut)>,
) -> bool {
    &&& post.master_fd == pre.master_fd
    &&& post.child_pid == pre.child_pid
    &&& (pre.has_endpoints() ==> {
        &&& r matches Some(p) && Some(p.0) == pre.terminal_in && Some(p.1) == pre.terminal_out
        &&& post.terminal_in is None
        &&& post.terminal_out is None
    })
    &&& (!pre.has_endpoints() ==> r is None && post == pre)
}

impl Terminal {
    /// Both endpoint slots are still occupied: the terminal has not been
    /// split.
    pub open spec fn has_endpoints(&self) -> bool {
        self.terminal_in is Some && self.terminal_out is Some
    }

    /// A handle is well formed when its device descriptor is open, its
    /// child id names a single process, and every endpoint it still holds
    /// is open.
    pub open spec fn wf(&self) -> bool {
        &&& self.master_fd >= 0
        &&& self.child_pid > 0
        &&& (self.terminal_in matches Some(i) ==> i.wf())
        &&& (self.terminal_out matches Some(o) ==> o.wf())
    }

    /// Assembles the handle once the child is spawned: the device's
    /// subordinate descriptor is released — the child now owns its own
    /// copies — and the master descriptor, the child id, and the two
    /// endpoints move into the handle.
    pub fn new(device: PtyDevice, child_pid: i32, input: TerminalIn, output: TerminalOut) -> (t:
        Terminal)
        requires
            device.wf(),
            child_pid > 0,
            input.wf(),
            output.wf(),
        ensures
            t.wf(),
            t.master_fd == device.spec_master(),
            t.child_pid == child_pid,
            t.terminal_in == Some(input),
            t.terminal_out == Some(output),
    {
        let master_fd = device.master_fd();
        let _ = sys_close(device.slave_fd());
        Terminal {
            master_fd,
            child_pid,
            terminal_in: Some(input),
            terminal_out: Some(output),
        }
    }

    /// Hands the two I/O endpoints out, exactly once: the first call on a
    /// terminal that still holds both returns them and empties the slots;
    /// any other call returns nothing and changes nothing. Absence is the
    /// documented already-split state, not an error.
    pub fn split(&mut self) -> (r: Option<(TerminalIn, TerminalOut)>)
        ensures
            split_transition(*old(self), *final(self), r),
            r is Some <==> old(self).has_endpoints(),
            !final(self).has_endpoints(),
    {
        if self.terminal_in.is_none() || self.terminal_out.is_none() {
            return None;
        }
        let terminal_in = self.terminal_in.take().unwrap();
        let terminal_out = self.terminal_out.take().unwrap();
        Some((terminal_in, terminal_out))
    }

    /// The endpoints leave at most once: on any terminal, split or not,
    /// the split call after another finds no complete endpoint pair left
    /// and returns the empty, already-split result — and the first call
    /// returned the pair exactly when the terminal still held both.
    pub proof fn lemma_split_at_most_once(
        t0: Terminal,
        t1: Terminal,
        t2: Terminal,
        r1: Option<(TerminalIn, TerminalOut)>,
        r2: Option<(TerminalIn, TerminalOut)>,
    )
        requires
            split_transition(t0, t1, r1),
            split_transition(t1, t2, r2),
        ensures
            r1 is Some <==> t0.has_endpoints(),
            r2 is None,
    {
    }

    /// Terminates the child, best effort, and releases every descriptor
    /// the handle still holds: the master, and both endpoints unless they
    /// were split off. The result is what [`close_outcome`] makes of the
    /// kill outcome — a child that is already gone is not an error, and
    /// any other kill failure is reported with its OS error code — and
    /// the descriptors are released all the same either way. Nothing here
    /// waits: one forceful, non-blocking signal and the descriptor
    /// releases, no terminal I/O and no cooperation from the child, so
    /// closing cannot hang on either.
    pub fn close(self) -> (r: Result<(), TerminalError>)
        requires
            self.wf(),
        ensures
            r matches Err(e) ==> e is Io,
    {
        let mut this = self;
        let outcome = close_outcome(sys_kill(this.child_pid), errno_no_such_process());
        if let Some(input) = this.terminal_in.take() {
            let _ = input.close();
        }
        if let Some(output) = this.terminal_out.take() {
            let _ = output.close();
        }
        let _ = sys_close(this.master_fd);
        outcome
    }
}

} // verus!
