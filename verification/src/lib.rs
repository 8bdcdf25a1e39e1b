//! A library for creating pseudo-terminals (PTYs) and exchanging byte
//! streams with a process attached to them.
//!
//! The crate models the terminal lifecycle — allocating the device pair,
//! handing out the two I/O endpoints exactly once, resizing, and closing —
//! and verifies that model. The operating-system calls themselves are made
//! through a small set of trusted wrappers around the `nix` crate.

use vstd::prelude::*;

pub mod console;
pub mod error;
pub mod pty;
pub mod stream;
pub mod terminal;
pub mod winsize;

verus! {

/// The dimensions of a terminal, in character cells.
///
/// A pure value: created by the caller or defaulted, consumed by the resize
/// operations, and never mutated in place.
#[derive(Clone, Copy, Debug, PartialEq, Eq, Structural)]
pub struct TerminalSize {
    /// The number of rows (height) of the terminal.
    pub rows: u16,
    /// The number of columns (width) of the terminal.
    pub columns: u16,
}

impl Default for TerminalSize {
    /// The conventional 24-row, 80-column terminal.
    fn default() -> (s: TerminalSize)
        ensures
            s.rows == 24,
            s.columns == 80,
    {
        TerminalSize { rows: 24, columns: 80 }
    }
}

} // verus!
