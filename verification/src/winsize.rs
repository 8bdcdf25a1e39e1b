//! The window-size record exchanged with the POSIX terminal driver.
//!
//! The kernel's window-size control operations read and write a four-field
//! record. This module holds that record as plain values, together with the
//! two conversions between it and [`TerminalSize`], and the proof that the
//! pair of conversions is lossless.

use vstd::prelude::*;

use crate::TerminalSize;

verus! {

/// The window-size record of the POSIX terminal interface: rows, columns,
/// and the two pixel fields, which this library always leaves zero.
#[derive(Clone, Copy, Debug, PartialEq, Eq, Structural)]
pub struct Winsize {
    /// Rows, in character cells.
    pub ws_row: u16,
    /// Columns, in character cells.
    pub ws_col: u16,
    /// Horizontal size in pixels; unused, always zero here.
    pub ws_xpixel: u16,
    /// Vertical size in pixels; unused, always zero here.
    pub ws_ypixel: u16,
}

/// The record that a resize operation hands to the driver for size `s`.
pub open spec fn winsize_of(s: TerminalSize) -> Winsize {
    Winsize { ws_row: s.rows, ws_col: s.columns, ws_xpixel: 0, ws_ypixel: 0 }
}

/// The terminal dimensions that record `w` reports.
pub open spec fn size_of_winsize(w: Winsize) -> TerminalSize {
    TerminalSize { rows: w.ws_row, columns: w.ws_col }
}

impl From<TerminalSize> for Winsize {
    /// Builds the record that a resize operation hands to the driver.
    fn from(value: TerminalSize) -> (w: Winsize) {
        Winsize {
            ws_row: value.rows,
            ws_col: value.columns,
            ws_xpixel: 0,
            ws_ypixel: 0,
        }
    }
}

impl vstd::std_specs::convert::FromSpecImpl<TerminalSize> for Winsize {
    open spec fn obeys_from_spec() -> bool {
        true
    }

    open spec fn from_spec(value: TerminalSize) -> Winsize {
        winsize_of(value)
    }
}

impl Winsize {
    /// The terminal dimensions that this record reports.
    pub fn terminal_size(&self) -> (s: TerminalSize)
        ensures
            s == size_of_winsize(*self),
    {
        TerminalSize { rows: self.ws_row, columns: self.ws_col }
    }
}

/// A resize followed by a size query returns the size that was set: the
/// record written into the driver for any `TerminalSize`, read back
/// unchanged, reports exactly that size.
pub proof fn lemma_size_roundtrip(s: TerminalSize)
    ensures
        size_of_winsize(winsize_of(s)) == s,
{
}

} // verus!
