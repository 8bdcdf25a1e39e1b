//! Size and result conversions for the pseudo-console backend.
//!
//! The pseudo-console flavour of the terminal backend sizes its screen
//! buffer with a pair of 16-bit signed coordinates and reports failure
//! through a signed 32-bit result code, negative on failure. The
//! conversions into those shapes are plain value logic and are verified
//! here; the console object itself is driven by the platform layer.

use vstd::prelude::*;

use crate::TerminalSize;
use crate::error::TerminalError;

verus! {

/// A pair of 16-bit coordinates, the size format of the pseudo-console
/// interface.
#[allow(non_snake_case)]
#[derive(Clone, Copy, Debug, PartialEq, Eq, Structural)]
pub struct COORD {
    /// The first coordinate of the pair.
    pub X: i16,
    /// The second coordinate of the pair.
    pub Y: i16,
}

/// The coordinate pair handed to the console for size `s`, in the
/// console's native order: `X` is the width, so it carries the columns,
/// and `Y` is the height, so it carries the rows. The two 16-bit unsigned
/// dimensions are reinterpreted as signed values, as the console
/// interface demands.
pub open spec fn coord_of(s: TerminalSize) -> COORD {
    COORD { X: s.columns as i16, Y: s.rows as i16 }
}

impl From<TerminalSize> for COORD {
    /// Builds the coordinate pair handed to the console: width (columns)
    /// into `X`, height (rows) into `Y`.
    fn from(size: TerminalSize) -> (c: COORD) {
        COORD {
            X: #[verifier::truncate] (size.columns as i16),
            Y: #[verifier::truncate] (size.rows as i16),
        }
    }
}

impl vstd::std_specs::convert::FromSpecImpl<TerminalSize> for COORD {
    open spec fn obeys_from_spec() -> bool {
        true
    }

    open spec fn from_spec(size: TerminalSize) -> COORD {
        coord_of(size)
    }
}

/// Relies on `std::io::Error::last_os_error`, which reads the error code
/// the most recent OS call left for this thread. The code depends on that
/// call, so nothing more can be said of the value.
#[verifier::external_body]
fn last_os_error_code() -> (r: Option<i32>) {
    std::io::Error::last_os_error().raw_os_error()
}

/// Turns a signed result code of the console interface into a `Result`:
/// negative codes report failure, all others success. On failure the error
/// carries the OS error code of the failing call, or zero when the OS
/// reported none.
pub fn cvt(res: i32) -> (r: Result<(), TerminalError>)
    ensures
        r is Ok <==> res >= 0,
        r matches Err(e) ==> e is ControlOperation,
{
    if res < 0 {
        let code: i32 = match last_os_error_code() {
            Some(c) => c,
            None => 0,
        };
        Err(TerminalError::ControlOperation(code))
    } else {
        Ok(())
    }
}

} // verus!
