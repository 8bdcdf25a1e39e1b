use pseudoterminal::console::{cvt, COORD};
use pseudoterminal::error::TerminalError;
use pseudoterminal::winsize::Winsize;
use pseudoterminal::TerminalSize;

#[test]
fn default_size_is_24_by_80() {
    let s = TerminalSize::default();
    assert_eq!(s.rows, 24);
    assert_eq!(s.columns, 80);
}

#[test]
fn winsize_carries_rows_and_columns() {
    let s = TerminalSize { rows: 60, columns: 40 };
    let w = Winsize::from(s);
    assert_eq!(w.ws_row, 60);
    assert_eq!(w.ws_col, 40);
    assert_eq!(w.ws_xpixel, 0);
    assert_eq!(w.ws_ypixel, 0);
}

#[test]
fn winsize_roundtrip_returns_the_size_that_was_set() {
    let s = TerminalSize { rows: 40, columns: 60 };
    let w = Winsize::from(s);
    assert_eq!(w.terminal_size(), s);

    let largest = TerminalSize { rows: u16::MAX, columns: u16::MAX };
    assert_eq!(Winsize::from(largest).terminal_size(), largest);

    let empty = TerminalSize { rows: 0, columns: 0 };
    assert_eq!(Winsize::from(empty).terminal_size(), empty);
}

#[test]
fn coord_uses_the_native_width_height_order() {
    // X is the console's width, so it carries the columns; Y is the
    // height, so it carries the rows.
    let c = COORD::from(TerminalSize { rows: 24, columns: 80 });
    assert_eq!(c.X, 80);
    assert_eq!(c.Y, 24);

    // Dimensions beyond i16::MAX wrap into negative coordinates.
    let big = COORD::from(TerminalSize { rows: 40000, columns: 33000 });
    assert_eq!(big.X, 33000u16 as i16);
    assert_eq!(big.Y, 40000u16 as i16);
    assert!(big.X < 0);
}

#[test]
fn cvt_accepts_non_negative_results() {
    assert!(cvt(0).is_ok());
    assert!(cvt(7).is_ok());
    assert!(cvt(i32::MAX).is_ok());
}

#[test]
fn cvt_rejects_negative_results() {
    let r = cvt(-1);
    assert!(matches!(r, Err(TerminalError::ControlOperation(_))));
    assert!(cvt(i32::MIN).is_err());
}

#[test]
fn os_code_is_attached_where_one_exists() {
    assert_eq!(TerminalError::Allocation(12).os_code(), Some(12));
    assert_eq!(TerminalError::Bind(13).os_code(), Some(13));
    assert_eq!(TerminalError::Spawn(2).os_code(), Some(2));
    assert_eq!(TerminalError::ControlOperation(22).os_code(), Some(22));
    assert_eq!(TerminalError::Io(5).os_code(), Some(5));
    assert_eq!(TerminalError::Unsupported.os_code(), None);
    assert_eq!(TerminalError::WriteZero.os_code(), None);
    assert_eq!(TerminalError::UnexpectedEof.os_code(), None);
}
