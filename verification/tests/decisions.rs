use pseudoterminal::error::TerminalError;
use pseudoterminal::pty::set_flag_bits;
use pseudoterminal::stream::{read_progress, write_progress};
use pseudoterminal::terminal::close_outcome;

#[test]
fn write_progress_advances_by_the_accepted_count() {
    assert_eq!(write_progress(Ok(3), 2, 10), Ok(5));
    assert_eq!(write_progress(Ok(8), 0, 8), Ok(8));
}

#[test]
fn write_progress_turns_no_progress_into_write_zero() {
    assert_eq!(write_progress(Ok(0), 2, 10), Err(TerminalError::WriteZero));
}

#[test]
fn write_progress_carries_the_os_code() {
    assert_eq!(write_progress(Err(9), 0, 1), Err(TerminalError::Io(9)));
}

#[test]
fn read_progress_advances_by_the_arrived_count() {
    assert_eq!(read_progress(Ok(4), 1, 10), Ok(5));
}

#[test]
fn read_progress_turns_an_early_end_into_unexpected_eof() {
    assert_eq!(read_progress(Ok(0), 3, 10), Err(TerminalError::UnexpectedEof));
}

#[test]
fn read_progress_carries_the_os_code() {
    assert_eq!(read_progress(Err(11), 0, 4), Err(TerminalError::Io(11)));
}

#[test]
fn close_outcome_accepts_success_and_a_gone_child() {
    assert_eq!(close_outcome(Ok(()), 3), Ok(()));
    assert_eq!(close_outcome(Err(3), 3), Ok(()));
}

#[test]
fn close_outcome_reports_any_other_kill_failure() {
    assert_eq!(close_outcome(Err(1), 3), Err(TerminalError::Io(1)));
    assert_eq!(close_outcome(Err(13), 3), Err(TerminalError::Io(13)));
}

#[test]
fn set_flag_bits_sets_the_bit_and_keeps_the_rest() {
    assert_eq!(set_flag_bits(0b100, 0b1), 0b101);
    assert_eq!(set_flag_bits(0, 0b1000), 0b1000);
    assert_eq!(set_flag_bits(0b1010, 0b1010), 0b1010);
    let word = set_flag_bits(0x4001, 0x800);
    assert_eq!(word & 0x4001, 0x4001);
    assert_eq!(word & 0x800, 0x800);
}
