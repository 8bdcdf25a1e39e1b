use pseudoterminal::pty::PtyDevice;
use pseudoterminal::terminal::Terminal;
use pseudoterminal::TerminalSize;

// No process is spawned here, so the handles are assembled with a process
// id that certainly names no live process; `close` treats an
// already-gone child as not an error.
const GONE_PID: i32 = i32::MAX;

fn assembled_terminal() -> Terminal {
    let dev = PtyDevice::open(TerminalSize::default()).expect("should allocate a device");
    let (tin, tout) = dev.endpoints().expect("should duplicate the master");
    Terminal::new(dev, GONE_PID, tin, tout)
}

#[test]
fn split_returns_the_endpoints_once() {
    let mut terminal = assembled_terminal();
    assert!(terminal.terminal_in.is_some());
    assert!(terminal.terminal_out.is_some());

    let pair = terminal.split();
    assert!(pair.is_some());
    assert!(terminal.terminal_in.is_none());
    assert!(terminal.terminal_out.is_none());

    let second = terminal.split();
    assert!(second.is_none());

    let (tin, tout) = pair.unwrap();
    tin.close().expect("split-out write endpoint should close");
    tout.close().expect("split-out read endpoint should close");
    terminal.close().expect("close should succeed after a split");
}

#[test]
fn split_endpoints_outlive_the_handle_and_fail_cleanly() {
    // The endpoints' descriptors are independent duplicates: closing the
    // handle does not invalidate them as values, and once the device side
    // is gone their reads surface an OS error instead of hanging.
    let mut terminal = assembled_terminal();
    let (tin, mut tout) = terminal.split().expect("should be able to split terminal");
    terminal.close().expect("close should succeed after a split");

    let mut buf = vec![0u8; 4];
    let r = tout.read(&mut buf);
    assert!(r.is_err());

    tin.close().expect("split-out write endpoint should close");
    tout.close().expect("split-out read endpoint should close");
}

#[test]
fn close_tolerates_an_already_gone_child() {
    let terminal = assembled_terminal();
    terminal.close().expect("failed to close terminal");
}

#[test]
fn close_releases_unsplit_endpoints_too() {
    // A terminal that was never split still closes cleanly: the handle
    // owns both endpoints and releases them itself.
    let terminal = assembled_terminal();
    assert!(terminal.terminal_in.is_some());
    terminal.close().expect("failed to close terminal");
}
