use pseudoterminal::error::TerminalError;
use pseudoterminal::pty::PtyDevice;
use pseudoterminal::TerminalSize;

#[test]
fn device_opens_with_two_distinct_descriptors() {
    let dev = PtyDevice::open(TerminalSize::default()).expect("should allocate a device");
    assert!(dev.master_fd() >= 0);
    assert!(dev.slave_fd() >= 0);
    assert_ne!(dev.master_fd(), dev.slave_fd());
    dev.release().expect("should release both descriptors");
}

#[test]
fn endpoints_are_fresh_duplicates_of_the_master() {
    let dev = PtyDevice::open(TerminalSize::default()).expect("should allocate a device");
    let (tin, tout) = dev.endpoints().expect("should duplicate the master");
    assert!(tin.raw_fd() >= 0);
    assert!(tout.raw_fd() >= 0);
    assert_ne!(tin.raw_fd(), tout.raw_fd());
    assert_ne!(tin.raw_fd(), dev.master_fd());
    assert_ne!(tout.raw_fd(), dev.master_fd());
    tin.close().expect("write endpoint should close");
    tout.close().expect("read endpoint should close");
    dev.release().expect("should release both descriptors");
}

#[test]
fn written_bytes_echo_back_unchanged() {
    // The device's line discipline echoes input; the bytes written to the
    // input endpoint come back on the output endpoint unchanged, which
    // shows the pipe itself is transparent.
    let dev = PtyDevice::open(TerminalSize::default()).expect("should allocate a device");
    let (mut tin, mut tout) = dev.endpoints().expect("should duplicate the master");

    let message = b"Hello, World!\r\n";
    tin.write_all(message).expect("should write every byte");
    tin.flush().expect("flush always succeeds");

    let mut buf = vec![0u8; message.len()];
    tout.read_exact(&mut buf).expect("terminal output was not readable");
    assert_eq!(buf, message);

    tin.close().expect("write endpoint should close");
    tout.close().expect("read endpoint should close");
    dev.release().expect("should release both descriptors");
}

#[test]
fn single_write_reports_how_much_was_taken() {
    let dev = PtyDevice::open(TerminalSize::default()).expect("should allocate a device");
    let (mut tin, mut tout) = dev.endpoints().expect("should duplicate the master");

    let message = b"ping\r\n";
    let n = tin.write(message).expect("should write");
    assert!(n <= message.len());

    let mut buf = vec![0u8; 1];
    let got = tout.read(&mut buf).expect("should read at least one byte");
    assert_eq!(got, 1);
    assert_eq!(buf[0], b'p');

    tin.close().unwrap();
    tout.close().unwrap();
    dev.release().unwrap();
}

#[test]
fn nonblocking_read_fails_instead_of_waiting() {
    let dev = PtyDevice::open(TerminalSize::default()).expect("should allocate a device");
    dev.set_nonblocking().expect("should set the non-blocking flag");
    let (tin, mut tout) = dev.endpoints().expect("should duplicate the master");

    let mut buf = vec![0u8; 8];
    let r = tout.read(&mut buf);
    match r {
        Err(TerminalError::Io(code)) => assert!(code > 0),
        other => panic!("expected an Io error on an empty non-blocking read, got {:?}", other),
    }

    tin.close().unwrap();
    tout.close().unwrap();
    dev.release().unwrap();
}
