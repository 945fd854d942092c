use serial_term_rpc::serial_port::close_success_message;
use serial_term_rpc::serial_port::open_success_message;
use serial_term_rpc::serial_port::ports_or_sentinel;
use serial_term_rpc::serial_port::read_outcome;
use serial_term_rpc::serial_port::write_outcome;
use serial_term_rpc::serial_port::IoStatus;
use serial_term_rpc::serial_port::SerialPort;

#[test]
fn close_while_closed_rejected() {
    let mut sp = SerialPort::new();
    let r = sp.close_port();
    assert!(!r.success);
    assert_eq!("No port is currently open", r.content);
}

#[test]
fn send_while_closed_rejected() {
    let mut sp = SerialPort::new();
    let r = sp.send_once("0x41");
    assert!(!r.success);
    assert_eq!("No port is currently open", r.content);
}

#[test]
fn read_while_closed_rejected() {
    let mut sp = SerialPort::new();
    let r = sp.read_once();
    assert!(!r.success);
    assert_eq!("No port is currently open", r.content);
}

#[test]
fn open_failure_reported_generically() {
    let mut sp = SerialPort::new();
    let r = sp.open_port("/nonexistent/surely-no-such-port", 9600);
    assert!(!r.success);
    assert_eq!("Could not open the port", r.content);
    let closed = sp.close_port();
    assert!(!closed.success);
}

#[test]
fn open_twice_rejected_and_close_releases() {
    let mut sp = SerialPort::new();
    let first = sp.open_port("/dev/ptmx", 9600);
    if first.success {
        assert!(first.content.starts_with("Opened port "));
        assert!(first.content.contains("with a baudrate of"));
        let second = sp.open_port("/dev/ptmx", 9600);
        assert!(!second.success);
        assert_eq!("A port is already open", second.content);
        let closed = sp.close_port();
        assert!(closed.success);
        assert!(closed.content.starts_with("Port "));
        assert!(closed.content.ends_with(" closed"));
        let after = sp.send_once("0x41");
        assert!(!after.success);
        assert_eq!("No port is currently open", after.content);
    } else {
        let closed = sp.close_port();
        assert!(!closed.success);
        assert_eq!("No port is currently open", closed.content);
    }
}

#[test]
fn open_message_formula() {
    assert_eq!(
        "Opened port /dev/ttyUSB0 with a baudrate of 9600",
        open_success_message("/dev/ttyUSB0", 9600)
    );
    assert_eq!(
        "Opened port default with a baudrate of 0",
        open_success_message("default", 0)
    );
}

#[test]
fn close_message_formula() {
    assert_eq!("Port COM3 closed", close_success_message("COM3"));
}

#[test]
fn write_outcome_classification() {
    let done = write_outcome(IoStatus::Done(3));
    assert!(done.success);
    assert_eq!("Request sent", done.content);

    let timed = write_outcome(IoStatus::TimedOut);
    assert!(!timed.success);
    assert_eq!("Serial write timed out", timed.content);

    let failed = write_outcome(IoStatus::Failed(String::from("device gone")));
    assert!(!failed.success);
    assert_eq!("Serial write error: device gone", failed.content);
}

#[test]
fn read_outcome_classification() {
    let buf: Vec<u8> = vec![104, 105, 0, 0];
    let done = read_outcome(IoStatus::Done(2), &buf);
    assert!(done.success);
    assert_eq!("hi", done.content);

    let empty = read_outcome(IoStatus::Done(0), &buf);
    assert!(empty.success);
    assert_eq!("", empty.content);

    let timed = read_outcome(IoStatus::TimedOut, &buf);
    assert!(!timed.success);
    assert_eq!("Serial read timed out", timed.content);

    let failed = read_outcome(IoStatus::Failed(String::from("device gone")), &buf);
    assert!(!failed.success);
    assert_eq!("Serial read error: device gone", failed.content);
}

#[test]
fn read_outcome_decodes_lossily() {
    let buf: Vec<u8> = vec![0xFF, 0xFE, 65];
    let done = read_outcome(IoStatus::Done(3), &buf);
    assert!(done.success);
    assert_eq!("\u{FFFD}\u{FFFD}A", done.content);
}

#[test]
fn ports_or_sentinel_never_empty() {
    let from_failure = ports_or_sentinel(None);
    assert_eq!(vec![String::from("No ports available")], from_failure);

    let from_empty = ports_or_sentinel(Some(Vec::new()));
    assert_eq!(vec![String::from("No ports available")], from_empty);

    let found = ports_or_sentinel(Some(vec![String::from("/dev/ttyS0")]));
    assert_eq!(vec![String::from("/dev/ttyS0")], found);
}

#[test]
fn available_port_names_never_empty() {
    let names = SerialPort::get_available_port_names();
    assert!(!names.is_empty());
}
