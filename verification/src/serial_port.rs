//! Serial session manager: owns at most one open serial device, exposes
//! open/close/send/receive operations that all report a uniform
//! success-plus-message outcome, and never panics — an operation attempted in
//! the wrong state is rejected with a failure outcome and leaves the state
//! unchanged.

use vstd::prelude::*;
use vstd::string::StringExecFns;
use vstd::string::StringSliceAdditionalSpecFns;
use vstd::utf8::encode_utf8;

use crate::codec::encode;

pub use crate::codec::parse_str_to_serial;

verus! {

/// How many bytes one receive attempt reads at most.
pub const SERIAL_READ_BUFFER_SIZE: usize = 32;

/// The fixed short I/O timeout the device is opened with, in milliseconds.
const SERIAL_OPEN_TIMEOUT_MS: u64 = 10;

/// Uniform outcome of every session operation: a flag and a human-readable
/// message (the received text for a successful receive, an explanation
/// otherwise). A failure always carries a non-empty message.
#[derive(Debug)]
pub struct SerialPortResponse {
    pub success: bool,
    pub content: String,
}

/// One device I/O attempt, classified: completed with a byte count, hit the
/// fixed timeout, or failed with the underlying error text.
pub enum IoStatus {
    Done(usize),
    TimedOut,
    Failed(String),
}

/// A POSIX serial port session: holds the open device, or nothing, and a
/// ghost log of every byte payload handed to the device for writing.
pub struct SerialPort {
    port: Option<serialport::TTYPort>,
    sent: Ghost<Seq<Seq<u8>>>,
}

#[verifier::external_type_specification]
#[verifier::external_body]
pub struct ExTTYPort(serialport::TTYPort);

/// Relies on serialport::new and SerialPortBuilder::{timeout, open_native}:
/// tries to acquire the device at `path` at the given baud rate, with the
/// given I/O timeout; yields the handle only when the open succeeded.
#[verifier::external_body]
fn open_device(path: &str, baud_rate: u32, timeout_ms: u64) -> (r: Option<serialport::TTYPort>) {
    serialport::new(path, baud_rate).timeout(
        std::time::Duration::from_millis(timeout_ms),
    ).open_native().ok()
}

/// Relies on serialport::SerialPort::name for TTYPort: the device path the
/// port was opened under, where one is known.
#[verifier::external_body]
fn device_name(p: &serialport::TTYPort) -> (r: Option<String>) {
    serialport::SerialPort::name(p)
}

/// Relies on serialport::SerialPort::baud_rate for TTYPort: the negotiated
/// baud rate, where the device reports one.
#[verifier::external_body]
fn device_baud_rate(p: &serialport::TTYPort) -> (r: Option<u32>) {
    serialport::SerialPort::baud_rate(p).ok()
}

/// Relies on std::io::Write::write for TTYPort: one write attempt; a
/// completed write reports how many leading bytes went out, never more than
/// were given. A timeout is told apart from any other failure.
#[verifier::external_body]
fn device_write(p: &mut serialport::TTYPort, data: &[u8]) -> (r: IoStatus)
    ensures
        r matches IoStatus::Done(n) ==> n <= data@.len(),
{
    match std::io::Write::write(p, data) {
        Ok(n) => IoStatus::Done(n),
        Err(e) if e.kind() == std::io::ErrorKind::TimedOut => IoStatus::TimedOut,
        Err(e) => IoStatus::Failed(format!("{}", e)),
    }
}

/// Relies on std::io::Read::read for TTYPort: one read attempt into the
/// buffer; a completed read reports how many leading bytes it filled, never
/// more than the buffer holds, and never resizes the buffer. A timeout is
/// told apart from any other failure.
#[verifier::external_body]
fn device_read(p: &mut serialport::TTYPort, buf: &mut Vec<u8>) -> (r: IoStatus)
    ensures
        final(buf)@.len() == old(buf)@.len(),
        r matches IoStatus::Done(n) ==> n <= final(buf)@.len(),
{
    match std::io::Read::read(p, buf.as_mut_slice()) {
        Ok(n) => IoStatus::Done(n),
        Err(e) if e.kind() == std::io::ErrorKind::TimedOut => IoStatus::TimedOut,
        Err(e) => IoStatus::Failed(format!("{}", e)),
    }
}

/// Relies on serialport::available_ports: the names of the ports the system
/// enumeration reports, or nothing where the enumeration fails. Built without
/// libudev, that enumeration scans the tty class directory and aborts outright
/// when the directory itself cannot be read, so the scan is attempted only
/// after a probe of the directory succeeds; an unreadable listing counts as a
/// failed enumeration.
#[verifier::external_body]
fn enumerate_port_names() -> (r: Option<Vec<String>>) {
    if std::path::Path::new("/sys/class/tty/").read_dir().is_err() {
        return None;
    }
    match serialport::available_ports() {
        Ok(ports) => Some(ports.into_iter().map(|p| p.port_name).collect()),
        Err(_) => None,
    }
}

/// What String::from_utf8_lossy makes of a byte sequence; a function of the
/// bytes alone.
pub uninterp spec fn lossy_decode(bytes: Seq<u8>) -> Seq<char>;

/// Relies on String::from_utf8_lossy: decodes the bytes as UTF-8 text,
/// substituting the replacement character for invalid sequences; the result
/// depends on the bytes alone, and no bytes decode to no text.
#[verifier::external_body]
fn decode_text_lossy(bytes: &[u8]) -> (r: String)
    ensures
        r@ == lossy_decode(bytes@),
        bytes@.len() == 0 ==> r@.len() == 0,
{
    String::from_utf8_lossy(bytes).to_string()
}

/// A failure outcome carrying the given explanation.
fn failure_response(msg: &str) -> (r: SerialPortResponse)
    ensures
        !r.success,
        r.content@ == msg@,
{
    SerialPortResponse { success: false, content: msg.to_owned() }
}

/// The decimal digits of `n`, most significant first; empty for zero.
pub open spec fn dec_digits(n: int) -> Seq<char>
    decreases n,
{
    if n <= 0 {
        Seq::empty()
    } else {
        dec_digits(n / 10) + seq![((n % 10 + 48) as u8) as char]
    }
}

/// The usual decimal rendering of a non-negative number: `0` for zero, no
/// leading zeros otherwise.
pub open spec fn dec_str(n: int) -> Seq<char> {
    if n == 0 {
        seq!['0']
    } else {
        dec_digits(n)
    }
}

/// Appends the decimal digits of `n` (none for zero).
fn push_decimal(n: u32, out: &mut Vec<char>)
    ensures
        final(out)@ == old(out)@ + dec_digits(n as int),
    decreases n,
{
    if n == 0 {
        assert(out@ =~= old(out)@ + dec_digits(0));
    } else {
        push_decimal(n / 10, out);
        let d: u8 = (n % 10) as u8;
        out.push((48 + d) as char);
        assert(out@ =~= old(out)@ + dec_digits(n as int));
    }
}

/// The decimal rendering of `n`, as characters.
fn u32_decimal_chars(n: u32) -> (r: Vec<char>)
    ensures
        r@ == dec_str(n as int),
{
    let mut out: Vec<char> = Vec::new();
    if n == 0 {
        out.push('0');
        assert(out@ =~= dec_str(0));
    } else {
        push_decimal(n, &mut out);
        assert(out@ =~= dec_str(n as int));
    }
    out
}

/// The message a successful open reports: the device name and the baud rate.
pub open spec fn open_message(name: Seq<char>, baud: u32) -> Seq<char> {
    "Opened port "@ + name + " with a baudrate of "@ + dec_str(baud as int)
}

/// The message a successful close reports: the name of the port just closed.
pub open spec fn close_message(name: Seq<char>) -> Seq<char> {
    "Port "@ + name + " closed"@
}

/// Builds the message a successful open reports.
pub fn open_success_message(name: &str, baud: u32) -> (r: String)
    ensures
        r@ == open_message(name@, baud),
{
    let mut msg: String = "Opened port ".to_owned();
    msg.append(name);
    msg.append(" with a baudrate of ");
    let digits: Vec<char> = u32_decimal_chars(baud);
    let tail: String = crate::codec::chars_to_string(&digits);
    msg.append(tail.as_str());
    proof {
        assert(msg@ =~= open_message(name@, baud));
    }
    msg
}

/// Builds the message a successful close reports.
pub fn close_success_message(name: &str) -> (r: String)
    ensures
        r@ == close_message(name@),
{
    let mut msg: String = "Port ".to_owned();
    msg.append(name);
    msg.append(" closed");
    proof {
        assert(msg@ =~= close_message(name@));
    }
    msg
}

/// Turns one classified write attempt into the outcome the caller sees:
/// success exactly for a completed write, the fixed timeout text for a
/// timeout, and the underlying error text otherwise; a failure never comes
/// with an empty message.
pub fn write_outcome(st: IoStatus) -> (r: SerialPortResponse)
    ensures
        r.success <==> st is Done,
        st is Done ==> r.content@ == "Request sent"@,
        st is TimedOut ==> r.content@ == "Serial write timed out"@,
        st matches IoStatus::Failed(e) ==> r.content@ == "Serial write error: "@ + e@,
        !r.success ==> r.content@.len() > 0,
{
    match st {
        IoStatus::Done(_) => SerialPortResponse {
            success: true,
            content: "Request sent".to_owned(),
        },
        IoStatus::TimedOut => {
            proof {
                reveal_strlit("Serial write timed out");
            }
            failure_response("Serial write timed out")
        },
        IoStatus::Failed(e) => {
            proof {
                reveal_strlit("Serial write error: ");
            }
            let mut msg: String = "Serial write error: ".to_owned();
            msg.append(e.as_str());
            SerialPortResponse { success: false, content: msg }
        },
    }
}

/// Turns one classified read attempt over the given buffer into the outcome
/// the caller sees: for a completed read of `n` bytes, success with exactly
/// the first `n` bytes decoded as text; the fixed timeout text for a timeout;
/// the underlying error text otherwise. A failure never comes with an empty
/// message.
pub fn read_outcome(st: IoStatus, buf: &Vec<u8>) -> (r: SerialPortResponse)
    requires
        st matches IoStatus::Done(n) ==> n <= buf@.len(),
    ensures
        r.success <==> st is Done,
        st matches IoStatus::Done(n) ==> r.content@ == lossy_decode(buf@.subrange(0, n as int)),
        st is TimedOut ==> r.content@ == "Serial read timed out"@,
        st matches IoStatus::Failed(e) ==> r.content@ == "Serial read error: "@ + e@,
        !r.success ==> r.content@.len() > 0,
{
    match st {
        IoStatus::Done(n) => {
            let prefix = take_prefix(buf, n);
            let text = decode_text_lossy(prefix.as_slice());
            SerialPortResponse { success: true, content: text }
        },
        IoStatus::TimedOut => {
            proof {
                reveal_strlit("Serial read timed out");
            }
            failure_response("Serial read timed out")
        },
        IoStatus::Failed(e) => {
            proof {
                reveal_strlit("Serial read error: ");
            }
            let mut msg: String = "Serial read error: ".to_owned();
            msg.append(e.as_str());
            SerialPortResponse { success: false, content: msg }
        },
    }
}

/// The first `n` bytes of `v`.
fn take_prefix(v: &Vec<u8>, n: usize) -> (r: Vec<u8>)
    requires
        n <= v@.len(),
    ensures
        r@ == v@.subrange(0, n as int),
{
    let mut r: Vec<u8> = Vec::new();
    let mut i: usize = 0;
    while i < n
        invariant
            i <= n,
            n <= v@.len(),
            r@ == v@.subrange(0, i as int),
        decreases n - i,
    {
        r.push(v[i]);
        assert(r@ =~= v@.subrange(0, i as int + 1));
        i = i + 1;
    }
    r
}

/// The enumeration result, or the sentinel: a caller never sees an empty
/// list. Names found are handed through unchanged; a failed or empty
/// enumeration becomes the one-element sentinel list.
pub fn ports_or_sentinel(names: Option<Vec<String>>) -> (r: Vec<String>)
    ensures
        r@.len() > 0,
        names matches Some(ns) ==> ((ns@.len() > 0 ==> r@ == ns@) && (ns@.len() == 0 ==> r@.len()
            == 1 && r@[0]@ == "No ports available"@)),
        names is None ==> r@.len() == 1 && r@[0]@ == "No ports available"@,
{
    match names {
        Some(ns) => {
            if ns.len() > 0 {
                ns
            } else {
                let mut r: Vec<String> = Vec::new();
                r.push("No ports available".to_owned());
                r
            }
        },
        None => {
            let mut r: Vec<String> = Vec::new();
            r.push("No ports available".to_owned());
            r
        },
    }
}

impl SerialPort {
    /// The session is open exactly when it owns a device handle.
    pub closed spec fn is_open(&self) -> bool {
        self.port is Some
    }

    /// Every byte payload this session has handed to the device for writing,
    /// oldest first.
    pub closed spec fn sent_log(&self) -> Seq<Seq<u8>> {
        self.sent@
    }

    /// A fresh session: no port is open and nothing has been sent.
    pub fn new() -> (r: SerialPort)
        ensures
            !r.is_open(),
            r.sent_log() == Seq::<Seq<u8>>::empty(),
    {
        SerialPort { port: None, sent: Ghost(Seq::empty()) }
    }

    /// Opens the serial port at `port_path` with the given baud rate and the
    /// fixed short I/O timeout. Rejected without side effect while a port is
    /// already open; otherwise the session is open afterwards exactly when
    /// the device could be acquired, and an acquisition failure is reported
    /// with a generic message that hides the underlying cause.
    pub fn open_port(&mut self, port_path: &str, baudrate: u32) -> (r: SerialPortResponse)
        ensures
            old(self).is_open() ==> !r.success && *final(self) == *old(self) && r.content@
                == "A port is already open"@,
            !old(self).is_open() ==> (r.success <==> final(self).is_open()),
            !old(self).is_open() && !r.success ==> *final(self) == *old(self) && r.content@
                == "Could not open the port"@,
            final(self).sent_log() == old(self).sent_log(),
            r.success ==> (exists|name: Seq<char>, baud: u32| r.content@ == open_message(
                name,
                baud,
            )),
            !r.success ==> r.content@.len() > 0,
    {
        if self.port.is_some() {
            proof {
                reveal_strlit("A port is already open");
            }
            return failure_response("A port is already open");
        }
        match open_device(port_path, baudrate, SERIAL_OPEN_TIMEOUT_MS) {
            Some(port) => {
                let name: String = match device_name(&port) {
                    Some(n) => n,
                    None => "default".to_owned(),
                };
                let baud: u32 = match device_baud_rate(&port) {
                    Some(b) => b,
                    None => 0,
                };
                self.port = Some(port);
                let content = open_success_message(name.as_str(), baud);
                assert(content@ == open_message(name@, baud));
                SerialPortResponse { success: true, content }
            },
            None => {
                proof {
                    reveal_strlit("Could not open the port");
                }
                failure_response("Could not open the port")
            },
        }
    }

    /// Closes the open port, releasing the device handle, and reports the
    /// closed port's name. Rejected without side effect while no port is
    /// open.
    pub fn close_port(&mut self) -> (r: SerialPortResponse)
        ensures
            !old(self).is_open() ==> !r.success && *final(self) == *old(self) && r.content@
                == "No port is currently open"@,
            old(self).is_open() ==> r.success && !final(self).is_open(),
            old(self).is_open() ==> (exists|name: Seq<char>| r.content@ == close_message(name)),
            final(self).sent_log() == old(self).sent_log(),
            !r.success ==> r.content@.len() > 0,
    {
        if self.port.is_none() {
            proof {
                reveal_strlit("No port is currently open");
            }
            return failure_response("No port is currently open");
        }
        let port = self.port.take().unwrap();
        let name: String = match device_name(&port) {
            Some(n) => n,
            None => "default".to_owned(),
        };
        let content = close_success_message(name.as_str());
        assert(content@ == close_message(name@));
        SerialPortResponse { success: true, content }
    }

    /// Runs `message` through the hex-escape codec and writes the resulting
    /// bytes to the open port in one attempt: what is handed to the device is
    /// exactly the encoded text, as UTF-8 bytes. Rejected while no port is
    /// open; the port stays open whatever the write's outcome, and success
    /// is reported exactly when the write completed.
    pub fn send_once(&mut self, message: &str) -> (r: SerialPortResponse)
        ensures
            !old(self).is_open() ==> !r.success && *final(self) == *old(self) && r.content@
                == "No port is currently open"@,
            old(self).is_open() ==> final(self).is_open(),
            old(self).is_open() ==> final(self).sent_log() == old(self).sent_log().push(
                encode_utf8(encode(message@)),
            ),
            r.success ==> old(self).is_open() && r.content@ == "Request sent"@,
            !r.success ==> r.content@.len() > 0,
    {
        let payload = parse_str_to_serial(message);
        if self.port.is_none() {
            proof {
                reveal_strlit("No port is currently open");
            }
            return failure_response("No port is currently open");
        }
        let ghost prior = self.sent@;
        let mut port = self.port.take().unwrap();
        let bytes: &[u8] = payload.as_str().as_bytes();
        assert(bytes@ == encode_utf8(encode(message@)));
        let st = device_write(&mut port, bytes);
        self.port = Some(port);
        self.sent = Ghost(prior.push(bytes@));
        write_outcome(st)
    }

    /// Reads up to one fixed-size buffer of bytes from the open port in one
    /// attempt and decodes what arrived as text, substituting a replacement
    /// marker for invalid encoding. Rejected while no port is open; the port
    /// stays open whatever the read's outcome, and a success carries exactly
    /// the decoded bytes.
    pub fn read_once(&mut self) -> (r: SerialPortResponse)
        ensures
            !old(self).is_open() ==> !r.success && *final(self) == *old(self) && r.content@
                == "No port is currently open"@,
            old(self).is_open() ==> final(self).is_open(),
            r.success ==> old(self).is_open(),
            r.success ==> (exists|bytes: Seq<u8>|
                bytes.len() <= SERIAL_READ_BUFFER_SIZE && r.content@ == lossy_decode(bytes)),
            final(self).sent_log() == old(self).sent_log(),
            !r.success ==> r.content@.len() > 0,
    {
        if self.port.is_none() {
            proof {
                reveal_strlit("No port is currently open");
            }
            return failure_response("No port is currently open");
        }
        let mut port = self.port.take().unwrap();
        let mut buf: Vec<u8> = Vec::new();
        let mut i: usize = 0;
        while i < SERIAL_READ_BUFFER_SIZE
            invariant
                buf@.len() == i,
                i <= SERIAL_READ_BUFFER_SIZE,
            decreases SERIAL_READ_BUFFER_SIZE - i,
        {
            buf.push(0);
            i = i + 1;
        }
        let st = device_read(&mut port, &mut buf);
        self.port = Some(port);
        let ghost gst = st;
        let r = read_outcome(st, &buf);
        proof {
            match gst {
                IoStatus::Done(n) => {
                    assert(r.content@ == lossy_decode(buf@.subrange(0, n as int)));
                    assert(buf@.subrange(0, n as int).len() <= SERIAL_READ_BUFFER_SIZE);
                },
                _ => {},
            }
        }
        r
    }

    /// The ports the system enumeration reports; never empty, since a failed
    /// or empty enumeration is replaced by the one-element sentinel list.
    pub fn get_available_port_names() -> (r: Vec<String>)
        ensures
            r@.len() > 0,
    {
        let names = enumerate_port_names();
        ports_or_sentinel(names)
    }
}

} // verus!
