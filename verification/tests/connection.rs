use msxterm::connection::{
    choose_target, classify_target, is_valid_ip_port, is_varid_serial_port, Connection,
    ConnectionType, Platform, Target, SERIAL_BAUD,
};
use std::io::{Error, ErrorKind};

#[test]
fn test_ip_port() {
    assert_eq!(is_valid_ip_port("192.168.128.7:2223"), true);
    assert_eq!(is_valid_ip_port("192.234.456.122:2223"), false);
    assert_eq!(is_valid_ip_port("192.234.156.122:70223"), false);
    assert_eq!(is_valid_ip_port("localhot:2223"), false);
}

#[test]
fn test_serial_path() {
    assert_eq!(is_varid_serial_port(Platform::Windows, "COM3"), true);
    assert_eq!(is_varid_serial_port(Platform::Windows, "com1"), false);
    assert_eq!(is_varid_serial_port(Platform::Linux, "/dev/ttyS1"), true);
    assert_eq!(is_varid_serial_port(Platform::Linux, "/dev/ttyUSB1"), true);
    assert_eq!(is_varid_serial_port(Platform::MacOs, "/dev/tty.usbserial-559B0204231"), true);
    assert_eq!(is_varid_serial_port(Platform::MacOs, "/dev/cu.usbserial-559B0204231"), true);
}

#[test]
fn ip_port_takes_the_whole_string() {
    for ok in ["0.0.0.0:0", "255.255.255.255:65535", "127.0.0.1:+80", "10.0.0.1:0080"] {
        assert!(is_valid_ip_port(ok), "{}", ok);
    }
    for bad in [
        "",
        ":",
        "192.168.1.1",
        "192.168.1.1:",
        ":2223",
        "192.168.1.1:99999",
        "192.168.1.1:65536",
        "192.168.1.1:-1",
        "192.168.1.1:80:80",
        "192.168.1:80",
        "192.168.1.1.1:80",
        "192.168.1.256:80",
        "192.168.01.1:80",
        "192.168.1.1000:80",
        "192.168..1:80",
        "192.168.1.1 :80",
        " 192.168.1.1:80",
        "192.168.1.+1:80",
        "192.168.1.a:80",
        "::1:80",
        "[::1]:80",
        "localhost:80",
        "１.1.1.1:80",
    ] {
        assert!(!is_valid_ip_port(bad), "{}", bad);
    }
}

#[test]
fn ip_port_expected_values() {
    for (s, expected) in [
        ("192.168.128.7:2223", true),
        ("192.234.456.122:2223", false),
        ("192.168.1.1:99999", false),
        ("0.0.0.0:0", true),
        ("00.0.0.0:0", false),
        ("1.2.3:4", false),
        ("1.2.3.4:", false),
        ("1.2.3.4:+5", true),
        ("1.2.3.4:5:6", false),
        ("256.1.1.1:1", false),
        ("1.1.1.1:65536", false),
        ("abcd::1", false),
        ("1.2.3.4", false),
        ("1.2.3.4:00000000000000000000000007", true),
    ] {
        assert_eq!(is_valid_ip_port(s), expected, "{}", s);
    }
}

#[test]
fn serial_names_depend_on_the_platform() {
    assert!(!is_varid_serial_port(Platform::Linux, "COM3"));
    assert!(!is_varid_serial_port(Platform::Windows, "/dev/ttyS1"));
    assert!(!is_varid_serial_port(Platform::MacOs, "/dev/ttyS1"));
    assert!(is_varid_serial_port(Platform::MacOs, "/dev/tty.x"));
    assert!(!is_varid_serial_port(Platform::Linux, "/dev/ttyS"));
    assert!(!is_varid_serial_port(Platform::Linux, "/dev/ttyUSB1x"));
    assert!(!is_varid_serial_port(Platform::Linux, "x/dev/ttyUSB1"));
    assert!(!is_varid_serial_port(Platform::Windows, "COM"));
    assert!(is_varid_serial_port(Platform::Windows, "COM12"));
    assert!(!is_varid_serial_port(Platform::Linux, ""));
}

#[test]
fn targets_are_classified() {
    assert_eq!(classify_target(Platform::Linux, "192.168.128.7:2223"), Target::Tcp);
    assert_eq!(classify_target(Platform::Windows, "192.168.128.7:2223"), Target::Tcp);
    assert_eq!(classify_target(Platform::Linux, "192.234.456.122:2223"), Target::Invalid);
    assert_eq!(classify_target(Platform::Linux, "192.168.1.1:99999"), Target::Invalid);
    assert_eq!(classify_target(Platform::Windows, "192.168.1.1:99999"), Target::Invalid);
    assert_eq!(classify_target(Platform::MacOs, "192.168.1.1:99999"), Target::Invalid);
    assert_eq!(classify_target(Platform::Linux, "/dev/ttyUSB0"), Target::Serial);
    assert_eq!(classify_target(Platform::Windows, "COM3"), Target::Serial);
    assert_eq!(classify_target(Platform::MacOs, "/dev/cu.usbserial-1"), Target::Serial);
    assert_eq!(classify_target(Platform::Linux, "COM3"), Target::Invalid);
    assert_eq!(classify_target(Platform::Linux, ""), Target::Invalid);
}

#[test]
fn address_test_comes_first() {
    assert_eq!(choose_target(true, true), Target::Tcp);
    assert_eq!(choose_target(true, false), Target::Tcp);
    assert_eq!(choose_target(false, true), Target::Serial);
    assert_eq!(choose_target(false, false), Target::Invalid);
}

#[test]
fn serial_speed() {
    assert_eq!(SERIAL_BAUD, 115200);
}

struct Script {
    fail: bool,
    incoming: Vec<u8>,
    written: Vec<u8>,
    flushed: usize,
    closed: usize,
}

impl Script {
    fn new(fail: bool) -> Script {
        Script { fail, incoming: vec![0x4F, 0x6B], written: Vec::new(), flushed: 0, closed: 0 }
    }

    fn result(&self) -> Result<(), Error> {
        if self.fail {
            Err(Error::new(ErrorKind::Other, "broken"))
        } else {
            Ok(())
        }
    }
}

impl Connection for Script {
    fn read(&mut self, buf: &mut [u8]) -> Result<usize, Error> {
        self.result()?;
        let n = self.incoming.len().min(buf.len());
        buf[..n].copy_from_slice(&self.incoming[..n]);
        self.incoming.drain(..n);
        Ok(n)
    }

    fn write(&mut self, buf: &[u8]) -> Result<(), Error> {
        self.result()?;
        self.written.extend_from_slice(buf);
        Ok(())
    }

    fn flush(&mut self) -> Result<(), Error> {
        self.flushed += 1;
        self.result()
    }

    fn close(&mut self) -> Result<(), Error> {
        self.closed += 1;
        self.result()
    }
}

type Transport = ConnectionType<Script, Script>;

#[test]
fn invalid_transport_fails_with_its_reason() {
    let mut c: Transport = ConnectionType::bad_param();
    let mut buf = [7u8; 4];
    assert_eq!(c.write(b"x"), Err("ParamError".to_string()));
    assert_eq!(c.read(&mut buf), Err("ParamError".to_string()));
    assert_eq!(buf, [7u8; 4]);
    assert_eq!(c.flush(), Err("ParamError".to_string()));
    assert_eq!(c.close(), Err("ParamError".to_string()));
    assert!(matches!(c, ConnectionType::BadParam(ref e) if e == "ParamError"));
}

#[test]
fn failed_opening_keeps_the_reason() {
    let mut c: Transport = ConnectionType::from_tcp(Err(Error::new(ErrorKind::Other, "refused")));
    assert_eq!(c.write(b"x"), Err("refused".to_string()));
    let mut c: Transport = ConnectionType::from_serial(Err(Error::new(ErrorKind::Other, "busy")));
    assert_eq!(c.flush(), Err("busy".to_string()));
}

#[test]
fn tcp_transport_passes_the_calls_on() {
    let mut c: Transport = ConnectionType::from_tcp(Ok(Script::new(false)));
    assert_eq!(c.write(b"RUN\r"), Ok(()));
    assert_eq!(c.flush(), Ok(()));
    let mut buf = [0u8; 8];
    assert_eq!(c.read(&mut buf), Ok(2));
    assert_eq!(&buf[..2], &[0x4F, 0x6B]);
    assert_eq!(c.read(&mut buf), Ok(0));
    assert_eq!(c.close(), Ok(()));
    match c {
        ConnectionType::Tcp(s) => {
            assert_eq!(s.written, b"RUN\r".to_vec());
            assert_eq!(s.flushed, 1);
            assert_eq!(s.closed, 1);
        }
        _ => panic!("the transport changed its kind"),
    }
}

#[test]
fn serial_transport_needs_no_closing() {
    let mut c: Transport = ConnectionType::from_serial(Ok(Script::new(false)));
    assert_eq!(c.write(b"A"), Ok(()));
    assert_eq!(c.close(), Ok(()));
    match c {
        ConnectionType::Serial(s) => {
            assert_eq!(s.written, b"A".to_vec());
            assert_eq!(s.closed, 0);
        }
        _ => panic!("the transport changed its kind"),
    }
    let mut failing: Transport = ConnectionType::from_serial(Ok(Script::new(true)));
    assert_eq!(failing.close(), Ok(()));
}

#[test]
fn failures_of_the_channel_become_text() {
    let mut c: Transport = ConnectionType::from_tcp(Ok(Script::new(true)));
    let mut buf = [0u8; 2];
    assert_eq!(c.write(b"x"), Err("broken".to_string()));
    assert_eq!(c.read(&mut buf), Err("broken".to_string()));
    assert_eq!(c.flush(), Err("broken".to_string()));
    assert_eq!(c.close(), Err("broken".to_string()));
    assert!(matches!(c, ConnectionType::Tcp(_)));
}
