use vstd::prelude::*;
use crate::text::{
    bounded_value, chars_of, parse_u16, read_digits, read_u16, split, split_chars, views,
};

verus! {

/// The speed at which a serial port is opened, in bits per second.
pub const SERIAL_BAUD: u32 = 115_200;

/// Whether `s` writes one of the four numbers of an IPv4 address: one to
/// three decimal digits, no zero before another digit, at most 255.
pub open spec fn is_octet(s: Seq<char>) -> bool {
    &&& 1 <= s.len() <= 3
    &&& s.len() > 1 ==> s.first() != '0'
    &&& bounded_value(s, 10, 255) is Some
}

/// Whether each of `parts` is an octet.
pub open spec fn all_octets(parts: Seq<Seq<char>>) -> bool {
    forall|i: int| 0 <= i < parts.len() ==> is_octet(#[trigger] parts[i])
}

/// Whether `s` is an IPv4 address in dotted decimal form.
pub open spec fn is_ipv4(s: Seq<char>) -> bool {
    let parts = split(s, '.');
    parts.len() == 4 && all_octets(parts)
}

/// Whether `s` names a TCP endpoint: an IPv4 address, a colon and a port
/// number, with nothing else and no further colon. An IPv6 address holds
/// colons of its own, so none is taken.
pub open spec fn is_ip_port(s: Seq<char>) -> bool {
    let parts = split(s, ':');
    parts.len() == 2 && is_ipv4(parts[0]) && parse_u16(parts[1]) is Some
}

/// Tests whether `v` writes an octet.
fn check_octet(v: &Vec<char>) -> (b: bool)
    ensures
        b == is_octet(v@),
{
    proof {
        assert(v@.subrange(0, v.len() as int) == v@);
    }
    if v.len() < 1 || v.len() > 3 {
        false
    } else if v.len() > 1 && v[0] == '0' {
        false
    } else {
        read_digits(v, 0, v.len(), 10, 255).is_some()
    }
}

/// Tests whether `v` is an IPv4 address in dotted decimal form.
fn check_ipv4(v: &Vec<char>) -> (b: bool)
    ensures
        b == is_ipv4(v@),
{
    let parts = split_chars(v, '.');
    let ghost all = views(parts@);
    proof {
        assert(all.len() == parts.len());
    }
    if parts.len() != 4 {
        return false;
    }
    let mut i: usize = 0;
    while i < parts.len()
        invariant
            i <= parts.len() == 4,
            all == views(parts@),
            all == split(v@, '.'),
            forall|j: int| 0 <= j < i ==> is_octet(#[trigger] all[j]),
        decreases parts.len() - i,
    {
        proof {
            assert(all[i as int] == parts[i as int]@);
        }
        if !check_octet(&parts[i]) {
            proof {
                assert(!is_octet(all[i as int]));
            }
            return false;
        }
        i += 1;
    }
    true
}

/// Tests whether `input` names a TCP endpoint.
pub fn is_valid_ip_port(input: &str) -> (b: bool)
    ensures
        b == is_ip_port(input@),
{
    let chars = chars_of(input);
    let parts = split_chars(&chars, ':');
    proof {
        assert(views(parts@).len() == parts.len());
    }
    if parts.len() != 2 {
        return false;
    }
    proof {
        assert(views(parts@)[0] == parts[0]@);
        assert(views(parts@)[1] == parts[1]@);
        assert(parts[1]@.subrange(0, parts[1].len() as int) == parts[1]@);
    }
    if !check_ipv4(&parts[0]) {
        return false;
    }
    read_u16(&parts[1], 0, parts[1].len()).is_some()
}

/// The families of systems, which name their serial devices differently.
#[derive(Clone, Copy, Debug, PartialEq, Eq, Structural)]
pub enum Platform {
    Windows,
    Linux,
    MacOs,
}

/// The regular expression that the names of serial devices match on a
/// platform.
pub open spec fn serial_pattern(os: Platform) -> Seq<char> {
    match os {
        Platform::Windows => r"^COM\d+$"@,
        Platform::Linux => r"^/dev/ttyS\d+$|^/dev/ttyUSB\d+$"@,
        Platform::MacOs => r"^/dev/cu\.usbserial-\w+$|^/dev/tty\..+$"@,
    }
}

/// Whether the regular expression `pattern` matches somewhere in `text`;
/// `None` if `pattern` is no regular expression.
pub uninterp spec fn regex_found(pattern: Seq<char>, text: Seq<char>) -> Option<bool>;

/// `Regex::new` and `Regex::is_match` of `regex`: the pattern is compiled and
/// the text searched for a match. Whether the pattern compiles, and whether it
/// matches, depends on the pattern and the text alone.
#[verifier::external_body]
fn find_pattern(pattern: &str, text: &str) -> (found: Option<bool>)
    ensures
        found == regex_found(pattern@, text@),
{
    match regex::Regex::new(pattern) {
        Ok(re) => Some(re.is_match(text)),
        Err(_) => None,
    }
}

/// Whether the search for the pattern of serial devices found the name.
pub open spec fn is_found(found: Option<bool>) -> bool {
    found == Some(true)
}

/// Looks up the pattern of the names of serial devices.
pub fn serial_pattern_of(os: Platform) -> (pattern: &'static str)
    ensures
        pattern@ == serial_pattern(os),
{
    match os {
        Platform::Windows => r"^COM\d+$",
        Platform::Linux => r"^/dev/ttyS\d+$|^/dev/ttyUSB\d+$",
        Platform::MacOs => r"^/dev/cu\.usbserial-\w+$|^/dev/tty\..+$",
    }
}

/// Tests whether `path` names a serial device of the platform.
pub fn is_varid_serial_port(os: Platform, path: &str) -> (b: bool)
    ensures
        b == is_found(regex_found(serial_pattern(os), path@)),
{
    match find_pattern(serial_pattern_of(os), path) {
        Some(found) => found,
        None => false,
    }
}

/// What a connection target names.
#[derive(Clone, Copy, Debug, PartialEq, Eq, Structural)]
pub enum Target {
    /// An address and a port: a TCP connection.
    Tcp,
    /// A serial device.
    Serial,
    /// Neither.
    Invalid,
}

/// The kind of a target, from the two tests on it. The test for an address
/// and port comes first.
pub open spec fn target_of(ip_port: bool, serial: bool) -> Target {
    if ip_port {
        Target::Tcp
    } else if serial {
        Target::Serial
    } else {
        Target::Invalid
    }
}

/// Decides the kind of a target from the two tests on it.
pub fn choose_target(ip_port: bool, serial: bool) -> (target: Target)
    ensures
        target == target_of(ip_port, serial),
{
    if ip_port {
        Target::Tcp
    } else if serial {
        Target::Serial
    } else {
        Target::Invalid
    }
}

/// Finds what a connection target names on the platform.
pub fn classify_target(os: Platform, param: &str) -> (target: Target)
    ensures
        target == target_of(
            is_ip_port(param@),
            is_found(regex_found(serial_pattern(os), param@)),
        ),
        target is Tcp <==> is_ip_port(param@),
{
    if is_valid_ip_port(param) {
        choose_target(true, false)
    } else {
        choose_target(false, is_varid_serial_port(os, param))
    }
}

/// The error of an input or output operation.
#[verifier::external_type_specification]
#[verifier::external_body]
pub struct ExIoError(std::io::Error);

/// The `Display` text of `std::io::Error`. The text is the system's and
/// nothing is claimed of it.
#[verifier::external_body]
fn error_text(e: &std::io::Error) -> String {
    e.to_string()
}

/// A channel of bytes to the device.
pub trait Connection {
    /// Reads bytes into `buf` and tells how many; none at the end of the
    /// stream.
    fn read(&mut self, buf: &mut [u8]) -> Result<usize, std::io::Error>;

    /// Writes all of `buf`.
    fn write(&mut self, buf: &[u8]) -> Result<(), std::io::Error>;

    /// Sends what is still held back.
    fn flush(&mut self) -> Result<(), std::io::Error>;

    /// Ends the sending side of the channel.
    fn close(&mut self) -> Result<(), std::io::Error>;
}

/// The reason kept where a target names no connection.
pub open spec fn param_error() -> Seq<char> {
    "ParamError"@
}

/// The transport of a session: a TCP channel, a serial channel, or the
/// reason why there is neither.
pub enum ConnectionType<T: Connection, S: Connection> {
    Tcp(T),
    Serial(S),
    BadParam(String),
}

impl<T: Connection, S: Connection> ConnectionType<T, S> {
    /// The reason why there is no channel, where there is none.
    pub open spec fn reason(self) -> Option<Seq<char>> {
        match self {
            ConnectionType::BadParam(e) => Some(e@),
            _ => None,
        }
    }

    /// Whether `after` is the same kind of transport as `self`, with the same
    /// reason where there is no channel.
    pub open spec fn same_kind(self, after: Self) -> bool {
        &&& self is Tcp <==> after is Tcp
        &&& self is Serial <==> after is Serial
        &&& self.reason() == after.reason()
    }

    /// The transport for a target that names no connection.
    pub fn bad_param() -> (c: Self)
        ensures
            c.reason() == Some(param_error()),
    {
        ConnectionType::BadParam("ParamError".to_owned())
    }

    /// The transport that an attempt to connect over TCP leaves: the channel,
    /// or the reason why it failed.
    pub fn from_tcp(opened: Result<T, std::io::Error>) -> (c: Self)
        ensures
            opened is Ok ==> c == ConnectionType::<T, S>::Tcp(opened->Ok_0),
            opened is Err ==> c is BadParam,
    {
        match opened {
            Ok(t) => ConnectionType::Tcp(t),
            Err(e) => ConnectionType::BadParam(error_text(&e)),
        }
    }

    /// The transport that an attempt to open a serial device leaves: the
    /// channel, or the reason why it failed.
    pub fn from_serial(opened: Result<S, std::io::Error>) -> (c: Self)
        ensures
            opened is Ok ==> c == ConnectionType::<T, S>::Serial(opened->Ok_0),
            opened is Err ==> c is BadParam,
    {
        match opened {
            Ok(s) => ConnectionType::Serial(s),
            Err(e) => ConnectionType::BadParam(error_text(&e)),
        }
    }

    /// Writes all of `buff`. Without a channel this fails with the reason.
    pub fn write(&mut self, buff: &[u8]) -> (r: Result<(), String>)
        ensures
            old(self).same_kind(*final(self)),
            old(self).reason() matches Some(e) ==> r matches Err(msg) && msg@ == e,
    {
        match self {
            ConnectionType::Tcp(stream) => match stream.write(buff) {
                Ok(_) => Ok(()),
                Err(e) => Err(error_text(&e)),
            },
            ConnectionType::Serial(port) => match port.write(buff) {
                Ok(_) => Ok(()),
                Err(e) => Err(error_text(&e)),
            },
            ConnectionType::BadParam(e) => Err(e.clone()),
        }
    }

    /// Reads bytes into `buf` and tells how many. Without a channel this
    /// fails with the reason.
    pub fn read(&mut self, buf: &mut [u8]) -> (r: Result<usize, String>)
        ensures
            old(self).same_kind(*final(self)),
            old(self).reason() matches Some(e) ==> r matches Err(msg) && msg@ == e && final(buf)@
                == old(buf)@,
    {
        match self {
            ConnectionType::Tcp(stream) => match stream.read(buf) {
                Ok(size) => Ok(size),
                Err(e) => Err(error_text(&e)),
            },
            ConnectionType::Serial(port) => match port.read(buf) {
                Ok(size) => Ok(size),
                Err(e) => Err(error_text(&e)),
            },
            ConnectionType::BadParam(e) => Err(e.clone()),
        }
    }

    /// Sends what is still held back. Without a channel this fails with the
    /// reason.
    pub fn flush(&mut self) -> (r: Result<(), String>)
        ensures
            old(self).same_kind(*final(self)),
            old(self).reason() matches Some(e) ==> r matches Err(msg) && msg@ == e,
    {
        match self {
            ConnectionType::Tcp(stream) => match stream.flush() {
                Ok(_) => Ok(()),
                Err(e) => Err(error_text(&e)),
            },
            ConnectionType::Serial(port) => match port.flush() {
                Ok(_) => Ok(()),
                Err(e) => Err(error_text(&e)),
            },
            ConnectionType::BadParam(e) => Err(e.clone()),
        }
    }

    /// Ends the sending side of a TCP channel. A serial channel needs no
    /// closing and is left as it is. Without a channel this fails with the
    /// reason.
    pub fn close(&mut self) -> (r: Result<(), String>)
        ensures
            old(self).same_kind(*final(self)),
            *old(self) is Serial ==> r is Ok && *final(self) == *old(self),
            old(self).reason() matches Some(e) ==> r matches Err(msg) && msg@ == e,
    {
        match self {
            ConnectionType::Tcp(stream) => match stream.close() {
                Ok(_) => Ok(()),
                Err(e) => Err(error_text(&e)),
            },
            ConnectionType::Serial(_) => Ok(()),
            ConnectionType::BadParam(e) => Err(e.clone()),
        }
    }
}

} // verus!
