//! Values and errors of the key-value wire protocol.
use vstd::prelude::*;
use vstd::string::StringSliceAdditionalSpecFns;

verus! {

/// Type tag of an integer reply.
pub const REDIS_TYPE_INTEGER: u8 = 58;

/// Type tag of a simple string reply.
pub const REDIS_TYPE_STRING: u8 = 43;

/// Type tag of an error reply.
pub const REDIS_TYPE_ERROR: u8 = 45;

/// Type tag of a bulk string reply.
pub const REDIS_TYPE_BULK_STRING: u8 = 36;

/// Type tag of an array reply.
pub const REDIS_TYPE_ARRAY: u8 = 42;

/// A reply decoded from the wire.
#[derive(Debug, PartialEq, Eq)]
pub enum RedisValue {
    /// Null bulk string or null array.
    Nil,
    Integer(isize),
    String(String),
    BulkString(Vec<u8>),
    Array(Vec<RedisValue>),
}

/// Mathematical model of a reply.
pub enum Value {
    Nil,
    Integer(int),
    Simple(Seq<char>),
    Bulk(Seq<u8>),
    Array(Seq<Value>),
}

impl View for RedisValue {
    type V = Value;

    open spec fn view(&self) -> Value
        decreases self,
    {
        match self {
            RedisValue::Nil => Value::Nil,
            RedisValue::Integer(i) => Value::Integer(*i as int),
            RedisValue::String(s) => Value::Simple(s@),
            RedisValue::BulkString(b) => Value::Bulk(b@),
            RedisValue::Array(items) => Value::Array(
                Seq::new(
                    items.len() as nat,
                    |i: int|
                        if 0 <= i < items.len() {
                            items[i].view()
                        } else {
                            Value::Nil
                        },
                ),
            ),
        }
    }
}


/// Kind of an error, as the core reports it.
#[derive(Clone, Copy, Debug, PartialEq, Eq, Hash, PartialOrd, Ord, Structural)]
pub enum ErrorKind {
    /// The server answered `ERR`.
    ResponseError,
    /// The server answered `EXECABORT`.
    ExecAbortError,
    /// The server answered `LOADING`.
    BusyLoadingError,
    /// The server answered `NOSCRIPT`.
    NoScriptError,
    /// The underlying socket failed.
    IoError,
    /// The bytes break the wire framing: an unknown type tag, a malformed
    /// length or integer, a bulk body without its CRLF, text that is not UTF-8.
    ProtocolError,
    /// Any other error: an unexpected reply, or an error code without a kind of its own.
    OtherError,
    /// Nothing to read yet; not fatal.
    NoDataAvailable,
}

/// Kind of a socket failure.
#[derive(Clone, Copy, Debug, PartialEq, Eq, Hash, Structural)]
pub enum IoErrorKind {
    /// The peer closed the connection.
    BrokenPipe,
    /// The socket has nothing to give now.
    WouldBlock,
    /// A write stored fewer bytes than asked.
    WriteZero,
    /// The read timeout expired.
    TimedOut,
    /// The peer refused the connection.
    ConnectionRefused,
    /// The peer reset the connection.
    ConnectionReset,
    /// Any other failure.
    Other,
}

/// Model of an error: its kind, the socket failure behind it, and its message.
pub struct Fault {
    pub kind: ErrorKind,
    pub io: Option<IoErrorKind>,
    pub message: Seq<char>,
}

/// An error of the codec or of the server.
#[derive(Debug)]
pub struct RedisError {
    io_error: Option<IoErrorKind>,
    kind: ErrorKind,
    message: String,
}

impl View for RedisError {
    type V = Fault;

    closed spec fn view(&self) -> Fault {
        Fault { kind: self.kind, io: self.io_error, message: self.message@ }
    }
}

/// The error kind that an error code of the server maps to.
pub open spec fn code_kind(code: Seq<u8>) -> ErrorKind {
    if code == seq![69u8, 82, 82] {
        ErrorKind::ResponseError
    } else if code == seq![69u8, 88, 69, 67, 65, 66, 79, 82, 84] {
        ErrorKind::ExecAbortError
    } else if code == seq![76u8, 79, 65, 68, 73, 78, 71] {
        ErrorKind::BusyLoadingError
    } else if code == seq![78u8, 79, 83, 67, 82, 73, 80, 84] {
        ErrorKind::NoScriptError
    } else {
        ErrorKind::OtherError
    }
}

/// The model of an error built from a message.
pub open spec fn message_fault(m: Seq<char>) -> Fault {
    Fault { kind: ErrorKind::OtherError, io: None, message: m }
}

/// The model of a framing violation.
pub open spec fn protocol_fault(m: Seq<char>) -> Fault {
    Fault { kind: ErrorKind::ProtocolError, io: None, message: m }
}

/// The model of an error built from a socket failure.
pub open spec fn io_fault(k: IoErrorKind) -> Fault {
    Fault { kind: ErrorKind::IoError, io: Some(k), message: Seq::empty() }
}

/// The model of the error that says nothing can be read yet.
pub open spec fn no_data_fault() -> Fault {
    Fault { kind: ErrorKind::NoDataAvailable, io: None, message: "No data available!"@ }
}

/// Whether `a` and `b` hold the same bytes.
pub fn bytes_equal(a: &[u8], b: &[u8]) -> (r: bool)
    ensures
        r == (a@ == b@),
{
    if a.len() != b.len() {
        return false;
    }
    let mut i: usize = 0;
    while i < a.len()
        invariant
            a@.len() == b@.len(),
            0 <= i <= a@.len(),
            forall|j: int| 0 <= j < i ==> a@[j] == b@[j],
        decreases a@.len() - i,
    {
        if a[i] != b[i] {
            return false;
        }
        i = i + 1;
    }
    assert(a@ =~= b@);
    true
}

/// The error kind of an error code given as bytes.
pub fn kind_of_code(code: &[u8]) -> (r: ErrorKind)
    ensures
        r == code_kind(code@),
{
    let err: [u8; 3] = [69u8, 82, 82];
    let exec_abort: [u8; 9] = [69u8, 88, 69, 67, 65, 66, 79, 82, 84];
    let loading: [u8; 7] = [76u8, 79, 65, 68, 73, 78, 71];
    let no_script: [u8; 8] = [78u8, 79, 83, 67, 82, 73, 80, 84];
    assert(err@ =~= seq![69u8, 82, 82]);
    assert(exec_abort@ =~= seq![69u8, 88, 69, 67, 65, 66, 79, 82, 84]);
    assert(loading@ =~= seq![76u8, 79, 65, 68, 73, 78, 71]);
    assert(no_script@ =~= seq![78u8, 79, 83, 67, 82, 73, 80, 84]);
    if bytes_equal(code, err.as_slice()) {
        ErrorKind::ResponseError
    } else if bytes_equal(code, exec_abort.as_slice()) {
        ErrorKind::ExecAbortError
    } else if bytes_equal(code, loading.as_slice()) {
        ErrorKind::BusyLoadingError
    } else if bytes_equal(code, no_script.as_slice()) {
        ErrorKind::NoScriptError
    } else {
        ErrorKind::OtherError
    }
}

/// The name of a socket failure.
pub open spec fn io_kind_name(k: IoErrorKind) -> Seq<char> {
    match k {
        IoErrorKind::BrokenPipe => "BrokenPipe"@,
        IoErrorKind::WouldBlock => "WouldBlock"@,
        IoErrorKind::WriteZero => "WriteZero"@,
        IoErrorKind::TimedOut => "TimedOut"@,
        IoErrorKind::ConnectionRefused => "ConnectionRefused"@,
        IoErrorKind::ConnectionReset => "ConnectionReset"@,
        IoErrorKind::Other => "Other"@,
    }
}

/// The text that describes an error: its kind, then its message (for a
/// socket failure, the failure's name).
pub open spec fn fault_text(f: Fault) -> Seq<char> {
    match f.kind {
        ErrorKind::IoError => "IoError: "@ + match f.io {
            Some(k) => io_kind_name(k),
            None => Seq::empty(),
        },
        ErrorKind::ResponseError => "Redis response error: "@ + f.message,
        ErrorKind::ExecAbortError => "Redis execution abort: "@ + f.message,
        ErrorKind::BusyLoadingError => "Redis busy loading error: "@ + f.message,
        ErrorKind::NoScriptError => "Redis no script error: "@ + f.message,
        ErrorKind::ProtocolError => "Protocol error: "@ + f.message,
        ErrorKind::OtherError => "Error (not Redis error): "@ + f.message,
        ErrorKind::NoDataAvailable => "Error: "@ + f.message,
    }
}

impl IoErrorKind {
    /// The name of the failure.
    pub fn name(&self) -> (r: &'static str)
        ensures
            r@ == io_kind_name(*self),
    {
        match self {
            IoErrorKind::BrokenPipe => "BrokenPipe",
            IoErrorKind::WouldBlock => "WouldBlock",
            IoErrorKind::WriteZero => "WriteZero",
            IoErrorKind::TimedOut => "TimedOut",
            IoErrorKind::ConnectionRefused => "ConnectionRefused",
            IoErrorKind::ConnectionReset => "ConnectionReset",
            IoErrorKind::Other => "Other",
        }
    }
}

impl RedisError {
    /// The text that describes the error.
    pub fn description(&self) -> (r: String)
        ensures
            r@ == fault_text(self@),
    {
        let prefix = match self.kind {
            ErrorKind::IoError => "IoError: ",
            ErrorKind::ResponseError => "Redis response error: ",
            ErrorKind::ExecAbortError => "Redis execution abort: ",
            ErrorKind::BusyLoadingError => "Redis busy loading error: ",
            ErrorKind::NoScriptError => "Redis no script error: ",
            ErrorKind::ProtocolError => "Protocol error: ",
            ErrorKind::OtherError => "Error (not Redis error): ",
            ErrorKind::NoDataAvailable => "Error: ",
        };
        let detail: &str = if self.kind == ErrorKind::IoError {
            match self.io_error {
                Some(k) => k.name(),
                None => {
                    proof {
                        reveal_strlit("");
                    }
                    ""
                },
            }
        } else {
            self.message.as_str()
        };
        prefix.to_owned().concat(detail)
    }

    /// An error for a failed socket operation.
    pub fn from_io_error(e: IoErrorKind) -> (r: Self)
        ensures
            r@ == io_fault(e),
    {
        RedisError { io_error: Some(e), kind: ErrorKind::IoError, message: String::new() }
    }

    /// The non-fatal error that says nothing can be read yet.
    pub fn from_no_data() -> (r: Self)
        ensures
            r@ == no_data_fault(),
    {
        RedisError {
            io_error: None,
            kind: ErrorKind::NoDataAvailable,
            message: "No data available!".to_owned(),
        }
    }

    /// An error that carries a message only.
    pub fn from_message(e: &str) -> (r: Self)
        ensures
            r@ == message_fault(e@),
    {
        RedisError { io_error: None, kind: ErrorKind::OtherError, message: e.to_owned() }
    }

    /// A framing violation.
    pub fn from_protocol(e: &str) -> (r: Self)
        ensures
            r@ == protocol_fault(e@),
    {
        RedisError { io_error: None, kind: ErrorKind::ProtocolError, message: e.to_owned() }
    }

    /// An error returned by the server: its code picks the kind.
    pub fn from_redis(code: &str, message: &str) -> (r: Self)
        ensures
            r@ == (Fault { kind: code_kind(code.spec_bytes()), io: None, message: message@ }),
    {
        let kind = kind_of_code(code.as_bytes());
        RedisError { io_error: None, kind, message: message.to_owned() }
    }

    /// Builds an error from its parts.
    pub fn from_parts(kind: ErrorKind, message: String) -> (r: Self)
        ensures
            r@ == (Fault { kind, io: None, message: message@ }),
    {
        RedisError { io_error: None, kind, message }
    }

    /// The kind of the error.
    pub fn kind(&self) -> (r: ErrorKind)
        ensures
            r == self@.kind,
    {
        self.kind
    }

    /// The socket failure behind the error, if any.
    pub fn io_error_kind(&self) -> (r: Option<IoErrorKind>)
        ensures
            r == self@.io,
    {
        self.io_error
    }

    /// The message of the error; empty when it has none.
    pub fn message(&self) -> (r: String)
        ensures
            r@ == self@.message,
    {
        self.message.clone()
    }
}

} // verus!
