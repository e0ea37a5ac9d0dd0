//! Requests to a server or a Sentinel, and subscriptions.
use vstd::prelude::*;
use vstd::utf8;
use crate::codec::{read_array, read_bulk_string, read_strict_string};
use crate::stream::RedisStream;
use crate::text::{utf8_lossy, utf8_to_string};
use crate::types::{
    Fault, RedisError, RedisValue, Value, REDIS_TYPE_ARRAY, REDIS_TYPE_BULK_STRING, REDIS_TYPE_STRING,
};

verus! {

/// A command line: `prefix`, then `arg`, then CRLF.
pub open spec fn command_line(prefix: Seq<char>, arg: Seq<char>) -> Seq<u8> {
    utf8::encode_utf8(prefix) + utf8::encode_utf8(arg) + crate::codec::crlf()
}

/// Builds a command line.
fn build_command(prefix: &str, arg: &str) -> (r: Vec<u8>)
    ensures
        r@ == command_line(prefix@, arg@),
{
    let mut r: Vec<u8> = Vec::new();
    push_all(&mut r, prefix.as_bytes());
    push_all(&mut r, arg.as_bytes());
    let end: [u8; 2] = [13u8, 10u8];
    push_all(&mut r, end.as_slice());
    assert(end@ =~= crate::codec::crlf());
    r
}

/// Appends `b` to `out`.
fn push_all(out: &mut Vec<u8>, b: &[u8])
    ensures
        final(out)@ == old(out)@ + b@,
{
    let mut i: usize = 0;
    while i < b.len()
        invariant
            0 <= i <= b@.len(),
            out@ == old(out)@ + b@.take(i as int),
        decreases b@.len() - i,
    {
        out.push(b[i]);
        i = i + 1;
    }
    assert(b@.take(b@.len() as int) =~= b@);
}

/// Sending `cmd` then reading a reply of type `tag` took the stream from
/// `before` to `after`, and the reply's model is `m`: either the command
/// went out whole and the reply is what the received bytes hold (exactly
/// what was pending, when that held it whole), or the write failed and
/// nothing was read.
pub open spec fn request_outcome<S: RedisStream>(
    before: S,
    after: S,
    cmd: Seq<u8>,
    tag: u8,
    m: Result<Value, Fault>,
) -> bool {
    ||| (after.sent() == before.sent() + cmd && (!(crate::codec::reply_step(
        before.pending(),
        tag,
    ) is Incomplete) ==> crate::codec::read_outcome(before.pending(), tag, m, after.pending())) && exists|
        more: Seq<u8>,
    | crate::codec::read_outcome(before.pending() + more, tag, m, after.pending()))
    ||| (after.pending() == before.pending() && (m matches Err(f) && exists|
        k: crate::types::IoErrorKind,
    | f == crate::types::io_fault(k)))
}

/// The answer to `PING`: `PONG` is success.
pub open spec fn ping_result(m: Result<Value, Fault>) -> Result<(), Fault> {
    match m {
        Ok(Value::Simple(s)) => if s == "PONG"@ {
            Ok(())
        } else {
            Err(crate::types::message_fault("Invalid ping response : "@ + s))
        },
        Ok(_) => Err(crate::types::message_fault("Not a string"@)),
        Err(f) => Err(f),
    }
}

/// The model of a result that carries nothing.
pub open spec fn unit_result(r: Result<(), RedisError>) -> Result<(), Fault> {
    match r {
        Ok(()) => Ok(()),
        Err(e) => Err(e@),
    }
}

/// The model of a result that carries a string.
pub open spec fn text_result(r: Result<String, RedisError>) -> Result<Seq<char>, Fault> {
    match r {
        Ok(s) => Ok(s@),
        Err(e) => Err(e@),
    }
}

/// The model of a result that may carry a string.
pub open spec fn opt_text_result(r: Result<Option<String>, RedisError>) -> Result<Option<Seq<char>>, Fault> {
    match r {
        Ok(Some(s)) => Ok(Some(s@)),
        Ok(None) => Ok(None),
        Err(e) => Err(e@),
    }
}

/// The name of a reply's type, as error messages give it.
pub open spec fn value_name(v: Value) -> Seq<char> {
    match v {
        Value::Nil => "Nil"@,
        Value::Integer(_) => "Integer"@,
        Value::Simple(_) => "String"@,
        Value::Bulk(_) => "BulkString"@,
        Value::Array(_) => "Array"@,
    }
}

/// A bulk string's text, decoded leniently.
pub open spec fn bulk_text(v: Value) -> Result<Seq<char>, Fault> {
    match v {
        Value::Bulk(b) => Ok(crate::text::lossy_utf8(b)),
        _ => Err(crate::types::message_fault(value_name(v) + " is not a BulkString!"@)),
    }
}

/// The text of a bulk string reply, decoded leniently; another reply is an error.
pub fn convert_to_string(value: &RedisValue) -> (r: Result<String, RedisError>)
    ensures
        text_result(r) == bulk_text(value@),
{
    match value {
        RedisValue::BulkString(s) => Ok(utf8_lossy(s.as_slice())),
        _ => {
            let name = value_type_name(value);
            let m = name.to_owned().concat(" is not a BulkString!");
            Err(RedisError::from_message(m.as_str()))
        },
    }
}

/// The value of an integer reply; another reply is an error.
pub fn convert_to_integer(value: &RedisValue) -> (r: Result<isize, RedisError>)
    ensures
        match value@ {
            Value::Integer(i) => r matches Ok(x) && x as int == i,
            v => r matches Err(e) && e@ == crate::types::message_fault(value_name(v) + " is not a Integer!"@),
        },
{
    match value {
        RedisValue::Integer(i) => Ok(*i),
        _ => {
            let name = value_type_name(value);
            let m = name.to_owned().concat(" is not a Integer!");
            Err(RedisError::from_message(m.as_str()))
        },
    }
}

/// The name of a reply's type.
fn value_type_name(value: &RedisValue) -> (r: &'static str)
    ensures
        r@ == value_name(value@),
{
    match value {
        RedisValue::Nil => "Nil",
        RedisValue::Integer(_) => "Integer",
        RedisValue::String(_) => "String",
        RedisValue::BulkString(_) => "BulkString",
        RedisValue::Array(_) => "Array",
    }
}

/// The `host:port` that a Sentinel's address reply gives.
pub open spec fn master_addr_result(m: Result<Value, Fault>) -> Result<Seq<char>, Fault> {
    match m {
        Ok(Value::Array(items)) => if items.len() < 2 {
            Err(crate::types::message_fault("Master address reply is too short"@))
        } else {
            match (bulk_text(items[0]), bulk_text(items[1])) {
                (Ok(host), Ok(port)) => Ok(host + ":"@ + port),
                (Err(f), _) => Err(f),
                (Ok(_), Err(f)) => Err(f),
            }
        },
        Ok(_) => Err(crate::types::message_fault("Impossible, get_master_addr don't return array!"@)),
        Err(f) => Err(f),
    }
}

/// The text of a `GET` answer: strict UTF-8.
pub open spec fn get_string_result(m: Result<Value, Fault>) -> Result<Option<Seq<char>>, Fault> {
    match m {
        Ok(Value::Bulk(b)) => if utf8::valid_utf8(b) {
            Ok(Some(utf8::decode_utf8(b)))
        } else {
            Err(crate::types::message_fault("Invalid UTF-8 sequence"@))
        },
        Ok(Value::Nil) => Ok(None),
        Ok(_) => Err(crate::types::message_fault("Not a bulk string"@)),
        Err(f) => Err(f),
    }
}

/// A connection to a server or to a Sentinel.
pub struct RedisConnector<S: RedisStream> {
    stream: S,
}

impl<S: RedisStream> RedisConnector<S> {
    /// The stream underneath.
    pub closed spec fn inner(&self) -> S {
        self.stream
    }

    /// A connector over `stream`.
    pub fn new(stream: S) -> (r: Self)
        ensures
            r.inner() == stream,
    {
        RedisConnector { stream }
    }

    /// Gives the stream back.
    pub fn into_stream(self) -> (r: S)
        ensures
            r == self.inner(),
    {
        self.stream
    }

    /// Sends `cmd` whole, or fails with the socket's failure.
    fn send(&mut self, cmd: &[u8]) -> (r: Result<(), RedisError>)
        ensures
            final(self).inner().pending() == old(self).inner().pending(),
            r is Ok ==> final(self).inner().sent() == old(self).inner().sent() + cmd@,
            r matches Err(e) ==> exists|k: crate::types::IoErrorKind| e@ == crate::types::io_fault(k),
    {
        match self.stream.write(cmd) {
            Ok(()) => Ok(()),
            Err(k) => Err(RedisError::from_io_error(k)),
        }
    }

    /// Sends `PING`; the server must answer `PONG`.
    pub fn ping(&mut self) -> (r: Result<(), RedisError>)
        ensures
            exists|m: Result<Value, Fault>|
                request_outcome(
                    old(self).inner(),
                    final(self).inner(),
                    command_line("PING"@, ""@),
                    REDIS_TYPE_STRING,
                    m,
                ) && unit_result(r) == ping_result(m),
    {
        let cmd = build_command("PING", "");
        let ghost before = self.stream;
        match self.send(cmd.as_slice()) {
            Err(e) => {
                let r = Err(e);
                assert(request_outcome(before, self.stream, cmd@, REDIS_TYPE_STRING, Err(e@)));
                assert(unit_result(r) == ping_result(Err(e@)));
                return r;
            },
            Ok(()) => {},
        }
        let response = read_strict_string(&mut self.stream);
        let ghost m = crate::codec::string_result(response);
        proof {
            assert(request_outcome(before, self.stream, cmd@, REDIS_TYPE_STRING, m));
        }
        let r = match response {
            Ok(text) => {
                let pong = "PONG".to_owned();
                if text == pong {
                    Ok(())
                } else {
                    let msg = "Invalid ping response : ".to_owned().concat(text.as_str());
                    Err(RedisError::from_message(msg.as_str()))
                }
            },
            Err(e) => Err(e),
        };
        assert(unit_result(r) == ping_result(m));
        r
    }

    /// Sends `GET key`; `None` when the key holds nothing.
    pub fn get(&mut self, key: &str) -> (r: Result<Option<Vec<u8>>, RedisError>)
        ensures
            request_outcome(
                old(self).inner(),
                final(self).inner(),
                command_line("GET "@, key@),
                REDIS_TYPE_BULK_STRING,
                crate::codec::bulk_result(r),
            ),
    {
        let cmd = build_command("GET ", key);
        match self.send(cmd.as_slice()) {
            Err(e) => {
                return Err(e);
            },
            Ok(()) => {},
        }
        read_bulk_string(&mut self.stream)
    }

    /// Sends `GET key` and decodes the answer as UTF-8.
    pub fn get_string(&mut self, key: &str) -> (r: Result<Option<String>, RedisError>)
        ensures
            exists|m: Result<Value, Fault>|
                request_outcome(
                    old(self).inner(),
                    final(self).inner(),
                    command_line("GET "@, key@),
                    REDIS_TYPE_BULK_STRING,
                    m,
                ) && opt_text_result(r) == get_string_result(m),
    {
        let data = self.get(key);
        let ghost m = crate::codec::bulk_result(data);
        let r = match data {
            Ok(Some(bytes)) => match utf8_to_string(bytes.as_slice()) {
                Some(text) => Ok(Some(text)),
                None => Err(RedisError::from_message("Invalid UTF-8 sequence")),
            },
            Ok(None) => Ok(None),
            Err(e) => Err(e),
        };
        assert(opt_text_result(r) == get_string_result(m));
        r
    }

    /// Sends `SENTINEL GET-MASTER-ADDR-BY-NAME master_name` and gives the
    /// primary's `host:port`.
    pub fn get_master_addr(&mut self, master_name: &str) -> (r: Result<String, RedisError>)
        ensures
            exists|m: Result<Value, Fault>|
                request_outcome(
                    old(self).inner(),
                    final(self).inner(),
                    command_line("SENTINEL GET-MASTER-ADDR-BY-NAME "@, master_name@),
                    REDIS_TYPE_ARRAY,
                    m,
                ) && text_result(r) == master_addr_result(m),
    {
        let cmd = build_command("SENTINEL GET-MASTER-ADDR-BY-NAME ", master_name);
        let ghost before = self.stream;
        match self.send(cmd.as_slice()) {
            Err(e) => {
                let r = Err(e);
                assert(request_outcome(before, self.stream, cmd@, REDIS_TYPE_ARRAY, Err(e@)));
                assert(text_result(r) == master_addr_result(Err(e@)));
                return r;
            },
            Ok(()) => {},
        }
        let data = read_array(&mut self.stream);
        let ghost m = crate::codec::value_result(data);
        proof {
            assert(request_outcome(before, self.stream, cmd@, REDIS_TYPE_ARRAY, m));
        }
        let r = match data {
            Ok(RedisValue::Array(items)) => {
                if items.len() < 2 {
                    Err(RedisError::from_message("Master address reply is too short"))
                } else {
                    proof {
                        assert(m matches Ok(Value::Array(vs)) && vs.len() == items@.len() && vs[0] == items@[0]@ && vs[1] == items@[1]@);
                    }
                    match convert_to_string(&items[0]) {
                        Err(e) => Err(e),
                        Ok(host) => match convert_to_string(&items[1]) {
                            Err(e) => Err(e),
                            Ok(port) => Ok(host.concat(":").concat(port.as_str())),
                        },
                    }
                }
            },
            Ok(_) => Err(RedisError::from_message("Impossible, get_master_addr don't return array!")),
            Err(e) => Err(e),
        };
        assert(text_result(r) == master_addr_result(m));
        r
    }

    /// Sends `SUBSCRIBE channel` and turns the connection into a subscription.
    pub fn subscribe(self, channel: &str) -> (r: Result<RedisSubscription<S>, RedisError>)
        ensures
            r matches Ok(sub) ==> sub.inner().pending() == self.inner().pending() && sub.inner().sent()
                == self.inner().sent() + command_line("SUBSCRIBE "@, channel@) && sub.channel() == channel@,
            r matches Err(e) ==> exists|k: crate::types::IoErrorKind| e@ == crate::types::io_fault(k),
    {
        let mut stream = self.stream;
        let cmd = build_command("SUBSCRIBE ", channel);
        match stream.write(cmd.as_slice()) {
            Ok(()) => Ok(RedisSubscription { stream, channel: channel.to_owned() }),
            Err(k) => Err(RedisError::from_io_error(k)),
        }
    }
}

/// A subscription to a channel.
pub struct RedisSubscription<S: RedisStream> {
    stream: S,
    channel: String,
}

impl<S: RedisStream> RedisSubscription<S> {
    /// The stream underneath.
    pub closed spec fn inner(&self) -> S {
        self.stream
    }

    /// The channel subscribed to.
    pub closed spec fn channel(&self) -> Seq<char> {
        self.channel@
    }

    /// A subscription to `channel` over `stream`; `subscribe` sends the request.
    pub fn new(stream: S, channel: String) -> (r: Self)
        ensures
            r.inner() == stream,
            r.channel() == channel@,
    {
        RedisSubscription { stream, channel }
    }

    /// Sends `SUBSCRIBE channel`.
    pub fn subscribe(&mut self) -> (r: Result<(), RedisError>)
        ensures
            final(self).channel() == old(self).channel(),
            final(self).inner().pending() == old(self).inner().pending(),
            r is Ok ==> final(self).inner().sent() == old(self).inner().sent() + command_line(
                "SUBSCRIBE "@,
                old(self).channel(),
            ),
            r matches Err(e) ==> exists|k: crate::types::IoErrorKind| e@ == crate::types::io_fault(k),
    {
        let cmd = build_command("SUBSCRIBE ", self.channel.as_str());
        match self.stream.write(cmd.as_slice()) {
            Ok(()) => Ok(()),
            Err(k) => Err(RedisError::from_io_error(k)),
        }
    }

    /// Takes the next message: an array reply.
    pub fn pool(&mut self) -> (r: Result<RedisValue, RedisError>)
        ensures
            final(self).channel() == old(self).channel(),
            final(self).inner().sent() == old(self).inner().sent(),
            !(crate::codec::reply_step(old(self).inner().pending(), REDIS_TYPE_ARRAY) is Incomplete)
                ==> crate::codec::read_outcome(
                old(self).inner().pending(),
                REDIS_TYPE_ARRAY,
                crate::codec::value_result(r),
                final(self).inner().pending(),
            ),
            exists|more: Seq<u8>|
                crate::codec::read_outcome(
                    old(self).inner().pending() + more,
                    REDIS_TYPE_ARRAY,
                    crate::codec::value_result(r),
                    final(self).inner().pending(),
                ),
    {
        read_array(&mut self.stream)
    }
}

} // verus!
