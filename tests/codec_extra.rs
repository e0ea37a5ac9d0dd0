use red_concentrator::codec::{
    decode_reply, decode_value_at, parse_isize, read_array, read_bulk_string, read_integer,
    read_strict_string, what_is, Decoded,
};
use red_concentrator::stream::{fill_outcome, write_outcome, ByteSource, MemoryStream, NetworkStream, RedisStream};
use red_concentrator::types::{ErrorKind, IoErrorKind, RedisError, RedisValue, REDIS_TYPE_ARRAY};

fn stream_of(s: &str) -> MemoryStream {
    MemoryStream::new(s.as_bytes().to_vec())
}

#[test]
fn decode_of_encoded_replies_round_trips() {
    let mut s = stream_of("+OK\r\n");
    assert_eq!(read_strict_string(&mut s).unwrap(), "OK");
    let mut s = stream_of(":-42\r\n");
    assert_eq!(read_integer(&mut s).unwrap(), -42);
    let mut s = stream_of("$3\r\nfoo\r\n");
    assert_eq!(read_bulk_string(&mut s).unwrap(), Some(b"foo".to_vec()));
    let mut s = stream_of("$0\r\n\r\n");
    assert_eq!(read_bulk_string(&mut s).unwrap(), Some(Vec::new()));
    let mut s = stream_of("*3\r\n*1\r\n:1\r\n$-1\r\n+x\r\n");
    assert_eq!(
        read_array(&mut s).unwrap(),
        RedisValue::Array(vec![
            RedisValue::Array(vec![RedisValue::Integer(1)]),
            RedisValue::Nil,
            RedisValue::String(String::from("x")),
        ])
    );
    let mut s = stream_of("*-1\r\n");
    assert_eq!(read_array(&mut s).unwrap(), RedisValue::Nil);
    let mut s = stream_of("*0\r\n");
    assert_eq!(read_array(&mut s).unwrap(), RedisValue::Array(vec![]));
}

#[test]
fn bulk_string_null_leaves_stream_after_crlf() {
    let mut s = stream_of("$-1\r\n:7\r\n");
    assert_eq!(read_bulk_string(&mut s).unwrap(), None);
    assert_eq!(s.buffered(), b":7\r\n");
    assert_eq!(read_integer(&mut s).unwrap(), 7);
}

#[test]
fn bulk_string_may_hold_crlf() {
    let mut s = stream_of("$4\r\na\r\nb\r\n");
    assert_eq!(read_bulk_string(&mut s).unwrap(), Some(b"a\r\nb".to_vec()));
}

#[test]
fn non_ascii_simple_string_is_decoded() {
    let mut s = stream_of("+h\u{e9}llo\r\n");
    assert_eq!(read_strict_string(&mut s).unwrap(), "h\u{e9}llo");
}

#[test]
fn invalid_utf8_simple_string_fails() {
    let mut s = MemoryStream::new(vec![b'+', 0xff, b'\r', b'\n']);
    let e = read_strict_string(&mut s).unwrap_err();
    assert_eq!(e.kind(), ErrorKind::ProtocolError);
    assert_eq!(e.message(), "Invalid UTF-8 sequence");
}

#[test]
fn invalid_integer_fails() {
    let mut s = stream_of(":abc\r\n");
    let e = read_integer(&mut s).unwrap_err();
    assert_eq!(e.kind(), ErrorKind::ProtocolError);
    assert_eq!(e.message(), "Invalid integer");
    let mut s = stream_of(":99999999999999999999\r\n");
    assert_eq!(read_integer(&mut s).unwrap_err().message(), "Invalid integer");
    let mut s = stream_of(":\r\n");
    assert_eq!(read_integer(&mut s).unwrap_err().message(), "Invalid integer");
}

#[test]
fn integer_limits_parse() {
    let mut s = stream_of(":-9223372036854775808\r\n");
    assert_eq!(read_integer(&mut s).unwrap(), isize::MIN);
    let mut s = stream_of(":+9223372036854775807\r\n");
    assert_eq!(read_integer(&mut s).unwrap(), isize::MAX);
    let mut s = stream_of(":9223372036854775808\r\n");
    assert!(read_integer(&mut s).is_err());
}

#[test]
fn parse_isize_reads_sign_and_digits() {
    assert_eq!(parse_isize(b"-17", 0, 3), Some(-17));
    assert_eq!(parse_isize(b"x12x", 1, 3), Some(12));
    assert_eq!(parse_isize(b"1a", 0, 2), None);
    assert_eq!(parse_isize(b"-", 0, 1), None);
}

#[test]
fn bulk_string_without_crlf_fails() {
    let mut s = stream_of("$3\r\nfooXY");
    let e = read_bulk_string(&mut s).unwrap_err();
    assert_eq!(e.message(), "Bulk string not followed by CRLF");
}

#[test]
fn unknown_tag_inside_array_is_reported_in_hex() {
    let mut s = stream_of("*1\r\n.\r\n");
    let e = read_array(&mut s).unwrap_err();
    assert_eq!(e.kind(), ErrorKind::ProtocolError);
    assert_eq!(e.message(), "Unknow type '0x2e'");
}

#[test]
fn error_inside_array_is_returned() {
    let mut s = stream_of("*2\r\n:1\r\n-ERR boom\r\n");
    let e = read_array(&mut s).unwrap_err();
    assert_eq!(e.kind(), ErrorKind::ResponseError);
    assert_eq!(e.message(), " boom");
}

#[test]
fn unknown_error_code_is_other_error() {
    let mut s = stream_of("-WRONGTYPE bad\r\n");
    let e = read_integer(&mut s).unwrap_err();
    assert_eq!(e.kind(), ErrorKind::OtherError);
    assert_eq!(e.message(), " bad");
}

#[test]
fn incomplete_reply_waits_without_consuming() -> Result<(), RedisError> {
    let mut s = MemoryStream::open();
    s.push_incoming(b"*2\r\n$5\r\nHel");
    let e = read_array(&mut s).unwrap_err();
    assert_eq!(e.kind(), ErrorKind::NoDataAvailable);
    assert_eq!(s.buffered(), b"*2\r\n$5\r\nHel");
    s.push_incoming(b"lo\r\n:12\r\n");
    assert_eq!(
        read_array(&mut s)?,
        RedisValue::Array(vec![RedisValue::BulkString(b"Hello".to_vec()), RedisValue::Integer(12)])
    );
    Ok(())
}

#[test]
fn what_is_names_tags() {
    assert_eq!(what_is(b'+'), "String");
    assert_eq!(what_is(b'$'), "BulkString");
    assert_eq!(what_is(b'*'), "Array");
    assert_eq!(what_is(b'-'), "Error");
    assert_eq!(what_is(b':'), "Integer");
    assert_eq!(what_is(b'.'), "Unknow '0x46'");
}

#[test]
fn decode_reply_reports_positions() {
    match decode_reply(b"*1\r\n:5\r\nrest", REDIS_TYPE_ARRAY) {
        Decoded::Done(v, n) => {
            assert_eq!(v, RedisValue::Array(vec![RedisValue::Integer(5)]));
            assert_eq!(n, 8);
        }
        _ => panic!("expected a reply"),
    }
    assert!(matches!(decode_value_at(b"$5\r\nab", 0), Decoded::Incomplete));
    assert!(matches!(decode_reply(b":1\r\n", REDIS_TYPE_ARRAY), Decoded::Fail(_, 1)));
}

#[test]
fn get_exact_in_two_reads_equals_one_read() {
    let data = b"abcdefgh".to_vec();
    let mut one = MemoryStream::new(data.clone());
    let mut two = MemoryStream::new(data);
    let whole = one.get_exact(5).unwrap();
    let mut parts = two.get_exact(2).unwrap();
    parts.extend(two.get_exact(3).unwrap());
    assert_eq!(whole, parts);
    assert_eq!(one.buffered(), two.buffered());
}

#[test]
fn get_exact_short_on_closed_stream_is_broken_pipe() {
    let mut s = stream_of("ab");
    let e = s.get_exact(3).unwrap_err();
    assert_eq!(e.kind(), ErrorKind::IoError);
    assert_eq!(s.buffered(), b"ab");
}

#[test]
fn get_until_finds_pattern_or_gives_empty() {
    let mut s = stream_of("ab\r\ncd");
    assert_eq!(s.get_until(b"\r\n").unwrap(), b"ab\r\n".to_vec());
    assert_eq!(s.get_until(b"\r\n").unwrap(), Vec::<u8>::new());
    assert_eq!(s.buffered(), b"cd");
}

#[test]
fn get_data_takes_what_is_there() {
    let mut s = stream_of("abc");
    assert_eq!(s.get_data(2).unwrap(), b"ab".to_vec());
    let mut open = MemoryStream::open();
    assert_eq!(open.get_data(2048).unwrap(), Vec::<u8>::new());
}

#[test]
fn get_byte_reads_one_byte() {
    let mut s = stream_of("x");
    assert_eq!(s.get().unwrap(), Some(b'x'));
    let mut open = MemoryStream::open();
    assert_eq!(open.get().unwrap(), None);
}

struct Script {
    chunks: Vec<Vec<u8>>,
    accepted: usize,
    written: Vec<u8>,
}

impl ByteSource for Script {
    fn read(&mut self, _max: usize) -> Result<Vec<u8>, IoErrorKind> {
        if self.chunks.is_empty() {
            Ok(Vec::new())
        } else {
            let c = self.chunks.remove(0);
            if c == b"wait" {
                Err(IoErrorKind::WouldBlock)
            } else {
                Ok(c)
            }
        }
    }

    fn write(&mut self, data: &[u8]) -> Result<usize, IoErrorKind> {
        let n = data.len().min(self.accepted);
        self.written.extend_from_slice(&data[..n]);
        Ok(n)
    }
}

#[test]
fn network_stream_buffers_and_reports_close() {
    let source = Script {
        chunks: vec![b":1".to_vec(), b"wait".to_vec(), b"2\r\n".to_vec()],
        accepted: 100,
        written: Vec::new(),
    };
    let mut s = NetworkStream::new(source);
    assert_eq!(read_integer(&mut s).unwrap_err().kind(), ErrorKind::NoDataAvailable);
    assert_eq!(read_integer(&mut s).unwrap_err().kind(), ErrorKind::NoDataAvailable);
    assert_eq!(read_integer(&mut s).unwrap(), 12);
    let e = read_integer(&mut s).unwrap_err();
    assert_eq!(e.io_error_kind(), Some(IoErrorKind::BrokenPipe));
    assert!(s.write(b"PING\r\n").is_ok());
    assert_eq!(s.get_ref().written, b"PING\r\n".to_vec());
}

#[test]
fn network_stream_short_write_is_write_zero() {
    let source = Script { chunks: Vec::new(), accepted: 2, written: Vec::new() };
    let mut s = NetworkStream::new(source);
    assert_eq!(s.write(b"PING\r\n"), Err(IoErrorKind::WriteZero));
}

#[test]
fn errors_describe_themselves() {
    assert_eq!(RedisError::from_io_error(IoErrorKind::BrokenPipe).description(), "IoError: BrokenPipe");
    assert_eq!(RedisError::from_redis("ERR", " bad").description(), "Redis response error:  bad");
    assert_eq!(RedisError::from_redis("EXECABORT", "x").description(), "Redis execution abort: x");
    assert_eq!(RedisError::from_redis("LOADING", "x").description(), "Redis busy loading error: x");
    assert_eq!(RedisError::from_redis("NOSCRIPT", "x").description(), "Redis no script error: x");
    assert_eq!(RedisError::from_redis("OOPS", "x").kind(), ErrorKind::OtherError);
    assert_eq!(RedisError::from_message("m").description(), "Error (not Redis error): m");
    assert_eq!(RedisError::from_no_data().description(), "Error: No data available!");
    assert_eq!(RedisError::from_io_error(IoErrorKind::TimedOut).message(), "");
}

#[test]
fn receive_and_send_outcomes() {
    assert_eq!(fill_outcome(&Ok(b"ab".to_vec())), Ok(true));
    assert_eq!(fill_outcome(&Ok(Vec::new())), Err(IoErrorKind::BrokenPipe));
    assert_eq!(fill_outcome(&Err(IoErrorKind::WouldBlock)), Ok(false));
    assert_eq!(fill_outcome(&Err(IoErrorKind::TimedOut)), Ok(false));
    assert_eq!(fill_outcome(&Err(IoErrorKind::ConnectionReset)), Err(IoErrorKind::ConnectionReset));
    assert_eq!(write_outcome(Ok(4), 4), Ok(()));
    assert_eq!(write_outcome(Ok(3), 4), Err(IoErrorKind::WriteZero));
    assert_eq!(write_outcome(Err(IoErrorKind::BrokenPipe), 4), Err(IoErrorKind::BrokenPipe));
}

#[test]
fn closed_peer_is_a_broken_pipe() {
    let mut s = MemoryStream::open();
    s.push_incoming(b"+O");
    s.close();
    let e = read_strict_string(&mut s).unwrap_err();
    assert_eq!(e.kind(), ErrorKind::NoDataAvailable);
    let e = read_strict_string(&mut s).unwrap_err();
    assert_eq!(e.io_error_kind(), Some(IoErrorKind::BrokenPipe));
    let mut empty = MemoryStream::new(Vec::new());
    assert_eq!(empty.get().unwrap_err().io_error_kind(), Some(IoErrorKind::BrokenPipe));
}

#[test]
fn get_until_finds_pattern_that_arrives_with_the_receive() {
    let mut s = MemoryStream::open();
    s.push_incoming(b"ab");
    assert_eq!(s.get_until(b"\r\n").unwrap(), Vec::<u8>::new());
    s.push_incoming(b"\r\ncd");
    assert_eq!(s.get_until(b"\r\n").unwrap(), b"ab\r\n".to_vec());
    assert_eq!(s.buffered(), b"cd");
}

#[test]
fn network_stream_closes_once() {
    let source = Script { chunks: vec![b"x".to_vec()], accepted: 0, written: Vec::new() };
    let mut s = NetworkStream::new(source);
    assert_eq!(s.get().unwrap(), Some(b'x'));
    assert_eq!(s.get().unwrap_err().io_error_kind(), Some(IoErrorKind::BrokenPipe));
    assert_eq!(s.get().unwrap_err().io_error_kind(), Some(IoErrorKind::BrokenPipe));
}

#[test]
fn protocol_errors_describe_themselves() {
    assert_eq!(RedisError::from_protocol("Invalid integer").description(), "Protocol error: Invalid integer");
    assert_eq!(RedisError::from_protocol("x").kind(), ErrorKind::ProtocolError);
}
