//! A worker's round: one bounded chunk each way between a client and its
//! upstream connection; and the identifiers of sessions.
use vstd::prelude::*;
use crate::stream::RedisStream;
use crate::types::RedisError;

verus! {

/// Most bytes copied each way in one round.
pub const CHUNK_SIZE: usize = 2048;

/// One chunk went from `from` to `to`: at most `CHUNK_SIZE` bytes were
/// taken from what `from` received (all it had, up to that bound) and sent
/// whole to `to`.
pub open spec fn chunk_copied<A: RedisStream, B: RedisStream>(
    from_before: A,
    from_after: A,
    to_before: B,
    to_after: B,
) -> bool {
    exists|chunk: Seq<u8>|
        {
            &&& chunk.len() <= CHUNK_SIZE
            &&& (chunk.len() == CHUNK_SIZE || from_after.pending().len() == 0)
            &&& crate::stream::read_from(from_before.pending(), chunk, from_after.pending())
            &&& (from_before.pending().len() >= CHUNK_SIZE ==> chunk == from_before.pending().take(
                CHUNK_SIZE as int,
            ))
            &&& to_after.sent() == to_before.sent() + chunk
        }
}

/// Copies one chunk from `from` to `to`; nothing to read is no error.
fn copy_chunk<A: RedisStream, B: RedisStream>(from: &mut A, to: &mut B) -> (r: Result<(), RedisError>)
    ensures
        final(to).pending() == old(to).pending(),
        final(from).sent() == old(from).sent(),
        r is Ok ==> chunk_copied(*old(from), *final(from), *old(to), *final(to)),
        r matches Err(e) ==> exists|k: crate::types::IoErrorKind| e@ == crate::types::io_fault(k),
{
    let data = match from.get_data(CHUNK_SIZE) {
        Ok(d) => d,
        Err(e) => return Err(e),
    };
    if data.len() == 0 {
        assert(old(to).sent() + data@ =~= old(to).sent());
        return Ok(());
    }
    match to.write(data.as_slice()) {
        Ok(()) => Ok(()),
        Err(k) => Err(RedisError::from_io_error(k)),
    }
}

/// Copies one chunk from the client to the server.
pub fn copy_data_from_client_to_redis<A: RedisStream, B: RedisStream>(
    client_stream: &mut A,
    redis_stream: &mut B,
) -> (r: Result<(), RedisError>)
    ensures
        final(redis_stream).pending() == old(redis_stream).pending(),
        final(client_stream).sent() == old(client_stream).sent(),
        r is Ok ==> chunk_copied(
            *old(client_stream),
            *final(client_stream),
            *old(redis_stream),
            *final(redis_stream),
        ),
        r matches Err(e) ==> exists|k: crate::types::IoErrorKind| e@ == crate::types::io_fault(k),
{
    copy_chunk(client_stream, redis_stream)
}

/// Copies one chunk from the server to the client.
pub fn copy_data_from_redis_to_client<A: RedisStream, B: RedisStream>(
    client_stream: &mut A,
    redis_stream: &mut B,
) -> (r: Result<(), RedisError>)
    ensures
        final(client_stream).pending() == old(client_stream).pending(),
        final(redis_stream).sent() == old(redis_stream).sent(),
        r is Ok ==> chunk_copied(
            *old(redis_stream),
            *final(redis_stream),
            *old(client_stream),
            *final(client_stream),
        ),
        r matches Err(e) ==> exists|k: crate::types::IoErrorKind| e@ == crate::types::io_fault(k),
{
    copy_chunk(redis_stream, client_stream)
}

/// One round: a chunk from the client to the server, then a chunk back.
/// Nothing to read is no failure; only a socket failure fails the round,
/// and the session is then to be dropped.
pub fn run_worker_round<A: RedisStream, B: RedisStream>(
    client_stream: &mut A,
    redis_stream: &mut B,
) -> (r: Result<(), RedisError>)
    ensures
        r is Ok ==> exists|client_mid: A, redis_mid: B|
            {
                &&& chunk_copied(*old(client_stream), client_mid, *old(redis_stream), redis_mid)
                &&& chunk_copied(redis_mid, *final(redis_stream), client_mid, *final(client_stream))
                &&& redis_mid.pending() == old(redis_stream).pending()
                &&& client_mid.sent() == old(client_stream).sent()
                &&& final(client_stream).pending() == client_mid.pending()
                &&& final(redis_stream).sent() == redis_mid.sent()
            },
        r matches Err(e) ==> exists|k: crate::types::IoErrorKind| e@ == crate::types::io_fault(k),
{
    copy_data_from_client_to_redis(client_stream, redis_stream)?;
    let ghost client_mid = *client_stream;
    let ghost redis_mid = *redis_stream;
    let r = copy_data_from_redis_to_client(client_stream, redis_stream);
    assert(r is Ok ==> chunk_copied(*old(client_stream), client_mid, *old(redis_stream), redis_mid)
        && chunk_copied(redis_mid, *redis_stream, client_mid, *client_stream)
        && redis_mid.pending() == old(redis_stream).pending() && client_mid.sent() == old(
        client_stream,
    ).sent() && client_stream.pending() == client_mid.pending() && redis_stream.sent()
        == redis_mid.sent());
    r
}

/// Relies on uuid::Uuid::new_v4 and its `Display`, which writes the
/// hyphenated form: 36 characters.
#[verifier::external_body]
fn random_token() -> (r: String)
    ensures
        r@.len() == 36,
{
    uuid::Uuid::new_v4().to_string()
}

/// A fresh session identifier: the client's endpoint, ` - `, and a random token.
pub fn new_session_id(endpoint: &str) -> (r: String)
    ensures
        exists|token: Seq<char>| token.len() == 36 && r@ == endpoint@ + " - "@ + token,
{
    let token = random_token();
    endpoint.to_owned().concat(" - ").concat(token.as_str())
}

} // verus!
