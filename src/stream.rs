//! Framed streams: a buffered duplex whose reads are taken from what the
//! peer has sent so far.
use vstd::prelude::*;
use crate::types::{IoErrorKind, RedisError};

verus! {

/// A buffered duplex towards a peer.
///
/// The bytes received and not yet consumed are `pending()`. Receiving only
/// appends to them; consuming only drops their front.
pub trait RedisStream {
    /// The bytes received and not yet consumed.
    spec fn pending(&self) -> Seq<u8>;

    /// The bytes sent to the peer so far.
    spec fn sent(&self) -> Seq<u8>;

    /// Whether the peer is known to have closed, everything it sent having
    /// been received: every later receive fails with `BrokenPipe`.
    spec fn peer_closed(&self) -> bool;

    /// Sends `data` whole, or fails; a short write fails with `WriteZero`.
    fn write(&mut self, data: &[u8]) -> (r: Result<(), IoErrorKind>)
        ensures
            final(self).pending() == old(self).pending(),
            final(self).peer_closed() == old(self).peer_closed(),
            r is Ok ==> final(self).sent() == old(self).sent() + data@,
    ;

    /// Receives what the peer has sent: `Ok(true)` when bytes were added,
    /// `Ok(false)` when none are there yet, `Err(BrokenPipe)` once the peer
    /// has closed.
    fn fill(&mut self) -> (r: Result<bool, IoErrorKind>)
        ensures
            r == Ok::<bool, IoErrorKind>(true) ==> old(self).pending().len() < final(self).pending().len(),
            r == Ok::<bool, IoErrorKind>(true) ==> old(self).pending().is_prefix_of(final(self).pending()),
            r != Ok::<bool, IoErrorKind>(true) ==> final(self).pending() == old(self).pending(),
            old(self).peer_closed() ==> final(self).peer_closed(),
            old(self).peer_closed() ==> r == Err::<bool, IoErrorKind>(IoErrorKind::BrokenPipe),
            final(self).sent() == old(self).sent(),
    ;

    /// The pending bytes.
    fn buffered(&self) -> (r: &[u8])
        ensures
            r@ == self.pending(),
    ;

    /// Drops the first `n` pending bytes.
    fn consume(&mut self, n: usize)
        requires
            n <= old(self).pending().len(),
        ensures
            final(self).pending() == old(self).pending().skip(n as int),
            final(self).sent() == old(self).sent(),
            final(self).peer_closed() == old(self).peer_closed(),
    ;

    /// Next byte: `None` when nothing has arrived and the peer would block.
    fn get(&mut self) -> (r: Result<Option<u8>, RedisError>)
        ensures
            final(self).sent() == old(self).sent(),
            old(self).pending().len() > 0 ==> (r matches Ok(Some(b)) && b == old(self).pending()[0]
                && final(self).pending() == old(self).pending().drop_first()),
            r matches Ok(Some(b)) ==> read_from(old(self).pending(), seq![b], final(self).pending()),
            r matches Ok(None) ==> final(self).pending() == old(self).pending()
                && old(self).pending().len() == 0,
            r matches Err(e) ==> final(self).pending() == old(self).pending() && exists|k: IoErrorKind|
                e@ == crate::types::io_fault(k),
            old(self).pending().len() == 0 && old(self).peer_closed() ==> (r matches Err(e) && e@
                == crate::types::io_fault(IoErrorKind::BrokenPipe)),
    {
        if self.buffered().len() == 0 {
            match self.fill() {
                Err(k) => return Err(RedisError::from_io_error(k)),
                Ok(_) => {},
            }
        }
        if self.buffered().len() == 0 {
            return Ok(None);
        }
        let ghost before = self.pending();
        let b = self.buffered()[0];
        self.consume(1);
        proof {
            assert(old(self).pending() + before.skip(old(self).pending().len() as int) =~= seq![b]
                + self.pending());
        }
        Ok(Some(b))
    }

    /// Exactly `n` bytes. Fails with `NoDataAvailable` while fewer have arrived
    /// and the peer would block, with `BrokenPipe` once it has closed short;
    /// a failure consumes nothing.
    fn get_exact(&mut self, n: usize) -> (r: Result<Vec<u8>, RedisError>)
        ensures
            final(self).sent() == old(self).sent(),
            old(self).pending().len() >= n ==> (r matches Ok(v) && v@ == old(self).pending().take(
                n as int,
            ) && final(self).pending() == old(self).pending().skip(n as int)),
            r matches Ok(v) ==> v@.len() == n && read_from(
                old(self).pending(),
                v@,
                final(self).pending(),
            ),
            r matches Err(e) ==> old(self).pending().is_prefix_of(final(self).pending()) && (e@
                == crate::types::no_data_fault() || exists|k: IoErrorKind| e@ == crate::types::io_fault(k)),
            old(self).pending().len() < n && old(self).peer_closed() ==> (r matches Err(e) && e@
                == crate::types::io_fault(IoErrorKind::BrokenPipe)),
    {
        while self.buffered().len() < n
            invariant
                old(self).pending().is_prefix_of(self.pending()),
                old(self).peer_closed() ==> self.pending() == old(self).pending()
                    && self.peer_closed(),
                self.sent() == old(self).sent(),
                old(self).pending().len() >= n ==> self.pending() == old(self).pending(),
            decreases (if self.pending().len() < n {
                n - self.pending().len()
            } else {
                0
            }),
        {
            match self.fill() {
                Err(k) => return Err(RedisError::from_io_error(k)),
                Ok(false) => return Err(RedisError::from_no_data()),
                Ok(true) => {},
            }
        }
        let ghost before = self.pending();
        let v = copy_range(self.buffered(), 0, n);
        self.consume(n);
        assert(v@ =~= before.take(n as int));
        proof {
            assert(old(self).pending() + before.skip(old(self).pending().len() as int) =~= v@
                + self.pending());
        }
        Ok(v)
    }

    /// Up to `max` bytes: what is pending, after one receive when fewer than
    /// `max` are pending. Nothing having arrived is no error.
    fn get_data(&mut self, max: usize) -> (r: Result<Vec<u8>, RedisError>)
        ensures
            final(self).sent() == old(self).sent(),
            old(self).pending().len() >= max ==> (r matches Ok(v) && v@ == old(self).pending().take(
                max as int,
            ) && final(self).pending() == old(self).pending().skip(max as int)),
            r matches Ok(v) ==> v@.len() <= max && (v@.len() == max || final(self).pending().len()
                == 0) && read_from(old(self).pending(), v@, final(self).pending()),
            r matches Err(e) ==> final(self).pending() == old(self).pending() && exists|k: IoErrorKind|
                e@ == crate::types::io_fault(k),
            old(self).pending().len() < max && old(self).peer_closed() ==> (r matches Err(e) && e@
                == crate::types::io_fault(IoErrorKind::BrokenPipe)),
    {
        if self.buffered().len() < max {
            match self.fill() {
                Err(k) => return Err(RedisError::from_io_error(k)),
                Ok(_) => {},
            }
        }
        let len = self.buffered().len();
        let n = if len < max {
            len
        } else {
            max
        };
        let ghost before = self.pending();
        let v = copy_range(self.buffered(), 0, n);
        self.consume(n);
        assert(v@ =~= before.take(n as int));
        proof {
            assert(old(self).pending() + before.skip(old(self).pending().len() as int) =~= v@
                + self.pending());
        }
        Ok(v)
    }

    /// The bytes up to and including the first occurrence of `pattern` in
    /// what is pending, after one receive when it is not pending yet. Empty
    /// when it has not arrived, the peer having closed or having nothing
    /// more to give.
    fn get_until(&mut self, pattern: &[u8]) -> (r: Result<Vec<u8>, RedisError>)
        requires
            pattern@.len() > 0,
        ensures
            final(self).sent() == old(self).sent(),
            find_from(old(self).pending(), pattern@, 0) matches Some(i) ==> (r matches Ok(v) && v@
                == old(self).pending().take(i + pattern@.len()) && final(self).pending()
                == old(self).pending().skip(i + pattern@.len())),
            r matches Ok(v) ==> read_from(old(self).pending(), v@, final(self).pending()) && (v@.len()
                == 0 || v@.subrange(v@.len() - pattern@.len(), v@.len() as int) == pattern@),
            r matches Ok(v) ==> old(self).pending().is_prefix_of(v@ + final(self).pending())
                && match find_from(v@ + final(self).pending(), pattern@, 0) {
                Some(i) => v@ == (v@ + final(self).pending()).take(i + pattern@.len()),
                None => v@.len() == 0,
            },
            r matches Err(e) ==> final(self).pending() == old(self).pending() && exists|k: IoErrorKind|
                e@ == crate::types::io_fault(k) && k != IoErrorKind::BrokenPipe,
    {
        let mut found = search(self.buffered(), pattern, 0);
        if found.is_none() {
            match self.fill() {
                Err(IoErrorKind::BrokenPipe) => {},
                Err(k) => return Err(RedisError::from_io_error(k)),
                Ok(false) => {},
                Ok(true) => {
                    found = search(self.buffered(), pattern, 0);
                },
            }
        }
        let ghost before = self.pending();
        let total = self.buffered().len();
        proof {
            lemma_find_from(before, pattern@, 0);
        }
        match found {
            None => {
                let v: Vec<u8> = Vec::new();
                assert(old(self).pending() + before.skip(old(self).pending().len() as int) =~= v@
                    + self.pending());
                assert(v@ + self.pending() =~= before);
                assert(old(self).pending().is_prefix_of(before));
                Ok(v)
            },
            Some(i) => {
                let v = copy_range(self.buffered(), 0, i + pattern.len());
                self.consume(i + pattern.len());
                assert(v@ =~= before.take((i + pattern.len()) as int));
                proof {
                    assert(old(self).pending() + before.skip(old(self).pending().len() as int) =~= v@
                        + self.pending());
                    assert(v@ + self.pending() =~= before);
                    assert(v@.subrange(v@.len() - pattern@.len(), v@.len() as int) =~= before.subrange(
                        i as int,
                        i + pattern@.len(),
                    ));
                }
                Ok(v)
            },
        }
    }
}

/// A connection's raw side, as a socket offers it.
pub trait ByteSource {
    /// Reads at most `max` bytes: empty once the peer has closed; fails with
    /// `WouldBlock` or `TimedOut` when nothing has arrived yet.
    fn read(&mut self, max: usize) -> Result<Vec<u8>, IoErrorKind>;

    /// Writes a prefix of `data` and says how long it was.
    fn write(&mut self, data: &[u8]) -> Result<usize, IoErrorKind>;
}

/// Size of one read from the source.
pub const BUFFER_SIZE: usize = 2048;

/// A framed stream over a byte source: what was read and not yet consumed
/// is buffered.
pub struct NetworkStream<T: ByteSource> {
    stream: T,
    buf: Vec<u8>,
    written: Ghost<Seq<u8>>,
    closed: bool,
}

/// What a receive means, given what the source's read gave: bytes were
/// added; an empty read means the peer closed (`BrokenPipe`); a read that
/// would block or timed out means nothing has arrived yet; any other
/// failure is passed on.
pub fn fill_outcome(read: &Result<Vec<u8>, IoErrorKind>) -> (r: Result<bool, IoErrorKind>)
    ensures
        r == match read {
            Ok(chunk) => if chunk@.len() == 0 {
                Err::<bool, IoErrorKind>(IoErrorKind::BrokenPipe)
            } else {
                Ok(true)
            },
            Err(IoErrorKind::WouldBlock) => Ok(false),
            Err(IoErrorKind::TimedOut) => Ok(false),
            Err(k) => Err(*k),
        },
{
    match read {
        Ok(chunk) => if chunk.len() == 0 {
            Err(IoErrorKind::BrokenPipe)
        } else {
            Ok(true)
        },
        Err(IoErrorKind::WouldBlock) => Ok(false),
        Err(IoErrorKind::TimedOut) => Ok(false),
        Err(k) => Err(*k),
    }
}

/// What a send of `len` bytes means, given what the source's write gave:
/// all of them went out; fewer is a `WriteZero` failure; a failure is
/// passed on.
pub fn write_outcome(written: Result<usize, IoErrorKind>, len: usize) -> (r: Result<(), IoErrorKind>)
    ensures
        r == match written {
            Ok(n) => if n == len {
                Ok::<(), IoErrorKind>(())
            } else {
                Err(IoErrorKind::WriteZero)
            },
            Err(k) => Err(k),
        },
{
    match written {
        Ok(n) => if n == len {
            Ok(())
        } else {
            Err(IoErrorKind::WriteZero)
        },
        Err(k) => Err(k),
    }
}

impl<T: ByteSource> NetworkStream<T> {
    /// A stream over `stream`, with nothing buffered.
    pub fn new(stream: T) -> (r: Self)
        ensures
            r.pending() == Seq::<u8>::empty(),
            r.sent() == Seq::<u8>::empty(),
            !r.peer_closed(),
            r.source() == stream,
    {
        NetworkStream {
            stream,
            buf: Vec::with_capacity(BUFFER_SIZE),
            written: Ghost(Seq::empty()),
            closed: false,
        }
    }

    /// The source underneath.
    pub closed spec fn source(&self) -> T {
        self.stream
    }

    /// The source underneath.
    pub fn get_ref(&self) -> (r: &T)
        ensures
            *r == self.source(),
    {
        &self.stream
    }
}

impl<T: ByteSource> RedisStream for NetworkStream<T> {
    closed spec fn pending(&self) -> Seq<u8> {
        self.buf@
    }

    closed spec fn sent(&self) -> Seq<u8> {
        self.written@
    }

    closed spec fn peer_closed(&self) -> bool {
        self.closed
    }

    fn write(&mut self, data: &[u8]) -> (r: Result<(), IoErrorKind>) {
        let r = write_outcome(self.stream.write(data), data.len());
        if r.is_ok() {
            self.written = Ghost(self.written@ + data@);
        }
        r
    }

    fn fill(&mut self) -> (r: Result<bool, IoErrorKind>) {
        if self.closed {
            return Err(IoErrorKind::BrokenPipe);
        }
        let read = self.stream.read(BUFFER_SIZE);
        let r = fill_outcome(&read);
        match read {
            Ok(mut chunk) => if chunk.len() == 0 {
                self.closed = true;
            } else {
                let ghost before = self.buf@;
                self.buf.append(&mut chunk);
                assert(before.is_prefix_of(self.buf@)) by {
                    assert(self.buf@.take(before.len() as int) =~= before);
                }
            },
            Err(_) => {},
        }
        r
    }

    fn buffered(&self) -> (r: &[u8]) {
        self.buf.as_slice()
    }

    fn consume(&mut self, n: usize) {
        let rest = self.buf.split_off(n);
        self.buf = rest;
    }
}

/// `taken` was read from a stream whose pending bytes went from `before` to
/// `after`, with whatever the peer sent meanwhile appended.
pub open spec fn read_from(before: Seq<u8>, taken: Seq<u8>, after: Seq<u8>) -> bool {
    exists|sent: Seq<u8>| before + sent == taken + after
}

/// First position at or after `i` where `pat` starts in `s`.
pub open spec fn find_from(s: Seq<u8>, pat: Seq<u8>, i: int) -> Option<int>
    decreases s.len() + 1 - i,
{
    if i < 0 || i + pat.len() > s.len() {
        None
    } else if s.subrange(i, i + pat.len()) == pat {
        Some(i)
    } else {
        find_from(s, pat, i + 1)
    }
}

/// A position found by `find_from` is where `pat` occurs, at or after `i`.
pub proof fn lemma_find_from(s: Seq<u8>, pat: Seq<u8>, i: int)
    ensures
        find_from(s, pat, i) matches Some(k) ==> i <= k && k + pat.len() <= s.len()
            && s.subrange(k, k + pat.len()) == pat,
    decreases s.len() + 1 - i,
{
    if i < 0 || i + pat.len() > s.len() {
    } else if s.subrange(i, i + pat.len()) == pat {
    } else {
        lemma_find_from(s, pat, i + 1);
    }
}

/// Copies `s[from..to]` into a new vector.
pub fn copy_range(s: &[u8], from: usize, to: usize) -> (r: Vec<u8>)
    requires
        from <= to <= s@.len(),
    ensures
        r@ == s@.subrange(from as int, to as int),
{
    let mut r: Vec<u8> = Vec::new();
    let mut i: usize = from;
    while i < to
        invariant
            from <= i <= to <= s@.len(),
            r@ == s@.subrange(from as int, i as int),
        decreases to - i,
    {
        r.push(s[i]);
        i = i + 1;
    }
    r
}

/// Position of the first occurrence of `pat` in `s` at or after `start`.
pub fn search(s: &[u8], pat: &[u8], start: usize) -> (r: Option<usize>)
    requires
        pat@.len() > 0,
    ensures
        r == (match find_from(s@, pat@, start as int) {
            Some(i) => Some(i as usize),
            None => None::<usize>,
        }),
{
    let mut i: usize = start;
    let n = s.len();
    if n < pat.len() {
        return None;
    }
    let last = n - pat.len();
    while i <= last
        invariant
            n == s@.len(),
            last == s@.len() - pat@.len(),
            pat@.len() > 0,
            start <= i,
            find_from(s@, pat@, start as int) == find_from(s@, pat@, i as int),
        decreases last + 1 - i,
    {
        let mut j: usize = 0;
        let mut same = true;
        while j < pat.len()
            invariant
                i <= last,
                n == s@.len(),
                last == s@.len() - pat@.len(),
                pat@.len() > 0,
                0 <= j <= pat@.len(),
                same == (forall|k: int| 0 <= k < j ==> s@[i + k] == pat@[k]),
            decreases pat@.len() - j,
        {
            if s[i + j] != pat[j] {
                same = false;
            }
            j = j + 1;
        }
        if same {
            assert(s@.subrange(i as int, i + pat@.len()) =~= pat@);
            return Some(i);
        }
        assert(s@.subrange(i as int, i + pat@.len()) != pat@) by {
            let k = choose|k: int| 0 <= k < pat@.len() && s@[i + k] != pat@[k];
            assert(s@.subrange(i as int, i + pat@.len())[k] == s@[i + k]);
        }
        i = i + 1;
    }
    None
}

/// Splitting a read (by `get_exact` or `get_data`) of `n + m` pending bytes
/// into a read of `n` and a read of `m` gives the same bytes and leaves the
/// same rest.
pub proof fn lemma_get_exact_split(pending: Seq<u8>, n: nat, m: nat)
    requires
        n + m <= pending.len(),
    ensures
        pending.take(n as int) + pending.skip(n as int).take(m as int) == pending.take((n + m) as int),
        pending.skip(n as int).skip(m as int) == pending.skip((n + m) as int),
{
    assert(pending.take(n as int) + pending.skip(n as int).take(m as int) =~= pending.take(
        (n + m) as int,
    ));
    assert(pending.skip(n as int).skip(m as int) =~= pending.skip((n + m) as int));
}

/// An in-memory stream: the bytes it was given are pending, more can be
/// handed to it, and once closed a receive reports `BrokenPipe`.
pub struct MemoryStream {
    buf: Vec<u8>,
    incoming: Vec<u8>,
    written: Vec<u8>,
    closed: bool,
}

impl MemoryStream {
    /// A stream whose peer sent `data` and closed.
    pub fn new(data: Vec<u8>) -> (r: Self)
        ensures
            r.pending() == data@,
            r.is_closed(),
            r.peer_closed(),
            r.sent() == Seq::<u8>::empty(),
    {
        MemoryStream { buf: data, incoming: Vec::new(), written: Vec::new(), closed: true }
    }

    /// A stream whose peer sent nothing yet and is still connected.
    pub fn open() -> (r: Self)
        ensures
            r.pending() == Seq::<u8>::empty(),
            !r.is_closed(),
            !r.peer_closed(),
            r.sent() == Seq::<u8>::empty(),
    {
        MemoryStream { buf: Vec::new(), incoming: Vec::new(), written: Vec::new(), closed: false }
    }

    /// Whether the peer has closed.
    pub closed spec fn is_closed(&self) -> bool {
        self.closed
    }

    /// The bytes that the next receive delivers.
    pub closed spec fn arriving(&self) -> Seq<u8> {
        self.incoming@
    }

    /// Hands `data` to the stream, to be delivered by the next receive.
    pub fn push_incoming(&mut self, data: &[u8])
        ensures
            final(self).pending() == old(self).pending(),
            final(self).arriving() == old(self).arriving() + data@,
            final(self).is_closed() == old(self).is_closed(),
            data@.len() > 0 ==> !final(self).peer_closed(),
            final(self).sent() == old(self).sent(),
    {
        let mut i: usize = 0;
        while i < data.len()
            invariant
                0 <= i <= data@.len(),
                self.buf == old(self).buf,
                self.written == old(self).written,
                self.closed == old(self).closed,
                self.incoming@ == old(self).incoming@ + data@.take(i as int),
            decreases data@.len() - i,
        {
            self.incoming.push(data[i]);
            i = i + 1;
        }
        assert(data@.take(data@.len() as int) =~= data@);
    }

    /// Closes the peer's side: once what is arriving is delivered, receives fail.
    pub fn close(&mut self)
        ensures
            final(self).pending() == old(self).pending(),
            final(self).arriving() == old(self).arriving(),
            final(self).is_closed(),
            final(self).peer_closed() == (old(self).arriving().len() == 0),
            final(self).sent() == old(self).sent(),
    {
        self.closed = true;
    }

    /// What was written to the stream so far.
    pub fn written(&self) -> (r: &Vec<u8>)
        ensures
            r@ == self.sent(),
    {
        &self.written
    }
}

impl RedisStream for MemoryStream {
    closed spec fn pending(&self) -> Seq<u8> {
        self.buf@
    }

    closed spec fn sent(&self) -> Seq<u8> {
        self.written@
    }

    closed spec fn peer_closed(&self) -> bool {
        self.closed && self.incoming@.len() == 0
    }

    fn write(&mut self, data: &[u8]) -> (r: Result<(), IoErrorKind>) {
        let mut i: usize = 0;
        while i < data.len()
            invariant
                0 <= i <= data@.len(),
                self.buf == old(self).buf,
                self.closed == old(self).closed,
                self.incoming == old(self).incoming,
                self.written@ == old(self).written@ + data@.take(i as int),
            decreases data@.len() - i,
        {
            self.written.push(data[i]);
            i = i + 1;
        }
        assert(data@.take(data@.len() as int) =~= data@);
        Ok(())
    }

    fn fill(&mut self) -> (r: Result<bool, IoErrorKind>) {
        if self.incoming.len() > 0 {
            let mut rest: Vec<u8> = Vec::new();
            std::mem::swap(&mut rest, &mut self.incoming);
            let ghost before = self.buf@;
            self.buf.append(&mut rest);
            assert(before.is_prefix_of(self.buf@)) by {
                assert(self.buf@.take(before.len() as int) =~= before);
            }
            Ok(true)
        } else if self.closed {
            Err(IoErrorKind::BrokenPipe)
        } else {
            Ok(false)
        }
    }

    fn buffered(&self) -> (r: &[u8]) {
        self.buf.as_slice()
    }

    fn consume(&mut self, n: usize) {
        let rest = self.buf.split_off(n);
        self.buf = rest;
    }
}

} // verus!
