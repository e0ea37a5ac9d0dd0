//! The Sentinel watcher's decisions: what a pub/sub message means, when a
//! primary change is announced, and when to move to the next Sentinel.
use vstd::prelude::*;
use crate::connector::convert_to_string;
use crate::stream::search;
use crate::text::utf8_lossy;
use crate::types::{ErrorKind, IoErrorKind, RedisError, RedisValue, Value};

verus! {

/// A primary change: the group, and its old and new `host:port`.
#[derive(Debug)]
pub struct MasterChangeNotification {
    /// New primary, `host:port`.
    pub new: String,
    /// Old primary, `host:port`.
    pub old: String,
    /// Name of the group.
    pub group_name: String,
}

/// Model of a primary change.
pub struct Notice {
    pub group: Seq<char>,
    pub old: Seq<char>,
    pub new: Seq<char>,
}

impl View for MasterChangeNotification {
    type V = Notice;

    open spec fn view(&self) -> Notice {
        Notice { group: self.group_name@, old: self.old@, new: self.new@ }
    }
}

/// The pieces of `b` from `pos` on, cut at each space.
pub open spec fn split_from(b: Seq<u8>, pos: int) -> Seq<Seq<u8>>
    decreases b.len() - pos,
{
    if pos < 0 || pos > b.len() {
        Seq::empty()
    } else {
        match crate::stream::find_from(b, seq![32u8], pos) {
            Some(i) => if pos <= i < b.len() {
                seq![b.subrange(pos, i)] + split_from(b, i + 1)
            } else {
                Seq::empty()
            },
            None => seq![b.subrange(pos, b.len() as int)],
        }
    }
}

/// The pieces of `b`, cut at each space.
pub fn split_spaces(b: &[u8]) -> (r: Vec<Vec<u8>>)
    ensures
        r@.len() == split_from(b@, 0).len(),
        forall|i: int| 0 <= i < r@.len() ==> (#[trigger] r@[i])@ == split_from(b@, 0)[i],
{
    let space: [u8; 1] = [32u8];
    let sep = space.as_slice();
    assert(sep@ =~= seq![32u8]);
    let mut r: Vec<Vec<u8>> = Vec::new();
    let mut pos: usize = 0;
    let n = b.len();
    let ghost done: Seq<Seq<u8>> = Seq::empty();
    loop
        invariant
            n == b@.len(),
            pos <= n,
            sep@ == seq![32u8],
            r@.len() == done.len(),
            forall|i: int| 0 <= i < r@.len() ==> (#[trigger] r@[i])@ == done[i],
            done + split_from(b@, pos as int) == split_from(b@, 0),
        decreases n - pos,
    {
        proof {
            crate::stream::lemma_find_from(b@, seq![32u8], pos as int);
        }
        match search(b, sep, pos) {
            Some(i) => {
                let piece = crate::stream::copy_range(b, pos, i);
                proof {
                    assert(split_from(b@, pos as int) == seq![b@.subrange(pos as int, i as int)]
                        + split_from(b@, i + 1));
                    assert(done + split_from(b@, pos as int) =~= done.push(piece@) + split_from(
                        b@,
                        i + 1,
                    ));
                    done = done.push(piece@);
                }
                r.push(piece);
                pos = i + 1;
            },
            None => {
                let piece = crate::stream::copy_range(b, pos, n);
                proof {
                    done = done.push(piece@);
                    assert(done =~= split_from(b@, 0));
                }
                r.push(piece);
                return r;
            },
        }
    }
}

/// The primary change that a `+switch-master` payload announces:
/// `group old_host old_port new_host new_port`.
pub open spec fn switch_master_notice(v: Value) -> Result<Option<Notice>, crate::types::Fault> {
    match v {
        Value::Bulk(b) => {
            let t = split_from(b, 0);
            if t.len() < 5 {
                Err(crate::types::message_fault("Invalid switch-master message"@))
            } else {
                Ok(
                    Some(
                        Notice {
                            group: crate::text::lossy_utf8(t[0]),
                            old: crate::text::lossy_utf8(t[1]) + ":"@ + crate::text::lossy_utf8(t[2]),
                            new: crate::text::lossy_utf8(t[3]) + ":"@ + crate::text::lossy_utf8(t[4]),
                        },
                    ),
                )
            }
        },
        _ => Err(crate::types::message_fault(crate::connector::value_name(v) + " is not a BulkString!"@)),
    }
}

/// What a pub/sub message means: a `subscribe` confirmation (its third
/// element must be an integer) or another kind of message means nothing;
/// a `message` on `+switch-master` announces a primary change.
pub open spec fn subscription_event(v: Value) -> Result<Option<Notice>, crate::types::Fault> {
    match v {
        Value::Array(items) => if items.len() < 3 {
            Err(crate::types::message_fault("Subscription message has fewer than three elements"@))
        } else {
            match (crate::connector::bulk_text(items[0]), crate::connector::bulk_text(items[1])) {
                (Err(f), _) => Err(f),
                (Ok(_), Err(f)) => Err(f),
                (Ok(kind), Ok(channel)) => if kind == "subscribe"@ {
                    match items[2] {
                        Value::Integer(_) => Ok(None),
                        _ => Err(
                            crate::types::message_fault(
                                "The third argument of subscribe message need to be integer."@,
                            ),
                        ),
                    }
                } else if kind == "message"@ {
                    if channel == "+switch-master"@ {
                        switch_master_notice(items[2])
                    } else {
                        Ok(None)
                    }
                } else {
                    Ok(None)
                },
            }
        },
        _ => Err(crate::types::message_fault("Impossible, subscription don't return array!"@)),
    }
}

/// The model of a decoded message's meaning.
pub open spec fn event_result(r: Result<Option<MasterChangeNotification>, RedisError>) -> Result<
    Option<Notice>,
    crate::types::Fault,
> {
    match r {
        Ok(Some(n)) => Ok(Some(n@)),
        Ok(None) => Ok(None),
        Err(e) => Err(e@),
    }
}

/// Joins `host` and `port` as `host:port`.
fn join_endpoint(host: &[u8], port: &[u8]) -> (r: String)
    ensures
        r@ == crate::text::lossy_utf8(host@) + ":"@ + crate::text::lossy_utf8(port@),
{
    utf8_lossy(host).concat(":").concat(utf8_lossy(port).as_str())
}

/// The primary change that a `+switch-master` payload announces.
fn manage_subscription_message_type_message(data: &RedisValue) -> (r: Result<
    Option<MasterChangeNotification>,
    RedisError,
>)
    ensures
        event_result(r) == switch_master_notice(data@),
{
    match data {
        RedisValue::BulkString(b) => {
            let t = split_spaces(b.as_slice());
            if t.len() < 5 {
                Err(RedisError::from_message("Invalid switch-master message"))
            } else {
                let group_name = utf8_lossy(t[0].as_slice());
                let old = join_endpoint(t[1].as_slice(), t[2].as_slice());
                let new = join_endpoint(t[3].as_slice(), t[4].as_slice());
                Ok(Some(MasterChangeNotification { new, old, group_name }))
            }
        },
        _ => match convert_to_string(data) {
            Ok(_) => Err(RedisError::from_message("Invalid switch-master message")),
            Err(e) => Err(e),
        },
    }
}

/// What a pub/sub message means.
pub fn manage_subscription_data(data: RedisValue) -> (r: Result<Option<MasterChangeNotification>, RedisError>)
    ensures
        event_result(r) == subscription_event(data@),
{
    match data {
        RedisValue::Array(items) => {
            if items.len() < 3 {
                return Err(
                    RedisError::from_message("Subscription message has fewer than three elements"),
                );
            }
            proof {
                assert(data@ matches Value::Array(vs) && vs.len() == items@.len() && vs[0]
                    == items@[0]@ && vs[1] == items@[1]@ && vs[2] == items@[2]@);
            }
            let kind = match convert_to_string(&items[0]) {
                Ok(k) => k,
                Err(e) => return Err(e),
            };
            let channel = match convert_to_string(&items[1]) {
                Ok(c) => c,
                Err(e) => return Err(e),
            };
            if kind == "subscribe".to_owned() {
                match &items[2] {
                    RedisValue::Integer(_) => Ok(None),
                    _ => Err(
                        RedisError::from_message(
                            "The third argument of subscribe message need to be integer.",
                        ),
                    ),
                }
            } else if kind == "message".to_owned() {
                if channel == "+switch-master".to_owned() {
                    manage_subscription_message_type_message(&items[2])
                } else {
                    Ok(None)
                }
            } else {
                Ok(None)
            }
        },
        _ => Err(RedisError::from_message("Impossible, subscription don't return array!")),
    }
}

/// What the watcher does next.
#[derive(Debug)]
pub enum WatchAction {
    /// Pull the subscription again.
    Continue,
    /// Post this primary change to the dispatcher, then pull again.
    Notify(MasterChangeNotification),
    /// The Sentinel was lost: wait, then move to the next one.
    NextSentinel,
    /// Stop watching: the error is fatal.
    Stop(RedisError),
}

/// Model of the watcher.
pub struct WatcherView {
    pub sentinels: Seq<Seq<char>>,
    pub group: Seq<char>,
    pub current: nat,
    pub master: Seq<char>,
}

/// The announcement due when a Sentinel names `addr` as the primary, the
/// last one announced being `master`.
pub open spec fn addr_notice(master: Seq<char>, group: Seq<char>, addr: Seq<char>) -> Option<Notice> {
    if addr == master {
        None
    } else {
        Some(Notice { group, old: master, new: addr })
    }
}

/// A Sentinel's reply to the primary-address query:
/// `*2\r\n$<len>\r\n<host>\r\n$<len>\r\n<port>\r\n`.
pub open spec fn master_addr_reply(host: Seq<u8>, port: Seq<u8>) -> Seq<u8> {
    seq![42u8, 50u8, 13u8, 10u8] + seq![36u8] + crate::encoding::int_text(host.len() as int)
        + crate::codec::crlf() + host + crate::codec::crlf() + seq![36u8] + crate::encoding::int_text(
        port.len() as int,
    ) + crate::codec::crlf() + port + crate::codec::crlf()
}

/// The address reply, decoded and read as `host:port`, is what a watcher
/// that announced nothing yet announces, once.
pub proof fn lemma_master_addr_round_trip(host: Seq<u8>, port: Seq<u8>, rest: Seq<u8>, group: Seq<char>)
    requires
        host.len() <= isize::MAX,
        port.len() <= isize::MAX,
    ensures
        crate::codec::reply_step(master_addr_reply(host, port) + rest, crate::types::REDIS_TYPE_ARRAY)
            == crate::codec::Step::Done(
            Value::Array(seq![Value::Bulk(host), Value::Bulk(port)]),
            master_addr_reply(host, port).len() as int,
        ),
        crate::connector::master_addr_result(
            Ok(Value::Array(seq![Value::Bulk(host), Value::Bulk(port)])),
        ) == Ok::<Seq<char>, crate::types::Fault>(
            crate::text::lossy_utf8(host) + ":"@ + crate::text::lossy_utf8(port),
        ),
        addr_notice(
            Seq::empty(),
            group,
            crate::text::lossy_utf8(host) + ":"@ + crate::text::lossy_utf8(port),
        ) == Some(
            Notice {
                group,
                old: Seq::empty(),
                new: crate::text::lossy_utf8(host) + ":"@ + crate::text::lossy_utf8(port),
            },
        ),
        addr_notice(
            crate::text::lossy_utf8(host) + ":"@ + crate::text::lossy_utf8(port),
            group,
            crate::text::lossy_utf8(host) + ":"@ + crate::text::lossy_utf8(port),
        ) is None,
{
    let items = seq![Value::Bulk(host), Value::Bulk(port)];
    let v = Value::Array(items);
    assert(crate::text::decimal_digits(2) =~= seq![50u8]);
    assert(crate::encoding::encode_from(items, 2) =~= Seq::<u8>::empty());
    assert(crate::encoding::encode_from(items, 1) =~= crate::encoding::encode(Value::Bulk(port)));
    assert(crate::encoding::encode_from(items, 0) =~= crate::encoding::encode(Value::Bulk(host))
        + crate::encoding::encode(Value::Bulk(port)));
    assert(crate::encoding::int_text(2) =~= seq![50u8]);
    assert(crate::encoding::encode(v) =~= master_addr_reply(host, port));
    assert(crate::encoding::encodable(v)) by {
        assert forall|k: int| 0 <= k < items.len() implies crate::encoding::encodable(
            #[trigger] items[k],
        ) by {
            if k == 0 {
                assert(items[k] == Value::Bulk(host));
            } else {
                assert(items[k] == Value::Bulk(port));
            }
        }
    }
    crate::encoding::lemma_round_trip(v, rest);
    let r = master_addr_reply(host, port) + rest;
    assert(r[0] == 42u8);
    let addr = crate::text::lossy_utf8(host) + ":"@ + crate::text::lossy_utf8(port);
    reveal_strlit(":");
    assert(addr.len() > 0);
    assert(addr != Seq::<char>::empty());
}

/// The Sentinel watcher's state: the Sentinels in order, the one in use,
/// and the last primary announced.
pub struct SentinelWatcher {
    sentinels: Vec<String>,
    group_name: String,
    current: usize,
    master_addr: String,
}

impl View for SentinelWatcher {
    type V = WatcherView;

    closed spec fn view(&self) -> WatcherView {
        WatcherView {
            sentinels: self.sentinels@.map_values(|s: String| s@),
            group: self.group_name@,
            current: self.current as nat,
            master: self.master_addr@,
        }
    }
}

impl SentinelWatcher {
    /// A watcher over `sentinels`, in order, for `group_name`; no primary
    /// announced yet. An empty list is an error.
    pub fn new(sentinels: Vec<String>, group_name: String) -> (r: Result<Self, RedisError>)
        ensures
            sentinels@.len() == 0 ==> (r matches Err(e) && e@ == crate::types::message_fault(
                "Sentinel list empty."@,
            )),
            sentinels@.len() > 0 ==> (r matches Ok(w) && w@ == (WatcherView {
                sentinels: sentinels@.map_values(|s: String| s@),
                group: group_name@,
                current: 0,
                master: Seq::empty(),
            })),
    {
        if sentinels.len() == 0 {
            return Err(RedisError::from_message("Sentinel list empty."));
        }
        Ok(SentinelWatcher { sentinels, group_name, current: 0, master_addr: String::new() })
    }

    /// The Sentinel in use; `None` once all were lost.
    pub fn current_sentinel(&self) -> (r: Option<&String>)
        ensures
            self@.current < self@.sentinels.len() ==> (r matches Some(s) && s@
                == self@.sentinels[self@.current as int]),
            self@.current >= self@.sentinels.len() ==> r is None,
    {
        if self.current < self.sentinels.len() {
            Some(&self.sentinels[self.current])
        } else {
            None
        }
    }

    /// The group watched.
    pub fn group_name(&self) -> (r: &String)
        ensures
            r@ == self@.group,
    {
        &self.group_name
    }

    /// The last primary announced; empty before the first.
    pub fn master_addr(&self) -> (r: &String)
        ensures
            r@ == self@.master,
    {
        &self.master_addr
    }

    /// A Sentinel named `addr` as the primary: announce it when it differs
    /// from the last one announced.
    pub fn on_master_addr(&mut self, addr: String) -> (r: Option<MasterChangeNotification>)
        ensures
            match r {
                Some(n) => addr_notice(old(self)@.master, old(self)@.group, addr@) == Some(n@),
                None => addr_notice(old(self)@.master, old(self)@.group, addr@) is None,
            },
            final(self)@ == (WatcherView { master: addr@, ..old(self)@ }),
    {
        if addr == self.master_addr {
            return None;
        }
        let mut old = addr;
        std::mem::swap(&mut old, &mut self.master_addr);
        let new = self.master_addr.clone();
        Some(MasterChangeNotification { new, old, group_name: self.group_name.clone() })
    }

    /// The subscription's pull gave `pulled`: a lost Sentinel moves the
    /// watcher to the next one (once all were lost, it is fatal), nothing to read yet means pull again, a
    /// message is acted on, anything else is fatal.
    pub fn on_pull(&mut self, pulled: Result<RedisValue, RedisError>) -> (r: WatchAction)
        ensures
            match pulled {
                Ok(v) => match subscription_event(v@) {
                    Ok(Some(n)) => r matches WatchAction::Notify(m) && m@ == n && final(self)@
                        == (WatcherView { master: n.new, ..old(self)@ }),
                    Ok(None) => r is Continue && final(self)@ == old(self)@,
                    Err(f) => r matches WatchAction::Stop(e) && e@ == f && final(self)@ == old(self)@,
                },
                Err(e) => if e@.kind == ErrorKind::IoError && e@.io == Some(IoErrorKind::BrokenPipe)
                    && old(self)@.current < old(self)@.sentinels.len() {
                    r is NextSentinel && final(self)@ == (WatcherView {
                        current: old(self)@.current + 1,
                        ..old(self)@
                    })
                } else if e@.kind == ErrorKind::NoDataAvailable {
                    r is Continue && final(self)@ == old(self)@
                } else {
                    r matches WatchAction::Stop(e2) && e2@ == e@ && final(self)@ == old(self)@
                },
            },
    {
        match pulled {
            Ok(v) => match manage_subscription_data(v) {
                Ok(Some(n)) => {
                    self.master_addr = n.new.clone();
                    WatchAction::Notify(n)
                },
                Ok(None) => WatchAction::Continue,
                Err(e) => WatchAction::Stop(e),
            },
            Err(e) => {
                let kind = e.kind();
                if kind == ErrorKind::IoError && e.io_error_kind() == Some(IoErrorKind::BrokenPipe) {
                    if self.current < self.sentinels.len() {
                        self.current = self.current + 1;
                    } else {
                        return WatchAction::Stop(e);
                    }
                    WatchAction::NextSentinel
                } else if kind == ErrorKind::NoDataAvailable {
                    WatchAction::Continue
                } else {
                    WatchAction::Stop(e)
                }
            },
        }
    }
}

} // verus!
