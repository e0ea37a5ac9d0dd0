use red_concentrator::config::{
    default_file, default_logo, default_pool_size_max, default_pool_size_min,
    default_sentinel_check_freqency_default, default_timeout, ConfigLog, ConfigTimeout,
    ConfigWorker, ConfigWorkerPool,
};
use red_concentrator::connector::{convert_to_integer, convert_to_string, RedisConnector};
use red_concentrator::dispatcher::{Action, Dispatcher, GetAndReleaseClient, MainLoopEvent, WorkerEvent, WorkerTask};
use red_concentrator::sentinel::{manage_subscription_data, split_spaces, MasterChangeNotification, SentinelWatcher, WatchAction};
use red_concentrator::stream::{MemoryStream, RedisStream};
use red_concentrator::types::{ErrorKind, IoErrorKind, RedisError, RedisValue};
use red_concentrator::worker::{copy_data_from_client_to_redis, copy_data_from_redis_to_client, new_session_id, run_worker_round};

type Event = MainLoopEvent<&'static str, String, u32>;

fn notice(group: &str, old: &str, new: &str) -> MasterChangeNotification {
    MasterChangeNotification { new: new.to_string(), old: old.to_string(), group_name: group.to_string() }
}

#[test]
fn ping_sends_ping_and_accepts_pong() {
    let mut c = RedisConnector::new(MemoryStream::new(b"+PONG\r\n".to_vec()));
    assert!(c.ping().is_ok());
    assert_eq!(c.into_stream().written(), &b"PING\r\n".to_vec());
    let mut c = RedisConnector::new(MemoryStream::new(b"+NOPE\r\n".to_vec()));
    assert_eq!(c.ping().unwrap_err().message(), "Invalid ping response : NOPE");
}

#[test]
fn get_sends_get_and_reads_bulk() {
    let mut c = RedisConnector::new(MemoryStream::new(b"$5\r\nHello\r\n$-1\r\n".to_vec()));
    assert_eq!(c.get("k").unwrap(), Some(b"Hello".to_vec()));
    assert_eq!(c.get_string("j").unwrap(), None);
    assert_eq!(c.into_stream().written(), &b"GET k\r\nGET j\r\n".to_vec());
}

#[test]
fn get_string_checks_utf8() {
    let mut c = RedisConnector::new(MemoryStream::new(b"$2\r\nok\r\n$1\r\n\xff\r\n".to_vec()));
    assert_eq!(c.get_string("a").unwrap(), Some(String::from("ok")));
    assert_eq!(c.get_string("b").unwrap_err().message(), "Invalid UTF-8 sequence");
}

#[test]
fn sentinel_master_address_round_trip() {
    let reply = b"*2\r\n$9\r\n127.0.0.1\r\n$4\r\n6379\r\n".to_vec();
    let mut c = RedisConnector::new(MemoryStream::new(reply));
    let addr = c.get_master_addr("mymaster").unwrap();
    assert_eq!(addr, "127.0.0.1:6379");
    assert_eq!(
        c.into_stream().written(),
        &b"SENTINEL GET-MASTER-ADDR-BY-NAME mymaster\r\n".to_vec()
    );
    let mut w = SentinelWatcher::new(vec![String::from("s1:26379")], String::from("mymaster")).unwrap();
    let n = w.on_master_addr(addr.clone()).unwrap();
    assert_eq!(n.new, "127.0.0.1:6379");
    assert_eq!(n.old, "");
    assert_eq!(n.group_name, "mymaster");
    assert!(w.on_master_addr(addr).is_none());
}

#[test]
fn sentinel_unknown_group_is_an_error() {
    let mut c = RedisConnector::new(MemoryStream::new(b"*-1\r\n".to_vec()));
    assert_eq!(
        c.get_master_addr("nope").unwrap_err().message(),
        "Impossible, get_master_addr don't return array!"
    );
    let mut c = RedisConnector::new(MemoryStream::new(b"*1\r\n$1\r\na\r\n".to_vec()));
    assert_eq!(c.get_master_addr("x").unwrap_err().message(), "Master address reply is too short");
}

#[test]
fn subscribe_writes_channel() {
    let c = RedisConnector::new(MemoryStream::open());
    let sub = c.subscribe("+switch-master").unwrap();
    let _ = sub;
    let mut s = MemoryStream::open();
    s.write(b"x").unwrap();
    assert_eq!(s.written(), &b"x".to_vec());
}

#[test]
fn convert_values() {
    assert_eq!(convert_to_string(&RedisValue::BulkString(b"abc".to_vec())).unwrap(), "abc");
    assert_eq!(
        convert_to_string(&RedisValue::BulkString(vec![b'a', 0xff])).unwrap(),
        "a\u{fffd}"
    );
    assert_eq!(
        convert_to_string(&RedisValue::Integer(3)).unwrap_err().message(),
        "Integer is not a BulkString!"
    );
    assert_eq!(convert_to_integer(&RedisValue::Integer(-3)).unwrap(), -3);
    assert_eq!(convert_to_integer(&RedisValue::Nil).unwrap_err().message(), "Nil is not a Integer!");
}

#[test]
fn sentinel_pubsub_decode() -> Result<(), RedisError> {
    let bytes = b"*3\r\n$7\r\nmessage\r\n$14\r\n+switch-master\r\n$25\r\ng 127.0.0.1 1 127.0.0.1 2\r\n".to_vec();
    let sub = RedisConnector::new(MemoryStream::new(bytes)).subscribe("+switch-master")?;
    let mut sub = sub;
    let v = sub.pool()?;
    let n = manage_subscription_data(v)?.unwrap();
    assert_eq!(n.group_name, "g");
    assert_eq!(n.old, "127.0.0.1:1");
    assert_eq!(n.new, "127.0.0.1:2");
    Ok(())
}

#[test]
fn subscription_messages_that_mean_nothing() {
    let sub = RedisValue::Array(vec![
        RedisValue::BulkString(b"subscribe".to_vec()),
        RedisValue::BulkString(b"+switch-master".to_vec()),
        RedisValue::Integer(1),
    ]);
    assert!(manage_subscription_data(sub).unwrap().is_none());
    let other = RedisValue::Array(vec![
        RedisValue::BulkString(b"message".to_vec()),
        RedisValue::BulkString(b"other".to_vec()),
        RedisValue::BulkString(b"x".to_vec()),
    ]);
    assert!(manage_subscription_data(other).unwrap().is_none());
    let bad = RedisValue::Array(vec![
        RedisValue::BulkString(b"subscribe".to_vec()),
        RedisValue::BulkString(b"c".to_vec()),
        RedisValue::Nil,
    ]);
    assert!(manage_subscription_data(bad).is_err());
    assert!(manage_subscription_data(RedisValue::Integer(1)).is_err());
    let short = RedisValue::Array(vec![
        RedisValue::BulkString(b"message".to_vec()),
        RedisValue::BulkString(b"+switch-master".to_vec()),
        RedisValue::BulkString(b"g 1 2".to_vec()),
    ]);
    assert_eq!(manage_subscription_data(short).unwrap_err().message(), "Invalid switch-master message");
}

#[test]
fn split_spaces_keeps_empty_pieces() {
    let pieces = split_spaces(b"a  b");
    assert_eq!(pieces, vec![b"a".to_vec(), Vec::new(), b"b".to_vec()]);
    assert_eq!(split_spaces(b""), vec![Vec::<u8>::new()]);
}

#[test]
fn broken_pipe_moves_to_next_sentinel() {
    let mut w = SentinelWatcher::new(
        vec![String::from("a:1"), String::from("b:2")],
        String::from("g"),
    )
    .unwrap();
    assert_eq!(w.current_sentinel().unwrap(), "a:1");
    let action = w.on_pull(Err(RedisError::from_io_error(IoErrorKind::BrokenPipe)));
    assert!(matches!(action, WatchAction::NextSentinel));
    assert_eq!(w.current_sentinel().unwrap(), "b:2");
    assert!(matches!(w.on_pull(Err(RedisError::from_no_data())), WatchAction::Continue));
    assert!(matches!(w.on_pull(Err(RedisError::from_io_error(IoErrorKind::BrokenPipe))), WatchAction::NextSentinel));
    assert!(w.current_sentinel().is_none());
    assert!(matches!(w.on_pull(Err(RedisError::from_io_error(IoErrorKind::BrokenPipe))), WatchAction::Stop(_)));
    assert!(matches!(w.on_pull(Err(RedisError::from_io_error(IoErrorKind::TimedOut))), WatchAction::Stop(_)));
}

#[test]
fn watcher_notifies_on_switch_master() {
    let mut w = SentinelWatcher::new(vec![String::from("a:1")], String::from("g")).unwrap();
    let msg = RedisValue::Array(vec![
        RedisValue::BulkString(b"message".to_vec()),
        RedisValue::BulkString(b"+switch-master".to_vec()),
        RedisValue::BulkString(b"g 1.1.1.1 1 2.2.2.2 2".to_vec()),
    ]);
    match w.on_pull(Ok(msg)) {
        WatchAction::Notify(n) => assert_eq!(n.new, "2.2.2.2:2"),
        _ => panic!("expected a notification"),
    }
    assert_eq!(w.master_addr(), "2.2.2.2:2");
    assert!(w.on_master_addr(String::from("2.2.2.2:2")).is_none());
}

#[test]
fn empty_sentinel_list_is_an_error() {
    let e = SentinelWatcher::new(Vec::new(), String::from("g")).err().unwrap();
    assert_eq!(e.message(), "Sentinel list empty.");
    assert_eq!(e.kind(), ErrorKind::OtherError);
}

#[test]
fn accept_routes_to_idle_worker() {
    let mut d: Dispatcher<String, u32> = Dispatcher::new(String::from("a:1"));
    assert!(matches!(d.manage_message(Event::worker_get_client(String::from("w1"), 7)), Action::Nothing));
    assert_eq!(d.workers_len(), 1);
    match d.manage_message(Event::new_client("10.0.0.1:40001")) {
        Action::Connect(a) => assert_eq!(a, "10.0.0.1:40001"),
        _ => panic!("expected a connect"),
    }
    let sent = d.manage_message_new_client(String::from("session-1")).unwrap();
    assert_eq!(sent.0, 7);
    assert_eq!(sent.1.client, Some(String::from("session-1")));
    assert!(!sent.1.shutdown);
    assert_eq!(d.clients_len(), 0);
    assert_eq!(d.workers_len(), 0);
}

#[test]
fn worker_returns_to_backlog() {
    let mut d: Dispatcher<String, u32> = Dispatcher::new(String::from("a:1"));
    assert!(d.manage_message_new_client(String::from("c1")).is_none());
    assert!(d.manage_message_new_client(String::from("c2")).is_none());
    match d.manage_message(Event::worker_get_client(String::from("w1"), 1)) {
        Action::Send(w, e) => {
            assert_eq!(w, 1);
            assert_eq!(e.client, Some(String::from("c1")));
        }
        _ => panic!("expected a send"),
    }
    assert_eq!(d.clients_len(), 1);
    assert_eq!(d.workers_len(), 0);
    match d.manage_message(Event::worker_send_and_get_client(String::from("w1"), String::from("c1"), 1)) {
        Action::Send(_, e) => assert_eq!(e.client, Some(String::from("c2"))),
        _ => panic!("expected a send"),
    }
    assert_eq!(d.clients_len(), 1);
}

#[test]
fn failover_updates_primary() {
    let mut d: Dispatcher<String, u32> = Dispatcher::new(String::from("a:1"));
    assert!(d.manage_message_new_client(String::from("session on a:1")).is_none());
    let n = notice("g", "a:1", "b:2");
    assert!(matches!(d.manage_message(Event::master_change(n)), Action::Nothing));
    assert_eq!(d.primary_endpoint(), "b:2");
    assert_eq!(d.clients_len(), 1);
    d.manage_master_change(&notice("g", "a:1", "b:2"));
    assert_eq!(d.primary_endpoint(), "b:2");
    assert_eq!(d.clients_len(), 1);
}

#[test]
fn sessions_are_neither_lost_nor_duplicated() {
    let mut d: Dispatcher<u32, u32> = Dispatcher::new(String::from("a:1"));
    let mut in_transit = 0;
    for c in 0..3u32 {
        if d.manage_message_new_client(c).is_some() {
            in_transit += 1;
        }
    }
    for w in 0..5u32 {
        let m = GetAndReleaseClient { worker_id: format!("w{}", w), client_to_release: None, tx_worker_message: w };
        if d.manage_message_worker(m).is_some() {
            in_transit += 1;
        }
        assert!(d.clients_len() == 0 || d.workers_len() == 0);
    }
    assert_eq!(d.clients_len() + in_transit, 3);
    assert_eq!(d.workers_len(), 2);
    let shutdown: WorkerEvent<u32> = WorkerEvent::shutdown();
    assert!(shutdown.shutdown && shutdown.client.is_none());
}

#[test]
fn config_defaults() {
    let log = ConfigLog::default();
    assert_eq!(log.file, "log4rs.yml");
    assert!(log.logo);
    let t = ConfigTimeout::default();
    assert_eq!((t.sentinels, t.worker_idle_timeout), (5000, 5000));
    let w = ConfigWorker::default();
    assert_eq!((w.pool.min, w.pool.max), (5, 10));
    let p = ConfigWorkerPool::default();
    assert_eq!((p.min, p.max), (5, 10));
    assert_eq!(default_file(), "log4rs.yml");
    assert!(default_logo());
    assert_eq!(default_sentinel_check_freqency_default(), 1000);
    assert_eq!(default_timeout(), 5000);
    assert_eq!(default_pool_size_min(), 5);
    assert_eq!(default_pool_size_max(), 10);
}

#[test]
fn session_ids_carry_endpoint_and_token() {
    let a = new_session_id("10.0.0.1:40001");
    let b = new_session_id("10.0.0.1:40001");
    assert!(a.starts_with("10.0.0.1:40001 - "));
    assert_eq!(a.len(), "10.0.0.1:40001 - ".len() + 36);
    assert_ne!(a, b);
}

#[test]
fn worker_round_copies_both_ways() {
    let mut client = MemoryStream::open();
    client.push_incoming(b"GET k\r\n");
    let mut redis = MemoryStream::open();
    redis.push_incoming(b"$-1\r\n");
    run_worker_round(&mut client, &mut redis).unwrap();
    assert_eq!(redis.written(), &b"GET k\r\n".to_vec());
    assert_eq!(client.written(), &b"$-1\r\n".to_vec());
    let mut idle_client = MemoryStream::open();
    let mut idle_redis = MemoryStream::open();
    copy_data_from_client_to_redis(&mut idle_client, &mut idle_redis).unwrap();
    copy_data_from_redis_to_client(&mut idle_client, &mut idle_redis).unwrap();
    assert!(idle_redis.written().is_empty());
    let mut closed = MemoryStream::new(Vec::new());
    let e = copy_data_from_client_to_redis(&mut closed, &mut idle_redis).unwrap_err();
    assert_eq!(e.io_error_kind(), Some(IoErrorKind::BrokenPipe));
}

#[test]
fn pairing_serves_both_queues_in_order() {
    let mut d: Dispatcher<u32, u32> = Dispatcher::new(String::from("a:1"));
    assert!(d.send_client_to_worker().is_empty());
    assert!(d.manage_message_new_client(10).is_none());
    assert!(d.manage_message_new_client(11).is_none());
    let m = GetAndReleaseClient { worker_id: String::from("w"), client_to_release: Some(12), tx_worker_message: 1 };
    match d.manage_message_worker(m) {
        Some((w, e)) => {
            assert_eq!(w, 1);
            assert_eq!(e.client, Some(10));
        }
        None => panic!("expected a send"),
    }
    assert_eq!(d.clients_len(), 2);
    assert!(d.send_client_to_worker().is_empty());
}

#[test]
fn worker_hand_back_after_a_round() {
    let ok: Event = Event::after_round(String::from("w"), String::from("c"), Ok(()), 3);
    match ok {
        MainLoopEvent::Worker(m) => {
            assert_eq!(m.client_to_release, Some(String::from("c")));
            assert_eq!(m.tx_worker_message, 3);
        }
        _ => panic!("expected a worker request"),
    }
    let failed: Event = Event::after_round(
        String::from("w"),
        String::from("c"),
        Err(RedisError::from_io_error(IoErrorKind::BrokenPipe)),
        3,
    );
    match failed {
        MainLoopEvent::Worker(m) => assert!(m.client_to_release.is_none()),
        _ => panic!("expected a worker request"),
    }
    assert!(matches!(WorkerEvent::<u32>::shutdown().task(), WorkerTask::Stop));
    assert!(matches!(WorkerEvent::send_client(5u32).task(), WorkerTask::Serve(5)));
    let idle: WorkerEvent<u32> = WorkerEvent { client: None, shutdown: false };
    assert!(matches!(idle.task(), WorkerTask::Idle));
}

#[test]
fn worker_round_fails_only_on_socket_errors() {
    let mut client = MemoryStream::open();
    let mut redis = MemoryStream::open();
    assert!(run_worker_round(&mut client, &mut redis).is_ok());
    let mut closed = MemoryStream::new(Vec::new());
    let e = run_worker_round(&mut closed, &mut redis).unwrap_err();
    assert_eq!(e.kind(), ErrorKind::IoError);
}
