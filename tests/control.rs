use std::sync::atomic::{AtomicUsize, Ordering};
use std::sync::Arc;

use soundwire::config::{DeviceSource, Named, PipeSource, Source as SourceConfig};
use soundwire::proto::{
    reply, Host, Meta, Method, Reply, ResponseError, StreamStatus, Timestamp, Version, INTERNAL_ERROR,
    INVALID_PARAMS, INVALID_REQUEST, METHOD_NOT_FOUND, PARSE_ERROR,
};
use soundwire::backend::{Opt, Verbosity, DEFAULT_CONFIG};
use soundwire::proto::Entity;
use soundwire::source::{Source, SourceCallback};

struct Counter {
    chunks: Arc<AtomicUsize>,
    idles: Arc<AtomicUsize>,
}

impl SourceCallback for Counter {
    fn data(&mut self, data: &[i16]) {
        self.chunks.fetch_add(data.len(), Ordering::SeqCst);
    }

    fn idle(&mut self) {
        self.idles.fetch_add(1, Ordering::SeqCst);
    }
}

#[test]
fn monitor_tracks_liveness_and_forwards() {
    let chunks = Arc::new(AtomicUsize::new(0));
    let idles = Arc::new(AtomicUsize::new(0));
    let config = Named {
        name: Arc::new("mic".to_string()),
        value: SourceConfig::Device(DeviceSource { device: "default".to_string() }),
    };
    let (source, mut callback) =
        Source::with_config(&config, Counter { chunks: chunks.clone(), idles: idles.clone() });
    assert_eq!(source.name(), "mic");
    assert_eq!(source.value.kind(), "device");
    assert!(!source.value.is_active());
    callback.data(&[1, 2, 3]);
    assert!(source.value.is_active());
    assert_eq!(chunks.load(Ordering::SeqCst), 3);
    callback.idle();
    assert!(!source.value.is_active());
    assert_eq!(idles.load(Ordering::SeqCst), 1);
    callback.data(&[4]);
    assert!(source.value.is_active());
    drop(callback);
    assert!(!source.value.is_active());
}

#[test]
fn pipe_source_kind() {
    let config = Named {
        name: Arc::new("pipe-in".to_string()),
        value: SourceConfig::Pipe(PipeSource { path: "/tmp/in".to_string(), create: true }),
    };
    let (source, _cb) = Source::with_config(
        &config,
        Counter { chunks: Arc::new(AtomicUsize::new(0)), idles: Arc::new(AtomicUsize::new(0)) },
    );
    assert_eq!(source.value.kind(), "pipe");
}

#[test]
fn named_take_and_with_keep_the_name() {
    let n = Named { name: Arc::new("x".to_string()), value: 3u8 };
    let m = n.with("y");
    assert_eq!(m.name(), "x");
    assert_eq!(m.value, "y");
    assert!(Arc::ptr_eq(&n.name, &m.name));
    let (bare, v) = n.take();
    assert_eq!(bare.name(), "x");
    assert_eq!(v, 3);
}

#[test]
fn error_codes_and_messages() {
    let e = ResponseError::parse_error("bad");
    assert_eq!((e.code, e.message.as_str()), (-32700, "Parse error: bad"));
    assert_eq!(PARSE_ERROR, -32700);
    let e = ResponseError::invalid_request("{}");
    assert_eq!((e.code, e.message.as_str()), (INVALID_REQUEST, "Invalid request: {}"));
    assert_eq!(INVALID_REQUEST, -32600);
    let e = ResponseError::method_not_found("X");
    assert_eq!((e.code, e.message.as_str()), (-32601, "Method not found: X"));
    let e = ResponseError::invalid_params("Unknown client: a");
    assert_eq!((e.code, e.message.as_str()), (-32602, "Invalid parameter: Unknown client: a"));
    assert_eq!(INVALID_PARAMS, -32602);
    let e = ResponseError::internal("oops");
    assert_eq!((e.code, e.message.as_str()), (-32603, "oops"));
    assert_eq!(INTERNAL_ERROR, -32603);
    let e = ResponseError::message(7, "m".to_string());
    assert_eq!((e.code, e.message.as_str()), (7, "m"));
}

#[test]
fn method_names() {
    assert_eq!(Method::from_name("Client.GetStatus").ok(), Some(Method::ClientGetStatus));
    assert_eq!(Method::from_name("Client.SetVolume").ok(), Some(Method::ClientSetVolume));
    assert_eq!(Method::from_name("Group.GetStatus").ok(), Some(Method::GroupGetStatus));
    assert_eq!(Method::from_name("Group.SetMute").ok(), Some(Method::GroupSetMute));
    assert_eq!(Method::from_name("Group.SetStream").ok(), Some(Method::GroupSetStream));
    assert_eq!(Method::from_name("Server.GetRPCVersion").ok(), Some(Method::ServerGetRpcVersion));
    assert_eq!(Method::from_name("Server.GetStatus").ok(), Some(Method::ServerGetStatus));
    let e = Method::from_name("Server.Reboot").err().unwrap();
    assert_eq!(e.code, METHOD_NOT_FOUND);
    assert_eq!(e.message, "Method not found: Server.Reboot");
    assert!(Method::from_name("client.getstatus").is_err());
    assert!(Method::from_name("").is_err());
}

#[test]
fn reported_records() {
    let v = Version::default();
    assert_eq!((v.major, v.minor, v.patch), (2, 0, 0));
    let m = Meta::default();
    assert_eq!((m.name.as_str(), m.protocol, m.version.as_str()), ("soundwire", 2, "0.1.0"));
    let _ = Host::default();
    assert_eq!(StreamStatus::from(true), StreamStatus::Active);
    assert_eq!(StreamStatus::from(false), StreamStatus::Idle);
    let t = Timestamp::now().unwrap();
    assert!(t.usec < 1_000_000);
    assert!(t.sec > 1_600_000_000);
}

#[test]
fn unknown_ids_are_invalid_params() {
    let e = ResponseError::unknown(Entity::Client, "k");
    assert_eq!((e.code, e.message.as_str()), (-32602, "Invalid parameter: Unknown client: k"));
    let e = ResponseError::unknown(Entity::Group, "g1");
    assert_eq!(e.message, "Invalid parameter: Unknown group: g1");
    let e = ResponseError::unknown(Entity::Stream, "");
    assert_eq!(e.message, "Invalid parameter: Unknown stream: ");
}

#[test]
fn verbosity_levels() {
    let opt = |v: usize| Opt { verbose: v, config: DEFAULT_CONFIG.to_string() };
    assert_eq!(opt(0).verbosity(), Verbosity::Warn);
    assert_eq!(opt(1).verbosity(), Verbosity::Info);
    assert_eq!(opt(2).verbosity(), Verbosity::Debug);
    assert_eq!(opt(3).verbosity(), Verbosity::Trace);
    assert_eq!(opt(40).verbosity(), Verbosity::Trace);
}

#[test]
fn error_with_code_and_detail() {
    let e = ResponseError::error(-32602, "missing field `id`");
    assert_eq!((e.code, e.message.as_str()), (-32602, "missing field `id`"));
}

#[test]
fn timestamp_from_clock_readings() {
    let t = Timestamp::from_clock(Some((1_700_000_000, 999_999))).unwrap();
    assert_eq!((t.sec, t.usec), (1_700_000_000, 999_999));
    assert!(Timestamp::from_clock(None).is_none());
}

#[test]
fn replies_follow_id_and_outcome() {
    match reply(Some("7".to_string()), Ok::<u32, ResponseError>(3)) {
        Reply::Result(id, v) => assert_eq!((id.as_str(), v), ("7", 3)),
        _ => panic!("expected a result"),
    }
    assert!(matches!(reply(None, Ok::<u32, ResponseError>(3)), Reply::Nothing));
    match reply::<u32>(Some("8".to_string()), Err(ResponseError::internal("x"))) {
        Reply::Error(id, e) => {
            assert_eq!(id.as_deref(), Some("8"));
            assert_eq!(e.code, INTERNAL_ERROR);
        }
        _ => panic!("expected an error"),
    }
    match reply::<u32>(None, Err(ResponseError::parse_error("eof"))) {
        Reply::Error(id, e) => {
            assert!(id.is_none());
            assert_eq!(e.message, "Parse error: eof");
        }
        _ => panic!("expected an error"),
    }
}

#[test]
fn source_uri_is_its_kind() {
    let config = Named {
        name: Arc::new("in".to_string()),
        value: SourceConfig::Pipe(PipeSource { path: "/tmp/p".to_string(), create: false }),
    };
    let (source, _cb) = Source::with_config(
        &config,
        Counter { chunks: Arc::new(AtomicUsize::new(0)), idles: Arc::new(AtomicUsize::new(0)) },
    );
    assert_eq!(source.value.uri_text(), "pipe://");
    let uri = source.value.uri().unwrap();
    assert_eq!(uri.scheme(), "pipe");
}
