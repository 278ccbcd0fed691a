use freebsd_nfs_exporter::bintime::Bintime;
use freebsd_nfs_exporter::cap_nfs::{
    BrokerAction, BrokerEvent, BrokerState, CapNfs, CapNfsAgent, Exchange, COMMAND,
    COMMAND_FIELD, PAYLOAD_FIELD,
};
use freebsd_nfs_exporter::codec::{encode, ENCODED_LEN};
use freebsd_nfs_exporter::error::{Error, Fatal};
use freebsd_nfs_exporter::message::BrokerMessage;
use freebsd_nfs_exporter::nfs::{normalize, NfsStat, OsError, RawStats};
use freebsd_nfs_exporter::rpc::{NFSV4OP_READ, NFSV4OP_WRITE};

fn command(text: &str) -> BrokerEvent {
    BrokerEvent::Command(text.to_string())
}

fn sample_raw() -> RawStats {
    let mut raw = RawStats::new();
    raw.srvrpccnt[NFSV4OP_READ] = 42;
    raw.srvbytes[NFSV4OP_READ] = 4096;
    raw.srvcache_size = -1;
    raw
}

#[test]
fn names_on_the_wire() {
    assert_eq!(COMMAND, "nfsstat");
    assert_eq!(COMMAND_FIELD, "cmd");
    assert_eq!(PAYLOAD_FIELD, "nfsstat");
}

#[test]
fn bogus_command_is_fatal() {
    let mut broker = CapNfs::new();
    let action = broker.dispatch(command("bogus"));
    assert!(matches!(action, BrokerAction::Abort(Fatal::ProtocolViolation)));
    assert_eq!(broker.state, BrokerState::Idle);
}

#[test]
fn near_misses_of_the_command_are_fatal() {
    for text in ["", "nfsstat ", " nfsstat", "NFSSTAT", "nfsstat\0", "nfsstats", "nfssta", "cmd"] {
        let mut broker = CapNfs::new();
        let action = broker.dispatch(command(text));
        assert!(matches!(action, BrokerAction::Abort(Fatal::ProtocolViolation)));
        assert_eq!(broker.state, BrokerState::Idle);
    }
}

#[test]
fn bogus_command_is_fatal_while_dispatching() {
    let mut broker = CapNfs::new();
    assert!(matches!(broker.dispatch(command("nfsstat")), BrokerAction::Collect));
    let action = broker.dispatch(command("bogus"));
    assert!(matches!(action, BrokerAction::Abort(Fatal::ProtocolViolation)));
    assert_eq!(broker.state, BrokerState::Dispatching);
}

#[test]
fn recognized_command_leads_to_the_read() {
    let mut broker = CapNfs::new();
    assert_eq!(broker.state, BrokerState::Idle);
    assert!(matches!(broker.dispatch(command("nfsstat")), BrokerAction::Collect));
    assert_eq!(broker.state, BrokerState::Dispatching);
}

#[test]
fn second_request_before_the_reply_is_fatal() {
    let mut broker = CapNfs::new();
    assert!(matches!(broker.dispatch(command("nfsstat")), BrokerAction::Collect));
    let action = broker.dispatch(command("nfsstat"));
    assert!(matches!(action, BrokerAction::Abort(Fatal::ProtocolViolation)));
    assert_eq!(broker.state, BrokerState::Dispatching);
}

#[test]
fn read_outcome_without_a_request_is_fatal() {
    let mut broker = CapNfs::new();
    let action = broker.dispatch(BrokerEvent::Collected(Ok(RawStats::new())));
    assert!(matches!(action, BrokerAction::Abort(Fatal::ProtocolViolation)));
    let action = broker.dispatch(BrokerEvent::Collected(Err(OsError { code: 1 })));
    assert!(matches!(action, BrokerAction::Abort(Fatal::ProtocolViolation)));
    assert_eq!(broker.state, BrokerState::Idle);
}

#[test]
fn reply_carries_the_encoded_record_in_one_binary_field() {
    let raw = sample_raw();
    let mut broker = CapNfs::new();
    assert!(matches!(broker.dispatch(command("nfsstat")), BrokerAction::Collect));
    let action = broker.dispatch(BrokerEvent::Collected(Ok(raw)));
    assert_eq!(broker.state, BrokerState::Idle);
    match action {
        BrokerAction::Reply(reply) => {
            assert_eq!(reply.len(), 1);
            assert_eq!(reply.fields[0].name, "nfsstat");
            let payload = reply.get_binary("nfsstat").unwrap();
            assert_eq!(payload.len(), ENCODED_LEN);
            assert_eq!(payload, &encode(&normalize(&raw)).unwrap());
        }
        other => panic!("expected a reply, got {:?}", other),
    }
}

#[test]
fn failed_read_is_reported_by_its_code() {
    let mut broker = CapNfs::new();
    assert!(matches!(broker.dispatch(command("nfsstat")), BrokerAction::Collect));
    let action = broker.dispatch(BrokerEvent::Collected(Err(OsError { code: 13 })));
    assert!(matches!(action, BrokerAction::ReplyError(OsError { code: 13 })));
    assert_eq!(broker.state, BrokerState::Idle);
}

#[test]
fn broker_serves_one_request_after_another() {
    let mut broker = CapNfs::new();
    for round in 0..3u64 {
        let mut raw = RawStats::new();
        raw.srvstartcnt = round;
        assert!(matches!(broker.dispatch(command("nfsstat")), BrokerAction::Collect));
        assert!(matches!(broker.dispatch(BrokerEvent::Collected(Ok(raw))), BrokerAction::Reply(_)));
        assert_eq!(broker.state, BrokerState::Idle);
    }
}

#[test]
fn request_holds_the_command() {
    let agent = CapNfsAgent::new();
    let request = agent.request();
    assert_eq!(request.len(), 1);
    assert_eq!(request.fields[0].name, "cmd");
    assert_eq!(request.get_string("cmd"), Some(&"nfsstat".to_string()));
    assert_eq!(request.get_binary("nfsstat"), None);
    let mut broker = CapNfs::new();
    let text = request.get_string(COMMAND_FIELD).unwrap().clone();
    assert!(matches!(broker.dispatch(BrokerEvent::Command(text)), BrokerAction::Collect));
}

#[test]
fn reply_without_payload_is_a_protocol_violation() {
    let mut agent = CapNfsAgent::new();
    let result = agent.nfsstat(Exchange::Reply(BrokerMessage::new()));
    assert_eq!(result, Err(Error::Fatal(Fatal::ProtocolViolation)));
    assert_ne!(result, Ok(NfsStat::default()));

    let mut reply = BrokerMessage::new();
    reply.insert_string("nfsstat", "not a payload");
    reply.insert_binary("stats", encode(&NfsStat::default()).unwrap());
    let result = agent.nfsstat(Exchange::Reply(reply));
    assert_eq!(result, Err(Error::Fatal(Fatal::ProtocolViolation)));
}

#[test]
fn malformed_payload_is_an_encoding_error() {
    let mut agent = CapNfsAgent::new();
    for len in [0usize, 1, 8, 671] {
        let mut reply = BrokerMessage::new();
        reply.insert_binary("nfsstat", vec![0u8; len]);
        let result = agent.nfsstat(Exchange::Reply(reply));
        assert_eq!(result, Err(Error::Fatal(Fatal::Encoding)));
    }
}

#[test]
fn native_error_is_an_os_error() {
    let mut agent = CapNfsAgent::new();
    assert_eq!(agent.nfsstat(Exchange::NativeError(13)), Err(Error::Os(13)));
    assert_eq!(agent.nfsstat(Exchange::NativeError(45)), Err(Error::Os(45)));
}

#[test]
fn channel_failure_is_a_transport_error() {
    let mut agent = CapNfsAgent::new();
    assert_eq!(agent.nfsstat(Exchange::TransportFailed(32)), Err(Error::Transport(32)));
}

#[test]
fn only_protocol_and_encoding_errors_are_fatal() {
    assert!(!Error::Os(13).is_fatal());
    assert!(!Error::Transport(32).is_fatal());
    assert!(Error::Fatal(Fatal::ProtocolViolation).is_fatal());
    assert!(Error::Fatal(Fatal::Encoding).is_fatal());
}

#[test]
fn end_to_end() {
    let raw = sample_raw();
    let mut agent = CapNfsAgent::new();
    let request = agent.request();
    let text = request.get_string("cmd").unwrap().clone();

    let mut broker = CapNfs::new();
    assert!(matches!(broker.dispatch(BrokerEvent::Command(text)), BrokerAction::Collect));
    let exchange = match broker.dispatch(BrokerEvent::Collected(Ok(raw))) {
        BrokerAction::Reply(reply) => Exchange::Reply(reply),
        other => panic!("expected a reply, got {:?}", other),
    };

    let stat = agent.nfsstat(exchange).unwrap();
    assert_eq!(stat.server_rpcs.read, 42);
    assert_eq!(stat.bytes.read, 4096);
    assert_eq!(stat.server_cache.size, 0);
    assert_eq!(stat, normalize(&raw));
}

#[test]
fn end_to_end_with_every_field_set() {
    let mut raw = RawStats::new();
    for slot in 0..85 {
        raw.srvrpccnt[slot] = u64::MAX - slot as u64;
        raw.srvbytes[slot] = 1 + slot as u64;
        raw.srvduration[slot] = Bintime { sec: slot as i64, frac: u64::MAX };
    }
    raw.busytime = Bintime { sec: i64::MAX, frac: 1 << 63 };
    raw.srvstartcnt = u64::MAX;
    raw.srvcache_size = i32::MAX;
    raw.srvdelegates = 77;

    let mut broker = CapNfs::new();
    assert!(matches!(broker.dispatch(command("nfsstat")), BrokerAction::Collect));
    let exchange = match broker.dispatch(BrokerEvent::Collected(Ok(raw))) {
        BrokerAction::Reply(reply) => Exchange::Reply(reply),
        other => panic!("expected a reply, got {:?}", other),
    };
    let stat = CapNfsAgent::new().nfsstat(exchange).unwrap();
    assert_eq!(stat, normalize(&raw));
    assert_eq!(stat.bytes.write, 1 + NFSV4OP_WRITE as u64);
    assert_eq!(stat.server_misc.delegs, 77);
}

#[test]
fn end_to_end_failure() {
    let mut broker = CapNfs::new();
    assert!(matches!(broker.dispatch(command("nfsstat")), BrokerAction::Collect));
    let exchange = match broker.dispatch(BrokerEvent::Collected(Err(OsError { code: 1 }))) {
        BrokerAction::ReplyError(error) => Exchange::NativeError(error.code),
        other => panic!("expected an error, got {:?}", other),
    };
    assert_eq!(CapNfsAgent::new().nfsstat(exchange), Err(Error::Os(1)));
}
