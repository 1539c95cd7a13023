use biliapi::ws_protocol::{KnownOperation, Operation as WireOperation, Packet as WirePacket};
use chrono::{Local, TimeZone};
use ddpanel::packet::{Operation, Packet};

fn wire(op: WireOperation, body: &str, ms: i64, room: u64) -> WirePacket {
    WirePacket {
        operation: op,
        body: body.to_string(),
        time: Local.timestamp_millis_opt(ms).single().unwrap(),
        room_id: room,
    }
}

#[test]
fn record_then_replay_keeps_packets() {
    let packets = vec![
        wire(WireOperation::Known(KnownOperation::SendMsgReply), r#"{"cmd":"DANMU_MSG"}"#, 1625112000123, 7),
        wire(WireOperation::Known(KnownOperation::HeartbeatReply), "1234", 1625112001999, 8),
        wire(WireOperation::Known(KnownOperation::AuthReply), "{}", 0, 9),
    ];
    for p in &packets {
        let line = serde_json::to_string(p).unwrap();
        let back = Packet::from_archive_line(&line).unwrap();
        assert_eq!(back.body, p.body);
        assert_eq!(back.room_id, p.room_id);
        assert_eq!(back.time_ms, p.time.timestamp_millis());
        let code = u32::from(p.operation);
        let expected = match code {
            3 => Operation::HeartbeatReply,
            5 => Operation::SendMsgReply,
            c => Operation::Other(c),
        };
        assert_eq!(back.operation, expected);
    }
}

#[test]
fn unknown_operations_are_not_replayed() {
    let p = wire(WireOperation::Unknown(99), "{}", 0, 1);
    let line = serde_json::to_string(&p).unwrap();
    assert!(Packet::from_archive_line(&line).is_none());
}
