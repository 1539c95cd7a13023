use ddpanel::danmu::{export_line, DanmuError, DanmuMsg, LineError, RawLine};
use ddpanel::json::{u64_from_value, Json};
use ddpanel::packet::{operation_from_code, operation_from_name, Operation, Packet, SendMsgReply};
use ddpanel::popularity::line_parse;
use ddpanel::room_info::{RoomInfo, RoomInfoCache};
use ddpanel::text::{contains, parse_i64, parse_u64, text_eq};

fn doc(json: &str) -> Json {
    SendMsgReply::from_body(&format!(r#"{{"cmd":"t","data":{}}}"#, json)).unwrap().data
}

fn danmu_body(cmd: &str, uid: u64, name: &str, text: &str, ts: u64) -> String {
    format!(
        r#"{{"cmd":"{}","info":[[0,1,25,16777215,{},0,0,"",0,0,0,"",0,{{}},{{}}],"{}",[{},"{}",0,0,0,10000,1,""],[],[0,0,0,"",0],["",""],0,0,null,{{}},0,0,null,null,0,105]}}"#,
        cmd, ts, text, uid, name
    )
}

fn archive_line(op: &str, body: &str, time: &str, room: u64) -> String {
    format!(
        r#"{{"operation":"{}","body":{},"time":"{}","room_id":{}}}"#,
        op,
        serde_json::to_string(body).unwrap(),
        time,
        room
    )
}

#[test]
fn decimal_parsing_follows_std() {
    assert_eq!(parse_u64("42"), Some(42));
    assert_eq!(parse_u64("+7"), Some(7));
    assert_eq!(parse_u64("18446744073709551615"), Some(u64::MAX));
    assert_eq!(parse_u64("18446744073709551616"), None);
    assert_eq!(parse_u64(""), None);
    assert_eq!(parse_u64("-1"), None);
    assert_eq!(parse_u64("1a"), None);
    assert_eq!(parse_i64("-9223372036854775808"), Some(i64::MIN));
    assert_eq!(parse_i64("9223372036854775807"), Some(i64::MAX));
    assert_eq!(parse_i64("9223372036854775808"), None);
    assert_eq!(parse_i64("-12"), Some(-12));
    assert_eq!(parse_i64("-"), None);
}

#[test]
fn text_helpers() {
    assert!(contains("abcDANMU_MSGx", "DANMU_MSG"));
    assert!(!contains("DANMU_MS", "DANMU_MSG"));
    assert!(contains("abc", ""));
    assert!(text_eq("牌牌", "牌牌"));
    assert!(!text_eq("gold", "silver"));
    let cache = RoomInfoCache::new();
    assert_eq!(RoomInfo::from_cache(&cache, 1234567890).streamer, "1234567890");
    assert_eq!(RoomInfo::from_cache(&cache, 0).streamer, "0");
    assert_eq!(RoomInfo::from_cache(&cache, u64::MAX).streamer, "18446744073709551615");
}

#[test]
fn json_parsing_keeps_numbers_as_printed() {
    let j = doc(r#"{"a":[1,-2,3.5,"x",null,true],"b":{"c":"d"}}"#);
    let a = j.get("a").unwrap();
    assert_eq!(a.len_of_array(), Some(6));
    assert!(matches!(a.at(0), Some(Json::Number(n)) if n == "1"));
    assert!(matches!(a.at(1), Some(Json::Number(n)) if n == "-2"));
    assert!(matches!(a.at(2), Some(Json::Number(n)) if n == "3.5"));
    assert!(matches!(a.at(3), Some(Json::Str(s)) if s == "x"));
    assert!(matches!(a.at(4), Some(Json::Null)));
    assert!(matches!(a.at(5), Some(Json::Bool(true))));
    assert!(matches!(j.get("b").unwrap().get("c"), Some(Json::Str(s)) if s == "d"));
    assert!(j.get("missing").is_none());
    assert!(SendMsgReply::from_body("{not json").is_none());
}

#[test]
fn user_ids_accept_numbers_and_strings() {
    let j = doc(r#"{"n":42,"s":"43","neg":-1,"f":1.5,"big":"18446744073709551616","b":true}"#);
    assert_eq!(u64_from_value(j.get("n")), Some(42));
    assert_eq!(u64_from_value(j.get("s")), Some(43));
    assert_eq!(u64_from_value(j.get("neg")), None);
    assert_eq!(u64_from_value(j.get("s")), Some(43));
    assert_eq!(u64_from_value(j.get("f")), None);
    assert_eq!(u64_from_value(j.get("big")), None);
    assert_eq!(u64_from_value(j.get("b")), None);
    assert_eq!(u64_from_value(j.get("missing")), None);
}

#[test]
fn operations_by_name_and_code() {
    assert_eq!(operation_from_name("SendMsgReply"), Some(Operation::SendMsgReply));
    assert_eq!(operation_from_name("HeartbeatReply"), Some(Operation::HeartbeatReply));
    assert_eq!(operation_from_name("AuthReply"), Some(Operation::Other(8)));
    assert_eq!(operation_from_name("UnregisterReply"), Some(Operation::Other(17)));
    assert_eq!(operation_from_name("Unknown(99)"), None);
    assert_eq!(operation_from_code(5), Operation::SendMsgReply);
    assert_eq!(operation_from_code(3), Operation::HeartbeatReply);
    assert_eq!(operation_from_code(99), Operation::Other(99));
}

#[test]
fn archive_line_decodes_to_packet() {
    let line = archive_line("SendMsgReply", r#"{"cmd":"X"}"#, "2021-07-01T12:00:00.123456+08:00", 7);
    let p = Packet::from_archive_line(&line).unwrap();
    assert_eq!(p.operation, Operation::SendMsgReply);
    assert_eq!(p.body, r#"{"cmd":"X"}"#);
    assert_eq!(p.room_id, 7);
    assert_eq!(p.time_ms, 1625112000123);
    let bad_time = archive_line("SendMsgReply", "{}", "yesterday", 7);
    assert!(Packet::from_archive_line(&bad_time).is_none());
    let bad_op = archive_line("Unknown(99)", "{}", "2021-07-01T12:00:00+08:00", 7);
    assert!(Packet::from_archive_line(&bad_op).is_none());
    assert!(Packet::from_archive_line("").is_none());
}

#[test]
fn send_msg_reply_data_defaults_to_null() {
    let m = SendMsgReply::from_body(r#"{"cmd":"PING"}"#).unwrap();
    assert_eq!(m.cmd, "PING");
    assert!(matches!(m.data, Json::Null));
    assert!(SendMsgReply::from_body(r#"{"data":{}}"#).is_none());
    assert!(SendMsgReply::from_body(r#"[1]"#).is_none());
    assert!(SendMsgReply::from_json(Json::Null).is_none());
    let built = Json::Object(vec![("cmd".to_string(), Json::Str("X".to_string()))]);
    assert_eq!(SendMsgReply::from_json(built).unwrap().cmd, "X");
}

#[test]
fn danmu_message_decodes_from_its_tuple() {
    let body = danmu_body("DANMU_MSG", 1234, "alice", "hello", 1625112000123);
    let m = DanmuMsg::from_body(&body).unwrap();
    assert_eq!(m.user_id, 1234);
    assert_eq!(m.username, "alice");
    assert_eq!(m.text, "hello");
    assert_eq!(m.time_ms, 1625112000123);
    let other = danmu_body("DANMU_MSG_X", 1, "a", "b", 1);
    assert_eq!(DanmuMsg::from_body(&other).err(), Some(DanmuError::NotDanmu));
    assert_eq!(DanmuMsg::from_body(r#"{"cmd":"DANMU_MSG","info":[]}"#).err(), Some(DanmuError::Shape));
    assert_eq!(DanmuMsg::from_body("nope").err(), Some(DanmuError::Shape));
}

#[test]
fn raw_line_reads_time_as_millis() {
    let line = archive_line("SendMsgReply", "{}", "2021-07-01T04:00:00Z", 3);
    let raw = RawLine::from_line(&line).unwrap();
    assert_eq!(raw.operation, "SendMsgReply");
    assert_eq!(raw.time_ms, 1625112000000);
    assert_eq!(raw.room_id, 3);
    assert!(RawLine::from_line(r#"{"operation":"SendMsgReply"}"#).is_none());
}

#[test]
fn export_keeps_chat_of_the_room() {
    let body = danmu_body("DANMU_MSG", 9, "bob", "hi", 5);
    let line = archive_line("SendMsgReply", &body, "2021-07-01T04:00:00Z", 3);
    let m = export_line(&line, 3).unwrap().unwrap();
    assert_eq!(m.user_id, 9);
    assert!(export_line(&line, 4).unwrap().is_none());
    assert!(export_line("unrelated", 3).unwrap().is_none());
    assert_eq!(export_line("SendMsgReply DANMU_MSG", 3).err(), Some(LineError::Line));
    let broken = archive_line("SendMsgReply", r#"{"cmd":"DANMU_MSG"}"#, "2021-07-01T04:00:00Z", 3);
    assert_eq!(export_line(&broken, 3).err(), Some(LineError::Body));
}

#[test]
fn line_parse_extracts_user_room_time() {
    let body = danmu_body("DANMU_MSG", 11, "c", "x", 5);
    let line = archive_line("SendMsgReply", &body, "2021-07-01T04:00:00Z", 8);
    assert_eq!(line_parse(&line), Ok(Some((11, 8, 1625112000000))));

    let sc = r#"{"cmd":"SUPER_CHAT_MESSAGE\","data":{"uid":"77"}}"#;
    let line = archive_line("SendMsgReply", sc, "2021-07-01T04:00:01Z", 8);
    assert_eq!(line_parse(&line), Err(LineError::Body));
    let sc = r#"{"cmd":"SUPER_CHAT_MESSAGE","data":{"uid":76,"message":"SUPER_CHAT_MESSAGE\\"}}"#;
    let line = archive_line("SendMsgReply", sc, "2021-07-01T04:00:01Z", 8);
    assert_eq!(line_parse(&line), Ok(Some((76, 8, 1625112001000))));
    let sc = r#"{"cmd":"GUARD_BUY","data":{"uid":"77"}}"#;
    let line = archive_line("SendMsgReply", sc, "2021-07-01T04:00:01Z", 8);
    assert_eq!(line_parse(&line), Ok(Some((77, 8, 1625112001000))));
    let guard = r#"{"cmd":"GUARD_BUY","data":{"uid":78}}"#;
    let line = archive_line("SendMsgReply", guard, "2021-07-01T04:00:02Z", 8);
    assert_eq!(line_parse(&line), Ok(Some((78, 8, 1625112002000))));
    let no_uid = r#"{"cmd":"GUARD_BUY","data":{}}"#;
    let line = archive_line("SendMsgReply", no_uid, "2021-07-01T04:00:02Z", 8);
    assert_eq!(line_parse(&line), Err(LineError::Body));

    let other = archive_line("SendMsgReply", r#"{"cmd":"ROOM_RANK"}"#, "2021-07-01T04:00:00Z", 8);
    assert_eq!(line_parse(&other), Ok(None));
    let hb = archive_line("HeartbeatReply", "12", "2021-07-01T04:00:00Z", 8);
    assert_eq!(line_parse(&hb), Ok(None));
    assert_eq!(line_parse("garbage"), Err(LineError::Line));
}
