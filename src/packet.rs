//! Packets received from live rooms, their archive form, and what each packet
//! means for the time-series sink.

use vstd::prelude::*;
use crate::json::{member_of, parse_json, json_of_text, string_at, string_of, u64_at, u64_of, Json};
use crate::text::text_eq;

verus! {

/// The operation code of a packet: the two that carry data, or any other code.
#[derive(PartialEq, Eq, Structural, Clone, Copy, Debug)]
pub enum Operation {
    HeartbeatReply,
    SendMsgReply,
    Other(u32),
}

/// A packet of one room, as received or as read back from an archive.
pub struct Packet {
    pub operation: Operation,
    /// Raw body: JSON for `SendMsgReply`, a decimal integer for `HeartbeatReply`.
    pub body: String,
    /// Reception time in milliseconds since the epoch.
    pub time_ms: i64,
    pub room_id: u64,
}

/// Names of the known operations, by code, as they are written in archives.
pub open spec fn operation_code(name: Seq<char>) -> Option<u32> {
    if name == "Handshake"@ { Some(0) }
    else if name == "HandshakeReply"@ { Some(1) }
    else if name == "Heartbeat"@ { Some(2) }
    else if name == "HeartbeatReply"@ { Some(3) }
    else if name == "SendMsg"@ { Some(4) }
    else if name == "SendMsgReply"@ { Some(5) }
    else if name == "DisconnectReply"@ { Some(6) }
    else if name == "Auth"@ { Some(7) }
    else if name == "AuthReply"@ { Some(8) }
    else if name == "Raw"@ { Some(9) }
    else if name == "ProtoReady"@ { Some(10) }
    else if name == "ProtoFinish"@ { Some(11) }
    else if name == "ChangeRoom"@ { Some(12) }
    else if name == "ChangeRoomReply"@ { Some(13) }
    else if name == "Register"@ { Some(14) }
    else if name == "RegisterReply"@ { Some(15) }
    else if name == "Unregister"@ { Some(16) }
    else if name == "UnregisterReply"@ { Some(17) }
    else { None }
}

pub open spec fn operation_of_code(code: u32) -> Operation {
    if code == 3 {
        Operation::HeartbeatReply
    } else if code == 5 {
        Operation::SendMsgReply
    } else {
        Operation::Other(code)
    }
}

/// The operation of a wire code.
pub fn operation_from_code(code: u32) -> (r: Operation)
    ensures
        r == operation_of_code(code),
{
    if code == 3 {
        Operation::HeartbeatReply
    } else if code == 5 {
        Operation::SendMsgReply
    } else {
        Operation::Other(code)
    }
}

/// The operation named `name` in an archive line.
pub fn operation_from_name(name: &str) -> (r: Option<Operation>)
    ensures
        r == (match operation_code(name@) {
            Some(c) => Some(operation_of_code(c)),
            None => None,
        }),
{
    let names: [&str; 18] = [
        "Handshake",
        "HandshakeReply",
        "Heartbeat",
        "HeartbeatReply",
        "SendMsg",
        "SendMsgReply",
        "DisconnectReply",
        "Auth",
        "AuthReply",
        "Raw",
        "ProtoReady",
        "ProtoFinish",
        "ChangeRoom",
        "ChangeRoomReply",
        "Register",
        "RegisterReply",
        "Unregister",
        "UnregisterReply",
    ];
    let mut code: u32 = 0;
    while code < 18
        invariant
            names@ == seq![
                "Handshake",
                "HandshakeReply",
                "Heartbeat",
                "HeartbeatReply",
                "SendMsg",
                "SendMsgReply",
                "DisconnectReply",
                "Auth",
                "AuthReply",
                "Raw",
                "ProtoReady",
                "ProtoFinish",
                "ChangeRoom",
                "ChangeRoomReply",
                "Register",
                "RegisterReply",
                "Unregister",
                "UnregisterReply",
            ],
            code <= 18,
            forall|k: int| 0 <= k < code ==> name@ != (#[trigger] names@[k])@,
        decreases 18 - code,
    {
        if text_eq(name, names[code as usize]) {
            return Some(operation_from_code(code));
        }
        code = code + 1;
    }
    assert(operation_code(name@) is None) by {
        assert(name@ != names@[0]@);
        assert(name@ != names@[1]@);
        assert(name@ != names@[2]@);
        assert(name@ != names@[3]@);
        assert(name@ != names@[4]@);
        assert(name@ != names@[5]@);
        assert(name@ != names@[6]@);
        assert(name@ != names@[7]@);
        assert(name@ != names@[8]@);
        assert(name@ != names@[9]@);
        assert(name@ != names@[10]@);
        assert(name@ != names@[11]@);
        assert(name@ != names@[12]@);
        assert(name@ != names@[13]@);
        assert(name@ != names@[14]@);
        assert(name@ != names@[15]@);
        assert(name@ != names@[16]@);
        assert(name@ != names@[17]@);
    }
    None
}

/// Milliseconds since the epoch of a timestamp as chrono's `DateTime` parser
/// reads it (RFC 3339, relaxed: a space may stand for `T`), sub-millisecond
/// digits dropped; `None` when the text is not one.
pub uninterp spec fn rfc3339_millis(s: Seq<char>) -> Option<i64>;

/// Relies on chrono's `FromStr for DateTime<FixedOffset>` and `timestamp_millis`:
/// reads a timestamp with its offset; the result depends on the text alone.
#[verifier::external_body]
pub(crate) fn parse_time_ms(s: &str) -> (r: Option<i64>)
    ensures
        r == rfc3339_millis(s@),
{
    s.parse::<chrono::DateTime<chrono::FixedOffset>>().ok().map(|t| t.timestamp_millis())
}

/// The fields of an archive line, before the time is read.
pub open spec fn archive_fields(line: Json) -> Option<(Operation, String, String, u64)> {
    let op = string_of(line.member("operation"@));
    let body = string_of(line.member("body"@));
    let time = string_of(line.member("time"@));
    let room = u64_of(line.member("room_id"@));
    if op is Some && body is Some && time is Some && room is Some {
        match operation_code(op->0@) {
            Some(c) => Some((operation_of_code(c), body->0, time->0, room->0)),
            None => None,
        }
    } else {
        None
    }
}

pub open spec fn archive_packet_of(line: Json) -> Option<Packet> {
    match archive_fields(line) {
        Some((op, body, time, room)) => match rfc3339_millis(time@) {
            Some(t) => Some(Packet { operation: op, body, time_ms: t, room_id: room }),
            None => None,
        },
        None => None,
    }
}

impl Packet {
    /// Reads a packet from one archive line that has been parsed as JSON: an object
    /// with `operation` (an operation name), `body`, `time` (RFC 3339) and `room_id`.
    pub fn from_archive_json(line: &Json) -> (r: Option<Packet>)
        ensures
            r == archive_packet_of(*line),
    {
        let op = string_at(line.get("operation"));
        let body = string_at(line.get("body"));
        let time = string_at(line.get("time"));
        let room = u64_at(line.get("room_id"));
        match (op, body, time, room) {
            (Some(op), Some(body), Some(time), Some(room_id)) => {
                match operation_from_name(op.as_str()) {
                    Some(operation) => match parse_time_ms(time.as_str()) {
                        Some(time_ms) => Some(Packet { operation, body, time_ms, room_id }),
                        None => None,
                    },
                    None => None,
                }
            },
            _ => None,
        }
    }

    /// Reads a packet from one archive line.
    pub fn from_archive_line(line: &str) -> (r: Option<Packet>)
        ensures
            r == (match json_of_text(line@) {
                Some(j) => archive_packet_of(j),
                None => None,
            }),
    {
        match parse_json(line) {
            Some(j) => Self::from_archive_json(&j),
            None => None,
        }
    }
}

/// A `SendMsgReply` body: a command name and its data (`null` when absent).
pub struct SendMsgReply {
    pub cmd: String,
    pub data: Json,
}

pub open spec fn send_msg_reply_of(doc: Json) -> Option<SendMsgReply> {
    match doc {
        Json::Object(fields) => match member_of(fields@, "cmd"@) {
            Some(Json::Str(cmd)) => Some(
                SendMsgReply {
                    cmd,
                    data: match member_of(fields@, "data"@) {
                        Some(d) => d,
                        None => Json::Null,
                    },
                },
            ),
            _ => None,
        },
        _ => None,
    }
}

/// Removes the first member named `key` and returns its value.
fn take_member(fields: &mut Vec<(String, Json)>, key: &str) -> (r: Option<Json>)
    ensures
        r == member_of(old(fields)@, key@),
{
    let mut i: usize = 0;
    assert(fields@.subrange(0, fields@.len() as int) =~= fields@);
    while i < fields.len()
        invariant
            i <= fields@.len(),
            fields@ == old(fields)@,
            member_of(fields@, key@) == member_of(
                fields@.subrange(i as int, fields@.len() as int),
                key@,
            ),
        decreases fields@.len() - i,
    {
        let ghost rest = fields@.subrange(i as int, fields@.len() as int);
        assert(rest.drop_first() =~= fields@.subrange(i + 1, fields@.len() as int));
        assert(rest[0] == fields@[i as int]);
        if text_eq(fields[i].0.as_str(), key) {
            let (_, v) = fields.remove(i);
            return Some(v);
        }
        i = i + 1;
    }
    None
}

impl SendMsgReply {
    pub fn from_json(doc: Json) -> (r: Option<SendMsgReply>)
        ensures
            r == send_msg_reply_of(doc),
    {
        let cmd = string_at(doc.get("cmd"));
        match (doc, cmd) {
            (Json::Object(fields), Some(cmd)) => {
                let mut fields = fields;
                let data = match take_member(&mut fields, "data") {
                    Some(d) => d,
                    None => Json::Null,
                };
                Some(SendMsgReply { cmd, data })
            },
            _ => None,
        }
    }

    /// Reads a `SendMsgReply` body: a JSON object with a string `cmd`.
    pub fn from_body(body: &str) -> (r: Option<SendMsgReply>)
        ensures
            r == match json_of_text(body@) {
                Some(d) => send_msg_reply_of(d),
                None => None,
            },
    {
        match parse_json(body) {
            Some(d) => Self::from_json(d),
            None => None,
        }
    }
}

} // verus!
