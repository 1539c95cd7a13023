//! Chat messages (`DANMU_MSG`) and raw archive lines, as the offline tools read
//! them.

use vstd::prelude::*;
use crate::json::{json_of_text, parse_json, string_at, string_of, u64_at, u64_of, Json};
use crate::packet::{parse_time_ms, rfc3339_millis};
use crate::text::{contains, contains_text, text_eq};

verus! {

/// One chat message.
pub struct DanmuMsg {
    pub text: String,
    pub user_id: u64,
    pub username: String,
    /// Send time in milliseconds since the epoch, as the platform stamps it.
    pub time_ms: u64,
}

#[derive(PartialEq, Eq, Structural, Clone, Copy, Debug)]
pub enum DanmuError {
    /// The body is not an object with a string `cmd` and an `info` tuple of the
    /// chat message's shape.
    Shape,
    /// The body has that shape but its `cmd` is not `DANMU_MSG`.
    NotDanmu,
}

/// The `info` tuple of a chat message: 16 items; item 0 is a 15-item array whose
/// item 4 is the timestamp; item 1 is the text; item 2 is the sender, an 8-item
/// array of (id, name, five integers, a string).
pub open spec fn danmu_info_shape(info: Json) -> bool {
    &&& info.array_len() == Some(16nat)
    &&& info.element(0) matches Some(head) && head.array_len() == Some(15nat) && u64_of(
        head.element(4),
    ) is Some
    &&& string_of(info.element(1)) is Some
    &&& info.element(2) matches Some(user) && user.array_len() == Some(8nat) && u64_of(
        user.element(0),
    ) is Some && string_of(user.element(1)) is Some && u64_of(user.element(2)) is Some && u64_of(
        user.element(3),
    ) is Some && u64_of(user.element(4)) is Some && u64_of(user.element(5)) is Some && u64_of(
        user.element(6),
    ) is Some && string_of(user.element(7)) is Some
}

pub open spec fn danmu_of(body: Json) -> Result<DanmuMsg, DanmuError> {
    match (string_of(body.member("cmd"@)), body.member("info"@)) {
        (Some(cmd), Some(info)) => if danmu_info_shape(info) {
            if cmd@ == "DANMU_MSG"@ {
                Ok(
                    DanmuMsg {
                        text: string_of(info.element(1))->0,
                        user_id: u64_of(info.element(2)->0.element(0))->0,
                        username: string_of(info.element(2)->0.element(1))->0,
                        time_ms: u64_of(info.element(0)->0.element(4))->0,
                    },
                )
            } else {
                Err(DanmuError::NotDanmu)
            }
        } else {
            Err(DanmuError::Shape)
        },
        _ => Err(DanmuError::Shape),
    }
}

fn user_shape(user: &Json) -> (r: Option<(u64, String)>)
    ensures
        match r {
            Some((id, name)) => {
                &&& user.array_len() == Some(8nat)
                &&& u64_of(user.element(0)) == Some(id)
                &&& string_of(user.element(1)) == Some(name)
                &&& u64_of(user.element(2)) is Some && u64_of(user.element(3)) is Some && u64_of(
                    user.element(4),
                ) is Some && u64_of(user.element(5)) is Some && u64_of(user.element(6)) is Some
                &&& string_of(user.element(7)) is Some
            },
            None => !(user.array_len() == Some(8nat) && u64_of(user.element(0)) is Some
                && string_of(user.element(1)) is Some && u64_of(user.element(2)) is Some && u64_of(
                user.element(3),
            ) is Some && u64_of(user.element(4)) is Some && u64_of(user.element(5)) is Some
                && u64_of(user.element(6)) is Some && string_of(user.element(7)) is Some),
        },
{
    if user.len_of_array() != Some(8usize) {
        return None;
    }
    let id = u64_at(user.at(0));
    let name = string_at(user.at(1));
    let ok = u64_at(user.at(2)).is_some() && u64_at(user.at(3)).is_some() && u64_at(
        user.at(4),
    ).is_some() && u64_at(user.at(5)).is_some() && u64_at(user.at(6)).is_some() && string_at(
        user.at(7),
    ).is_some();
    match (id, name) {
        (Some(id), Some(name)) => if ok {
            Some((id, name))
        } else {
            None
        },
        _ => None,
    }
}

impl DanmuMsg {
    /// Decodes a chat message from its JSON body.
    pub fn from_json(body: &Json) -> (r: Result<DanmuMsg, DanmuError>)
        ensures
            r == danmu_of(*body),
    {
        let cmd = string_at(body.get("cmd"));
        let info = body.get("info");
        match (cmd, info) {
            (Some(cmd), Some(info)) => {
                if info.len_of_array() != Some(16usize) {
                    return Err(DanmuError::Shape);
                }
                let ts = match info.at(0) {
                    Some(head) => if head.len_of_array() == Some(15usize) {
                        u64_at(head.at(4))
                    } else {
                        None
                    },
                    None => None,
                };
                let text = string_at(info.at(1));
                let user = match info.at(2) {
                    Some(u) => user_shape(u),
                    None => None,
                };
                match (ts, text, user) {
                    (Some(time_ms), Some(text), Some((user_id, username))) => {
                        if text_eq(cmd.as_str(), "DANMU_MSG") {
                            Ok(DanmuMsg { text, user_id, username, time_ms })
                        } else {
                            Err(DanmuError::NotDanmu)
                        }
                    },
                    _ => Err(DanmuError::Shape),
                }
            },
            _ => Err(DanmuError::Shape),
        }
    }

    /// Decodes a chat message from its body text.
    pub fn from_body(body: &str) -> (r: Result<DanmuMsg, DanmuError>)
        ensures
            r == match json_of_text(body@) {
                Some(j) => danmu_of(j),
                None => Err(DanmuError::Shape),
            },
    {
        match parse_json(body) {
            Some(j) => Self::from_json(&j),
            None => Err(DanmuError::Shape),
        }
    }
}

/// An archive line as the offline tools read it: the operation is kept as text.
pub struct RawLine {
    pub operation: String,
    pub body: String,
    pub time_ms: i64,
    pub room_id: u64,
}

pub open spec fn raw_line_of(line: Json) -> Option<RawLine> {
    let op = string_of(line.member("operation"@));
    let body = string_of(line.member("body"@));
    let time = string_of(line.member("time"@));
    let room = u64_of(line.member("room_id"@));
    if op is Some && body is Some && time is Some && room is Some && rfc3339_millis(time->0@) is Some {
        Some(
            RawLine {
                operation: op->0,
                body: body->0,
                time_ms: rfc3339_millis(time->0@)->0,
                room_id: room->0,
            },
        )
    } else {
        None
    }
}

pub open spec fn raw_line_of_text(s: Seq<char>) -> Option<RawLine> {
    match json_of_text(s) {
        Some(j) => raw_line_of(j),
        None => None,
    }
}

impl RawLine {
    pub fn from_json(line: &Json) -> (r: Option<RawLine>)
        ensures
            r == raw_line_of(*line),
    {
        let op = string_at(line.get("operation"));
        let body = string_at(line.get("body"));
        let time = string_at(line.get("time"));
        let room = u64_at(line.get("room_id"));
        match (op, body, time, room) {
            (Some(operation), Some(body), Some(time), Some(room_id)) => match parse_time_ms(
                time.as_str(),
            ) {
                Some(time_ms) => Some(RawLine { operation, body, time_ms, room_id }),
                None => None,
            },
            _ => None,
        }
    }

    pub fn from_line(line: &str) -> (r: Option<RawLine>)
        ensures
            r == raw_line_of_text(line@),
    {
        match parse_json(line) {
            Some(j) => Self::from_json(&j),
            None => None,
        }
    }
}

/// Why an archive line could not be read.
#[derive(PartialEq, Eq, Structural, Clone, Copy, Debug)]
pub enum LineError {
    /// The line is not an archive record.
    Line,
    /// The record's body does not hold what its command needs.
    Body,
}

/// The chat message of `room_id` that an archive line holds, if any. Lines that
/// do not mention both `SendMsgReply` and `DANMU_MSG` are passed over unread.
pub open spec fn export_line_spec(line: Seq<char>, room_id: u64) -> Result<Option<DanmuMsg>, LineError> {
    if !(contains_text(line, "SendMsgReply"@) && contains_text(line, "DANMU_MSG"@)) {
        Ok(None)
    } else {
        match raw_line_of_text(line) {
            None => Err(LineError::Line),
            Some(raw) => if !(raw.room_id == room_id && raw.operation@ == "SendMsgReply"@) {
                Ok(None)
            } else {
                match json_of_text(raw.body@) {
                    Some(j) => match danmu_of(j) {
                        Ok(m) => Ok(Some(m)),
                        Err(_) => Err(LineError::Body),
                    },
                    None => Err(LineError::Body),
                }
            },
        }
    }
}

pub fn export_line(line: &str, room_id: u64) -> (r: Result<Option<DanmuMsg>, LineError>)
    ensures
        r == export_line_spec(line@, room_id),
{
    if !(contains(line, "SendMsgReply") && contains(line, "DANMU_MSG")) {
        return Ok(None);
    }
    match RawLine::from_line(line) {
        None => Err(LineError::Line),
        Some(raw) => {
            if !(raw.room_id == room_id && text_eq(raw.operation.as_str(), "SendMsgReply")) {
                return Ok(None);
            }
            match DanmuMsg::from_body(raw.body.as_str()) {
                Ok(m) => Ok(Some(m)),
                Err(_) => Err(LineError::Body),
            }
        },
    }
}

} // verus!
