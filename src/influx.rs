//! The time-series sink: what each packet becomes, the point buffer and its
//! flush policy, and the retry schedule of a batch write.

use vstd::prelude::*;
use crate::json::{json_of_text, parse_json, Json};
use crate::messages::{
    located, send_gift_of, super_chat_of, user_toast_of, Popularity, SendGift, SuperChat,
    UserToastMsg,
};
use crate::packet::{send_msg_reply_of, Operation, Packet, SendMsgReply};
use crate::point::{Point, PointView};
use crate::room_info::{room_info_for, RoomInfo, RoomInfoCache};
use crate::text::{parse_i64, parse_i64_spec, text_eq};

verus! {

/// What a packet means for the sink.
pub enum PacketOutcome {
    /// A point to insert.
    Point(Point),
    /// A chat message of the room at this time, to be counted.
    Danmu { room_id: u64, time_ms: i64 },
    /// Nothing to record.
    Ignored,
}

pub enum OutcomeView {
    Point(PointView),
    Danmu { room_id: u64, time_ms: i64 },
    Ignored,
}

/// Why a packet could not be used.
#[derive(PartialEq, Eq, Structural, Clone, Copy, Debug)]
pub enum PacketError {
    /// The body of a `SendMsgReply` is not a JSON object with a string `cmd`.
    Body,
    /// The data of a known command does not have the command's shape.
    Message,
    /// The body of a `HeartbeatReply` is not a decimal `i64`.
    Popularity,
}

impl PacketOutcome {
    pub open spec fn view(&self) -> OutcomeView {
        match self {
            PacketOutcome::Point(p) => OutcomeView::Point(p@),
            PacketOutcome::Danmu { room_id, time_ms } => OutcomeView::Danmu {
                room_id: *room_id,
                time_ms: *time_ms,
            },
            PacketOutcome::Ignored => OutcomeView::Ignored,
        }
    }
}

pub open spec fn outcome_view(r: Result<PacketOutcome, PacketError>) -> Result<OutcomeView, PacketError> {
    match r {
        Ok(o) => Ok(o.view()),
        Err(e) => Err(e),
    }
}

/// The outcome of a decoded `SendMsgReply` of a room at time `t`. The Japanese
/// duplicate of a super chat is not among the commands, so it is ignored.
pub open spec fn message_outcome_spec(cmd: Seq<char>, data: Json, room_info: RoomInfo, t: i64) -> Result<OutcomeView, PacketError> {
    if cmd == "SUPER_CHAT_MESSAGE"@ {
        match super_chat_of(data) {
            Some(sc) => Ok(
                OutcomeView::Point(
                    located(sc.basic_point_spec(), room_info.id, room_info.streamer@, t),
                ),
            ),
            None => Err(PacketError::Message),
        }
    } else if cmd == "SEND_GIFT"@ {
        match send_gift_of(data) {
            Some(g) => if g.is_free_spec() {
                Ok(OutcomeView::Ignored)
            } else {
                Ok(OutcomeView::Point(g.point_spec(room_info, t)))
            },
            None => Err(PacketError::Message),
        }
    } else if cmd == "USER_TOAST_MSG"@ {
        match user_toast_of(data) {
            Some(g) => Ok(
                OutcomeView::Point(
                    located(g.basic_point_spec(), room_info.id, room_info.streamer@, t),
                ),
            ),
            None => Err(PacketError::Message),
        }
    } else if cmd == "DANMU_MSG"@ {
        Ok(OutcomeView::Danmu { room_id: room_info.id, time_ms: t })
    } else {
        Ok(OutcomeView::Ignored)
    }
}

/// The outcome of a decoded `SendMsgReply` of a room at time `t`.
pub fn on_send_msg_reply(msg: &SendMsgReply, room_info: &RoomInfo, t: i64) -> (r: Result<PacketOutcome, PacketError>)
    ensures
        outcome_view(r) == message_outcome_spec(msg.cmd@, msg.data, *room_info, t),
{
    let cmd = msg.cmd.as_str();
    if text_eq(cmd, "SUPER_CHAT_MESSAGE") {
        match SuperChat::from_json(&msg.data) {
            Some(sc) => Ok(PacketOutcome::Point(sc.into_point(room_info, t))),
            None => Err(PacketError::Message),
        }
    } else if text_eq(cmd, "SEND_GIFT") {
        match SendGift::from_json(&msg.data) {
            Some(gift) => if gift.is_free() {
                Ok(PacketOutcome::Ignored)
            } else {
                Ok(PacketOutcome::Point(gift.into_point(room_info, t)))
            },
            None => Err(PacketError::Message),
        }
    } else if text_eq(cmd, "USER_TOAST_MSG") {
        match UserToastMsg::from_json(&msg.data) {
            Some(guard) => Ok(PacketOutcome::Point(guard.into_point(room_info, t))),
            None => Err(PacketError::Message),
        }
    } else if text_eq(cmd, "DANMU_MSG") {
        Ok(PacketOutcome::Danmu { room_id: room_info.id, time_ms: t })
    } else {
        Ok(PacketOutcome::Ignored)
    }
}

/// The outcome of a `SendMsgReply` body that has been parsed as JSON.
pub open spec fn body_outcome_spec(doc: Option<Json>, room_info: RoomInfo, t: i64) -> Result<OutcomeView, PacketError> {
    match doc {
        Some(d) => match send_msg_reply_of(d) {
            Some(msg) => message_outcome_spec(msg.cmd@, msg.data, room_info, t),
            None => Err(PacketError::Body),
        },
        None => Err(PacketError::Body),
    }
}

/// The outcome of a `SendMsgReply` body, given what the body parses to.
pub fn on_send_msg_body(doc: Option<Json>, room_info: &RoomInfo, t: i64) -> (r: Result<PacketOutcome, PacketError>)
    ensures
        outcome_view(r) == body_outcome_spec(doc, *room_info, t),
{
    match doc {
        Some(d) => match SendMsgReply::from_json(d) {
            Some(msg) => on_send_msg_reply(&msg, room_info, t),
            None => Err(PacketError::Body),
        },
        None => Err(PacketError::Body),
    }
}

/// The outcome of a heartbeat reply whose body is the popularity.
pub open spec fn popularity_outcome_spec(body: Seq<char>, room_info: RoomInfo, t: i64) -> Result<OutcomeView, PacketError> {
    match parse_i64_spec(body) {
        Some(v) => Ok(
            OutcomeView::Point(
                located(Popularity { value: v }.basic_point_spec(), room_info.id, room_info.streamer@, t),
            ),
        ),
        None => Err(PacketError::Popularity),
    }
}

/// The room info that points of `room_id` are tagged with.
pub open spec fn tagged_room(cache: Map<u64, String>, room_id: u64, info: RoomInfo) -> bool {
    info.id == room_id && info.streamer@ == room_info_for(cache, room_id)
}

/// What a packet means for the sink, tagging points with the cached streamer
/// name (or the room id when the room is not cached).
pub fn process_packet(packet: &Packet, cache: &RoomInfoCache) -> (r: Result<PacketOutcome, PacketError>)
    ensures
        match packet.operation {
            Operation::SendMsgReply => exists|info: RoomInfo|
                tagged_room(cache.view(), packet.room_id, info) && outcome_view(r)
                    == body_outcome_spec(json_of_text(packet.body@), info, packet.time_ms),
            Operation::HeartbeatReply => exists|info: RoomInfo|
                tagged_room(cache.view(), packet.room_id, info) && outcome_view(r)
                    == popularity_outcome_spec(packet.body@, info, packet.time_ms),
            Operation::Other(_) => r matches Ok(PacketOutcome::Ignored),
        },
{
    match packet.operation {
        Operation::SendMsgReply => {
            let room_info = RoomInfo::from_cache(cache, packet.room_id);
            let doc = parse_json(packet.body.as_str());
            let r = on_send_msg_body(doc, &room_info, packet.time_ms);
            assert(tagged_room(cache.view(), packet.room_id, room_info));
            r
        },
        Operation::HeartbeatReply => {
            let room_info = RoomInfo::from_cache(cache, packet.room_id);
            let r = match parse_i64(packet.body.as_str()) {
                Some(v) => Ok(PacketOutcome::Point(Popularity::new(v).into_point(&room_info, packet.time_ms))),
                None => Err(PacketError::Popularity),
            };
            assert(tagged_room(cache.view(), packet.room_id, room_info));
            r
        },
        Operation::Other(_) => Ok(PacketOutcome::Ignored),
    }
}


/// Points kept before a batch is written when nothing else is configured.
pub const DEFAULT_CACHE_SIZE: usize = 32;

/// Buffers points and hands them out in batches. The database client that writes
/// a batch, in the background or in line, is held beside it by the runtime.
pub struct CachedInfluxClient {
    /// Points accepted since the start.
    pub insert_count: u64,
    /// Points lost in batches whose writes failed.
    pub fail_count: u64,
    pub buffered_points: Vec<Point>,
    /// A batch is handed out once this many points are buffered.
    pub buffer_size: usize,
    /// Whether batches are written in the background (the default).
    pub async_write: bool,
}

impl CachedInfluxClient {
    pub fn new() -> (r: CachedInfluxClient)
        ensures
            r.insert_count == 0,
            r.fail_count == 0,
            r.buffered_points@.len() == 0,
            r.buffer_size == DEFAULT_CACHE_SIZE,
            r.async_write,
    {
        CachedInfluxClient {
            insert_count: 0,
            fail_count: 0,
            buffered_points: Vec::new(),
            buffer_size: DEFAULT_CACHE_SIZE,
            async_write: true,
        }
    }

    pub fn buffer_size(self, buffer_size: usize) -> (r: CachedInfluxClient)
        ensures
            r == (CachedInfluxClient { buffer_size, ..self }),
    {
        CachedInfluxClient { buffer_size, ..self }
    }

    pub fn async_write(self, async_write: bool) -> (r: CachedInfluxClient)
        ensures
            r == (CachedInfluxClient { async_write, ..self }),
    {
        CachedInfluxClient { async_write, ..self }
    }

    /// Buffers a point. When the buffer then holds `buffer_size` points or more,
    /// all of them are taken out and returned as the batch to write.
    pub fn insert_point(&mut self, point: Point) -> (r: Option<Vec<Point>>)
        ensures
            inserted(*old(self), *final(self), point, r),
    {
        self.insert_count = self.insert_count.saturating_add(1);
        self.buffered_points.push(point);
        if self.buffered_points.len() >= self.buffer_size {
            Some(self.flush())
        } else {
            None
        }
    }

    /// Takes every buffered point out, as the batch to write.
    pub fn flush(&mut self) -> (r: Vec<Point>)
        ensures
            flushed(*old(self), *final(self), r),
    {
        let mut taken: Vec<Point> = Vec::new();
        std::mem::swap(&mut taken, &mut self.buffered_points);
        taken
    }

    /// Charges the points of a batch whose write failed.
    pub fn record_failure(&mut self, lost: u64)
        ensures
            final(self).fail_count == if old(self).fail_count + lost <= u64::MAX {
                old(self).fail_count + lost
            } else {
                u64::MAX as int
            },
            final(self).insert_count == old(self).insert_count,
            final(self).buffered_points == old(self).buffered_points,
            final(self).buffer_size == old(self).buffer_size,
            final(self).async_write == old(self).async_write,
    {
        self.fail_count = self.fail_count.saturating_add(lost);
    }
}

/// What `insert_point` does: counts the point, buffers it, and hands out the
/// whole buffer as a batch once it holds `buffer_size` points or more.
pub open spec fn inserted(
    before: CachedInfluxClient,
    after: CachedInfluxClient,
    point: Point,
    batch: Option<Vec<Point>>,
) -> bool {
    &&& after.insert_count == if before.insert_count < u64::MAX {
        before.insert_count + 1
    } else {
        before.insert_count as int
    }
    &&& after.fail_count == before.fail_count
    &&& after.buffer_size == before.buffer_size
    &&& after.async_write == before.async_write
    &&& if before.buffered_points@.len() + 1 >= before.buffer_size {
        &&& batch matches Some(b) && b@ == before.buffered_points@.push(point)
        &&& after.buffered_points@.len() == 0
    } else {
        &&& batch is None
        &&& after.buffered_points@ == before.buffered_points@.push(point)
    }
}

/// What `flush` does: hands out every buffered point and leaves the buffer empty.
pub open spec fn flushed(before: CachedInfluxClient, after: CachedInfluxClient, batch: Vec<Point>) -> bool {
    &&& batch@ == before.buffered_points@
    &&& after.buffered_points@.len() == 0
    &&& after.insert_count == before.insert_count
    &&& after.fail_count == before.fail_count
    &&& after.buffer_size == before.buffer_size
    &&& after.async_write == before.async_write
}

/// After any insert the buffer holds at most `buffer_size` points.
pub proof fn lemma_buffer_bounded(
    before: CachedInfluxClient,
    after: CachedInfluxClient,
    point: Point,
    batch: Option<Vec<Point>>,
)
    requires
        inserted(before, after, point, batch),
    ensures
        after.buffered_points@.len() <= after.buffer_size,
{
}

/// A flush always leaves the buffer empty.
pub proof fn lemma_flush_empties(before: CachedInfluxClient, after: CachedInfluxClient, batch: Vec<Point>)
    requires
        flushed(before, after, batch),
    ensures
        after.buffered_points@.len() == 0,
        batch@.len() == before.buffered_points@.len(),
{
}

/// Seconds to wait before the next attempt after attempt `attempt` (from 0)
/// failed: 0, 1 and 3 seconds, and no further attempt after the fourth.
pub open spec fn retry_delay_spec(attempt: int) -> Option<u64> {
    if attempt == 0 {
        Some(0)
    } else if attempt == 1 {
        Some(1)
    } else if attempt == 2 {
        Some(3)
    } else {
        None
    }
}

/// Attempts that a batch write gets.
pub const MAX_ATTEMPTS: usize = 4;

pub fn retry_delay_secs(attempt: usize) -> (r: Option<u64>)
    ensures
        r == retry_delay_spec(attempt as int),
{
    let delays: [u64; 3] = [0, 1, 3];
    if attempt < 3 {
        Some(delays[attempt])
    } else {
        None
    }
}

} // verus!
