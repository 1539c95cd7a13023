//! Messages carried in `SendMsgReply` packets, decoded from their JSON data,
//! and the points that each one becomes.

use vstd::prelude::*;
use crate::json::{id_of, string_at, string_of, u32_at, u32_of, u64_at, u64_from_value, u64_of, Json};
use crate::point::{FieldValue, Point, PointView};
use crate::room_info::RoomInfo;
use crate::text::{dec_text, u64_text, text_eq};

verus! {

/// The coin type of paid gifts.
pub open spec fn gold() -> Seq<char> {
    "gold"@
}

/// The coin type of free gifts.
pub open spec fn silver() -> Seq<char> {
    "silver"@
}

/// A paid highlighted chat message; `price` is in CNY.
pub struct SuperChat {
    pub price: u32,
    pub sender_id: u64,
    pub sender_name: String,
}

/// A gift sent to the room's streamer, or to `gift_receiver` when present.
pub struct SendGift {
    pub coin_type: String,
    pub gift_name: String,
    /// Price of one gift in thousandths of a CNY.
    pub price_milli: u32,
    pub num: u32,
    pub sender_id: u64,
    pub sender_name: String,
    pub gift_receiver: Option<GiftReceiver>,
}

/// The streamer that a gift was sent to from another room.
pub struct GiftReceiver {
    pub room_id: u64,
    pub uid: u64,
    pub uname: String,
}

/// A guardship purchase; `price_milli` is already the total for all `num` months.
pub struct UserToastMsg {
    pub sender_id: u64,
    pub sender_name: String,
    pub price_milli: u32,
    pub gift_name: String,
    pub num: u32,
}

/// The number of chat messages of one room in one second.
pub struct Danmu {
    pub value: u32,
}

/// The popularity value of a heartbeat reply.
pub struct Popularity {
    pub value: i64,
}

pub open spec fn super_chat_of(data: Json) -> Option<SuperChat> {
    let price = u32_of(data.member("price"@));
    let uid = id_of(data.member("uid"@));
    let name = match data.member("user_info"@) {
        Some(info) => string_of(info.member("uname"@)),
        None => None,
    };
    if price is Some && uid is Some && name is Some {
        Some(SuperChat { price: price->0, sender_id: uid->0, sender_name: name->0 })
    } else {
        None
    }
}

pub open spec fn gift_receiver_of(data: Json) -> Option<GiftReceiver> {
    let room_id = u64_of(data.member("room_id"@));
    let uid = id_of(data.member("uid"@));
    let uname = string_of(data.member("uname"@));
    if room_id is Some && uid is Some && uname is Some {
        Some(GiftReceiver { room_id: room_id->0, uid: uid->0, uname: uname->0 })
    } else {
        None
    }
}

/// An optional receiver: absent or `null` is none; anything else must decode.
pub open spec fn optional_receiver_of(v: Option<Json>) -> Option<Option<GiftReceiver>> {
    match v {
        None => Some(None),
        Some(Json::Null) => Some(None),
        Some(j) => match gift_receiver_of(j) {
            Some(g) => Some(Some(g)),
            None => None,
        },
    }
}

pub open spec fn send_gift_of(data: Json) -> Option<SendGift> {
    let coin_type = string_of(data.member("coin_type"@));
    let gift_name = string_of(data.member("giftName"@));
    let price = u32_of(data.member("price"@));
    let num = u32_of(data.member("num"@));
    let uid = id_of(data.member("uid"@));
    let uname = string_of(data.member("uname"@));
    let receiver = optional_receiver_of(data.member("send_master"@));
    if coin_type is Some && gift_name is Some && price is Some && num is Some && uid is Some
        && uname is Some && receiver is Some {
        Some(
            SendGift {
                coin_type: coin_type->0,
                gift_name: gift_name->0,
                price_milli: price->0,
                num: num->0,
                sender_id: uid->0,
                sender_name: uname->0,
                gift_receiver: receiver->0,
            },
        )
    } else {
        None
    }
}

pub open spec fn user_toast_of(data: Json) -> Option<UserToastMsg> {
    let uid = id_of(data.member("uid"@));
    let name = string_of(data.member("username"@));
    let price = u32_of(data.member("price"@));
    let role = string_of(data.member("role_name"@));
    let num = u32_of(data.member("num"@));
    if uid is Some && name is Some && price is Some && role is Some && num is Some {
        Some(
            UserToastMsg {
                sender_id: uid->0,
                sender_name: name->0,
                price_milli: price->0,
                gift_name: role->0,
                num: num->0,
            },
        )
    } else {
        None
    }
}

/// Tags every point of a room carries, then its timestamp.
pub open spec fn located(p: PointView, room_id: u64, streamer: Seq<char>, t: i64) -> PointView {
    p.tag("room_id"@, dec_text(room_id as nat)).tag("streamer"@, streamer).timestamp(t)
}

fn locate(p: Point, room_id: u64, streamer: String, t: i64) -> (r: Point)
    ensures
        r@ == located(p@, room_id, streamer@, t),
{
    p.tag("room_id", u64_text(room_id)).tag("streamer", streamer).timestamp(t)
}

impl SuperChat {
    pub fn from_json(data: &Json) -> (r: Option<SuperChat>)
        ensures
            r == super_chat_of(*data),
    {
        let price = u32_at(data.get("price"));
        let uid = u64_from_value(data.get("uid"));
        let name = match data.get("user_info") {
            Some(info) => string_at(info.get("uname")),
            None => None,
        };
        match (price, uid, name) {
            (Some(price), Some(uid), Some(name)) => Some(
                SuperChat { price, sender_id: uid, sender_name: name },
            ),
            _ => None,
        }
    }

    pub open spec fn basic_point_spec(self) -> PointView {
        PointView::new("live-gift"@).tag("type"@, "superchat"@).tag("gift_name"@, "superchat"@).tag(
            "sender"@,
            dec_text(self.sender_id as nat),
        ).tag("sender_name"@, self.sender_name@).field(
            "price"@,
            FieldValue::Ratio { numer: self.price as u64, denom: 1 },
        )
    }

    pub fn into_basic_point(self) -> (r: Point)
        ensures
            r@ == self.basic_point_spec(),
    {
        Point::new("live-gift").tag("type", String::from_str("superchat")).tag(
            "gift_name",
            String::from_str("superchat"),
        ).tag("sender", u64_text(self.sender_id)).tag("sender_name", self.sender_name).field(
            "price",
            FieldValue::Ratio { numer: self.price as u64, denom: 1 },
        )
    }

    pub fn into_point(self, room_info: &RoomInfo, t: i64) -> (r: Point)
        ensures
            r@ == located(self.basic_point_spec(), room_info.id, room_info.streamer@, t),
    {
        locate(self.into_basic_point(), room_info.id, room_info.streamer.clone(), t)
    }
}

impl GiftReceiver {
    pub fn from_json(data: &Json) -> (r: Option<GiftReceiver>)
        ensures
            r == gift_receiver_of(*data),
    {
        let room_id = u64_at(data.get("room_id"));
        let uid = u64_from_value(data.get("uid"));
        let uname = string_at(data.get("uname"));
        match (room_id, uid, uname) {
            (Some(room_id), Some(uid), Some(uname)) => Some(GiftReceiver { room_id, uid, uname }),
            _ => None,
        }
    }
}

impl SendGift {
    pub fn from_json(data: &Json) -> (r: Option<SendGift>)
        ensures
            r == send_gift_of(*data),
    {
        let coin_type = string_at(data.get("coin_type"));
        let gift_name = string_at(data.get("giftName"));
        let price = u32_at(data.get("price"));
        let num = u32_at(data.get("num"));
        let uid = u64_from_value(data.get("uid"));
        let uname = string_at(data.get("uname"));
        let receiver: Option<Option<GiftReceiver>> = match data.get("send_master") {
            None => Some(None),
            Some(Json::Null) => Some(None),
            Some(j) => match GiftReceiver::from_json(j) {
                Some(g) => Some(Some(g)),
                None => None,
            },
        };
        match (coin_type, gift_name, price, num, uid, uname, receiver) {
            (
                Some(coin_type),
                Some(gift_name),
                Some(price_milli),
                Some(num),
                Some(sender_id),
                Some(sender_name),
                Some(gift_receiver),
            ) => Some(
                SendGift {
                    coin_type,
                    gift_name,
                    price_milli,
                    num,
                    sender_id,
                    sender_name,
                    gift_receiver,
                },
            ),
            _ => None,
        }
    }

    pub open spec fn is_free_spec(&self) -> bool {
        self.coin_type@ == silver()
    }

    /// Total price in thousandths of a CNY: `price_milli * num` for gold gifts, 0
    /// otherwise.
    pub open spec fn price_milli_total_spec(&self) -> nat {
        if self.coin_type@ == gold() {
            (self.price_milli * self.num) as nat
        } else {
            0
        }
    }

    /// Free gifts are paid in silver coins.
    pub fn is_free(&self) -> (r: bool)
        ensures
            r == self.is_free_spec(),
    {
        text_eq(self.coin_type.as_str(), "silver")
    }

    /// The gift's total price in thousandths of a CNY; the price in CNY is this
    /// divided by 1000.
    pub fn price_milli_total(&self) -> (r: u64)
        ensures
            r == self.price_milli_total_spec(),
    {
        if text_eq(self.coin_type.as_str(), "gold") {
            assert(self.price_milli * self.num <= u64::MAX) by (nonlinear_arith)
                requires
                    self.price_milli <= u32::MAX,
                    self.num <= u32::MAX,
            ;
            self.price_milli as u64 * self.num as u64
        } else {
            0
        }
    }

    pub open spec fn basic_point_spec(self) -> PointView {
        if !self.is_free_spec() {
            PointView::new("live-gift"@).tag("type"@, "gift"@).tag("gift_name"@, self.gift_name@).tag(
                "sender"@,
                dec_text(self.sender_id as nat),
            ).tag("sender_name"@, self.sender_name@).field(
                "num"@,
                FieldValue::Integer(self.num as i64),
            ).field(
                "price"@,
                FieldValue::Ratio { numer: self.price_milli_total_spec() as u64, denom: 1000 },
            )
        } else {
            PointView::new("live-gift"@).tag("type"@, "free"@).tag("gift_name"@, self.gift_name@).field(
                "num"@,
                FieldValue::Integer(self.num as i64),
            ).field("coin"@, FieldValue::Ratio { numer: self.price_milli as u64, denom: 1 })
        }
    }

    pub fn into_basic_point(self) -> (r: Point)
        ensures
            r@ == self.basic_point_spec(),
    {
        if !self.is_free() {
            let price = self.price_milli_total();
            Point::new("live-gift").tag("type", String::from_str("gift")).tag(
                "gift_name",
                self.gift_name,
            ).tag("sender", u64_text(self.sender_id)).tag("sender_name", self.sender_name).field(
                "num",
                FieldValue::Integer(self.num as i64),
            ).field("price", FieldValue::Ratio { numer: price, denom: 1000 })
        } else {
            Point::new("live-gift").tag("type", String::from_str("free")).tag(
                "gift_name",
                self.gift_name,
            ).field("num", FieldValue::Integer(self.num as i64)).field(
                "coin",
                FieldValue::Ratio { numer: self.price_milli as u64, denom: 1 },
            )
        }
    }

    /// The room a gift point is filed under: the receiver's when the gift went to
    /// another streamer, else the room it was seen in.
    pub open spec fn point_spec(self, room_info: RoomInfo, t: i64) -> PointView {
        match self.gift_receiver {
            Some(g) => located(self.basic_point_spec(), g.room_id, g.uname@, t),
            None => located(self.basic_point_spec(), room_info.id, room_info.streamer@, t),
        }
    }

    pub fn into_point(self, room_info: &RoomInfo, t: i64) -> (r: Point)
        ensures
            r@ == self.point_spec(*room_info, t),
    {
        let receiver = match &self.gift_receiver {
            Some(g) => Some((g.room_id, g.uname.clone())),
            None => None,
        };
        let pt = self.into_basic_point();
        match receiver {
            Some((room_id, uname)) => locate(pt, room_id, uname, t),
            None => locate(pt, room_info.id, room_info.streamer.clone(), t),
        }
    }
}

impl UserToastMsg {
    pub fn from_json(data: &Json) -> (r: Option<UserToastMsg>)
        ensures
            r == user_toast_of(*data),
    {
        let uid = u64_from_value(data.get("uid"));
        let name = string_at(data.get("username"));
        let price = u32_at(data.get("price"));
        let role = string_at(data.get("role_name"));
        let num = u32_at(data.get("num"));
        match (uid, name, price, role, num) {
            (Some(sender_id), Some(sender_name), Some(price_milli), Some(gift_name), Some(num)) => Some(
                UserToastMsg { sender_id, sender_name, price_milli, gift_name, num },
            ),
            _ => None,
        }
    }

    pub open spec fn basic_point_spec(self) -> PointView {
        PointView::new("live-gift"@).tag("type"@, "guard"@).tag("gift_name"@, self.gift_name@).tag(
            "sender"@,
            dec_text(self.sender_id as nat),
        ).tag("sender_name"@, self.sender_name@).field(
            "num"@,
            FieldValue::Integer(self.num as i64),
        ).field("price"@, FieldValue::Ratio { numer: self.price_milli as u64, denom: 1000 })
    }

    pub fn into_basic_point(self) -> (r: Point)
        ensures
            r@ == self.basic_point_spec(),
    {
        Point::new("live-gift").tag("type", String::from_str("guard")).tag(
            "gift_name",
            self.gift_name,
        ).tag("sender", u64_text(self.sender_id)).tag("sender_name", self.sender_name).field(
            "num",
            FieldValue::Integer(self.num as i64),
        ).field("price", FieldValue::Ratio { numer: self.price_milli as u64, denom: 1000 })
    }

    pub fn into_point(self, room_info: &RoomInfo, t: i64) -> (r: Point)
        ensures
            r@ == located(self.basic_point_spec(), room_info.id, room_info.streamer@, t),
    {
        locate(self.into_basic_point(), room_info.id, room_info.streamer.clone(), t)
    }
}

impl Danmu {
    pub fn new(count: u32) -> (r: Danmu)
        ensures
            r.value == count,
    {
        Danmu { value: count }
    }

    pub open spec fn basic_point_spec(self) -> PointView {
        PointView::new("live-popularity"@).field("danmu"@, FieldValue::Integer(self.value as i64))
    }

    pub fn into_basic_point(self) -> (r: Point)
        ensures
            r@ == self.basic_point_spec(),
    {
        Point::new("live-popularity").field("danmu", FieldValue::Integer(self.value as i64))
    }

    pub fn into_point(self, room_info: &RoomInfo, t: i64) -> (r: Point)
        ensures
            r@ == located(self.basic_point_spec(), room_info.id, room_info.streamer@, t),
    {
        locate(self.into_basic_point(), room_info.id, room_info.streamer.clone(), t)
    }
}

impl Popularity {
    pub fn new(value: i64) -> (r: Popularity)
        ensures
            r.value == value,
    {
        Popularity { value }
    }

    pub open spec fn basic_point_spec(self) -> PointView {
        PointView::new("live-popularity"@).field("popularity"@, FieldValue::Integer(self.value))
    }

    pub fn into_basic_point(self) -> (r: Point)
        ensures
            r@ == self.basic_point_spec(),
    {
        Point::new("live-popularity").field("popularity", FieldValue::Integer(self.value))
    }

    pub fn into_point(self, room_info: &RoomInfo, t: i64) -> (r: Point)
        ensures
            r@ == located(self.basic_point_spec(), room_info.id, room_info.streamer@, t),
    {
        locate(self.into_basic_point(), room_info.id, room_info.streamer.clone(), t)
    }
}

} // verus!
