use ddpanel::danmu_counter::DanmuCounter;
use ddpanel::influx::{
    on_send_msg_body, process_packet, retry_delay_secs, CachedInfluxClient, PacketError,
    PacketOutcome, MAX_ATTEMPTS,
};
use ddpanel::json::Json;
use ddpanel::messages::{Danmu, Popularity, SendGift, SuperChat, UserToastMsg};
use ddpanel::packet::{Operation, Packet, SendMsgReply};
use ddpanel::point::{FieldValue, Point};
use ddpanel::room_info::{RoomInfo, RoomInfoCache};
use ddpanel::spider::{SpiderData, SpiderInfo};

fn doc(json: &str) -> Json {
    SendMsgReply::from_body(&format!(r#"{{"cmd":"t","data":{}}}"#, json)).unwrap().data
}

fn as_f64(v: &FieldValue) -> f64 {
    match v {
        FieldValue::Integer(i) => *i as f64,
        FieldValue::Ratio { numer, denom } => *numer as f64 / *denom as f64,
    }
}

fn tag<'a>(p: &'a Point, key: &str) -> Option<&'a str> {
    p.tags.iter().find(|(k, _)| k == key).map(|(_, v)| v.as_str())
}

fn field<'a>(p: &'a Point, key: &str) -> Option<&'a FieldValue> {
    p.fields.iter().find(|(k, _)| k == key).map(|(_, v)| v)
}

fn cache_with(room: u64, name: &str) -> RoomInfoCache {
    let mut cache = RoomInfoCache::new();
    RoomInfo::write_cache(&mut cache, room, name.to_string());
    cache
}

fn msg_packet(room: u64, body: &str) -> Packet {
    Packet { operation: Operation::SendMsgReply, body: body.to_string(), time_ms: 1625112000123, room_id: room }
}

const GIFT: &str = r#"{"cmd":"SEND_GIFT","data":{"coin_type":"gold","giftName":"牌牌","price":1000,"num":3,"uid":42,"uname":"A"}}"#;

#[test]
fn gold_gift_becomes_a_gift_point() {
    let cache = cache_with(5, "streamer5");
    let r = process_packet(&msg_packet(5, GIFT), &cache).unwrap();
    let p = match r {
        PacketOutcome::Point(p) => p,
        _ => panic!("expected a point"),
    };
    assert_eq!(p.measurement, "live-gift");
    assert_eq!(tag(&p, "type"), Some("gift"));
    assert_eq!(tag(&p, "gift_name"), Some("牌牌"));
    assert_eq!(tag(&p, "sender"), Some("42"));
    assert_eq!(tag(&p, "sender_name"), Some("A"));
    assert_eq!(tag(&p, "room_id"), Some("5"));
    assert_eq!(tag(&p, "streamer"), Some("streamer5"));
    assert_eq!(field(&p, "num"), Some(&FieldValue::Integer(3)));
    assert_eq!(as_f64(field(&p, "price").unwrap()), 3.0);
    assert_eq!(p.timestamp_ms, Some(1625112000123));
}

#[test]
fn silver_gift_is_skipped() {
    let body = GIFT.replace("gold", "silver");
    let r = process_packet(&msg_packet(5, &body), &cache_with(5, "s")).unwrap();
    assert!(matches!(r, PacketOutcome::Ignored));
}

#[test]
fn japanese_super_chat_is_dropped() {
    let body = r#"{"cmd":"SUPER_CHAT_MESSAGE_JPN","data":{"price":30,"uid":1,"user_info":{"uname":"u"}}}"#;
    let r = process_packet(&msg_packet(5, body), &cache_with(5, "s")).unwrap();
    assert!(matches!(r, PacketOutcome::Ignored));
}

#[test]
fn super_chat_becomes_a_point() {
    let body = r#"{"cmd":"SUPER_CHAT_MESSAGE","data":{"price":30,"uid":"12","user_info":{"uname":"u"}}}"#;
    let r = process_packet(&msg_packet(5, body), &cache_with(5, "s")).unwrap();
    let p = match r {
        PacketOutcome::Point(p) => p,
        _ => panic!("expected a point"),
    };
    assert_eq!(tag(&p, "type"), Some("superchat"));
    assert_eq!(tag(&p, "gift_name"), Some("superchat"));
    assert_eq!(tag(&p, "sender"), Some("12"));
    assert_eq!(tag(&p, "sender_name"), Some("u"));
    assert_eq!(as_f64(field(&p, "price").unwrap()), 30.0);
}

#[test]
fn guard_price_is_not_multiplied() {
    let body = r#"{"cmd":"USER_TOAST_MSG","data":{"uid":7,"username":"g","price":198000,"role_name":"舰长","num":3}}"#;
    let r = process_packet(&msg_packet(5, body), &cache_with(5, "s")).unwrap();
    let p = match r {
        PacketOutcome::Point(p) => p,
        _ => panic!("expected a point"),
    };
    assert_eq!(tag(&p, "type"), Some("guard"));
    assert_eq!(tag(&p, "gift_name"), Some("舰长"));
    assert_eq!(field(&p, "num"), Some(&FieldValue::Integer(3)));
    assert_eq!(as_f64(field(&p, "price").unwrap()), 198.0);
}

#[test]
fn gift_to_another_streamer_is_filed_under_the_receiver() {
    let body = r#"{"cmd":"SEND_GIFT","data":{"coin_type":"gold","giftName":"g","price":100,"num":1,"uid":1,"uname":"A","send_master":{"room_id":99,"uid":3,"uname":"other"}}}"#;
    let r = process_packet(&msg_packet(5, body), &cache_with(5, "s")).unwrap();
    let p = match r {
        PacketOutcome::Point(p) => p,
        _ => panic!("expected a point"),
    };
    assert_eq!(tag(&p, "room_id"), Some("99"));
    assert_eq!(tag(&p, "streamer"), Some("other"));
}

#[test]
fn unknown_room_is_tagged_with_its_id() {
    let r = process_packet(&msg_packet(4242, GIFT), &RoomInfoCache::new()).unwrap();
    let p = match r {
        PacketOutcome::Point(p) => p,
        _ => panic!("expected a point"),
    };
    assert_eq!(tag(&p, "room_id"), Some("4242"));
    assert_eq!(tag(&p, "streamer"), Some("4242"));
    let info = RoomInfo::from_cache(&RoomInfoCache::new(), 17);
    assert_eq!(info.streamer, "17");
    assert!(RoomInfo::from_cache_opt(&RoomInfoCache::new(), 17).is_none());
    assert_eq!(RoomInfo::from_cache_opt(&cache_with(17, "x"), 17).unwrap().streamer, "x");
}

#[test]
fn heartbeat_becomes_popularity() {
    let hb = Packet { operation: Operation::HeartbeatReply, body: "1234".to_string(), time_ms: 10, room_id: 5 };
    let p = match process_packet(&hb, &cache_with(5, "s")).unwrap() {
        PacketOutcome::Point(p) => p,
        _ => panic!("expected a point"),
    };
    assert_eq!(p.measurement, "live-popularity");
    assert_eq!(field(&p, "popularity"), Some(&FieldValue::Integer(1234)));
    let bad = Packet { operation: Operation::HeartbeatReply, body: "x".to_string(), time_ms: 10, room_id: 5 };
    assert!(matches!(process_packet(&bad, &cache_with(5, "s")), Err(PacketError::Popularity)));
}

#[test]
fn packet_errors_and_other_outcomes() {
    let cache = cache_with(5, "s");
    assert!(matches!(process_packet(&msg_packet(5, "not json"), &cache), Err(PacketError::Body)));
    assert!(matches!(process_packet(&msg_packet(5, r#"{"data":1}"#), &cache), Err(PacketError::Body)));
    let bad_gift = r#"{"cmd":"SEND_GIFT","data":{"coin_type":"gold"}}"#;
    assert!(matches!(process_packet(&msg_packet(5, bad_gift), &cache), Err(PacketError::Message)));
    let danmu = r#"{"cmd":"DANMU_MSG","info":[]}"#;
    assert!(matches!(
        process_packet(&msg_packet(5, danmu), &cache),
        Ok(PacketOutcome::Danmu { room_id: 5, time_ms: 1625112000123 })
    ));
    assert!(matches!(process_packet(&msg_packet(5, r#"{"cmd":"ROOM_RANK"}"#), &cache), Ok(PacketOutcome::Ignored)));
    let other = Packet { operation: Operation::Other(8), body: String::new(), time_ms: 0, room_id: 5 };
    assert!(matches!(process_packet(&other, &cache), Ok(PacketOutcome::Ignored)));
    let info = RoomInfo::from_cache(&cache, 5);
    assert!(matches!(on_send_msg_body(None, &info, 0), Err(PacketError::Body)));
}

#[test]
fn gift_price_follows_coin_type() {
    let data = doc(r#"{"coin_type":"gold","giftName":"g","price":1000,"num":3,"uid":1,"uname":"A"}"#);
    let gold = SendGift::from_json(&data).unwrap();
    assert_eq!(gold.price_milli_total(), 3000);
    assert_eq!(gold.price_milli_total() as f64 / 1000.0, 1000.0 * 3.0 / 1000.0);
    assert!(!gold.is_free());
    let data = doc(r#"{"coin_type":"silver","giftName":"g","price":1000,"num":3,"uid":1,"uname":"A"}"#);
    let silver = SendGift::from_json(&data).unwrap();
    assert_eq!(silver.price_milli_total(), 0);
    assert!(silver.is_free());
    let p = silver.into_basic_point();
    assert_eq!(tag(&p, "type"), Some("free"));
    assert_eq!(as_f64(field(&p, "coin").unwrap()), 1000.0);
    let huge = doc(r#"{"coin_type":"gold","giftName":"g","price":4294967295,"num":4294967295,"uid":1,"uname":"A"}"#);
    assert_eq!(SendGift::from_json(&huge).unwrap().price_milli_total(), 4294967295u64 * 4294967295u64);
    let too_big = doc(r#"{"coin_type":"gold","giftName":"g","price":4294967296,"num":1,"uid":1,"uname":"A"}"#);
    assert!(SendGift::from_json(&too_big).is_none());
}

#[test]
fn message_decoders_need_their_fields() {
    assert!(SuperChat::from_json(&doc(r#"{"price":1,"uid":1}"#)).is_none());
    let guard = UserToastMsg::from_json(&doc(r#"{"uid":"1","username":"a","price":1,"role_name":"r","num":1}"#)).unwrap();
    assert_eq!(guard.sender_id, 1);
    assert!(UserToastMsg::from_json(&doc(r#"{"uid":"x","username":"a","price":1,"role_name":"r","num":1}"#)).is_none());
    let gift = SendGift::from_json(&doc(r#"{"coin_type":"gold","giftName":"g","price":1,"num":1,"uid":1,"uname":"A","send_master":{"room_id":9,"uid":"12","uname":"o"}}"#)).unwrap();
    assert_eq!(gift.gift_receiver.unwrap().uid, 12);
    assert!(SuperChat::from_json(&doc(r#"{"price":1,"uid":-5,"user_info":{"uname":"z"}}"#)).is_none());
    let sc = SuperChat::from_json(&doc(r#"{"price":1,"uid":18446744073709551615,"user_info":{"uname":"z"}}"#)).unwrap();
    assert_eq!(sc.sender_id, u64::MAX);
}

#[test]
fn danmu_and_popularity_points() {
    let info = RoomInfo { id: 3, streamer: "s".to_string() };
    let p = Danmu::new(4).into_point(&info, 1000);
    assert_eq!(p.measurement, "live-popularity");
    assert_eq!(field(&p, "danmu"), Some(&FieldValue::Integer(4)));
    assert_eq!(tag(&p, "room_id"), Some("3"));
    assert_eq!(p.timestamp_ms, Some(1000));
    let p = Popularity::new(-1).into_basic_point();
    assert_eq!(field(&p, "popularity"), Some(&FieldValue::Integer(-1)));
}

#[test]
fn danmu_counter_buckets_by_second() {
    let cache = cache_with(7, "seven");
    let mut c = DanmuCounter::new();
    c.count(7, 1_000_100);
    c.count(7, 1_000_700);
    c.count(7, 1_001_200);
    let pts = c.take_points(&cache);
    assert_eq!(pts.len(), 2);
    assert_eq!(pts[0].timestamp_ms, Some(1_000_000));
    assert_eq!(field(&pts[0], "danmu"), Some(&FieldValue::Integer(2)));
    assert_eq!(pts[1].timestamp_ms, Some(1_001_000));
    assert_eq!(field(&pts[1], "danmu"), Some(&FieldValue::Integer(1)));
    assert_eq!(tag(&pts[0], "streamer"), Some("seven"));
    assert!(c.buckets.is_empty());
    assert!(c.flush(&cache).is_empty());
}

#[test]
fn danmu_counter_rounds_negative_times_down() {
    let mut c = DanmuCounter::new();
    c.count(1, -1);
    c.count(2, 5);
    let pts = c.take_points(&RoomInfoCache::new());
    assert_eq!(pts[0].timestamp_ms, Some(-1000));
    assert_eq!(pts[1].timestamp_ms, Some(0));
}

#[test]
fn danmu_flush_after_a_second_hands_out_buckets() {
    let cache = cache_with(7, "s");
    let mut c = DanmuCounter::new();
    c.count(7, 1_000_100);
    c.count(7, 1_000_700);
    c.count(7, 1_001_200);
    let now = std::time::Instant::now();
    assert!(c.flush_after(999, now, &cache).is_empty());
    assert_eq!(c.buckets.len(), 2);
    let pts = c.flush_after(1000, now, &cache);
    assert_eq!(pts.len(), 2);
    assert_eq!(field(&pts[0], "danmu"), Some(&FieldValue::Integer(2)));
    assert_eq!(pts[0].timestamp_ms, Some(1_000_000));
    assert_eq!(field(&pts[1], "danmu"), Some(&FieldValue::Integer(1)));
    assert_eq!(pts[1].timestamp_ms, Some(1_001_000));
    assert_eq!(tag(&pts[1], "room_id"), Some("7"));
    assert_eq!(tag(&pts[1], "streamer"), Some("s"));
    assert!(c.buckets.is_empty());
    assert_eq!(c.last_flush, now);
}

#[test]
fn danmu_counter_flushes_at_most_once_a_second() {
    let cache = RoomInfoCache::new();
    let mut c = DanmuCounter::new();
    c.count(1, 5);
    assert!(c.flush(&cache).is_empty());
    assert_eq!(c.buckets.len(), 1);
}

#[test]
fn buffer_hands_out_full_batches() {
    let mut c = CachedInfluxClient::new().buffer_size(2);
    assert!(c.async_write);
    assert!(c.insert_point(Point::new("a")).is_none());
    let batch = c.insert_point(Point::new("b")).unwrap();
    assert_eq!(batch.len(), 2);
    assert_eq!(batch[0].measurement, "a");
    assert!(c.buffered_points.is_empty());
    assert!(c.insert_point(Point::new("c")).is_none());
    let rest = c.flush();
    assert_eq!(rest.len(), 1);
    assert!(c.buffered_points.is_empty());
    assert!(c.flush().is_empty());
    assert_eq!(c.insert_count, 3);
    c.record_failure(5);
    assert_eq!(c.fail_count, 5);
    let c = c.async_write(false);
    assert!(!c.async_write);
    assert_eq!(CachedInfluxClient::new().buffer_size, 32);
}

#[test]
fn buffer_of_size_zero_writes_each_point() {
    let mut c = CachedInfluxClient::new().buffer_size(0);
    assert_eq!(c.insert_point(Point::new("a")).unwrap().len(), 1);
}

#[test]
fn retry_schedule() {
    assert_eq!(MAX_ATTEMPTS, 4);
    assert_eq!(retry_delay_secs(0), Some(0));
    assert_eq!(retry_delay_secs(1), Some(1));
    assert_eq!(retry_delay_secs(2), Some(3));
    assert_eq!(retry_delay_secs(3), None);
}

#[test]
fn uploader_snapshots_become_points() {
    let s = SpiderInfo {
        username: "up".to_string(),
        uid: 1,
        time_ms: 99,
        data: SpiderData::UploaderStat { video_views: 10, article_views: 20, likes: 30 },
    };
    let p = s.into_point();
    assert_eq!(p.measurement, "bili-info");
    assert_eq!(tag(&p, "uploader"), Some("up"));
    assert_eq!(as_f64(field(&p, "likes").unwrap()), 30.0);
    assert_eq!(p.timestamp_ms, Some(99));
    let s = SpiderInfo { username: "up".to_string(), uid: 1, time_ms: 99, data: SpiderData::UserInfo { followers: 5 } };
    assert_eq!(as_f64(field(&s.into_point(), "followers").unwrap()), 5.0);
}
