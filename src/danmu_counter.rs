//! Per-second, per-room counts of chat messages, drained into points.

use vstd::prelude::*;
use crate::messages::{located, Danmu};
use crate::point::{Point, PointView};
use crate::room_info::{room_info_for, RoomInfo, RoomInfoCache};

verus! {

#[verifier::external_type_specification]
#[verifier::external_body]
pub struct ExInstant(std::time::Instant);

/// Relies on `std::time::Instant::now`: the current monotonic instant.
#[verifier::external_body]
fn instant_now() -> std::time::Instant {
    std::time::Instant::now()
}

/// Relies on `std::time::Instant::saturating_duration_since`: the time from
/// `earlier` to `later`, zero when `later` is not after it.
#[verifier::external_body]
fn duration_between(earlier: &std::time::Instant, later: &std::time::Instant) -> std::time::Duration {
    later.saturating_duration_since(*earlier)
}

/// Relies on `std::time::Duration::as_millis`: the whole milliseconds of a
/// duration, as `u64`.
#[verifier::external_body]
fn whole_millis(d: std::time::Duration) -> u64 {
    d.as_millis() as u64
}

/// Least time between two flushes that hand out points.
pub const DANMU_INTERVAL_MS: u64 = 1000;

/// The count of one room in one second.
#[derive(PartialEq, Eq, Structural, Clone, Copy, Debug)]
pub struct DanmuBucket {
    /// Seconds since the epoch.
    pub second: i64,
    pub room_id: u64,
    pub count: u32,
}

pub struct DanmuCounter {
    pub last_flush: std::time::Instant,
    /// One bucket per (second, room), in the order they were first counted.
    pub buckets: Vec<DanmuBucket>,
}

/// The second that a millisecond timestamp falls in (rounded down).
pub open spec fn second_of(t_ms: i64) -> i64 {
    (t_ms as int / 1000) as i64
}

/// The timestamp of a second's point: its first millisecond, held within the
/// range of `i64`.
pub open spec fn second_start_ms(second: i64) -> i64 {
    if second * 1000 < i64::MIN {
        i64::MIN
    } else if second * 1000 > i64::MAX {
        i64::MAX
    } else {
        (second * 1000) as i64
    }
}

/// Index of the bucket of (`second`, `room_id`), if there is one.
pub open spec fn bucket_index(b: Seq<DanmuBucket>, second: i64, room_id: u64) -> Option<int>
    decreases b.len(),
{
    if b.len() == 0 {
        None
    } else if b.last().second == second && b.last().room_id == room_id {
        match bucket_index(b.drop_last(), second, room_id) {
            Some(i) => Some(i),
            None => Some(b.len() - 1),
        }
    } else {
        bucket_index(b.drop_last(), second, room_id)
    }
}

/// The buckets after one more message of `room_id` in `second`.
pub open spec fn counted(b: Seq<DanmuBucket>, second: i64, room_id: u64) -> Seq<DanmuBucket> {
    match bucket_index(b, second, room_id) {
        Some(i) => b.update(
            i,
            DanmuBucket {
                count: if b[i].count < u32::MAX {
                    (b[i].count + 1) as u32
                } else {
                    b[i].count
                },
                ..b[i]
            },
        ),
        None => b.push(DanmuBucket { second, room_id, count: 1 }),
    }
}

/// The point of one bucket, tagged with the room's cached name.
pub open spec fn bucket_point(b: DanmuBucket, cache: Map<u64, String>) -> PointView {
    located(
        Danmu { value: b.count }.basic_point_spec(),
        b.room_id,
        room_info_for(cache, b.room_id),
        second_start_ms(b.second),
    )
}

/// No two buckets share a second and a room.
pub open spec fn distinct_buckets(b: Seq<DanmuBucket>) -> bool {
    forall|i: int, j: int|
        0 <= i < j < b.len() ==> !((#[trigger] b[i]).second == (#[trigger] b[j]).second && b[i].room_id
            == b[j].room_id)
}

proof fn lemma_bucket_index(b: Seq<DanmuBucket>, second: i64, room_id: u64)
    ensures
        match bucket_index(b, second, room_id) {
            Some(i) => 0 <= i < b.len() && b[i].second == second && b[i].room_id == room_id
                && forall|k: int| 0 <= k < i ==> !(#[trigger] b[k].second == second && b[k].room_id
                    == room_id),
            None => forall|k: int|
                0 <= k < b.len() ==> !(#[trigger] b[k].second == second && b[k].room_id == room_id),
        },
    decreases b.len(),
{
    if b.len() > 0 {
        lemma_bucket_index(b.drop_last(), second, room_id);
        assert forall|k: int| 0 <= k < b.len() - 1 implies #[trigger] b[k] == b.drop_last()[k] by {}
    }
}

fn floor_second(t_ms: i64) -> (r: i64)
    ensures
        r == second_of(t_ms),
{
    if t_ms >= 0 {
        t_ms / 1000
    } else {
        let u: u64 = (-(t_ms + 1)) as u64;
        let q: i64 = (u / 1000) as i64;
        assert(-(q as int) - 1 == (t_ms as int) / 1000) by (nonlinear_arith)
            requires
                u == -(t_ms + 1),
                q == u / 1000,
                t_ms < 0,
        ;
        -q - 1
    }
}

impl DanmuCounter {
    pub fn new() -> (r: DanmuCounter)
        ensures
            r.buckets@.len() == 0,
    {
        DanmuCounter { last_flush: instant_now(), buckets: Vec::new() }
    }

    /// Counts one chat message of `room_id` received at `t_ms`.
    pub fn count(&mut self, room_id: u64, t_ms: i64)
        ensures
            final(self).buckets@ == counted(old(self).buckets@, second_of(t_ms), room_id),
            final(self).last_flush == old(self).last_flush,
    {
        let second = floor_second(t_ms);
        proof {
            lemma_bucket_index(self.buckets@, second, room_id);
        }
        let mut i: usize = 0;
        while i < self.buckets.len()
            invariant
                i <= self.buckets@.len(),
                self.buckets@ == old(self).buckets@,
                self.last_flush == old(self).last_flush,
                second == second_of(t_ms),
                forall|k: int|
                    0 <= k < i ==> !(#[trigger] self.buckets@[k].second == second
                        && self.buckets@[k].room_id == room_id),
            decreases self.buckets@.len() - i,
        {
            let b = self.buckets[i];
            if b.second == second && b.room_id == room_id {
                let c = if b.count < u32::MAX { b.count + 1 } else { b.count };
                self.buckets.set(i, DanmuBucket { count: c, ..b });
                proof {
                    lemma_bucket_index(old(self).buckets@, second, room_id);
                    match bucket_index(old(self).buckets@, second, room_id) {
                        Some(j) => {
                            if j < i {
                                assert(!(self.buckets@[j].second == second && self.buckets@[j].room_id == room_id));
                            }
                            if j > i {
                                assert(!(old(self).buckets@[i as int].second == second && old(self).buckets@[i as int].room_id == room_id));
                            }
                            assert(j == i);
                        },
                        None => {
                            assert(!(old(self).buckets@[i as int].second == second && old(self).buckets@[i as int].room_id == room_id));
                        },
                    }
                }
                return;
            }
            i = i + 1;
        }
        self.buckets.push(DanmuBucket { second, room_id, count: 1 });
    }

    /// Hands out one point per bucket, in bucket order, and empties the counter.
    pub fn take_points(&mut self, cache: &RoomInfoCache) -> (r: Vec<Point>)
        ensures
            final(self).buckets@.len() == 0,
            final(self).last_flush == old(self).last_flush,
            r@.len() == old(self).buckets@.len(),
            forall|i: int|
                0 <= i < r@.len() ==> (#[trigger] r@[i])@ == bucket_point(
                    old(self).buckets@[i],
                    cache.view(),
                ),
    {
        let mut taken: Vec<DanmuBucket> = Vec::new();
        std::mem::swap(&mut taken, &mut self.buckets);
        let mut points: Vec<Point> = Vec::new();
        let mut i: usize = 0;
        while i < taken.len()
            invariant
                i <= taken@.len(),
                taken@ == old(self).buckets@,
                points@.len() == i,
                forall|k: int|
                    0 <= k < i ==> (#[trigger] points@[k])@ == bucket_point(taken@[k], cache.view()),
            decreases taken@.len() - i,
        {
            let b = taken[i];
            let info = RoomInfo::from_cache(cache, b.room_id);
            let t: i64 = if b.second < -9_223_372_036_854_775 {
                i64::MIN
            } else if b.second > 9_223_372_036_854_775 {
                i64::MAX
            } else {
                b.second * 1000
            };
            points.push(Danmu::new(b.count).into_point(&info, t));
            i = i + 1;
        }
        points
    }

    /// The flush decision, given the milliseconds `elapsed_ms` since the last
    /// flush that handed out points and the instant `now`: within a second
    /// nothing is handed out and nothing changes; after at least a second every
    /// bucket becomes a point, in bucket order, the counter is emptied and `now`
    /// becomes the last flush.
    pub fn flush_after(&mut self, elapsed_ms: u64, now: std::time::Instant, cache: &RoomInfoCache) -> (r: Vec<Point>)
        ensures
            elapsed_ms < DANMU_INTERVAL_MS ==> {
                &&& r@.len() == 0
                &&& final(self).buckets@ == old(self).buckets@
                &&& final(self).last_flush == old(self).last_flush
            },
            elapsed_ms >= DANMU_INTERVAL_MS ==> {
                &&& final(self).buckets@.len() == 0
                &&& final(self).last_flush == now
                &&& r@.len() == old(self).buckets@.len()
                &&& forall|i: int|
                    0 <= i < r@.len() ==> (#[trigger] r@[i])@ == bucket_point(
                        old(self).buckets@[i],
                        cache.view(),
                    )
            },
    {
        if elapsed_ms < DANMU_INTERVAL_MS {
            return Vec::new();
        }
        self.last_flush = now;
        self.take_points(cache)
    }

    /// Reads the clock and flushes as `flush_after` decides: the points are handed
    /// out exactly when at least a second has passed since the last flush that
    /// handed out points.
    pub fn flush(&mut self, cache: &RoomInfoCache) -> (r: Vec<Point>)
        ensures
            ({
                ||| r@.len() == 0 && final(self).buckets@ == old(self).buckets@
                    && final(self).last_flush == old(self).last_flush
                ||| {
                    &&& final(self).buckets@.len() == 0
                    &&& r@.len() == old(self).buckets@.len()
                    &&& forall|i: int|
                        0 <= i < r@.len() ==> (#[trigger] r@[i])@ == bucket_point(
                            old(self).buckets@[i],
                            cache.view(),
                        )
                }
            }),
    {
        let now = instant_now();
        let elapsed = whole_millis(duration_between(&self.last_flush, &now));
        self.flush_after(elapsed, now, cache)
    }
}

/// Counting keeps one bucket per second and room.
pub proof fn lemma_count_keeps_distinct(b: Seq<DanmuBucket>, second: i64, room_id: u64)
    requires
        distinct_buckets(b),
    ensures
        distinct_buckets(counted(b, second, room_id)),
{
    lemma_bucket_index(b, second, room_id);
}

} // verus!
