//! Real popularity: distinct users seen in a room over a sliding five-minute
//! window, computed offline from an archive.

use vstd::prelude::*;
use std::collections::HashMap;
use std::collections::VecDeque;
use crate::danmu::{danmu_of, raw_line_of_text, DanmuMsg, LineError, RawLine};
use crate::json::{json_of_text, parse_json, Json};
use crate::text::{contains, contains_text, parse_u64, parse_u64_spec, text_eq};

verus! {

broadcast use vstd::std_specs::hash::group_hash_axioms;

/// Length of the window, in milliseconds.
pub const WINDOW_MS: i64 = 300_000;

/// Least time between two output points by default, in milliseconds.
pub const DEFAULT_MIN_INTERVAL_MS: i64 = 5_000;

#[derive(PartialEq, Eq, Structural, Clone, Copy, Debug)]
pub struct PopularityPoint {
    pub time_ms: i64,
    pub popularity: u64,
}

pub struct PopularityEstimator {
    /// Events in the window, oldest first: (user id, time in ms).
    window: VecDeque<(u64, i64)>,
    /// How many events of each user the window holds.
    user_count: HashMap<u64, u64>,
    points: Vec<PopularityPoint>,
    min_interval_ms: i64,
}

/// How many events of `user` the sequence holds.
pub open spec fn occurrences(w: Seq<(u64, i64)>, user: u64) -> nat
    decreases w.len(),
{
    if w.len() == 0 {
        0
    } else {
        occurrences(w.drop_last(), user) + if w.last().0 == user {
            1nat
        } else {
            0nat
        }
    }
}

/// The users that the sequence holds events of.
pub open spec fn users_of(w: Seq<(u64, i64)>) -> Set<u64> {
    Set::new(|u: u64| occurrences(w, u) > 0)
}

/// Drops events from the front while they are older than `cutoff`.
pub open spec fn expire(w: Seq<(u64, i64)>, cutoff: int) -> Seq<(u64, i64)>
    decreases w.len(),
{
    if w.len() > 0 && w[0].1 < cutoff {
        expire(w.drop_first(), cutoff)
    } else {
        w
    }
}

/// Whether a point at `t` follows the last point by at least `interval`.
pub open spec fn due(points: Seq<PopularityPoint>, t: i64, interval: i64) -> bool {
    points.len() == 0 || points.last().time_ms + interval <= t
}

proof fn lemma_occurrences_front(w: Seq<(u64, i64)>, user: u64)
    requires
        w.len() > 0,
    ensures
        occurrences(w, user) == occurrences(w.drop_first(), user) + if w[0].0 == user {
            1nat
        } else {
            0nat
        },
    decreases w.len(),
{
    if w.len() > 1 {
        lemma_occurrences_front(w.drop_last(), user);
        assert(w.drop_last().drop_first() =~= w.drop_first().drop_last());
        assert(w.drop_last()[0] == w[0]);
        assert(w.drop_first().last() == w.last());
        assert(occurrences(w.drop_first(), user) == occurrences(w.drop_first().drop_last(), user)
            + if w.last().0 == user {
            1nat
        } else {
            0nat
        });
        assert(occurrences(w, user) == occurrences(w.drop_last(), user) + if w.last().0 == user {
            1nat
        } else {
            0nat
        });
    } else {
        assert(w.drop_first().len() == 0);
        assert(w.drop_last().len() == 0);
        assert(occurrences(w.drop_first(), user) == 0);
        assert(occurrences(w.drop_last(), user) == 0);
        assert(w.last() == w[0]);
    }
}

proof fn lemma_occurrences_bound(w: Seq<(u64, i64)>, user: u64)
    ensures
        occurrences(w, user) <= w.len(),
    decreases w.len(),
{
    if w.len() > 0 {
        lemma_occurrences_bound(w.drop_last(), user);
    }
}

impl PopularityEstimator {
    /// Events in the window, oldest first: (user id, time in ms).
    pub closed spec fn window_spec(&self) -> Seq<(u64, i64)> {
        self.window@
    }

    /// The users counted, with their number of events in the window.
    pub closed spec fn counts_spec(&self) -> Map<u64, u64> {
        self.user_count@
    }

    pub closed spec fn points_spec(&self) -> Seq<PopularityPoint> {
        self.points@
    }

    pub closed spec fn min_interval_spec(&self) -> i64 {
        self.min_interval_ms
    }

    /// The window and the counts agree: each user of the window is counted with
    /// the number of its events, and no one else is counted.
    pub closed spec fn wf(&self) -> bool {
        &&& self.user_count@.dom() == users_of(self.window@)
        &&& forall|u: u64| #[trigger]
            self.user_count@.contains_key(u) ==> self.user_count@[u] == occurrences(
                self.window@,
                u,
            )
    }

    pub fn new(min_interval_ms: i64) -> (r: PopularityEstimator)
        ensures
            r.wf(),
            r.window_spec().len() == 0,
            r.points_spec().len() == 0,
            r.min_interval_spec() == min_interval_ms,
    {
        let r = PopularityEstimator {
            window: VecDeque::new(),
            user_count: HashMap::new(),
            points: Vec::new(),
            min_interval_ms,
        };
        assert(users_of(r.window@) =~= Set::<u64>::empty());
        r
    }

    fn add_event(&mut self, user_id: u64, time_ms: i64)
        requires
            old(self).wf(),
        ensures
            final(self).wf(),
            final(self).window@ == old(self).window@.push((user_id, time_ms)),
            final(self).points == old(self).points,
            final(self).min_interval_ms == old(self).min_interval_ms,
    {
        proof {
            lemma_occurrences_bound(self.window@, user_id);
        }
        let n: u64 = match self.user_count.get(&user_id) {
            Some(c) => *c,
            None => 0,
        };
        let ghost w0 = self.window@;
        self.window.push_back((user_id, time_ms));
        let len = self.window.len();
        proof {
            assert(self.window@.drop_last() =~= w0);
        }
        assert(n + 1 <= len);
        self.user_count.insert(user_id, n + 1);
        proof {
            assert forall|u: u64| occurrences(self.window@, u) == occurrences(w0, u) + if u
                == user_id {
                1nat
            } else {
                0nat
            } by {
                assert(self.window@.drop_last() =~= w0);
            }
            assert(self.user_count@.dom() =~= users_of(self.window@));
        }
    }

    /// Drops the oldest event and uncounts its user.
    fn drop_oldest(&mut self)
        requires
            old(self).wf(),
            old(self).window@.len() > 0,
        ensures
            final(self).wf(),
            final(self).window@ == old(self).window@.drop_first(),
            final(self).points == old(self).points,
            final(self).min_interval_ms == old(self).min_interval_ms,
    {
        let ghost w0 = self.window@;
        proof {
            assert forall|u: u64| occurrences(w0, u) == occurrences(w0.drop_first(), u) + if w0[0].0
                == u {
                1nat
            } else {
                0nat
            } by {
                lemma_occurrences_front(w0, u);
            }
        }
        let front = self.window.pop_front();
        match front {
            Some((user_id, _)) => {
                assert(occurrences(w0, user_id) >= 1);
                assert(self.user_count@.contains_key(user_id));
                let n: u64 = match self.user_count.get(&user_id) {
                    Some(c) => *c,
                    None => 1,
                };
                if n <= 1 {
                    self.user_count.remove(&user_id);
                } else {
                    self.user_count.insert(user_id, n - 1);
                }
                proof {
                    assert(self.user_count@.dom() =~= users_of(self.window@));
                }
            },
            None => {},
        }
    }

    /// Admits an event of `user_id` at `time_ms` (events come in time order),
    /// drops the events more than five minutes older than it, and records a point
    /// with the number of distinct users in the window when the last point is at
    /// least `min_interval_ms` older.
    pub fn observe(&mut self, user_id: u64, time_ms: i64)
        requires
            old(self).wf(),
        ensures
            final(self).wf(),
            final(self).window_spec() == expire(
                old(self).window_spec().push((user_id, time_ms)),
                time_ms - WINDOW_MS,
            ),
            final(self).min_interval_spec() == old(self).min_interval_spec(),
            final(self).points_spec() == if due(
                old(self).points_spec(),
                time_ms,
                old(self).min_interval_spec(),
            ) {
                old(self).points_spec().push(
                    PopularityPoint {
                        time_ms,
                        popularity: users_of(final(self).window_spec()).len() as u64,
                    },
                )
            } else {
                old(self).points_spec()
            },
    {
        self.add_event(user_id, time_ms);
        let cutoff: i128 = time_ms as i128 - WINDOW_MS as i128;
        let ghost pushed = self.window@;
        loop
            invariant
                self.wf(),
                expire(self.window@, cutoff as int) == expire(pushed, cutoff as int),
                self.points == old(self).points,
                self.min_interval_ms == old(self).min_interval_ms,
            ensures
                self.wf(),
                self.window@ == expire(pushed, cutoff as int),
                self.points == old(self).points,
                self.min_interval_ms == old(self).min_interval_ms,
            decreases self.window@.len(),
        {
            if self.window.len() == 0 {
                break;
            }
            let front = self.window[0];
            if (front.1 as i128) >= cutoff {
                break;
            }
            self.drop_oldest();
        }
        let distinct = self.user_count.len();
        assert(distinct == users_of(self.window@).len());
        let emit = if self.points.len() == 0 {
            true
        } else {
            let last = self.points[self.points.len() - 1];
            (last.time_ms as i128) + (self.min_interval_ms as i128) <= time_ms as i128
        };
        if emit {
            self.points.push(PopularityPoint { time_ms, popularity: distinct as u64 });
        }
    }
}

/// The number of counted users is the number of distinct users in the window;
/// each counted user is counted with its number of events in the window, which
/// is above zero, and a user is counted exactly when the window holds an event
/// of it.
pub proof fn lemma_count_is_distinct_users(e: PopularityEstimator)
    requires
        e.wf(),
    ensures
        e.counts_spec().len() == users_of(e.window_spec()).len(),
        forall|u: u64| #[trigger]
            e.counts_spec().contains_key(u) ==> e.counts_spec()[u] == occurrences(
                e.window_spec(),
                u,
            ) && e.counts_spec()[u] > 0,
        forall|u: u64|
            e.counts_spec().contains_key(u) <==> e.window_spec().map_values(
                |x: (u64, i64)| x.0,
            ).contains(u),
{
    assert forall|u: u64|
        e.counts_spec().contains_key(u) <==> e.window_spec().map_values(
            |x: (u64, i64)| x.0,
        ).contains(u) by {
        lemma_occurrences_contains(e.window_spec(), u);
    }
}

proof fn lemma_occurrences_contains(w: Seq<(u64, i64)>, u: u64)
    ensures
        occurrences(w, u) > 0 <==> w.map_values(|x: (u64, i64)| x.0).contains(u),
    decreases w.len(),
{
    let m = w.map_values(|x: (u64, i64)| x.0);
    if w.len() > 0 {
        lemma_occurrences_contains(w.drop_last(), u);
        let m0 = w.drop_last().map_values(|x: (u64, i64)| x.0);
        assert(m0 =~= m.drop_last());
        if m.contains(u) {
            let i = choose|i: int| 0 <= i < m.len() && m[i] == u;
            if i < m.len() - 1 {
                assert(m0[i] == u);
            }
        }
        if m0.contains(u) {
            let i = choose|i: int| 0 <= i < m0.len() && m0[i] == u;
            assert(m[i] == u);
        }
        if w.last().0 == u {
            assert(m[m.len() - 1] == u);
        }
    }
}


impl PopularityEstimator {
    /// The points recorded so far, oldest first.
    pub fn points(&self) -> (r: &Vec<PopularityPoint>)
        ensures
            r@ == self.points_spec(),
    {
        &self.points
    }

    /// Events in the window.
    pub fn window_len(&self) -> (r: usize)
        ensures
            r == self.window_spec().len(),
    {
        self.window.len()
    }

    /// Distinct users in the window.
    pub fn distinct_users(&self) -> (r: usize)
        requires
            self.wf(),
        ensures
            r == users_of(self.window_spec()).len(),
    {
        self.user_count.len()
    }
}

/// The user id of a super chat or guard purchase: `data.uid`, a number or a
/// string of digits.
pub open spec fn data_uid_of(body: Json) -> Option<u64> {
    match body.member("data"@) {
        Some(data) => match data.member("uid"@) {
            Some(Json::Number(t)) => parse_u64_spec(t@),
            Some(Json::Str(t)) => parse_u64_spec(t@),
            _ => None,
        },
        None => None,
    }
}

/// The user id, room id and time of a line, for the events that count towards
/// popularity: chat messages, super chats and guard purchases. Other lines give
/// `None`.
pub open spec fn line_parse_spec(line: Seq<char>) -> Result<Option<(u64, u64, i64)>, LineError> {
    match raw_line_of_text(line) {
        None => Err(LineError::Line),
        Some(raw) => if raw.operation@ != "SendMsgReply"@ {
            Ok(None)
        } else if contains_text(raw.body@, "DANMU_MSG"@) {
            match json_of_text(raw.body@) {
                Some(j) => match danmu_of(j) {
                    Ok(m) => Ok(Some((m.user_id, raw.room_id, raw.time_ms))),
                    Err(_) => Err(LineError::Body),
                },
                None => Err(LineError::Body),
            }
        } else if contains_text(raw.body@, "SUPER_CHAT_MESSAGE\\"@) || contains_text(
            raw.body@,
            "GUARD_BUY"@,
        ) {
            match json_of_text(raw.body@) {
                Some(j) => match data_uid_of(j) {
                    Some(u) => Ok(Some((u, raw.room_id, raw.time_ms))),
                    None => Err(LineError::Body),
                },
                None => Err(LineError::Body),
            }
        } else {
            Ok(None)
        },
    }
}

fn data_uid(body: &Json) -> (r: Option<u64>)
    ensures
        r == data_uid_of(*body),
{
    match body.get("data") {
        Some(data) => match data.get("uid") {
            Some(Json::Number(t)) => parse_u64(t.as_str()),
            Some(Json::Str(t)) => parse_u64(t.as_str()),
            _ => None,
        },
        None => None,
    }
}

pub fn line_parse(line: &str) -> (r: Result<Option<(u64, u64, i64)>, LineError>)
    ensures
        r == line_parse_spec(line@),
{
    let raw = match RawLine::from_line(line) {
        Some(raw) => raw,
        None => return Err(LineError::Line),
    };
    if !text_eq(raw.operation.as_str(), "SendMsgReply") {
        return Ok(None);
    }
    let body = raw.body.as_str();
    if contains(body, "DANMU_MSG") {
        match DanmuMsg::from_body(body) {
            Ok(m) => Ok(Some((m.user_id, raw.room_id, raw.time_ms))),
            Err(_) => Err(LineError::Body),
        }
    } else if contains(body, "SUPER_CHAT_MESSAGE\\") || contains(body, "GUARD_BUY") {
        match parse_json(body) {
            Some(j) => match data_uid(&j) {
                Some(u) => Ok(Some((u, raw.room_id, raw.time_ms))),
                None => Err(LineError::Body),
            },
            None => Err(LineError::Body),
        }
    } else {
        Ok(None)
    }
}

impl PopularityEstimator {
    /// Reads one archive line and admits its event when it is one of `room_id`.
    pub fn observe_line(&mut self, line: &str, room_id: u64) -> (r: Result<(), LineError>)
        requires
            old(self).wf(),
        ensures
            final(self).wf(),
            match line_parse_spec(line@) {
                Err(e) => r == Err::<(), LineError>(e) && *final(self) == *old(self),
                Ok(Some((user, room, t))) => r is Ok && if room == room_id {
                    final(self).window_spec() == expire(
                        old(self).window_spec().push((user, t)),
                        t - WINDOW_MS,
                    ) && final(self).min_interval_spec() == old(self).min_interval_spec()
                        && final(self).points_spec() == if due(
                        old(self).points_spec(),
                        t,
                        old(self).min_interval_spec(),
                    ) {
                        old(self).points_spec().push(
                            PopularityPoint {
                                time_ms: t,
                                popularity: users_of(final(self).window_spec()).len() as u64,
                            },
                        )
                    } else {
                        old(self).points_spec()
                    }
                } else {
                    *final(self) == *old(self)
                },
                Ok(None) => r is Ok && *final(self) == *old(self),
            },
    {
        match line_parse(line) {
            Err(e) => Err(e),
            Ok(None) => Ok(()),
            Ok(Some((user, room, t))) => {
                if room == room_id {
                    self.observe(user, t);
                }
                Ok(())
            },
        }
    }
}

} // verus!
