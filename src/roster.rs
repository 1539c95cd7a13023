//! The roster of rooms and uploaders to follow, read from a TOML file, and the
//! decisions that reconcile running rooms with it.

use vstd::prelude::*;
use std::collections::HashSet;
use vstd::std_specs::iter::IteratorSpec;

verus! {

broadcast use vstd::std_specs::hash::group_hash_axioms;

/// The members of `a` that are not in `b`, each once.
pub fn difference_vec(a: &HashSet<u64>, b: &HashSet<u64>) -> (r: Vec<u64>)
    ensures
        r@.to_set() == a@.difference(b@),
        r@.no_duplicates(),
{
    let mut r: Vec<u64> = Vec::new();
    let ghost keys = a.iter().remaining().unref();
    assert(keys.to_set() == a@);
    for x in it: a.iter()
        invariant
            it.seq().unref() == keys,
            keys.to_set() == a@,
            keys.no_duplicates(),
            r@.to_set() == keys.subrange(0, it.index()).to_set().difference(b@),
            r@.no_duplicates(),
    {
        let ghost i = it.index();
        let ghost r_before = r@;
        assert(r_before.to_set() == keys.subrange(0, i).to_set().difference(b@));
        assert(*x == keys[i]);
        let ghost before = keys.subrange(0, i);
        let ghost after = keys.subrange(0, i + 1);
        assert(after =~= before.push(keys[i]));
        assert(!before.contains(keys[i]));
        if !b.contains(x) {
            proof {
                if r@.contains(*x) {
                    assert(r@.to_set().contains(*x));
                }
            }
            let ghost r0 = r@;
            r.push(*x);
            proof {
                assert forall|v: u64| r@.contains(v) <==> r0.contains(v) || v == *x by {
                    if r@.contains(v) {
                        let j = choose|j: int| 0 <= j < r@.len() && r@[j] == v;
                        if j < r0.len() {
                            assert(r0[j] == v);
                        }
                    }
                    if r0.contains(v) {
                        let j = choose|j: int| 0 <= j < r0.len() && r0[j] == v;
                        assert(r@[j] == v);
                    }
                    if v == *x {
                        assert(r@[r0.len() as int] == v);
                    }
                }
            }
        }
        proof {
            assert forall|v: u64| after.contains(v) <==> before.contains(v) || v == keys[i] by {
                if after.contains(v) {
                    let j = choose|j: int| 0 <= j < after.len() && after[j] == v;
                    if j < before.len() {
                        assert(before[j] == v);
                    }
                }
                if before.contains(v) {
                    let j = choose|j: int| 0 <= j < before.len() && before[j] == v;
                    assert(after[j] == v);
                }
                if v == keys[i] {
                    assert(after[i] == v);
                }
            }
            assert forall|v: u64| r@.contains(v) <==> (after.contains(v) && !b@.contains(v)) by {
                assert(r_before.contains(v) <==> r_before.to_set().contains(v));
                assert(before.contains(v) <==> before.to_set().contains(v));
            }
            assert(r@.to_set() =~= after.to_set().difference(b@));
        }
    }
    proof {
        assert(keys.subrange(0, keys.len() as int) =~= keys);
    }
    r
}


/// A set holding the members of `v`.
pub fn set_from_vec(v: &Vec<u64>) -> (r: HashSet<u64>)
    ensures
        r@ == v@.to_set(),
{
    let mut r: HashSet<u64> = HashSet::new();
    let mut i: usize = 0;
    while i < v.len()
        invariant
            i <= v@.len(),
            r@ == v@.subrange(0, i as int).to_set(),
        decreases v@.len() - i,
    {
        let ghost before = v@.subrange(0, i as int);
        let ghost after = v@.subrange(0, i + 1);
        r.insert(v[i]);
        proof {
            assert forall|x: u64| after.contains(x) <==> before.contains(x) || x == v@[i as int] by {
                if after.contains(x) {
                    let j = choose|j: int| 0 <= j < after.len() && after[j] == x;
                    if j < before.len() {
                        assert(before[j] == x);
                    }
                }
                if before.contains(x) {
                    let j = choose|j: int| 0 <= j < before.len() && before[j] == x;
                    assert(after[j] == x);
                }
                if x == v@[i as int] {
                    assert(after[i as int] == x);
                }
            }
            assert(r@ =~= after.to_set());
        }
        i = i + 1;
    }
    assert(v@.subrange(0, v@.len() as int) =~= v@);
    r
}

/// A set with the same members as `a`.
pub fn copy_set(a: &HashSet<u64>) -> (r: HashSet<u64>)
    ensures
        r@ == a@,
{
    let empty: HashSet<u64> = HashSet::new();
    let v = difference_vec(a, &empty);
    assert(a@.difference(empty@) =~= a@);
    set_from_vec(&v)
}

/// Are the two sets equal?
pub fn same_set(a: &HashSet<u64>, b: &HashSet<u64>) -> (r: bool)
    ensures
        r == (a@ == b@),
{
    let extra = difference_vec(a, b);
    let missing = difference_vec(b, a);
    if extra.len() == 0 && missing.len() == 0 {
        assert(a@ =~= b@) by {
            assert forall|x: u64| a@.contains(x) implies b@.contains(x) by {
                if !b@.contains(x) {
                    assert(a@.difference(b@).contains(x));
                    assert(extra@.to_set().contains(x));
                }
            }
            assert forall|x: u64| b@.contains(x) implies a@.contains(x) by {
                if !a@.contains(x) {
                    assert(b@.difference(a@).contains(x));
                    assert(missing@.to_set().contains(x));
                }
            }
        }
        true
    } else {
        proof {
            if a@ == b@ {
                if extra.len() > 0 {
                    assert(extra@.to_set().contains(extra@[0]));
                } else {
                    assert(missing@.to_set().contains(missing@[0]));
                }
            }
        }
        false
    }
}

/// The rooms to record and the uploaders to poll.
pub struct Config {
    pub live_rooms: HashSet<u64>,
    pub users: HashSet<u64>,
}

pub struct ConfigView {
    pub live_rooms: Set<u64>,
    pub users: Set<u64>,
}

impl View for Config {
    type V = ConfigView;

    open spec fn view(&self) -> ConfigView {
        ConfigView { live_rooms: self.live_rooms@, users: self.users@ }
    }
}

impl PartialEq for Config {
    fn eq(&self, other: &Config) -> (r: bool)
        ensures
            r == (self@ == other@),
    {
        same_set(&self.live_rooms, &other.live_rooms) && same_set(&self.users, &other.users)
    }
}

impl vstd::std_specs::cmp::PartialEqSpecImpl for Config {
    open spec fn obeys_eq_spec() -> bool {
        true
    }

    open spec fn eq_spec(&self, other: &Config) -> bool {
        self@ == other@
    }
}

impl Config {
    /// A second config with the same members.
    pub fn duplicate(&self) -> (r: Config)
        ensures
            r@ == self@,
    {
        Config { live_rooms: copy_set(&self.live_rooms), users: copy_set(&self.users) }
    }
}

/// Most `[`, `{` and `.` characters that a roster text may hold. The TOML reader
/// recurses once per nested array, inline table or dotted key, without a limit
/// of its own; no nesting can go deeper than the count of these characters.
pub const MAX_TOML_NESTING: usize = 128;

/// The characters that may open a nesting level in TOML.
pub open spec fn opens_nesting(c: char) -> bool {
    c == '[' || c == '{' || c == '.'
}

/// How many characters of `s` may open a nesting level.
pub open spec fn nesting_chars(s: Seq<char>) -> nat
    decreases s.len(),
{
    if s.len() == 0 {
        0
    } else {
        nesting_chars(s.drop_last()) + if opens_nesting(s.last()) {
            1nat
        } else {
            0nat
        }
    }
}

/// Counts the characters of `s` that may open a nesting level.
pub fn count_nesting_chars(s: &str) -> (r: usize)
    ensures
        r == nesting_chars(s@),
{
    let cs = crate::text::chars_of(s);
    let mut n: usize = 0;
    let mut i: usize = 0;
    while i < cs.len()
        invariant
            i <= cs@.len(),
            cs@ == s@,
            n == nesting_chars(cs@.subrange(0, i as int)),
            n <= i,
        decreases cs@.len() - i,
    {
        assert(cs@.subrange(0, i + 1).drop_last() =~= cs@.subrange(0, i as int));
        let c = cs[i];
        if c == '[' || c == '{' || c == '.' {
            n = n + 1;
        }
        i = i + 1;
    }
    assert(cs@.subrange(0, cs@.len() as int) =~= cs@);
    n
}

/// The integer array under `key` in a TOML document, or `None` when the text is
/// not TOML, the key is missing, or its value is not an array of integers that
/// fit in `u64`.
pub uninterp spec fn toml_u64_array(doc: Seq<char>, key: Seq<char>) -> Option<Seq<u64>>;

/// Relies on `toml::from_str::<toml::Value>`, `toml::Value::get` and
/// `toml::Value::try_into::<Vec<u64>>`: reads the array `key` of a TOML document;
/// the result depends on the two texts alone.
/// Texts with more nesting characters than `MAX_TOML_NESTING` are left out: on
/// deep enough nesting the reader exhausts the stack.
#[verifier::external_body]
fn toml_u64_list(doc: &str, key: &str) -> (r: Option<Vec<u64>>)
    requires
        nesting_chars(doc@) <= MAX_TOML_NESTING,
    ensures
        match r {
            Some(v) => toml_u64_array(doc@, key@) == Some(v@),
            None => toml_u64_array(doc@, key@) is None,
        },
{
    toml::from_str::<toml::Value>(doc).ok()?.get(key)?.clone().try_into::<Vec<u64>>().ok()
}

/// Why a roster file was refused.
#[derive(PartialEq, Eq, Structural, Clone, Copy, Debug)]
pub enum ConfigError {
    /// `live_rooms` is missing or is not an array of room ids (or the text is
    /// not TOML).
    LiveRooms,
    /// `users` is missing or is not an array of user ids.
    Users,
    /// The text holds more than `MAX_TOML_NESTING` of `[`, `{` and `.`.
    TooNested,
}

pub open spec fn parsed_config(content: Seq<char>) -> Result<ConfigView, ConfigError> {
    if nesting_chars(content) > MAX_TOML_NESTING {
        Err(ConfigError::TooNested)
    } else {
        parsed_toml_config(content)
    }
}

pub open spec fn parsed_toml_config(content: Seq<char>) -> Result<ConfigView, ConfigError> {
    match toml_u64_array(content, "live_rooms"@) {
        None => Err(ConfigError::LiveRooms),
        Some(rooms) => match toml_u64_array(content, "users"@) {
            None => Err(ConfigError::Users),
            Some(users) => Ok(ConfigView { live_rooms: rooms.to_set(), users: users.to_set() }),
        },
    }
}

/// Decides when the roster that was read should be sent on: the first time, and
/// whenever it differs from the last one sent.
pub struct TaskFactory {
    pub last: Option<Config>,
}

/// What `on_loaded` does with a roster that was read.
pub open spec fn loaded(before: TaskFactory, after: TaskFactory, tasks: ConfigView, sent: Option<ConfigView>) -> bool {
    let changed = match before.last {
        None => true,
        Some(last) => last@ != tasks,
    };
    if changed {
        &&& sent == Some(tasks)
        &&& after.last matches Some(l) && l@ == tasks
    } else {
        &&& sent is None
        &&& after.last matches Some(l) && l@ == before.last->0@
    }
}

pub open spec fn config_opt_view(c: Option<Config>) -> Option<ConfigView> {
    match c {
        Some(c) => Some(c@),
        None => None,
    }
}

impl TaskFactory {
    pub fn new() -> (r: TaskFactory)
        ensures
            r.last is None,
    {
        TaskFactory { last: None }
    }

    /// Reads a roster file's text.
    pub fn parse_content(content: &str) -> (r: Result<Config, ConfigError>)
        ensures
            match r {
                Ok(c) => parsed_config(content@) == Ok::<ConfigView, ConfigError>(c@),
                Err(e) => parsed_config(content@) == Err::<ConfigView, ConfigError>(e),
            },
    {
        if count_nesting_chars(content) > MAX_TOML_NESTING {
            return Err(ConfigError::TooNested);
        }
        let rooms = match toml_u64_list(content, "live_rooms") {
            Some(v) => v,
            None => return Err(ConfigError::LiveRooms),
        };
        let users = match toml_u64_list(content, "users") {
            Some(v) => v,
            None => return Err(ConfigError::Users),
        };
        Ok(Config { live_rooms: set_from_vec(&rooms), users: set_from_vec(&users) })
    }

    /// Takes a roster that was just read; returns the roster to send on, if any.
    pub fn on_loaded(&mut self, tasks: Config) -> (r: Option<Config>)
        ensures
            loaded(*old(self), *final(self), tasks@, config_opt_view(r)),
    {
        let changed = match &self.last {
            None => true,
            Some(last) => !(*last == tasks),
        };
        if changed {
            let send = tasks.duplicate();
            self.last = Some(tasks);
            Some(send)
        } else {
            None
        }
    }
}

/// What to do when the roster file cannot be read or parsed.
#[derive(PartialEq, Eq, Structural, Clone, Copy, Debug)]
pub enum LoadFailure {
    /// No roster was ever loaded: stop with an error.
    Fatal,
    /// Keep the last roster and try again at the next reading.
    Retry,
}

impl TaskFactory {
    /// A failure to load the roster is fatal at the first loading only.
    pub fn on_load_error(&self) -> (r: LoadFailure)
        ensures
            r == if self.last is None {
                LoadFailure::Fatal
            } else {
                LoadFailure::Retry
            },
    {
        match self.last {
            None => LoadFailure::Fatal,
            Some(_) => LoadFailure::Retry,
        }
    }
}

/// A roster read twice in a row with the same members is sent on once: the
/// second reading sends nothing.
pub proof fn lemma_unchanged_roster_sent_once(
    s0: TaskFactory,
    s1: TaskFactory,
    s2: TaskFactory,
    tasks: ConfigView,
    sent1: Option<ConfigView>,
    sent2: Option<ConfigView>,
)
    requires
        loaded(s0, s1, tasks, sent1),
        loaded(s1, s2, tasks, sent2),
    ensures
        sent2 is None,
        s2.last matches Some(l) && l@ == tasks,
{
}

/// The rooms that have a running connector.
pub struct RoomRoster {
    pub running: HashSet<u64>,
}

/// The connectors to stop and to start for a new roster, each room once.
pub struct RosterPlan {
    pub to_stop: Vec<u64>,
    pub to_start: Vec<u64>,
}

/// What `apply` does: stops the running rooms that are no longer wanted, starts
/// the wanted rooms that are not running, and leaves exactly the wanted rooms
/// running.
pub open spec fn applied(before: Set<u64>, desired: Set<u64>, after: Set<u64>, plan: RosterPlan) -> bool {
    &&& plan.to_stop@.to_set() == before.difference(desired)
    &&& plan.to_stop@.no_duplicates()
    &&& plan.to_start@.to_set() == desired.difference(before)
    &&& plan.to_start@.no_duplicates()
    &&& after == desired
}

impl RoomRoster {
    pub fn new() -> (r: RoomRoster)
        ensures
            r.running@ == Set::<u64>::empty(),
    {
        RoomRoster { running: HashSet::new() }
    }

    /// Reconciles the running rooms with the rooms of a new roster.
    pub fn apply(&mut self, desired: &HashSet<u64>) -> (plan: RosterPlan)
        ensures
            applied(old(self).running@, desired@, final(self).running@, plan),
    {
        let to_stop = difference_vec(&self.running, desired);
        let to_start = difference_vec(desired, &self.running);
        self.running = copy_set(desired);
        RosterPlan { to_stop, to_start }
    }
}

/// After a roster update is applied the running rooms are the roster's rooms,
/// and a room that is both running and wanted is neither stopped nor started.
pub proof fn lemma_roster_converges(before: Set<u64>, desired: Set<u64>, after: Set<u64>, plan: RosterPlan, room: u64)
    requires
        applied(before, desired, after, plan),
    ensures
        after == desired,
        before.contains(room) && desired.contains(room) ==> !plan.to_stop@.contains(room)
            && !plan.to_start@.contains(room),
{
    if before.contains(room) && desired.contains(room) {
        assert(!plan.to_stop@.to_set().contains(room));
        assert(!plan.to_start@.to_set().contains(room));
    }
}

} // verus!
