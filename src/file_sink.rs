//! The archive file sink: date-templated file names, when to flush, and when
//! to move on to the next day's file.

use vstd::prelude::*;
use crate::text::{dec_text, u64_text};
use chrono::Datelike;

verus! {

/// A calendar date.
#[derive(PartialEq, Eq, Structural, Clone, Copy, Debug)]
pub struct LocalDate {
    pub year: i32,
    pub month: u32,
    pub day: u32,
}

/// Offset of the Asia/Shanghai zone from UTC (UTC+8, its offset since 1991):
/// archive files are named after the date there.
pub const SHANGHAI_OFFSET_SECS: i32 = 8 * 3600;

/// The calendar date of a millisecond timestamp at a fixed offset of
/// `offset_secs` seconds east of UTC, or `None` when the offset is not within a
/// day or the date is outside the calendar's range.
pub uninterp spec fn local_date(ms: i64, offset_secs: i32) -> Option<LocalDate>;

/// Relies on chrono's `FixedOffset::east_opt`, `DateTime::from_timestamp_millis`,
/// `with_timezone` and the `Datelike` accessors: the calendar date of an instant
/// at a fixed offset; the result depends on the two numbers alone.
#[verifier::external_body]
fn date_at_offset(ms: i64, offset_secs: i32) -> (r: Option<LocalDate>)
    ensures
        r == local_date(ms, offset_secs),
{
    let offset = chrono::FixedOffset::east_opt(offset_secs)?;
    let t = chrono::DateTime::from_timestamp_millis(ms)?.with_timezone(&offset);
    Some(LocalDate { year: t.year(), month: t.month(), day: t.day() })
}

/// `k` zeros.
pub open spec fn zeros(k: nat) -> Seq<char>
    decreases k,
{
    if k == 0 {
        Seq::empty()
    } else {
        zeros((k - 1) as nat).push('0')
    }
}

/// `n` in decimal, with leading zeros up to `width` digits.
pub open spec fn zero_padded(n: nat, width: nat) -> Seq<char> {
    if dec_text(n).len() >= width {
        dec_text(n)
    } else {
        zeros((width - dec_text(n).len()) as nat) + dec_text(n)
    }
}

/// The year as the `%Y` of a date format writes it: four digits at least, with
/// a sign before negative years and years past 9999.
pub open spec fn year_text(y: i32) -> Seq<char> {
    if y < 0 {
        seq!['-'] + zero_padded((-y) as nat, 4)
    } else if y > 9999 {
        seq!['+'] + dec_text(y as nat)
    } else {
        zero_padded(y as nat, 4)
    }
}

/// `YYYY-MM-DD`.
pub open spec fn date_text(d: LocalDate) -> Seq<char> {
    year_text(d.year) + seq!['-'] + zero_padded(d.month as nat, 2) + seq!['-'] + zero_padded(
        d.day as nat,
        2,
    )
}

/// `template` with every `%` replaced by `date`.
pub open spec fn substitute(template: Seq<char>, date: Seq<char>) -> Seq<char>
    decreases template.len(),
{
    if template.len() == 0 {
        Seq::empty()
    } else {
        substitute(template.drop_last(), date) + if template.last() == '%' {
            date
        } else {
            seq![template.last()]
        }
    }
}

fn zero_padded_text(n: u64, width: usize) -> (r: String)
    requires
        width <= 4,
    ensures
        r@ == zero_padded(n as nat, width as nat),
{
    let digits = u64_text(n);
    let len = digits.as_str().unicode_len();
    if len >= width {
        return digits;
    }
    let mut r = String::new();
    let mut k: usize = 0;
    while k < width - len
        invariant
            k <= width - len,
            r@ == zeros(k as nat),
        decreases width - len - k,
    {
        r.append("0");
        proof {
            reveal_strlit("0");
        }
        assert(r@ =~= zeros((k + 1) as nat));
        k = k + 1;
    }
    r.append(digits.as_str());
    r
}

impl LocalDate {
    /// The date as `YYYY-MM-DD`.
    pub fn text(&self) -> (r: String)
        ensures
            r@ == date_text(*self),
    {
        let mut r = String::new();
        if self.year < 0 {
            r.append("-");
            let y: u64 = (-(self.year as i64)) as u64;
            let t = zero_padded_text(y, 4);
            r.append(t.as_str());
        } else if self.year > 9999 {
            r.append("+");
            let t = u64_text(self.year as u64);
            r.append(t.as_str());
        } else {
            let t = zero_padded_text(self.year as u64, 4);
            r.append(t.as_str());
        }
        r.append("-");
        let m = zero_padded_text(self.month as u64, 2);
        r.append(m.as_str());
        r.append("-");
        let d = zero_padded_text(self.day as u64, 2);
        r.append(d.as_str());
        proof {
            reveal_strlit("-");
            reveal_strlit("+");
        }
        assert(r@ =~= date_text(*self));
        r
    }
}

/// The file name for `date`: the template with each `%` replaced by the date.
pub fn resolve_path(template: &str, date: &LocalDate) -> (r: String)
    ensures
        r@ == substitute(template@, date_text(*date)),
{
    let date_str = date.text();
    let n = template.unicode_len();
    let mut r = String::new();
    let mut i: usize = 0;
    while i < n
        invariant
            i <= n,
            n == template@.len(),
            date_str@ == date_text(*date),
            r@ == substitute(template@.subrange(0, i as int), date_str@),
        decreases n - i,
    {
        let c = template.get_char(i);
        assert(template@.subrange(0, i + 1).drop_last() =~= template@.subrange(0, i as int));
        if c == '%' {
            r.append(date_str.as_str());
        } else {
            let piece = template.substring_char(i, i + 1);
            assert(piece@ =~= seq![c]);
            r.append(piece);
        }
        i = i + 1;
    }
    assert(template@.subrange(0, n as int) =~= template@);
    r
}

/// Items written between two flushes at most.
pub const FLUSH_EVERY_ITEMS: u64 = 1000;

/// A flush is due when this much time has passed since the last one.
pub const MAX_FLUSH_MS: u64 = 2000;

/// The schedule of one archive file sink; times are milliseconds on a monotonic
/// clock.
#[derive(PartialEq, Eq, Structural, Clone, Copy, Debug)]
pub struct FileAppender {
    /// Items written since the start.
    pub count: u64,
    /// Items written by the current run of the write loop.
    pub items: u64,
    pub last_flush_ms: u64,
    /// The date that the open file is named after.
    pub writer_date: LocalDate,
}

/// After an item is written: the new schedule and whether to flush now (every
/// thousandth item, or when more than two seconds passed since the last flush).
pub open spec fn after_write(s: FileAppender, now_ms: u64) -> (FileAppender, bool) {
    let count = if s.count < u64::MAX {
        (s.count + 1) as u64
    } else {
        s.count
    };
    let items = if s.items < u64::MAX {
        (s.items + 1) as u64
    } else {
        s.items
    };
    let flush = items % FLUSH_EVERY_ITEMS == 0 || (now_ms >= s.last_flush_ms && now_ms
        - s.last_flush_ms > MAX_FLUSH_MS);
    (
        FileAppender {
            count,
            items,
            last_flush_ms: if flush {
                now_ms
            } else {
                s.last_flush_ms
            },
            writer_date: s.writer_date,
        },
        flush,
    )
}

impl FileAppender {
    pub open spec fn new_spec(date: LocalDate, now_ms: u64) -> FileAppender {
        FileAppender { count: 0, items: 0, last_flush_ms: now_ms, writer_date: date }
    }

    /// A sink whose file, named after `date`, was opened at `now_ms`.
    pub fn new(date: LocalDate, now_ms: u64) -> (r: FileAppender)
        ensures
            r == FileAppender::new_spec(date, now_ms),
    {
        FileAppender { count: 0, items: 0, last_flush_ms: now_ms, writer_date: date }
    }

    /// Records one written item; returns whether to flush now.
    pub fn on_written(&mut self, now_ms: u64) -> (r: bool)
        ensures
            (*final(self), r) == after_write(*old(self), now_ms),
    {
        self.count = self.count.saturating_add(1);
        self.items = self.items.saturating_add(1);
        let flush = self.items % FLUSH_EVERY_ITEMS == 0 || (now_ms >= self.last_flush_ms
            && now_ms - self.last_flush_ms > MAX_FLUSH_MS);
        if flush {
            self.last_flush_ms = now_ms;
        }
        flush
    }

    /// After a flush: whether the file must be closed and the file of `today`
    /// opened.
    pub fn needs_new_file(&self, today: &LocalDate) -> (r: bool)
        ensures
            r == (*today != self.writer_date),
    {
        *today != self.writer_date
    }

    /// The file of `date` was opened.
    pub fn switched_to(&mut self, date: LocalDate)
        ensures
            *final(self) == (FileAppender { writer_date: date, ..*old(self) }),
    {
        self.writer_date = date;
    }
}

/// What `after_flush` does: when the date at `now_ms` differs from the open
/// file's, the sink moves to that date and names its file; otherwise nothing
/// changes.
pub open spec fn moved_on(
    template: Seq<char>,
    before: FileAppender,
    now_ms: i64,
    after: FileAppender,
    new_file: Option<String>,
) -> bool {
    match local_date(now_ms, SHANGHAI_OFFSET_SECS) {
        Some(d) => if d != before.writer_date {
            &&& new_file matches Some(path) && path@ == substitute(template, date_text(d))
            &&& after == (FileAppender { writer_date: d, ..before })
        } else {
            new_file is None && after == before
        },
        None => new_file is None && after == before,
    }
}

impl FileAppender {
    /// Opens the schedule of a sink at `now_ms` (milliseconds since the epoch)
    /// and `clock_ms` (monotonic): the file is named after the date at UTC+8.
    /// `None` when that date is out of the calendar's range.
    pub fn open(template: &str, now_ms: i64, clock_ms: u64) -> (r: Option<(FileAppender, String)>)
        ensures
            match local_date(now_ms, SHANGHAI_OFFSET_SECS) {
                Some(d) => r matches Some((s, path)) && s == FileAppender::new_spec(d, clock_ms)
                    && path@ == substitute(template@, date_text(d)),
                None => r is None,
            },
    {
        match date_at_offset(now_ms, SHANGHAI_OFFSET_SECS) {
            Some(d) => Some((FileAppender::new(d, clock_ms), resolve_path(template, &d))),
            None => None,
        }
    }

    /// After a flush at `now_ms`: when the date at UTC+8 is no longer the open
    /// file's, moves to that date and returns the name of its file.
    pub fn after_flush(&mut self, template: &str, now_ms: i64) -> (r: Option<String>)
        ensures
            moved_on(template@, *old(self), now_ms, *final(self), r),
    {
        match date_at_offset(now_ms, SHANGHAI_OFFSET_SECS) {
            Some(d) => if self.needs_new_file(&d) {
                self.switched_to(d);
                Some(resolve_path(template, &d))
            } else {
                None
            },
            None => None,
        }
    }
}

/// Lines of one local date go to one file: while the date stays that of the
/// open file the sink keeps it, and a file it moves to is the one named after
/// the current date.
pub proof fn lemma_one_file_per_date(
    template: Seq<char>,
    before: FileAppender,
    now_ms: i64,
    after: FileAppender,
    new_file: Option<String>,
)
    requires
        moved_on(template, before, now_ms, after, new_file),
    ensures
        local_date(now_ms, SHANGHAI_OFFSET_SECS) == Some(before.writer_date) ==> new_file is None && after == before,
        new_file is Some ==> after.writer_date != before.writer_date,
        new_file matches Some(p) ==> local_date(now_ms, SHANGHAI_OFFSET_SECS) == Some(after.writer_date)
            && p@ == substitute(template, date_text(after.writer_date)),
{
}

} // verus!
