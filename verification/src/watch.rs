//! Notable things that happened, and when.
//!
//! A record of what happened while nobody was looking: newest first, bounded,
//! and aware of when it started. It is not written to disk, because a log that
//! came back after a restart would have a hole in it that it could not admit
//! to; instead it starts when the dashboard does and says so.
//!
//! Times are nanoseconds since the Unix epoch.

use vstd::prelude::*;
use std::collections::VecDeque;

verus! {

/// How many entries are kept. Beyond this the oldest fall off the end.
///
/// A day of ordinary use produces a handful, so this is a bound on pathology
/// rather than a limit anyone should meet.
pub const CAPACITY: usize = 200;

/// The earliest instant jiff can represent, `-009999-01-01T00:00:00Z`, in
/// nanoseconds since the Unix epoch.
pub const EARLIEST_NANOS: i128 = -377_705_023_201_000_000_000;

/// The latest instant jiff can represent, `9999-12-31T23:59:59.999999999Z`
/// less the offset margin it keeps, in nanoseconds since the Unix epoch.
pub const LATEST_NANOS: i128 = 253_402_207_200_999_999_999;

/// A reading of the clock that jiff can represent.
pub open spec fn representable(t: i128) -> bool {
    EARLIEST_NANOS <= t <= LATEST_NANOS
}

/// The current time, in nanoseconds since the Unix epoch, or `None` when the
/// system clock reads a time jiff cannot represent.
///
/// Trusted: converts `std::time::SystemTime::now()` with jiff's fallible
/// `Timestamp::try_from` (which fails, rather than panics, outside
/// `Timestamp::MIN..=Timestamp::MAX`) and reads it back with
/// `Timestamp::as_nanosecond`. Claimed: a reading, when there is one, lies
/// within jiff's range. Which instant it is depends on the clock and is not
/// claimed.
#[verifier::external_body]
pub(crate) fn now_nanos() -> (r: Option<i128>)
    ensures
        r matches Some(t) ==> representable(t),
{
    jiff::Timestamp::try_from(std::time::SystemTime::now()).ok().map(|t| t.as_nanosecond())
}

/// Something worth recording.
#[derive(Debug, Clone, PartialEq, Eq)]
pub struct Event {
    /// When it happened.
    pub at: i128,
    /// The panel that noticed, for grouping and for the reader's orientation.
    pub source: String,
    /// One line, in the past tense, naming the thing rather than the panel.
    pub text: String,
}

impl Event {
    /// An event that happened just now, or `None` when the clock reads a
    /// time that cannot be represented.
    pub fn new(source: String, text: String) -> (r: Option<Self>)
        ensures
            r matches Some(e) ==> e.source == source && e.text == text && representable(e.at),
    {
        match now_nanos() {
            Some(at) => Some(Event { at, source, text }),
            None => None,
        }
    }

    /// An event that happened at `at`.
    pub fn at(at: i128, source: String, text: String) -> (e: Self)
        ensures
            e == (Event { at, source, text }),
    {
        Event { at, source, text }
    }
}

/// The log itself: newest first, bounded, and aware of when it started.
#[derive(Debug)]
pub struct WatchLog {
    entries: VecDeque<Event>,
    /// When watching started, shown as the last line so the log never implies
    /// it knows about anything earlier.
    since: i128,
    /// The last moment the reader was known to be present. A rule line is
    /// drawn only when this is set and has entries on both sides: a line in
    /// the wrong place makes a claim that is not true.
    seen_at: Option<i128>,
}

/// The log as values: its entries newest first, when it started, and when
/// the reader was last known to be here.
pub struct WatchLogModel {
    pub entries: Seq<Event>,
    pub since: i128,
    pub seen_at: Option<i128>,
}

impl View for WatchLog {
    type V = WatchLogModel;

    closed spec fn view(&self) -> WatchLogModel {
        WatchLogModel { entries: self.entries@, since: self.since, seen_at: self.seen_at }
    }
}

/// How many of the newest entries arrived after `seen`.
pub open spec fn fresh(entries: Seq<Event>, seen: i128) -> nat
    decreases entries.len(),
{
    if entries.len() == 0 || entries[0].at <= seen {
        0
    } else {
        1 + fresh(entries.drop_first(), seen)
    }
}

/// The rule line's position, when there is one to draw.
pub open spec fn unseen_spec(m: WatchLogModel) -> Option<usize> {
    match m.seen_at {
        None => None,
        Some(seen) => {
            let f = fresh(m.entries, seen);
            if f > 0 && f < m.entries.len() {
                Some(f as usize)
            } else {
                None
            }
        },
    }
}

/// The entries after `event` arrives: it comes first, and the oldest fall
/// off once there are more than [`CAPACITY`].
pub open spec fn pushed(entries: Seq<Event>, event: Event) -> Seq<Event> {
    let all = seq![event] + entries;
    if all.len() <= CAPACITY {
        all
    } else {
        all.take(CAPACITY as int)
    }
}

proof fn lemma_fresh_skip(s: Seq<Event>, seen: i128, i: int)
    requires
        0 <= i < s.len(),
        s[i].at > seen,
    ensures
        fresh(s.skip(i), seen) == 1 + fresh(s.skip(i + 1), seen),
{
    assert(s.skip(i).drop_first() =~= s.skip(i + 1));
}

impl WatchLog {
    /// A log that starts now. When the clock reads a time that cannot be
    /// represented, the log starts at the earliest instant that can: it then
    /// claims no knowledge of anything before any event it records.
    pub fn new() -> (log: Self)
        ensures
            log@.entries.len() == 0,
            log@.seen_at is None,
            representable(log@.since),
    {
        let since = match now_nanos() {
            Some(t) => t,
            None => EARLIEST_NANOS,
        };
        WatchLog { entries: VecDeque::new(), since, seen_at: None }
    }

    /// A log that started at `since`.
    pub fn starting_at(since: i128) -> (log: Self)
        ensures
            log@.entries.len() == 0,
            log@.since == since,
            log@.seen_at is None,
    {
        WatchLog { entries: VecDeque::new(), since, seen_at: None }
    }

    /// Record an event.
    pub fn push(&mut self, event: Event)
        ensures
            final(self)@.entries == pushed(old(self)@.entries, event),
            final(self)@.entries.len() <= CAPACITY,
            final(self)@.since == old(self)@.since,
            final(self)@.seen_at == old(self)@.seen_at,
    {
        let ghost all = seq![event] + self.entries@;
        let ghost since = self.since;
        let ghost seen_at = self.seen_at;
        self.entries.push_front(event);
        proof {
            assert(all.take(all.len() as int) =~= all);
        }
        while self.entries.len() > CAPACITY
            invariant
                self.entries@.len() <= all.len(),
                all.len() > CAPACITY ==> self.entries@.len() >= CAPACITY,
                all.len() <= CAPACITY ==> self.entries@.len() == all.len(),
                self.entries@ == all.take(self.entries@.len() as int),
                self.since == since,
                self.seen_at == seen_at,
            decreases self.entries@.len(),
        {
            self.entries.pop_back();
        }
    }

    /// Newest first.
    pub fn entries(&self) -> (r: &VecDeque<Event>)
        ensures
            r@ == self@.entries,
    {
        &self.entries
    }

    /// When watching started.
    pub fn since(&self) -> (r: i128)
        ensures
            r == self@.since,
    {
        self.since
    }

    /// Note that the reader is here now.
    ///
    /// Called when the terminal loses focus where it reports that, and on a
    /// keypress otherwise. Both are proxies: the dashboard cannot see anyone
    /// looking.
    ///
    /// Returns whether the clock could be read. When it could not, nothing
    /// is recorded and the log is left as it was.
    pub fn mark_seen(&mut self) -> (recorded: bool)
        ensures
            final(self)@.entries == old(self)@.entries,
            final(self)@.since == old(self)@.since,
            recorded ==> (final(self)@.seen_at matches Some(t) && representable(t)),
            !recorded ==> final(self)@.seen_at == old(self)@.seen_at,
    {
        match now_nanos() {
            Some(now) => {
                self.mark_seen_at(now);
                true
            },
            None => false,
        }
    }

    /// Note that the reader was here at `at`.
    pub fn mark_seen_at(&mut self, at: i128)
        ensures
            final(self)@.entries == old(self)@.entries,
            final(self)@.since == old(self)@.since,
            final(self)@.seen_at == Some(at),
    {
        self.seen_at = Some(at);
    }

    /// How many of the newest entries arrived after the reader was last
    /// here.
    ///
    /// `None` means no line should be drawn: either nothing says when they
    /// were last here, everything is newer, or nothing is. A rule line at the
    /// very top or the very bottom separates nothing from something and reads
    /// as a glitch.
    pub fn unseen(&self) -> (r: Option<usize>)
        ensures
            r == unseen_spec(self@),
    {
        let seen = match self.seen_at {
            Some(seen) => seen,
            None => return None,
        };
        let len = self.entries.len();
        let ghost s = self.entries@;
        let mut i: usize = 0;
        proof {
            assert(s.skip(0) =~= s);
        }
        while i < len && self.entries[i].at > seen
            invariant
                s == self.entries@,
                len == s.len(),
                i <= len,
                fresh(s, seen) == i + fresh(s.skip(i as int), seen),
            decreases len - i,
        {
            proof {
                lemma_fresh_skip(s, seen, i as int);
            }
            i = i + 1;
        }
        if i > 0 && i < len {
            Some(i)
        } else {
            None
        }
    }
}

impl Default for WatchLog {
    /// A log that starts now.
    fn default() -> (log: Self)
        ensures
            log@.entries.len() == 0,
            log@.seen_at is None,
            representable(log@.since),
    {
        WatchLog::new()
    }
}

/// The newest entry comes first: after an event is recorded it heads the
/// log, everything that was there follows in the same order, and only the
/// oldest fall off, once more than 200 would be kept.
pub proof fn the_newest_entry_comes_first(entries: Seq<Event>, event: Event)
    ensures
        pushed(entries, event)[0] == event,
        pushed(entries, event).len() == if entries.len() + 1 <= 200 {
            entries.len() + 1
        } else {
            200
        },
        forall|i: int|
            0 <= i < pushed(entries, event).len() - 1 ==> #[trigger] pushed(entries, event)[i + 1]
                == entries[i],
{
}

/// The rule line sits below exactly the entries that arrived after the
/// reader was last here: those newer than that moment come first, and the
/// one after them is not newer.
pub proof fn the_rule_line_sits_below_what_is_new(entries: Seq<Event>, seen: i128)
    ensures
        fresh(entries, seen) <= entries.len(),
        forall|i: int| 0 <= i < fresh(entries, seen) ==> #[trigger] entries[i].at > seen,
        fresh(entries, seen) < entries.len() ==> entries[fresh(entries, seen) as int].at <= seen,
    decreases entries.len(),
{
    if entries.len() > 0 && entries[0].at > seen {
        let rest = entries.drop_first();
        the_rule_line_sits_below_what_is_new(rest, seen);
        assert forall|i: int| 0 <= i < fresh(entries, seen) implies #[trigger] entries[i].at > seen by {
            if i > 0 {
                assert(entries[i] == rest[i - 1]);
            }
        }
        if fresh(entries, seen) < entries.len() {
            assert(entries[fresh(entries, seen) as int] == rest[fresh(rest, seen) as int]);
        }
    }
}

} // verus!
