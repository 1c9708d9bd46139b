//! The state the reader of a plugin's output shares with its panel, and what
//! each message from the plugin does to it.

use vstd::prelude::*;
use std::collections::VecDeque;
use vstd::utf8::{encode_utf8, encode_utf8_valid_utf8, is_char_boundary, is_char_boundary_start_end_of_seq};
use crate::plugin::wire::{text_view, WireFrame};
use crate::plugin::names::names_view;
use crate::text::{
    blank, chars_of, contains_control, decimal, decimal_text, has_control, is_blank, join2, owned,
    text_from,
};

verus! {

broadcast use vstd::string::group_string_axioms;

/// The protocol version this host speaks. A plugin must match it exactly.
pub const PROTOCOL_VERSION: u16 = 1;

/// The longest message accepted, including its newline.
pub const MAX_MESSAGE_BYTES: usize = 8388608;

/// The longest watch event text accepted, in UTF-8 bytes.
pub const MAX_WATCH_TEXT_BYTES: usize = 1024;

/// How much of the plugin's error output is kept, in UTF-8 bytes.
pub const MAX_STDERR_BYTES: usize = 8192;

/// How many watch events wait for the panel to collect them.
pub const WATCH_QUEUE: usize = 64;

/// How often a plugin is ticked when it does not say, in milliseconds.
pub const DEFAULT_REFRESH_MS: u64 = 33;

/// The shortest and longest refresh a plugin may ask for, in milliseconds.
pub const MIN_REFRESH_MS: u64 = 16;

pub const MAX_REFRESH_MS: u64 = 60000;

/// Where a plugin process is in its life.
#[derive(Debug, Clone, PartialEq, Eq)]
pub enum Phase {
    Starting,
    Running,
    Exited(String),
    Failed(String),
    Stopping,
}

pub enum PhaseView {
    Starting,
    Running,
    Exited(Seq<char>),
    Failed(Seq<char>),
    Stopping,
}

impl View for Phase {
    type V = PhaseView;

    open spec fn view(&self) -> PhaseView {
        match self {
            Phase::Starting => PhaseView::Starting,
            Phase::Running => PhaseView::Running,
            Phase::Exited(s) => PhaseView::Exited(s@),
            Phase::Failed(s) => PhaseView::Failed(s@),
            Phase::Stopping => PhaseView::Stopping,
        }
    }
}

impl Phase {
    /// The same phase.
    pub fn copy(&self) -> (r: Self)
        ensures
            r@ == self@,
    {
        match self {
            Phase::Starting => Phase::Starting,
            Phase::Running => Phase::Running,
            Phase::Exited(s) => Phase::Exited(s.clone()),
            Phase::Failed(s) => Phase::Failed(s.clone()),
            Phase::Stopping => Phase::Stopping,
        }
    }

    /// The process is gone, by exiting or failing.
    pub fn is_over(&self) -> (r: bool)
        ensures
            r == (self is Exited || self is Failed),
    {
        match self {
            Phase::Exited(_) | Phase::Failed(_) => true,
            _ => false,
        }
    }
}

/// A message from a plugin, already decoded from its JSON line.
#[derive(Debug, Clone, PartialEq, Eq)]
pub enum PluginMessage {
    /// The first message: which protocol, and optionally a title and refresh.
    Ready { protocol: u16, title: Option<String>, refresh_ms: Option<u64> },
    /// A complete snapshot.
    Frame(WireFrame),
    /// A notice, or with `fatal` the end of the session.
    Error { message: String, fatal: bool },
    /// A completed event for the watch log.
    Watch { text: String },
}

/// What the reader has gathered from a plugin, for its panel to pick up.
#[derive(Debug)]
pub struct Shared {
    /// Bumped on every change the panel should notice.
    pub generation: u64,
    pub ready: bool,
    pub phase: Phase,
    pub title: Option<String>,
    pub refresh_ms: u64,
    pub frame: Option<WireFrame>,
    pub notice: Option<String>,
    pub stderr: String,
    pub watch: VecDeque<String>,
}

/// The next generation, wrapping at the top.
pub open spec fn bump(g: u64) -> u64 {
    if g == u64::MAX {
        0
    } else {
        (g + 1) as u64
    }
}

/// A refresh request clamped into the allowed range, or the default.
pub open spec fn refresh_of(requested: Option<u64>) -> u64 {
    match requested {
        None => DEFAULT_REFRESH_MS,
        Some(ms) => if ms < MIN_REFRESH_MS {
            MIN_REFRESH_MS
        } else if ms > MAX_REFRESH_MS {
            MAX_REFRESH_MS
        } else {
            ms
        },
    }
}

/// The number of bytes `s` takes in UTF-8.
pub open spec fn utf8_len(s: Seq<char>) -> nat {
    encode_utf8(s).len()
}

/// One non-empty line of at most [`MAX_WATCH_TEXT_BYTES`] bytes.
pub open spec fn valid_watch_text(s: Seq<char>) -> bool {
    !blank(s) && utf8_len(s) <= MAX_WATCH_TEXT_BYTES && !has_control(s)
}

pub open spec fn incompatible_text(protocol: u16) -> Seq<char> {
    "protocol "@ + decimal(protocol as nat) + " is incompatible with host protocol "@ + decimal(
        PROTOCOL_VERSION as nat,
    )
}

/// `after` is `before` with the session failed for `why`.
pub open spec fn failed_with(before: Shared, after: Shared, why: Seq<char>) -> bool {
    &&& after.phase matches Phase::Failed(m) && m@ == why
    &&& after == Shared { phase: after.phase, generation: bump(before.generation), ..before }
}

/// The queue after `text` arrives: it joins the back, and the oldest leaves
/// once the queue is full.
pub open spec fn queued(watch: Seq<String>, text: String) -> Seq<String> {
    if watch.len() == WATCH_QUEUE {
        watch.drop_first().push(text)
    } else {
        watch.push(text)
    }
}

/// What applying `message` to `before` gives, and whether the session goes on.
pub open spec fn applied(before: Shared, message: PluginMessage, after: Shared, ok: bool) -> bool {
        match message {
            PluginMessage::Ready { protocol, title, refresh_ms } => if protocol
                != PROTOCOL_VERSION {
                !ok && failed_with(before, after, incompatible_text(protocol))
            } else if before.ready {
                !ok && failed_with(
                    before,
                    after,
                    "plugin sent `ready` more than once"@,
                )
            } else {
                ok && after == Shared {
                    ready: true,
                    phase: Phase::Running,
                    title: title,
                    refresh_ms: refresh_of(refresh_ms),
                    generation: bump(before.generation),
                    ..before
                }
            },
            PluginMessage::Frame(frame) => if !before.ready {
                !ok && failed_with(
                    before,
                    after,
                    "plugin sent a frame before `ready`"@,
                )
            } else if before.frame matches Some(current) && frame.revision
                <= current.revision {
                ok && after == before
            } else {
                ok && after == Shared {
                    frame: Some(frame),
                    notice: None,
                    generation: bump(before.generation),
                    ..before
                }
            },
            PluginMessage::Error { message, fatal } => if fatal {
                !ok && after == Shared {
                    phase: Phase::Failed(message),
                    generation: bump(before.generation),
                    ..before
                }
            } else {
                ok && after == Shared {
                    notice: Some(message),
                    generation: bump(before.generation),
                    ..before
                }
            },
            PluginMessage::Watch { text } => if !before.ready {
                !ok && failed_with(
                    before,
                    after,
                    "plugin sent a watch event before `ready`"@,
                )
            } else if !valid_watch_text(text@) {
                !ok && failed_with(
                    before,
                    after,
                    "plugin watch text must be one non-empty line of at most 1024 UTF-8 bytes"@,
                )
            } else {
                &&& ok
                &&& after.watch@ == queued(before.watch@, text)
                &&& after.generation == bump(before.generation)
                &&& before.watch@.len() == WATCH_QUEUE ==> (after.notice matches Some(n) && n@
                    == "plugin watch queue overflowed; oldest event dropped"@)
                &&& before.watch@.len() != WATCH_QUEUE ==> after.notice == before.notice
                &&& after.ready == before.ready
                &&& after.phase == before.phase
                &&& after.title == before.title
                &&& after.refresh_ms == before.refresh_ms
                &&& after.frame == before.frame
                &&& after.stderr == before.stderr
            },
        }
}

/// `after` is `before` with the full-queue notice set.
pub open spec fn noted_full(before: Shared, after: Shared) -> bool {
    &&& after.notice matches Some(n) && n@ == "plugin input queue is full"@
    &&& after == (Shared { notice: after.notice, generation: bump(before.generation), ..before })
}

/// The first character boundary of `bytes` at or after `i`.
pub open spec fn boundary_from(bytes: Seq<u8>, i: int) -> int
    decreases bytes.len() - i,
{
    if i >= bytes.len() {
        bytes.len() as int
    } else if is_char_boundary(bytes, i) {
        i
    } else {
        boundary_from(bytes, i + 1)
    }
}

/// Error output after `line` arrives: the lines joined by newlines.
pub open spec fn stderr_joined(before: Seq<char>, line: Seq<char>) -> Seq<char> {
    if before.len() == 0 {
        line
    } else {
        before + "\n"@ + line
    }
}

/// The bytes of `text` that are kept: all of them, or when there are more
/// than [`MAX_STDERR_BYTES`] the last ones, from the first character
/// boundary that leaves no more than that.
pub open spec fn kept_bytes(text: Seq<char>) -> Seq<u8> {
    let bytes = encode_utf8(text);
    if bytes.len() > MAX_STDERR_BYTES {
        bytes.subrange(boundary_from(bytes, bytes.len() - MAX_STDERR_BYTES), bytes.len() as int)
    } else {
        bytes
    }
}

proof fn lemma_boundary_from(bytes: Seq<u8>, i: int)
    requires
        0 <= i <= bytes.len(),
    ensures
        i <= boundary_from(bytes, i) <= bytes.len(),
    decreases bytes.len() - i,
{
    if i < bytes.len() && !is_char_boundary(bytes, i) {
        lemma_boundary_from(bytes, i + 1);
    }
}

/// Whether a line read from a plugin, at most one byte over the limit, is
/// too long: over [`MAX_MESSAGE_BYTES`], or exactly that long without its
/// newline, which means more was coming.
pub fn oversized(line: &Vec<u8>) -> (r: bool)
    ensures
        r == (line@.len() > MAX_MESSAGE_BYTES || (line@.len() == MAX_MESSAGE_BYTES && line@.last()
            != 10u8)),
{
    let n = line.len();
    n > MAX_MESSAGE_BYTES || (n == MAX_MESSAGE_BYTES && line[n - 1] != 10u8)
}

/// `line` without the newlines and carriage returns at its end.
pub open spec fn without_line_end(line: Seq<u8>) -> Seq<u8>
    decreases line.len(),
{
    if line.len() > 0 && (line.last() == 10u8 || line.last() == 13u8) {
        without_line_end(line.drop_last())
    } else {
        line
    }
}

/// Remove the newlines and carriage returns that end a line.
pub fn trim_line_end(line: &mut Vec<u8>)
    ensures
        final(line)@ == without_line_end(old(line)@),
{
    while line.len() > 0 && (line[line.len() - 1] == 10u8 || line[line.len() - 1] == 13u8)
        invariant
            without_line_end(line@) == without_line_end(old(line)@),
        decreases line@.len(),
    {
        line.pop();
    }
}

impl Shared {
    /// Nothing heard from the plugin yet.
    pub fn starting() -> (s: Self)
        ensures
            s.generation == 0,
            !s.ready,
            s.phase == Phase::Starting,
            s.title is None,
            s.refresh_ms == DEFAULT_REFRESH_MS,
            s.frame is None,
            s.notice is None,
            s.stderr@ == Seq::<char>::empty(),
            s.watch@ == Seq::<String>::empty(),
    {
        Shared {
            generation: 0,
            ready: false,
            phase: Phase::Starting,
            title: None,
            refresh_ms: DEFAULT_REFRESH_MS,
            frame: None,
            notice: None,
            stderr: String::new(),
            watch: VecDeque::new(),
        }
    }

    /// Tell the panel something changed.
    pub fn changed(&mut self)
        ensures
            *final(self) == (Shared { generation: bump(old(self).generation), ..*old(self) }),
    {
        self.generation = self.generation.wrapping_add(1);
    }

    /// The process has been asked to stop.
    pub fn stopping(&mut self)
        ensures
            *final(self) == (Shared {
                phase: Phase::Stopping,
                generation: bump(old(self).generation),
                ..*old(self)
            }),
    {
        self.phase = Phase::Stopping;
        self.changed();
    }

    /// The process ended with `status`. A process that was being stopped, or
    /// had already failed, keeps that phase.
    pub fn exited(&mut self, status: String)
        ensures
            old(self).phase is Stopping || old(self).phase is Failed ==> *final(self) == *old(self),
            !(old(self).phase is Stopping || old(self).phase is Failed) ==> *final(self) == (Shared {
                phase: Phase::Exited(status),
                generation: bump(old(self).generation),
                ..*old(self)
            }),
    {
        match &self.phase {
            Phase::Stopping | Phase::Failed(_) => {},
            _ => {
                self.phase = Phase::Exited(status);
                self.changed();
            },
        }
    }

    /// A line of the plugin's error output arrived. Only the last
    /// [`MAX_STDERR_BYTES`] bytes are kept, cut at a character boundary.
    pub fn note_stderr(&mut self, line: &str)
        ensures
            encode_utf8(final(self).stderr@) == kept_bytes(stderr_joined(old(self).stderr@, line@)),
            encode_utf8(final(self).stderr@).len() <= MAX_STDERR_BYTES || encode_utf8(
                final(self).stderr@,
            ) == encode_utf8(stderr_joined(old(self).stderr@, line@)),
            *final(self) == (Shared {
                stderr: final(self).stderr,
                generation: bump(old(self).generation),
                ..*old(self)
            }),
    {
        if !self.stderr.as_str().is_empty() {
            self.stderr.append("\n");
        }
        self.stderr.append(line);
        assert(self.stderr@ =~= stderr_joined(old(self).stderr@, line@));
        let text: &str = self.stderr.as_str();
        let total = text.as_bytes().len();
        if total > MAX_STDERR_BYTES {
            let excess = total - MAX_STDERR_BYTES;
            let ghost bytes = encode_utf8(text@);
            proof {
                encode_utf8_valid_utf8(text@);
                is_char_boundary_start_end_of_seq(bytes);
                lemma_boundary_from(bytes, excess as int);
            }
            let mut cut = excess;
            while cut < total && !text.is_char_boundary(cut)
                invariant
                    excess <= cut <= total,
                    total == bytes.len(),
                    bytes == encode_utf8(text@),
                    vstd::utf8::valid_utf8(bytes),
                    boundary_from(bytes, excess as int) == boundary_from(bytes, cut as int),
                decreases total - cut,
            {
                cut = cut + 1;
            }
            let kept = text.split_at(cut).1.to_owned();
            self.stderr = kept;
        }
        self.changed();
    }

    /// End the session for `message`.
    pub fn fail(&mut self, message: String)
        ensures
            *final(self) == (Shared {
                phase: Phase::Failed(message),
                generation: bump(old(self).generation),
                ..*old(self)
            }),
    {
        self.phase = Phase::Failed(message);
        self.changed();
    }

    /// Record that the plugin's input queue is full, once.
    pub fn note_queue_full(&mut self)
        ensures
            text_view(old(self).notice) == Some("plugin input queue is full"@) ==> *final(self)
                == *old(self),
            text_view(old(self).notice) != Some("plugin input queue is full"@) ==> noted_full(
                *old(self),
                *final(self),
            ),
    {
        let already = match &self.notice {
            Some(n) => crate::text::same_text(n.as_str(), "plugin input queue is full"),
            None => false,
        };
        if !already {
            self.notice = Some(owned("plugin input queue is full"));
            self.changed();
        }
    }
}

/// Apply one message from the plugin, and report whether the session goes
/// on. Unknown states are refused rather than guessed at: a second `ready`,
/// a frame or watch event before `ready`, or a version mismatch ends it.
/// Frames are complete snapshots and a revision no newer than the current one
/// is ignored.
pub fn apply_message(shared: &mut Shared, message: PluginMessage) -> (ok: bool)
    ensures
        applied(*old(shared), message, *final(shared), ok),
{
    match message {
        PluginMessage::Ready { protocol, title, refresh_ms } => {
            if protocol != PROTOCOL_VERSION {
                let mut why = join2("protocol ", decimal_text(protocol as u64).as_str());
                why.append(" is incompatible with host protocol ");
                why.append(decimal_text(PROTOCOL_VERSION as u64).as_str());
                shared.fail(why);
                return false;
            }
            if shared.ready {
                shared.fail(owned("plugin sent `ready` more than once"));
                return false;
            }
            shared.ready = true;
            shared.phase = Phase::Running;
            shared.title = title;
            shared.refresh_ms = match refresh_ms {
                None => DEFAULT_REFRESH_MS,
                Some(ms) => if ms < MIN_REFRESH_MS {
                    MIN_REFRESH_MS
                } else if ms > MAX_REFRESH_MS {
                    MAX_REFRESH_MS
                } else {
                    ms
                },
            };
            shared.changed();
            true
        },
        PluginMessage::Frame(frame) => {
            if !shared.ready {
                shared.fail(owned("plugin sent a frame before `ready`"));
                return false;
            }
            let stale = match &shared.frame {
                Some(current) => frame.revision <= current.revision,
                None => false,
            };
            if stale {
                return true;
            }
            shared.frame = Some(frame);
            shared.notice = None;
            shared.changed();
            true
        },
        PluginMessage::Error { message, fatal } => {
            if fatal {
                shared.fail(message);
                return false;
            }
            shared.notice = Some(message);
            shared.changed();
            true
        },
        PluginMessage::Watch { text } => {
            if !shared.ready {
                shared.fail(owned("plugin sent a watch event before `ready`"));
                return false;
            }
            let invalid = is_blank(text.as_str()) || text.as_str().as_bytes().len() > MAX_WATCH_TEXT_BYTES
                || contains_control(text.as_str());
            if invalid {
                shared.fail(
                    owned(
                        "plugin watch text must be one non-empty line of at most 1024 UTF-8 bytes",
                    ),
                );
                return false;
            }
            if shared.watch.len() == WATCH_QUEUE {
                shared.watch.pop_front();
                shared.notice = Some(owned("plugin watch queue overflowed; oldest event dropped"));
            }
            shared.watch.push_back(text);
            shared.changed();
            true
        },
    }
}

/// The watch queue never holds more than [`WATCH_QUEUE`] events, whatever a
/// plugin sends.
pub proof fn the_watch_queue_is_bounded(before: Shared, message: PluginMessage, after: Shared, ok: bool)
    requires
        before.watch@.len() <= WATCH_QUEUE,
        applied(before, message, after, ok),
    ensures
        after.watch@.len() <= WATCH_QUEUE,
{
}

/// Frames only move forward: once a frame is shown, no message replaces it
/// with an older revision.
pub proof fn frames_never_go_back(before: Shared, message: PluginMessage, after: Shared, ok: bool)
    requires
        applied(before, message, after, ok),
        before.frame is Some,
    ensures
        after.frame matches Some(f) && f.revision >= before.frame->0.revision,
{
}

/// A refused message ends the session: whenever a message is not accepted,
/// the plugin is marked failed, so nothing half-applied is left running.
pub proof fn a_refused_message_ends_the_session(before: Shared, message: PluginMessage, after: Shared, ok: bool)
    requires
        applied(before, message, after, ok),
        !ok,
    ensures
        after.phase is Failed,
{
}

/// `ready` is accepted once: once the plugin has said it, a second `ready`
/// is refused, and no message makes the host forget it.
pub proof fn ready_is_accepted_once(before: Shared, message: PluginMessage, after: Shared, ok: bool)
    requires
        applied(before, message, after, ok),
        before.ready,
    ensures
        after.ready,
        message is Ready ==> !ok,
{
}

/// Late or duplicated revisions are ignored: a frame no newer than the one
/// shown leaves everything as it was.
pub proof fn a_stale_frame_changes_nothing(before: Shared, frame: WireFrame, after: Shared, ok: bool)
    requires
        applied(before, PluginMessage::Frame(frame), after, ok),
        before.ready,
        before.frame matches Some(current) && frame.revision <= current.revision,
    ensures
        ok,
        after == before,
{
}

/// Whatever refresh interval an accepted `ready` asks for, the panel is
/// ticked no faster than every 16 ms and no slower than every minute.
pub proof fn the_refresh_interval_is_clamped(before: Shared, message: PluginMessage, after: Shared, ok: bool)
    requires
        applied(before, message, after, ok),
        message is Ready,
        ok,
    ensures
        MIN_REFRESH_MS <= after.refresh_ms <= MAX_REFRESH_MS,
{
}

/// An accepted `ready` keeps the refresh interval the plugin asked for when
/// it lies within 16 ms to a minute, raises a shorter one to 16 ms, lowers a
/// longer one to a minute, and uses 33 ms when it asks for none.
pub proof fn the_requested_refresh_interval_is_kept_within_bounds(
    before: Shared,
    protocol: u16,
    title: Option<String>,
    requested: Option<u64>,
    after: Shared,
    ok: bool,
)
    requires
        applied(before, PluginMessage::Ready { protocol, title, refresh_ms: requested }, after, ok),
        ok,
    ensures
        requested matches Some(ms) ==> (16 <= ms <= 60000 ==> after.refresh_ms == ms),
        requested matches Some(ms) ==> (ms < 16 ==> after.refresh_ms == 16),
        requested matches Some(ms) ==> (ms > 60000 ==> after.refresh_ms == 60000),
        requested is None ==> after.refresh_ms == 33,
        protocol == PROTOCOL_VERSION,
        !before.ready,
        after.ready,
        after.title == title,
{
}

/// A fatal error ends the session with its message; any other error stays
/// as the panel's notice, and the session goes on.
pub proof fn errors_are_notices_unless_fatal(
    before: Shared,
    message: String,
    fatal: bool,
    after: Shared,
    ok: bool,
)
    requires
        applied(before, PluginMessage::Error { message, fatal }, after, ok),
    ensures
        fatal ==> !ok && after.phase == Phase::Failed(message),
        !fatal ==> ok && after.notice == Some(message) && after.phase == before.phase
            && after.frame == before.frame,
{
}

/// A frame newer than the one shown (or the first) is shown, and clears the
/// notice it supersedes.
pub proof fn a_newer_frame_is_shown(before: Shared, frame: WireFrame, after: Shared, ok: bool)
    requires
        applied(before, PluginMessage::Frame(frame), after, ok),
        before.ready,
        before.frame matches Some(current) ==> frame.revision > current.revision,
    ensures
        ok,
        after.frame == Some(frame),
        after.notice is None,
        after.phase == before.phase,
{
}

/// Frames and watch events before `ready` end the session.
pub proof fn nothing_comes_before_ready(before: Shared, message: PluginMessage, after: Shared, ok: bool)
    requires
        applied(before, message, after, ok),
        !before.ready,
        message is Frame || message is Watch,
    ensures
        !ok,
        after.phase is Failed,
{
}

/// The first newline in `s` at or after `i`, or the end.
pub open spec fn next_newline(s: Seq<char>, i: int) -> int
    decreases s.len() - i,
{
    if i >= s.len() {
        s.len() as int
    } else if s[i] == '\n' {
        i
    } else {
        next_newline(s, i + 1)
    }
}

/// Where the next newline from `i` lies: between `i` and the end, on a newline.
pub proof fn lemma_next_newline(s: Seq<char>, i: int)
    requires
        0 <= i <= s.len(),
    ensures
        i <= next_newline(s, i) <= s.len(),
        next_newline(s, i) < s.len() ==> s[next_newline(s, i)] == '\n',
    decreases s.len() - i,
{
    if i < s.len() && s[i] != '\n' {
        lemma_next_newline(s, i + 1);
    }
}

/// A line without the carriage return that ended it.
pub open spec fn without_cr(piece: Seq<char>) -> Seq<char> {
    if piece.len() > 0 && piece.last() == '\r' {
        piece.drop_last()
    } else {
        piece
    }
}

/// The lines of `s` from position `i`, as `str::lines` gives them: split at
/// each newline, a carriage return before the newline dropped, and no empty
/// line after a final newline.
pub open spec fn lines_from(s: Seq<char>, i: int) -> Seq<Seq<char>>
    decreases s.len() - i,
{
    if i < 0 || i >= s.len() {
        Seq::empty()
    } else {
        let e = next_newline(s, i);
        if e < i || e >= s.len() {
            seq![s.subrange(i, s.len() as int)]
        } else {
            seq![without_cr(s.subrange(i, e))] + lines_from(s, e + 1)
        }
    }
}

/// The first lines of the plugin's error output that its panel shows, up
/// to three; none when the output is blank.
pub fn stderr_preview(stderr: &str) -> (r: Vec<String>)
    ensures
        blank(stderr@) ==> r@.len() == 0,
        !blank(stderr@) ==> names_view(r@) == lines_from(stderr@, 0).take(
            if lines_from(stderr@, 0).len() < 3 {
                lines_from(stderr@, 0).len() as int
            } else {
                3
            },
        ),
{
    if is_blank(stderr) {
        return Vec::new();
    }
    let ghost s = stderr@;
    let chars = chars_of(stderr);
    let mut out: Vec<String> = Vec::new();
    let mut i: usize = 0;
    assert(names_view(out@) + lines_from(s, 0) =~= lines_from(s, 0));
    while i < chars.len() && out.len() < 3
        invariant
            chars@ == s,
            s == stderr@,
            i <= chars.len(),
            out@.len() <= 3,
            lines_from(s, 0) == names_view(out@) + lines_from(s, i as int),
        decreases chars.len() - i,
    {
        let mut e: usize = i;
        while e < chars.len() && chars[e] != '\n'
            invariant
                chars@ == s,
                i <= e <= chars.len(),
                next_newline(s, i as int) == next_newline(s, e as int),
            decreases chars.len() - e,
        {
            e = e + 1;
        }
        proof {
            lemma_next_newline(s, i as int);
        }
        let end: usize = if e < chars.len() && e > i && chars[e - 1] == '\r' {
            e - 1
        } else {
            e
        };
        let mut piece: Vec<char> = Vec::new();
        let mut k: usize = i;
        while k < end
            invariant
                chars@ == s,
                i <= k <= end <= chars.len(),
                piece@ == s.subrange(i as int, k as int),
            decreases end - k,
        {
            piece.push(chars[k]);
            assert(s.subrange(i as int, k as int + 1) =~= s.subrange(i as int, k as int).push(
                s[k as int],
            ));
            k = k + 1;
        }
        let line = text_from(&piece);
        let ghost whole = s.subrange(i as int, e as int);
        assert(e < chars.len() ==> (without_cr(whole) =~= s.subrange(i as int, end as int)));
        assert(e >= chars.len() ==> whole =~= s.subrange(i as int, end as int));
        let next: usize = if e < chars.len() {
            e + 1
        } else {
            e
        };
        let ghost before = names_view(out@);
        out.push(line);
        assert(names_view(out@) =~= before.push(line@));
        assert(lines_from(s, i as int) == seq![line@] + lines_from(s, next as int));
        assert(before + (seq![line@] + lines_from(s, next as int)) =~= names_view(out@)
            + lines_from(s, next as int));
        i = next;
    }
    let ghost all = lines_from(s, 0);
    if out.len() < 3 {
        assert(lines_from(s, i as int) =~= Seq::<Seq<char>>::empty());
        assert(all =~= names_view(out@));
        assert(all.take(all.len() as int) =~= all);
    } else {
        assert(all.take(3) =~= names_view(out@));
    }
    out
}

} // verus!
