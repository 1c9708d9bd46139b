//! The shell panel's state: whether it holds the keyboard, what its child is
//! doing, and what each key, paste or scroll asks the shell to send.
//!
//! Focus alone is not enough to hand every key to a shell: `Tab`, `q` and
//! `?` are how someone moves around and leaves the dashboard. `Enter`
//! engages the terminal and `Ctrl+G` releases it. While engaged every other
//! key belongs to the child, except that the first Ctrl+C goes to the child
//! and disarms the panel, so a second falls through and quits.

use vstd::prelude::*;
use crate::keys::{KeyCode, KeyPress, MouseKind};
use crate::panel::{Binding, KeyOutcome};
use crate::terminal::encode::{encode_key, key_spec, paste_bytes, paste_spec};
use crate::text::{decimal, decimal_text, join2, join3, owned};
use crate::plugin::wire::text_view;

verus! {

broadcast use vstd::string::group_string_axioms;

pub const DEFAULT_COLS: u16 = 80;

pub const DEFAULT_ROWS: u16 = 24;

/// How many lines one wheel notch scrolls the output.
pub const SCROLL_STEP: i32 = 3;

/// The size of the child's terminal, in cells; never zero either way.
#[derive(Debug, Clone, Copy, PartialEq, Eq)]
pub struct TerminalSize {
    pub cols: u16,
    pub rows: u16,
}

pub open spec fn at_least_one(n: u16) -> u16 {
    if n == 0 {
        1
    } else {
        n
    }
}

impl TerminalSize {
    /// A size of `cols` by `rows`.
    pub fn new(cols: u16, rows: u16) -> (s: Self)
        ensures
            s.cols == at_least_one(cols),
            s.rows == at_least_one(rows),
    {
        TerminalSize {
            cols: if cols == 0 {
                1
            } else {
                cols
            },
            rows: if rows == 0 {
                1
            } else {
                rows
            },
        }
    }
}

impl Default for TerminalSize {
    fn default() -> (s: Self)
        ensures
            s.cols == DEFAULT_COLS,
            s.rows == DEFAULT_ROWS,
    {
        TerminalSize::new(DEFAULT_COLS, DEFAULT_ROWS)
    }
}

/// Where the child shell is in its life.
#[derive(Debug, Clone, PartialEq, Eq)]
pub enum Phase {
    Starting,
    Running,
    Exited(String),
    Failed(String),
}

/// Which session handle the shell holds for this panel.
#[derive(Debug, Clone, Copy, PartialEq, Eq)]
pub enum Backend {
    /// A launch is under way.
    Starting,
    /// A session is open.
    Running,
    /// Nothing: the launch failed or the session was stopped.
    Empty,
}

/// The input modes and scroll position of the child's latest screen.
#[derive(Debug, Clone, Copy, PartialEq, Eq)]
pub struct ScreenModes {
    pub application_cursor: bool,
    pub bracketed_paste: bool,
    pub hide_cursor: bool,
    /// How many lines the view is scrolled back from the live screen.
    pub scrollback: usize,
}

/// Something to send to the session.
#[derive(Debug, Clone, PartialEq, Eq)]
pub enum TerminalControl {
    /// Bytes for the child to read.
    Input(Vec<u8>),
    /// Move the view back (positive) or forward by this many lines.
    Scroll(i32),
    /// The child's terminal has a new size.
    Resize(TerminalSize),
}

/// What a key does to the shell panel.
#[derive(Debug, Clone, PartialEq, Eq)]
pub enum TermStep {
    /// Not this panel's key.
    Ignored,
    /// Taken, with nothing to send.
    Consumed,
    /// Taken: send this, whether or not it arrives.
    Send(TerminalControl),
    /// Scroll the output by this much; the key counts as taken only if the
    /// session accepts it.
    Scroll(i32),
    /// The state has been reset for a new shell, which the caller starts.
    Restart,
}

/// A persistent interactive shell shown in one panel.
#[derive(Debug)]
pub struct TerminalPanel {
    pub backend: Backend,
    pub phase: Phase,
    /// The modes of the latest screen, once one has arrived.
    pub screen: Option<ScreenModes>,
    /// Whether the panel holds the keyboard.
    pub active: bool,
    /// Whether the next Ctrl+C goes to the child.
    pub interrupt_ready: bool,
    pub size: TerminalSize,
    /// Whether Enter sends a carriage return before its newline.
    pub crlf: bool,
}

pub open spec fn running(t: TerminalPanel) -> bool {
    t.phase is Running && t.backend is Running
}

pub open spec fn finished(t: TerminalPanel) -> bool {
    t.phase is Exited || t.phase is Failed
}

/// The panel set back for a new shell.
pub open spec fn restarted(before: TerminalPanel, after: TerminalPanel) -> bool {
    after == TerminalPanel {
        backend: Backend::Starting,
        phase: Phase::Starting,
        screen: None,
        active: false,
        interrupt_ready: true,
        ..before
    }
}

/// One page of scrolling: the screen less a line, at least one.
pub open spec fn page_spec(t: TerminalPanel) -> i32 {
    if t.size.rows <= 1 {
        1
    } else {
        (t.size.rows - 1) as i32
    }
}

pub open spec fn application_cursor(t: TerminalPanel) -> bool {
    t.screen matches Some(s) && s.application_cursor
}

/// The key types the character `c`.
pub open spec fn is_char(code: KeyCode, c: char) -> bool {
    code matches KeyCode::Char(x) && x == c
}

/// What a key does to `before`.
pub open spec fn keyed(before: TerminalPanel, key: KeyPress, after: TerminalPanel, step: TermStep) -> bool {
    let shifted = key.modifiers.shift;
    let ctrl = key.modifiers.control;
    let armed = TerminalPanel {
        interrupt_ready: if before.active {
            true
        } else {
            before.interrupt_ready
        },
        ..before
    };
    if shifted && key.code == KeyCode::PageUp {
        step == TermStep::Scroll(page_spec(before)) && after == armed
    } else if shifted && key.code == KeyCode::PageDown {
        step == TermStep::Scroll((-page_spec(before)) as i32) && after == armed
    } else if !before.active {
        if key.code == KeyCode::Enter && running(before) {
            step == TermStep::Send(TerminalControl::Scroll(-2147483647i32)) && after == TerminalPanel {
                active: true,
                interrupt_ready: true,
                ..before
            }
        } else if is_char(key.code, 'r') && finished(before) {
            step == TermStep::Restart && restarted(before, after)
        } else {
            step == TermStep::Ignored && after == before
        }
    } else if ctrl && (is_char(key.code, 'g') || is_char(key.code, 'G')) {
        step == TermStep::Consumed && after == TerminalPanel {
            active: false,
            interrupt_ready: true,
            ..before
        }
    } else {
        &&& after == armed
        &&& match key_spec(key, application_cursor(before), before.crlf) {
            Some(bytes) => step matches TermStep::Send(TerminalControl::Input(b)) && b@ == bytes,
            None => step == TermStep::Consumed,
        }
    }
}

/// What a failed delivery does: the panel lets go of the keyboard, and a
/// running shell is reported as stopped.
pub open spec fn delivery(before: TerminalPanel, sent: bool, after: TerminalPanel) -> bool {
    if sent {
        after == before
    } else if before.phase is Running {
        &&& after == TerminalPanel { active: false, phase: after.phase, ..before }
        &&& after.phase matches Phase::Failed(m) && m@
            == "the terminal worker stopped; press r to start a new shell"@
    } else {
        after == TerminalPanel { active: false, ..before }
    }
}

/// Whether a Ctrl+C goes to the child now.
pub open spec fn interruptible(t: TerminalPanel) -> bool {
    t.active && running(t) && t.interrupt_ready
}

/// What sending (or failing to send) an interrupt does.
pub open spec fn interrupt_delivered(
    before: TerminalPanel,
    sent: bool,
    after: TerminalPanel,
    r: KeyOutcome,
) -> bool {
    if sent {
        r == KeyOutcome::Consumed && after == TerminalPanel { interrupt_ready: false, ..before }
    } else {
        r == KeyOutcome::Ignored && delivery(before, false, after)
    }
}

/// The status a shell that exited reports: its signal, or its exit code.
pub open spec fn exit_status(code: u32, signal: Option<Seq<char>>) -> Seq<char> {
    match signal {
        Some(s) => s,
        None => "code "@ + decimal(code as nat),
    }
}

impl TerminalPanel {
    /// A panel whose first shell is being launched.
    pub fn new(crlf: bool) -> (t: Self)
        ensures
            t.backend == Backend::Starting,
            t.phase == Phase::Starting,
            t.screen is None,
            !t.active,
            t.interrupt_ready,
            t.size == (TerminalSize { cols: DEFAULT_COLS, rows: DEFAULT_ROWS }),
            t.crlf == crlf,
    {
        TerminalPanel {
            backend: Backend::Starting,
            phase: Phase::Starting,
            screen: None,
            active: false,
            interrupt_ready: true,
            size: TerminalSize::default(),
            crlf,
        }
    }

    /// Set the panel back for a new shell, which the caller launches.
    pub fn restart(&mut self)
        ensures
            restarted(*old(self), *final(self)),
    {
        self.screen = None;
        self.active = false;
        self.interrupt_ready = true;
        self.backend = Backend::Starting;
        self.phase = Phase::Starting;
    }

    /// The launch worker could not even be started.
    pub fn launch_failed(&mut self, error: &str)
        ensures
            *final(self) == (TerminalPanel {
                backend: Backend::Empty,
                phase: final(self).phase,
                ..*old(self)
            }),
            final(self).phase matches Phase::Failed(m) && m@ == "starting the terminal worker failed: "@
                + error@,
    {
        self.backend = Backend::Empty;
        self.phase = Phase::Failed(join2("starting the terminal worker failed: ", error));
    }

    /// Whether the shell is up and a session is open.
    pub fn is_running(&self) -> (r: bool)
        ensures
            r == running(*self),
    {
        match (&self.phase, &self.backend) {
            (Phase::Running, Backend::Running) => true,
            _ => false,
        }
    }

    /// One page of scrolling.
    pub fn page(&self) -> (r: i32)
        ensures
            r == page_spec(*self),
            r >= 1,
    {
        if self.size.rows <= 1 {
            1
        } else {
            (self.size.rows - 1) as i32
        }
    }

    /// Whether every key goes to the child.
    pub fn captures_input(&self) -> (r: bool)
        ensures
            r == self.active,
    {
        self.active
    }

    /// Report whether something sent to the session arrived.
    pub fn delivered(&mut self, sent: bool)
        ensures
            delivery(*old(self), sent, *final(self)),
    {
        if !sent {
            self.active = false;
            match self.phase {
                Phase::Running => {
                    self.phase = Phase::Failed(
                        owned("the terminal worker stopped; press r to start a new shell"),
                    );
                },
                _ => {},
            }
        }
    }

    /// Decide what a key does. Any key reaching an engaged panel re-arms the
    /// interrupt, since Ctrl+C is handled before keys are dispatched.
    pub fn handle_key(&mut self, key: &KeyPress) -> (step: TermStep)
        ensures
            keyed(*old(self), *key, *final(self), step),
    {
        if self.active {
            self.interrupt_ready = true;
        }
        let shifted = key.modifiers.shift;
        if shifted {
            match &key.code {
                KeyCode::PageUp => {
                    return TermStep::Scroll(self.page());
                },
                KeyCode::PageDown => {
                    return TermStep::Scroll(-self.page());
                },
                _ => {},
            }
        }
        if !self.active {
            let running = self.is_running();
            let over = match &self.phase {
                Phase::Exited(_) | Phase::Failed(_) => true,
                _ => false,
            };
            let enter = match &key.code {
                KeyCode::Enter => true,
                _ => false,
            };
            let r = match &key.code {
                KeyCode::Char(c) => *c == 'r',
                _ => false,
            };
            if enter && running {
                self.active = true;
                self.interrupt_ready = true;
                return TermStep::Send(TerminalControl::Scroll(-2147483647i32));
            }
            if r && over {
                self.restart();
                return TermStep::Restart;
            }
            return TermStep::Ignored;
        }
        let ctrl = key.modifiers.control;
        let release = ctrl && match &key.code {
            KeyCode::Char(c) => *c == 'g' || *c == 'G',
            _ => false,
        };
        if release {
            self.active = false;
            self.interrupt_ready = true;
            return TermStep::Consumed;
        }
        let application = match &self.screen {
            Some(s) => s.application_cursor,
            None => false,
        };
        match encode_key(key, application, self.crlf) {
            Some(bytes) => TermStep::Send(TerminalControl::Input(bytes)),
            None => TermStep::Consumed,
        }
    }

    /// Whether a Ctrl+C goes to the child: only while engaged, running and
    /// armed. `true` means send the byte 3 and report with
    /// [`TerminalPanel::interrupt_sent`].
    pub fn handle_interrupt(&self) -> (r: bool)
        ensures
            r == interruptible(*self),
    {
        self.active && self.is_running() && self.interrupt_ready
    }

    /// The interrupt was sent, or could not be: once delivered the panel
    /// disarms, so the next Ctrl+C falls through to the dashboard.
    pub fn interrupt_sent(&mut self, sent: bool) -> (r: KeyOutcome)
        ensures
            interrupt_delivered(*old(self), sent, *final(self), r),
    {
        if sent {
            self.interrupt_ready = false;
            KeyOutcome::Consumed
        } else {
            self.delivered(false);
            KeyOutcome::Ignored
        }
    }

    /// The bytes a paste sends, while the panel is engaged with a running
    /// shell; `None` lets the paste fall through.
    pub fn handle_paste(&mut self, text: &str) -> (r: Option<Vec<u8>>)
        ensures
            !(old(self).active && running(*old(self))) ==> r is None && *final(self) == *old(self),
            old(self).active && running(*old(self)) ==> {
                &&& r matches Some(b) && b@ == paste_spec(
                    text@,
                    old(self).screen matches Some(s) && s.bracketed_paste,
                )
                &&& *final(self) == (TerminalPanel { interrupt_ready: true, ..*old(self) })
            },
    {
        if !self.active || !self.is_running() {
            return None;
        }
        self.interrupt_ready = true;
        let bracketed = match &self.screen {
            Some(s) => s.bracketed_paste,
            None => false,
        };
        Some(paste_bytes(text, bracketed))
    }

    /// How far the wheel scrolls the output, if it is a wheel event; the
    /// event counts as taken only if the session accepts the scroll.
    pub fn handle_mouse(&mut self, kind: MouseKind) -> (r: Option<i32>)
        ensures
            kind is ScrollUp ==> r == Some(SCROLL_STEP) && *final(self) == (TerminalPanel {
                interrupt_ready: true,
                ..*old(self)
            }),
            kind is ScrollDown ==> r == Some(-3i32) && *final(self) == (TerminalPanel {
                interrupt_ready: true,
                ..*old(self)
            }),
            !(kind is ScrollUp || kind is ScrollDown) ==> r is None && *final(self) == *old(self),
    {
        match kind {
            MouseKind::ScrollUp => {
                self.interrupt_ready = true;
                Some(SCROLL_STEP)
            },
            MouseKind::ScrollDown => {
                self.interrupt_ready = true;
                Some(-SCROLL_STEP)
            },
            _ => None,
        }
    }

    /// The panel was drawn into `width` by `height` cells: the new size to
    /// send, if it changed.
    pub fn update_size(&mut self, width: u16, height: u16) -> (r: Option<TerminalSize>)
        ensures
            ({
                let size = TerminalSize { cols: at_least_one(width), rows: at_least_one(height) };
                if size == old(self).size {
                    r is None && *final(self) == *old(self)
                } else {
                    r == Some(size) && *final(self) == (TerminalPanel { size, ..*old(self) })
                }
            }),
    {
        let size = TerminalSize::new(width, height);
        if size.cols == self.size.cols && size.rows == self.size.rows {
            return None;
        }
        self.size = size;
        Some(size)
    }

    /// The launch finished: with a session, whose size is then brought up to
    /// date, or with why it failed.
    pub fn launched(&mut self, result: Result<(), String>) -> (r: Option<TerminalSize>)
        ensures
            result is Ok ==> r == Some(old(self).size) && *final(self) == (TerminalPanel {
                backend: Backend::Running,
                phase: Phase::Running,
                ..*old(self)
            }),
            result matches Err(e) ==> r is None && *final(self) == (TerminalPanel {
                backend: Backend::Empty,
                phase: Phase::Failed(e),
                active: false,
                ..*old(self)
            }),
    {
        match result {
            Ok(()) => {
                self.backend = Backend::Running;
                self.phase = Phase::Running;
                Some(self.size)
            },
            Err(e) => {
                self.backend = Backend::Empty;
                self.phase = Phase::Failed(e);
                self.active = false;
                None
            },
        }
    }

    /// A newer screen arrived.
    pub fn screen_arrived(&mut self, modes: ScreenModes)
        ensures
            *final(self) == (TerminalPanel { screen: Some(modes), ..*old(self) }),
    {
        self.screen = Some(modes);
    }

    /// The shell exited. A failure already reported stays; the panel lets go
    /// of the keyboard either way.
    pub fn exited(&mut self, code: u32, signal: Option<String>)
        ensures
            old(self).phase is Failed ==> *final(self) == (TerminalPanel {
                active: false,
                ..*old(self)
            }),
            !(old(self).phase is Failed) ==> {
                &&& *final(self) == (TerminalPanel { active: false, phase: final(self).phase, ..*old(self) })
                &&& final(self).phase matches Phase::Exited(s) && s@ == exit_status(
                    code,
                    text_view(signal),
                )
            },
    {
        match &self.phase {
            Phase::Failed(_) => {},
            _ => {
                let status = match signal {
                    Some(s) => s,
                    None => join2("code ", decimal_text(code as u64).as_str()),
                };
                self.phase = Phase::Exited(status);
            },
        }
        self.active = false;
    }

    /// The session failed; the caller shuts it down, since the pseudoterminal
    /// cannot recover in place.
    pub fn failed(&mut self, error: String)
        ensures
            *final(self) == (TerminalPanel { phase: Phase::Failed(error), active: false, ..*old(self) }),
    {
        self.phase = Phase::Failed(error);
        self.active = false;
    }

    /// What the border's counter shows.
    pub fn counter(&self) -> (r: Option<String>)
        ensures
            self.active ==> text_view(r) == Some("input"@),
            !self.active && (self.screen matches Some(s) && s.scrollback > 0) ==> text_view(r)
                == Some(decimal(self.screen->0.scrollback as nat) + " up"@),
            !self.active && !(self.screen matches Some(s) && s.scrollback > 0) ==> text_view(r)
                == match self.phase {
                Phase::Starting => Some("starting"@),
                Phase::Exited(_) => Some("exited"@),
                Phase::Failed(_) => Some("error"@),
                Phase::Running => None,
            },
    {
        if self.active {
            return Some(owned("input"));
        }
        match &self.screen {
            Some(s) => {
                if s.scrollback > 0 {
                    return Some(join2(decimal_text(s.scrollback as u64).as_str(), " up"));
                }
            },
            None => {},
        }
        match &self.phase {
            Phase::Starting => Some(owned("starting")),
            Phase::Exited(_) => Some(owned("exited")),
            Phase::Failed(_) => Some(owned("error")),
            Phase::Running => None,
        }
    }

    /// What the panel says while it has no screen to show.
    pub fn phase_message(&self) -> (r: String)
        ensures
            r@ == match self.phase {
                Phase::Starting => "Starting the shell…"@,
                Phase::Running => "Waiting for the shell…"@,
                Phase::Exited(s) => "Shell exited ("@ + s@ + "). Press r to restart it."@,
                Phase::Failed(e) => e@ + "\n\nPress r to start a new shell."@,
            },
    {
        match &self.phase {
            Phase::Starting => owned("Starting the shell…"),
            Phase::Running => owned("Waiting for the shell…"),
            Phase::Exited(s) => join3("Shell exited (", s.as_str(), "). Press r to restart it."),
            Phase::Failed(e) => join2(e.as_str(), "\n\nPress r to start a new shell."),
        }
    }

    /// Whether the panel shows its phase message rather than the screen: on
    /// failure, and until a first screen arrives unless the shell is running.
    pub fn shows_message(&self) -> (r: bool)
        ensures
            r == (self.phase is Failed || (self.screen is None && !(self.phase is Running))),
    {
        match &self.phase {
            Phase::Failed(_) => true,
            Phase::Running => false,
            _ => self.screen.is_none(),
        }
    }

    /// Whether the child's cursor is drawn: only while engaged and focused,
    /// at the live screen, when the child has not hidden it.
    pub fn cursor_visible(&self, focused: bool) -> (r: bool)
        ensures
            r == (self.active && focused && (self.screen matches Some(s) && !s.hide_cursor
                && s.scrollback == 0)),
    {
        if !self.active || !focused {
            return false;
        }
        match &self.screen {
            Some(s) => !s.hide_cursor && s.scrollback == 0,
            None => false,
        }
    }

    /// The keys the border shows: how to engage the terminal when it is
    /// released, and how to get back to the dashboard when it is engaged.
    pub fn bindings(&self) -> (r: Vec<Binding>)
        ensures
            r@.len() == 3,
            self.active ==> r@[0].key@ == "Ctrl+G"@ && r@[0].action@ == "dashboard"@ && r@[0].primary
                && r@[1].key@ == "Ctrl+C"@ && r@[1].action@ == "interrupt; twice quits"@
                && r@[1].primary && r@[2].key@ == "Shift+PgUp / PgDn"@ && r@[2].action@
                == "scroll output"@ && !r@[2].primary,
            !self.active ==> r@[0].key@ == "↵"@ && r@[0].action@ == "use terminal"@ && r@[0].primary
                && r@[1].key@ == "Shift+PgUp / PgDn"@ && r@[1].action@ == "scroll output"@
                && !r@[1].primary && r@[2].key@ == "r"@ && r@[2].action@
                == "restart an exited shell"@ && !r@[2].primary,
    {
        if self.active {
            vec![
                Binding::primary("Ctrl+G", "dashboard"),
                Binding::primary("Ctrl+C", "interrupt; twice quits"),
                Binding::extra("Shift+PgUp / PgDn", "scroll output"),
            ]
        } else {
            vec![
                Binding::primary("↵", "use terminal"),
                Binding::extra("Shift+PgUp / PgDn", "scroll output"),
                Binding::extra("r", "restart an exited shell"),
            ]
        }
    }
}

/// Ctrl+C twice always quits: once the child has had one, the next falls
/// through to the dashboard.
pub proof fn one_interrupt_disarms_the_terminal(before: TerminalPanel, after: TerminalPanel, r: KeyOutcome)
    requires
        interruptible(before),
        interrupt_delivered(before, true, after, r),
    ensures
        r == KeyOutcome::Consumed,
        !interruptible(after),
{
}

/// Any other key reaching an engaged panel re-arms Ctrl+C.
pub proof fn other_input_rearms_the_interrupt(
    before: TerminalPanel,
    key: KeyPress,
    after: TerminalPanel,
    step: TermStep,
)
    requires
        before.active,
        keyed(before, key, after, step),
    ensures
        after.interrupt_ready,
{
}

/// An engaged panel never lets a key fall through to the dashboard, and
/// Ctrl+G always hands the keyboard back.
pub proof fn an_engaged_terminal_keeps_every_key(
    before: TerminalPanel,
    key: KeyPress,
    after: TerminalPanel,
    step: TermStep,
)
    requires
        before.active,
        keyed(before, key, after, step),
    ensures
        step != TermStep::Ignored,
        key.modifiers.control && !key.modifiers.shift && is_char(key.code, 'g') ==> !after.active,
{
}

/// A released panel takes only Enter (to engage a running shell), `r` (to
/// restart a finished one) and the shifted paging keys.
pub proof fn a_released_terminal_takes_only_its_own_keys(
    before: TerminalPanel,
    key: KeyPress,
    after: TerminalPanel,
    step: TermStep,
)
    requires
        !before.active,
        keyed(before, key, after, step),
        !(key.modifiers.shift && (key.code == KeyCode::PageUp || key.code == KeyCode::PageDown)),
        !(key.code == KeyCode::Enter && running(before)),
        !(is_char(key.code, 'r') && finished(before)),
    ensures
        step == TermStep::Ignored,
        after == before,
{
}

/// The terminal's own keys: Shift+Page Up scrolls back through the output
/// by a page (the rows less one) and Shift+Page Down forward; Enter engages
/// a released, running shell; `r` restarts a finished one; Ctrl+G lets an
/// engaged one go; and any other key on an engaged panel is sent to the
/// shell as its bytes.
pub proof fn the_terminal_keys_do_what_they_say(
    before: TerminalPanel,
    key: KeyPress,
    after: TerminalPanel,
    step: TermStep,
)
    requires
        keyed(before, key, after, step),
    ensures
        key.modifiers.shift && key.code == KeyCode::PageUp ==> (step matches TermStep::Scroll(n)
            && n >= 1 && (before.size.rows > 1 ==> n == before.size.rows - 1)),
        key.modifiers.shift && key.code == KeyCode::PageDown ==> (step matches TermStep::Scroll(n)
            && n <= -1 && (before.size.rows > 1 ==> n == 1 - before.size.rows)),
        !key.modifiers.shift && key.code == KeyCode::Enter && !before.active && running(before)
            ==> after.active && step is Send,
        !key.modifiers.shift && is_char(key.code, 'r') && !before.active && finished(before)
            ==> step == TermStep::Restart,
        before.active && key.modifiers.control && !key.modifiers.shift && is_char(key.code, 'g')
            ==> !after.active && step == TermStep::Consumed,
        before.active && !key.modifiers.control && !key.modifiers.shift ==> after.active && match key_spec(
            key,
            application_cursor(before),
            before.crlf,
        ) {
            Some(bytes) => step matches TermStep::Send(TerminalControl::Input(b)) && b@ == bytes,
            None => step == TermStep::Consumed,
        },
{
}

/// Why a shell could not be started, naming what was tried.
pub fn describe_start_error(command: &Vec<String>) -> (r: String)
    ensures
        command@.len() > 0 ==> r@ == "starting `[terminal].command` program `"@ + command@[0]@
            + "`; check that it is installed and on PATH"@,
        command@.len() == 0 ==> r@
            == "starting the platform's default shell; set `[terminal].command` to an installed program"@,
{
    if command.len() > 0 {
        join3(
            "starting `[terminal].command` program `",
            command[0].as_str(),
            "`; check that it is installed and on PATH",
        )
    } else {
        owned(
            "starting the platform's default shell; set `[terminal].command` to an installed program",
        )
    }
}

/// The scroll position after moving `delta` lines: back for positive, toward
/// the live screen for negative, stopping at either end of the counter.
pub fn scrolled(current: usize, delta: i32) -> (r: usize)
    ensures
        delta >= 0 ==> r == if current + delta > usize::MAX {
            usize::MAX as int
        } else {
            current + delta
        },
        delta < 0 ==> r == if current + delta < 0 {
            0
        } else {
            current + delta
        },
{
    if delta >= 0 {
        let distance = delta as u32 as usize;
        current.saturating_add(distance)
    } else {
        let distance = if delta == -2147483648i32 {
            2147483648usize
        } else {
            (-delta) as u32 as usize
        };
        current.saturating_sub(distance)
    }
}

/// Where the cursor is drawn in a screen scrolled back by `scrollback`
/// lines: that many rows further down, stopping at the last row a `u16` can
/// name.
pub fn snapshot_cursor(row: u16, col: u16, scrollback: usize) -> (r: (u16, u16))
    ensures
        r.1 == col,
        r.0 == if row + (if scrollback > u16::MAX { u16::MAX as int } else { scrollback as int })
            > u16::MAX {
            u16::MAX as int
        } else {
            row + (if scrollback > u16::MAX { u16::MAX as int } else { scrollback as int })
        },
{
    let offset: u16 = if scrollback > 65535 {
        65535
    } else {
        scrollback as u16
    };
    (row.saturating_add(offset), col)
}

/// Where the cell at `row`, `col` sits in a screen of `rows` by `cols`
/// stored row by row, or `None` outside the screen.
pub fn cell_index(rows: u16, cols: u16, row: u16, col: u16) -> (r: Option<usize>)
    ensures
        row < rows && col < cols ==> (r matches Some(i) && i == row * cols + col),
        !(row < rows && col < cols) ==> r is None,
{
    if row >= rows || col >= cols {
        return None;
    }
    assert(row * cols + col < 65536 * 65536) by (nonlinear_arith)
        requires
            row < rows <= 65535,
            col < cols <= 65535,
    ;
    Some(row as usize * cols as usize + col as usize)
}

} // verus!
