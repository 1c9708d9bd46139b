//! The host's side of one external panel: what it has taken over from the
//! reader of the plugin's output, and which input it lets through.
//!
//! Process failures are panel state, never application failures. The shell
//! owns the process and the pipes; it asks this state what to send, sends
//! it, and reports back whether the plugin's queue accepted it.

use vstd::prelude::*;
use crate::config::PluginConfig;
use crate::keys::{Area, KeyCode, KeyPress, MouseEvent};
use crate::panel::{Binding, KeyOutcome};
use crate::plugin::names::{
    button_name, canonical_key, canonical_name, code_name, key_code, key_modifiers, kind_button,
    kind_name, modifier_names, mouse_kind, names_view,
};
use crate::plugin::shared::{Phase, PhaseView, Shared, DEFAULT_REFRESH_MS};
use crate::plugin::wire::{
    copy_text, frame_view, passive_view, text_view, texts_view, BindingView, InputPolicy,
    PolicyView, WireFrame,
};
use crate::text::{join2, owned, push_char, same_text};
use crate::watch::{now_nanos, representable, Event};

verus! {

broadcast use vstd::string::group_string_axioms;

/// A message from the host to a plugin, before it is encoded as a JSON line.
/// The greeting that opens a session is composed where the process is
/// started, since it carries the plugin's configuration table.
#[derive(Debug, Clone, PartialEq, Eq)]
pub enum HostMessage {
    Resize { columns: u16, rows: u16 },
    Focus { focused: bool },
    Key { key: String, code: String, text: Option<String>, modifiers: Vec<String> },
    Interrupt,
    Paste { text: String },
    Mouse {
        kind: String,
        button: Option<String>,
        column: u16,
        row: u16,
        modifiers: Vec<String>,
    },
    Tick,
    Shutdown,
}

/// What the host knows of one plugin, and what it lets through to it.
#[derive(Debug)]
pub struct PluginPanel {
    /// The id the config gave the plugin; the source of its watch events.
    pub id: String,
    /// The generation of the shared state last taken over.
    pub seen_generation: u64,
    pub phase: Phase,
    pub title: String,
    pub refresh_ms: u64,
    pub frame: Option<WireFrame>,
    pub bindings: Vec<Binding>,
    pub policy: InputPolicy,
    pub notice: Option<String>,
    /// Revision whose passive key action is awaiting a new frame. Until that
    /// acknowledgement arrives, subsequent input is conservatively captured
    /// so a rapid `Enter`, `q` cannot cross an asynchronous mode transition.
    pub input_barrier: Option<u64>,
    pub interrupt_armed: bool,
    pub last_size: Option<(u16, u16)>,
    pub last_focus: Option<bool>,
}

/// What the host does with a key press.
#[derive(Debug, Clone, PartialEq, Eq)]
pub enum KeyStep {
    /// The plugin is gone and `r` starts it again: the state has been reset,
    /// and the shell starts a new process. The key is consumed.
    Restart,
    /// The panel does not want the key; global bindings may have it.
    Ignore,
    /// Send this to the plugin. The key is consumed whether or not the
    /// plugin's queue takes it.
    Send(HostMessage),
}

/// The process has exited or failed.
pub open spec fn over(p: Phase) -> bool {
    p is Exited || p is Failed
}

/// Whether a Ctrl+C may go to the plugin under this policy and barrier.
pub open spec fn interruptible(policy: PolicyView, barrier: Option<u64>) -> bool {
    policy.interrupt || barrier is Some
}

/// Whether every key goes to the plugin under this policy and barrier.
pub open spec fn capturing(policy: PolicyView, barrier: Option<u64>) -> bool {
    policy.capture || barrier is Some
}

/// A binding as the help and the border show it.
pub open spec fn shown(b: Binding) -> BindingView {
    BindingView { key: b.key@, action: b.action@, primary: b.primary }
}

pub open spec fn bindings_shown(v: Seq<Binding>) -> Seq<BindingView> {
    v.map_values(|b: Binding| shown(b))
}

/// The binding offered once the process is gone.
pub open spec fn restart_binding() -> BindingView {
    BindingView { key: "r"@, action: "restart"@, primary: true }
}

/// The barrier once a frame of `revision` arrives: a newer frame
/// acknowledges the pending action, and a finished process has nothing
/// pending.
pub open spec fn barrier_after(barrier: Option<u64>, revision: u64, finished: bool) -> Option<u64> {
    if finished {
        None
    } else {
        match barrier {
            Some(r) => if revision > r {
                None
            } else {
                Some(r)
            },
            None => None,
        }
    }
}

/// The interrupt arms when it becomes possible, disarms when it stops being
/// possible, and otherwise stays as it was.
pub open spec fn armed_after(could: bool, can: bool, armed: bool) -> bool {
    if !could && can {
        true
    } else if !can {
        false
    } else {
        armed
    }
}

/// The title: the frame's, else the one `ready` gave, else the old one.
pub open spec fn title_after(
    title: Seq<char>,
    ready_title: Option<Seq<char>>,
    frame_title: Option<Seq<char>>,
) -> Seq<char> {
    match frame_title {
        Some(t) => t,
        None => match ready_title {
            Some(t) => t,
            None => title,
        },
    }
}

/// What taking over `shared` does to the panel `before`, and whether there
/// was anything new.
pub open spec fn synced(before: PluginPanel, shared: Shared, after: PluginPanel, changed: bool) -> bool {
    if shared.generation == before.seen_generation {
        !changed && after == before
    } else {
        let finished = over(shared.phase);
        let tail = if finished {
            seq![restart_binding()]
        } else {
            Seq::<BindingView>::empty()
        };
        &&& changed
        &&& after.id == before.id
        &&& after.seen_generation == shared.generation
        &&& after.phase@ == shared.phase@
        &&& after.refresh_ms == shared.refresh_ms
        &&& text_view(after.notice) == text_view(shared.notice)
        &&& frame_view(after.frame) == frame_view(shared.frame)
        &&& after.last_size == before.last_size
        &&& after.last_focus == before.last_focus
        &&& match shared.frame {
            Some(f) => {
                let barrier = barrier_after(before.input_barrier, f.revision, finished);
                &&& after.policy@ == f.input@
                &&& after.input_barrier == barrier
                &&& after.interrupt_armed == armed_after(
                    interruptible(before.policy@, before.input_barrier),
                    interruptible(f.input@, barrier),
                    before.interrupt_armed,
                )
                &&& bindings_shown(after.bindings@) == f@.bindings + tail
                &&& after.title@ == title_after(before.title@, text_view(shared.title), f@.title)
            },
            None => {
                &&& after.policy@ == passive_view()
                &&& after.input_barrier is None
                &&& !after.interrupt_armed
                &&& bindings_shown(after.bindings@) == tail
                &&& after.title@ == title_after(before.title@, text_view(shared.title), None)
            },
        }
    }
}

/// `after` is `before` set back to a fresh start: nothing taken over yet and
/// no input wanted. The id, title and refresh stay.
pub open spec fn restarted(before: PluginPanel, after: PluginPanel) -> bool {
    &&& after == PluginPanel {
        seen_generation: u64::MAX,
        phase: Phase::Starting,
        frame: None,
        bindings: after.bindings,
        policy: after.policy,
        notice: None,
        input_barrier: None,
        interrupt_armed: false,
        last_size: None,
        last_focus: None,
        ..before
    }
    &&& after.bindings@.len() == 0
    &&& after.policy@ == passive_view()
}

/// `after` is `before` with the interrupt armed exactly when it is possible.
pub open spec fn rearmed(before: PluginPanel, after: PluginPanel) -> bool {
    after == PluginPanel {
        interrupt_armed: interruptible(before.policy@, before.input_barrier),
        ..before
    }
}

/// The text a key press types, if it types one.
pub open spec fn typed(code: KeyCode) -> Option<Seq<char>> {
    match code {
        KeyCode::Char(c) => Some(seq![c]),
        _ => None,
    }
}

/// `m` is the key message for `key`.
pub open spec fn key_message(key: KeyPress, m: HostMessage) -> bool {
    &&& m matches HostMessage::Key { key: k, code, text, modifiers }
    &&& k@ == canonical_name(key)
    &&& code@ == code_name(key.code)
    &&& text_view(text) == typed(key.code)
    &&& names_view(modifiers@) == modifier_names(key.modifiers)
}

/// `a - b`, or zero when `b` is larger.
pub open spec fn less(a: u16, b: u16) -> u16 {
    if a >= b {
        (a - b) as u16
    } else {
        0
    }
}

/// `m` is the mouse message for `event`, with its cell made relative to `area`.
pub open spec fn mouse_message(event: MouseEvent, area: Area, m: HostMessage) -> bool {
    &&& m matches HostMessage::Mouse { kind, button, column, row, modifiers }
    &&& kind@ == kind_name(event.kind)
    &&& text_view(button) == match kind_button(event.kind) {
        Some(b) => Some(button_name(b)),
        None => None,
    }
    &&& column == less(event.column, area.x)
    &&& row == less(event.row, area.y)
    &&& names_view(modifiers@) == modifier_names(event.modifiers)
}

/// The size a panel reports: its area, at least one cell each way.
pub open spec fn reported_size(width: u16, height: u16) -> (u16, u16) {
    (if width == 0 { 1 } else { width }, if height == 0 { 1 } else { height })
}

/// What a key press does to `before`: a finished process restarts on `r`;
/// otherwise the key goes to the plugin if the panel captures or names it,
/// and falls through if not.
pub open spec fn keyed(before: PluginPanel, key: KeyPress, after: PluginPanel, step: KeyStep) -> bool {
    let c = canonical_name(key);
    if over(before.phase) && c == "r"@ {
        step is Restart && restarted(before, after)
    } else if !capturing(before.policy@, before.input_barrier) && !before.policy@.keys.contains(c) {
        step is Ignore && after == before
    } else {
        &&& step matches KeyStep::Send(m) && key_message(key, m)
        &&& rearmed(before, after)
    }
}

/// What a Ctrl+C does to `before`: taken, and disarmed, when it is possible
/// and armed; otherwise it falls through and nothing changes.
pub open spec fn interrupted(before: PluginPanel, after: PluginPanel, r: KeyOutcome) -> bool {
    if interruptible(before.policy@, before.input_barrier) && before.interrupt_armed {
        r == KeyOutcome::Consumed && after == PluginPanel { interrupt_armed: false, ..before }
    } else {
        r == KeyOutcome::Ignored && after == before
    }
}

/// What a queued passive key does to `before`: with no capture, no barrier
/// yet and a frame on screen, input is held until a newer frame, and a
/// Ctrl+C may cancel the pending action; otherwise nothing changes.
pub open spec fn barrier_begun(before: PluginPanel, after: PluginPanel) -> bool {
    if !before.policy.capture && before.input_barrier is None && before.frame is Some {
        after == PluginPanel {
            input_barrier: Some(before.frame->0.revision),
            interrupt_armed: true,
            ..before
        }
    } else {
        after == before
    }
}

/// Whether the list of keys names `c`.
fn lists(keys: &Vec<String>, c: &str) -> (r: bool)
    ensures
        r == texts_view(keys@).contains(c@),
{
    let mut i: usize = 0;
    while i < keys.len()
        invariant
            i <= keys.len(),
            forall|k: int| 0 <= k < i ==> #[trigger] keys@[k]@ != c@,
        decreases keys.len() - i,
    {
        if same_text(keys[i].as_str(), c) {
            assert(texts_view(keys@)[i as int] == c@);
            return true;
        }
        i = i + 1;
    }
    proof {
        if texts_view(keys@).contains(c@) {
            let k = choose|k: int| 0 <= k < texts_view(keys@).len() && texts_view(keys@)[k] == c@;
            assert(keys@[k]@ == c@);
        }
    }
    false
}

impl PluginPanel {
    /// A panel for the declared plugin, before its process has said
    /// anything. Its title is its id until the plugin names itself.
    pub fn new(spec: PluginConfig) -> (p: Self)
        ensures
            p.id == spec.id,
            p.title == spec.id,
            p.seen_generation == u64::MAX,
            p.phase == Phase::Starting,
            p.refresh_ms == DEFAULT_REFRESH_MS,
            p.frame is None,
            p.bindings@.len() == 0,
            p.policy@ == passive_view(),
            p.notice is None,
            p.input_barrier is None,
            !p.interrupt_armed,
            p.last_size is None,
            p.last_focus is None,
    {
        let id = spec.id;
        PluginPanel {
            title: id.clone(),
            id,
            seen_generation: u64::MAX,
            phase: Phase::Starting,
            refresh_ms: DEFAULT_REFRESH_MS,
            frame: None,
            bindings: Vec::new(),
            policy: InputPolicy::passive(),
            notice: None,
            input_barrier: None,
            interrupt_armed: false,
            last_size: None,
            last_focus: None,
        }
    }

    /// Forget everything the old process said, before a new one starts.
    pub fn restart(&mut self)
        ensures
            restarted(*old(self), *final(self)),
    {
        self.seen_generation = u64::MAX;
        self.phase = Phase::Starting;
        self.frame = None;
        self.bindings = Vec::new();
        self.policy = InputPolicy::passive();
        self.notice = None;
        self.input_barrier = None;
        self.interrupt_armed = false;
        self.last_size = None;
        self.last_focus = None;
    }

    /// Whether a Ctrl+C may go to the plugin now.
    pub fn accepts_interrupt(&self) -> (r: bool)
        ensures
            r == interruptible(self.policy@, self.input_barrier),
    {
        self.policy.interrupt || self.input_barrier.is_some()
    }

    /// Whether every key goes to the plugin now, global bindings included.
    pub fn captures_input(&self) -> (r: bool)
        ensures
            r == capturing(self.policy@, self.input_barrier),
    {
        self.policy.capture || self.input_barrier.is_some()
    }

    /// Arm the interrupt again after other input, when one is possible.
    pub fn rearm_interrupt(&mut self)
        ensures
            rearmed(*old(self), *final(self)),
    {
        self.interrupt_armed = self.accepts_interrupt();
    }

    /// A passive key was queued: hold further input until a newer frame
    /// acknowledges it. Nothing changes while capturing, while a barrier is
    /// already up, or before the first frame.
    pub fn begin_input_barrier(&mut self)
        ensures
            barrier_begun(*old(self), *final(self)),
    {
        if self.policy.capture || self.input_barrier.is_some() {
            return;
        }
        let revision = match &self.frame {
            Some(frame) => frame.revision,
            None => {
                return;
            },
        };
        self.input_barrier = Some(revision);
        self.interrupt_armed = true;
    }

    /// Take over what the reader has gathered, if anything changed since the
    /// last time, and report whether it did.
    pub fn sync(&mut self, shared: &Shared) -> (changed: bool)
        ensures
            synced(*old(self), *shared, *final(self), changed),
    {
        if shared.generation == self.seen_generation {
            return false;
        }
        self.seen_generation = shared.generation;
        self.phase = shared.phase.copy();
        self.refresh_ms = shared.refresh_ms;
        self.notice = copy_text(&shared.notice);
        match &shared.title {
            Some(t) => {
                self.title = t.clone();
            },
            None => {},
        }
        let finished = self.phase.is_over();
        match &shared.frame {
            Some(frame) => {
                let could = self.accepts_interrupt();
                self.policy = frame.input.copy();
                match self.input_barrier {
                    Some(r) => {
                        if frame.revision > r {
                            self.input_barrier = None;
                        }
                    },
                    None => {},
                }
                if finished {
                    self.input_barrier = None;
                }
                let can = self.accepts_interrupt();
                if !could && can {
                    self.interrupt_armed = true;
                } else if !can {
                    self.interrupt_armed = false;
                }
                let mut bindings: Vec<Binding> = Vec::new();
                let mut i: usize = 0;
                while i < frame.bindings.len()
                    invariant
                        i <= frame.bindings.len(),
                        bindings@.len() == i,
                        forall|k: int|
                            0 <= k < i ==> shown(#[trigger] bindings@[k]) == frame.bindings@[k]@,
                    decreases frame.bindings.len() - i,
                {
                    let b = &frame.bindings[i];
                    bindings.push(Binding::owned(b.key.clone(), b.action.clone(), b.primary));
                    i = i + 1;
                }
                assert(bindings_shown(bindings@) =~= frame@.bindings);
                self.bindings = bindings;
                match &frame.title {
                    Some(t) => {
                        self.title = t.clone();
                    },
                    None => {},
                }
            },
            None => {
                self.policy = InputPolicy::passive();
                self.input_barrier = None;
                self.interrupt_armed = false;
                self.bindings = Vec::new();
                assert(bindings_shown(self.bindings@) =~= Seq::<BindingView>::empty());
            },
        }
        let ghost head = bindings_shown(self.bindings@);
        if finished {
            self.bindings.push(Binding::primary("r", "restart"));
            assert(bindings_shown(self.bindings@) =~= head + seq![restart_binding()]);
        } else {
            assert(bindings_shown(self.bindings@) =~= head + Seq::<BindingView>::empty());
        }
        self.frame = match &shared.frame {
            Some(f) => Some(f.copy()),
            None => None,
        };
        true
    }

    /// Decide what a key press does. A plugin that captures input, or has a
    /// passive action pending, gets every key, so a stalled process cannot
    /// turn its queued `q` into the global quit key.
    pub fn handle_key(&mut self, key: &KeyPress) -> (step: KeyStep)
        ensures
            keyed(*old(self), *key, *final(self), step),
    {
        let canonical = canonical_key(key);
        if self.phase.is_over() && same_text(canonical.as_str(), "r") {
            self.restart();
            return KeyStep::Restart;
        }
        if !self.policy.capture && self.input_barrier.is_none() && !lists(
            &self.policy.keys,
            canonical.as_str(),
        ) {
            return KeyStep::Ignore;
        }
        self.rearm_interrupt();
        let text = match &key.code {
            KeyCode::Char(c) => {
                let mut s = String::new();
                push_char(&mut s, *c);
                assert(s@ =~= seq![*c]);
                Some(s)
            },
            _ => None,
        };
        KeyStep::Send(
            HostMessage::Key {
                key: canonical,
                code: key_code(&key.code),
                text,
                modifiers: key_modifiers(&key.modifiers),
            },
        )
    }

    /// Decide whether a Ctrl+C goes to the plugin. It is taken once, then
    /// not again until other input arrives; `Consumed` means send
    /// [`HostMessage::Interrupt`].
    pub fn handle_interrupt(&mut self) -> (r: KeyOutcome)
        ensures
            interrupted(*old(self), *final(self), r),
    {
        if !self.accepts_interrupt() || !self.interrupt_armed {
            return KeyOutcome::Ignored;
        }
        self.interrupt_armed = false;
        KeyOutcome::Consumed
    }

    /// Decide whether pasted text goes to the plugin; `None` lets it fall
    /// through.
    pub fn handle_paste(&mut self, text: &str) -> (r: Option<HostMessage>)
        ensures
            !old(self).policy.paste && old(self).input_barrier is None ==> r is None && *final(self)
                == *old(self),
            old(self).policy.paste || old(self).input_barrier is Some ==> {
                &&& r matches Some(HostMessage::Paste { text: t }) && t@ == text@
                &&& rearmed(*old(self), *final(self))
            },
    {
        if !self.policy.paste && self.input_barrier.is_none() {
            return None;
        }
        self.rearm_interrupt();
        Some(HostMessage::Paste { text: owned(text) })
    }

    /// Decide whether a mouse event goes to the plugin, with its cell made
    /// relative to the panel's `area`; `None` lets it fall through.
    pub fn handle_mouse(&mut self, event: &MouseEvent, area: &Area) -> (r: Option<HostMessage>)
        ensures
            !old(self).policy.mouse && old(self).input_barrier is None ==> r is None && *final(self)
                == *old(self),
            old(self).policy.mouse || old(self).input_barrier is Some ==> {
                &&& r matches Some(m) && mouse_message(*event, *area, m)
                &&& rearmed(*old(self), *final(self))
            },
    {
        if !self.policy.mouse && self.input_barrier.is_none() {
            return None;
        }
        self.rearm_interrupt();
        let (kind, button) = mouse_kind(event.kind);
        let column = if event.column >= area.x {
            event.column - area.x
        } else {
            0
        };
        let row = if event.row >= area.y {
            event.row - area.y
        } else {
            0
        };
        Some(
            HostMessage::Mouse {
                kind,
                button,
                column,
                row,
                modifiers: key_modifiers(&event.modifiers),
            },
        )
    }

    /// The resize to send for an area of `width` by `height`, unless the
    /// plugin already has that size.
    pub fn resize_message(&self, width: u16, height: u16) -> (r: Option<HostMessage>)
        ensures
            self.last_size == Some(reported_size(width, height)) ==> r is None,
            self.last_size != Some(reported_size(width, height)) ==> r == Some(
                HostMessage::Resize {
                    columns: reported_size(width, height).0,
                    rows: reported_size(width, height).1,
                },
            ),
    {
        let columns: u16 = if width == 0 {
            1
        } else {
            width
        };
        let rows: u16 = if height == 0 {
            1
        } else {
            height
        };
        let same = match self.last_size {
            Some((c, r)) => c == columns && r == rows,
            None => false,
        };
        if same {
            None
        } else {
            Some(HostMessage::Resize { columns, rows })
        }
    }

    /// The plugin's queue took a resize to `columns` by `rows`.
    pub fn resized(&mut self, columns: u16, rows: u16)
        ensures
            *final(self) == (PluginPanel { last_size: Some((columns, rows)), ..*old(self) }),
    {
        self.last_size = Some((columns, rows));
    }

    /// The focus change to send, unless the plugin already knows.
    pub fn focus_message(&self, focused: bool) -> (r: Option<HostMessage>)
        ensures
            self.last_focus == Some(focused) ==> r is None,
            self.last_focus != Some(focused) ==> r == Some(HostMessage::Focus { focused }),
    {
        let same = match self.last_focus {
            Some(f) => f == focused,
            None => false,
        };
        if same {
            None
        } else {
            Some(HostMessage::Focus { focused })
        }
    }

    /// The plugin's queue took a focus change.
    pub fn focused(&mut self, focused: bool)
        ensures
            *final(self) == (PluginPanel { last_focus: Some(focused), ..*old(self) }),
    {
        self.last_focus = Some(focused);
    }

    /// Hand over the watch events the plugin has sent, oldest first, each
    /// under this panel's id and stamped with one reading of the clock, and
    /// empty the queue. When the clock reads a time that cannot be
    /// represented, nothing is handed over and the queue is kept for later.
    pub fn events(&self, shared: &mut Shared) -> (r: Option<Vec<Event>>)
        ensures
            match r {
                Some(v) => {
                    &&& v@.len() == old(shared).watch@.len()
                    &&& forall|i: int|
                        0 <= i < v@.len() ==> #[trigger] v@[i].source == self.id && v@[i].text
                            == old(shared).watch@[i] && v@[i].at == v@[0].at && representable(
                            v@[i].at,
                        )
                    &&& final(shared).watch@.len() == 0
                    &&& *final(shared) == (Shared { watch: final(shared).watch, ..*old(shared) })
                },
                None => *final(shared) == *old(shared),
            },
    {
        let at = match now_nanos() {
            Some(t) => t,
            None => {
                return None;
            },
        };
        let mut r: Vec<Event> = Vec::new();
        let ghost queued = shared.watch@;
        loop
            invariant
                r@.len() + shared.watch@.len() == queued.len(),
                shared.watch@ == queued.subrange(r@.len() as int, queued.len() as int),
                representable(at),
                forall|i: int|
                    0 <= i < r@.len() ==> #[trigger] r@[i].source == self.id && r@[i].text
                        == queued[i] && r@[i].at == at,
                *shared == (Shared { watch: shared.watch, ..*old(shared) }),
                queued == old(shared).watch@,
            ensures
                shared.watch@.len() == 0,
            decreases shared.watch@.len(),
        {
            match shared.watch.pop_front() {
                Some(text) => {
                    r.push(Event::at(at, self.id.clone(), text));
                },
                None => {
                    break;
                },
            }
        }
        assert(r@.len() > 0 ==> r@[0].source == self.id && r@[0].at == at);
        Some(r)
    }

    /// Where the terminal cursor goes for this panel drawn in `area`: the
    /// frame's cursor, when the panel is focused, the cursor is visible and it
    /// falls inside the area.
    pub fn cursor_position(&self, focused: bool, area: &Area) -> (r: Option<(u16, u16)>)
        requires
            area.x + area.width <= u16::MAX,
            area.y + area.height <= u16::MAX,
        ensures
            ({
                let shown = focused && (self.frame matches Some(f) && f.cursor matches Some(c) && c.visible
                    && c.column < area.width && c.row < area.height);
                &&& !shown ==> r is None
                &&& shown ==> r == Some(
                    (
                        (area.x + self.frame->0.cursor->0.column) as u16,
                        (area.y + self.frame->0.cursor->0.row) as u16,
                    ),
                )
            }),
    {
        if !focused {
            return None;
        }
        match &self.frame {
            Some(f) => match f.cursor {
                Some(c) => {
                    if c.visible && c.column < area.width && c.row < area.height {
                        Some((area.x + c.column, area.y + c.row))
                    } else {
                        None
                    }
                },
                None => None,
            },
            None => None,
        }
    }

    /// The panel is being closed.
    pub fn shutdown(&mut self)
        ensures
            *final(self) == (PluginPanel { phase: Phase::Stopping, ..*old(self) }),
    {
        self.phase = Phase::Stopping;
    }

    /// What the border's counter shows: the life stage while there is no
    /// session, and the frame's own counter while there is.
    pub fn counter(&self) -> (r: Option<String>)
        ensures
            self.phase is Starting ==> text_view(r) == Some("starting"@),
            self.phase is Exited ==> text_view(r) == Some("exited"@),
            self.phase is Failed ==> text_view(r) == Some("failed"@),
            self.phase is Running || self.phase is Stopping ==> text_view(r) == match self.frame {
                Some(f) => text_view(f.counter),
                None => None,
            },
    {
        match &self.phase {
            Phase::Starting => Some(owned("starting")),
            Phase::Exited(_) => Some(owned("exited")),
            Phase::Failed(_) => Some(owned("failed")),
            Phase::Running | Phase::Stopping => match &self.frame {
                Some(f) => copy_text(&f.counter),
                None => None,
            },
        }
    }

    /// What the panel says while it has no frame to show: a headline, and
    /// for a finished process what happened and how to start it again.
    pub fn status_text(&self) -> (r: (String, Option<String>))
        ensures
            r.0@ == match self.phase@ {
                PhaseView::Starting => "starting plugin"@,
                PhaseView::Running => "waiting for first frame"@,
                PhaseView::Stopping => "stopping plugin"@,
                PhaseView::Exited(_) => "plugin exited"@,
                PhaseView::Failed(_) => "plugin failed"@,
            },
            text_view(r.1) == match self.phase@ {
                PhaseView::Exited(s) => Some(s + "; press r to restart"@),
                PhaseView::Failed(s) => Some(s + "; press r to retry"@),
                _ => None,
            },
    {
        match &self.phase {
            Phase::Starting => (owned("starting plugin"), None),
            Phase::Running => (owned("waiting for first frame"), None),
            Phase::Stopping => (owned("stopping plugin"), None),
            Phase::Exited(status) => (
                owned("plugin exited"),
                Some(join2(status.as_str(), "; press r to restart")),
            ),
            Phase::Failed(error) => (
                owned("plugin failed"),
                Some(join2(error.as_str(), "; press r to retry")),
            ),
        }
    }

    /// The line drawn over the bottom of a frame: the plugin's notice as a
    /// warning, else how a finished process ended as an error. The flag is
    /// true for a warning.
    pub fn footer(&self) -> (r: Option<(String, bool)>)
        ensures
            self.notice matches Some(n) ==> r matches Some((t, warning)) && t@ == n@ && warning,
            self.notice is None ==> match self.phase@ {
                PhaseView::Exited(s) | PhaseView::Failed(s) => r matches Some((t, warning)) && t@
                    == s && !warning,
                _ => r is None,
            },
    {
        match &self.notice {
            Some(n) => Some((n.clone(), true)),
            None => match &self.phase {
                Phase::Exited(s) | Phase::Failed(s) => Some((s.clone(), false)),
                _ => None,
            },
        }
    }
}

/// Ctrl+C is locally one-shot: once a panel has taken one, the next falls
/// through until other input arrives.
pub proof fn interrupt_is_one_shot(
    p: PluginPanel,
    q: PluginPanel,
    first: KeyOutcome,
    s: PluginPanel,
    second: KeyOutcome,
)
    requires
        interrupted(p, q, first),
        first == KeyOutcome::Consumed,
        interrupted(q, s, second),
    ensures
        second == KeyOutcome::Ignored,
{
}

/// A key sent to a panel that accepts an interrupt arms it again: the next
/// Ctrl+C is taken.
pub proof fn a_sent_key_rearms_the_interrupt(
    p: PluginPanel,
    key: KeyPress,
    q: PluginPanel,
    step: KeyStep,
    s: PluginPanel,
    r: KeyOutcome,
)
    requires
        keyed(p, key, q, step),
        step is Send,
        interruptible(p.policy@, p.input_barrier),
        interrupted(q, s, r),
    ensures
        r == KeyOutcome::Consumed,
{
}

/// A panel that captures input, or has a passive action pending, never lets
/// a key fall through to the global bindings.
pub proof fn capture_never_falls_through(p: PluginPanel, key: KeyPress, q: PluginPanel, step: KeyStep)
    requires
        keyed(p, key, q, step),
        capturing(p.policy@, p.input_barrier),
    ensures
        !(step is Ignore),
{
}

/// A running panel that does not capture takes exactly the keys it names.
pub proof fn a_passive_panel_takes_only_named_keys(
    p: PluginPanel,
    key: KeyPress,
    q: PluginPanel,
    step: KeyStep,
)
    requires
        keyed(p, key, q, step),
        !capturing(p.policy@, p.input_barrier),
        !over(p.phase),
    ensures
        step is Ignore <==> !p.policy@.keys.contains(canonical_name(key)),
        step is Ignore <==> !(step is Send),
{
}

/// After a queued passive key the panel captures all input, until a frame
/// newer than the one on screen arrives; a frame no newer keeps it
/// captured while the process runs.
pub proof fn a_passive_action_holds_input_until_acknowledged(
    p: PluginPanel,
    q: PluginPanel,
    shared: Shared,
    s: PluginPanel,
    changed: bool,
)
    requires
        !p.policy.capture,
        p.input_barrier is None,
        p.frame is Some,
        barrier_begun(p, q),
        synced(q, shared, s, changed),
    ensures
        capturing(q.policy@, q.input_barrier),
        changed ==> (shared.frame matches Some(f) && f.revision > p.frame->0.revision
            ==> s.input_barrier is None),
        changed && !over(shared.phase) ==> (shared.frame matches Some(f) && f.revision
            <= p.frame->0.revision ==> capturing(s.policy@, s.input_barrier)),
{
}

/// Taking over the same shared state twice changes nothing the second time.
pub proof fn sync_reports_a_change_once(
    p: PluginPanel,
    shared: Shared,
    q: PluginPanel,
    first: bool,
    s: PluginPanel,
    second: bool,
)
    requires
        synced(p, shared, q, first),
        synced(q, shared, s, second),
    ensures
        !second,
        s == q,
{
}

} // verus!
