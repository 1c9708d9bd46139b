//! What an external panel publishes: complete, immutable frame snapshots and
//! the input it wants to receive.

use vstd::prelude::*;

verus! {

broadcast use vstd::string::group_string_axioms;

/// The default for a cursor's `visible` field when a frame leaves it out.
pub fn yes() -> (r: bool)
    ensures
        r,
{
    true
}

pub open spec fn text_view(t: Option<String>) -> Option<Seq<char>> {
    match t {
        Some(s) => Some(s@),
        None => None,
    }
}

/// A copy of optional text.
pub fn copy_text(t: &Option<String>) -> (r: Option<String>)
    ensures
        text_view(r) == text_view(*t),
{
    match t {
        Some(s) => Some(s.clone()),
        None => None,
    }
}

pub open spec fn texts_view(v: Seq<String>) -> Seq<Seq<char>> {
    v.map_values(|s: String| s@)
}

/// A copy of a list of text.
pub fn copy_texts(v: &Vec<String>) -> (r: Vec<String>)
    ensures
        texts_view(r@) == texts_view(v@),
{
    let mut r: Vec<String> = Vec::new();
    let mut i: usize = 0;
    while i < v.len()
        invariant
            i <= v.len(),
            r@.len() == i,
            forall|k: int| 0 <= k < i ==> #[trigger] r@[k]@ == v@[k]@,
        decreases v.len() - i,
    {
        r.push(v[i].clone());
        i = i + 1;
    }
    assert(texts_view(r@) =~= texts_view(v@));
    r
}

/// One run of styled text.
#[derive(Debug, Clone, PartialEq, Eq)]
pub struct WireSpan {
    pub text: String,
    pub fg: Option<String>,
    pub bg: Option<String>,
    pub bold: bool,
    pub dim: bool,
    pub italic: bool,
    pub underlined: bool,
    pub reversed: bool,
}

pub struct SpanView {
    pub text: Seq<char>,
    pub fg: Option<Seq<char>>,
    pub bg: Option<Seq<char>>,
    pub bold: bool,
    pub dim: bool,
    pub italic: bool,
    pub underlined: bool,
    pub reversed: bool,
}

impl View for WireSpan {
    type V = SpanView;

    open spec fn view(&self) -> SpanView {
        SpanView {
            text: self.text@,
            fg: text_view(self.fg),
            bg: text_view(self.bg),
            bold: self.bold,
            dim: self.dim,
            italic: self.italic,
            underlined: self.underlined,
            reversed: self.reversed,
        }
    }
}

impl WireSpan {
    /// The same span.
    pub fn copy(&self) -> (r: Self)
        ensures
            r@ == self@,
    {
        WireSpan {
            text: self.text.clone(),
            fg: copy_text(&self.fg),
            bg: copy_text(&self.bg),
            bold: self.bold,
            dim: self.dim,
            italic: self.italic,
            underlined: self.underlined,
            reversed: self.reversed,
        }
    }
}

/// One line of a frame.
#[derive(Debug, Clone, PartialEq, Eq)]
pub struct WireLine {
    pub spans: Vec<WireSpan>,
}

impl View for WireLine {
    type V = Seq<SpanView>;

    open spec fn view(&self) -> Seq<SpanView> {
        self.spans@.map_values(|s: WireSpan| s@)
    }
}

impl WireLine {
    /// The same line.
    pub fn copy(&self) -> (r: Self)
        ensures
            r@ == self@,
    {
        let mut spans: Vec<WireSpan> = Vec::new();
        let mut i: usize = 0;
        while i < self.spans.len()
            invariant
                i <= self.spans.len(),
                spans@.len() == i,
                forall|k: int| 0 <= k < i ==> #[trigger] spans@[k]@ == self.spans@[k]@,
            decreases self.spans.len() - i,
        {
            spans.push(self.spans[i].copy());
            i = i + 1;
        }
        let r = WireLine { spans };
        assert(r@ =~= self@);
        r
    }
}

/// A key the panel advertises.
#[derive(Debug, Clone, PartialEq, Eq)]
pub struct WireBinding {
    pub key: String,
    pub action: String,
    pub primary: bool,
}

pub struct BindingView {
    pub key: Seq<char>,
    pub action: Seq<char>,
    pub primary: bool,
}

impl View for WireBinding {
    type V = BindingView;

    open spec fn view(&self) -> BindingView {
        BindingView { key: self.key@, action: self.action@, primary: self.primary }
    }
}

/// Which input classes a panel takes while focused.
#[derive(Debug, Clone, PartialEq, Eq)]
pub struct InputPolicy {
    /// Consume every key while focused.
    pub capture: bool,
    /// Canonical keys to consume while not capturing, e.g. `Enter` or `r`.
    pub keys: Vec<String>,
    /// Consume one Ctrl+C, then disarm until other input arrives.
    pub interrupt: bool,
    pub paste: bool,
    pub mouse: bool,
}

pub struct PolicyView {
    pub capture: bool,
    pub keys: Seq<Seq<char>>,
    pub interrupt: bool,
    pub paste: bool,
    pub mouse: bool,
}

impl View for InputPolicy {
    type V = PolicyView;

    open spec fn view(&self) -> PolicyView {
        PolicyView {
            capture: self.capture,
            keys: texts_view(self.keys@),
            interrupt: self.interrupt,
            paste: self.paste,
            mouse: self.mouse,
        }
    }
}

/// Passive: no key, paste, mouse or interrupt is taken.
pub open spec fn passive_view() -> PolicyView {
    PolicyView { capture: false, keys: Seq::empty(), interrupt: false, paste: false, mouse: false }
}

impl InputPolicy {
    /// The policy of a panel that has published nothing: it takes nothing.
    pub fn passive() -> (p: Self)
        ensures
            p@ == passive_view(),
    {
        let p = InputPolicy {
            capture: false,
            keys: Vec::new(),
            interrupt: false,
            paste: false,
            mouse: false,
        };
        assert(p@.keys =~= Seq::<Seq<char>>::empty());
        p
    }

    /// The same policy.
    pub fn copy(&self) -> (r: Self)
        ensures
            r@ == self@,
    {
        InputPolicy {
            capture: self.capture,
            keys: copy_texts(&self.keys),
            interrupt: self.interrupt,
            paste: self.paste,
            mouse: self.mouse,
        }
    }
}

impl Default for InputPolicy {
    fn default() -> (p: Self)
        ensures
            p@ == passive_view(),
    {
        InputPolicy::passive()
    }
}

/// Where a panel wants the terminal cursor, relative to its interior.
#[derive(Debug, Clone, Copy, PartialEq, Eq)]
pub struct WireCursor {
    pub column: u16,
    pub row: u16,
    pub visible: bool,
}

/// One complete snapshot of a panel.
#[derive(Debug, Clone, PartialEq, Eq)]
pub struct WireFrame {
    pub revision: u64,
    pub title: Option<String>,
    pub counter: Option<String>,
    pub lines: Vec<WireLine>,
    pub bindings: Vec<WireBinding>,
    pub input: InputPolicy,
    pub cursor: Option<WireCursor>,
}

pub struct FrameView {
    pub revision: u64,
    pub title: Option<Seq<char>>,
    pub counter: Option<Seq<char>>,
    pub lines: Seq<Seq<SpanView>>,
    pub bindings: Seq<BindingView>,
    pub input: PolicyView,
    pub cursor: Option<WireCursor>,
}

impl View for WireFrame {
    type V = FrameView;

    open spec fn view(&self) -> FrameView {
        FrameView {
            revision: self.revision,
            title: text_view(self.title),
            counter: text_view(self.counter),
            lines: self.lines@.map_values(|l: WireLine| l@),
            bindings: self.bindings@.map_values(|b: WireBinding| b@),
            input: self.input@,
            cursor: self.cursor,
        }
    }
}

impl WireFrame {
    /// The same frame.
    pub fn copy(&self) -> (r: Self)
        ensures
            r@ == self@,
    {
        let mut lines: Vec<WireLine> = Vec::new();
        let mut i: usize = 0;
        while i < self.lines.len()
            invariant
                i <= self.lines.len(),
                lines@.len() == i,
                forall|k: int| 0 <= k < i ==> #[trigger] lines@[k]@ == self.lines@[k]@,
            decreases self.lines.len() - i,
        {
            lines.push(self.lines[i].copy());
            i = i + 1;
        }
        let mut bindings: Vec<WireBinding> = Vec::new();
        let mut i: usize = 0;
        while i < self.bindings.len()
            invariant
                i <= self.bindings.len(),
                bindings@.len() == i,
                forall|k: int| 0 <= k < i ==> #[trigger] bindings@[k]@ == self.bindings@[k]@,
            decreases self.bindings.len() - i,
        {
            let b = &self.bindings[i];
            bindings.push(WireBinding { key: b.key.clone(), action: b.action.clone(), primary: b.primary });
            i = i + 1;
        }
        let r = WireFrame {
            revision: self.revision,
            title: copy_text(&self.title),
            counter: copy_text(&self.counter),
            lines,
            bindings,
            input: self.input.copy(),
            cursor: self.cursor,
        };
        assert(r@.lines =~= self@.lines);
        assert(r@.bindings =~= self@.bindings);
        r
    }
}

pub open spec fn frame_view(f: Option<WireFrame>) -> Option<FrameView> {
    match f {
        Some(f) => Some(f@),
        None => None,
    }
}

} // verus!
