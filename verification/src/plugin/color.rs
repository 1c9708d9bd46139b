//! Colours on the wire: a semantic theme slot, `default`, an `ansi:N`
//! palette index, or anything the terminal library can parse by name or as
//! `#RRGGBB`.

use vstd::prelude::*;
use crate::plugin::wire::{text_view, WireSpan};
use crate::text::{begins_with, chars_of, same_text, starts_with, text_after};

verus! {

broadcast use vstd::string::group_string_axioms;

/// A terminal colour, as the terminal library models them.
#[derive(Debug, Clone, Copy, PartialEq, Eq)]
pub enum TermColor {
    Reset,
    Black,
    Red,
    Green,
    Yellow,
    Blue,
    Magenta,
    Cyan,
    Gray,
    DarkGray,
    LightRed,
    LightGreen,
    LightYellow,
    LightBlue,
    LightMagenta,
    LightCyan,
    White,
    Rgb(u8, u8, u8),
    Indexed(u8),
}

/// A colour of the active theme, by its role.
#[derive(Debug, Clone, Copy, PartialEq, Eq)]
pub enum ThemeSlot {
    Border,
    BorderFocused,
    Rule,
    Title,
    Text,
    Muted,
    Label,
    Accent,
    Key,
    Success,
    Warning,
    Error,
    Track,
}

/// A colour a plugin asked for: a theme role, resolved against whatever
/// theme is live when the frame is drawn, or a fixed terminal colour.
#[derive(Debug, Clone, Copy, PartialEq, Eq)]
pub enum WireColor {
    Theme(ThemeSlot),
    Terminal(TermColor),
}

/// The text the terminal library displays for the colour it parses from
/// `text`, or `None` when it parses no colour.
pub uninterp spec fn ratatui_color_text(text: Seq<char>) -> Option<Seq<char>>;

/// Trusted: parses `text` with ratatui's `FromStr` for `Color` and, when a
/// colour comes out, renders it with that colour's `Display`. Nothing is
/// claimed beyond the result being that function of the text: ratatui's
/// parse (case folding, dropped separators, synonyms, names, palette indices
/// and `#RRGGBB`) is not restated here.
#[verifier::external_body]
fn ratatui_color(text: &str) -> (r: Option<String>)
    ensures
        text_view(r) == ratatui_color_text(text@),
{
    text.parse::<ratatui::style::Color>().ok().map(|c| c.to_string())
}

/// The value of a decimal digit.
pub open spec fn digit_value(c: char) -> int {
    (c as int) - ('0' as int)
}

pub open spec fn all_digits(s: Seq<char>) -> bool {
    forall|i: int| 0 <= i < s.len() ==> '0' <= #[trigger] s[i] && s[i] <= '9'
}

/// The number the digits of `s` spell.
pub open spec fn digits_value(s: Seq<char>) -> int
    decreases s.len(),
{
    if s.len() == 0 {
        0
    } else {
        digits_value(s.drop_last()) * 10 + digit_value(s.last())
    }
}

/// A byte in decimal, as Rust's `u8::from_str` reads one: an optional `+`,
/// then at least one digit, with a value no more than 255.
pub open spec fn parse_u8(s: Seq<char>) -> Option<u8> {
    let digits = if s.len() > 0 && s[0] == '+' {
        s.skip(1)
    } else {
        s
    };
    if digits.len() == 0 || !all_digits(digits) || digits_value(digits) > 255 {
        None
    } else {
        Some(digits_value(digits) as u8)
    }
}

proof fn lemma_digits_value_nonneg(s: Seq<char>)
    requires
        all_digits(s),
    ensures
        digits_value(s) >= 0,
    decreases s.len(),
{
    if s.len() > 0 {
        assert(all_digits(s.drop_last()));
        lemma_digits_value_nonneg(s.drop_last());
    }
}

/// Read a byte in decimal, as `u8::from_str` does.
pub fn byte_from(text: &str) -> (r: Option<u8>)
    ensures
        r == parse_u8(text@),
{
    let chars = chars_of(text);
    let start: usize = if chars.len() > 0 && chars[0] == '+' {
        1
    } else {
        0
    };
    let ghost digits = if text@.len() > 0 && text@[0] == '+' {
        text@.skip(1)
    } else {
        text@
    };
    assert(digits =~= text@.skip(start as int));
    if start == chars.len() {
        return None;
    }
    let mut value: u32 = 0;
    let mut i: usize = start;
    while i < chars.len()
        invariant
            start <= i <= chars.len(),
            chars@ == text@,
            digits == text@.skip(start as int),
            digits == (if text@.len() > 0 && text@[0] == '+' {
                text@.skip(1)
            } else {
                text@
            }),
            all_digits(text@.subrange(start as int, i as int)),
            value == if digits_value(text@.subrange(start as int, i as int)) > 256 {
                256
            } else {
                digits_value(text@.subrange(start as int, i as int))
            },
        decreases chars.len() - i,
    {
        let c = chars[i];
        if c < '0' || c > '9' {
            assert(digits[i - start] == c);
            assert(!('0' <= digits[i - start] && digits[i - start] <= '9'));
            assert(!all_digits(digits));
            assert(parse_u8(text@) is None);
            return None;
        }
        let ghost before = text@.subrange(start as int, i as int);
        let ghost after = text@.subrange(start as int, i as int + 1);
        assert(after.drop_last() =~= before);
        assert(after.last() == c);
        assert(all_digits(after));
        proof {
            lemma_digits_value_nonneg(before);
        }
        let d = (c as u32) - ('0' as u32);
        value = if value * 10 + d > 256 {
            256
        } else {
            value * 10 + d
        };
        i = i + 1;
    }
    assert(text@.subrange(start as int, chars@.len() as int) =~= digits);
    if value > 255 {
        None
    } else {
        Some(value as u8)
    }
}

/// The value of a hexadecimal digit, either case.
pub open spec fn hex_value(c: char) -> Option<u8> {
    if '0' <= c && c <= '9' {
        Some(((c as int) - ('0' as int)) as u8)
    } else if 'A' <= c && c <= 'F' {
        Some(((c as int) - ('A' as int) + 10) as u8)
    } else if 'a' <= c && c <= 'f' {
        Some(((c as int) - ('a' as int) + 10) as u8)
    } else {
        None
    }
}

fn hex(c: char) -> (r: Option<u8>)
    ensures
        r == hex_value(c),
{
    if '0' <= c && c <= '9' {
        Some(((c as u32) - ('0' as u32)) as u8)
    } else if 'A' <= c && c <= 'F' {
        Some(((c as u32) - ('A' as u32) + 10) as u8)
    } else if 'a' <= c && c <= 'f' {
        Some(((c as u32) - ('a' as u32) + 10) as u8)
    } else {
        None
    }
}

/// The byte two hexadecimal digits spell.
pub open spec fn hex_pair(hi: char, lo: char) -> Option<u8> {
    match (hex_value(hi), hex_value(lo)) {
        (Some(h), Some(l)) => Some((h * 16 + l) as u8),
        _ => None,
    }
}

fn pair(hi: char, lo: char) -> (r: Option<u8>)
    ensures
        r == hex_pair(hi, lo),
{
    match (hex(hi), hex(lo)) {
        (Some(h), Some(l)) => Some(h * 16 + l),
        _ => None,
    }
}

/// The colour a colour's display text names: one of the named colours, a
/// palette index, or `#RRGGBB`.
pub open spec fn displayed_color(t: Seq<char>) -> Option<TermColor> {
    if t == "Reset"@ {
        Some(TermColor::Reset)
    } else if t == "Black"@ {
        Some(TermColor::Black)
    } else if t == "Red"@ {
        Some(TermColor::Red)
    } else if t == "Green"@ {
        Some(TermColor::Green)
    } else if t == "Yellow"@ {
        Some(TermColor::Yellow)
    } else if t == "Blue"@ {
        Some(TermColor::Blue)
    } else if t == "Magenta"@ {
        Some(TermColor::Magenta)
    } else if t == "Cyan"@ {
        Some(TermColor::Cyan)
    } else if t == "Gray"@ {
        Some(TermColor::Gray)
    } else if t == "DarkGray"@ {
        Some(TermColor::DarkGray)
    } else if t == "LightRed"@ {
        Some(TermColor::LightRed)
    } else if t == "LightGreen"@ {
        Some(TermColor::LightGreen)
    } else if t == "LightYellow"@ {
        Some(TermColor::LightYellow)
    } else if t == "LightBlue"@ {
        Some(TermColor::LightBlue)
    } else if t == "LightMagenta"@ {
        Some(TermColor::LightMagenta)
    } else if t == "LightCyan"@ {
        Some(TermColor::LightCyan)
    } else if t == "White"@ {
        Some(TermColor::White)
    } else if t.len() == 7 && t[0] == '#' {
        match (hex_pair(t[1], t[2]), hex_pair(t[3], t[4]), hex_pair(t[5], t[6])) {
            (Some(r), Some(g), Some(b)) => Some(TermColor::Rgb(r, g, b)),
            _ => None,
        }
    } else {
        match parse_u8(t) {
            Some(i) => Some(TermColor::Indexed(i)),
            None => None,
        }
    }
}

/// Read back a colour from its display text.
pub fn color_from_display(text: &str) -> (r: Option<TermColor>)
    ensures
        r == displayed_color(text@),
{
    if same_text(text, "Reset") {
        Some(TermColor::Reset)
    } else if same_text(text, "Black") {
        Some(TermColor::Black)
    } else if same_text(text, "Red") {
        Some(TermColor::Red)
    } else if same_text(text, "Green") {
        Some(TermColor::Green)
    } else if same_text(text, "Yellow") {
        Some(TermColor::Yellow)
    } else if same_text(text, "Blue") {
        Some(TermColor::Blue)
    } else if same_text(text, "Magenta") {
        Some(TermColor::Magenta)
    } else if same_text(text, "Cyan") {
        Some(TermColor::Cyan)
    } else if same_text(text, "Gray") {
        Some(TermColor::Gray)
    } else if same_text(text, "DarkGray") {
        Some(TermColor::DarkGray)
    } else if same_text(text, "LightRed") {
        Some(TermColor::LightRed)
    } else if same_text(text, "LightGreen") {
        Some(TermColor::LightGreen)
    } else if same_text(text, "LightYellow") {
        Some(TermColor::LightYellow)
    } else if same_text(text, "LightBlue") {
        Some(TermColor::LightBlue)
    } else if same_text(text, "LightMagenta") {
        Some(TermColor::LightMagenta)
    } else if same_text(text, "LightCyan") {
        Some(TermColor::LightCyan)
    } else if same_text(text, "White") {
        Some(TermColor::White)
    } else {
        let c = chars_of(text);
        if c.len() == 7 && c[0] == '#' {
            match (pair(c[1], c[2]), pair(c[3], c[4]), pair(c[5], c[6])) {
                (Some(r), Some(g), Some(b)) => Some(TermColor::Rgb(r, g, b)),
                _ => None,
            }
        } else {
            match byte_from(text) {
                Some(i) => Some(TermColor::Indexed(i)),
                None => None,
            }
        }
    }
}

/// The colours the wire names without help: `default` and `reset`, and the
/// theme's roles.
pub open spec fn named_color(raw: Seq<char>) -> Option<WireColor> {
    if raw == "default"@ || raw == "reset"@ {
        Some(WireColor::Terminal(TermColor::Reset))
    } else if raw == "theme:border"@ {
        Some(WireColor::Theme(ThemeSlot::Border))
    } else if raw == "theme:border_focused"@ {
        Some(WireColor::Theme(ThemeSlot::BorderFocused))
    } else if raw == "theme:rule"@ {
        Some(WireColor::Theme(ThemeSlot::Rule))
    } else if raw == "theme:title"@ {
        Some(WireColor::Theme(ThemeSlot::Title))
    } else if raw == "theme:text"@ {
        Some(WireColor::Theme(ThemeSlot::Text))
    } else if raw == "theme:muted"@ {
        Some(WireColor::Theme(ThemeSlot::Muted))
    } else if raw == "theme:label"@ {
        Some(WireColor::Theme(ThemeSlot::Label))
    } else if raw == "theme:accent"@ {
        Some(WireColor::Theme(ThemeSlot::Accent))
    } else if raw == "theme:key"@ {
        Some(WireColor::Theme(ThemeSlot::Key))
    } else if raw == "theme:success"@ {
        Some(WireColor::Theme(ThemeSlot::Success))
    } else if raw == "theme:warning"@ {
        Some(WireColor::Theme(ThemeSlot::Warning))
    } else if raw == "theme:error"@ {
        Some(WireColor::Theme(ThemeSlot::Error))
    } else if raw == "theme:track"@ {
        Some(WireColor::Theme(ThemeSlot::Track))
    } else {
        None
    }
}

fn named(raw: &str) -> (r: Option<WireColor>)
    ensures
        r == named_color(raw@),
{
    if same_text(raw, "default") || same_text(raw, "reset") {
        Some(WireColor::Terminal(TermColor::Reset))
    } else if same_text(raw, "theme:border") {
        Some(WireColor::Theme(ThemeSlot::Border))
    } else if same_text(raw, "theme:border_focused") {
        Some(WireColor::Theme(ThemeSlot::BorderFocused))
    } else if same_text(raw, "theme:rule") {
        Some(WireColor::Theme(ThemeSlot::Rule))
    } else if same_text(raw, "theme:title") {
        Some(WireColor::Theme(ThemeSlot::Title))
    } else if same_text(raw, "theme:text") {
        Some(WireColor::Theme(ThemeSlot::Text))
    } else if same_text(raw, "theme:muted") {
        Some(WireColor::Theme(ThemeSlot::Muted))
    } else if same_text(raw, "theme:label") {
        Some(WireColor::Theme(ThemeSlot::Label))
    } else if same_text(raw, "theme:accent") {
        Some(WireColor::Theme(ThemeSlot::Accent))
    } else if same_text(raw, "theme:key") {
        Some(WireColor::Theme(ThemeSlot::Key))
    } else if same_text(raw, "theme:success") {
        Some(WireColor::Theme(ThemeSlot::Success))
    } else if same_text(raw, "theme:warning") {
        Some(WireColor::Theme(ThemeSlot::Warning))
    } else if same_text(raw, "theme:error") {
        Some(WireColor::Theme(ThemeSlot::Error))
    } else if same_text(raw, "theme:track") {
        Some(WireColor::Theme(ThemeSlot::Track))
    } else {
        None
    }
}

/// The palette index an `ansi:N` colour names, if `raw` is one.
pub open spec fn ansi_color(raw: Seq<char>) -> Option<u8> {
    if begins_with(raw, "ansi:"@) {
        parse_u8(raw.skip(5))
    } else {
        None
    }
}

fn ansi(raw: &str) -> (r: Option<u8>)
    ensures
        r == ansi_color(raw@),
{
    proof {
        reveal_strlit("ansi:");
    }
    if !starts_with(raw, "ansi:") {
        return None;
    }
    let rest = text_after(raw, 5);
    byte_from(rest.as_str())
}

/// What a wire colour means, given the display text of what the terminal
/// library parses from it (consulted only when nothing else matches).
pub open spec fn wire_color_spec(raw: Seq<char>, parsed: Option<Seq<char>>) -> Option<WireColor> {
    match named_color(raw) {
        Some(c) => Some(c),
        None => match ansi_color(raw) {
            Some(i) => Some(WireColor::Terminal(TermColor::Indexed(i))),
            None => match parsed {
                Some(t) => match displayed_color(t) {
                    Some(c) => Some(WireColor::Terminal(c)),
                    None => None,
                },
                None => None,
            },
        },
    }
}

/// Whether the terminal library has to be asked about `raw`.
pub open spec fn needs_parse(raw: Seq<char>) -> bool {
    named_color(raw) is None && ansi_color(raw) is None
}

/// What a wire colour resolves to, asking the terminal library only when
/// it has to.
pub open spec fn resolved(raw: Seq<char>) -> Option<WireColor> {
    if needs_parse(raw) {
        wire_color_spec(raw, ratatui_color_text(raw))
    } else {
        wire_color_spec(raw, None)
    }
}

/// Resolve a wire colour given what the terminal library made of it:
/// `parsed` is the display text of its colour, or `None` when it found none.
pub fn wire_color_from(raw: &str, parsed: &Option<String>) -> (r: Option<WireColor>)
    ensures
        r == wire_color_spec(raw@, text_view(*parsed)),
{
    match named(raw) {
        Some(c) => {
            return Some(c);
        },
        None => {},
    }
    match ansi(raw) {
        Some(i) => {
            return Some(WireColor::Terminal(TermColor::Indexed(i)));
        },
        None => {},
    }
    match parsed {
        Some(t) => match color_from_display(t.as_str()) {
            Some(c) => Some(WireColor::Terminal(c)),
            None => None,
        },
        None => None,
    }
}

/// What a colour on the wire means: a theme role, `default`, a palette index
/// written `ansi:N`, or else whatever the terminal library parses, which
/// covers its colour names and `#RRGGBB`. `None` for a colour nobody
/// recognises, which is drawn in the default colour.
pub fn wire_color(raw: &str) -> (r: Option<WireColor>)
    ensures
        r == resolved(raw@),
{
    let direct = named(raw).is_some() || ansi(raw).is_some();
    if direct {
        wire_color_from(raw, &None)
    } else {
        let parsed = ratatui_color(raw);
        wire_color_from(raw, &parsed)
    }
}

/// How a span is drawn: its colours, unresolved against the theme, and its
/// attributes.
#[derive(Debug, Clone, Copy, PartialEq, Eq)]
pub struct SpanStyle {
    pub fg: Option<WireColor>,
    pub bg: Option<WireColor>,
    pub bold: bool,
    pub dim: bool,
    pub italic: bool,
    pub underlined: bool,
    pub reversed: bool,
}

pub open spec fn resolved_opt(raw: Option<Seq<char>>) -> Option<WireColor> {
    match raw {
        Some(r) => resolved(r),
        None => None,
    }
}

/// The style of a span: colours a plugin names but nobody recognises are
/// left at the default, and each attribute is taken as given.
pub fn span_style(span: &WireSpan) -> (r: SpanStyle)
    ensures
        r.fg == resolved_opt(text_view(span.fg)),
        r.bg == resolved_opt(text_view(span.bg)),
        r.bold == span.bold,
        r.dim == span.dim,
        r.italic == span.italic,
        r.underlined == span.underlined,
        r.reversed == span.reversed,
{
    let fg = match &span.fg {
        Some(raw) => wire_color(raw.as_str()),
        None => None,
    };
    let bg = match &span.bg {
        Some(raw) => wire_color(raw.as_str()),
        None => None,
    };
    SpanStyle {
        fg,
        bg,
        bold: span.bold,
        dim: span.dim,
        italic: span.italic,
        underlined: span.underlined,
        reversed: span.reversed,
    }
}

} // verus!
