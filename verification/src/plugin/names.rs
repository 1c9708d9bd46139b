//! How keys and mouse events are named on the wire.
//!
//! Keys carry a stable, display-independent code and the canonical chord used
//! by a frame's `input.keys`: modifiers in the order Ctrl, Alt, Shift, Super,
//! Hyper, Meta, joined by `+` to the key's name. Character case is kept.

use vstd::prelude::*;
use crate::keys::{KeyCode, KeyPress, Modifiers, MouseButton, MouseKind};
use crate::text::{ascii_lower, ascii_lowercase, decimal, decimal_text, join2, join3, owned, push_char};

verus! {

broadcast use vstd::string::group_string_axioms;

/// The name of a key other than a character or a function key, as the
/// terminal library spells it.
pub open spec fn debug_name(code: KeyCode) -> Seq<char> {
    match code {
        KeyCode::Backspace => "Backspace"@,
        KeyCode::Enter => "Enter"@,
        KeyCode::Left => "Left"@,
        KeyCode::Right => "Right"@,
        KeyCode::Up => "Up"@,
        KeyCode::Down => "Down"@,
        KeyCode::Home => "Home"@,
        KeyCode::End => "End"@,
        KeyCode::PageUp => "PageUp"@,
        KeyCode::PageDown => "PageDown"@,
        KeyCode::Tab => "Tab"@,
        KeyCode::BackTab => "BackTab"@,
        KeyCode::Delete => "Delete"@,
        KeyCode::Insert => "Insert"@,
        KeyCode::Null => "Null"@,
        KeyCode::Esc => "Esc"@,
        KeyCode::CapsLock => "CapsLock"@,
        KeyCode::ScrollLock => "ScrollLock"@,
        KeyCode::NumLock => "NumLock"@,
        KeyCode::PrintScreen => "PrintScreen"@,
        KeyCode::Pause => "Pause"@,
        KeyCode::Menu => "Menu"@,
        KeyCode::KeypadBegin => "KeypadBegin"@,
        KeyCode::Media(name) => "Media("@ + name@ + ")"@,
        KeyCode::Modifier(name) => "Modifier("@ + name@ + ")"@,
        KeyCode::F(n) => "F("@ + decimal(n as nat) + ")"@,
        KeyCode::Char(c) => seq![c],
    }
}

/// The key's part of a canonical chord.
pub open spec fn base_name(code: KeyCode) -> Seq<char> {
    match code {
        KeyCode::Char(c) => if c == ' ' {
            "Space"@
        } else {
            seq![c]
        },
        KeyCode::F(n) => "F"@ + decimal(n as nat),
        _ => debug_name(code),
    }
}

/// The stable key code: `char` for characters, `f1` to `f12`, and the
/// lower-cased name for the rest.
pub open spec fn code_name(code: KeyCode) -> Seq<char> {
    match code {
        KeyCode::Char(_) => "char"@,
        KeyCode::F(n) => "f"@ + decimal(n as nat),
        _ => debug_name(code).map_values(|c: char| ascii_lower(c)),
    }
}

/// The held modifiers by name, in wire order.
pub open spec fn modifier_names(m: Modifiers) -> Seq<Seq<char>> {
    (if m.control {
        seq!["Ctrl"@]
    } else {
        Seq::empty()
    }) + (if m.alt {
        seq!["Alt"@]
    } else {
        Seq::empty()
    }) + (if m.shift {
        seq!["Shift"@]
    } else {
        Seq::empty()
    }) + (if m.super_key {
        seq!["Super"@]
    } else {
        Seq::empty()
    }) + (if m.hyper {
        seq!["Hyper"@]
    } else {
        Seq::empty()
    }) + (if m.meta {
        seq!["Meta"@]
    } else {
        Seq::empty()
    })
}

/// Parts joined by `+`.
pub open spec fn join_plus(parts: Seq<Seq<char>>) -> Seq<char>
    decreases parts.len(),
{
    if parts.len() == 0 {
        Seq::empty()
    } else if parts.len() == 1 {
        parts[0]
    } else {
        join_plus(parts.drop_last()) + "+"@ + parts.last()
    }
}

/// The canonical chord for a key press, e.g. `Ctrl+c` or `Shift+PageUp`.
pub open spec fn canonical_name(key: KeyPress) -> Seq<char> {
    let mods = modifier_names(key.modifiers);
    if mods.len() == 0 {
        base_name(key.code)
    } else {
        join_plus(mods.push(base_name(key.code)))
    }
}

pub open spec fn names_view(v: Seq<String>) -> Seq<Seq<char>> {
    v.map_values(|s: String| s@)
}

fn debug_text(code: &KeyCode) -> (r: String)
    ensures
        r@ == debug_name(*code),
{
    match code {
        KeyCode::Backspace => owned("Backspace"),
        KeyCode::Enter => owned("Enter"),
        KeyCode::Left => owned("Left"),
        KeyCode::Right => owned("Right"),
        KeyCode::Up => owned("Up"),
        KeyCode::Down => owned("Down"),
        KeyCode::Home => owned("Home"),
        KeyCode::End => owned("End"),
        KeyCode::PageUp => owned("PageUp"),
        KeyCode::PageDown => owned("PageDown"),
        KeyCode::Tab => owned("Tab"),
        KeyCode::BackTab => owned("BackTab"),
        KeyCode::Delete => owned("Delete"),
        KeyCode::Insert => owned("Insert"),
        KeyCode::Null => owned("Null"),
        KeyCode::Esc => owned("Esc"),
        KeyCode::CapsLock => owned("CapsLock"),
        KeyCode::ScrollLock => owned("ScrollLock"),
        KeyCode::NumLock => owned("NumLock"),
        KeyCode::PrintScreen => owned("PrintScreen"),
        KeyCode::Pause => owned("Pause"),
        KeyCode::Menu => owned("Menu"),
        KeyCode::KeypadBegin => owned("KeypadBegin"),
        KeyCode::Media(name) => join3("Media(", name.as_str(), ")"),
        KeyCode::Modifier(name) => join3("Modifier(", name.as_str(), ")"),
        KeyCode::F(n) => join3("F(", decimal_text(*n as u64).as_str(), ")"),
        KeyCode::Char(c) => {
            let mut s = String::new();
            push_char(&mut s, *c);
            proof {
                assert(s@ =~= seq![*c]);
            }
            s
        },
    }
}

/// The key's part of a canonical chord.
pub fn base_text(code: &KeyCode) -> (r: String)
    ensures
        r@ == base_name(*code),
{
    match code {
        KeyCode::Char(c) => {
            if *c == ' ' {
                owned("Space")
            } else {
                debug_text(code)
            }
        },
        KeyCode::F(n) => join2("F", decimal_text(*n as u64).as_str()),
        _ => debug_text(code),
    }
}

/// The stable, display-independent code of a key.
pub fn key_code(code: &KeyCode) -> (r: String)
    ensures
        r@ == code_name(*code),
{
    match code {
        KeyCode::Char(_) => owned("char"),
        KeyCode::F(n) => join2("f", decimal_text(*n as u64).as_str()),
        _ => {
            let name = debug_text(code);
            ascii_lowercase(name.as_str())
        },
    }
}

/// The held modifiers, by name, in wire order.
pub fn key_modifiers(m: &Modifiers) -> (r: Vec<String>)
    ensures
        names_view(r@) == modifier_names(*m),
{
    let mut r: Vec<String> = Vec::new();
    if m.control {
        r.push(owned("Ctrl"));
    }
    if m.alt {
        r.push(owned("Alt"));
    }
    if m.shift {
        r.push(owned("Shift"));
    }
    if m.super_key {
        r.push(owned("Super"));
    }
    if m.hyper {
        r.push(owned("Hyper"));
    }
    if m.meta {
        r.push(owned("Meta"));
    }
    assert(names_view(r@) =~= modifier_names(*m));
    r
}

/// The canonical chord for a key press: stable across platforms.
pub fn canonical_key(key: &KeyPress) -> (r: String)
    ensures
        r@ == canonical_name(*key),
{
    let base = base_text(&key.code);
    let prefixes = key_modifiers(&key.modifiers);
    if prefixes.len() == 0 {
        return base;
    }
    let ghost parts = modifier_names(key.modifiers).push(base@);
    let mut out = prefixes[0].clone();
    let mut i: usize = 1;
    while i < prefixes.len()
        invariant
            1 <= i <= prefixes.len(),
            names_view(prefixes@) == modifier_names(key.modifiers),
            parts == modifier_names(key.modifiers).push(base@),
            out@ == join_plus(parts.take(i as int)),
        decreases prefixes.len() - i,
    {
        proof {
            assert(parts.take(i as int + 1).drop_last() =~= parts.take(i as int));
            assert(parts[i as int] == prefixes@[i as int]@);
        }
        out.append("+");
        out.append(prefixes[i].as_str());
        i = i + 1;
    }
    proof {
        let n = prefixes.len() as int;
        assert(parts.take(n + 1).drop_last() =~= parts.take(n));
        assert(parts.take(n + 1) =~= parts);
        assert(parts[n] == base@);
        assert(parts.take(1) =~= seq![parts[0]]);
    }
    out.append("+");
    out.append(base.as_str());
    out
}

pub open spec fn button_name(b: MouseButton) -> Seq<char> {
    match b {
        MouseButton::Left => "left"@,
        MouseButton::Right => "right"@,
        MouseButton::Middle => "middle"@,
    }
}

/// A mouse button as named on the wire.
pub fn mouse_button(b: MouseButton) -> (r: String)
    ensures
        r@ == button_name(b),
{
    match b {
        MouseButton::Left => owned("left"),
        MouseButton::Right => owned("right"),
        MouseButton::Middle => owned("middle"),
    }
}

pub open spec fn kind_name(k: MouseKind) -> Seq<char> {
    match k {
        MouseKind::Down(_) => "down"@,
        MouseKind::Up(_) => "up"@,
        MouseKind::Drag(_) => "drag"@,
        MouseKind::Moved => "move"@,
        MouseKind::ScrollDown => "scroll_down"@,
        MouseKind::ScrollUp => "scroll_up"@,
        MouseKind::ScrollLeft => "scroll_left"@,
        MouseKind::ScrollRight => "scroll_right"@,
    }
}

pub open spec fn kind_button(k: MouseKind) -> Option<MouseButton> {
    match k {
        MouseKind::Down(b) | MouseKind::Up(b) | MouseKind::Drag(b) => Some(b),
        _ => None,
    }
}

/// A mouse event's kind, and its button when it has one.
pub fn mouse_kind(k: MouseKind) -> (r: (String, Option<String>))
    ensures
        r.0@ == kind_name(k),
        match kind_button(k) {
            Some(b) => r.1 matches Some(name) && name@ == button_name(b),
            None => r.1 is None,
        },
{
    match k {
        MouseKind::Down(b) => (owned("down"), Some(mouse_button(b))),
        MouseKind::Up(b) => (owned("up"), Some(mouse_button(b))),
        MouseKind::Drag(b) => (owned("drag"), Some(mouse_button(b))),
        MouseKind::Moved => (owned("move"), None),
        MouseKind::ScrollDown => (owned("scroll_down"), None),
        MouseKind::ScrollUp => (owned("scroll_up"), None),
        MouseKind::ScrollLeft => (owned("scroll_left"), None),
        MouseKind::ScrollRight => (owned("scroll_right"), None),
    }
}

/// A key pressed alone is named by the key: the protocol's names for the
/// named keys, `Space` for the space bar, and the character itself, case
/// kept, for any other character.
pub proof fn a_bare_key_is_named_by_itself(c: char)
    ensures
        canonical_name(KeyPress { code: KeyCode::PageUp, modifiers: crate::keys::no_modifiers() })
            == "PageUp"@,
        canonical_name(KeyPress { code: KeyCode::PageDown, modifiers: crate::keys::no_modifiers() })
            == "PageDown"@,
        canonical_name(KeyPress { code: KeyCode::Up, modifiers: crate::keys::no_modifiers() })
            == "Up"@,
        canonical_name(KeyPress { code: KeyCode::Down, modifiers: crate::keys::no_modifiers() })
            == "Down"@,
        canonical_name(KeyPress { code: KeyCode::Left, modifiers: crate::keys::no_modifiers() })
            == "Left"@,
        canonical_name(KeyPress { code: KeyCode::Right, modifiers: crate::keys::no_modifiers() })
            == "Right"@,
        canonical_name(KeyPress { code: KeyCode::Home, modifiers: crate::keys::no_modifiers() })
            == "Home"@,
        canonical_name(KeyPress { code: KeyCode::End, modifiers: crate::keys::no_modifiers() })
            == "End"@,
        canonical_name(KeyPress { code: KeyCode::Enter, modifiers: crate::keys::no_modifiers() })
            == "Enter"@,
        canonical_name(KeyPress { code: KeyCode::Esc, modifiers: crate::keys::no_modifiers() })
            == "Esc"@,
        canonical_name(KeyPress { code: KeyCode::Tab, modifiers: crate::keys::no_modifiers() })
            == "Tab"@,
        canonical_name(KeyPress { code: KeyCode::BackTab, modifiers: crate::keys::no_modifiers() })
            == "BackTab"@,
        canonical_name(KeyPress { code: KeyCode::Backspace, modifiers: crate::keys::no_modifiers() })
            == "Backspace"@,
        canonical_name(KeyPress { code: KeyCode::Delete, modifiers: crate::keys::no_modifiers() })
            == "Delete"@,
        canonical_name(KeyPress { code: KeyCode::Insert, modifiers: crate::keys::no_modifiers() })
            == "Insert"@,
        canonical_name(KeyPress { code: KeyCode::Char(' '), modifiers: crate::keys::no_modifiers() })
            == "Space"@,
        c != ' ' ==> canonical_name(
            KeyPress { code: KeyCode::Char(c), modifiers: crate::keys::no_modifiers() },
        ) == seq![c],
        code_name(KeyCode::Char(c)) == "char"@,
{
}

/// Modifiers come first, in the order Ctrl, Alt, Shift, Super, Hyper, Meta,
/// each followed by `+`: Ctrl and a character is `Ctrl+` and the character,
/// Ctrl with Shift and a named key is `Ctrl+Shift+` and its name.
pub proof fn modifiers_lead_in_wire_order(m: Modifiers, code: KeyCode)
    requires
        m.control,
    ensures
        modifier_names(m)[0] == "Ctrl"@,
        m.alt ==> modifier_names(m)[1] == "Alt"@,
        !m.alt && !m.shift && !m.super_key && !m.hyper && !m.meta ==> canonical_name(
            KeyPress { code, modifiers: m },
        ) == "Ctrl+"@ + base_name(code),
        !m.alt && m.shift && !m.super_key && !m.hyper && !m.meta ==> canonical_name(
            KeyPress { code, modifiers: m },
        ) == "Ctrl+Shift+"@ + base_name(code),
{
    reveal_strlit("Ctrl");
    reveal_strlit("Shift");
    reveal_strlit("+");
    reveal_strlit("Ctrl+");
    reveal_strlit("Ctrl+Shift");
    reveal_strlit("Ctrl+Shift+");
    let b = base_name(code);
    if !m.alt && !m.shift && !m.super_key && !m.hyper && !m.meta {
        assert(modifier_names(m) =~= seq!["Ctrl"@]);
        let parts = seq!["Ctrl"@, b];
        assert(modifier_names(m).push(b) =~= parts);
        assert(parts.drop_last() =~= seq!["Ctrl"@]);
        assert(join_plus(parts.drop_last()) == "Ctrl"@);
        assert(parts.last() == b);
        assert(join_plus(parts) == "Ctrl"@ + "+"@ + b);
        assert("Ctrl"@ + "+"@ + b =~= "Ctrl+"@ + b);
    }
    if !m.alt && m.shift && !m.super_key && !m.hyper && !m.meta {
        assert(modifier_names(m) =~= seq!["Ctrl"@, "Shift"@]);
        let parts = seq!["Ctrl"@, "Shift"@, b];
        assert(modifier_names(m).push(b) =~= parts);
        assert(parts.drop_last() =~= seq!["Ctrl"@, "Shift"@]);
        assert(parts.drop_last().drop_last() =~= seq!["Ctrl"@]);
        assert(join_plus(parts.drop_last().drop_last()) == "Ctrl"@);
        assert(parts.drop_last().last() == "Shift"@);
        assert(join_plus(parts.drop_last()) == "Ctrl"@ + "+"@ + "Shift"@);
        assert("Ctrl"@ + "+"@ + "Shift"@ =~= "Ctrl+Shift"@);
        assert(parts.last() == b);
        assert(join_plus(parts) == "Ctrl+Shift"@ + "+"@ + b);
        assert("Ctrl+Shift"@ + "+"@ + b =~= "Ctrl+Shift+"@ + b);
    }
}

/// Mouse events are named as the protocol lists them, and the buttons
/// `left`, `middle` and `right`.
pub proof fn mouse_events_are_named_as_the_protocol_lists_them(b: MouseButton)
    ensures
        kind_name(MouseKind::Down(b)) == "down"@,
        kind_name(MouseKind::Up(b)) == "up"@,
        kind_name(MouseKind::Drag(b)) == "drag"@,
        kind_name(MouseKind::Moved) == "move"@,
        kind_name(MouseKind::ScrollUp) == "scroll_up"@,
        kind_name(MouseKind::ScrollDown) == "scroll_down"@,
        kind_name(MouseKind::ScrollLeft) == "scroll_left"@,
        kind_name(MouseKind::ScrollRight) == "scroll_right"@,
        button_name(MouseButton::Left) == "left"@,
        button_name(MouseButton::Middle) == "middle"@,
        button_name(MouseButton::Right) == "right"@,
        kind_button(MouseKind::Down(b)) == Some(b),
        kind_button(MouseKind::ScrollUp) is None,
{
}

} // verus!
