//! The dashboard shell's decisions: where a key goes, what the global keys
//! do, how focus moves, and what the status bar says.
//!
//! The shell owns the panels and the terminal; it asks these functions what
//! to do and does it.

use vstd::prelude::*;
use crate::keys::{Area, KeyCode, KeyPress, Modifiers, MouseKind};
use crate::panel::{Alert, Binding, KeyOutcome, Severity};
use crate::text::{chars_of, decimal, decimal_text, is_control, join2, join3, owned};

verus! {

broadcast use vstd::string::group_string_axioms;

/// The global keys, in the order the status bar and the help overlay show
/// them. The status bar shows as many primaries as fit, in order, so the way
/// out comes before the way to add a panel.
pub open spec fn global_spec() -> Seq<(Seq<char>, Seq<char>, bool)> {
    seq![
        ("Tab"@, "focus"@, true),
        ("?"@, "keys"@, true),
        ("q"@, "quit"@, true),
        ("w"@, "panels"@, true),
        ("m"@, "arrange"@, true),
        ("t"@, "theme"@, true),
        ("Ctrl+arrows"@, "resize"@, true),
        ("Shift+Tab"@, "focus back"@, false),
        ("1-9"@, "jump to panel"@, false),
        ("Ctrl+C"@, "quit"@, false),
    ]
}

pub open spec fn binding_triple(b: Binding) -> (Seq<char>, Seq<char>, bool) {
    (b.key@, b.action@, b.primary)
}

/// The global bindings, used for both the status bar and the help overlay.
pub fn global_bindings() -> (r: Vec<Binding>)
    ensures
        r@.map_values(|b: Binding| binding_triple(b)) == global_spec(),
{
    let r = vec![
        Binding::primary("Tab", "focus"),
        Binding::primary("?", "keys"),
        Binding::primary("q", "quit"),
        Binding::primary("w", "panels"),
        Binding::primary("m", "arrange"),
        Binding::primary("t", "theme"),
        Binding::primary("Ctrl+arrows", "resize"),
        Binding::extra("Shift+Tab", "focus back"),
        Binding::extra("1-9", "jump to panel"),
        Binding::extra("Ctrl+C", "quit"),
    ];
    assert(r@.map_values(|b: Binding| binding_triple(b)) =~= global_spec());
    r
}

/// The legend arrange mode shows, most important first, so the way out
/// survives a narrow terminal.
pub open spec fn legend_spec() -> Seq<(Seq<char>, Seq<char>)> {
    seq![
        ("←→↑↓"@, "move"@),
        ("Enter"@, "keep"@),
        ("Esc"@, "cancel"@),
        ("Shift+↑↓"@, "move row"@),
        ("Ctrl+arrows"@, "resize"@),
        ("↑↓ at edge"@, "new row"@),
    ]
}

/// The arrange-mode legend, as key and action pairs.
pub fn arrange_legend() -> (r: Vec<(String, String)>)
    ensures
        r@.map_values(|p: (String, String)| (p.0@, p.1@)) == legend_spec(),
{
    let r = vec![
        (owned("←→↑↓"), owned("move")),
        (owned("Enter"), owned("keep")),
        (owned("Esc"), owned("cancel")),
        (owned("Shift+↑↓"), owned("move row")),
        (owned("Ctrl+arrows"), owned("resize")),
        (owned("↑↓ at edge"), owned("new row")),
    ];
    assert(r@.map_values(|p: (String, String)| (p.0@, p.1@)) =~= legend_spec());
    r
}

/// Focus one panel forward or backward, wrapping at both ends.
pub open spec fn cycled(focus: int, len: int, forward: bool) -> int {
    if len == 0 {
        focus
    } else if forward {
        (focus + 1) % len
    } else {
        (focus + len - 1) % len
    }
}

/// Move focus one panel forward or backward among `len`, wrapping at both
/// ends. With no panels the focus stays where it is.
pub fn cycle_focus(focus: usize, len: usize, forward: bool) -> (r: usize)
    requires
        focus < len || len == 0,
    ensures
        r == cycled(focus as int, len as int, forward),
        len > 0 ==> r < len,
{
    if len == 0 {
        return focus;
    }
    proof {
        lemma_cycled(focus as int, len as int);
    }
    if forward {
        if focus + 1 == len {
            0
        } else {
            focus + 1
        }
    } else {
        if focus == 0 {
            len - 1
        } else {
            focus - 1
        }
    }
}

proof fn lemma_cycled(focus: int, len: int)
    requires
        0 <= focus < len,
    ensures
        cycled(focus, len, true) == if focus + 1 == len {
            0
        } else {
            focus + 1
        },
        cycled(focus, len, false) == if focus == 0 {
            len - 1
        } else {
            focus - 1
        },
{
    assert(cycled(focus, len, true) == if focus + 1 == len { 0 } else { focus + 1 }) by (
        nonlinear_arith)
        requires
            0 <= focus < len,
    ;
    assert(cycled(focus, len, false) == if focus == 0 { len - 1 } else { focus - 1 }) by (
        nonlinear_arith)
        requires
            0 <= focus < len,
    ;
}

/// Focus wraps in both directions: a step forward and a step back return
/// to the same panel, and from the last panel forward is the first.
pub proof fn focus_wraps(focus: int, len: int)
    requires
        0 <= focus < len,
    ensures
        cycled(cycled(focus, len, true), len, false) == focus,
        cycled(cycled(focus, len, false), len, true) == focus,
        cycled(len - 1, len, true) == 0,
        cycled(0, len, false) == len - 1,
{
    lemma_cycled(focus, len);
    lemma_cycled(cycled(focus, len, true), len);
    lemma_cycled(cycled(focus, len, false), len);
    lemma_cycled(len - 1, len);
    lemma_cycled(0, len);
}

/// The panel a number key picks: `1` to `9` name the first nine panels;
/// anything out of range picks none.
pub open spec fn numbered(c: char, len: int) -> Option<int> {
    if '1' <= c && c <= '9' && (c as int) - ('1' as int) < len {
        Some((c as int) - ('1' as int))
    } else {
        None
    }
}

/// The panel a number key jumps to, if there is one.
pub fn panel_number(c: char, len: usize) -> (r: Option<usize>)
    ensures
        match numbered(c, len as int) {
            Some(i) => r == Some(i as usize),
            None => r is None,
        },
{
    if c < '1' || c > '9' {
        return None;
    }
    let index = (c as u32 - '1' as u32) as usize;
    if index < len {
        Some(index)
    } else {
        None
    }
}

/// Where a key scrolls the help overlay, when it is one of the keys that do.
pub open spec fn help_scrolled(scroll: u16, overflow: u16, viewport: u16, code: KeyCode) -> Option<u16> {
    let page: int = if viewport == 0 { 1 } else { viewport as int };
    let to: Option<int> = match code {
        KeyCode::Down => Some(scroll + 1),
        KeyCode::Char(c) => if c == 'j' {
            Some(scroll + 1)
        } else if c == 'k' {
            Some(if scroll >= 1 { scroll - 1 } else { 0 })
        } else {
            None
        },
        KeyCode::Up => Some(if scroll >= 1 { scroll - 1 } else { 0 }),
        KeyCode::PageDown => Some(scroll + page),
        KeyCode::PageUp => Some(if scroll >= page { scroll - page } else { 0 }),
        KeyCode::Home => Some(0),
        KeyCode::End => Some(overflow as int),
        _ => None,
    };
    match to {
        Some(t) => Some(if t > overflow { overflow } else { t as u16 }),
        None => None,
    }
}

/// Scroll the help overlay for a key: down and up by a line (also `j` and
/// `k`), by a page, or to either end, never past the overflow. `None` for a
/// key that does not scroll.
pub fn help_scroll(scroll: u16, overflow: u16, viewport: u16, code: &KeyCode) -> (r: Option<u16>)
    ensures
        r == help_scrolled(scroll, overflow, viewport, *code),
{
    let page: u16 = if viewport == 0 {
        1
    } else {
        viewport
    };
    let to: Option<u16> = match code {
        KeyCode::Down => Some(scroll.saturating_add(1)),
        KeyCode::Char(c) => if *c == 'j' {
            Some(scroll.saturating_add(1))
        } else if *c == 'k' {
            Some(scroll.saturating_sub(1))
        } else {
            None
        },
        KeyCode::Up => Some(scroll.saturating_sub(1)),
        KeyCode::PageDown => Some(scroll.saturating_add(page)),
        KeyCode::PageUp => Some(scroll.saturating_sub(page)),
        KeyCode::Home => Some(0),
        KeyCode::End => Some(overflow),
        _ => None,
    };
    match to {
        Some(t) => Some(if t > overflow {
            overflow
        } else {
            t
        }),
        None => None,
    }
}

/// What the shell is in the middle of when a key arrives.
#[derive(Debug, Clone, Copy, PartialEq, Eq)]
pub struct Modes {
    pub show_help: bool,
    pub help_scroll: u16,
    /// How far the help overlay can scroll; zero when it all fits.
    pub help_overflow: u16,
    pub help_viewport: u16,
    pub theme_picker: bool,
    pub picker: bool,
    pub arranging: bool,
    /// The focused panel is in a text-entry or modal state.
    pub captures: bool,
}

/// Where a key goes.
#[derive(Debug, Clone, Copy, PartialEq, Eq)]
pub enum Route {
    /// Ctrl+C: the focused panel's selection, then its process, may take
    /// it; otherwise the dashboard quits.
    Interrupt,
    /// The help overlay scrolls to this line.
    HelpScroll(u16),
    /// The help overlay closes; the key does nothing else.
    HelpClose,
    ThemePicker,
    Picker,
    Arrange,
    /// Resize the focused panel: its width or its row's height.
    Resize { width: bool, grow: bool },
    /// Offer the key to the focused panel, then to the global bindings.
    Dispatch,
}

pub open spec fn is_ctrl_c(key: KeyPress) -> bool {
    key.modifiers.control && key.code == KeyCode::Char('c')
}

/// Where a key goes, given what the shell is doing.
pub open spec fn route_spec(m: Modes, key: KeyPress) -> Route {
    let ctrl = key.modifiers.control;
    if is_ctrl_c(key) {
        Route::Interrupt
    } else if m.show_help {
        if m.help_overflow > 0 && help_scrolled(
            m.help_scroll,
            m.help_overflow,
            m.help_viewport,
            key.code,
        ) is Some {
            Route::HelpScroll(
                help_scrolled(m.help_scroll, m.help_overflow, m.help_viewport, key.code)->0,
            )
        } else {
            Route::HelpClose
        }
    } else if m.theme_picker {
        Route::ThemePicker
    } else if m.picker {
        Route::Picker
    } else if m.arranging && !ctrl {
        Route::Arrange
    } else if ctrl && !m.captures {
        match key.code {
            KeyCode::Right => Route::Resize { width: true, grow: true },
            KeyCode::Left => Route::Resize { width: true, grow: false },
            KeyCode::Down => Route::Resize { width: false, grow: true },
            KeyCode::Up => Route::Resize { width: false, grow: false },
            _ => Route::Dispatch,
        }
    } else {
        Route::Dispatch
    }
}

/// Decide where a key goes. Ctrl+C comes first whatever is open, so twice
/// always quits; the help overlay takes the next key; dialogs and arrange
/// mode read keys; resizing is claimed before any panel sees the arrows,
/// unless the focused panel is in a text-entry state.
pub fn route_key(m: &Modes, key: &KeyPress) -> (r: Route)
    ensures
        r == route_spec(*m, *key),
{
    let ctrl = key.modifiers.control;
    let ctrl_c = ctrl && match &key.code {
        KeyCode::Char(c) => *c == 'c',
        _ => false,
    };
    if ctrl_c {
        return Route::Interrupt;
    }
    if m.show_help {
        if m.help_overflow > 0 {
            match help_scroll(m.help_scroll, m.help_overflow, m.help_viewport, &key.code) {
                Some(to) => {
                    return Route::HelpScroll(to);
                },
                None => {},
            }
        }
        return Route::HelpClose;
    }
    if m.theme_picker {
        return Route::ThemePicker;
    }
    if m.picker {
        return Route::Picker;
    }
    if m.arranging && !ctrl {
        return Route::Arrange;
    }
    if ctrl && !m.captures {
        return match &key.code {
            KeyCode::Right => Route::Resize { width: true, grow: true },
            KeyCode::Left => Route::Resize { width: true, grow: false },
            KeyCode::Down => Route::Resize { width: false, grow: true },
            KeyCode::Up => Route::Resize { width: false, grow: false },
            _ => Route::Dispatch,
        };
    }
    Route::Dispatch
}

/// Ctrl+C reaches the interrupt chain whatever the shell is doing: no
/// overlay, dialog or mode can swallow the way out.
pub proof fn ctrl_c_is_never_swallowed(m: Modes, key: KeyPress)
    requires
        is_ctrl_c(key),
    ensures
        route_spec(m, key) == Route::Interrupt,
{
}

/// While the help overlay is open, no other key reaches a panel, a dialog
/// or a global binding: it scrolls the overlay or closes it.
pub proof fn help_takes_the_next_key(m: Modes, key: KeyPress)
    requires
        m.show_help,
        !is_ctrl_c(key),
    ensures
        route_spec(m, key) is HelpScroll || route_spec(m, key) is HelpClose,
        m.help_overflow == 0 ==> route_spec(m, key) is HelpClose,
{
}

/// A focused panel in a text-entry state vetoes resizing: with no dialog
/// or mode open, its keys are dispatched to it.
pub proof fn a_capturing_panel_keeps_the_arrows(m: Modes, key: KeyPress)
    requires
        m.captures,
        !m.show_help,
        !m.theme_picker,
        !m.picker,
        !m.arranging,
        !is_ctrl_c(key),
    ensures
        route_spec(m, key) == Route::Dispatch,
{
}

/// What the focused panel made of one Ctrl+C: its selection copy first, then
/// (`None` when it was not asked, or there is no panel) its interrupt.
pub type Press = (KeyOutcome, Option<KeyOutcome>);

/// A Ctrl+C quits unless the focused panel copied a selection or took the
/// interrupt.
pub open spec fn quits(p: Press) -> bool {
    p.0 == KeyOutcome::Ignored && p.1 != Some(KeyOutcome::Consumed)
}

/// `b` is the press right after `a`, with the panel keeping its contract:
/// pressing Ctrl+C selects nothing, so nothing is there to copy, and an
/// interrupt the panel took disarms it for the next press.
pub open spec fn next_press(a: Press, b: Press) -> bool {
    &&& b.0 == KeyOutcome::Ignored
    &&& a.1 == Some(KeyOutcome::Consumed) ==> b.1 != Some(KeyOutcome::Consumed)
}

/// Whether a Ctrl+C quits the dashboard, given what the focused panel made
/// of it: `copied` is its selection copy, `interrupted` its interrupt, asked
/// only when the copy declined (and `None` when not asked, or when no panel
/// is focused).
pub fn ctrl_c_quits(copied: KeyOutcome, interrupted: Option<KeyOutcome>) -> (quit: bool)
    ensures
        quit == quits((copied, interrupted)),
{
    match (copied, interrupted) {
        (KeyOutcome::Ignored, Some(KeyOutcome::Consumed)) => false,
        (KeyOutcome::Ignored, _) => true,
        (KeyOutcome::Consumed, _) => false,
    }
}

/// Ctrl+C twice always quits, whatever the shell is doing: every Ctrl+C
/// reaches the interrupt chain (see [`ctrl_c_is_never_swallowed`]), and of
/// two presses in a row with nothing selected, one quits.
pub proof fn ctrl_c_twice_quits(m1: Modes, m2: Modes, key: KeyPress, first: Press, second: Press)
    requires
        is_ctrl_c(key),
        first.0 == KeyOutcome::Ignored,
        next_press(first, second),
    ensures
        route_spec(m1, key) == Route::Interrupt,
        route_spec(m2, key) == Route::Interrupt,
        quits(first) || quits(second),
{
}

/// With a selection to copy, the first press copies it and a third press is
/// needed: of three presses in a row, one always quits.
pub proof fn ctrl_c_thrice_quits(first: Press, second: Press, third: Press)
    requires
        next_press(first, second),
        next_press(second, third),
    ensures
        quits(first) || quits(second) || quits(third),
{
}

/// No overlay, dialog or mode is open, and the focused panel is not taking
/// every key.
pub open spec fn at_rest(m: Modes) -> bool {
    !m.show_help && !m.theme_picker && !m.picker && !m.captures
}

/// Ctrl and an arrow resize the focused panel, the way tmux resizes panes:
/// Right widens it and Left narrows it, Down makes its row taller and Up
/// makes it shorter. Arrange mode does not take them, so they resize there
/// too.
pub proof fn ctrl_arrows_resize_in_opposite_directions(m: Modes, modifiers: Modifiers)
    requires
        at_rest(m),
        modifiers.control,
    ensures
        route_spec(m, KeyPress { code: KeyCode::Right, modifiers }) == (Route::Resize {
            width: true,
            grow: true,
        }),
        route_spec(m, KeyPress { code: KeyCode::Left, modifiers }) == (Route::Resize {
            width: true,
            grow: false,
        }),
        route_spec(m, KeyPress { code: KeyCode::Down, modifiers }) == (Route::Resize {
            width: false,
            grow: true,
        }),
        route_spec(m, KeyPress { code: KeyCode::Up, modifiers }) == (Route::Resize {
            width: false,
            grow: false,
        }),
{
}

/// Without Ctrl, and with nothing open, the arrows go to the focused panel.
pub proof fn plain_arrows_reach_the_panel(m: Modes, key: KeyPress)
    requires
        at_rest(m),
        !m.arranging,
        !key.modifiers.control,
    ensures
        route_spec(m, key) == Route::Dispatch,
{
}

/// What a global key does once the focused panel has declined it.
#[derive(Debug, Clone, Copy, PartialEq, Eq)]
pub enum GlobalAction {
    Quit,
    FocusNext,
    FocusBack,
    Help,
    Picker,
    Theme,
    Arrange,
    Jump(usize),
    Nothing,
}

pub open spec fn global_spec_action(code: KeyCode, len: int) -> GlobalAction {
    match code {
        KeyCode::Char(c) => if c == 'q' {
            GlobalAction::Quit
        } else if c == '?' {
            GlobalAction::Help
        } else if c == 'w' {
            GlobalAction::Picker
        } else if c == 't' {
            GlobalAction::Theme
        } else if c == 'm' {
            GlobalAction::Arrange
        } else {
            match numbered(c, len) {
                Some(i) => GlobalAction::Jump(i as usize),
                None => GlobalAction::Nothing,
            }
        },
        KeyCode::Tab => GlobalAction::FocusNext,
        KeyCode::BackTab => GlobalAction::FocusBack,
        _ => GlobalAction::Nothing,
    }
}

/// The global binding for a key no panel took, with `len` panels. Esc is
/// not one: it backs out of things, and never quits.
pub fn global_action(code: &KeyCode, len: usize) -> (r: GlobalAction)
    ensures
        r == global_spec_action(*code, len as int),
{
    match code {
        KeyCode::Char(c) => {
            let c = *c;
            if c == 'q' {
                GlobalAction::Quit
            } else if c == '?' {
                GlobalAction::Help
            } else if c == 'w' {
                GlobalAction::Picker
            } else if c == 't' {
                GlobalAction::Theme
            } else if c == 'm' {
                GlobalAction::Arrange
            } else {
                match panel_number(c, len) {
                    Some(i) => GlobalAction::Jump(i),
                    None => GlobalAction::Nothing,
                }
            }
        },
        KeyCode::Tab => GlobalAction::FocusNext,
        KeyCode::BackTab => GlobalAction::FocusBack,
        _ => GlobalAction::Nothing,
    }
}

/// The global keys: Tab moves focus forward and Shift+Tab back, `q` quits,
/// `?` opens the help, `w` the panel picker, `t` the theme picker and `m`
/// arrange mode; `1` to `9` jump to the first nine panels that exist; Esc
/// and every other key do nothing.
pub proof fn global_keys_do_what_they_say(len: int, c: char)
    ensures
        global_spec_action(KeyCode::Tab, len) == GlobalAction::FocusNext,
        global_spec_action(KeyCode::BackTab, len) == GlobalAction::FocusBack,
        global_spec_action(KeyCode::Char('q'), len) == GlobalAction::Quit,
        global_spec_action(KeyCode::Char('?'), len) == GlobalAction::Help,
        global_spec_action(KeyCode::Char('w'), len) == GlobalAction::Picker,
        global_spec_action(KeyCode::Char('t'), len) == GlobalAction::Theme,
        global_spec_action(KeyCode::Char('m'), len) == GlobalAction::Arrange,
        global_spec_action(KeyCode::Esc, len) == GlobalAction::Nothing,
        '1' <= c <= '9' && (c as int) - 49 < len ==> global_spec_action(KeyCode::Char(c), len)
            == GlobalAction::Jump(((c as int) - 49) as usize),
        '1' <= c <= '9' && (c as int) - 49 >= len ==> global_spec_action(KeyCode::Char(c), len)
            == GlobalAction::Nothing,
        !('1' <= c <= '9') && c != 'q' && c != '?' && c != 'w' && c != 't' && c != 'm'
            ==> global_spec_action(KeyCode::Char(c), len) == GlobalAction::Nothing,
{
}

/// Focus moves forward with Tab and back with Shift+Tab: the next panel,
/// the last after the first, and the two undo each other.
pub proof fn tab_moves_focus_forward_and_back(focus: int, len: int)
    requires
        0 <= focus < len,
    ensures
        cycled(focus, len, true) == if focus == len - 1 {
            0
        } else {
            focus + 1
        },
        cycled(focus, len, false) == if focus == 0 {
            len - 1
        } else {
            focus - 1
        },
{
    lemma_cycled(focus, len);
}

/// A direction to move a panel in arrange mode.
#[derive(Debug, Clone, Copy, PartialEq, Eq)]
pub enum Direction {
    Left,
    Right,
    Up,
    Down,
}

/// What a key does in arrange mode.
#[derive(Debug, Clone, Copy, PartialEq, Eq)]
pub enum ArrangeAction {
    /// Move the focused panel's whole row, down or up.
    MoveRow(bool),
    /// Move the focused panel one step.
    Move(Direction),
    FocusNext,
    FocusBack,
    Jump(usize),
    /// Leave the mode, keeping the arrangement.
    Keep,
    /// Leave the mode, putting the layout back as it was.
    Cancel,
    Nothing,
}

pub open spec fn arrange_spec(key: KeyPress, len: int) -> ArrangeAction {
    let shifted = key.modifiers.shift;
    match key.code {
        KeyCode::Up => if shifted {
            ArrangeAction::MoveRow(false)
        } else {
            ArrangeAction::Move(Direction::Up)
        },
        KeyCode::Down => if shifted {
            ArrangeAction::MoveRow(true)
        } else {
            ArrangeAction::Move(Direction::Down)
        },
        KeyCode::Left => ArrangeAction::Move(Direction::Left),
        KeyCode::Right => ArrangeAction::Move(Direction::Right),
        KeyCode::Char(c) => if c == 'K' {
            ArrangeAction::MoveRow(false)
        } else if c == 'J' {
            ArrangeAction::MoveRow(true)
        } else if c == 'h' {
            ArrangeAction::Move(Direction::Left)
        } else if c == 'l' {
            ArrangeAction::Move(Direction::Right)
        } else if c == 'k' {
            ArrangeAction::Move(Direction::Up)
        } else if c == 'j' {
            ArrangeAction::Move(Direction::Down)
        } else if c == 'm' || c == 'q' {
            ArrangeAction::Keep
        } else {
            match numbered(c, len) {
                Some(i) => ArrangeAction::Jump(i as usize),
                None => ArrangeAction::Nothing,
            }
        },
        KeyCode::Tab => ArrangeAction::FocusNext,
        KeyCode::BackTab => ArrangeAction::FocusBack,
        KeyCode::Enter => ArrangeAction::Keep,
        KeyCode::Esc => ArrangeAction::Cancel,
        _ => ArrangeAction::Nothing,
    }
}

/// What a key does in arrange mode, with `len` panels. The shifted arrows
/// (and `K`, `J`) move the whole row; the plain ones (and `h`, `j`, `k`,
/// `l`) move the panel.
pub fn arrange_action(key: &KeyPress, len: usize) -> (r: ArrangeAction)
    ensures
        r == arrange_spec(*key, len as int),
{
    let shifted = key.modifiers.shift;
    match &key.code {
        KeyCode::Up => if shifted {
            ArrangeAction::MoveRow(false)
        } else {
            ArrangeAction::Move(Direction::Up)
        },
        KeyCode::Down => if shifted {
            ArrangeAction::MoveRow(true)
        } else {
            ArrangeAction::Move(Direction::Down)
        },
        KeyCode::Left => ArrangeAction::Move(Direction::Left),
        KeyCode::Right => ArrangeAction::Move(Direction::Right),
        KeyCode::Char(c) => {
            let c = *c;
            if c == 'K' {
                ArrangeAction::MoveRow(false)
            } else if c == 'J' {
                ArrangeAction::MoveRow(true)
            } else if c == 'h' {
                ArrangeAction::Move(Direction::Left)
            } else if c == 'l' {
                ArrangeAction::Move(Direction::Right)
            } else if c == 'k' {
                ArrangeAction::Move(Direction::Up)
            } else if c == 'j' {
                ArrangeAction::Move(Direction::Down)
            } else if c == 'm' || c == 'q' {
                ArrangeAction::Keep
            } else {
                match panel_number(c, len) {
                    Some(i) => ArrangeAction::Jump(i),
                    None => ArrangeAction::Nothing,
                }
            }
        },
        KeyCode::Tab => ArrangeAction::FocusNext,
        KeyCode::BackTab => ArrangeAction::FocusBack,
        KeyCode::Enter => ArrangeAction::Keep,
        KeyCode::Esc => ArrangeAction::Cancel,
        _ => ArrangeAction::Nothing,
    }
}

/// In arrange mode the arrows (and `h`, `j`, `k`, `l`) move the focused
/// panel the way they point, Shift+Up and Shift+Down (and `K`, `J`) move its
/// row up and down, Enter, `m` and `q` keep the arrangement, and Esc puts it
/// back.
pub proof fn arrange_keys_move_the_way_they_point(len: int, modifiers: Modifiers)
    ensures
        arrange_spec(KeyPress { code: KeyCode::Left, modifiers }, len) == ArrangeAction::Move(
            Direction::Left,
        ),
        arrange_spec(KeyPress { code: KeyCode::Right, modifiers }, len) == ArrangeAction::Move(
            Direction::Right,
        ),
        !modifiers.shift ==> arrange_spec(KeyPress { code: KeyCode::Up, modifiers }, len)
            == ArrangeAction::Move(Direction::Up),
        !modifiers.shift ==> arrange_spec(KeyPress { code: KeyCode::Down, modifiers }, len)
            == ArrangeAction::Move(Direction::Down),
        modifiers.shift ==> arrange_spec(KeyPress { code: KeyCode::Up, modifiers }, len)
            == ArrangeAction::MoveRow(false),
        modifiers.shift ==> arrange_spec(KeyPress { code: KeyCode::Down, modifiers }, len)
            == ArrangeAction::MoveRow(true),
        arrange_spec(KeyPress { code: KeyCode::Char('h'), modifiers }, len) == ArrangeAction::Move(
            Direction::Left,
        ),
        arrange_spec(KeyPress { code: KeyCode::Char('l'), modifiers }, len) == ArrangeAction::Move(
            Direction::Right,
        ),
        arrange_spec(KeyPress { code: KeyCode::Char('k'), modifiers }, len) == ArrangeAction::Move(
            Direction::Up,
        ),
        arrange_spec(KeyPress { code: KeyCode::Char('j'), modifiers }, len) == ArrangeAction::Move(
            Direction::Down,
        ),
        arrange_spec(KeyPress { code: KeyCode::Char('K'), modifiers }, len)
            == ArrangeAction::MoveRow(false),
        arrange_spec(KeyPress { code: KeyCode::Char('J'), modifiers }, len)
            == ArrangeAction::MoveRow(true),
        arrange_spec(KeyPress { code: KeyCode::Enter, modifiers }, len) == ArrangeAction::Keep,
        arrange_spec(KeyPress { code: KeyCode::Char('m'), modifiers }, len) == ArrangeAction::Keep,
        arrange_spec(KeyPress { code: KeyCode::Char('q'), modifiers }, len) == ArrangeAction::Keep,
        arrange_spec(KeyPress { code: KeyCode::Esc, modifiers }, len) == ArrangeAction::Cancel,
        arrange_spec(KeyPress { code: KeyCode::Tab, modifiers }, len) == ArrangeAction::FocusNext,
        arrange_spec(KeyPress { code: KeyCode::BackTab, modifiers }, len)
            == ArrangeAction::FocusBack,
{
}

/// The help overlay scrolls the way the keys point and never past either
/// end: Down and `j` one line further, Up and `k` one line back, Page Down
/// and Page Up a page, Home to the top and End to the bottom.
pub proof fn help_scrolls_the_way_the_keys_point(scroll: u16, overflow: u16, viewport: u16)
    requires
        scroll <= overflow,
    ensures
        help_scrolled(scroll, overflow, viewport, KeyCode::Down) == Some(
            if scroll < overflow { (scroll + 1) as u16 } else { overflow },
        ),
        help_scrolled(scroll, overflow, viewport, KeyCode::Char('j')) == Some(
            if scroll < overflow { (scroll + 1) as u16 } else { overflow },
        ),
        help_scrolled(scroll, overflow, viewport, KeyCode::Up) == Some(
            if scroll > 0 { (scroll - 1) as u16 } else { 0u16 },
        ),
        help_scrolled(scroll, overflow, viewport, KeyCode::Char('k')) == Some(
            if scroll > 0 { (scroll - 1) as u16 } else { 0u16 },
        ),
        help_scrolled(scroll, overflow, viewport, KeyCode::Home) == Some(0u16),
        help_scrolled(scroll, overflow, viewport, KeyCode::End) == Some(overflow),
        help_scrolled(scroll, overflow, viewport, KeyCode::PageDown) matches Some(t) && scroll
            <= t <= overflow && (t == overflow || t == scroll + (if viewport == 0 {
            1
        } else {
            viewport
        })),
        help_scrolled(scroll, overflow, viewport, KeyCode::PageUp) matches Some(t) && t <= scroll
            && (t == 0 || t == scroll - (if viewport == 0 {
            1
        } else {
            viewport
        })),
        help_scrolled(scroll, overflow, viewport, KeyCode::Char('x')) is None,
{
}

/// The key that types `c`.
pub open spec fn typed_key(c: char) -> KeyCode {
    KeyCode::Char(c)
}

/// The keys a bracketed paste types into a panel that has no use for the
/// whole block: `\r\n` and a lone `\r` are one Enter, `\n` is Enter, `\t`
/// is Tab, other control characters are dropped.
pub open spec fn paste_codes(s: Seq<char>) -> Seq<KeyCode>
    decreases s.len(),
{
    if s.len() == 0 {
        Seq::empty()
    } else if s[0] == '\r' && s.len() > 1 && s[1] == '\n' {
        seq![KeyCode::Enter] + paste_codes(s.skip(2))
    } else if s[0] == '\r' || s[0] == '\n' {
        seq![KeyCode::Enter] + paste_codes(s.skip(1))
    } else if s[0] == '\t' {
        seq![KeyCode::Tab] + paste_codes(s.skip(1))
    } else if !is_control(s[0]) {
        seq![typed_key(s[0])] + paste_codes(s.skip(1))
    } else {
        paste_codes(s.skip(1))
    }
}

proof fn lemma_paste_step(s: Seq<char>)
    requires
        s.len() > 0,
    ensures
        s[0] == '\r' && s.len() > 1 && s[1] == '\n' ==> paste_codes(s) == seq![KeyCode::Enter]
            + paste_codes(s.skip(2)),
        !(s[0] == '\r' && s.len() > 1 && s[1] == '\n') && (s[0] == '\r' || s[0] == '\n')
            ==> paste_codes(s) == seq![KeyCode::Enter] + paste_codes(s.skip(1)),
        s[0] == '\t' ==> paste_codes(s) == seq![KeyCode::Tab] + paste_codes(s.skip(1)),
        s[0] != '\r' && s[0] != '\n' && s[0] != '\t' && !is_control(s[0]) ==> paste_codes(s)
            == seq![typed_key(s[0])] + paste_codes(s.skip(1)),
        s[0] != '\r' && s[0] != '\n' && s[0] != '\t' && is_control(s[0]) ==> paste_codes(s)
            == paste_codes(s.skip(1)),
{
    let enter2 = seq![KeyCode::Enter] + paste_codes(s.skip(2));
    let enter1 = seq![KeyCode::Enter] + paste_codes(s.skip(1));
    let tab = seq![KeyCode::Tab] + paste_codes(s.skip(1));
    let typed = seq![typed_key(s[0])] + paste_codes(s.skip(1));
    let dropped = paste_codes(s.skip(1));
    let unfolded = if s[0] == '\r' && s.len() > 1 && s[1] == '\n' {
        enter2
    } else if s[0] == '\r' || s[0] == '\n' {
        enter1
    } else if s[0] == '\t' {
        tab
    } else if !is_control(s[0]) {
        typed
    } else {
        dropped
    };
    assert(paste_codes(s) == unfolded);
}

/// The key codes a pasted block types, in order.
pub fn paste_keys(text: &str) -> (r: Vec<KeyCode>)
    ensures
        r@ == paste_codes(text@),
{
    let chars = chars_of(text);
    let mut r: Vec<KeyCode> = Vec::new();
    let mut i: usize = 0;
    assert(text@.skip(0) =~= text@);
    assert(r@ + paste_codes(text@) =~= paste_codes(text@));
    while i < chars.len()
        invariant
            i <= chars.len(),
            chars@ == text@,
            paste_codes(text@) == r@ + paste_codes(text@.skip(i as int)),
        decreases chars.len() - i,
    {
        let ghost rest = text@.skip(i as int);
        let ghost before = r@;
        let c = chars[i];
        assert(rest[0] == c);
        proof {
            lemma_paste_step(rest);
        }
        if c == '\r' && i + 1 < chars.len() && chars[i + 1] == '\n' {
            assert(rest[1] == '\n');
            assert(rest.skip(2) =~= text@.skip(i as int + 2));
            r.push(KeyCode::Enter);
            i = i + 2;
            assert(before + (seq![KeyCode::Enter] + paste_codes(text@.skip(i as int))) =~= r@
                + paste_codes(text@.skip(i as int)));
        } else {
            assert(rest.skip(1) =~= text@.skip(i as int + 1));
            let ghost tail = paste_codes(text@.skip(i as int + 1));
            if c == '\r' || c == '\n' {
                r.push(KeyCode::Enter);
                assert(before + (seq![KeyCode::Enter] + tail) =~= r@ + tail);
            } else if c == '\t' {
                r.push(KeyCode::Tab);
                assert(before + (seq![KeyCode::Tab] + tail) =~= r@ + tail);
            } else if !crate::text::char_is_control(c) {
                r.push(KeyCode::Char(c));
                assert(before + (seq![typed_key(c)] + tail) =~= r@ + tail);
            }
            i = i + 1;
        }
    }
    assert(text@.skip(i as int) =~= Seq::<char>::empty());
    assert(r@ + Seq::<KeyCode>::empty() =~= r@);
    r
}

/// Whether a mouse event is worth acting on: a press or a scroll. Motion and
/// release arrive constantly and mean nothing to the shell.
pub fn mouse_matters(kind: MouseKind) -> (r: bool)
    ensures
        r == (kind is Down || kind is ScrollUp || kind is ScrollDown),
{
    match kind {
        MouseKind::Down(_) | MouseKind::ScrollUp | MouseKind::ScrollDown => true,
        _ => false,
    }
}

/// The tick rate the config asks for, held between 16 ms and 5 s.
pub fn tick_rate_ms(configured: u64) -> (r: u64)
    ensures
        r == if configured < 16 {
            16
        } else if configured > 5000 {
            5000
        } else {
            configured
        },
{
    if configured < 16 {
        16
    } else if configured > 5000 {
        5000
    } else {
        configured
    }
}

/// How long to wait for input. A focused panel that captures input may ask
/// to be polled sooner, down to its refresh interval but never below 16 ms,
/// so an external process cannot turn the shell into a busy loop.
pub fn poll_wait_ms(configured: u64, captures: bool, refresh: u64) -> (r: u64)
    ensures
        !captures ==> r == configured,
        captures ==> r == if configured <= (if refresh < 16 { 16 } else { refresh }) {
            configured
        } else {
            if refresh < 16 {
                16
            } else {
                refresh
            }
        },
        r <= configured,
        captures ==> r >= 16 || r == configured,
{
    if !captures {
        return configured;
    }
    let floor: u64 = if refresh < 16 {
        16
    } else {
        refresh
    };
    if configured <= floor {
        configured
    } else {
        floor
    }
}

/// The alert raised when the layout could not be written back.
pub fn layout_alert(why: &str) -> (a: Alert)
    ensures
        a.severity == Severity::Failing,
        a.text@ == "The layout could not be saved — "@ + why@,
{
    Alert::failing(join2("The layout could not be saved — ", why))
}

/// The update notice, while it is on screen and a newer version is known.
pub fn update_hint(showing: bool, latest: &Option<String>) -> (r: Option<String>)
    ensures
        !showing ==> r is None,
        showing ==> match latest {
            Some(v) => r matches Some(t) && t@ == "mirador "@ + v@ + " is out   mirador --update "@,
            None => r is None,
        },
{
    if !showing {
        return None;
    }
    match latest {
        Some(v) => Some(join3("mirador ", v.as_str(), " is out   mirador --update ")),
        None => None,
    }
}

/// The padding before a right-aligned hint on a bar `total` cells wide that
/// already holds `used`, when it fits with a cell to spare on each side of
/// the gap. The hint gives way to the global keys otherwise.
pub fn hint_gap(used: usize, hint: usize, total: usize) -> (r: Option<usize>)
    ensures
        used + hint + 3 <= total ==> r == Some((total - used - hint - 1) as usize),
        used + hint + 3 > total ==> r is None,
{
    if used > total || hint > total - used || total - used - hint < 3 {
        return None;
    }
    Some(total - used - hint - 1)
}

/// Where a bracketed paste goes.
#[derive(Debug, Clone, Copy, PartialEq, Eq)]
pub enum PasteRoute {
    /// The help overlay closes, as it does on any input.
    CloseHelp,
    /// A dialog or arrange mode is open; the paste does nothing.
    Drop,
    /// Offer it to the focused panel whole; if it declines and captures
    /// input, type it as keys (see [`paste_keys`]).
    Focused,
}

/// Where a paste goes, given what the shell is doing.
pub fn route_paste(m: &Modes) -> (r: PasteRoute)
    ensures
        m.show_help ==> r == PasteRoute::CloseHelp,
        !m.show_help && (m.theme_picker || m.picker || m.arranging) ==> r == PasteRoute::Drop,
        !m.show_help && !(m.theme_picker || m.picker || m.arranging) ==> r == PasteRoute::Focused,
{
    if m.show_help {
        PasteRoute::CloseHelp
    } else if m.theme_picker || m.picker || m.arranging {
        PasteRoute::Drop
    } else {
        PasteRoute::Focused
    }
}

/// Whether a cell lies inside an area.
pub open spec fn inside(a: Area, column: u16, row: u16) -> bool {
    a.x <= column && column < a.x + a.width && a.y <= row && row < a.y + a.height
}

/// Whether the cell at `column`, `row` lies inside `a`.
pub fn contains(a: &Area, column: u16, row: u16) -> (r: bool)
    ensures
        r == inside(*a, column, row),
{
    a.x <= column && (column as u32) < (a.x as u32) + (a.width as u32) && a.y <= row && (row
        as u32) < (a.y as u32) + (a.height as u32)
}

/// The first panel whose interior holds the cell, if any. A panel that was
/// not drawn has no interior.
pub fn panel_at(areas: &Vec<Option<Area>>, column: u16, row: u16) -> (r: Option<usize>)
    ensures
        match r {
            Some(i) => i < areas@.len() && (areas@[i as int] matches Some(a) && inside(a, column, row))
                && forall|j: int|
                0 <= j < i ==> !(#[trigger] areas@[j] matches Some(b) && inside(b, column, row)),
            None => forall|j: int|
                0 <= j < areas@.len() ==> !(#[trigger] areas@[j] matches Some(b) && inside(
                    b,
                    column,
                    row,
                )),
        },
{
    let mut i: usize = 0;
    while i < areas.len()
        invariant
            i <= areas@.len(),
            forall|j: int|
                0 <= j < i ==> !(#[trigger] areas@[j] matches Some(b) && inside(b, column, row)),
        decreases areas.len() - i,
    {
        match &areas[i] {
            Some(a) => {
                if contains(a, column, row) {
                    return Some(i);
                }
            },
            None => {},
        }
        i = i + 1;
    }
    None
}

/// What a mouse event does in the shell.
#[derive(Debug, Clone, Copy, PartialEq, Eq)]
pub enum MouseRoute {
    /// Nothing to act on.
    Ignore,
    /// The help overlay closes, as it does on any input.
    CloseHelp,
    /// Offer the event to the focused panel, which captures input.
    Focused,
    /// Offer it to the panel under the pointer, focusing it first on a click.
    Offer { index: usize, focus: bool },
}

/// Where a mouse event goes. Motion and release mean nothing; a panel in a
/// text-entry state keeps the mouse too, so a stray click cannot pull focus
/// out of a half-typed form; a wheel scrolls the panel under the pointer
/// without moving focus.
pub fn route_mouse(
    kind: MouseKind,
    show_help: bool,
    captures: bool,
    inside_focused: bool,
    under: Option<usize>,
) -> (r: MouseRoute)
    ensures
        !(kind is Down || kind is ScrollUp || kind is ScrollDown) ==> r == MouseRoute::Ignore,
        (kind is Down || kind is ScrollUp || kind is ScrollDown) ==> r == if show_help {
            MouseRoute::CloseHelp
        } else if captures {
            if inside_focused {
                MouseRoute::Focused
            } else {
                MouseRoute::Ignore
            }
        } else {
            match under {
                Some(i) => MouseRoute::Offer { index: i, focus: kind is Down },
                None => MouseRoute::Ignore,
            }
        },
{
    if !mouse_matters(kind) {
        return MouseRoute::Ignore;
    }
    if show_help {
        return MouseRoute::CloseHelp;
    }
    if captures {
        return if inside_focused {
            MouseRoute::Focused
        } else {
            MouseRoute::Ignore
        };
    }
    let click = match kind {
        MouseKind::Down(_) => true,
        _ => false,
    };
    match under {
        Some(i) => MouseRoute::Offer { index: i, focus: click },
        None => MouseRoute::Ignore,
    }
}

/// Whether a panel is due a tick: it never has been, or its interval has
/// passed since the last one.
pub fn is_due(since_last_ms: Option<u64>, interval_ms: u64) -> (r: bool)
    ensures
        r == match since_last_ms {
            None => true,
            Some(e) => e >= interval_ms,
        },
{
    match since_last_ms {
        None => true,
        Some(e) => e >= interval_ms,
    }
}

/// The total of the first `k` widths.
pub open spec fn width_sum(ws: Seq<usize>, k: int) -> int
    decreases k,
{
    if k <= 0 {
        0
    } else {
        width_sum(ws, k - 1) + ws[k - 1]
    }
}

/// How many of a bar's parts fit in `room` cells, taking them in order and
/// dropping the rest whole: half a hint reads as a rendering fault, where a
/// missing one reads as a narrow terminal.
pub fn hints_that_fit(widths: &Vec<usize>, room: usize) -> (k: usize)
    ensures
        k <= widths@.len(),
        width_sum(widths@, k as int) <= room,
        k < widths@.len() ==> width_sum(widths@, k as int + 1) > room,
{
    let mut used: usize = 0;
    let mut k: usize = 0;
    while k < widths.len()
        invariant
            k <= widths@.len(),
            used == width_sum(widths@, k as int),
            used <= room,
        decreases widths.len() - k,
    {
        if widths[k] > room - used {
            return k;
        }
        used = used + widths[k];
        k = k + 1;
    }
    k
}

/// How the help overlay's interior is shared: the last row for its footer
/// and the one above it blank, but never at the cost of showing no text.
/// Gives the rows left for text, and the rows taken by the footer.
pub fn help_rows(inner_height: u16) -> (r: (u16, u16))
    ensures
        r.1 == if inner_height >= 3 {
            2
        } else if inner_height >= 1 {
            (inner_height - 1) as u16
        } else {
            0
        },
        r.0 == inner_height - r.1,
        inner_height > 0 ==> r.0 >= 1,
{
    let spare: u16 = if inner_height >= 1 {
        inner_height - 1
    } else {
        0
    };
    let footer: u16 = if spare < 2 {
        spare
    } else {
        2
    };
    (inner_height - footer, footer)
}

/// The help overlay's pinned footer: how to close it, and when the text
/// overflows, which ways it scrolls and how far down the reader is. Gives
/// the arrows (when there are any) and the text after them.
pub fn help_footer(scroll: u16, overflow: u16, viewport: u16) -> (r: (Option<String>, String))
    requires
        scroll + viewport <= u16::MAX,
        overflow + viewport <= u16::MAX,
    ensures
        overflow == 0 ==> r.0 is None && r.1@ == "any key to close"@,
        overflow > 0 ==> {
            &&& r.0 matches Some(a) && a@ == if scroll > 0 && scroll < overflow {
                "↑↓"@
            } else if scroll > 0 {
                "↑"@
            } else {
                "↓"@
            }
            &&& r.1@ == " "@ + decimal((scroll + viewport) as nat) + "/"@ + decimal(
                (overflow + viewport) as nat,
            ) + " · any other key to close"@
        },
{
    if overflow == 0 {
        return (None, owned("any key to close"));
    }
    let arrows = if scroll > 0 && scroll < overflow {
        owned("↑↓")
    } else if scroll > 0 {
        owned("↑")
    } else {
        owned("↓")
    };
    let mut text = join2(" ", decimal_text((scroll + viewport) as u64).as_str());
    text.append("/");
    text.append(decimal_text((overflow + viewport) as u64).as_str());
    text.append(" · any other key to close");
    (Some(arrows), text)
}

/// The help overlay's width, when the terminal has room for it.
pub const HELP_WIDTH: u16 = 46;

/// The columns the overlay's frame takes: a border and a cell of padding on
/// each side.
pub const HELP_FRAME_WIDTH: u16 = 4;

/// The rows around the overlay's text: two borders, the blank line and the
/// footer.
pub const HELP_CHROME: u16 = 4;

/// The rows a line `w` cells wide takes at `width` cells per row: at least
/// one, and one more for a part row.
pub open spec fn rows_for(w: int, width: int) -> int {
    if w == 0 {
        1
    } else {
        w / width + if w % width == 0 {
            0int
        } else {
            1int
        }
    }
}

/// The rows the first `k` lines take.
pub open spec fn wrapped_total(ws: Seq<usize>, width: int, k: int) -> int
    decreases k,
{
    if k <= 0 {
        0
    } else {
        wrapped_total(ws, width, k - 1) + rows_for(ws[k - 1] as int, width)
    }
}

/// `v`, or `u16::MAX` when it does not fit.
pub open spec fn capped_u16(v: int) -> u16 {
    if v > u16::MAX {
        u16::MAX
    } else {
        v as u16
    }
}

proof fn lemma_wrapped_grows(ws: Seq<usize>, width: int, k: int)
    requires
        width > 0,
        0 <= k,
    ensures
        wrapped_total(ws, width, k) >= 0,
    decreases k,
{
    if k > 0 {
        lemma_wrapped_grows(ws, width, k - 1);
        assert(rows_for(ws[k - 1] as int, width) >= 0) by (nonlinear_arith)
            requires
                width > 0,
                ws[k - 1] >= 0,
        ;
    }
}

/// How many rows lines of these widths (in cells) take when wrapped at
/// `width` cells, counting an empty line as one row and breaking a long line
/// wherever the row runs out. Saturates at `u16::MAX`.
pub fn wrapped_rows(widths: &Vec<usize>, width: u16) -> (r: u16)
    requires
        width > 0,
    ensures
        r == capped_u16(wrapped_total(widths@, width as int, widths@.len() as int)),
{
    let mut total: u16 = 0;
    let mut k: usize = 0;
    while k < widths.len()
        invariant
            width > 0,
            k <= widths@.len(),
            total == capped_u16(wrapped_total(widths@, width as int, k as int)),
        decreases widths.len() - k,
    {
        let w = widths[k];
        let wd = width as usize;
        let rows: usize = if w == 0 {
            1
        } else if w % wd == 0 {
            w / wd
        } else {
            assert(w / wd < w) by (nonlinear_arith)
                requires
                    wd > 0,
                    w > 0,
                    w % wd != 0,
            {
                assert(wd != 1);
            }
            w / wd + 1
        };
        proof {
            lemma_wrapped_grows(widths@, width as int, k as int);
            assert(rows as int == rows_for(w as int, width as int));
        }
        if rows >= (u16::MAX - total) as usize {
            total = u16::MAX;
        } else {
            total = total + rows as u16;
        }
        k = k + 1;
    }
    total
}

/// The width the overlay's text wraps at in an area `area_width` wide.
pub fn help_text_width(area_width: u16) -> (r: u16)
    ensures
        r == if area_width < HELP_WIDTH {
            if area_width > HELP_FRAME_WIDTH + 1 {
                (area_width - HELP_FRAME_WIDTH) as u16
            } else {
                1
            }
        } else {
            (HELP_WIDTH - HELP_FRAME_WIDTH) as u16
        },
        r >= 1,
{
    let width = if area_width < HELP_WIDTH {
        area_width
    } else {
        HELP_WIDTH
    };
    if width > HELP_FRAME_WIDTH + 1 {
        width - HELP_FRAME_WIDTH
    } else {
        1
    }
}

/// Where the help overlay goes and how its interior is used.
#[derive(Debug, Clone, Copy, PartialEq, Eq)]
pub struct HelpLayout {
    /// The overlay, border included, centred in the area.
    pub popup: Area,
    /// Rows of the interior given to the text.
    pub text_rows: u16,
    /// Rows of the interior given to the footer and the blank line above it.
    pub footer_rows: u16,
    /// How far the text can scroll; zero when it all fits.
    pub overflow: u16,
    /// The scroll position, held within the overflow.
    pub scroll: u16,
}

/// Size and place the help overlay for text `text_height` rows tall (after
/// wrapping) in `area`: as wide as [`HELP_WIDTH`] allows, as tall as the
/// text and its chrome need, centred, never larger than the area. The text
/// scrolls by however much it overflows the rows left for it, and a scroll
/// position from an earlier, larger overlay is pulled back into range.
/// With no interior at all, nothing overflows and the scroll is left alone.
pub fn help_layout(area: &Area, text_height: u16, scroll: u16) -> (h: HelpLayout)
    requires
        area.x + area.width <= u16::MAX,
        area.y + area.height <= u16::MAX,
    ensures
        h.popup.width == if area.width < HELP_WIDTH {
            area.width
        } else {
            HELP_WIDTH
        },
        h.popup.height == if text_height + HELP_CHROME < area.height {
            (text_height + HELP_CHROME) as u16
        } else {
            area.height
        },
        h.popup.x == area.x + (area.width - h.popup.width) / 2,
        h.popup.y == area.y + (area.height - h.popup.height) / 2,
        h.popup.height <= 2 ==> h.text_rows == 0 && h.footer_rows == 0 && h.overflow == 0
            && h.scroll == scroll,
        h.popup.height > 2 ==> {
            let inner = h.popup.height - 2;
            &&& h.footer_rows == if inner >= 3 {
                2
            } else {
                inner - 1
            }
            &&& h.text_rows == inner - h.footer_rows
            &&& h.overflow == if text_height > h.text_rows {
                text_height - h.text_rows
            } else {
                0
            }
            &&& h.scroll == if scroll < h.overflow {
                scroll
            } else {
                h.overflow
            }
        },
{
    let width = if area.width < HELP_WIDTH {
        area.width
    } else {
        HELP_WIDTH
    };
    let wanted: u32 = text_height as u32 + HELP_CHROME as u32;
    let height: u16 = if wanted < area.height as u32 {
        wanted as u16
    } else {
        area.height
    };
    let popup = Area {
        x: area.x + (area.width - width) / 2,
        y: area.y + (area.height - height) / 2,
        width,
        height,
    };
    if height <= 2 {
        return HelpLayout { popup, text_rows: 0, footer_rows: 0, overflow: 0, scroll };
    }
    let (text_rows, footer_rows) = help_rows(height - 2);
    let overflow = if text_height > text_rows {
        text_height - text_rows
    } else {
        0
    };
    let clamped = if scroll < overflow {
        scroll
    } else {
        overflow
    };
    HelpLayout { popup, text_rows, footer_rows, overflow, scroll: clamped }
}

} // verus!
