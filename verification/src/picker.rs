//! The panel picker: every widget there is, and whether the layout places it.
//!
//! The picker owns its cursor and nothing else. Toggling a widget means
//! rewriting the layout and rebuilding the panels, decisions that belong to
//! the shell, so `handle_key` returns an [`Action`] describing what was asked
//! for and the shell decides whether it can be done.

use vstd::prelude::*;
use crate::keys::{KeyCode, KeyPress, Modifiers};

verus! {

/// What a keypress asked the shell to do.
#[derive(Debug, Clone, PartialEq, Eq)]
pub enum Action {
    /// Nothing the shell needs to act on; the cursor may have moved.
    Nothing,
    /// Turn this widget on if it is off, and off if it is on.
    Toggle(String),
    /// Close the dialog and commit whatever changed.
    Close,
}

/// An open picker.
#[derive(Debug)]
pub struct Picker {
    selected: usize,
    names: Vec<String>,
}

/// The row the cursor can go no further than.
pub open spec fn last_row(len: nat) -> int {
    if len == 0 {
        0
    } else {
        len - 1
    }
}

impl View for Picker {
    type V = (int, Seq<String>);

    closed spec fn view(&self) -> (int, Seq<String>) {
        (self.selected as int, self.names@)
    }
}

impl Picker {
    /// Open on the first widget.
    pub fn new(names: Vec<String>) -> (p: Self)
        ensures
            p@ == (0int, names@),
    {
        Picker { selected: 0, names }
    }

    /// Which row the cursor is on.
    pub fn selected(&self) -> (r: usize)
        ensures
            r == self@.0,
    {
        self.selected
    }

    /// The cursor never leaves the list.
    pub closed spec fn cursor_in_range(&self) -> bool {
        self.selected <= last_row(self.names@.len())
    }

    /// A picker opens with its cursor in range; with `handle_key` keeping it
    /// there, the cursor never leaves the list.
    pub proof fn opens_in_range(names: Seq<String>, p: Picker)
        requires
            p@ == (0int, names),
        ensures
            p.cursor_in_range(),
    {
    }

    /// Move the cursor, or report what the shell has to do.
    ///
    /// Unlike the help overlay this is a real dialog, so it reads keys rather
    /// than dismissing on any of them: a stray keystroke must not close it
    /// and leave the user wondering whether the toggle took. Modifiers are not
    /// read.
    pub fn handle_key(&mut self, key: &KeyPress) -> (action: Action)
        ensures
            final(self)@.1 == old(self)@.1,
            old(self).cursor_in_range() ==> final(self).cursor_in_range(),
            is_close_key(key) ==> action == Action::Close && final(self)@ == old(self)@,
            is_down_key(key) ==> action == Action::Nothing && final(self)@.0 == min_row(
                old(self)@.0 + 1,
                last_row(old(self)@.1.len()),
            ),
            is_up_key(key) ==> action == Action::Nothing && final(self)@.0 == (if old(self)@.0 > 0 {
                old(self)@.0 - 1
            } else {
                0
            }),
            is_home_key(key) ==> action == Action::Nothing && final(self)@.0 == 0,
            is_end_key(key) ==> action == Action::Nothing && final(self)@.0 == last_row(
                old(self)@.1.len(),
            ),
            is_toggle_key(key) ==> final(self)@ == old(self)@ && (if old(self)@.0 < old(self)@.1.len() {
                action == Action::Toggle(old(self)@.1[old(self)@.0])
            } else {
                action == Action::Nothing
            }),
            !(is_close_key(key) || is_down_key(key) || is_up_key(key) || is_home_key(key)
                || is_end_key(key) || is_toggle_key(key)) ==> action == Action::Nothing && final(self)@ == old(self)@,
    {
        let last = if self.names.len() == 0 {
            0
        } else {
            self.names.len() - 1
        };
        let current = self.selected;
        let (next, action) = match &key.code {
            KeyCode::Esc | KeyCode::Enter => (current, Action::Close),
            KeyCode::Char(c) if *c == 'q' || *c == 'w' => (current, Action::Close),
            KeyCode::Down => (if current < last { current + 1 } else { last }, Action::Nothing),
            KeyCode::Char(c) if *c == 'j' => (
                if current < last {
                    current + 1
                } else {
                    last
                },
                Action::Nothing,
            ),
            KeyCode::Up => (if current > 0 { current - 1 } else { 0 }, Action::Nothing),
            KeyCode::Char(c) if *c == 'k' => (
                if current > 0 {
                    current - 1
                } else {
                    0
                },
                Action::Nothing,
            ),
            KeyCode::Home => (0, Action::Nothing),
            KeyCode::Char(c) if *c == 'g' => (0, Action::Nothing),
            KeyCode::End => (last, Action::Nothing),
            KeyCode::Char(c) if *c == 'G' => (last, Action::Nothing),
            KeyCode::Char(c) if *c == ' ' => {
                if current < self.names.len() {
                    (current, Action::Toggle(self.names[current].clone()))
                } else {
                    (current, Action::Nothing)
                }
            },
            _ => (current, Action::Nothing),
        };
        self.selected = next;
        action
    }
}

pub open spec fn is_char(key: &KeyPress, c: char) -> bool {
    key.code == KeyCode::Char(c)
}

/// Esc, Enter, `q` and `w` close the dialog.
pub open spec fn is_close_key(key: &KeyPress) -> bool {
    key.code == KeyCode::Esc || key.code == KeyCode::Enter || is_char(key, 'q') || is_char(key, 'w')
}

pub open spec fn is_down_key(key: &KeyPress) -> bool {
    key.code == KeyCode::Down || is_char(key, 'j')
}

pub open spec fn is_up_key(key: &KeyPress) -> bool {
    key.code == KeyCode::Up || is_char(key, 'k')
}

pub open spec fn is_home_key(key: &KeyPress) -> bool {
    key.code == KeyCode::Home || is_char(key, 'g')
}

pub open spec fn is_end_key(key: &KeyPress) -> bool {
    key.code == KeyCode::End || is_char(key, 'G')
}

/// Space toggles the widget under the cursor.
pub open spec fn is_toggle_key(key: &KeyPress) -> bool {
    is_char(key, ' ')
}

/// The smaller of two rows.
pub open spec fn min_row(a: int, b: int) -> int {
    if a < b {
        a
    } else {
        b
    }
}

/// The picker's keys, whatever modifiers are held: Down and `j` move the
/// cursor down, Up and `k` up, Home and `g` to the top, End and `G` to the
/// bottom; Space toggles; Esc, Enter, `q` and `w` close the dialog; other
/// keys, `x` among them, do nothing.
pub proof fn picker_keys_do_what_they_say(m: Modifiers)
    ensures
        is_down_key(&KeyPress { code: KeyCode::Down, modifiers: m }),
        is_down_key(&KeyPress { code: KeyCode::Char('j'), modifiers: m }),
        is_up_key(&KeyPress { code: KeyCode::Up, modifiers: m }),
        is_up_key(&KeyPress { code: KeyCode::Char('k'), modifiers: m }),
        is_home_key(&KeyPress { code: KeyCode::Home, modifiers: m }),
        is_home_key(&KeyPress { code: KeyCode::Char('g'), modifiers: m }),
        is_end_key(&KeyPress { code: KeyCode::End, modifiers: m }),
        is_end_key(&KeyPress { code: KeyCode::Char('G'), modifiers: m }),
        is_toggle_key(&KeyPress { code: KeyCode::Char(' '), modifiers: m }),
        is_close_key(&KeyPress { code: KeyCode::Esc, modifiers: m }),
        is_close_key(&KeyPress { code: KeyCode::Enter, modifiers: m }),
        is_close_key(&KeyPress { code: KeyCode::Char('q'), modifiers: m }),
        is_close_key(&KeyPress { code: KeyCode::Char('w'), modifiers: m }),
        !is_down_key(&KeyPress { code: KeyCode::Up, modifiers: m }),
        !is_up_key(&KeyPress { code: KeyCode::Down, modifiers: m }),
        !is_close_key(&KeyPress { code: KeyCode::Down, modifiers: m }),
        !is_close_key(&KeyPress { code: KeyCode::Up, modifiers: m }),
        !is_close_key(&KeyPress { code: KeyCode::Char(' '), modifiers: m }),
        !is_toggle_key(&KeyPress { code: KeyCode::Enter, modifiers: m }),
        !(is_close_key(&KeyPress { code: KeyCode::Char('x'), modifiers: m }) || is_down_key(
            &KeyPress { code: KeyCode::Char('x'), modifiers: m },
        ) || is_up_key(&KeyPress { code: KeyCode::Char('x'), modifiers: m }) || is_home_key(
            &KeyPress { code: KeyCode::Char('x'), modifiers: m },
        ) || is_end_key(&KeyPress { code: KeyCode::Char('x'), modifiers: m }) || is_toggle_key(
            &KeyPress { code: KeyCode::Char('x'), modifiers: m },
        )),
{
}

/// Moving down never passes the last row and moving up never passes the
/// first; down from below the last row goes one row further, up from above
/// the first one row back.
pub proof fn the_cursor_steps_one_row(row: int, len: nat)
    requires
        0 <= row <= last_row(len),
    ensures
        row < last_row(len) ==> min_row(row + 1, last_row(len)) == row + 1,
        row == last_row(len) ==> min_row(row + 1, last_row(len)) == row,
        len > 0 ==> last_row(len) == len - 1,
{
}

} // verus!
