//! Explicit declarations for out-of-process panels.
//!
//! Nothing here discovers or starts a plugin. A declaration only gives the
//! layout a name and a command; the process is started if and when that name
//! is actually placed. The plugin's own settings table travels beside the
//! declaration to the process unchanged and is never interpreted here.

use vstd::prelude::*;
use crate::text::{blank, is_blank, join3};

verus! {

broadcast use vstd::string::group_string_axioms;

/// One external panel: its id and the command that runs it.
#[derive(Debug, Clone, PartialEq, Eq)]
pub struct PluginConfig {
    /// Stable widget id used by `[layout]` and the panel picker.
    pub id: String,
    /// Executable followed by arguments. It is launched directly, never
    /// through a platform shell, so quoting behaves the same on every OS.
    pub command: Vec<String>,
}

/// Why a plugin declaration was refused; each carries the plugin's id.
#[derive(Debug, Clone, PartialEq, Eq)]
pub enum PluginConfigError {
    InvalidId(String),
    NoExecutable(String),
}

pub open spec fn is_lower(c: char) -> bool {
    'a' <= c && c <= 'z'
}

pub open spec fn is_digit(c: char) -> bool {
    '0' <= c && c <= '9'
}

/// A lowercase letter followed by lowercase letters, digits, `-` or `_`.
pub open spec fn valid_id(s: Seq<char>) -> bool {
    &&& s.len() > 0
    &&& is_lower(s[0])
    &&& forall|i: int|
        1 <= i < s.len() ==> is_lower(#[trigger] s[i]) || is_digit(s[i]) || s[i] == '-' || s[i]
            == '_'
}

/// A command whose first word names something to run.
pub open spec fn has_executable(command: Seq<String>) -> bool {
    command.len() > 0 && !blank(command[0]@)
}

pub open spec fn invalid_id_text(id: Seq<char>) -> Seq<char> {
    "plugin id `"@ + id
        + "` is invalid; use a lowercase letter followed by lowercase letters, digits, `-` or `_`."@
}

pub open spec fn no_executable_text(id: Seq<char>) -> Seq<char> {
    "plugin `"@ + id + "` has no executable; `command` must be a non-empty array."@
}

impl PluginConfigError {
    /// The error as a sentence for the person who wrote the config.
    pub fn message(&self) -> (r: String)
        ensures
            self matches PluginConfigError::InvalidId(id) ==> r@ == invalid_id_text(id@),
            self matches PluginConfigError::NoExecutable(id) ==> r@ == no_executable_text(id@),
    {
        match self {
            PluginConfigError::InvalidId(id) => join3(
                "plugin id `",
                id.as_str(),
                "` is invalid; use a lowercase letter followed by lowercase letters, digits, `-` or `_`.",
            ),
            PluginConfigError::NoExecutable(id) => join3(
                "plugin `",
                id.as_str(),
                "` has no executable; `command` must be a non-empty array.",
            ),
        }
    }
}

fn id_is_valid(id: &str) -> (r: bool)
    ensures
        r == valid_id(id@),
{
    let chars = crate::text::chars_of(id);
    if chars.len() == 0 {
        return false;
    }
    let first = chars[0];
    if !('a' <= first && first <= 'z') {
        return false;
    }
    let mut i: usize = 1;
    while i < chars.len()
        invariant
            1 <= i <= chars.len(),
            chars@ == id@,
            forall|k: int|
                1 <= k < i ==> is_lower(#[trigger] id@[k]) || is_digit(id@[k]) || id@[k] == '-'
                    || id@[k] == '_',
        decreases chars.len() - i,
    {
        let c = chars[i];
        if !(('a' <= c && c <= 'z') || ('0' <= c && c <= '9') || c == '-' || c == '_') {
            assert(!(is_lower(id@[i as int]) || is_digit(id@[i as int]) || id@[i as int] == '-'
                || id@[i as int] == '_'));
            return false;
        }
        i = i + 1;
    }
    true
}

impl PluginConfig {
    /// Check the declaration: a well-formed id, then a command with an
    /// executable.
    pub fn validate(&self) -> (r: Result<(), PluginConfigError>)
        ensures
            !valid_id(self.id@) ==> r == Err::<(), PluginConfigError>(
                PluginConfigError::InvalidId(self.id),
            ),
            valid_id(self.id@) && !has_executable(self.command@) ==> r == Err::<
                (),
                PluginConfigError,
            >(PluginConfigError::NoExecutable(self.id)),
            valid_id(self.id@) && has_executable(self.command@) ==> r is Ok,
    {
        if !id_is_valid(self.id.as_str()) {
            return Err(PluginConfigError::InvalidId(self.id.clone()));
        }
        if self.command.len() == 0 || is_blank(self.command[0].as_str()) {
            return Err(PluginConfigError::NoExecutable(self.id.clone()));
        }
        Ok(())
    }
}

/// What makes an id valid: it starts with a lowercase letter, goes on with
/// lowercase letters, digits, hyphens and underscores, and anything else
/// (an empty id, a capital, a leading digit or hyphen, a space or a dot)
/// makes it invalid. A valid id stays valid with a letter, digit, hyphen or
/// underscore appended.
pub proof fn what_makes_an_id_valid(s: Seq<char>, c: char)
    ensures
        !valid_id(Seq::empty()),
        s.len() > 0 && !('a' <= s[0] <= 'z') ==> !valid_id(s),
        s.len() > 0 && 'A' <= s[0] <= 'Z' ==> !valid_id(s),
        s.len() > 0 && '0' <= s[0] <= '9' ==> !valid_id(s),
        valid_id(s) && ('a' <= c <= 'z' || '0' <= c <= '9' || c == '-' || c == '_') ==> valid_id(
            s.push(c),
        ),
        valid_id(s) && ('A' <= c <= 'Z' || c == ' ' || c == '.' || c == '/') ==> !valid_id(s.push(c)),
        'a' <= c <= 'z' ==> valid_id(seq![c]),
{
    if valid_id(s) && ('a' <= c <= 'z' || '0' <= c <= '9' || c == '-' || c == '_') {
        let t = s.push(c);
        assert forall|i: int| 1 <= i < t.len() implies is_lower(#[trigger] t[i]) || is_digit(t[i])
            || t[i] == '-' || t[i] == '_' by {
            if i < s.len() {
                assert(t[i] == s[i]);
            }
        }
    }
    if valid_id(s) && ('A' <= c <= 'Z' || c == ' ' || c == '.' || c == '/') {
        let t = s.push(c);
        assert(t[s.len() as int] == c);
    }
}

} // verus!
