//! Keys and pastes as the bytes a program in a terminal expects to read:
//! xterm's encodings, with its modifier parameter for shifted, alt and
//! control variants.

use vstd::prelude::*;
use vstd::string::StrSliceExecFns;
use vstd::utf8::encode_utf8;
use crate::keys::{KeyCode, KeyPress, Modifiers};
use crate::text::{decimal, decimal_text, join2, owned, push_char};

verus! {

broadcast use vstd::string::group_string_axioms;

/// The escape byte that starts every sequence.
pub const ESC: u8 = 27;

/// `n` in ASCII decimal.
pub open spec fn digits(n: nat) -> Seq<u8> {
    encode_utf8(decimal(n))
}

fn decimal_bytes(n: u64) -> (r: Vec<u8>)
    ensures
        r@ == digits(n as nat),
{
    let s = decimal_text(n);
    s.as_str().as_bytes_vec()
}

/// The bytes of one character in UTF-8.
pub open spec fn char_utf8(c: char) -> Seq<u8> {
    encode_utf8(seq![c])
}

fn char_bytes(c: char) -> (r: Vec<u8>)
    ensures
        r@ == char_utf8(c),
{
    let mut s = String::new();
    push_char(&mut s, c);
    assert(s@ =~= seq![c]);
    s.as_str().as_bytes_vec()
}

/// The bytes a bracketed paste is framed in.
pub open spec fn paste_start() -> Seq<u8> {
    seq![ESC, 91u8, 50u8, 48u8, 48u8, 126u8]
}

pub open spec fn paste_end() -> Seq<u8> {
    seq![ESC, 91u8, 50u8, 48u8, 49u8, 126u8]
}

pub open spec fn paste_spec(text: Seq<char>, bracketed: bool) -> Seq<u8> {
    if bracketed {
        paste_start() + encode_utf8(text) + paste_end()
    } else {
        encode_utf8(text)
    }
}

/// Pasted text as the child should read it: framed in `ESC [200~` and
/// `ESC [201~` when the child has asked for bracketed paste, so it can tell a
/// paste from typing, and bare otherwise.
pub fn paste_bytes(text: &str, bracketed: bool) -> (r: Vec<u8>)
    ensures
        r@ == paste_spec(text@, bracketed),
{
    let mut bytes: Vec<u8> = Vec::new();
    if bracketed {
        bytes = vec![ESC, 91u8, 50u8, 48u8, 48u8, 126u8];
    }
    let mut body = text.as_bytes_vec();
    bytes.append(&mut body);
    if bracketed {
        let mut end = vec![ESC, 91u8, 50u8, 48u8, 49u8, 126u8];
        bytes.append(&mut end);
    }
    assert(bytes@ =~= paste_spec(text@, bracketed));
    bytes
}

/// What Enter sends: a newline, or carriage return and newline where the
/// platform's terminals expect both.
pub open spec fn enter_spec(crlf: bool) -> Seq<u8> {
    if crlf {
        seq![13u8, 10u8]
    } else {
        seq![10u8]
    }
}

/// The bytes Enter sends: `\r\n` when `crlf`, as Windows consoles expect,
/// and `\n` elsewhere.
pub fn enter_sequence(crlf: bool) -> (r: Vec<u8>)
    ensures
        r@ == enter_spec(crlf),
{
    if crlf {
        let r = vec![13u8, 10u8];
        assert(r@ =~= enter_spec(crlf));
        r
    } else {
        let r = vec![10u8];
        assert(r@ =~= enter_spec(crlf));
        r
    }
}

/// `c` raised if it is an ASCII lower-case letter.
pub open spec fn ascii_upper(c: char) -> char {
    if 'a' <= c && c <= 'z' {
        ((c as u32) - 32) as char
    } else {
        c
    }
}

/// The control byte a Ctrl chord types, as terminals assign them.
pub open spec fn control_spec(c: char) -> Option<u8> {
    let u = ascii_upper(c);
    if u == '@' || u == ' ' || u == '2' {
        Some(0u8)
    } else if 'A' <= u && u <= 'Z' {
        Some(((u as u32) - 64) as u8)
    } else if u == '[' || u == '3' {
        Some(27u8)
    } else if u == '\\' || u == '4' {
        Some(28u8)
    } else if u == ']' || u == '5' {
        Some(29u8)
    } else if u == '^' || u == '6' {
        Some(30u8)
    } else if u == '_' || u == '-' || u == '7' {
        Some(31u8)
    } else if u == '?' || u == '8' {
        Some(127u8)
    } else {
        None
    }
}

/// The control byte for Ctrl and `c`: `Ctrl+A` to `Ctrl+Z` are 1 to 26,
/// and the punctuation and digit chords follow xterm. `None` for a character
/// with no control byte.
pub fn control_byte(c: char) -> (r: Option<u8>)
    ensures
        r == control_spec(c),
{
    let u = if 'a' <= c && c <= 'z' {
        ((c as u32) - 32) as u8 as char
    } else {
        c
    };
    assert(u == ascii_upper(c));
    if u == '@' || u == ' ' || u == '2' {
        Some(0u8)
    } else if 'A' <= u && u <= 'Z' {
        Some(((u as u32) - 64) as u8)
    } else if u == '[' || u == '3' {
        Some(27u8)
    } else if u == '\\' || u == '4' {
        Some(28u8)
    } else if u == ']' || u == '5' {
        Some(29u8)
    } else if u == '^' || u == '6' {
        Some(30u8)
    } else if u == '_' || u == '-' || u == '7' {
        Some(31u8)
    } else if u == '?' || u == '8' {
        Some(127u8)
    } else {
        None
    }
}

/// `bytes`, after an escape when Alt is held.
pub open spec fn alt_spec(bytes: Seq<u8>, m: Modifiers) -> Seq<u8> {
    if m.alt {
        seq![ESC] + bytes
    } else {
        bytes
    }
}

/// Prefix an escape when Alt is held, which is how terminals send Meta.
pub fn with_alt(bytes: Vec<u8>, m: &Modifiers) -> (r: Vec<u8>)
    ensures
        r@ == alt_spec(bytes@, *m),
{
    let ghost given = bytes@;
    let mut bytes = bytes;
    if m.alt {
        bytes.insert(0, ESC);
        assert(bytes@ =~= alt_spec(given, *m));
    }
    bytes
}

/// What a character key types: its control byte under Ctrl (or the
/// character itself when it has none), after an escape under Alt.
pub open spec fn character_spec(c: char, m: Modifiers) -> Seq<u8> {
    let base = if m.control {
        match control_spec(c) {
            Some(b) => seq![b],
            None => char_utf8(c),
        }
    } else {
        char_utf8(c)
    };
    alt_spec(base, m)
}

/// The bytes a character key types with these modifiers.
pub fn encode_character(c: char, m: &Modifiers) -> (r: Vec<u8>)
    ensures
        r@ == character_spec(c, *m),
{
    let base = if m.control {
        match control_byte(c) {
            Some(b) => {
                let v = vec![b];
                assert(v@ =~= seq![b]);
                v
            },
            None => char_bytes(c),
        }
    } else {
        char_bytes(c)
    };
    with_alt(base, m)
}

/// Whether any modifier xterm encodes is held: Shift, Alt or Ctrl.
pub open spec fn has_mod(m: Modifiers) -> bool {
    m.shift || m.alt || m.control
}

/// xterm's modifier parameter: one, plus 1 for Shift, 2 for Alt and 4 for
/// Ctrl.
pub open spec fn modifier_code(m: Modifiers) -> u8 {
    (1 + (if m.shift { 1int } else { 0 }) + (if m.alt { 2int } else { 0 }) + (if m.control {
        4int
    } else {
        0
    })) as u8
}

/// Whether Shift, Alt or Ctrl is held, which xterm writes as a parameter.
pub fn has_terminal_modifier(m: &Modifiers) -> (r: bool)
    ensures
        r == has_mod(*m),
{
    m.shift || m.alt || m.control
}

/// xterm's modifier parameter for the held modifiers.
pub fn terminal_modifier(m: &Modifiers) -> (r: u8)
    ensures
        r == modifier_code(*m),
        1 <= r <= 8,
{
    let mut r: u8 = 1;
    if m.shift {
        r = r + 1;
    }
    if m.alt {
        r = r + 2;
    }
    if m.control {
        r = r + 4;
    }
    r
}

/// `ESC [ 1 ; m` and the final byte, for a modified cursor or function key.
pub open spec fn modified_spec(final_byte: u8, m: Modifiers) -> Seq<u8> {
    seq![ESC, 91u8, 49u8, 59u8] + digits(modifier_code(m) as nat) + seq![final_byte]
}

fn modified_sequence(final_byte: u8, m: &Modifiers) -> (r: Vec<u8>)
    ensures
        r@ == modified_spec(final_byte, *m),
{
    let mut r = vec![ESC, 91u8, 49u8, 59u8];
    let mut code = decimal_bytes(terminal_modifier(m) as u64);
    r.append(&mut code);
    r.push(final_byte);
    assert(r@ =~= modified_spec(final_byte, *m));
    r
}

/// A cursor key: `ESC [ x`, or `ESC O x` in application cursor mode, and the
/// modified form when a modifier is held.
pub open spec fn cursor_spec(final_byte: u8, application: bool, m: Modifiers) -> Seq<u8> {
    if has_mod(m) {
        modified_spec(final_byte, m)
    } else {
        seq![ESC, if application { 79u8 } else { 91u8 }, final_byte]
    }
}

/// An arrow, Home or End: `ESC O x` in application mode, `ESC [ x` otherwise,
/// and `ESC [ 1 ; m x` with modifiers held.
pub fn cursor_sequence(final_byte: u8, application: bool, m: &Modifiers) -> (r: Vec<u8>)
    ensures
        r@ == cursor_spec(final_byte, application, *m),
{
    if has_terminal_modifier(m) {
        return modified_sequence(final_byte, m);
    }
    let r = vec![ESC, if application {
        79u8
    } else {
        91u8
    }, final_byte];
    assert(r@ =~= cursor_spec(final_byte, application, *m));
    r
}

/// An editing or paging key: `ESC [ n ~`, with `; m` before the tilde when
/// a modifier is held.
pub open spec fn tilde_spec(number: u8, m: Modifiers) -> Seq<u8> {
    seq![ESC, 91u8] + digits(number as nat) + (if has_mod(m) {
        seq![59u8] + digits(modifier_code(m) as nat)
    } else {
        Seq::empty()
    }) + seq![126u8]
}

/// A key sent as `ESC [ n ~`, with `; m` before the tilde when modifiers are held.
pub fn tilde_sequence(number: u8, m: &Modifiers) -> (r: Vec<u8>)
    ensures
        r@ == tilde_spec(number, *m),
{
    let mut r = vec![ESC, 91u8];
    let mut n = decimal_bytes(number as u64);
    r.append(&mut n);
    if has_terminal_modifier(m) {
        r.push(59u8);
        let mut code = decimal_bytes(terminal_modifier(m) as u64);
        r.append(&mut code);
    }
    r.push(126u8);
    assert(r@ =~= tilde_spec(number, *m));
    r
}

/// A function key: F1 to F4 as `ESC O P` to `ESC O S`, F5 to F12 as
/// xterm's numbered tilde sequences. Higher keys have no encoding.
pub open spec fn function_spec(number: u8, m: Modifiers) -> Option<Seq<u8>> {
    if 1 <= number <= 4 {
        let final_byte: u8 = (79 + number) as u8;
        Some(
            if has_mod(m) {
                modified_spec(final_byte, m)
            } else {
                seq![ESC, 79u8, final_byte]
            },
        )
    } else {
        let code: int = if number == 5 {
            15
        } else if number == 6 {
            17
        } else if number == 7 {
            18
        } else if number == 8 {
            19
        } else if number == 9 {
            20
        } else if number == 10 {
            21
        } else if number == 11 {
            23
        } else if number == 12 {
            24
        } else {
            0
        };
        if code == 0 {
            None
        } else {
            Some(tilde_spec(code as u8, m))
        }
    }
}

/// The bytes for function key `number`, if the terminal has one.
pub fn function_sequence(number: u8, m: &Modifiers) -> (r: Option<Vec<u8>>)
    ensures
        match function_spec(number, *m) {
            Some(s) => r matches Some(v) && v@ == s,
            None => r is None,
        },
{
    if 1 <= number && number <= 4 {
        let final_byte: u8 = 79 + number;
        if has_terminal_modifier(m) {
            return Some(modified_sequence(final_byte, m));
        }
        let r = vec![ESC, 79u8, final_byte];
        assert(r@ =~= seq![ESC, 79u8, final_byte]);
        return Some(r);
    }
    let code: u8 = match number {
        5 => 15,
        6 => 17,
        7 => 18,
        8 => 19,
        9 => 20,
        10 => 21,
        11 => 23,
        12 => 24,
        _ => {
            return None;
        },
    };
    Some(tilde_sequence(code, m))
}

/// What a key sends to a program in a terminal, or `None` for a key with no
/// encoding (lock keys, media keys, lone modifiers, F13 and above).
pub open spec fn key_spec(key: KeyPress, application: bool, crlf: bool) -> Option<Seq<u8>> {
    let m = key.modifiers;
    match key.code {
        KeyCode::Char(c) => Some(character_spec(c, m)),
        KeyCode::Enter => Some(alt_spec(enter_spec(crlf), m)),
        KeyCode::Backspace => Some(alt_spec(seq![127u8], m)),
        KeyCode::Tab => if m.shift {
            Some(seq![ESC, 91u8, 90u8])
        } else {
            Some(alt_spec(seq![9u8], m))
        },
        KeyCode::BackTab => Some(seq![ESC, 91u8, 90u8]),
        KeyCode::Esc => Some(seq![ESC]),
        KeyCode::Left => Some(cursor_spec(68u8, application, m)),
        KeyCode::Right => Some(cursor_spec(67u8, application, m)),
        KeyCode::Up => Some(cursor_spec(65u8, application, m)),
        KeyCode::Down => Some(cursor_spec(66u8, application, m)),
        KeyCode::Home => Some(cursor_spec(72u8, application, m)),
        KeyCode::End => Some(cursor_spec(70u8, application, m)),
        KeyCode::Insert => Some(tilde_spec(2, m)),
        KeyCode::Delete => Some(tilde_spec(3, m)),
        KeyCode::PageUp => Some(tilde_spec(5, m)),
        KeyCode::PageDown => Some(tilde_spec(6, m)),
        KeyCode::F(n) => function_spec(n, m),
        KeyCode::Null => Some(seq![0u8]),
        _ => None,
    }
}

/// The bytes a key sends to the program in a terminal. `application` is the
/// child's application cursor mode; `crlf` says whether Enter sends a
/// carriage return before its newline.
pub fn encode_key(key: &KeyPress, application: bool, crlf: bool) -> (r: Option<Vec<u8>>)
    ensures
        match key_spec(*key, application, crlf) {
            Some(s) => r matches Some(v) && v@ == s,
            None => r is None,
        },
{
    let m = &key.modifiers;
    match &key.code {
        KeyCode::Char(c) => Some(encode_character(*c, m)),
        KeyCode::Enter => Some(with_alt(enter_sequence(crlf), m)),
        KeyCode::Backspace => {
            let v = vec![127u8];
            assert(v@ =~= seq![127u8]);
            Some(with_alt(v, m))
        },
        KeyCode::Tab => {
            if m.shift {
                let v = vec![ESC, 91u8, 90u8];
                assert(v@ =~= seq![ESC, 91u8, 90u8]);
                Some(v)
            } else {
                let v = vec![9u8];
                assert(v@ =~= seq![9u8]);
                Some(with_alt(v, m))
            }
        },
        KeyCode::BackTab => {
            let v = vec![ESC, 91u8, 90u8];
            assert(v@ =~= seq![ESC, 91u8, 90u8]);
            Some(v)
        },
        KeyCode::Esc => {
            let v = vec![ESC];
            assert(v@ =~= seq![ESC]);
            Some(v)
        },
        KeyCode::Left => Some(cursor_sequence(68u8, application, m)),
        KeyCode::Right => Some(cursor_sequence(67u8, application, m)),
        KeyCode::Up => Some(cursor_sequence(65u8, application, m)),
        KeyCode::Down => Some(cursor_sequence(66u8, application, m)),
        KeyCode::Home => Some(cursor_sequence(72u8, application, m)),
        KeyCode::End => Some(cursor_sequence(70u8, application, m)),
        KeyCode::Insert => Some(tilde_sequence(2, m)),
        KeyCode::Delete => Some(tilde_sequence(3, m)),
        KeyCode::PageUp => Some(tilde_sequence(5, m)),
        KeyCode::PageDown => Some(tilde_sequence(6, m)),
        KeyCode::F(n) => function_sequence(*n, m),
        KeyCode::Null => {
            let v = vec![0u8];
            assert(v@ =~= seq![0u8]);
            Some(v)
        },
        _ => None,
    }
}

/// The answer to a terminal query the screen parser does not handle itself,
/// as text: device status, the cursor position (1-based), the device
/// attributes of a VT100 with advanced video, and the size in cells.
pub open spec fn reply_spec(
    intermediate: Option<u8>,
    first: Option<u16>,
    final_char: char,
    cursor: (u16, u16),
    size: (u16, u16),
) -> Option<Seq<char>> {
    if intermediate is None && first == Some(5u16) && final_char == 'n' {
        Some("\x1b[0n"@)
    } else if intermediate is None && first == Some(6u16) && final_char == 'n' {
        Some("\x1b["@ + decimal((cursor.0 + 1) as nat) + ";"@ + decimal((cursor.1 + 1) as nat) + "R"@)
    } else if intermediate == Some(63u8) && first == Some(6u16) && final_char == 'n' {
        Some("\x1b[?"@ + decimal((cursor.0 + 1) as nat) + ";"@ + decimal((cursor.1 + 1) as nat) + "R"@)
    } else if intermediate is None && (first is None || first == Some(0u16)) && final_char == 'c' {
        Some("\x1b[?1;2c"@)
    } else if intermediate == Some(62u8) && (first is None || first == Some(0u16)) && final_char
        == 'c' {
        Some("\x1b[>0;100;0c"@)
    } else if intermediate is None && first == Some(18u16) && final_char == 't' {
        Some("\x1b[8;"@ + decimal(size.0 as nat) + ";"@ + decimal(size.1 as nat) + "t"@)
    } else {
        None
    }
}

/// The bytes to answer a query with, if it is one this terminal answers.
/// `cursor` is the cursor's row and column from zero, `size` the screen's
/// rows and columns. Windows consoles ask for the cursor position before an
/// interactive shell will start, so treating output as write-only would
/// deadlock them.
pub fn csi_reply(
    intermediate: Option<u8>,
    first: Option<u16>,
    final_char: char,
    cursor: (u16, u16),
    size: (u16, u16),
) -> (r: Option<Vec<u8>>)
    requires
        cursor.0 < u16::MAX,
        cursor.1 < u16::MAX,
    ensures
        match reply_spec(intermediate, first, final_char, cursor, size) {
            Some(t) => r matches Some(b) && b@ == encode_utf8(t),
            None => r is None,
        },
{
    let plain = intermediate.is_none();
    let text: String = if plain && first == Some(5u16) && final_char == 'n' {
        owned("\x1b[0n")
    } else if plain && first == Some(6u16) && final_char == 'n' {
        let mut t = join2("\x1b[", decimal_text((cursor.0 + 1) as u64).as_str());
        t.append(";");
        t.append(decimal_text((cursor.1 + 1) as u64).as_str());
        t.append("R");
        t
    } else if intermediate == Some(63u8) && first == Some(6u16) && final_char == 'n' {
        let mut t = join2("\x1b[?", decimal_text((cursor.0 + 1) as u64).as_str());
        t.append(";");
        t.append(decimal_text((cursor.1 + 1) as u64).as_str());
        t.append("R");
        t
    } else if plain && (first.is_none() || first == Some(0u16)) && final_char == 'c' {
        owned("\x1b[?1;2c")
    } else if intermediate == Some(62u8) && (first.is_none() || first == Some(0u16)) && final_char
        == 'c' {
        owned("\x1b[>0;100;0c")
    } else if plain && first == Some(18u16) && final_char == 't' {
        let mut t = join2("\x1b[8;", decimal_text(size.0 as u64).as_str());
        t.append(";");
        t.append(decimal_text(size.1 as u64).as_str());
        t.append("t");
        t
    } else {
        return None;
    };
    Some(text.as_str().as_bytes_vec())
}

/// A single decimal digit is one ASCII byte.
proof fn lemma_one_digit(d: nat)
    requires
        d < 10,
    ensures
        digits(d) == seq![(48 + d) as u8],
{
    let c = crate::text::digit_char(d);
    assert(decimal(d) == seq![c]);
    let v: u32 = (48 + d) as u32;
    assert(c as u32 == v);
    assert(v & 0x7F == v) by (bit_vector)
        requires
            v < 128,
    ;
    assert(seq![c].drop_first() =~= Seq::<char>::empty());
    assert(encode_utf8(Seq::<char>::empty()) == Seq::<u8>::empty());
    assert(vstd::utf8::has_width_1_encoding(v));
    assert(vstd::utf8::leading_byte_width_1(v) == (48 + d) as u8);
    assert(vstd::utf8::encode_scalar(v) == seq![(48 + d) as u8]);
    assert(seq![c][0] as u32 == v);
    assert(encode_utf8(seq![c]) == vstd::utf8::encode_scalar(v) + encode_utf8(
        Seq::<char>::empty(),
    ));
    assert(encode_utf8(seq![c]) =~= seq![(48 + d) as u8]);
}

/// The key pressed with no modifier held.
pub open spec fn bare(code: KeyCode) -> KeyPress {
    KeyPress { code, modifiers: crate::keys::no_modifiers() }
}

/// Keys with no modifier send xterm's fixed sequences, whatever the mode:
/// Insert, Delete, Page Up and Page Down are `ESC [ 2 ~`, `ESC [ 3 ~`,
/// `ESC [ 5 ~` and `ESC [ 6 ~`; the arrows end in `A` (up), `B` (down), `C`
/// (right) and `D` (left), Home in `H` and End in `F`, after `ESC [`, or
/// `ESC O` in application cursor mode; Backspace is DEL, Tab is HT, Shift+Tab
/// is `ESC [ Z`, Esc is ESC, and Enter is LF, or CR LF where asked for.
pub proof fn bare_keys_send_xterm_sequences(application: bool, crlf: bool)
    ensures
        key_spec(bare(KeyCode::Insert), application, crlf) == Some(seq![27u8, 91u8, 50u8, 126u8]),
        key_spec(bare(KeyCode::Delete), application, crlf) == Some(seq![27u8, 91u8, 51u8, 126u8]),
        key_spec(bare(KeyCode::PageUp), application, crlf) == Some(seq![27u8, 91u8, 53u8, 126u8]),
        key_spec(bare(KeyCode::PageDown), application, crlf) == Some(
            seq![27u8, 91u8, 54u8, 126u8],
        ),
        key_spec(bare(KeyCode::Up), application, crlf) == Some(
            seq![27u8, if application { 79u8 } else { 91u8 }, 65u8],
        ),
        key_spec(bare(KeyCode::Down), application, crlf) == Some(
            seq![27u8, if application { 79u8 } else { 91u8 }, 66u8],
        ),
        key_spec(bare(KeyCode::Right), application, crlf) == Some(
            seq![27u8, if application { 79u8 } else { 91u8 }, 67u8],
        ),
        key_spec(bare(KeyCode::Left), application, crlf) == Some(
            seq![27u8, if application { 79u8 } else { 91u8 }, 68u8],
        ),
        key_spec(bare(KeyCode::Home), application, crlf) == Some(
            seq![27u8, if application { 79u8 } else { 91u8 }, 72u8],
        ),
        key_spec(bare(KeyCode::End), application, crlf) == Some(
            seq![27u8, if application { 79u8 } else { 91u8 }, 70u8],
        ),
        key_spec(bare(KeyCode::Backspace), application, crlf) == Some(seq![127u8]),
        key_spec(bare(KeyCode::Tab), application, crlf) == Some(seq![9u8]),
        key_spec(bare(KeyCode::BackTab), application, crlf) == Some(seq![27u8, 91u8, 90u8]),
        key_spec(bare(KeyCode::Esc), application, crlf) == Some(seq![27u8]),
        key_spec(bare(KeyCode::Enter), application, crlf) == Some(
            if crlf {
                seq![13u8, 10u8]
            } else {
                seq![10u8]
            },
        ),
{
    lemma_one_digit(2);
    lemma_one_digit(3);
    lemma_one_digit(5);
    lemma_one_digit(6);
    let e: Seq<u8> = Seq::empty();
    assert(seq![27u8, 91u8] + seq![50u8] + e + seq![126u8] =~= seq![27u8, 91u8, 50u8, 126u8]);
    assert(seq![27u8, 91u8] + seq![51u8] + e + seq![126u8] =~= seq![27u8, 91u8, 51u8, 126u8]);
    assert(seq![27u8, 91u8] + seq![53u8] + e + seq![126u8] =~= seq![27u8, 91u8, 53u8, 126u8]);
    assert(seq![27u8, 91u8] + seq![54u8] + e + seq![126u8] =~= seq![27u8, 91u8, 54u8, 126u8]);
}

/// With modifiers held, Page Up and Page Down keep their numbers and carry
/// xterm's modifier parameter: `ESC [ 5 ; m ~` and `ESC [ 6 ; m ~`.
pub proof fn paging_keys_keep_their_numbers(m: Modifiers, application: bool, crlf: bool)
    requires
        m.shift || m.alt || m.control,
    ensures
        key_spec(KeyPress { code: KeyCode::PageUp, modifiers: m }, application, crlf) == Some(
            seq![27u8, 91u8, 53u8, 59u8] + digits(modifier_code(m) as nat) + seq![126u8],
        ),
        key_spec(KeyPress { code: KeyCode::PageDown, modifiers: m }, application, crlf) == Some(
            seq![27u8, 91u8, 54u8, 59u8] + digits(modifier_code(m) as nat) + seq![126u8],
        ),
{
    lemma_one_digit(5);
    lemma_one_digit(6);
    let d = digits(modifier_code(m) as nat);
    assert(seq![27u8, 91u8] + seq![53u8] + (seq![59u8] + d) + seq![126u8] =~= seq![
        27u8,
        91u8,
        53u8,
        59u8,
    ] + d + seq![126u8]);
    assert(seq![27u8, 91u8] + seq![54u8] + (seq![59u8] + d) + seq![126u8] =~= seq![
        27u8,
        91u8,
        54u8,
        59u8,
    ] + d + seq![126u8]);
}

/// Ctrl and a letter types the letter's place in the alphabet, whatever its
/// case: Ctrl+A is 1 and Ctrl+Z is 26, and Alt puts an escape before it.
/// Ctrl+Space and Ctrl+@ type NUL, Ctrl+[ ESC and Ctrl+? DEL.
pub proof fn ctrl_letters_type_their_place_in_the_alphabet(c: char, m: Modifiers)
    requires
        m.control,
    ensures
        'a' <= c <= 'z' ==> key_spec(KeyPress { code: KeyCode::Char(c), modifiers: m }, false, false)
            == Some(
            if m.alt {
                seq![27u8, ((c as int) - 96) as u8]
            } else {
                seq![((c as int) - 96) as u8]
            },
        ),
        'A' <= c <= 'Z' ==> key_spec(KeyPress { code: KeyCode::Char(c), modifiers: m }, false, false)
            == Some(
            if m.alt {
                seq![27u8, ((c as int) - 64) as u8]
            } else {
                seq![((c as int) - 64) as u8]
            },
        ),
        control_spec(' ') == Some(0u8),
        control_spec('@') == Some(0u8),
        control_spec('[') == Some(27u8),
        control_spec('?') == Some(127u8),
{
    if 'a' <= c <= 'z' {
        assert(ascii_upper(c) as int == (c as int) - 32);
    }
}

/// A bracketed paste is framed in `ESC [ 200 ~` before the text and
/// `ESC [ 201 ~` after it; an unbracketed one is the text's bytes alone.
pub proof fn a_bracketed_paste_is_framed(text: Seq<char>)
    ensures
        paste_spec(text, true) == seq![27u8, 91u8, 50u8, 48u8, 48u8, 126u8] + encode_utf8(text)
            + seq![27u8, 91u8, 50u8, 48u8, 49u8, 126u8],
        paste_spec(text, false) == encode_utf8(text),
{
}

/// The terminal answers a status query with "OK", a cursor query with the
/// cursor's row then column counted from one, and a size query with its
/// rows then columns.
pub proof fn queries_are_answered_row_first_from_one(cursor: (u16, u16), size: (u16, u16))
    ensures
        reply_spec(None, Some(5u16), 'n', cursor, size) == Some("\x1b[0n"@),
        reply_spec(None, Some(6u16), 'n', cursor, size) == Some(
            "\x1b["@ + decimal((cursor.0 + 1) as nat) + ";"@ + decimal((cursor.1 + 1) as nat) + "R"@,
        ),
        reply_spec(None, Some(18u16), 't', cursor, size) == Some(
            "\x1b[8;"@ + decimal(size.0 as nat) + ";"@ + decimal(size.1 as nat) + "t"@,
        ),
        reply_spec(None, Some(7u16), 'n', cursor, size) is None,
{
}

} // verus!
