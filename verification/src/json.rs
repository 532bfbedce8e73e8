//! JSON text: validity of stored JSON values, and building JSON string
//! literals by escaping.

use vstd::prelude::*;
use vstd::string::StrSliceExecFns;
use vstd::string::StringExecFns;

verus! {

/// Whether `s` is the text of one well-formed JSON value. The JSON grammar
/// is decided by the parser this library calls, and acceptance depends on
/// the characters alone, so the predicate is named rather than defined.
pub uninterp spec fn json_ok(s: Seq<char>) -> bool;

/// Relies on `serde_json::from_str::<serde_json::Value>`: whether a string
/// parses as a JSON value depends on the string's characters alone.
#[verifier::external_body]
pub(crate) fn check_json(s: &str) -> (r: bool)
    ensures
        r == json_ok(s@),
{
    serde_json::from_str::<serde_json::Value>(s).is_ok()
}

/// Relies on `String::push`: appends exactly the one character.
#[verifier::external_body]
pub(crate) fn push_char(s: &mut String, c: char)
    ensures
        final(s)@ == old(s)@.push(c),
{
    s.push(c)
}

/// The lower-case hexadecimal digit for a value below sixteen.
pub open spec fn hex_digit(n: int) -> char {
    if n == 0 {
        '0'
    } else if n == 1 {
        '1'
    } else if n == 2 {
        '2'
    } else if n == 3 {
        '3'
    } else if n == 4 {
        '4'
    } else if n == 5 {
        '5'
    } else if n == 6 {
        '6'
    } else if n == 7 {
        '7'
    } else if n == 8 {
        '8'
    } else if n == 9 {
        '9'
    } else if n == 10 {
        'a'
    } else if n == 11 {
        'b'
    } else if n == 12 {
        'c'
    } else if n == 13 {
        'd'
    } else if n == 14 {
        'e'
    } else {
        'f'
    }
}

fn hex_digit_char(n: u32) -> (c: char)
    requires
        n < 16,
    ensures
        c == hex_digit(n as int),
{
    match n {
        0 => '0',
        1 => '1',
        2 => '2',
        3 => '3',
        4 => '4',
        5 => '5',
        6 => '6',
        7 => '7',
        8 => '8',
        9 => '9',
        10 => 'a',
        11 => 'b',
        12 => 'c',
        13 => 'd',
        14 => 'e',
        _ => 'f',
    }
}

/// How one character appears inside a JSON string literal: quotes and
/// backslashes are escaped, control characters become `\u00..`, and every
/// other character stands as itself.
pub open spec fn escape_char(c: char) -> Seq<char> {
    if c == '"' {
        seq!['\\', '"']
    } else if c == '\\' {
        seq!['\\', '\\']
    } else if (c as u32) < 32 {
        seq![
            '\\',
            'u',
            '0',
            '0',
            hex_digit(((c as u32) / 16) as int),
            hex_digit(((c as u32) % 16) as int),
        ]
    } else {
        seq![c]
    }
}

/// The body of the JSON string literal that denotes `s`.
pub open spec fn escape_seq(s: Seq<char>) -> Seq<char>
    decreases s.len(),
{
    if s.len() == 0 {
        Seq::empty()
    } else {
        escape_seq(s.drop_last()) + escape_char(s.last())
    }
}

/// The JSON string literal that denotes `s`, quotes included.
pub open spec fn quote(s: Seq<char>) -> Seq<char> {
    seq!['"'] + escape_seq(s) + seq!['"']
}

/// Escapes `s` for use inside a JSON string literal.
pub fn escaped(s: &str) -> (r: String)
    ensures
        r@ == escape_seq(s@),
{
    let n = s.unicode_len();
    let mut out = String::new();
    let mut i: usize = 0;
    while i < n
        invariant
            n == s@.len(),
            i <= n,
            out@ == escape_seq(s@.take(i as int)),
        decreases n - i,
    {
        let c = s.get_char(i);
        let u: u32 = c as u32;
        if c == '"' {
            push_char(&mut out, '\\');
            push_char(&mut out, '"');
        } else if c == '\\' {
            push_char(&mut out, '\\');
            push_char(&mut out, '\\');
        } else if u < 32 {
            push_char(&mut out, '\\');
            push_char(&mut out, 'u');
            push_char(&mut out, '0');
            push_char(&mut out, '0');
            push_char(&mut out, hex_digit_char(u / 16));
            push_char(&mut out, hex_digit_char(u % 16));
        } else {
            push_char(&mut out, c);
        }
        proof {
            assert(s@.take(i + 1).drop_last() =~= s@.take(i as int));
            assert(s@.take(i + 1).last() == s@[i as int]);
            assert(out@ =~= escape_seq(s@.take(i as int)) + escape_char(s@[i as int]));
        }
        i += 1;
    }
    proof {
        assert(s@.take(n as int) =~= s@);
    }
    out
}

/// Renders `s` as a JSON string literal, quotes included.
pub fn quoted(s: &str) -> (r: String)
    ensures
        r@ == quote(s@),
{
    let mut out = String::new();
    push_char(&mut out, '"');
    let e = escaped(s);
    out.append(e.as_str());
    push_char(&mut out, '"');
    proof {
        assert(out@ =~= quote(s@));
    }
    out
}

} // verus!
