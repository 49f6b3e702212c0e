//! JSON text handled by `serde_json`. The library holds JSON values (tool arguments,
//! tool parameter schemas) as their JSON text.
use vstd::prelude::*;

use crate::text::{chars_of, push_char, push_chars};

verus! {

/// The compact JSON text of the value that `text` parses to, or `None` when `text` is not
/// JSON: `serde_json::from_str::<serde_json::Value>` followed by `Value`'s `Display`.
pub uninterp spec fn json_normalized(text: Seq<char>) -> Option<Seq<char>>;

/// The lower-case hexadecimal digits.
pub open spec fn hex_digits() -> Seq<char> {
    seq!['0', '1', '2', '3', '4', '5', '6', '7', '8', '9', 'a', 'b', 'c', 'd', 'e', 'f']
}

/// How one character is written inside a JSON string: `"` and `\` after a backslash;
/// backspace, tab, line feed, form feed and carriage return by their short escapes; the
/// other characters below U+0020 as `\u00` and two lower-case hex digits; anything else
/// as it is.
pub open spec fn escape_char(c: char) -> Seq<char> {
    if c == '"' {
        seq!['\\', '"']
    } else if c == '\\' {
        seq!['\\', '\\']
    } else if c == '\u{8}' {
        seq!['\\', 'b']
    } else if c == '\t' {
        seq!['\\', 't']
    } else if c == '\n' {
        seq!['\\', 'n']
    } else if c == '\u{c}' {
        seq!['\\', 'f']
    } else if c == '\r' {
        seq!['\\', 'r']
    } else if (c as int) < 0x20 {
        seq!['\\', 'u', '0', '0', hex_digits()[(c as int) / 16], hex_digits()[(c as int) % 16]]
    } else {
        seq![c]
    }
}

/// The characters of `s`, each written as inside a JSON string.
pub open spec fn escaped(s: Seq<char>) -> Seq<char>
    decreases s.len(),
{
    if s.len() == 0 {
        Seq::empty()
    } else {
        escaped(s.drop_last()) + escape_char(s.last())
    }
}

/// The JSON text of a JSON string whose content is `s`, as `serde_json` writes it: the
/// escaped characters between double quotes.
pub open spec fn json_string_literal(s: Seq<char>) -> Seq<char> {
    seq!['"'] + escaped(s) + seq!['"']
}

/// Parses `text` with `serde_json::from_str::<serde_json::Value>` and writes the value
/// back with its `Display` (compact form). Both steps depend on `text` alone.
#[verifier::external_body]
pub(crate) fn normalize_json(text: &str) -> (res: Option<String>)
    ensures
        res.deep_view() == json_normalized(text@),
{
    match serde_json::from_str::<serde_json::Value>(text) {
        Ok(v) => Some(v.to_string()),
        Err(_) => None,
    }
}

/// Appends the characters of `cs` to `out`.
fn push_all(out: &mut String, cs: &Vec<char>)
    ensures
        final(out)@ == old(out)@ + cs@,
{
    push_chars(out, cs, 0, cs.len());
    assert(cs@.subrange(0, cs@.len() as int) =~= cs@);
}

/// How `c` is written inside a JSON string.
fn escape_one(c: char) -> (res: Vec<char>)
    ensures
        res@ == escape_char(c),
{
    let code = c as u32;
    if c == '"' {
        vec!['\\', '"']
    } else if c == '\\' {
        vec!['\\', '\\']
    } else if c == '\u{8}' {
        vec!['\\', 'b']
    } else if c == '\t' {
        vec!['\\', 't']
    } else if c == '\n' {
        vec!['\\', 'n']
    } else if c == '\u{c}' {
        vec!['\\', 'f']
    } else if c == '\r' {
        vec!['\\', 'r']
    } else if code < 0x20 {
        let digits = vec!['0', '1', '2', '3', '4', '5', '6', '7', '8', '9', 'a', 'b', 'c', 'd', 'e', 'f'];
        assert(digits@ =~= hex_digits());
        let hi = (code / 16) as usize;
        let lo = (code % 16) as usize;
        let res = vec!['\\', 'u', '0', '0', digits[hi], digits[lo]];
        assert(res@ =~= escape_char(c));
        res
    } else {
        vec![c]
    }
}

/// Writes `s` as a JSON string, as `serde_json` writes a `Value::String`.
pub(crate) fn quote_json_string(s: &str) -> (res: String)
    ensures
        res@ == json_string_literal(s@),
{
    let cs = chars_of(s);
    let mut out = String::new();
    push_char(&mut out, '"');
    let n = cs.len();
    let mut i: usize = 0;
    while i < n
        invariant
            n == cs@.len(),
            i <= n,
            out@ == seq!['"'] + escaped(cs@.take(i as int)),
        decreases n - i,
    {
        let e = escape_one(cs[i]);
        push_all(&mut out, &e);
        assert(cs@.take(i + 1).drop_last() =~= cs@.take(i as int));
        assert(out@ =~= seq!['"'] + escaped(cs@.take(i + 1)));
        i = i + 1;
    }
    assert(cs@.take(n as int) =~= cs@);
    push_char(&mut out, '"');
    out
}

/// The JSON text that stands for a tool call's `arguments` string: the value it parses
/// to, or, when it does not parse, the string itself as a JSON string.
pub open spec fn arguments_json(arguments: Seq<char>) -> Seq<char> {
    match json_normalized(arguments) {
        Some(t) => t,
        None => json_string_literal(arguments),
    }
}

/// The JSON text that stands for a tool call's `arguments` string (see `arguments_json`).
pub fn json_from_arguments(arguments: &str) -> (res: String)
    ensures
        res@ == arguments_json(arguments@),
{
    match normalize_json(arguments) {
        Some(t) => t,
        None => quote_json_string(arguments),
    }
}

} // verus!
