//! Verified JSON rendering primitives: string escaping, decimal numbers,
//! booleans and pretty-printed string arrays.  The policy documents and
//! request envelopes are built from these.

use crate::hashing::{hex_digits, string_push};
use vstd::prelude::*;
use vstd::string::StringExecFns;

verus! {

/// The escape of one character inside a JSON string: quote and backslash
/// get a backslash, the named control characters their short form, other
/// control characters the `\u00XX` form, everything else stands as is.
pub open spec fn json_escaped_char(c: char) -> Seq<char> {
    if c == '"' {
        "\\\""@
    } else if c == '\\' {
        "\\\\"@
    } else if c == '\u{8}' {
        "\\b"@
    } else if c == '\t' {
        "\\t"@
    } else if c == '\n' {
        "\\n"@
    } else if c == '\u{c}' {
        "\\f"@
    } else if c == '\r' {
        "\\r"@
    } else if (c as u32) < 0x20 {
        "\\u00"@ + seq![
            hex_digits()[c as int / 16],
            hex_digits()[c as int % 16],
        ]
    } else {
        seq![c]
    }
}

/// A character sequence with every character escaped for JSON.
pub open spec fn json_escaped(s: Seq<char>) -> Seq<char>
    decreases s.len(),
{
    if s.len() == 0 {
        Seq::<char>::empty()
    } else {
        json_escaped(s.drop_last()) + json_escaped_char(s.last())
    }
}

/// A JSON string: the escaped characters between quotes.
pub open spec fn json_string_of(s: Seq<char>) -> Seq<char> {
    "\""@ + json_escaped(s) + "\""@
}

/// Decimal digits of a natural number.
pub open spec fn dec_nat(n: nat) -> Seq<char>
    decreases n,
{
    if n < 10 {
        seq![hex_digits()[n as int]]
    } else {
        dec_nat(n / 10).push(hex_digits()[n as int % 10])
    }
}

/// Decimal rendering of an integer, with a sign when negative.
pub open spec fn dec_int(i: int) -> Seq<char> {
    if i < 0 {
        "-"@ + dec_nat((-i) as nat)
    } else {
        dec_nat(i as nat)
    }
}

/// JSON rendering of a boolean.
pub open spec fn json_bool(b: bool) -> Seq<char> {
    if b {
        "true"@
    } else {
        "false"@
    }
}

/// The hex digit for a value below 16; for values below 10 this is the
/// decimal digit.
pub fn digit_char(nibble: u8) -> (c: char)
    requires
        nibble < 16,
    ensures
        c == hex_digits()[nibble as int],
{
    match nibble {
        0 => '0',
        1 => '1',
        2 => '2',
        3 => '3',
        4 => '4',
        5 => '5',
        6 => '6',
        7 => '7',
        8 => '8',
        9 => '9',
        10 => 'a',
        11 => 'b',
        12 => 'c',
        13 => 'd',
        14 => 'e',
        _ => 'f',
    }
}

/// Append the decimal digits of `n`.
pub fn write_u64(out: &mut String, n: u64)
    ensures
        final(out)@ == old(out)@ + dec_nat(n as nat),
    decreases n,
{
    if n < 10 {
        string_push(out, digit_char(n as u8));
    } else {
        write_u64(out, n / 10);
        string_push(out, digit_char((n % 10) as u8));
    }
}

/// Append the decimal rendering of `i`, sign included.
pub fn write_i64(out: &mut String, i: i64)
    ensures
        final(out)@ == old(out)@ + dec_int(i as int),
{
    if i < 0 {
        out.append("-");
        let m: u64 = (-(i as i128)) as u64;
        write_u64(out, m);
    } else {
        write_u64(out, i as u64);
    }
}

/// Append `true` or `false`.
pub fn write_bool(out: &mut String, b: bool)
    ensures
        final(out)@ == old(out)@ + json_bool(b),
{
    if b {
        out.append("true");
    } else {
        out.append("false");
    }
}

/// Append the JSON string rendering of `s`, quotes and escapes included.
pub fn write_json_string(out: &mut String, s: &str)
    ensures
        final(out)@ == old(out)@ + json_string_of(s@),
{
    out.append("\"");
    let ghost start = out@;
    let n = s.unicode_len();
    for i in 0..n
        invariant
            n == s@.len(),
            out@ =~= start + json_escaped(s@.take(i as int)),
    {
        let c = s.get_char(i);
        if c == '"' {
            out.append("\\\"");
        } else if c == '\\' {
            out.append("\\\\");
        } else if c == '\u{8}' {
            out.append("\\b");
        } else if c == '\t' {
            out.append("\\t");
        } else if c == '\n' {
            out.append("\\n");
        } else if c == '\u{c}' {
            out.append("\\f");
        } else if c == '\r' {
            out.append("\\r");
        } else if (c as u32) < 0x20 {
            out.append("\\u00");
            let code = c as u32;
            string_push(out, digit_char((code / 16) as u8));
            string_push(out, digit_char((code % 16) as u8));
        } else {
            string_push(out, c);
        }
        proof {
            assert(s@.take(i + 1).drop_last() =~= s@.take(i as int));
            assert(s@.take(i + 1).last() == s@[i as int]);
        }
    }
    proof {
        assert(s@.take(n as int) =~= s@);
    }
    out.append("\"");
}

/// Members of a pretty-printed string array: each item on its own line
/// behind `item_indent`.
pub open spec fn array_members(items: Seq<String>, item_indent: Seq<char>) -> Seq<char>
    decreases items.len(),
{
    if items.len() == 0 {
        Seq::<char>::empty()
    } else if items.len() == 1 {
        "\n"@ + item_indent + json_string_of(items.last()@)
    } else {
        array_members(items.drop_last(), item_indent) + ",\n"@ + item_indent + json_string_of(
            items.last()@,
        )
    }
}

/// A pretty-printed JSON array of strings: empty arrays print as `[]`;
/// otherwise each item stands on its own line behind `item_indent` and
/// the closing bracket behind `close_indent`.
pub open spec fn json_string_array(
    items: Seq<String>,
    item_indent: Seq<char>,
    close_indent: Seq<char>,
) -> Seq<char> {
    if items.len() == 0 {
        "[]"@
    } else {
        "["@ + array_members(items, item_indent) + "\n"@ + close_indent + "]"@
    }
}

/// Members of a pretty-printed array whose items are already rendered:
/// each item on its own line behind `item_indent`.
pub open spec fn rendered_members(items: Seq<Seq<char>>, item_indent: Seq<char>) -> Seq<char>
    decreases items.len(),
{
    if items.len() == 0 {
        Seq::<char>::empty()
    } else if items.len() == 1 {
        "\n"@ + item_indent + items.last()
    } else {
        rendered_members(items.drop_last(), item_indent) + ",\n"@ + item_indent + items.last()
    }
}

/// A pretty-printed JSON array of already rendered items.
pub open spec fn json_rendered_array(
    items: Seq<Seq<char>>,
    item_indent: Seq<char>,
    close_indent: Seq<char>,
) -> Seq<char> {
    if items.len() == 0 {
        "[]"@
    } else {
        "["@ + rendered_members(items, item_indent) + "\n"@ + close_indent + "]"@
    }
}

/// Append a pretty-printed JSON array of strings.
pub fn write_string_array(
    out: &mut String,
    items: &Vec<String>,
    item_indent: &str,
    close_indent: &str,
)
    ensures
        final(out)@ == old(out)@ + json_string_array(items@, item_indent@, close_indent@),
{
    let n = items.len();
    if n == 0 {
        out.append("[]");
        return ;
    }
    out.append("[");
    let ghost start = out@;
    for i in 0..n
        invariant
            n == items@.len(),
            n > 0,
            out@ =~= start + array_members(items@.take(i as int), item_indent@),
    {
        if i > 0 {
            out.append(",\n");
        } else {
            out.append("\n");
        }
        out.append(item_indent);
        write_json_string(out, items[i].as_str());
        proof {
            assert(items@.take(i + 1).drop_last() =~= items@.take(i as int));
            assert(items@.take(i + 1).last() == items@[i as int]);
        }
    }
    proof {
        assert(items@.take(n as int) =~= items@);
    }
    out.append("\n");
    out.append(close_indent);
    out.append("]");
}

} // verus!
