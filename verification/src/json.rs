use vstd::prelude::*;
use crate::outside::chars_to_string;
use crate::outside::str_chars;

verus! {

/// A JSON document as the relay models it. A number holds the decimal text
/// the parser rendered for it, and serializes back to exactly that text; an
/// object keeps its members in order.
#[verifier::ext_equal]
#[derive(Debug)]
pub enum Json {
    Null,
    Bool(bool),
    Num(String),
    Str(String),
    Arr(Vec<Json>),
    Obj(Vec<(String, Json)>),
}

/// The lower-case hexadecimal digit for a value below sixteen.
pub open spec fn hex_digit(n: int) -> char {
    if n == 0 { '0' } else if n == 1 { '1' } else if n == 2 { '2' }
    else if n == 3 { '3' } else if n == 4 { '4' } else if n == 5 { '5' }
    else if n == 6 { '6' } else if n == 7 { '7' } else if n == 8 { '8' }
    else if n == 9 { '9' } else if n == 10 { 'a' } else if n == 11 { 'b' }
    else if n == 12 { 'c' } else if n == 13 { 'd' } else if n == 14 { 'e' }
    else { 'f' }
}

/// How one character appears inside a JSON string literal: quote and backslash
/// are escaped, control characters get their short escape where one exists and
/// a `\u00..` escape otherwise, and every other character stands as itself.
pub open spec fn escape_char(c: char) -> Seq<char> {
    if c == '"' { seq!['\\', '"'] }
    else if c == '\\' { seq!['\\', '\\'] }
    else if c == '\u{08}' { seq!['\\', 'b'] }
    else if c == '\t' { seq!['\\', 't'] }
    else if c == '\n' { seq!['\\', 'n'] }
    else if c == '\u{0C}' { seq!['\\', 'f'] }
    else if c == '\r' { seq!['\\', 'r'] }
    else if (c as u32) < 0x20 {
        seq!['\\', 'u', '0', '0', hex_digit((c as u32 / 16) as int), hex_digit((c as u32 % 16) as int)]
    } else {
        seq![c]
    }
}

/// The first `i` characters of `s`, each escaped.
pub open spec fn escaped_prefix(s: Seq<char>, i: int) -> Seq<char>
    decreases i,
{
    if i <= 0 || i > s.len() {
        Seq::empty()
    } else {
        escaped_prefix(s, i - 1) + escape_char(s[i - 1])
    }
}

/// A JSON string literal: the escaped characters between double quotes.
pub open spec fn quoted(s: Seq<char>) -> Seq<char> {
    seq!['"'] + escaped_prefix(s, s.len() as int) + seq!['"']
}

/// The compact serialization of a JSON value: no whitespace, members in order.
pub open spec fn ser(j: Json) -> Seq<char>
    decreases j,
{
    match j {
        Json::Null => seq!['n', 'u', 'l', 'l'],
        Json::Bool(b) => if b { seq!['t', 'r', 'u', 'e'] } else { seq!['f', 'a', 'l', 's', 'e'] },
        Json::Num(s) => s@,
        Json::Str(s) => quoted(s@),
        Json::Arr(a) => seq!['['] + ser_items(a, a.len() as int) + seq![']'],
        Json::Obj(m) => seq!['{'] + ser_members(m, m.len() as int) + seq!['}'],
    }
}

/// The first `i` elements of an array, serialized and comma-separated.
pub open spec fn ser_items(a: Vec<Json>, i: int) -> Seq<char>
    decreases a, i,
{
    if i <= 0 || i > a.len() {
        Seq::empty()
    } else if i == 1 {
        ser(a[0])
    } else {
        ser_items(a, i - 1) + seq![','] + ser(a[i - 1])
    }
}

/// The first `i` members of an object, serialized as `"key":value` pairs,
/// comma-separated.
pub open spec fn ser_members(m: Vec<(String, Json)>, i: int) -> Seq<char>
    decreases m, i,
{
    if i <= 0 || i > m.len() {
        Seq::empty()
    } else if i == 1 {
        quoted(m[0].0@) + seq![':'] + ser(m[0].1)
    } else {
        ser_members(m, i - 1) + seq![','] + quoted(m[i - 1].0@) + seq![':'] + ser(m[i - 1].1)
    }
}

/// The lower-case hexadecimal digit for `n`.
fn hex_digit_char(n: u32) -> (r: char)
    requires
        n < 16,
    ensures
        r == hex_digit(n as int),
{
    if n == 0 { '0' } else if n == 1 { '1' } else if n == 2 { '2' }
    else if n == 3 { '3' } else if n == 4 { '4' } else if n == 5 { '5' }
    else if n == 6 { '6' } else if n == 7 { '7' } else if n == 8 { '8' }
    else if n == 9 { '9' } else if n == 10 { 'a' } else if n == 11 { 'b' }
    else if n == 12 { 'c' } else if n == 13 { 'd' } else if n == 14 { 'e' }
    else { 'f' }
}

fn write_escaped_char(c: char, out: &mut Vec<char>)
    ensures
        final(out)@ == old(out)@ + escape_char(c),
{
    if c == '"' {
        out.push('\\');
        out.push('"');
    } else if c == '\\' {
        out.push('\\');
        out.push('\\');
    } else if c == '\u{08}' {
        out.push('\\');
        out.push('b');
    } else if c == '\t' {
        out.push('\\');
        out.push('t');
    } else if c == '\n' {
        out.push('\\');
        out.push('n');
    } else if c == '\u{0C}' {
        out.push('\\');
        out.push('f');
    } else if c == '\r' {
        out.push('\\');
        out.push('r');
    } else {
        let u = c as u32;
        if u < 0x20 {
            out.push('\\');
            out.push('u');
            out.push('0');
            out.push('0');
            out.push(hex_digit_char(u / 16));
            out.push(hex_digit_char(u % 16));
        } else {
            out.push(c);
        }
    }
    assert(out@ =~= old(out)@ + escape_char(c));
}

/// Appends the JSON string literal for `s` to `out`.
pub fn write_quoted(s: &str, out: &mut Vec<char>)
    ensures
        final(out)@ == old(out)@ + quoted(s@),
{
    let cs = str_chars(s);
    let ghost entry = out@;
    out.push('"');
    let mut i: usize = 0;
    while i < cs.len()
        invariant
            cs@ == s@,
            i <= cs.len(),
            out@ == entry + seq!['"'] + escaped_prefix(s@, i as int),
        decreases cs.len() - i,
    {
        write_escaped_char(cs[i], out);
        proof {
            assert(escaped_prefix(s@, i + 1) == escaped_prefix(s@, i as int) + escape_char(s@[i as int]));
            assert(out@ =~= entry + seq!['"'] + escaped_prefix(s@, i + 1));
        }
        i = i + 1;
    }
    out.push('"');
    proof {
        assert(out@ =~= entry + quoted(s@));
    }
}

/// Appends the compact serialization of `j` to `out`.
pub fn write_json(j: &Json, out: &mut Vec<char>)
    ensures
        final(out)@ == old(out)@ + ser(*j),
    decreases *j,
{
    let ghost entry = out@;
    match j {
        Json::Null => {
            out.push('n');
            out.push('u');
            out.push('l');
            out.push('l');
            assert(out@ =~= entry + ser(*j));
        },
        Json::Bool(b) => {
            if *b {
                out.push('t');
                out.push('r');
                out.push('u');
                out.push('e');
            } else {
                out.push('f');
                out.push('a');
                out.push('l');
                out.push('s');
                out.push('e');
            }
            assert(out@ =~= entry + ser(*j));
        },
        Json::Num(s) => {
            let mut cs = str_chars(s.as_str());
            out.append(&mut cs);
            assert(out@ =~= entry + ser(*j));
        },
        Json::Str(s) => {
            write_quoted(s.as_str(), out);
            assert(out@ =~= entry + ser(*j));
        },
        Json::Arr(a) => {
            out.push('[');
            let mut i: usize = 0;
            while i < a.len()
                invariant
                    *j == Json::Arr(*a),
                    i <= a.len(),
                    out@ == entry + seq!['['] + ser_items(*a, i as int),
                decreases a.len() - i,
            {
                if i > 0 {
                    out.push(',');
                }
                proof {
                    assert(decreases_to!(*j => j->Arr_0));
                    assert(decreases_to!(*a => a@));
                    assert(decreases_to!(a@ => a@[i as int]));
                }
                write_json(&a[i], out);
                proof {
                    if i == 0 {
                        assert(ser_items(*a, 1) == ser(a[0int]));
                    } else {
                        assert(ser_items(*a, i + 1) == ser_items(*a, i as int) + seq![','] + ser(a[i as int]));
                    }
                    assert(out@ =~= entry + seq!['['] + ser_items(*a, i + 1));
                }
                i = i + 1;
            }
            out.push(']');
            assert(out@ =~= entry + ser(*j));
        },
        Json::Obj(m) => {
            proof {
                assert(decreases_to!(*j => j->Obj_0));
            }
            write_obj(m, out);
            assert(out@ =~= entry + ser(*j));
        },
    }
}

/// Appends the compact serialization of an object with the members `m` to
/// `out`.
pub fn write_obj(m: &Vec<(String, Json)>, out: &mut Vec<char>)
    ensures
        final(out)@ == old(out)@ + ser(Json::Obj(*m)),
    decreases *m,
{
    let ghost entry = out@;
    out.push('{');
    let mut i: usize = 0;
    while i < m.len()
        invariant
            i <= m.len(),
            out@ == entry + seq!['{'] + ser_members(*m, i as int),
        decreases m.len() - i,
    {
        if i > 0 {
            out.push(',');
        }
        write_quoted(m[i].0.as_str(), out);
        out.push(':');
        proof {
            assert(decreases_to!(*m => m@));
            assert(decreases_to!(m@ => m@[i as int]));
            assert(decreases_to!(m@[i as int] => m@[i as int].1));
        }
        write_json(&m[i].1, out);
        proof {
            if i == 0 {
                assert(ser_members(*m, 1) == quoted(m[0int].0@) + seq![':'] + ser(m[0int].1));
            } else {
                assert(ser_members(*m, i + 1) == ser_members(*m, i as int) + seq![','] + quoted(m[i as int].0@) + seq![':'] + ser(m[i as int].1));
            }
            assert(out@ =~= entry + seq!['{'] + ser_members(*m, i + 1));
        }
        i = i + 1;
    }
    out.push('}');
    assert(out@ =~= entry + ser(Json::Obj(*m)));
}

/// The compact JSON text of `j`, as a string.
pub fn json_text(j: &Json) -> (r: String)
    ensures
        r@ == ser(*j),
{
    let mut out: Vec<char> = Vec::new();
    write_json(j, &mut out);
    chars_to_string(out)
}

} // verus!
