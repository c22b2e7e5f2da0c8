//! A verified JSON serializer for the library's document model, specified
//! character by character. Strings escape the quote, the backslash and the
//! control characters; numbers are emitted as the literal text they hold.

use vstd::prelude::*;

use crate::json::Json;

verus! {

broadcast use vstd::std_specs::vec::axiom_vec_index_decreases;

/// The lower-case hexadecimal digit of a value below sixteen.
pub open spec fn hex_digit(n: int) -> char {
    if n == 0 {
        '0'
    } else if n == 1 {
        '1'
    } else if n == 2 {
        '2'
    } else if n == 3 {
        '3'
    } else if n == 4 {
        '4'
    } else if n == 5 {
        '5'
    } else if n == 6 {
        '6'
    } else if n == 7 {
        '7'
    } else if n == 8 {
        '8'
    } else if n == 9 {
        '9'
    } else if n == 10 {
        'a'
    } else if n == 11 {
        'b'
    } else if n == 12 {
        'c'
    } else if n == 13 {
        'd'
    } else if n == 14 {
        'e'
    } else {
        'f'
    }
}

/// How one character of a string value is written: quote and backslash get a
/// backslash escape, a control character a `\u00..` escape, anything else
/// stands as itself.
pub open spec fn esc_char(c: char) -> Seq<char> {
    if c == '"' {
        seq!['\\', '"']
    } else if c == '\\' {
        seq!['\\', '\\']
    } else if (c as u32) < 32 {
        seq!['\\', 'u', '0', '0', hex_digit(c as u32 as int / 16), hex_digit(c as u32 as int % 16)]
    } else {
        seq![c]
    }
}

/// The escaped text of the first `k` characters of `s`.
pub open spec fn ser_str_prefix(s: Seq<char>, k: int) -> Seq<char>
    decreases k,
{
    if k <= 0 || k > s.len() {
        Seq::empty()
    } else {
        ser_str_prefix(s, k - 1) + esc_char(s[k - 1])
    }
}

/// The text of a JSON document.
pub open spec fn spec_ser(j: Json) -> Seq<char>
    decreases j, 0int,
{
    match j {
        Json::Null => "null"@,
        Json::Bool(b) => if b {
            "true"@
        } else {
            "false"@
        },
        Json::Num(t) => t@,
        Json::Text(s) => seq!['"'] + ser_str_prefix(s@, s@.len() as int) + seq!['"'],
        Json::Arr(items) => seq!['['] + ser_items_prefix(items, items@.len() as int) + seq![']'],
        Json::Obj(fields) => seq!['{'] + ser_fields_prefix(fields, fields@.len() as int)
            + seq!['}'],
    }
}

/// The text of the first `k` elements of an array, joined with commas.
pub open spec fn ser_items_prefix(items: Vec<Json>, k: int) -> Seq<char>
    decreases items, k,
{
    if k <= 0 || k > items@.len() {
        Seq::empty()
    } else if k == 1 {
        spec_ser(items@[0])
    } else {
        ser_items_prefix(items, k - 1) + seq![','] + spec_ser(items@[k - 1])
    }
}

/// The text of the first `k` fields of an object, joined with commas: each is
/// the escaped key in quotes, a colon, and the value's text.
pub open spec fn ser_fields_prefix(fields: Vec<(String, Json)>, k: int) -> Seq<char>
    decreases fields, k,
{
    if k <= 0 || k > fields@.len() {
        Seq::empty()
    } else {
        let f = fields@[k - 1];
        let one = seq!['"'] + ser_str_prefix(f.0@, f.0@.len() as int) + seq!['"', ':'] + spec_ser(
            f.1,
        );
        if k == 1 {
            one
        } else {
            ser_fields_prefix(fields, k - 1) + seq![','] + one
        }
    }
}

fn hex_digit_c(n: u32) -> (r: char)
    requires
        n < 16,
    ensures
        r == hex_digit(n as int),
{
    match n {
        0 => '0',
        1 => '1',
        2 => '2',
        3 => '3',
        4 => '4',
        5 => '5',
        6 => '6',
        7 => '7',
        8 => '8',
        9 => '9',
        10 => 'a',
        11 => 'b',
        12 => 'c',
        13 => 'd',
        14 => 'e',
        _ => 'f',
    }
}

fn push_esc(out: &mut Vec<char>, c: char)
    ensures
        final(out)@ == old(out)@ + esc_char(c),
{
    if c == '"' {
        out.push('\\');
        out.push('"');
        proof {
            assert(out@ =~= old(out)@ + esc_char(c));
        }
    } else if c == '\\' {
        out.push('\\');
        out.push('\\');
        proof {
            assert(out@ =~= old(out)@ + esc_char(c));
        }
    } else {
        let u = c as u32;
        if u < 32 {
            out.push('\\');
            out.push('u');
            out.push('0');
            out.push('0');
            out.push(hex_digit_c(u / 16));
            out.push(hex_digit_c(u % 16));
            proof {
                assert(out@ =~= old(out)@ + esc_char(c));
            }
        } else {
            out.push(c);
            proof {
                assert(out@ =~= old(out)@ + esc_char(c));
            }
        }
    }
}

fn write_escaped(s: &str, out: &mut Vec<char>)
    ensures
        final(out)@ == old(out)@ + ser_str_prefix(s@, s@.len() as int),
{
    let len = s.unicode_len();
    let mut i: usize = 0;
    while i < len
        invariant
            len == s@.len(),
            i <= len,
            out@ == old(out)@ + ser_str_prefix(s@, i as int),
        decreases len - i,
    {
        push_esc(out, s.get_char(i));
        proof {
            assert(out@ =~= old(out)@ + ser_str_prefix(s@, i + 1));
        }
        i += 1;
    }
}

#[verifier::loop_isolation(false)]
fn write_json(j: &Json, out: &mut Vec<char>)
    ensures
        final(out)@ == old(out)@ + spec_ser(*j),
    decreases *j,
{
    match j {
        Json::Null => {
            out.push('n');
            out.push('u');
            out.push('l');
            out.push('l');
            proof {
                reveal_strlit("null");
                assert(out@ =~= old(out)@ + "null"@);
            }
        },
        Json::Bool(b) => {
            if *b {
                out.push('t');
                out.push('r');
                out.push('u');
                out.push('e');
                proof {
                    reveal_strlit("true");
                    assert(out@ =~= old(out)@ + "true"@);
                }
            } else {
                out.push('f');
                out.push('a');
                out.push('l');
                out.push('s');
                out.push('e');
                proof {
                    reveal_strlit("false");
                    assert(out@ =~= old(out)@ + "false"@);
                }
            }
        },
        Json::Num(t) => {
            write_text(t.as_str(), out);
        },
        Json::Text(s) => {
            out.push('"');
            write_escaped(s.as_str(), out);
            out.push('"');
            proof {
                assert(out@ =~= old(out)@ + spec_ser(*j));
            }
        },
        Json::Arr(items) => {
            out.push('[');
            let n = items.len();
            let mut i: usize = 0;
            proof {
                assert(out@ =~= old(out)@ + seq!['['] + ser_items_prefix(*items, 0));
            }
            while i < n
                invariant
                    *j == Json::Arr(*items),
                    n == items@.len(),
                    i <= n,
                    out@ == old(out)@ + seq!['['] + ser_items_prefix(*items, i as int),
                decreases n - i,
            {
                if i > 0 {
                    out.push(',');
                }
                write_json(&items[i], out);
                proof {
                    assert(out@ =~= old(out)@ + seq!['['] + ser_items_prefix(*items, i + 1));
                }
                i += 1;
            }
            out.push(']');
            proof {
                assert(out@ =~= old(out)@ + spec_ser(*j));
            }
        },
        Json::Obj(fields) => {
            out.push('{');
            let n = fields.len();
            let mut i: usize = 0;
            proof {
                assert(out@ =~= old(out)@ + seq!['{'] + ser_fields_prefix(*fields, 0));
            }
            while i < n
                invariant
                    *j == Json::Obj(*fields),
                    n == fields@.len(),
                    i <= n,
                    out@ == old(out)@ + seq!['{'] + ser_fields_prefix(*fields, i as int),
                decreases n - i,
            {
                if i > 0 {
                    out.push(',');
                }
                out.push('"');
                write_escaped(fields[i].0.as_str(), out);
                out.push('"');
                out.push(':');
                write_json(&fields[i].1, out);
                proof {
                    assert(out@ =~= old(out)@ + seq!['{'] + ser_fields_prefix(*fields, i + 1));
                }
                i += 1;
            }
            out.push('}');
            proof {
                assert(out@ =~= old(out)@ + spec_ser(*j));
            }
        },
    }
}

/// Append a text's characters unchanged.
fn write_text(t: &str, out: &mut Vec<char>)
    ensures
        final(out)@ == old(out)@ + t@,
{
    let len = t.unicode_len();
    let mut i: usize = 0;
    while i < len
        invariant
            len == t@.len(),
            i <= len,
            out@ == old(out)@ + t@.subrange(0, i as int),
        decreases len - i,
    {
        out.push(t.get_char(i));
        proof {
            assert(out@ =~= old(out)@ + t@.subrange(0, i + 1));
        }
        i += 1;
    }
    proof {
        assert(t@.subrange(0, t@.len() as int) =~= t@);
    }
}

/// Relies on String's FromIterator over chars (through Iterator::collect):
/// the result holds exactly the characters of the vector, in order.
#[verifier::external_body]
fn chars_to_string(v: &Vec<char>) -> (r: String)
    ensures
        r@ == v@,
{
    v.iter().collect()
}

impl Json {
    /// The document serialized as JSON text.
    pub fn to_text(&self) -> (r: String)
        ensures
            r@ == spec_ser(*self),
    {
        let mut out: Vec<char> = Vec::new();
        write_json(self, &mut out);
        chars_to_string(&out)
    }
}

} // verus!
