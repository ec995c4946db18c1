//! Conversion of a configuration value into the template engine's native
//! data representation: JSON text.  The text format is stated as spec
//! functions and the serializer is proved to produce exactly that text.
use vstd::prelude::*;

use crate::value::{arr_model, model, tab_model, ValModel, ConfigValue};

verus! {

/// The escape of one character inside a JSON string literal.
pub open spec fn esc_char(c: char) -> Seq<char> {
    if c == '"' {
        seq!['\\', '"']
    } else if c == '\\' {
        seq!['\\', '\\']
    } else if c == '\n' {
        seq!['\\', 'n']
    } else if c == '\r' {
        seq!['\\', 'r']
    } else if c == '\t' {
        seq!['\\', 't']
    } else if (c as int) < 32 {
        seq!['\\', 'u', '0', '0', hex_digit(c as int / 16), hex_digit(c as int % 16)]
    } else {
        seq![c]
    }
}

/// The lower-case hexadecimal digit for a value below sixteen.
pub open spec fn hex_digit(n: int) -> char {
    if n < 10 {
        (48 + n) as u8 as char
    } else {
        (87 + n) as u8 as char
    }
}

/// A string's characters, each escaped.
pub open spec fn esc_str(s: Seq<char>) -> Seq<char>
    decreases s.len(),
{
    if s.len() == 0 {
        Seq::empty()
    } else {
        esc_char(s[0]) + esc_str(s.drop_first())
    }
}

/// A JSON string literal: the escaped characters between double quotes.
pub open spec fn json_str(s: Seq<char>) -> Seq<char> {
    seq!['"'] + esc_str(s) + seq!['"']
}

/// The decimal digits of a natural number, most significant first.
pub open spec fn dec_rep(n: nat) -> Seq<char>
    decreases n,
{
    if n < 10 {
        seq![dec_digit(n as int)]
    } else {
        dec_rep(n / 10).push(dec_digit(n as int % 10))
    }
}

/// The decimal digit character for a value below ten.
pub open spec fn dec_digit(n: int) -> char {
    (48 + n) as u8 as char
}

/// The decimal representation of an integer, with a leading minus sign
/// when it is negative.
pub open spec fn int_rep(i: int) -> Seq<char> {
    if i < 0 {
        seq!['-'] + dec_rep((-i) as nat)
    } else {
        dec_rep(i as nat)
    }
}

/// Whether a character may stand in a JSON number token.
pub open spec fn num_char(c: char) -> bool {
    ('0' <= c && c <= '9') || c == '-' || c == '+' || c == '.' || c == 'e' || c == 'E'
}

/// Whether a float's text form is a JSON number: nonempty and made of
/// number characters only.  The text of a non-finite float is not.
pub open spec fn num_text_ok(s: Seq<char>) -> bool {
    s.len() > 0 && (forall|k: int| 0 <= k < s.len() ==> num_char(s[k]))
}

/// The JSON text of a value.  Strings and datetimes become string
/// literals, floats keep their text form where it is a number token
/// (a non-finite float's text becomes a string literal instead, so the
/// emitted text stays well-formed JSON), arrays and tables nest.
pub open spec fn json_of(m: ValModel) -> Seq<char>
    decreases m,
{
    match m {
        ValModel::Str(s) => json_str(s),
        ValModel::Int(i) => int_rep(i),
        ValModel::Bool(b) => if b {
            seq!['t', 'r', 'u', 'e']
        } else {
            seq!['f', 'a', 'l', 's', 'e']
        },
        ValModel::Float(s) => if num_text_ok(s) {
            s
        } else {
            json_str(s)
        },
        ValModel::Datetime(s) => json_str(s),
        ValModel::Arr(items) => seq!['['] + arr_body(items) + seq![']'],
        ValModel::Table(entries) => seq!['{'] + tab_body(entries) + seq!['}'],
    }
}

/// The elements of a JSON array, separated by commas.
pub open spec fn arr_body(items: Seq<ValModel>) -> Seq<char>
    decreases items,
{
    if items.len() == 0 {
        Seq::empty()
    } else if items.len() == 1 {
        json_of(items[0])
    } else {
        json_of(items[0]) + seq![','] + arr_body(items.drop_first())
    }
}

/// The entries of a JSON object, separated by commas.
pub open spec fn tab_body(entries: Seq<(Seq<char>, ValModel)>) -> Seq<char>
    decreases entries,
{
    if entries.len() == 0 {
        Seq::empty()
    } else if entries.len() == 1 {
        entry_text(entries[0])
    } else {
        entry_text(entries[0]) + seq![','] + tab_body(entries.drop_first())
    }
}

/// One JSON object entry: the quoted key, a colon, and the value.
pub open spec fn entry_text(e: (Seq<char>, ValModel)) -> Seq<char>
    decreases e,
{
    json_str(e.0) + seq![':'] + json_of(e.1)
}

/// The JSON text of a value, as characters.
pub fn to_json(v: &ConfigValue) -> (r: Vec<char>)
    ensures
        r@ == json_of(model(*v)),
{
    let mut out: Vec<char> = Vec::new();
    write_json(v, &mut out);
    out
}

/// The JSON text of a value, as a string.
pub fn to_json_string(v: &ConfigValue) -> (r: String)
    ensures
        r@ == json_of(model(*v)),
{
    let chars = to_json(v);
    crate::engine::chars_to_string(&chars)
}

/// The lower-case hexadecimal digit character for a value below sixteen.
fn hex_char(n: u8) -> (r: char)
    requires
        n < 16,
    ensures
        r == hex_digit(n as int),
{
    if n < 10 {
        (48 + n) as char
    } else {
        (87 + n) as char
    }
}

/// Appends the escape of one character.
fn write_esc_char(c: char, out: &mut Vec<char>)
    ensures
        final(out)@ == old(out)@ + esc_char(c),
{
    if c == '"' {
        out.push('\\');
        out.push('"');
    } else if c == '\\' {
        out.push('\\');
        out.push('\\');
    } else if c == '\n' {
        out.push('\\');
        out.push('n');
    } else if c == '\r' {
        out.push('\\');
        out.push('r');
    } else if c == '\t' {
        out.push('\\');
        out.push('t');
    } else if (c as u32) < 32 {
        out.push('\\');
        out.push('u');
        out.push('0');
        out.push('0');
        let n = c as u32;
        out.push(hex_char((n / 16) as u8));
        out.push(hex_char((n % 16) as u8));
    } else {
        out.push(c);
    }
    assert(out@ =~= old(out)@ + esc_char(c));
}

/// Appends the escaped characters of `s` from position `i` on.
fn write_esc_from(s: &str, i: usize, out: &mut Vec<char>)
    requires
        i <= s@.len(),
    ensures
        final(out)@ == old(out)@ + esc_str(s@.skip(i as int)),
    decreases s@.len() - i,
{
    let n = s.unicode_len();
    if i < n {
        let c = s.get_char(i);
        write_esc_char(c, out);
        write_esc_from(s, i + 1, out);
        proof {
            let tail = s@.skip(i as int);
            assert(tail[0] == s@[i as int]);
            assert(tail.drop_first() =~= s@.skip(i + 1));
            assert(out@ =~= old(out)@ + esc_str(s@.skip(i as int)));
        }
    } else {
        proof {
            assert(s@.skip(i as int) =~= Seq::<char>::empty());
            assert(out@ =~= old(out)@ + esc_str(s@.skip(i as int)));
        }
    }
}

/// Appends a JSON string literal holding `s`.
fn write_json_str(s: &str, out: &mut Vec<char>)
    ensures
        final(out)@ == old(out)@ + json_str(s@),
{
    out.push('"');
    write_esc_from(s, 0, out);
    out.push('"');
    proof {
        assert(s@.skip(0) =~= s@);
        assert(out@ =~= old(out)@ + json_str(s@));
    }
}

/// Whether a float's text form is a JSON number token.
fn is_num_text(s: &str) -> (r: bool)
    ensures
        r == num_text_ok(s@),
{
    let n = s.unicode_len();
    if n == 0 {
        return false;
    }
    let mut i: usize = 0;
    while i < n
        invariant
            n == s@.len(),
            i <= n,
            forall|k: int| 0 <= k < i ==> num_char(s@[k]),
        decreases n - i,
    {
        let c = s.get_char(i);
        if !(('0' <= c && c <= '9') || c == '-' || c == '+' || c == '.' || c == 'e' || c == 'E') {
            return false;
        }
        i = i + 1;
    }
    true
}

/// The decimal digit character for a value below ten.
fn dec_char(n: u8) -> (r: char)
    requires
        n < 10,
    ensures
        r == dec_digit(n as int),
{
    (48 + n) as char
}

/// Appends the decimal digits of `n`.
fn write_u64_dec(n: u64, out: &mut Vec<char>)
    ensures
        final(out)@ == old(out)@ + dec_rep(n as nat),
    decreases n,
{
    if n < 10 {
        out.push(dec_char(n as u8));
        assert(out@ =~= old(out)@ + dec_rep(n as nat));
    } else {
        write_u64_dec(n / 10, out);
        out.push(dec_char((n % 10) as u8));
        assert(out@ =~= old(out)@ + dec_rep(n as nat));
    }
}

/// Appends the decimal representation of `i`, sign included.
fn write_i64_dec(i: i64, out: &mut Vec<char>)
    ensures
        final(out)@ == old(out)@ + int_rep(i as int),
{
    if i < 0 {
        out.push('-');
        let wide: i128 = i as i128;
        let mag: u64 = (-wide) as u64;
        assert(mag as nat == (-(i as int)) as nat);
        write_u64_dec(mag, out);
        assert(out@ =~= old(out)@ + int_rep(i as int));
    } else {
        write_u64_dec(i as u64, out);
        assert(out@ =~= old(out)@ + int_rep(i as int));
    }
}

/// Appends the JSON text of a value.
fn write_json(v: &ConfigValue, out: &mut Vec<char>)
    ensures
        final(out)@ == old(out)@ + json_of(model(*v)),
    decreases *v, 0int,
{
    match v {
        ConfigValue::Str(s) => {
            write_json_str(s.as_str(), out);
        },
        ConfigValue::Int(i) => {
            write_i64_dec(*i, out);
        },
        ConfigValue::Bool(b) => {
            if *b {
                out.push('t');
                out.push('r');
                out.push('u');
                out.push('e');
            } else {
                out.push('f');
                out.push('a');
                out.push('l');
                out.push('s');
                out.push('e');
            }
            assert(out@ =~= old(out)@ + json_of(model(*v)));
        },
        ConfigValue::Float(s) => {
            if is_num_text(s.as_str()) {
                let mut j: usize = 0;
                let n = s.as_str().unicode_len();
                while j < n
                    invariant
                        j <= n,
                        n == s@.len(),
                        out@ == old(out)@ + s@.take(j as int),
                    decreases n - j,
                {
                    out.push(s.as_str().get_char(j));
                    proof {
                        assert(out@ =~= old(out)@ + s@.take(j + 1));
                    }
                    j = j + 1;
                }
                assert(s@.take(n as int) =~= s@);
            } else {
                write_json_str(s.as_str(), out);
            }
        },
        ConfigValue::Datetime(s) => {
            write_json_str(s.as_str(), out);
        },
        ConfigValue::Arr(items) => {
            out.push('[');
            write_arr_from(items, 0, out);
            out.push(']');
            proof {
                crate::value::lemma_arr_model_index(items@);
                assert(arr_model(items@).skip(0) =~= arr_model(items@));
                assert(out@ =~= old(out)@ + json_of(model(*v)));
            }
        },
        ConfigValue::Table(entries) => {
            out.push('{');
            write_tab_from(entries, 0, out);
            out.push('}');
            proof {
                crate::value::lemma_tab_model_index(entries@);
                assert(tab_model(entries@).skip(0) =~= tab_model(entries@));
                assert(out@ =~= old(out)@ + json_of(model(*v)));
            }
        },
    }
}

/// Appends the comma-separated JSON texts of the elements from `i` on.
fn write_arr_from(items: &Vec<ConfigValue>, i: usize, out: &mut Vec<char>)
    requires
        i <= items@.len(),
    ensures
        final(out)@ == old(out)@ + arr_body(arr_model(items@).skip(i as int)),
    decreases *items, items@.len() - i,
{
    proof {
        crate::value::lemma_arr_model_index(items@);
    }
    if i < items.len() {
        write_json(&items[i], out);
        if i + 1 < items.len() {
            out.push(',');
            write_arr_from(items, i + 1, out);
        }
        proof {
            let tail = arr_model(items@).skip(i as int);
            assert(tail[0] == model(items@[i as int]));
            assert(tail.drop_first() =~= arr_model(items@).skip(i + 1));
            assert(out@ =~= old(out)@ + arr_body(tail));
        }
    } else {
        proof {
            assert(arr_model(items@).skip(i as int) =~= Seq::<ValModel>::empty());
            assert(out@ =~= old(out)@ + arr_body(arr_model(items@).skip(i as int)));
        }
    }
}

/// Appends the comma-separated JSON entries of the table from `i` on.
fn write_tab_from(entries: &Vec<(String, ConfigValue)>, i: usize, out: &mut Vec<char>)
    requires
        i <= entries@.len(),
    ensures
        final(out)@ == old(out)@ + tab_body(tab_model(entries@).skip(i as int)),
    decreases *entries, entries@.len() - i,
{
    proof {
        crate::value::lemma_tab_model_index(entries@);
    }
    if i < entries.len() {
        write_json_str(entries[i].0.as_str(), out);
        out.push(':');
        write_json(&entries[i].1, out);
        if i + 1 < entries.len() {
            out.push(',');
            write_tab_from(entries, i + 1, out);
        }
        proof {
            let tail = tab_model(entries@).skip(i as int);
            assert(tail[0] == (entries@[i as int].0@, model(entries@[i as int].1)));
            assert(tail.drop_first() =~= tab_model(entries@).skip(i + 1));
            assert(entry_text(tail[0]) == json_str(entries@[i as int].0@) + seq![':'] + json_of(
                model(entries@[i as int].1),
            ));
            assert(out@ =~= old(out)@ + tab_body(tail));
        }
    } else {
        proof {
            assert(tab_model(entries@).skip(i as int) =~= Seq::<(Seq<char>, ValModel)>::empty());
            assert(out@ =~= old(out)@ + tab_body(tab_model(entries@).skip(i as int)));
        }
    }
}

} // verus!
