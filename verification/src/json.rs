//! A canonical compact text encoding of both value models, and a verified
//! renderer for foreign values. Rendering a source value and rendering the
//! foreign value it converts to yield the same text, which is the round-trip
//! check the serializer is held to.

use vstd::prelude::*;

use crate::value::{
    lemma_py_pair_views, lemma_py_views, push_char, py_pair_views, py_views, PyV, PyValue, SourceV,
};

verus! {

/// The decimal digit character for `d` (0 to 9).
pub open spec fn digit_char(d: int) -> char {
    if d == 0 {
        '0'
    } else if d == 1 {
        '1'
    } else if d == 2 {
        '2'
    } else if d == 3 {
        '3'
    } else if d == 4 {
        '4'
    } else if d == 5 {
        '5'
    } else if d == 6 {
        '6'
    } else if d == 7 {
        '7'
    } else if d == 8 {
        '8'
    } else {
        '9'
    }
}

/// The lowercase hexadecimal digit character for `d` (0 to 15).
pub open spec fn hex_char(d: int) -> char {
    if d < 10 {
        digit_char(d)
    } else if d == 10 {
        'a'
    } else if d == 11 {
        'b'
    } else if d == 12 {
        'c'
    } else if d == 13 {
        'd'
    } else if d == 14 {
        'e'
    } else {
        'f'
    }
}

/// The decimal digits of a nonnegative integer, most significant first.
pub open spec fn dec_nat(n: nat) -> Seq<char>
    decreases n,
{
    if n < 10 {
        seq![digit_char(n as int)]
    } else {
        dec_nat(n / 10).push(digit_char((n % 10) as int))
    }
}

/// The decimal rendering of an integer, with a leading minus when negative.
pub open spec fn dec_int(n: int) -> Seq<char> {
    if n < 0 {
        seq!['-'] + dec_nat((-n) as nat)
    } else {
        dec_nat(n as nat)
    }
}

/// The escape sequence for one character inside a string literal: quote,
/// backslash and the named control characters get two-character escapes,
/// other control characters a `\u00..` escape, anything else stands as is.
pub open spec fn esc_char(c: char) -> Seq<char> {
    if c == '"' {
        seq!['\\', '"']
    } else if c == '\\' {
        seq!['\\', '\\']
    } else if c == '\n' {
        seq!['\\', 'n']
    } else if c == '\r' {
        seq!['\\', 'r']
    } else if c == '\t' {
        seq!['\\', 't']
    } else if c == '\u{8}' {
        seq!['\\', 'b']
    } else if c == '\u{c}' {
        seq!['\\', 'f']
    } else if (c as int) < 32 {
        seq!['\\', 'u', '0', '0', hex_char(c as int / 16), hex_char(c as int % 16)]
    } else {
        seq![c]
    }
}

/// The escaped form of a whole string body.
pub open spec fn escaped(s: Seq<char>) -> Seq<char>
    decreases s,
{
    if s.len() == 0 {
        Seq::empty()
    } else {
        esc_char(s[0]) + escaped(s.drop_first())
    }
}

/// A quoted, escaped string literal.
pub open spec fn quoted(s: Seq<char>) -> Seq<char> {
    seq!['"'] + escaped(s) + seq!['"']
}

/// The comma-joined renderings of a byte sequence, as decimal integers.
pub open spec fn json_of_bytes(s: Seq<u8>) -> Seq<char>
    decreases s,
{
    if s.len() == 0 {
        Seq::empty()
    } else if s.len() == 1 {
        dec_nat(s[0] as nat)
    } else {
        dec_nat(s[0] as nat) + seq![','] + json_of_bytes(s.drop_first())
    }
}

/// The comma-joined renderings of the elements of a foreign sequence.
pub open spec fn json_of_py_items(s: Seq<PyV>) -> Seq<char>
    decreases s,
{
    if s.len() == 0 {
        Seq::empty()
    } else if s.len() == 1 {
        json_of_py(s[0])
    } else {
        json_of_py(s[0]) + seq![','] + json_of_py_items(s.drop_first())
    }
}

/// The comma-joined `key:value` renderings of the entries of a mapping.
pub open spec fn json_of_py_entries(s: Seq<(PyV, PyV)>) -> Seq<char>
    decreases s,
{
    if s.len() == 0 {
        Seq::empty()
    } else if s.len() == 1 {
        json_of_py(s[0].0) + seq![':'] + json_of_py(s[0].1)
    } else {
        json_of_py(s[0].0) + seq![':'] + json_of_py(s[0].1) + seq![','] + json_of_py_entries(
            s.drop_first(),
        )
    }
}

/// The canonical compact text encoding of a foreign value: null and bool
/// keywords, decimal integers, quoted strings, byte scalars as integer
/// arrays, both sequence flavors as arrays, mappings as objects whose keys
/// are rendered by this same encoding.
pub open spec fn json_of_py(p: PyV) -> Seq<char>
    decreases p,
{
    match p {
        PyV::Null => seq!['n', 'u', 'l', 'l'],
        PyV::Bool(b) => if b {
            seq!['t', 'r', 'u', 'e']
        } else {
            seq!['f', 'a', 'l', 's', 'e']
        },
        PyV::Int(n) => dec_int(n),
        PyV::Str(s) => quoted(s),
        PyV::Bytes(b) => seq!['['] + json_of_bytes(b) + seq![']'],
        PyV::List(items) => seq!['['] + json_of_py_items(items) + seq![']'],
        PyV::Tuple(items) => seq!['['] + json_of_py_items(items) + seq![']'],
        PyV::Dict(es) => seq!['{'] + json_of_py_entries(es) + seq!['}'],
    }
}

/// The comma-joined renderings of the elements of a source sequence shape.
pub open spec fn json_of_source_items(s: Seq<SourceV>) -> Seq<char>
    decreases s,
{
    if s.len() == 0 {
        Seq::empty()
    } else if s.len() == 1 {
        json_of_source(s[0])
    } else {
        json_of_source(s[0]) + seq![','] + json_of_source_items(s.drop_first())
    }
}

/// The comma-joined `key:value` renderings of the pairs of a source map.
pub open spec fn json_of_source_pairs(s: Seq<(SourceV, SourceV)>) -> Seq<char>
    decreases s,
{
    if s.len() == 0 {
        Seq::empty()
    } else if s.len() == 1 {
        json_of_source(s[0].0) + seq![':'] + json_of_source(s[0].1)
    } else {
        json_of_source(s[0].0) + seq![':'] + json_of_source(s[0].1) + seq![',']
            + json_of_source_pairs(s.drop_first())
    }
}

/// The comma-joined `"name":value` renderings of the fields of a struct.
pub open spec fn json_of_source_fields(s: Seq<(Seq<char>, SourceV)>) -> Seq<char>
    decreases s,
{
    if s.len() == 0 {
        Seq::empty()
    } else if s.len() == 1 {
        quoted(s[0].0) + seq![':'] + json_of_source(s[0].1)
    } else {
        quoted(s[0].0) + seq![':'] + json_of_source(s[0].1) + seq![','] + json_of_source_fields(
            s.drop_first(),
        )
    }
}

/// The canonical compact text encoding of a source value, mirroring the
/// reference text serialization of the structured data model: unit-like
/// shapes as null, wrappers transparently, ordered shapes as arrays, keyed
/// shapes as objects, and the four enum-variant shapes per the
/// variant-wrapping convention.
pub open spec fn json_of_source(v: SourceV) -> Seq<char>
    decreases v,
{
    match v {
        SourceV::Bool(b) => if b {
            seq!['t', 'r', 'u', 'e']
        } else {
            seq!['f', 'a', 'l', 's', 'e']
        },
        SourceV::Int(n) => dec_int(n),
        SourceV::Char(c) => quoted(seq![c]),
        SourceV::Str(s) => quoted(s),
        SourceV::Bytes(b) => seq!['['] + json_of_bytes(b) + seq![']'],
        SourceV::Unit => seq!['n', 'u', 'l', 'l'],
        SourceV::UnitStruct(_) => seq!['n', 'u', 'l', 'l'],
        SourceV::NewtypeStruct(_, b) => json_of_source(*b),
        SourceV::Absent => seq!['n', 'u', 'l', 'l'],
        SourceV::Present(b) => json_of_source(*b),
        SourceV::Sequence(items) => seq!['['] + json_of_source_items(items) + seq![']'],
        SourceV::Tuple(items) => seq!['['] + json_of_source_items(items) + seq![']'],
        SourceV::TupleStruct(_, items) => seq!['['] + json_of_source_items(items) + seq![']'],
        SourceV::Mapping(pairs) => seq!['{'] + json_of_source_pairs(pairs) + seq!['}'],
        SourceV::Struct(_, fields) => seq!['{'] + json_of_source_fields(fields) + seq!['}'],
        SourceV::UnitVariant(_, _, var) => quoted(var),
        SourceV::NewtypeVariant(_, _, var, b) => seq!['{'] + quoted(var) + seq![':']
            + json_of_source(*b) + seq!['}'],
        SourceV::TupleVariant(_, _, var, items) => seq!['{'] + quoted(var) + seq![':'] + seq!['[']
            + json_of_source_items(items) + seq![']'] + seq!['}'],
        SourceV::StructVariant(_, _, var, fields) => seq!['{'] + quoted(var) + seq![':']
            + seq!['{'] + json_of_source_fields(fields) + seq!['}'] + seq!['}'],
    }
}

/// `escaped` distributes over appending one character.
pub proof fn lemma_escaped_push(s: Seq<char>, c: char)
    ensures
        escaped(s.push(c)) == escaped(s) + esc_char(c),
    decreases s.len(),
{
    if s.len() == 0 {
        assert(s.push(c).drop_first() =~= Seq::<char>::empty());
        assert(s.push(c)[0] == c);
        assert(escaped(s.push(c)) == esc_char(c) + escaped(s.push(c).drop_first()));
        assert(esc_char(c) + Seq::<char>::empty() =~= Seq::<char>::empty() + esc_char(c));
        assert(escaped(s) == Seq::<char>::empty());
    } else {
        let d = s.drop_first();
        assert(s.push(c).drop_first() =~= d.push(c));
        assert(s.push(c)[0] == s[0]);
        lemma_escaped_push(d, c);
        assert(escaped(s.push(c)) == esc_char(s[0]) + (escaped(d) + esc_char(c)));
        assert(esc_char(s[0]) + (escaped(d) + esc_char(c)) =~= (esc_char(s[0]) + escaped(d))
            + esc_char(c));
        assert(esc_char(s[0]) + escaped(d) == escaped(s));
    }
}

/// `json_of_bytes` distributes over appending one byte, with a comma before
/// it whenever it is not the first.
pub proof fn lemma_json_of_bytes_push(s: Seq<u8>, x: u8)
    ensures
        json_of_bytes(s.push(x)) == if s.len() == 0 {
            dec_nat(x as nat)
        } else {
            json_of_bytes(s) + seq![','] + dec_nat(x as nat)
        },
    decreases s.len(),
{
    if s.len() == 0 {
    } else {
        assert(s.push(x).drop_first() =~= s.drop_first().push(x));
        lemma_json_of_bytes_push(s.drop_first(), x);
        assert(json_of_bytes(s.push(x)) =~= json_of_bytes(s) + seq![','] + dec_nat(x as nat));
    }
}

/// `json_of_py_items` distributes over appending one element, with a comma
/// before it whenever it is not the first.
pub proof fn lemma_json_of_py_items_push(s: Seq<PyV>, x: PyV)
    ensures
        json_of_py_items(s.push(x)) == if s.len() == 0 {
            json_of_py(x)
        } else {
            json_of_py_items(s) + seq![','] + json_of_py(x)
        },
    decreases s.len(),
{
    if s.len() == 0 {
    } else {
        assert(s.push(x).drop_first() =~= s.drop_first().push(x));
        lemma_json_of_py_items_push(s.drop_first(), x);
        assert(json_of_py_items(s.push(x)) =~= json_of_py_items(s) + seq![','] + json_of_py(x));
    }
}

/// `json_of_py_entries` distributes over appending one entry, with a comma
/// before it whenever it is not the first.
pub proof fn lemma_json_of_py_entries_push(s: Seq<(PyV, PyV)>, x: (PyV, PyV))
    ensures
        json_of_py_entries(s.push(x)) == if s.len() == 0 {
            json_of_py(x.0) + seq![':'] + json_of_py(x.1)
        } else {
            json_of_py_entries(s) + seq![','] + json_of_py(x.0) + seq![':'] + json_of_py(x.1)
        },
    decreases s.len(),
{
    if s.len() == 0 {
    } else {
        assert(s.push(x).drop_first() =~= s.drop_first().push(x));
        lemma_json_of_py_entries_push(s.drop_first(), x);
        assert(json_of_py_entries(s.push(x)) =~= json_of_py_entries(s) + seq![','] + json_of_py(
            x.0,
        ) + seq![':'] + json_of_py(x.1));
    }
}

/// The decimal digit character for `d`.
fn digit(d: u8) -> (c: char)
    requires
        d < 10,
    ensures
        c == digit_char(d as int),
{
    match d {
        0 => '0',
        1 => '1',
        2 => '2',
        3 => '3',
        4 => '4',
        5 => '5',
        6 => '6',
        7 => '7',
        8 => '8',
        _ => '9',
    }
}

/// The lowercase hexadecimal digit character for `d`.
fn hex(d: u32) -> (c: char)
    requires
        d < 16,
    ensures
        c == hex_char(d as int),
{
    if d < 10 {
        digit(d as u8)
    } else {
        match d {
            10 => 'a',
            11 => 'b',
            12 => 'c',
            13 => 'd',
            14 => 'e',
            _ => 'f',
        }
    }
}

/// Appends the decimal digits of `n`, most significant first.
fn write_u128(n: u128, out: &mut String)
    ensures
        final(out)@ == old(out)@ + dec_nat(n as nat),
    decreases n,
{
    if n < 10 {
        push_char(out, digit(n as u8));
        proof {
            assert(out@ =~= old(out)@ + dec_nat(n as nat));
        }
    } else {
        write_u128(n / 10, out);
        push_char(out, digit((n % 10) as u8));
        proof {
            assert(out@ =~= old(out)@ + dec_nat(n as nat));
        }
    }
}

/// Appends the decimal rendering of `n`, with a leading minus when negative.
fn write_int(n: i128, out: &mut String)
    ensures
        final(out)@ == old(out)@ + dec_int(n as int),
{
    if n < 0 {
        push_char(out, '-');
        let mag: u128 = ((-(n + 1)) as u128) + 1;
        proof {
            assert(mag as int == -(n as int));
        }
        write_u128(mag, out);
        proof {
            assert(out@ =~= old(out)@ + dec_int(n as int));
        }
    } else {
        write_u128(n as u128, out);
    }
}

/// Appends the escape sequence for one string-body character.
fn write_escaped_char(c: char, out: &mut String)
    ensures
        final(out)@ == old(out)@ + esc_char(c),
{
    if c == '"' {
        push_char(out, '\\');
        push_char(out, '"');
    } else if c == '\\' {
        push_char(out, '\\');
        push_char(out, '\\');
    } else if c == '\n' {
        push_char(out, '\\');
        push_char(out, 'n');
    } else if c == '\r' {
        push_char(out, '\\');
        push_char(out, 'r');
    } else if c == '\t' {
        push_char(out, '\\');
        push_char(out, 't');
    } else if c == '\u{8}' {
        push_char(out, '\\');
        push_char(out, 'b');
    } else if c == '\u{c}' {
        push_char(out, '\\');
        push_char(out, 'f');
    } else if (c as u32) < 32 {
        push_char(out, '\\');
        push_char(out, 'u');
        push_char(out, '0');
        push_char(out, '0');
        push_char(out, hex((c as u32) / 16));
        push_char(out, hex((c as u32) % 16));
    } else {
        push_char(out, c);
    }
    proof {
        assert(out@ =~= old(out)@ + esc_char(c));
    }
}

/// Appends a quoted, escaped string literal.
fn write_quoted(s: &str, out: &mut String)
    ensures
        final(out)@ == old(out)@ + quoted(s@),
{
    push_char(out, '"');
    let n = s.unicode_len();
    let mut i: usize = 0;
    while i < n
        invariant
            i <= n,
            n == s@.len(),
            out@ == old(out)@ + seq!['"'] + escaped(s@.take(i as int)),
        decreases n - i,
    {
        let c = s.get_char(i);
        write_escaped_char(c, out);
        proof {
            lemma_escaped_push(s@.take(i as int), c);
            assert(s@.take(i as int).push(c) =~= s@.take(i as int + 1));
            assert(out@ =~= old(out)@ + seq!['"'] + escaped(s@.take(i as int + 1)));
        }
        i += 1;
    }
    push_char(out, '"');
    proof {
        assert(s@.take(n as int) =~= s@);
        assert(out@ =~= old(out)@ + quoted(s@));
    }
}

/// Appends the canonical compact rendering of a foreign value.
fn write_json(value: &PyValue, out: &mut String)
    ensures
        final(out)@ == old(out)@ + json_of_py(value@),
    decreases value, 1int,
{
    match value {
        PyValue::Null => {
            out.append("null");
            proof {
                reveal_strlit("null");
                assert(out@ =~= old(out)@ + json_of_py(value@));
            }
        },
        PyValue::Bool(b) => {
            if *b {
                out.append("true");
                proof {
                    reveal_strlit("true");
                    assert(out@ =~= old(out)@ + json_of_py(value@));
                }
            } else {
                out.append("false");
                proof {
                    reveal_strlit("false");
                    assert(out@ =~= old(out)@ + json_of_py(value@));
                }
            }
        },
        PyValue::Int(n) => {
            write_int(*n, out);
        },
        PyValue::Str(s) => {
            write_quoted(s.as_str(), out);
        },
        PyValue::Bytes(b) => {
            push_char(out, '[');
            let mut i: usize = 0;
            while i < b.len()
                invariant
                    i <= b.len(),
                    value is Bytes,
                    b == value->Bytes_0,
                    out@ == old(out)@ + seq!['['] + json_of_bytes(b@.take(i as int)),
                decreases b.len() - i,
            {
                if i > 0 {
                    push_char(out, ',');
                }
                write_u128(b[i] as u128, out);
                proof {
                    lemma_json_of_bytes_push(b@.take(i as int), b@[i as int]);
                    assert(b@.take(i as int).push(b@[i as int]) =~= b@.take(i as int + 1));
                    assert(out@ =~= old(out)@ + seq!['['] + json_of_bytes(b@.take(i as int + 1)));
                }
                i += 1;
            }
            push_char(out, ']');
            proof {
                assert(b@.take(b@.len() as int) =~= b@);
                assert(out@ =~= old(out)@ + json_of_py(value@));
            }
        },
        PyValue::List(items) => {
            push_char(out, '[');
            write_json_items(value, items, out);
            push_char(out, ']');
            proof {
                assert(out@ =~= old(out)@ + json_of_py(value@));
            }
        },
        PyValue::Tuple(items) => {
            push_char(out, '[');
            write_json_items(value, items, out);
            push_char(out, ']');
            proof {
                assert(out@ =~= old(out)@ + json_of_py(value@));
            }
        },
        PyValue::Dict(pairs) => {
            push_char(out, '{');
            let mut i: usize = 0;
            while i < pairs.len()
                invariant
                    i <= pairs.len(),
                    value is Dict,
                    pairs == value->Dict_0,
                    out@ == old(out)@ + seq!['{'] + json_of_py_entries(
                        py_pair_views(pairs@).take(i as int),
                    ),
                decreases pairs.len() - i,
            {
                proof {
                    lemma_py_pair_views(pairs@);
                    assert(decreases_to!(*value => value->Dict_0));
                    assert(decreases_to!(value->Dict_0 => value->Dict_0@));
                    assert(decreases_to!(value->Dict_0@ => value->Dict_0@[i as int]));
                    assert(decreases_to!(
                        value->Dict_0@[i as int] => value->Dict_0@[i as int].0));
                    assert(decreases_to!(
                        value->Dict_0@[i as int] => value->Dict_0@[i as int].1));
                    assert(decreases_to!(*value => value->Dict_0@[i as int].0));
                    assert(decreases_to!(*value => value->Dict_0@[i as int].1));
                }
                if i > 0 {
                    push_char(out, ',');
                }
                let pair = &pairs[i];
                write_json(&pair.0, out);
                push_char(out, ':');
                write_json(&pair.1, out);
                proof {
                    lemma_json_of_py_entries_push(
                        py_pair_views(pairs@).take(i as int),
                        py_pair_views(pairs@)[i as int],
                    );
                    assert(py_pair_views(pairs@).take(i as int).push(
                        py_pair_views(pairs@)[i as int],
                    ) =~= py_pair_views(pairs@).take(i as int + 1));
                    assert(out@ =~= old(out)@ + seq!['{'] + json_of_py_entries(
                        py_pair_views(pairs@).take(i as int + 1),
                    ));
                }
                i += 1;
            }
            push_char(out, '}');
            proof {
                lemma_py_pair_views(pairs@);
                assert(py_pair_views(pairs@).take(py_pair_views(pairs@).len() as int)
                    =~= py_pair_views(pairs@));
                assert(out@ =~= old(out)@ + json_of_py(value@));
            }
        },
    }
}

/// Appends the comma-joined renderings of the elements of a sequence value.
/// `whole` is the sequence value the items belong to, which bounds the
/// recursion.
fn write_json_items(whole: &PyValue, items: &Vec<PyValue>, out: &mut String)
    requires
        (*whole matches PyValue::List(v) && v == *items) || (*whole matches PyValue::Tuple(v)
            && v == *items),
    ensures
        final(out)@ == old(out)@ + json_of_py_items(py_views(items@)),
    decreases whole, 0int,
{
    let mut i: usize = 0;
    while i < items.len()
        invariant
            i <= items.len(),
            (*whole matches PyValue::List(v) && v == *items) || (*whole matches PyValue::Tuple(v)
                && v == *items),
            out@ == old(out)@ + json_of_py_items(py_views(items@).take(i as int)),
        decreases items.len() - i,
    {
        proof {
            lemma_py_views(items@);
            if whole is List {
                assert(decreases_to!(*whole => whole->List_0));
                assert(decreases_to!(whole->List_0 => whole->List_0@));
                assert(decreases_to!(whole->List_0@ => whole->List_0@[i as int]));
                assert(decreases_to!(*whole => items@[i as int]));
            } else {
                assert(decreases_to!(*whole => whole->Tuple_0));
                assert(decreases_to!(whole->Tuple_0 => whole->Tuple_0@));
                assert(decreases_to!(whole->Tuple_0@ => whole->Tuple_0@[i as int]));
                assert(decreases_to!(*whole => items@[i as int]));
            }
        }
        if i > 0 {
            push_char(out, ',');
        }
        write_json(&items[i], out);
        proof {
            lemma_json_of_py_items_push(py_views(items@).take(i as int), py_views(items@)[i as int]);
            assert(py_views(items@).take(i as int).push(py_views(items@)[i as int]) =~= py_views(
                items@,
            ).take(i as int + 1));
            assert(out@ =~= old(out)@ + json_of_py_items(py_views(items@).take(i as int + 1)));
        }
        i += 1;
    }
    proof {
        lemma_py_views(items@);
        assert(py_views(items@).take(py_views(items@).len() as int) =~= py_views(items@));
        assert(out@ =~= old(out)@ + json_of_py_items(py_views(items@)));
    }
}

/// Renders a foreign value in the canonical compact text encoding.
pub fn to_json(value: &PyValue) -> (r: String)
    ensures
        r@ == json_of_py(value@),
{
    let mut out = String::new();
    write_json(value, &mut out);
    proof {
        assert(out@ =~= json_of_py(value@));
    }
    out
}

} // verus!
