//! The JSON text model: how a string value is escaped and quoted, and how
//! object fields and array items are joined into the final message text.
//!
//! Numbers are carried through the wire model as their already-rendered
//! decimal text, so the functions here deal only in character sequences.

use vstd::prelude::*;

verus! {

/// The lowercase hexadecimal digit for `n` (meaningful for `n < 16`).
pub open spec fn hex_digit(n: nat) -> char {
    if n == 0 {
        '0'
    } else if n == 1 {
        '1'
    } else if n == 2 {
        '2'
    } else if n == 3 {
        '3'
    } else if n == 4 {
        '4'
    } else if n == 5 {
        '5'
    } else if n == 6 {
        '6'
    } else if n == 7 {
        '7'
    } else if n == 8 {
        '8'
    } else if n == 9 {
        '9'
    } else if n == 10 {
        'a'
    } else if n == 11 {
        'b'
    } else if n == 12 {
        'c'
    } else if n == 13 {
        'd'
    } else if n == 14 {
        'e'
    } else {
        'f'
    }
}

/// The escaped form of one character inside a JSON string value: quote and
/// backslash take a two-character escape, the five control characters with
/// short escapes take theirs, every other control character takes the
/// six-character `\u00..` form, and all remaining characters stand as
/// themselves.
pub open spec fn escape_char(c: char) -> Seq<char> {
    if c == '"' {
        seq!['\\', '"']
    } else if c == '\\' {
        seq!['\\', '\\']
    } else if c == '\u{8}' {
        seq!['\\', 'b']
    } else if c == '\t' {
        seq!['\\', 't']
    } else if c == '\n' {
        seq!['\\', 'n']
    } else if c == '\u{c}' {
        seq!['\\', 'f']
    } else if c == '\r' {
        seq!['\\', 'r']
    } else if (c as u32) < 32 {
        seq!['\\', 'u', '0', '0', hex_digit((c as u32) as nat / 16), hex_digit((c as u32) as nat % 16)]
    } else {
        seq![c]
    }
}

/// The escaped form of a whole string value.
pub open spec fn escape_seq(s: Seq<char>) -> Seq<char>
    decreases s.len(),
{
    if s.len() == 0 {
        Seq::<char>::empty()
    } else {
        escape_seq(s.drop_last()) + escape_char(s.last())
    }
}

/// A JSON string value: the escaped content between double quotes.
pub open spec fn string_text(s: Seq<char>) -> Seq<char> {
    seq!['"'] + escape_seq(s) + seq!['"']
}

/// The items of an array, joined by commas.
pub open spec fn join_comma(items: Seq<Seq<char>>) -> Seq<char>
    decreases items.len(),
{
    if items.len() == 0 {
        Seq::<char>::empty()
    } else if items.len() == 1 {
        items[0]
    } else {
        join_comma(items.drop_last()) + seq![','] + items.last()
    }
}

/// A JSON array whose items are already rendered.
pub open spec fn array_text(items: Seq<Seq<char>>) -> Seq<char> {
    seq!['['] + join_comma(items) + seq![']']
}

/// One object field: the key (a fixed schema name, emitted verbatim) between
/// quotes, a colon, then the already-rendered value.
pub open spec fn field_text(key: Seq<char>, value: Seq<char>) -> Seq<char> {
    seq!['"'] + key + seq!['"', ':'] + value
}

/// The fields of an object, rendered and joined by commas.
pub open spec fn fields_join(fields: Seq<(Seq<char>, Seq<char>)>) -> Seq<char>
    decreases fields.len(),
{
    if fields.len() == 0 {
        Seq::<char>::empty()
    } else if fields.len() == 1 {
        field_text(fields[0].0, fields[0].1)
    } else {
        fields_join(fields.drop_last()) + seq![','] + field_text(
            fields.last().0,
            fields.last().1,
        )
    }
}

/// A JSON object whose field values are already rendered.
pub open spec fn object_text(fields: Seq<(Seq<char>, Seq<char>)>) -> Seq<char> {
    seq!['{'] + fields_join(fields) + seq!['}']
}

/// Appending one more item to a comma-joined list appends a comma (when the
/// list was not empty) and the item.
pub proof fn lemma_join_push(items: Seq<Seq<char>>, x: Seq<char>)
    ensures
        join_comma(items.push(x)) == if items.len() == 0 {
            x
        } else {
            join_comma(items) + seq![','] + x
        },
{
    assert(items.push(x).drop_last() =~= items);
    assert(items.push(x).last() == x);
    if items.len() == 0 {
        assert(join_comma(items.push(x)) == x);
    }
}

/// A two-item comma-joined list, written out.
pub proof fn lemma_join2(a: Seq<char>, b: Seq<char>)
    ensures
        join_comma(seq![a, b]) == a + seq![','] + b,
{
    assert(seq![a, b] =~= seq![a].push(b));
    lemma_join_push(seq![a], b);
}

/// A four-item comma-joined list, written out.
pub proof fn lemma_join4(a: Seq<char>, b: Seq<char>, c: Seq<char>, d: Seq<char>)
    ensures
        join_comma(seq![a, b, c, d]) == a + seq![','] + b + seq![','] + c + seq![','] + d,
{
    lemma_join2(a, b);
    assert(seq![a, b, c] =~= seq![a, b].push(c));
    lemma_join_push(seq![a, b], c);
    assert(seq![a, b, c, d] =~= seq![a, b, c].push(d));
    lemma_join_push(seq![a, b, c], d);
}

/// Appending one more field to an object body appends a comma (when the
/// object was not empty) and the rendered field.
pub proof fn lemma_fields_push(fields: Seq<(Seq<char>, Seq<char>)>, k: Seq<char>, v: Seq<char>)
    ensures
        fields_join(fields.push((k, v))) == if fields.len() == 0 {
            field_text(k, v)
        } else {
            fields_join(fields) + seq![','] + field_text(k, v)
        },
{
    assert(fields.push((k, v)).drop_last() =~= fields);
    assert(fields.push((k, v)).last() == (k, v));
    if fields.len() == 0 {
        assert(fields_join(fields.push((k, v))) == field_text(k, v));
    }
}

/// A two-field object body, written out.
pub proof fn lemma_fields2(k0: Seq<char>, v0: Seq<char>, k1: Seq<char>, v1: Seq<char>)
    ensures
        fields_join(seq![(k0, v0), (k1, v1)]) == field_text(k0, v0) + seq![','] + field_text(
            k1,
            v1,
        ),
{
    assert(seq![(k0, v0), (k1, v1)] =~= seq![(k0, v0)].push((k1, v1)));
    lemma_fields_push(seq![(k0, v0)], k1, v1);
}

/// A three-field object body, written out.
pub proof fn lemma_fields3(
    k0: Seq<char>,
    v0: Seq<char>,
    k1: Seq<char>,
    v1: Seq<char>,
    k2: Seq<char>,
    v2: Seq<char>,
)
    ensures
        fields_join(seq![(k0, v0), (k1, v1), (k2, v2)]) == field_text(k0, v0) + seq![',']
            + field_text(k1, v1) + seq![','] + field_text(k2, v2),
{
    lemma_fields2(k0, v0, k1, v1);
    assert(seq![(k0, v0), (k1, v1), (k2, v2)] =~= seq![(k0, v0), (k1, v1)].push((k2, v2)));
    lemma_fields_push(seq![(k0, v0), (k1, v1)], k2, v2);
}

/// A five-field object body, written out.
pub proof fn lemma_fields5(
    k0: Seq<char>,
    v0: Seq<char>,
    k1: Seq<char>,
    v1: Seq<char>,
    k2: Seq<char>,
    v2: Seq<char>,
    k3: Seq<char>,
    v3: Seq<char>,
    k4: Seq<char>,
    v4: Seq<char>,
)
    ensures
        fields_join(seq![(k0, v0), (k1, v1), (k2, v2), (k3, v3), (k4, v4)]) == field_text(k0, v0)
            + seq![','] + field_text(k1, v1) + seq![','] + field_text(k2, v2) + seq![',']
            + field_text(k3, v3) + seq![','] + field_text(k4, v4),
{
    lemma_fields3(k0, v0, k1, v1, k2, v2);
    assert(seq![(k0, v0), (k1, v1), (k2, v2), (k3, v3)] =~= seq![(k0, v0), (k1, v1), (k2, v2)].push(
        (k3, v3),
    ));
    lemma_fields_push(seq![(k0, v0), (k1, v1), (k2, v2)], k3, v3);
    assert(seq![(k0, v0), (k1, v1), (k2, v2), (k3, v3), (k4, v4)] =~= seq![
        (k0, v0),
        (k1, v1),
        (k2, v2),
        (k3, v3),
    ].push((k4, v4)));
    lemma_fields_push(seq![(k0, v0), (k1, v1), (k2, v2), (k3, v3)], k4, v4);
}

/// The lowercase hexadecimal digit for `n`, executable form.
pub fn hex_digit_char(n: u32) -> (c: char)
    requires
        n < 16,
    ensures
        c == hex_digit(n as nat),
{
    if n == 0 {
        '0'
    } else if n == 1 {
        '1'
    } else if n == 2 {
        '2'
    } else if n == 3 {
        '3'
    } else if n == 4 {
        '4'
    } else if n == 5 {
        '5'
    } else if n == 6 {
        '6'
    } else if n == 7 {
        '7'
    } else if n == 8 {
        '8'
    } else if n == 9 {
        '9'
    } else if n == 10 {
        'a'
    } else if n == 11 {
        'b'
    } else if n == 12 {
        'c'
    } else if n == 13 {
        'd'
    } else if n == 14 {
        'e'
    } else {
        'f'
    }
}

/// Appends the characters of `s` to `out`, unchanged.
pub fn push_str_chars(out: &mut Vec<char>, s: &str)
    ensures
        final(out)@ == old(out)@ + s@,
{
    let n = s.unicode_len();
    let mut i: usize = 0;
    while i < n
        invariant
            n == s@.len(),
            i <= n,
            out@ == old(out)@ + s@.take(i as int),
        decreases n - i,
    {
        let c = s.get_char(i);
        out.push(c);
        i = i + 1;
        proof {
            assert(old(out)@ + s@.take(i as int) =~= (old(out)@ + s@.take(i - 1)).push(
                s@[i - 1],
            ));
        }
    }
    proof {
        assert(s@.take(n as int) =~= s@);
    }
}

/// Appends the escaped form of `s` to `out`.
pub fn push_escaped(out: &mut Vec<char>, s: &str)
    ensures
        final(out)@ == old(out)@ + escape_seq(s@),
{
    let n = s.unicode_len();
    let mut i: usize = 0;
    while i < n
        invariant
            n == s@.len(),
            i <= n,
            out@ == old(out)@ + escape_seq(s@.take(i as int)),
        decreases n - i,
    {
        let c = s.get_char(i);
        let u = c as u32;
        let ghost prefix = out@;
        if c == '"' {
            out.push('\\');
            out.push('"');
        } else if c == '\\' {
            out.push('\\');
            out.push('\\');
        } else if u == 8 {
            out.push('\\');
            out.push('b');
        } else if u == 9 {
            out.push('\\');
            out.push('t');
        } else if u == 10 {
            out.push('\\');
            out.push('n');
        } else if u == 12 {
            out.push('\\');
            out.push('f');
        } else if u == 13 {
            out.push('\\');
            out.push('r');
        } else if u < 32 {
            out.push('\\');
            out.push('u');
            out.push('0');
            out.push('0');
            out.push(hex_digit_char(u / 16));
            out.push(hex_digit_char(u % 16));
        } else {
            out.push(c);
        }
        proof {
            assert(out@ =~= prefix + escape_char(s@[i as int]));
            assert(s@.take(i + 1).drop_last() =~= s@.take(i as int));
            assert(s@.take(i + 1).last() == s@[i as int]);
            assert(escape_seq(s@.take(i + 1)) == escape_seq(s@.take(i as int)) + escape_char(
                s@[i as int],
            ));
            assert(out@ =~= old(out)@ + escape_seq(s@.take(i + 1)));
        }
        i = i + 1;
    }
    proof {
        assert(s@.take(n as int) =~= s@);
    }
}

/// Appends the quoted, escaped form of the string value `s` to `out`.
pub fn push_quoted(out: &mut Vec<char>, s: &str)
    ensures
        final(out)@ == old(out)@ + string_text(s@),
{
    out.push('"');
    proof {
        assert(out@ =~= old(out)@ + seq!['"']);
    }
    push_escaped(out, s);
    out.push('"');
    proof {
        assert(out@ =~= old(out)@ + string_text(s@));
    }
}

/// Appends a field key and its colon to `out`: `"key":`.
pub fn push_key(out: &mut Vec<char>, key: &str)
    ensures
        final(out)@ == old(out)@ + seq!['"'] + key@ + seq!['"', ':'],
{
    out.push('"');
    proof {
        assert(out@ =~= old(out)@ + seq!['"']);
    }
    push_str_chars(out, key);
    out.push('"');
    out.push(':');
    proof {
        assert(out@ =~= old(out)@ + seq!['"'] + key@ + seq!['"', ':']);
    }
}

/// Relies on `String`'s `FromIterator<char>` implementation: collecting a
/// sequence of characters yields the string made of exactly those characters.
#[verifier::external_body]
pub(crate) fn chars_to_string(v: &Vec<char>) -> (r: String)
    ensures
        r@ == v@,
{
    v.iter().collect()
}

} // verus!
