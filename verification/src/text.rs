//! SQL text: how names and values are written into a dump.

use vstd::prelude::*;
use vstd::std_specs::iter::IteratorSpec;

verus! {

/// `String::push` of std appends the one character to the end of the string
/// and leaves what was there before as it was.
pub assume_specification[ String::push ](s: &mut String, ch: char)
    ensures
        final(s)@ == old(s)@.push(ch),
;

/// The expansion of nothing is nothing.
pub proof fn lemma_flat_map_empty<A, B>(f: spec_fn(A) -> Seq<B>)
    ensures
        Seq::<A>::empty().flat_map(f) == Seq::<B>::empty(),
{
    assert(Seq::<A>::empty().map_values(f) =~= Seq::<Seq<B>>::empty());
}

/// One more item adds its expansion to the end of a flat map.
pub proof fn lemma_flat_map_push<A, B>(items: Seq<A>, item: A, f: spec_fn(A) -> Seq<B>)
    ensures
        items.push(item).flat_map(f) == items.flat_map(f) + f(item),
{
    assert(items.push(item).map_values(f) =~= items.map_values(f).push(f(item)));
    items.map_values(f).lemma_flatten_push(f(item));
}

/// The expansion of a sequence that is not empty starts with the expansion
/// of its first item.
pub proof fn lemma_flat_map_first<A, B>(items: Seq<A>, f: spec_fn(A) -> Seq<B>)
    requires
        items.len() > 0,
    ensures
        items.flat_map(f) == f(items[0]) + items.drop_first().flat_map(f),
{
    assert(items.map_values(f).drop_first() =~= items.drop_first().map_values(f));
}

/// How one character of a name stands between double quotes: a double quote
/// is written twice, any other character as it is.
pub open spec fn name_piece(c: char) -> Seq<char> {
    if c == '"' {
        seq!['"', '"']
    } else {
        seq![c]
    }
}

/// A name as an SQL identifier: between double quotes, with every double
/// quote inside it doubled.
pub open spec fn quoted_name(name: Seq<char>) -> Seq<char> {
    seq!['"'] + name.flat_map(|c: char| name_piece(c)) + seq!['"']
}

/// Appends `name` to `out` as a quoted SQL identifier.
pub fn push_quoted_name(out: &mut String, name: &str)
    ensures
        final(out)@ == old(out)@ + quoted_name(name@),
{
    broadcast use vstd::string::group_string_axioms;

    out.push('"');
    let mut rest = name.chars();
    let ghost mut seen: Seq<char> = Seq::empty();
    proof {
        lemma_flat_map_empty::<char, char>(|c: char| name_piece(c));
    }
    loop
        invariant
            seen + rest.remaining() == name@,
            out@ == old(out)@ + seq!['"'] + seen.flat_map(|c: char| name_piece(c)),
            rest.decrease() is Some,
        ensures
            seen == name@,
        decreases rest.decrease()->0,
    {
        let ghost before = rest.remaining();
        match rest.next() {
            Some(c) => {
                proof {
                    lemma_flat_map_push(seen, c, |c: char| name_piece(c));
                    assert(seen.push(c) + before.drop_first() =~= seen + before);
                }
                if c == '"' {
                    out.push('"');
                    out.push('"');
                } else {
                    out.push(c);
                }
                proof {
                    seen = seen.push(c);
                    assert(out@ =~= old(out)@ + seq!['"'] + seen.flat_map(|c: char| name_piece(c)));
                }
            },
            None => {
                proof {
                    assert(seen =~= name@);
                }
                break ;
            },
        }
    }
    out.push('"');
    assert(out@ =~= old(out)@ + quoted_name(name@));
}

/// How one character of a text stands between single quotes. A single
/// quote is written twice. A NUL character would end the statement, so the
/// literal is closed before it, joined to `char(0)`, and opened again.
pub open spec fn text_piece(c: char) -> Seq<char> {
    if c == '\'' {
        "''"@
    } else if c == '\0' {
        "'||char(0)||'"@
    } else {
        seq![c]
    }
}

/// A text as an SQL expression: between single quotes, every character
/// written as [`text_piece`] says.
pub open spec fn text_literal(text: Seq<char>) -> Seq<char> {
    seq!['\''] + text.flat_map(|c: char| text_piece(c)) + seq!['\'']
}

/// Appends `text` to `out` as an SQL text expression.
pub fn push_text_literal(out: &mut String, text: &str)
    ensures
        final(out)@ == old(out)@ + text_literal(text@),
{
    broadcast use vstd::string::group_string_axioms;

    out.push('\'');
    let mut rest = text.chars();
    let ghost mut seen: Seq<char> = Seq::empty();
    proof {
        lemma_flat_map_empty::<char, char>(|c: char| text_piece(c));
    }
    loop
        invariant
            seen + rest.remaining() == text@,
            out@ == old(out)@ + seq!['\''] + seen.flat_map(|c: char| text_piece(c)),
            rest.decrease() is Some,
        ensures
            seen == text@,
        decreases rest.decrease()->0,
    {
        let ghost before = rest.remaining();
        match rest.next() {
            Some(c) => {
                proof {
                    lemma_flat_map_push(seen, c, |c: char| text_piece(c));
                    assert(seen.push(c) + before.drop_first() =~= seen + before);
                }
                if c == '\'' {
                    out.append("''");
                } else if c == '\0' {
                    out.append("'||char(0)||'");
                } else {
                    out.push(c);
                }
                proof {
                    seen = seen.push(c);
                    assert(out@ =~= old(out)@ + seq!['\''] + seen.flat_map(
                        |c: char| text_piece(c),
                    ));
                }
            },
            None => {
                proof {
                    assert(seen =~= text@);
                }
                break ;
            },
        }
    }
    out.push('\'');
    assert(out@ =~= old(out)@ + text_literal(text@));
}

/// The character that stands for a digit value below sixteen: `0` to `9`,
/// then `A` to `F`.
pub open spec fn digit_char(value: int) -> char {
    if value < 10 {
        ('0' as int + value) as char
    } else {
        ('A' as int + value - 10) as char
    }
}

fn digit_of(value: u8) -> (c: char)
    requires
        value < 16,
    ensures
        c == digit_char(value as int),
{
    if value < 10 {
        (48u8 + value) as char
    } else {
        (55u8 + value) as char
    }
}

/// How one byte of a blob is written: two hexadecimal digits, the high half
/// first.
pub open spec fn byte_piece(byte: u8) -> Seq<char> {
    seq![digit_char(byte as int / 16), digit_char(byte as int % 16)]
}

/// A blob as an SQL literal: `X'`, two hexadecimal digits for each byte, and
/// a closing quote.
pub open spec fn blob_literal(bytes: Seq<u8>) -> Seq<char> {
    "X'"@ + bytes.flat_map(|b: u8| byte_piece(b)) + seq!['\'']
}

/// Appends `bytes` to `out` as an SQL blob literal.
pub fn push_blob_literal(out: &mut String, bytes: &Vec<u8>)
    ensures
        final(out)@ == old(out)@ + blob_literal(bytes@),
{
    out.append("X'");
    let mut i: usize = 0;
    proof {
        lemma_flat_map_empty::<u8, char>(|b: u8| byte_piece(b));
        assert(bytes@.take(0) =~= Seq::empty());
    }
    while i < bytes.len()
        invariant
            i <= bytes.len(),
            out@ == old(out)@ + "X'"@ + bytes@.take(i as int).flat_map(|b: u8| byte_piece(b)),
        decreases bytes.len() - i,
    {
        let byte = bytes[i];
        proof {
            lemma_flat_map_push(bytes@.take(i as int), byte, |b: u8| byte_piece(b));
            assert(bytes@.take(i as int).push(byte) =~= bytes@.take(i + 1));
        }
        out.push(digit_of(byte / 16));
        out.push(digit_of(byte % 16));
        i += 1;
        assert(out@ =~= old(out)@ + "X'"@ + bytes@.take(i as int).flat_map(
            |b: u8| byte_piece(b),
        ));
    }
    out.push('\'');
    assert(bytes@.take(i as int) =~= bytes@);
    assert(out@ =~= old(out)@ + blob_literal(bytes@));
}

/// A natural number in decimal, without leading zeros.
pub open spec fn decimal_digits(n: nat) -> Seq<char>
    decreases n,
{
    if n < 10 {
        seq![digit_char(n as int)]
    } else {
        decimal_digits(n / 10).push(digit_char(n as int % 10))
    }
}

/// An integer as an SQL literal: its decimal digits, after a minus sign
/// where it is negative.
pub open spec fn integer_literal(value: int) -> Seq<char> {
    if value < 0 {
        seq!['-'] + decimal_digits((-value) as nat)
    } else {
        decimal_digits(value as nat)
    }
}

fn push_decimal_digits(out: &mut String, n: u64)
    ensures
        final(out)@ == old(out)@ + decimal_digits(n as nat),
    decreases n,
{
    if n >= 10 {
        push_decimal_digits(out, n / 10);
    }
    out.push(digit_of((n % 10) as u8));
    assert(out@ =~= old(out)@ + decimal_digits(n as nat));
}

/// Appends `value` to `out` as an SQL integer literal.
pub fn push_integer_literal(out: &mut String, value: i64)
    ensures
        final(out)@ == old(out)@ + integer_literal(value as int),
{
    if value < 0 {
        out.push('-');
        let magnitude: u64 = (-(value + 1)) as u64 + 1;
        push_decimal_digits(out, magnitude);
        assert(out@ =~= old(out)@ + integer_literal(value as int));
    } else {
        push_decimal_digits(out, value as u64);
    }
}

} // verus!
