//! Nothing is lost in writing: two values that are written alike are the
//! same value. A dump therefore tells the values of a database apart, class
//! by class and value by value, which is what putting them back rests on.

use vstd::prelude::*;
use crate::dump::value_literal;
use crate::text::{
    blob_literal, byte_piece, decimal_digits, digit_char, integer_literal,
    lemma_flat_map_empty, lemma_flat_map_first, text_literal, text_piece,
};
use crate::value::{digits_end, is_digit, is_real_literal, Datum};

verus! {

proof fn lemma_text_pieces_injective(first: Seq<char>, second: Seq<char>)
    requires
        first.flat_map(|c: char| text_piece(c)) == second.flat_map(|c: char| text_piece(c)),
    ensures
        first == second,
    decreases first.len(),
{
    let f = |c: char| text_piece(c);
    reveal_strlit("''");
    reveal_strlit("'||char(0)||'");
    lemma_flat_map_empty::<char, char>(f);
    if first.len() == 0 {
        assert(first =~= Seq::empty());
        if second.len() > 0 {
            lemma_flat_map_first(second, f);
            assert(f(second[0]).len() > 0);
            assert(second.flat_map(f).len() > 0);
        }
        assert(first =~= second);
    } else {
        lemma_flat_map_first(first, f);
        assert(f(first[0]).len() > 0);
        if second.len() == 0 {
            assert(second =~= Seq::empty());
        } else {
            lemma_flat_map_first(second, f);
            let p = f(first[0]);
            let q = f(second[0]);
            let a = first.drop_first().flat_map(f);
            let b = second.drop_first().flat_map(f);
            assert(p + a == q + b);
            assert((p + a)[0] == p[0]);
            assert((q + b)[0] == q[0]);
            assert(p.len() >= 2 ==> (p + a)[1] == p[1]);
            assert(q.len() >= 2 ==> (q + b)[1] == q[1]);
            assert(first[0] == second[0]);
            assert(a =~= (p + a).skip(p.len() as int));
            assert(b =~= (q + b).skip(q.len() as int));
            lemma_text_pieces_injective(first.drop_first(), second.drop_first());
            assert(first =~= seq![first[0]] + first.drop_first());
            assert(second =~= seq![second[0]] + second.drop_first());
        }
    }
}

/// Two texts that are written alike are the same text.
pub proof fn lemma_text_literal_injective(first: Seq<char>, second: Seq<char>)
    requires
        text_literal(first) == text_literal(second),
    ensures
        first == second,
{
    let f = |c: char| text_piece(c);
    let a = first.flat_map(f);
    let b = second.flat_map(f);
    assert(text_literal(first).len() == a.len() + 2);
    assert(text_literal(second).len() == b.len() + 2);
    assert(a =~= text_literal(first).subrange(1, a.len() as int + 1));
    assert(b =~= text_literal(second).subrange(1, b.len() as int + 1));
    lemma_text_pieces_injective(first, second);
}

/// Different digit values have different digit characters.
pub proof fn lemma_digit_char_injective(first: int, second: int)
    requires
        0 <= first < 16,
        0 <= second < 16,
        digit_char(first) == digit_char(second),
    ensures
        first == second,
{
}

proof fn lemma_byte_pieces_injective(first: Seq<u8>, second: Seq<u8>)
    requires
        first.flat_map(|b: u8| byte_piece(b)) == second.flat_map(|b: u8| byte_piece(b)),
    ensures
        first == second,
    decreases first.len(),
{
    let f = |b: u8| byte_piece(b);
    lemma_flat_map_empty::<u8, char>(f);
    if first.len() == 0 {
        assert(first =~= Seq::empty());
        if second.len() > 0 {
            lemma_flat_map_first(second, f);
            assert(f(second[0]).len() > 0);
            assert(second.flat_map(f).len() > 0);
        }
        assert(first =~= second);
    } else {
        lemma_flat_map_first(first, f);
        assert(f(first[0]).len() > 0);
        if second.len() == 0 {
            assert(second =~= Seq::empty());
        } else {
            lemma_flat_map_first(second, f);
            let p = f(first[0]);
            let q = f(second[0]);
            let a = first.drop_first().flat_map(f);
            let b = second.drop_first().flat_map(f);
            assert((p + a)[0] == p[0] && (p + a)[1] == p[1]);
            assert((q + b)[0] == q[0] && (q + b)[1] == q[1]);
            lemma_digit_char_injective(first[0] as int / 16, second[0] as int / 16);
            lemma_digit_char_injective(first[0] as int % 16, second[0] as int % 16);
            assert(first[0] == second[0]);
            assert(a =~= (p + a).skip(2));
            assert(b =~= (q + b).skip(2));
            lemma_byte_pieces_injective(first.drop_first(), second.drop_first());
            assert(first =~= seq![first[0]] + first.drop_first());
            assert(second =~= seq![second[0]] + second.drop_first());
        }
    }
}

/// Two blobs that are written alike are the same blob.
pub proof fn lemma_blob_literal_injective(first: Seq<u8>, second: Seq<u8>)
    requires
        blob_literal(first) == blob_literal(second),
    ensures
        first == second,
{
    reveal_strlit("X'");
    let f = |b: u8| byte_piece(b);
    let a = first.flat_map(f);
    let b = second.flat_map(f);
    assert(blob_literal(first).len() == a.len() + 3);
    assert(blob_literal(second).len() == b.len() + 3);
    assert(a =~= blob_literal(first).subrange(2, a.len() as int + 2));
    assert(b =~= blob_literal(second).subrange(2, b.len() as int + 2));
    lemma_byte_pieces_injective(first, second);
}

/// The decimal digits of a number are digits, at least one, and more than
/// one exactly from ten on.
pub proof fn lemma_decimal_digits_are_digits(n: nat)
    ensures
        decimal_digits(n).len() >= 1,
        n >= 10 <==> decimal_digits(n).len() >= 2,
        forall|i: int| 0 <= i < decimal_digits(n).len() ==> is_digit(#[trigger] decimal_digits(n)[i]),
    decreases n,
{
    if n >= 10 {
        lemma_decimal_digits_are_digits(n / 10);
    }
}

/// Two natural numbers with the same decimal digits are the same number.
pub proof fn lemma_decimal_digits_injective(first: nat, second: nat)
    requires
        decimal_digits(first) == decimal_digits(second),
    ensures
        first == second,
    decreases first,
{
    lemma_decimal_digits_are_digits(first);
    lemma_decimal_digits_are_digits(second);
    if first >= 10 {
        let a = decimal_digits(first / 10);
        let b = decimal_digits(second / 10);
        assert(a =~= decimal_digits(first).drop_last());
        assert(b =~= decimal_digits(second).drop_last());
        assert(decimal_digits(first).last() == digit_char(first as int % 10));
        assert(decimal_digits(second).last() == digit_char(second as int % 10));
        lemma_digit_char_injective(first as int % 10, second as int % 10);
        lemma_decimal_digits_injective(first / 10, second / 10);
    } else {
        assert(decimal_digits(first)[0] == digit_char(first as int));
        assert(decimal_digits(second)[0] == digit_char(second as int));
        lemma_digit_char_injective(first as int, second as int);
    }
}

/// Two integers that are written alike are the same integer.
pub proof fn lemma_integer_literal_injective(first: int, second: int)
    requires
        integer_literal(first) == integer_literal(second),
    ensures
        first == second,
{
    let a: nat = if first < 0 { (-first) as nat } else { first as nat };
    let b: nat = if second < 0 { (-second) as nat } else { second as nat };
    lemma_decimal_digits_are_digits(a);
    lemma_decimal_digits_are_digits(b);
    assert(decimal_digits(a)[0] != '-');
    assert(decimal_digits(b)[0] != '-');
    if first < 0 {
        assert(integer_literal(first)[0] == '-');
        assert(second < 0);
        assert(decimal_digits(a) =~= integer_literal(first).skip(1));
        assert(decimal_digits(b) =~= integer_literal(second).skip(1));
    } else {
        assert(integer_literal(first)[0] != '-');
        assert(second >= 0);
    }
    lemma_decimal_digits_injective(a, b);
}

/// An integer is written with digits and a minus sign only.
pub proof fn lemma_integer_literal_is_plain(value: int)
    ensures
        integer_literal(value).len() >= 1,
        forall|i: int|
            0 <= i < integer_literal(value).len() ==> {
                let c = #[trigger] integer_literal(value)[i];
                is_digit(c) || c == '-'
            },
{
    let a: nat = if value < 0 { (-value) as nat } else { value as nat };
    lemma_decimal_digits_are_digits(a);
    if value < 0 {
        assert forall|i: int| 0 <= i < integer_literal(value).len() implies {
            let c = #[trigger] integer_literal(value)[i];
            is_digit(c) || c == '-'
        } by {
            if i > 0 {
                assert(integer_literal(value)[i] == decimal_digits(a)[i - 1]);
            }
        }
    }
}

proof fn lemma_digits_end_bounds(s: Seq<char>, from: int)
    requires
        0 <= from <= s.len(),
    ensures
        from <= digits_end(s, from) <= s.len(),
    decreases s.len() - from,
{
    if from < s.len() && is_digit(s[from]) {
        lemma_digits_end_bounds(s, from + 1);
    }
}

/// A real number is written with a point or an exponent mark, and begins
/// with a digit or a minus sign.
pub proof fn lemma_real_literal_is_marked(text: Seq<char>)
    requires
        is_real_literal(text),
    ensures
        text.len() >= 1,
        is_digit(text[0]) || text[0] == '-',
        exists|i: int|
            0 <= i < text.len() && (#[trigger] text[i] == '.' || text[i] == 'e' || text[i] == 'E'),
{
    let start: int = if 0 < text.len() && text[0] == '-' {
        1
    } else {
        0
    };
    let whole = digits_end(text, start);
    lemma_digits_end_bounds(text, start);
    let point = whole < text.len() && text[whole] == '.';
    if point {
        assert(text[whole] == '.');
    } else {
        let fraction = whole;
        assert(text[fraction] == 'e' || text[fraction] == 'E');
    }
}

/// Whether `value` can be held by a row: its real number, if it is one, is
/// written as one.
pub open spec fn is_storable(value: Datum) -> bool {
    value matches Datum::Real(text) ==> is_real_literal(text)
}

/// Two values that are written alike are the same value, of the same storage
/// class.
pub proof fn lemma_value_literal_injective(first: Datum, second: Datum)
    requires
        is_storable(first),
        is_storable(second),
        value_literal(first) == value_literal(second),
    ensures
        first == second,
{
    reveal_strlit("NULL");
    reveal_strlit("X'");
    let a = value_literal(first);
    let b = value_literal(second);
    assert(a[0] == b[0]);
    match first {
        Datum::Null => {
            assert(a[0] == 'N');
        },
        Datum::Integer(i) => {
            lemma_integer_literal_is_plain(i as int);
            assert(is_digit(a[0]) || a[0] == '-');
        },
        Datum::Real(text) => {
            lemma_real_literal_is_marked(text);
        },
        Datum::Text(text) => {
            assert(a[0] == '\'');
        },
        Datum::Blob(bytes) => {
            assert(a[0] == 'X');
        },
    }
    match second {
        Datum::Null => {
            assert(b[0] == 'N');
        },
        Datum::Integer(i) => {
            lemma_integer_literal_is_plain(i as int);
            assert(is_digit(b[0]) || b[0] == '-');
        },
        Datum::Real(text) => {
            lemma_real_literal_is_marked(text);
        },
        Datum::Text(text) => {
            assert(b[0] == '\'');
        },
        Datum::Blob(bytes) => {
            assert(b[0] == 'X');
        },
    }
    match (first, second) {
        (Datum::Integer(i), Datum::Integer(j)) => {
            lemma_integer_literal_injective(i as int, j as int);
        },
        (Datum::Text(s), Datum::Text(t)) => {
            lemma_text_literal_injective(s, t);
        },
        (Datum::Blob(s), Datum::Blob(t)) => {
            lemma_blob_literal_injective(s, t);
        },
        (Datum::Integer(i), Datum::Real(text)) => {
            let k = choose|k: int|
                0 <= k < text.len() && (#[trigger] text[k] == '.' || text[k] == 'e' || text[k]
                    == 'E');
            assert(integer_literal(i as int)[k] == text[k]);
        },
        (Datum::Real(text), Datum::Integer(i)) => {
            let k = choose|k: int|
                0 <= k < text.len() && (#[trigger] text[k] == '.' || text[k] == 'e' || text[k]
                    == 'E');
            assert(integer_literal(i as int)[k] == text[k]);
        },
        _ => {},
    }
}

} // verus!
