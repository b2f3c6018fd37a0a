//! The values that a database row holds.

use vstd::prelude::*;
use vstd::std_specs::iter::IteratorSpec;

verus! {

/// Whether `c` is a decimal digit.
pub open spec fn is_digit(c: char) -> bool {
    '0' <= c && c <= '9'
}

/// The end of the run of decimal digits of `s` that starts at `from`.
pub open spec fn digits_end(s: Seq<char>, from: int) -> int
    decreases s.len() - from,
{
    if 0 <= from < s.len() && is_digit(s[from]) {
        digits_end(s, from + 1)
    } else {
        from
    }
}

/// Whether `s` is a real number as SQL reads one, and as nothing else: an
/// optional minus sign, digits, then a point with digits after it, or an
/// exponent (`e` or `E`, an optional sign, digits), or both. The point or the
/// exponent keeps the literal from being read as an integer.
pub open spec fn is_real_literal(s: Seq<char>) -> bool {
    let start: int = if 0 < s.len() && s[0] == '-' {
        1
    } else {
        0
    };
    let whole = digits_end(s, start);
    let point = whole < s.len() && s[whole] == '.';
    let fraction = if point {
        digits_end(s, whole + 1)
    } else {
        whole
    };
    let mark = fraction < s.len() && (s[fraction] == 'e' || s[fraction] == 'E');
    let exponent: int = if mark && fraction + 1 < s.len() && (s[fraction + 1] == '-' || s[fraction
        + 1] == '+') {
        fraction + 2
    } else {
        fraction + 1
    };
    let end = if mark {
        digits_end(s, exponent)
    } else {
        fraction
    };
    &&& start < whole
    &&& point ==> whole + 1 < fraction
    &&& mark ==> exponent < end
    &&& point || mark
    &&& end == s.len()
}

fn chars_of(text: &str) -> (chars: Vec<char>)
    ensures
        chars@ == text@,
{
    broadcast use vstd::string::group_string_axioms;

    let mut chars: Vec<char> = Vec::new();
    let mut rest = text.chars();
    loop
        invariant
            chars@ + rest.remaining() == text@,
            rest.decrease() is Some,
        ensures
            chars@ == text@,
        decreases rest.decrease()->0,
    {
        let ghost before = rest.remaining();
        let ghost seen = chars@;
        match rest.next() {
            Some(c) => {
                chars.push(c);
                assert(seen.push(c) + before.drop_first() =~= seen + before);
            },
            None => {
                assert(chars@ =~= text@);
                break ;
            },
        }
    }
    chars
}

fn scan_digits(s: &Vec<char>, from: usize) -> (end: usize)
    requires
        from <= s.len(),
    ensures
        end == digits_end(s@, from as int),
        from <= end <= s.len(),
{
    let mut i = from;
    while i < s.len() && s[i] >= '0' && s[i] <= '9'
        invariant
            from <= i <= s.len(),
            digits_end(s@, from as int) == digits_end(s@, i as int),
        decreases s.len() - i,
    {
        i += 1;
    }
    i
}

fn check_real_literal(s: &Vec<char>) -> (valid: bool)
    ensures
        valid == is_real_literal(s@),
{
    let n = s.len();
    let start: usize = if 0 < n && s[0] == '-' {
        1
    } else {
        0
    };
    let whole = scan_digits(s, start);
    let point = whole < n && s[whole] == '.';
    let fraction = if point {
        scan_digits(s, whole + 1)
    } else {
        whole
    };
    let mark = fraction < n && (s[fraction] == 'e' || s[fraction] == 'E');
    if !mark {
        return start < whole && (!point || whole + 1 < fraction) && point && fraction == n;
    }
    let exponent: usize = if fraction + 1 < n && (s[fraction + 1] == '-' || s[fraction + 1]
        == '+') {
        fraction + 2
    } else {
        fraction + 1
    };
    let end = scan_digits(s, exponent);
    start < whole && (!point || whole + 1 < fraction) && exponent < end && end == n
}

/// The text of a real number, checked to be one.
#[derive(Debug, PartialEq, Eq)]
pub struct RealText {
    text: String,
}

impl View for RealText {
    type V = Seq<char>;

    closed spec fn view(&self) -> Seq<char> {
        self.text@
    }
}

impl RealText {
    #[verifier::type_invariant]
    spec fn is_a_real(self) -> bool {
        is_real_literal(self.text@)
    }

    /// Takes `text` as a real number if it is written as one.
    pub fn parse(text: &str) -> (parsed: Option<RealText>)
        ensures
            parsed is Some <==> is_real_literal(text@),
            parsed matches Some(number) ==> number@ == text@,
    {
        let chars = chars_of(text);
        if check_real_literal(&chars) {
            Some(RealText { text: String::from_str(text) })
        } else {
            None
        }
    }

    /// The text of the number.
    pub fn as_str(&self) -> (text: &str)
        ensures
            text@ == self@,
            is_real_literal(self@),
    {
        proof {
            use_type_invariant(self);
        }
        self.text.as_str()
    }
}

/// The mathematical value of an [`SqlValue`].
pub enum Datum {
    Null,
    Integer(i64),
    Real(Seq<char>),
    Text(Seq<char>),
    Blob(Seq<u8>),
}

/// One value of a database row, by its storage class.
#[derive(Debug, PartialEq, Eq)]
pub enum SqlValue {
    Null,
    Integer(i64),
    /// A real number, held as the text that SQL reads it from.
    Real(RealText),
    Text(String),
    Blob(Vec<u8>),
}

impl View for SqlValue {
    type V = Datum;

    open spec fn view(&self) -> Datum {
        match self {
            SqlValue::Null => Datum::Null,
            SqlValue::Integer(i) => Datum::Integer(*i),
            SqlValue::Real(r) => Datum::Real(r@),
            SqlValue::Text(t) => Datum::Text(t@),
            SqlValue::Blob(b) => Datum::Blob(b@),
        }
    }
}

/// The values of a row.
pub open spec fn row_view(row: Seq<SqlValue>) -> Seq<Datum> {
    row.map_values(|value: SqlValue| value@)
}

/// The rows of a table.
pub open spec fn rows_view(rows: Seq<Vec<SqlValue>>) -> Seq<Seq<Datum>> {
    rows.map_values(|row: Vec<SqlValue>| row_view(row@))
}

} // verus!
