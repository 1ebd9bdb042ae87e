//! The local time stamp of new items: the clock reading behind a trusted
//! wrapper, and the shape of the text it is written as.

use vstd::prelude::*;
use vstd::utf8::is_ascii_chars;
use crate::record::split_chars;

verus! {

/// Every character of `s` is a decimal digit.
pub open spec fn is_digits(s: Seq<char>) -> bool {
    forall|i: int| 0 <= i < s.len() ==> '0' <= #[trigger] s[i] <= '9'
}

/// `c` is `+` or `-`.
pub open spec fn is_sign(c: char) -> bool {
    c == '+' || c == '-'
}

/// A year: four digits, or a sign followed by four digits or more.
pub open spec fn is_year_text(y: Seq<char>) -> bool {
    (y.len() == 4 && is_digits(y)) || (y.len() >= 5 && is_sign(y[0]) && is_digits(y.drop_first()))
}

/// A date `YEAR-MM-DD`.
pub open spec fn is_date_text(d: Seq<char>) -> bool {
    let n = d.len() as int;
    &&& n >= 10
    &&& is_year_text(d.take(n - 6))
    &&& d[n - 6] == '-'
    &&& is_digits(d.subrange(n - 5, n - 3))
    &&& d[n - 3] == '-'
    &&& is_digits(d.subrange(n - 2, n))
}

/// A time of day `HH:MM:SS`, with no fraction or a fraction of three, six or
/// nine digits after a `.`.
pub open spec fn is_clock_text(t: Seq<char>) -> bool {
    let frac = t.skip(8);
    &&& t.len() >= 8
    &&& is_digits(t.subrange(0, 2))
    &&& t[2] == ':'
    &&& is_digits(t.subrange(3, 5))
    &&& t[5] == ':'
    &&& is_digits(t.subrange(6, 8))
    &&& (frac.len() == 0 || (frac[0] == '.' && (frac.len() == 4 || frac.len() == 7
        || frac.len() == 10) && is_digits(frac.drop_first())))
}

/// A UTC offset `+HH:MM` or `-HH:MM`, with `:SS` after it when the offset
/// has seconds.
pub open spec fn is_offset_text(o: Seq<char>) -> bool {
    &&& o.len() == 6 || o.len() == 9
    &&& is_sign(o[0])
    &&& is_digits(o.subrange(1, 3))
    &&& o[3] == ':'
    &&& is_digits(o.subrange(4, 6))
    &&& (o.len() == 9 ==> o[6] == ':' && is_digits(o.subrange(7, 9)))
}

/// A local time as chrono writes it: date, time of day and UTC offset,
/// separated by single spaces.
pub open spec fn is_local_time_text(s: Seq<char>) -> bool {
    let parts = split_chars(s, ' ');
    &&& parts.len() == 3
    &&& is_date_text(parts[0])
    &&& is_clock_text(parts[1])
    &&& is_offset_text(parts[2])
}

/// `chrono::Local::now().to_string()`: the current local time with its UTC
/// offset. Every outcome is written as `YEAR-MM-DD HH:MM:SS[.fraction] +HH:MM`
/// (the year with a sign outside 0..=9999, the offset with seconds when it has
/// any), so it is ASCII text; which time it is, the contract leaves open.
#[verifier::external_body]
pub(crate) fn local_time_now() -> (res: String)
    ensures
        is_local_time_text(res@),
        is_ascii_chars(res@),
{
    chrono::Local::now().to_string()
}

} // verus!
