use vstd::prelude::*;
use vstd::string::StringExecFns;

verus! {

/// The pattern occurs in `s` starting at position `i`.
pub open spec fn match_at(s: Seq<char>, pat: Seq<char>, i: int) -> bool {
    0 <= i && i + pat.len() <= s.len() && s.subrange(i, i + pat.len()) == pat
}

/// The pattern occurs somewhere in `s`.
pub open spec fn contains_pat(s: Seq<char>, pat: Seq<char>) -> bool {
    exists|i: int| match_at(s, pat, i)
}

/// Every non-overlapping occurrence of `pat`, scanned left to right, replaced
/// by `val`; how str::replace rewrites a string.
pub open spec fn spec_replace(s: Seq<char>, pat: Seq<char>, val: Seq<char>) -> Seq<char>
    decreases s.len(),
    when pat.len() > 0
{
    if s.len() < pat.len() {
        s
    } else if s.subrange(0, pat.len() as int) == pat {
        val + spec_replace(s.skip(pat.len() as int), pat, val)
    } else {
        seq![s[0]] + spec_replace(s.skip(1), pat, val)
    }
}

/// Relies on str::contains: true exactly when the pattern occurs as a
/// substring of the text.
#[verifier::external_body]
pub(crate) fn str_contains(text: &str, pat: &str) -> (r: bool)
    ensures
        r == contains_pat(text@, pat@),
{
    text.contains(pat)
}

/// Relies on str::replace: rewrites every non-overlapping occurrence of the
/// pattern, scanned left to right, to the given value.
#[verifier::external_body]
pub(crate) fn str_replace(text: &str, pat: &str, val: &str) -> (r: String)
    requires
        pat@.len() > 0,
    ensures
        r@ == spec_replace(text@, pat@, val@),
{
    text.replace(pat, val)
}

/// The decimal digit character for one digit value.
pub open spec fn dec_digit(d: int) -> char {
    if d == 0 {
        '0'
    } else if d == 1 {
        '1'
    } else if d == 2 {
        '2'
    } else if d == 3 {
        '3'
    } else if d == 4 {
        '4'
    } else if d == 5 {
        '5'
    } else if d == 6 {
        '6'
    } else if d == 7 {
        '7'
    } else if d == 8 {
        '8'
    } else {
        '9'
    }
}

/// Decimal rendering of a non-negative integer, most significant digit first.
pub open spec fn spec_decimal(n: int) -> Seq<char>
    decreases n,
    when n >= 0
{
    if n < 10 {
        seq![dec_digit(n)]
    } else {
        spec_decimal(n / 10) + seq![dec_digit(n % 10)]
    }
}

fn digit_str(d: usize) -> (r: &'static str)
    requires
        d < 10,
    ensures
        r@ == seq![dec_digit(d as int)],
{
    proof {
        reveal_strlit("0");
        reveal_strlit("1");
        reveal_strlit("2");
        reveal_strlit("3");
        reveal_strlit("4");
        reveal_strlit("5");
        reveal_strlit("6");
        reveal_strlit("7");
        reveal_strlit("8");
        reveal_strlit("9");
    }
    let r = match d {
        0 => "0",
        1 => "1",
        2 => "2",
        3 => "3",
        4 => "4",
        5 => "5",
        6 => "6",
        7 => "7",
        8 => "8",
        _ => "9",
    };
    proof {
        assert(r@ =~= seq![dec_digit(d as int)]);
    }
    r
}

/// Renders a number in decimal, as diagnostic event text shows it.
pub fn usize_to_decimal(n: usize) -> (r: String)
    ensures
        r@ == spec_decimal(n as int),
    decreases n,
{
    if n < 10 {
        String::from_str(digit_str(n))
    } else {
        let mut s = usize_to_decimal(n / 10);
        s.append(digit_str(n % 10));
        s
    }
}

} // verus!
