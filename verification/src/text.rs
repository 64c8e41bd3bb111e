//! Text helpers: comparing strings by content and writing integers in decimal.

use vstd::prelude::*;
use vstd::string::StringExecFns;

verus! {

/// True when two strings hold the same characters.
pub fn same_text(a: &str, b: &str) -> (r: bool)
    ensures
        r == (a@ == b@),
{
    let x: String = a.to_owned();
    let y: String = b.to_owned();
    x == y
}

/// The character of a decimal digit.
pub open spec fn digit_char(d: int) -> char {
    if d == 0 { '0' }
    else if d == 1 { '1' }
    else if d == 2 { '2' }
    else if d == 3 { '3' }
    else if d == 4 { '4' }
    else if d == 5 { '5' }
    else if d == 6 { '6' }
    else if d == 7 { '7' }
    else if d == 8 { '8' }
    else { '9' }
}

/// The decimal writing of a natural number, most significant digit first,
/// with no leading zeros (zero is written "0").
pub open spec fn decimal(n: nat) -> Seq<char>
    decreases n,
{
    if n < 10 {
        seq![digit_char(n as int)]
    } else {
        decimal(n / 10).push(digit_char((n % 10) as int))
    }
}

/// The decimal writing of an integer, with a leading '-' when negative.
pub open spec fn signed_decimal(n: int) -> Seq<char> {
    if n < 0 {
        seq!['-'] + decimal((-n) as nat)
    } else {
        decimal(n as nat)
    }
}

/// A decimal digit character.
pub open spec fn is_digit(c: char) -> bool {
    c == '0' || c == '1' || c == '2' || c == '3' || c == '4' || c == '5' || c == '6' || c == '7'
        || c == '8' || c == '9'
}

/// A decimal writing is a non-empty run of digits, of two or more from ten on.
pub proof fn decimal_is_digits(n: nat)
    ensures
        decimal(n).len() >= 1,
        n >= 10 ==> decimal(n).len() >= 2,
        forall|i: int| 0 <= i < decimal(n).len() ==> is_digit(#[trigger] decimal(n)[i]),
    decreases n,
{
    if n >= 10 {
        decimal_is_digits(n / 10);
    }
}

/// Different numbers are written differently: a decimal writing reads back
/// to a single number.
pub proof fn decimal_reads_back(a: nat, b: nat)
    requires
        decimal(a) == decimal(b),
    ensures
        a == b,
    decreases a,
{
    decimal_is_digits(a);
    decimal_is_digits(b);
    if a >= 10 && b >= 10 {
        let da = decimal(a);
        assert(da.last() == digit_char((a % 10) as int));
        assert(decimal(b).last() == digit_char((b % 10) as int));
        assert(da.drop_last() =~= decimal(a / 10));
        assert(decimal(b).drop_last() =~= decimal(b / 10));
        decimal_reads_back(a / 10, b / 10);
    } else if a < 10 && b < 10 {
        assert(decimal(a)[0] == digit_char(a as int));
        assert(decimal(b)[0] == digit_char(b as int));
    }
}

/// Splitting a text into a run of digits and a rest that starts with a
/// non-digit is unique.
pub proof fn digits_then_rest_split(p1: Seq<char>, q1: Seq<char>, p2: Seq<char>, q2: Seq<char>)
    requires
        forall|i: int| 0 <= i < p1.len() ==> is_digit(#[trigger] p1[i]),
        forall|i: int| 0 <= i < p2.len() ==> is_digit(#[trigger] p2[i]),
        q1.len() > 0 && !is_digit(q1[0]),
        q2.len() > 0 && !is_digit(q2[0]),
        p1 + q1 == p2 + q2,
    ensures
        p1 == p2,
        q1 == q2,
{
    let t = p1 + q1;
    if p1.len() < p2.len() {
        assert(t[p1.len() as int] == q1[0]);
        assert((p2 + q2)[p1.len() as int] == p2[p1.len() as int]);
    } else if p2.len() < p1.len() {
        assert((p2 + q2)[p2.len() as int] == q2[0]);
        assert(t[p2.len() as int] == p1[p2.len() as int]);
    }
    assert(p1 =~= t.subrange(0, p1.len() as int));
    assert(p2 =~= (p2 + q2).subrange(0, p2.len() as int));
    assert(q1 =~= t.subrange(p1.len() as int, t.len() as int));
    assert(q2 =~= (p2 + q2).subrange(p2.len() as int, t.len() as int));
}

/// The number a run of decimal digits stands for, most significant first.
pub open spec fn digit_value(c: char) -> int {
    if c == '1' { 1 }
    else if c == '2' { 2 }
    else if c == '3' { 3 }
    else if c == '4' { 4 }
    else if c == '5' { 5 }
    else if c == '6' { 6 }
    else if c == '7' { 7 }
    else if c == '8' { 8 }
    else if c == '9' { 9 }
    else { 0 }
}

/// The value of a run of digits read left to right in base ten.
pub open spec fn digits_value(s: Seq<char>) -> int
    decreases s.len(),
{
    if s.len() == 0 {
        0
    } else {
        digits_value(s.drop_last()) * 10 + digit_value(s.last())
    }
}

/// The decimal writing of `n` reads, digit by digit in base ten, as `n`,
/// and it starts with a zero only when it is "0".
pub proof fn decimal_reads_as_value(n: nat)
    ensures
        digits_value(decimal(n)) == n,
        decimal(n)[0] == '0' ==> n == 0,
    decreases n,
{
    let d = (n % 10) as int;
    assert(digit_value(digit_char(d)) == d);
    if n >= 10 {
        decimal_reads_as_value(n / 10);
        decimal_is_digits(n / 10);
        assert(decimal(n).drop_last() =~= decimal(n / 10));
        assert(decimal(n).last() == digit_char(d));
        assert(decimal(n)[0] == decimal(n / 10)[0]);
    } else {
        assert(decimal(n).drop_last() =~= Seq::<char>::empty());
        assert(digits_value(Seq::<char>::empty()) == 0);
        assert(decimal(n).last() == digit_char(d));
    }
}

/// A signed decimal writing reads back to a single integer.
pub proof fn signed_decimal_reads_back(a: int, b: int)
    requires
        signed_decimal(a) == signed_decimal(b),
    ensures
        a == b,
{
    let na: nat = if a < 0 { (-a) as nat } else { a as nat };
    let nb: nat = if b < 0 { (-b) as nat } else { b as nat };
    decimal_is_digits(na);
    decimal_is_digits(nb);
    let sa = signed_decimal(a);
    if a < 0 {
        assert(sa[0] == '-');
    } else {
        assert(sa[0] == decimal(na)[0]);
    }
    if b < 0 {
        assert(signed_decimal(b)[0] == '-');
    } else {
        assert(signed_decimal(b)[0] == decimal(nb)[0]);
    }
    if a < 0 && b < 0 {
        assert(sa.drop_first() =~= decimal(na));
        assert(signed_decimal(b).drop_first() =~= decimal(nb));
        decimal_reads_back(na, nb);
    } else if a >= 0 && b >= 0 {
        decimal_reads_back(na, nb);
    }
}

/// A negative number is written as '-' followed by the writing of its
/// magnitude; any other number is written with digits only.
pub proof fn signed_decimal_form(n: int)
    ensures
        n < 0 ==> signed_decimal(n)[0] == '-' && signed_decimal(n).drop_first() == decimal((-n) as nat),
        n >= 0 ==> signed_decimal(n) == decimal(n as nat),
{
    if n < 0 {
        assert(signed_decimal(n).drop_first() =~= decimal((-n) as nat));
    }
}

fn digit_str(d: u64) -> (s: &'static str)
    requires
        d < 10,
    ensures
        s@ == seq![digit_char(d as int)],
{
    if d == 0 {
        proof { reveal_strlit("0"); }
        "0"
    } else if d == 1 {
        proof { reveal_strlit("1"); }
        "1"
    } else if d == 2 {
        proof { reveal_strlit("2"); }
        "2"
    } else if d == 3 {
        proof { reveal_strlit("3"); }
        "3"
    } else if d == 4 {
        proof { reveal_strlit("4"); }
        "4"
    } else if d == 5 {
        proof { reveal_strlit("5"); }
        "5"
    } else if d == 6 {
        proof { reveal_strlit("6"); }
        "6"
    } else if d == 7 {
        proof { reveal_strlit("7"); }
        "7"
    } else if d == 8 {
        proof { reveal_strlit("8"); }
        "8"
    } else {
        proof { reveal_strlit("9"); }
        "9"
    }
}

/// Appends the decimal writing of `n` to `out`.
pub fn push_decimal(out: &mut String, n: u64)
    ensures
        final(out)@ == old(out)@ + decimal(n as nat),
    decreases n,
{
    if n >= 10 {
        push_decimal(out, n / 10);
    }
    out.append(digit_str(n % 10));
}

/// Appends the decimal writing of `n`, with a '-' in front when negative.
pub fn push_signed_decimal(out: &mut String, n: i64)
    ensures
        final(out)@ == old(out)@ + signed_decimal(n as int),
{
    if n < 0 {
        proof { reveal_strlit("-"); }
        out.append("-");
        let magnitude: u64 = (-(n + 1)) as u64 + 1;
        push_decimal(out, magnitude);
    } else {
        push_decimal(out, n as u64);
    }
}

} // verus!
