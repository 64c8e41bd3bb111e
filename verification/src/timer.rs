//! The elapsed-time label shown beside the status text.

use vstd::prelude::*;
use vstd::string::StringExecFns;

use crate::text::{
    decimal, decimal_is_digits, decimal_reads_back, digits_then_rest_split, is_digit, push_decimal,
    push_signed_decimal, signed_decimal, signed_decimal_reads_back,
};

verus! {

/// What the timer reads after `secs` seconds: from one minute on it is
/// "<minutes>m <seconds>s"; below that it is "<seconds>s".
pub open spec fn elapsed_text(secs: int) -> Seq<char> {
    if secs >= 60 {
        decimal((secs / 60) as nat) + seq!['m', ' '] + decimal((secs % 60) as nat) + seq!['s']
    } else {
        signed_decimal(secs) + seq!['s']
    }
}

/// Formats an elapsed time in seconds, as in "1m 23s" or "45s".
pub fn elapsed(secs: i64) -> (s: String)
    ensures
        s@ == elapsed_text(secs as int),
{
    let mut out = String::new();
    if secs >= 60 {
        push_decimal(&mut out, (secs / 60) as u64);
        proof { reveal_strlit("m "); }
        out.append("m ");
        push_decimal(&mut out, (secs % 60) as u64);
    } else {
        push_signed_decimal(&mut out, secs);
    }
    proof { reveal_strlit("s"); }
    out.append("s");
    out
}

/// From one minute on the timer reads "<m>m <s>s" with whole minutes
/// m ≥ 1 and seconds 0 ≤ s < 60 that add back up: m·60 + s = secs.
pub proof fn elapsed_splits(secs: int)
    requires
        secs >= 60,
    ensures
        ({
            let m = secs / 60;
            let s = secs % 60;
            &&& m >= 1
            &&& 0 <= s < 60
            &&& m * 60 + s == secs
            &&& elapsed_text(secs) == decimal(m as nat) + seq!['m', ' '] + decimal(s as nat) + seq!['s']
        }),
{
}

/// Below one minute the timer reads "<secs>s", written as a signed decimal.
pub proof fn elapsed_below_minute(secs: int)
    requires
        secs < 60,
    ensures
        elapsed_text(secs) == signed_decimal(secs) + seq!['s'],
{
}

proof fn lemma_minutes_form(secs: int)
    requires
        secs >= 60,
    ensures
        elapsed_text(secs) == decimal((secs / 60) as nat) + (seq!['m', ' '] + decimal((secs % 60) as nat)
            + seq!['s']),
        (seq!['m', ' '] + decimal((secs % 60) as nat) + seq!['s'])[0] == 'm',
        elapsed_text(secs)[decimal((secs / 60) as nat).len() as int] == 'm',
{
    let d = decimal((secs / 60) as nat);
    let q = seq!['m', ' '] + decimal((secs % 60) as nat) + seq!['s'];
    assert(elapsed_text(secs) =~= d + q);
    assert((d + q)[d.len() as int] == q[0]);
}

proof fn lemma_seconds_form_has_no_m(secs: int)
    requires
        secs < 60,
    ensures
        forall|i: int| 0 <= i < elapsed_text(secs).len() ==> #[trigger] elapsed_text(secs)[i] != 'm',
{
    let n: nat = if secs < 0 { (-secs) as nat } else { secs as nat };
    decimal_is_digits(n);
    let t = elapsed_text(secs);
    assert forall|i: int| 0 <= i < t.len() implies #[trigger] t[i] != 'm' by {
        let sd = signed_decimal(secs);
        if i < sd.len() {
            assert(t[i] == sd[i]);
            if secs < 0 {
                if i > 0 {
                    assert(sd[i] == decimal(n)[i - 1]);
                    assert(is_digit(decimal(n)[i - 1]));
                }
            } else {
                assert(is_digit(decimal(n)[i]));
            }
        } else {
            assert(t[i] == 's');
        }
    }
}

/// The timer text reads back to the seconds: different elapsed times are
/// never shown the same.
pub proof fn elapsed_reads_back(a: int, b: int)
    requires
        elapsed_text(a) == elapsed_text(b),
    ensures
        a == b,
{
    if a >= 60 && b >= 60 {
        lemma_minutes_form(a);
        lemma_minutes_form(b);
        let pa = decimal((a / 60) as nat);
        let pb = decimal((b / 60) as nat);
        let qa = seq!['m', ' '] + decimal((a % 60) as nat) + seq!['s'];
        let qb = seq!['m', ' '] + decimal((b % 60) as nat) + seq!['s'];
        decimal_is_digits((a / 60) as nat);
        decimal_is_digits((b / 60) as nat);
        digits_then_rest_split(pa, qa, pb, qb);
        decimal_reads_back((a / 60) as nat, (b / 60) as nat);
        assert(qa.subrange(2, qa.len() - 1) =~= decimal((a % 60) as nat));
        assert(qb.subrange(2, qb.len() - 1) =~= decimal((b % 60) as nat));
        decimal_reads_back((a % 60) as nat, (b % 60) as nat);
    } else if a < 60 && b < 60 {
        assert(elapsed_text(a).drop_last() =~= signed_decimal(a));
        assert(elapsed_text(b).drop_last() =~= signed_decimal(b));
        signed_decimal_reads_back(a, b);
    } else if a >= 60 {
        lemma_minutes_form(a);
        lemma_seconds_form_has_no_m(b);
        decimal_is_digits((a / 60) as nat);
        assert(elapsed_text(b)[decimal((a / 60) as nat).len() as int] != 'm');
    } else {
        lemma_minutes_form(b);
        lemma_seconds_form_has_no_m(a);
        decimal_is_digits((b / 60) as nat);
        assert(elapsed_text(a)[decimal((b / 60) as nat).len() as int] != 'm');
    }
}

} // verus!
