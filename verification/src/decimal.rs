//! Integers written in decimal.
use vstd::prelude::*;

verus! {

/// The digit character for `d`.
pub open spec fn digit_char(d: nat) -> char {
    if d == 0 { '0' } else if d == 1 { '1' } else if d == 2 { '2' } else if d == 3 { '3' }
    else if d == 4 { '4' } else if d == 5 { '5' } else if d == 6 { '6' } else if d == 7 { '7' }
    else if d == 8 { '8' } else { '9' }
}

/// `n` in decimal, without leading zeros.
pub open spec fn spec_decimal_nat(n: nat) -> Seq<char>
    decreases n,
{
    if n < 10 {
        seq![digit_char(n)]
    } else {
        spec_decimal_nat(n / 10).push(digit_char(n % 10))
    }
}

/// `i` in decimal, with a `-` in front when it is negative.
pub open spec fn spec_decimal(i: int) -> Seq<char> {
    if i < 0 {
        seq!['-'] + spec_decimal_nat((-i) as nat)
    } else {
        spec_decimal_nat(i as nat)
    }
}

/// The digit character for `d`.
fn digit(d: u64) -> (c: char)
    requires
        d < 10,
    ensures
        c == digit_char(d as nat),
{
    if d == 0 { '0' } else if d == 1 { '1' } else if d == 2 { '2' } else if d == 3 { '3' }
    else if d == 4 { '4' } else if d == 5 { '5' } else if d == 6 { '6' } else if d == 7 { '7' }
    else if d == 8 { '8' } else { '9' }
}

/// The decimal digits of `n`.
pub fn decimal_u64(n: u64) -> (r: Vec<char>)
    ensures
        r@ == spec_decimal_nat(n as nat),
{
    let mut m = n;
    let mut rev: Vec<char> = Vec::new();
    while m >= 10
        invariant
            spec_decimal_nat(n as nat) == spec_decimal_nat(m as nat) + rev@.reverse(),
        decreases m,
    {
        let d = m % 10;
        let c = digit(d);
        let ghost old_rev = rev@;
        rev.push(c);
        assert(rev@.reverse() =~= seq![c] + old_rev.reverse());
        assert(spec_decimal_nat(m as nat) == spec_decimal_nat((m / 10) as nat).push(c));
        assert(spec_decimal_nat((m / 10) as nat).push(c) + old_rev.reverse() =~= spec_decimal_nat(
            (m / 10) as nat,
        ) + rev@.reverse());
        m = m / 10;
    }
    let last = digit(m);
    let mut out: Vec<char> = Vec::new();
    out.push(last);
    let mut k = rev.len();
    while k > 0
        invariant
            k <= rev.len(),
            out@ == seq![last] + rev@.reverse().take(rev.len() - k),
        decreases k,
    {
        k = k - 1;
        out.push(rev[k]);
        assert(rev@.reverse().take(rev.len() - k) =~= rev@.reverse().take(rev.len() - (k + 1)).push(
            rev@[k as int],
        ));
    }
    assert(rev@.reverse().take(rev.len() as int) =~= rev@.reverse());
    out
}

/// `i` in decimal.
pub fn decimal_i64(i: i64) -> (r: String)
    ensures
        r@ == spec_decimal(i as int),
{
    if i < 0 {
        let mag: u64 = if i == i64::MIN {
            9223372036854775808u64
        } else {
            (-i) as u64
        };
        let digits = decimal_u64(mag);
        let mut out: Vec<char> = Vec::new();
        out.push('-');
        crate::text::extend_chars(&mut out, digits.as_slice());
        crate::text::string_of(out.as_slice())
    } else {
        let digits = decimal_u64(i as u64);
        crate::text::string_of(digits.as_slice())
    }
}

} // verus!
