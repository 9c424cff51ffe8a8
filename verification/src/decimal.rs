//! Decimal rendering of machine integers, with the injectivity proof that
//! unique temporary-file naming rests on.

use vstd::prelude::*;

verus! {

/// The decimal digit character for `d`.
pub open spec fn digit_char(d: nat) -> char {
    if d == 0 {
        '0'
    } else if d == 1 {
        '1'
    } else if d == 2 {
        '2'
    } else if d == 3 {
        '3'
    } else if d == 4 {
        '4'
    } else if d == 5 {
        '5'
    } else if d == 6 {
        '6'
    } else if d == 7 {
        '7'
    } else if d == 8 {
        '8'
    } else {
        '9'
    }
}

/// The decimal representation of `n`, most significant digit first,
/// without leading zeros.
pub open spec fn dec_rep(n: nat) -> Seq<char>
    decreases n,
{
    if n < 10 {
        seq![digit_char(n)]
    } else {
        dec_rep(n / 10).push(digit_char(n % 10))
    }
}

pub proof fn lemma_dec_len(n: nat)
    ensures
        dec_rep(n).len() >= 1,
        n >= 10 ==> dec_rep(n).len() >= 2,
    decreases n,
{
    if n >= 10 {
        lemma_dec_len(n / 10);
    }
}

proof fn lemma_digit_inj(a: nat, b: nat)
    requires
        a < 10,
        b < 10,
        digit_char(a) == digit_char(b),
    ensures
        a == b,
{
}

/// Distinct numbers have distinct decimal representations.
pub proof fn lemma_dec_inj(a: nat, b: nat)
    requires
        dec_rep(a) == dec_rep(b),
    ensures
        a == b,
    decreases a,
{
    lemma_dec_len(a);
    lemma_dec_len(b);
    if a < 10 && b < 10 {
        assert(dec_rep(a)[0] == digit_char(a));
        assert(dec_rep(b)[0] == digit_char(b));
        lemma_digit_inj(a, b);
    } else if a < 10 {
        assert(dec_rep(a).len() == 1);
        assert(dec_rep(b).len() >= 2);
    } else if b < 10 {
        assert(dec_rep(b).len() == 1);
        assert(dec_rep(a).len() >= 2);
    } else {
        let sa = dec_rep(a / 10);
        let sb = dec_rep(b / 10);
        assert(dec_rep(a).last() == digit_char(a % 10));
        assert(dec_rep(b).last() == digit_char(b % 10));
        lemma_digit_inj(a % 10, b % 10);
        assert(sa.push(digit_char(a % 10)).drop_last() =~= sa);
        assert(sb.push(digit_char(b % 10)).drop_last() =~= sb);
        assert(sa == sb);
        lemma_dec_inj(a / 10, b / 10);
    }
}

fn digit_of(d: u64) -> (r: char)
    requires
        d < 10,
    ensures
        r == digit_char(d as nat),
{
    if d == 0 {
        '0'
    } else if d == 1 {
        '1'
    } else if d == 2 {
        '2'
    } else if d == 3 {
        '3'
    } else if d == 4 {
        '4'
    } else if d == 5 {
        '5'
    } else if d == 6 {
        '6'
    } else if d == 7 {
        '7'
    } else if d == 8 {
        '8'
    } else {
        '9'
    }
}

/// The decimal digits of `n`, most significant first.
pub fn u64_dec_chars(n: u64) -> (r: Vec<char>)
    ensures
        r@ == dec_rep(n as nat),
{
    if n == 0 {
        let mut r: Vec<char> = Vec::new();
        r.push('0');
        proof {
            assert(r@ =~= seq![digit_char(0)]);
        }
        return r;
    }
    let mut digits: Vec<char> = Vec::new();
    let mut m: u64 = n;
    while m > 0
        invariant
            m > 0 ==> dec_rep(n as nat) == dec_rep(m as nat) + digits@.reverse(),
            m == 0 ==> dec_rep(n as nat) == digits@.reverse(),
        decreases m,
    {
        let d: u64 = m % 10;
        let c = digit_of(d);
        proof {
            assert((digits@.push(c)).reverse() =~= seq![c] + digits@.reverse());
            if m < 10 {
                assert(dec_rep(m as nat) == seq![digit_char(m as nat)]);
                assert(digit_char(m as nat) == c);
                assert(dec_rep(n as nat) =~= (digits@.push(c)).reverse());
            } else {
                assert(dec_rep(m as nat) == dec_rep((m as nat) / 10).push(c));
                assert(dec_rep((m as nat) / 10).push(c) =~= dec_rep((m as nat) / 10) + seq![c]);
                assert((dec_rep((m as nat) / 10) + seq![c]) + digits@.reverse() =~= dec_rep(
                    (m as nat) / 10,
                ) + (seq![c] + digits@.reverse()));
                assert((m / 10) as nat == (m as nat) / 10);
            }
        }
        digits.push(c);
        m = m / 10;
    }
    let mut r: Vec<char> = Vec::new();
    let mut j: usize = digits.len();
    while j > 0
        invariant
            j <= digits.len(),
            r@.len() == digits@.len() - j,
            forall|k: int| 0 <= k < r@.len() ==> r@[k] == digits@[digits@.len() - 1 - k],
        decreases j,
    {
        j = j - 1;
        r.push(digits[j]);
    }
    proof {
        assert(r@ =~= digits@.reverse());
    }
    r
}

} // verus!
