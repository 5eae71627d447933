//! Verified decimal rendering of integers, and character padding, as the log
//! line formatter needs them.

use vstd::prelude::*;
use vstd::string::*;

verus! {

/// The decimal digit character for a digit value.
pub open spec fn spec_digit(d: nat) -> char {
    if d == 0 {
        '0'
    } else if d == 1 {
        '1'
    } else if d == 2 {
        '2'
    } else if d == 3 {
        '3'
    } else if d == 4 {
        '4'
    } else if d == 5 {
        '5'
    } else if d == 6 {
        '6'
    } else if d == 7 {
        '7'
    } else if d == 8 {
        '8'
    } else {
        '9'
    }
}

/// Decimal rendering of `n`: most significant digit first, no leading zeros.
pub open spec fn spec_udec(n: nat) -> Seq<char>
    decreases n,
{
    if n < 10 {
        seq![spec_digit(n)]
    } else {
        spec_udec(n / 10).push(spec_digit(n % 10))
    }
}

/// Decimal rendering of a signed value: a minus sign before the magnitude of
/// a negative value, the plain magnitude otherwise.
pub open spec fn spec_sdec(v: int) -> Seq<char> {
    if v < 0 {
        seq!['-'] + spec_udec((-v) as nat)
    } else {
        spec_udec(v as nat)
    }
}

/// `k` copies of the character `c`.
pub open spec fn spec_repeat(c: char, k: nat) -> Seq<char>
    decreases k,
{
    if k == 0 {
        Seq::empty()
    } else {
        spec_repeat(c, (k - 1) as nat).push(c)
    }
}

/// The `k`-th power of ten.
pub open spec fn spec_pow10(k: nat) -> nat
    decreases k,
{
    if k == 0 {
        1
    } else {
        10 * spec_pow10((k - 1) as nat)
    }
}

/// A value below `10^k` renders to at least one and at most `k` digits.
pub proof fn lemma_udec_len_le(n: nat, k: nat)
    requires
        1 <= k,
        n < spec_pow10(k),
    ensures
        1 <= spec_udec(n).len() <= k,
    decreases k,
{
    if n < 10 {
    } else {
        assert(spec_pow10(0) == 1);
        assert(spec_pow10(1) == 10);
        if k == 1 {
            assert(n < 10);
        } else {
            assert(n < 10 * spec_pow10((k - 1) as nat));
            assert(n / 10 < spec_pow10((k - 1) as nat)) by (nonlinear_arith)
                requires
                    n < 10 * spec_pow10((k - 1) as nat),
            ;
            lemma_udec_len_le(n / 10, (k - 1) as nat);
        }
    }
}

/// The one-character string for the digit value `d`.
pub fn digit_str(d: u64) -> (r: &'static str)
    requires
        d < 10,
    ensures
        r@ == seq![spec_digit(d as nat)],
{
    let r: &'static str = if d == 0 {
        "0"
    } else if d == 1 {
        "1"
    } else if d == 2 {
        "2"
    } else if d == 3 {
        "3"
    } else if d == 4 {
        "4"
    } else if d == 5 {
        "5"
    } else if d == 6 {
        "6"
    } else if d == 7 {
        "7"
    } else if d == 8 {
        "8"
    } else {
        "9"
    };
    proof {
        reveal_strlit("0");
        reveal_strlit("1");
        reveal_strlit("2");
        reveal_strlit("3");
        reveal_strlit("4");
        reveal_strlit("5");
        reveal_strlit("6");
        reveal_strlit("7");
        reveal_strlit("8");
        reveal_strlit("9");
        assert(r@ =~= seq![spec_digit(d as nat)]);
    }
    r
}

/// Decimal rendering of `n`, exactly as `spec_udec` states it.
pub fn u64_to_string(n: u64) -> (s: String)
    ensures
        s@ == spec_udec(n as nat),
    decreases n,
{
    if n < 10 {
        String::from_str(digit_str(n))
    } else {
        let mut s = u64_to_string(n / 10);
        s.append(digit_str(n % 10));
        proof {
            assert(s@ =~= spec_udec((n as nat) / 10).push(spec_digit((n as nat) % 10)));
        }
        s
    }
}

/// Decimal rendering of a signed value, exactly as `spec_sdec` states it.
pub fn i32_to_string(v: i32) -> (s: String)
    ensures
        s@ == spec_sdec(v as int),
{
    if v < 0 {
        let mag: u64 = (-(v as i64)) as u64;
        let mut s = String::from_str("-");
        let digits = u64_to_string(mag);
        s.append(digits.as_str());
        proof {
            reveal_strlit("-");
            assert(s@ =~= seq!['-'] + spec_udec((-(v as int)) as nat));
        }
        s
    } else {
        u64_to_string(v as u64)
    }
}

/// `k` copies of the single character of `piece`.
pub fn repeat_str(piece: &str, k: usize) -> (s: String)
    requires
        piece@.len() == 1,
    ensures
        s@ == spec_repeat(piece@[0], k as nat),
{
    let mut s = String::new();
    let mut i: usize = 0;
    while i < k
        invariant
            i <= k,
            piece@.len() == 1,
            s@ == spec_repeat(piece@[0], i as nat),
        decreases k - i,
    {
        s.append(piece);
        proof {
            assert(piece@ =~= seq![piece@[0]]);
            assert(s@ =~= spec_repeat(piece@[0], (i + 1) as nat));
        }
        i = i + 1;
    }
    s
}

} // verus!
