//! Verified text building blocks: decimal rendering of unsigned
//! numbers and plain string comparison, specified over character
//! sequences.

use vstd::prelude::*;
use vstd::string::StrSliceExecFns;
use vstd::string::StringExecFns;

verus! {

/// The decimal digit character for a value in 0..10.
pub open spec fn dec_digit(d: int) -> char {
    if d == 0 {
        '0'
    } else if d == 1 {
        '1'
    } else if d == 2 {
        '2'
    } else if d == 3 {
        '3'
    } else if d == 4 {
        '4'
    } else if d == 5 {
        '5'
    } else if d == 6 {
        '6'
    } else if d == 7 {
        '7'
    } else if d == 8 {
        '8'
    } else {
        '9'
    }
}

/// The usual decimal rendering of a non-negative number, most
/// significant digit first, no leading zeros (except for 0 itself).
pub open spec fn spec_dec_rep(n: int) -> Seq<char>
    decreases n,
{
    if n < 10 {
        seq![dec_digit(n)]
    } else {
        spec_dec_rep(n / 10) + seq![dec_digit(n % 10)]
    }
}

fn push_digit(s: &mut String, d: u8)
    requires
        d < 10,
    ensures
        final(s)@ == old(s)@ + seq![dec_digit(d as int)],
{
    let t: &str = match d {
        0 => "0",
        1 => "1",
        2 => "2",
        3 => "3",
        4 => "4",
        5 => "5",
        6 => "6",
        7 => "7",
        8 => "8",
        _ => "9",
    };
    proof {
        reveal_strlit("0");
        reveal_strlit("1");
        reveal_strlit("2");
        reveal_strlit("3");
        reveal_strlit("4");
        reveal_strlit("5");
        reveal_strlit("6");
        reveal_strlit("7");
        reveal_strlit("8");
        reveal_strlit("9");
        assert(t@ =~= seq![dec_digit(d as int)]);
    }
    s.append(t);
}

/// Append the decimal rendering of `n` to `s`.
pub fn push_dec_u128(s: &mut String, n: u128)
    ensures
        final(s)@ == old(s)@ + spec_dec_rep(n as int),
    decreases n,
{
    if n >= 10 {
        push_dec_u128(s, n / 10);
    }
    push_digit(s, (n % 10) as u8);
    proof {
        if n >= 10 {
            assert(old(s)@ + spec_dec_rep(n as int) =~= old(s)@ + spec_dec_rep(n as int / 10)
                + seq![dec_digit(n as int % 10)]);
        }
    }
}

/// Append the decimal rendering of `n` to `s`.
pub fn push_dec_u64(s: &mut String, n: u64)
    ensures
        final(s)@ == old(s)@ + spec_dec_rep(n as int),
{
    push_dec_u128(s, n as u128);
}

/// A decimal rendering is never empty, and is one character exactly
/// for values below ten.
pub proof fn lemma_dec_rep_len(n: int)
    requires
        0 <= n,
    ensures
        spec_dec_rep(n).len() >= 1,
        (n < 10 <==> spec_dec_rep(n).len() == 1),
    decreases n,
{
    if n >= 10 {
        lemma_dec_rep_len(n / 10);
    }
}

/// Distinct numbers render distinctly.
pub proof fn lemma_dec_rep_injective(a: int, b: int)
    requires
        0 <= a,
        0 <= b,
        spec_dec_rep(a) == spec_dec_rep(b),
    ensures
        a == b,
    decreases a,
{
    lemma_dec_rep_len(a);
    lemma_dec_rep_len(b);
    if a < 10 && b < 10 {
        assert(spec_dec_rep(a)[0] == dec_digit(a));
        assert(spec_dec_rep(b)[0] == dec_digit(b));
    } else if a >= 10 && b >= 10 {
        assert(spec_dec_rep(a).last() == dec_digit(a % 10));
        assert(spec_dec_rep(b).last() == dec_digit(b % 10));
        assert(a % 10 == b % 10);
        assert(spec_dec_rep(a).drop_last() =~= spec_dec_rep(a / 10));
        assert(spec_dec_rep(b).drop_last() =~= spec_dec_rep(b / 10));
        lemma_dec_rep_injective(a / 10, b / 10);
        vstd::arithmetic::div_mod::lemma_fundamental_div_mod(a, 10);
        vstd::arithmetic::div_mod::lemma_fundamental_div_mod(b, 10);
    }
}

/// Plain string equality, specified over the character views.
pub fn str_eq(a: &str, b: &str) -> (r: bool)
    ensures
        r == (a@ == b@),
{
    let la = a.unicode_len();
    let lb = b.unicode_len();
    if la != lb {
        proof {
            assert(a@ != b@);
        }
        return false;
    }
    let mut i: usize = 0;
    while i < la
        invariant
            i <= la,
            la == a@.len(),
            la == b@.len(),
            forall|j: int| 0 <= j < i ==> a@[j] == b@[j],
        decreases la - i,
    {
        if a.get_char(i) != b.get_char(i) {
            proof {
                assert(a@[i as int] != b@[i as int]);
            }
            return false;
        }
        i = i + 1;
    }
    proof {
        assert(a@ =~= b@);
    }
    true
}

} // verus!
