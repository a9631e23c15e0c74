//! Deterministic names for the persisted artifacts: the parameter cache is
//! keyed by the capacity exponent alone, the proof file by capacity and
//! repetition count.

use vstd::prelude::*;
use vstd::string::*;

verus! {

/// The character for one decimal digit value.
pub open spec fn spec_digit_char(d: nat) -> char {
    if d == 0 {
        '0'
    } else if d == 1 {
        '1'
    } else if d == 2 {
        '2'
    } else if d == 3 {
        '3'
    } else if d == 4 {
        '4'
    } else if d == 5 {
        '5'
    } else if d == 6 {
        '6'
    } else if d == 7 {
        '7'
    } else if d == 8 {
        '8'
    } else {
        '9'
    }
}

/// Decimal representation of `n`: most significant digit first, no leading
/// zeros, a single '0' for zero.
pub open spec fn spec_udec(n: nat) -> Seq<char>
    decreases n,
{
    if n < 10 {
        seq![spec_digit_char(n)]
    } else {
        spec_udec(n / 10).push(spec_digit_char(n % 10))
    }
}

/// Name of the cache entry holding the setup parameters of capacity `k`.
/// The repetition count takes no part: parameters are reusable across all
/// circuit shapes that fit the capacity.
pub open spec fn spec_params_cache_name(k: u32) -> Seq<char> {
    "./sha256_params_k_"@ + spec_udec(k as nat)
}

/// Name of the file holding the proof for capacity `k` and repetition
/// count `reps`.
pub open spec fn spec_proof_file_name(k: u32, reps: u64) -> Seq<char> {
    "./sha256_proof_k_"@ + spec_udec(k as nat) + "_count_"@ + spec_udec(reps as nat)
}

fn digit_str(d: u64) -> (r: &'static str)
    requires
        d < 10,
    ensures
        r@ == seq![spec_digit_char(d as nat)],
{
    proof {
        reveal_strlit("0");
        reveal_strlit("1");
        reveal_strlit("2");
        reveal_strlit("3");
        reveal_strlit("4");
        reveal_strlit("5");
        reveal_strlit("6");
        reveal_strlit("7");
        reveal_strlit("8");
        reveal_strlit("9");
    }
    let r = if d == 0 {
        "0"
    } else if d == 1 {
        "1"
    } else if d == 2 {
        "2"
    } else if d == 3 {
        "3"
    } else if d == 4 {
        "4"
    } else if d == 5 {
        "5"
    } else if d == 6 {
        "6"
    } else if d == 7 {
        "7"
    } else if d == 8 {
        "8"
    } else {
        "9"
    };
    proof {
        assert(r@ =~= seq![spec_digit_char(d as nat)]);
    }
    r
}

/// Appends the decimal representation of `n` to `s`.
pub fn push_udec(s: &mut String, n: u64)
    ensures
        final(s)@ == old(s)@ + spec_udec(n as nat),
    decreases n,
{
    if n >= 10 {
        proof {
            assert(n / 10 < n) by (nonlinear_arith)
                requires
                    n >= 10,
            ;
        }
        push_udec(s, n / 10);
    }
    let d: u64 = n % 10;
    s.append(digit_str(d));
    proof {
        if n >= 10 {
            assert(old(s)@ + spec_udec(n as nat) =~= (old(s)@ + spec_udec((n / 10) as nat))
                + seq![spec_digit_char((n % 10) as nat)]);
        } else {
            assert(old(s)@ + spec_udec(n as nat) =~= old(s)@ + seq![spec_digit_char(n as nat)]);
        }
    }
}

/// The decimal representation of `n` as a fresh string.
pub fn u64_dec(n: u64) -> (s: String)
    ensures
        s@ == spec_udec(n as nat),
{
    let mut s = String::new();
    push_udec(&mut s, n);
    proof {
        assert(Seq::<char>::empty() + spec_udec(n as nat) =~= spec_udec(n as nat));
    }
    s
}

/// Builds the cache entry name for the parameters of capacity `k`.
pub fn params_cache_name(k: u32) -> (s: String)
    ensures
        s@ == spec_params_cache_name(k),
{
    let mut s = String::from_str("./sha256_params_k_");
    push_udec(&mut s, k as u64);
    s
}

/// Builds the proof file name for capacity `k` and repetition count `reps`.
pub fn proof_file_name(k: u32, reps: u64) -> (s: String)
    ensures
        s@ == spec_proof_file_name(k, reps),
{
    let mut s = String::from_str("./sha256_proof_k_");
    push_udec(&mut s, k as u64);
    s.append("_count_");
    push_udec(&mut s, reps);
    proof {
        assert(s@ =~= spec_proof_file_name(k, reps));
    }
    s
}

} // verus!
