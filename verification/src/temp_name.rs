use vstd::prelude::*;
use std::collections::hash_map::DefaultHasher;
use std::hash::Hasher;
use crate::render::{dec_digits, is_digit, push_dec};

verus! {

/// A run of `k` zero characters, used to pad a number to a fixed width.
pub open spec fn zeros(k: nat) -> Seq<char>
    decreases k,
{
    if k == 0 {
        Seq::empty()
    } else {
        zeros((k - 1) as nat).push('0')
    }
}

/// A run of zeros has the stated length and holds only `'0'`.
pub proof fn lemma_zeros(k: nat)
    ensures
        zeros(k).len() == k,
        forall|i: int| 0 <= i < k ==> zeros(k)[i] == '0',
    decreases k,
{
    if k > 0 {
        lemma_zeros((k - 1) as nat);
    }
}

/// Powers of ten.
pub open spec fn pow10(k: nat) -> nat
    decreases k,
{
    if k == 0 {
        1
    } else {
        10 * pow10((k - 1) as nat)
    }
}

/// A number below the `k`-th power of ten has at most `k` decimal digits.
proof fn lemma_dec_digits_len(n: nat, k: nat)
    requires
        k >= 1,
        n < pow10(k),
    ensures
        dec_digits(n).len() <= k,
    decreases n,
{
    if n >= 10 {
        assert(n / 10 < pow10((k - 1) as nat)) by (nonlinear_arith)
            requires
                n < 10 * pow10((k - 1) as nat),
        ;
        lemma_dec_digits_len(n / 10, (k - 1) as nat);
    }
}

/// The decimal rendering of a 64-bit value has at most 20 digits.
proof fn lemma_u64_dec_len(n: u64)
    ensures
        dec_digits(n as nat).len() <= 20,
{
    assert(pow10(20) == 100000000000000000000) by {
        reveal_with_fuel(pow10, 21);
    }
    lemma_dec_digits_len(n as nat, 20);
}

/// Renders `seed` as a temporary log file name: `temp-`, then the seed in
/// decimal padded with zeros to 23 characters, then `.log` — 32 characters
/// in all.
pub fn temp_file_name_from(seed: u64) -> (r: String)
    ensures
        r@ == "temp-"@ + zeros((23 - dec_digits(seed as nat).len()) as nat) + dec_digits(
            seed as nat,
        ) + ".log"@,
        r@.len() == 32,
{
    let mut digits = String::new();
    push_dec(&mut digits, seed);
    let dlen: usize = digits.as_str().unicode_len();
    proof {
        lemma_u64_dec_len(seed);
        lemma_zeros((23 - dlen) as nat);
        reveal_strlit("temp-");
        reveal_strlit(".log");
        reveal_strlit("0");
    }
    let mut out = String::from_str("temp-");
    let pad: usize = 23 - dlen;
    let mut j: usize = 0;
    while j < pad
        invariant
            j <= pad,
            out@ =~= "temp-"@ + zeros(j as nat),
        decreases pad - j,
    {
        out.append("0");
        proof {
            reveal_strlit("0");
            assert(out@ =~= "temp-"@ + zeros((j + 1) as nat));
        }
        j += 1;
    }
    out.append(digits.as_str());
    out.append(".log");
    proof {
        assert(out@ =~= "temp-"@ + zeros((23 - dec_digits(seed as nat).len()) as nat) + dec_digits(
            seed as nat,
        ) + ".log"@);
    }
    out
}

/// Generates a temporary log file name of the shape
/// `temp-00000000000000000000000.log`: the `temp-` prefix, 23 decimal
/// digits seeded from a hash of the current wall-clock time, and a `.log`
/// suffix.
pub fn generate_temp_file_name() -> (r: String)
    ensures
        r@.len() == 32,
        r@.subrange(0, 5) == "temp-"@,
        r@.subrange(28, 32) == ".log"@,
        forall|i: int| 5 <= i < 28 ==> is_digit(#[trigger] r@[i]),
{
    let now = crate::clock::local_timestamp();
    let mut hasher = DefaultHasher::new();
    hasher.write(now.as_str().as_bytes());
    let seed: u64 = hasher.finish();
    let r = temp_file_name_from(seed);
    proof {
        let z = zeros((23 - dec_digits(seed as nat).len()) as nat);
        let d = dec_digits(seed as nat);
        lemma_zeros((23 - dec_digits(seed as nat).len()) as nat);
        crate::render::lemma_dec_digits_are_digits(seed as nat);
        reveal_strlit("temp-");
        reveal_strlit(".log");
        assert(r@.subrange(0, 5) =~= "temp-"@);
        assert(r@.subrange(28, 32) =~= ".log"@);
        assert forall|i: int| 5 <= i < 28 implies is_digit(#[trigger] r@[i]) by {
            if i < 5 + z.len() {
                assert(r@[i] == z[i - 5]);
            } else {
                assert(r@[i] == d[i - 5 - z.len()]);
            }
        }
    }
    r
}

} // verus!
