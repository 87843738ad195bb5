//! The little of DER that is written here: a definite length, and a
//! SEQUENCE around given contents.

use vstd::arithmetic::power::pow;
use vstd::prelude::*;

verus! {

/// The tag of a DER SEQUENCE.
pub const DER_SEQUENCE_TAG: u8 = 0x30;

/// The digits of `n` to the base 256, the most significant first and
/// without leading zeros; none for zero.
pub open spec fn base256(n: nat) -> Seq<u8>
    decreases n,
{
    if n == 0 {
        Seq::empty()
    } else {
        base256(n / 256).push((n % 256) as u8)
    }
}

/// The DER encoding of a definite length: one octet below 128, else the
/// count of digits with the top bit set, followed by the digits.
pub open spec fn der_length(len: nat) -> Seq<u8> {
    if len < 128 {
        seq![len as u8]
    } else {
        seq![(0x80 + base256(len).len()) as u8] + base256(len)
    }
}

/// The DER encoding of a SEQUENCE with the given contents.
pub open spec fn der_sequence(contents: Seq<u8>) -> Seq<u8> {
    seq![DER_SEQUENCE_TAG] + der_length(contents.len()) + contents
}

/// A number below `256^k` has at most `k` digits to the base 256.
proof fn lemma_base256_len(n: nat, k: nat)
    requires
        n < pow(256, k),
    ensures
        base256(n).len() <= k,
    decreases k,
{
    if n != 0 {
        if k == 0 {
            assert(pow(256, 0) == 1) by {
                vstd::arithmetic::power::lemma_pow0(256);
            }
        } else {
            assert(pow(256, k) == 256 * pow(256, (k - 1) as nat)) by {
                vstd::arithmetic::power::lemma_pow_positive(256, k);
                reveal(pow);
            }
            assert(n / 256 < pow(256, (k - 1) as nat)) by (nonlinear_arith)
                requires
                    n < 256 * pow(256, (k - 1) as nat),
            ;
            lemma_base256_len(n / 256, (k - 1) as nat);
        }
    }
}

/// A 64-bit number has at most eight digits to the base 256.
proof fn lemma_base256_len_u64(n: u64)
    ensures
        base256(n as nat).len() <= 8,
{
    assert(pow(256, 8) == 0x1_0000_0000_0000_0000) by {
        reveal_with_fuel(pow, 9);
    }
    lemma_base256_len(n as nat, 8);
}

/// Replaces `bytes` by the DER SEQUENCE that holds them.
pub fn wrap_in_sequence(bytes: &mut Vec<u8>)
    ensures
        final(bytes)@ == der_sequence(old(bytes)@),
{
    let len: usize = bytes.len();
    let mut wrapped: Vec<u8> = Vec::new();
    wrapped.push(DER_SEQUENCE_TAG);
    if len < 128 {
        wrapped.push(len as u8);
    } else {
        let mut digits: Vec<u8> = Vec::new();
        let mut left: usize = len;
        proof {
            lemma_base256_len_u64(len as u64);
        }
        while left > 0
            invariant
                base256(len as nat) == base256(left as nat) + digits@,
                base256(len as nat).len() <= 8,
            decreases left,
        {
            let digit: u8 = (left % 256) as u8;
            digits.insert(0, digit);
            assert(base256(left as nat) == base256((left / 256) as nat).push(digit));
            left = left / 256;
            assert(base256(len as nat) =~= base256(left as nat) + digits@);
        }
        assert(base256(len as nat) =~= digits@);
        wrapped.push(0x80 + digits.len() as u8);
        wrapped.append(&mut digits);
    }
    wrapped.append(bytes);
    assert(wrapped@ =~= der_sequence(old(bytes)@));
    *bytes = wrapped;
}

} // verus!
