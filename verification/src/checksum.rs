//! The Internet checksum: a ones' complement sum of big-endian 16-bit words.

use vstd::prelude::*;

verus! {

/// The `k`-th 16-bit word of `data`, big-endian. A trailing odd byte is
/// padded with a zero low byte; past the end every word is zero.
pub open spec fn word_at(data: Seq<u8>, k: int) -> nat {
    if 0 <= k && 2 * k + 1 < data.len() {
        (data[2 * k] as nat) * 256 + (data[2 * k + 1] as nat)
    } else if 0 <= k && 2 * k < data.len() {
        (data[2 * k] as nat) * 256
    } else {
        0
    }
}

/// The sum of the first `n` words of `data`, with no carry folded in.
pub open spec fn word_sum_upto(data: Seq<u8>, n: nat) -> nat
    decreases n,
{
    if n == 0 {
        0
    } else {
        word_sum_upto(data, (n - 1) as nat) + word_at(data, n - 1)
    }
}

/// The number of 16-bit words that cover `data`.
pub open spec fn word_count(data: Seq<u8>) -> nat {
    ((data.len() + 1) / 2) as nat
}

/// The sum of all the words of `data`, with no carry folded in.
pub open spec fn word_sum(data: Seq<u8>) -> nat {
    word_sum_upto(data, word_count(data))
}

/// The ones' complement fold of a sum to 16 bits: carries out of the low 16
/// bits are added back in until none is left. Zero stays zero; every other
/// sum lands in `1..=0xffff`.
pub open spec fn fold16(sum: nat) -> nat {
    if sum == 0 {
        0
    } else {
        ((sum - 1) % 65535 + 1) as nat
    }
}

/// Adding the carry back in leaves the folded value as it was.
pub proof fn lemma_fold_step(sum: nat)
    ensures
        fold16(sum % 65536 + sum / 65536) == fold16(sum),
        sum % 65536 + sum / 65536 <= sum,
        sum > 0xffff ==> sum % 65536 + sum / 65536 < sum,
{
    let q = sum / 65536;
    let r = sum % 65536;
    assert(sum == 65536 * q + r) by (nonlinear_arith)
        requires
            q == sum / 65536,
            r == sum % 65536,
    ;
    if sum > 0 {
        assert(q + r >= 1);
        assert((q + r - 1) + 65535 * q == sum - 1);
        vstd::arithmetic::div_mod::lemma_mod_multiples_vanish(q as int, (q + r - 1) as int, 65535);
    }
}

/// A sum that fits in 16 bits is its own fold.
pub proof fn lemma_fold_small(sum: nat)
    requires
        sum <= 0xffff,
    ensures
        fold16(sum) == sum,
{
    if sum > 0 {
        vstd::arithmetic::div_mod::lemma_small_mod((sum - 1) as nat, 65535);
    }
}

/// Folds the carries of `sum` into its low 16 bits.
pub fn fold(sum: u128) -> (folded: u16)
    ensures
        folded == fold16(sum as nat),
{
    let mut acc: u128 = sum;
    while acc > 0xffff
        invariant
            fold16(acc as nat) == fold16(sum as nat),
        decreases acc,
    {
        proof {
            lemma_fold_step(acc as nat);
        }
        acc = acc % 65536 + acc / 65536;
    }
    proof {
        lemma_fold_small(acc as nat);
    }
    acc as u16
}

/// Each word is below 2^16, so the first `n` words sum to at most `n * 0xffff`.
pub proof fn lemma_word_sum_bound(data: Seq<u8>, n: nat)
    ensures
        word_sum_upto(data, n) <= n * 0xffff,
    decreases n,
{
    if n > 0 {
        lemma_word_sum_bound(data, (n - 1) as nat);
        assert(word_at(data, n - 1) <= 0xffff);
        assert((n - 1) * 0xffff + 0xffff == n * 0xffff) by (nonlinear_arith);
    }
}

/// Sums the big-endian 16-bit words of `data`, without folding.
pub fn sum_words(data: &[u8]) -> (sum: u128)
    ensures
        sum == word_sum(data@),
{
    let len: usize = data.len();
    let mut acc: u128 = 0;
    let mut k: usize = 0;
    while k < len / 2
        invariant
            len == data@.len(),
            k <= len / 2,
            acc == word_sum_upto(data@, k as nat),
        decreases len / 2 - k,
    {
        proof {
            lemma_word_sum_bound(data@, k as nat);
            assert(k * 0xffff <= usize::MAX * 0xffff) by (nonlinear_arith)
                requires
                    k <= usize::MAX,
            ;
        }
        let hi: u128 = data[2 * k] as u128;
        let lo: u128 = data[2 * k + 1] as u128;
        acc = acc + hi * 256 + lo;
        k = k + 1;
    }
    if len % 2 == 1 {
        proof {
            lemma_word_sum_bound(data@, k as nat);
            assert(k * 0xffff <= usize::MAX * 0xffff) by (nonlinear_arith)
                requires
                    k <= usize::MAX,
            ;
        }
        let hi: u128 = data[len - 1] as u128;
        acc = acc + hi * 256;
    }
    acc
}

/// The checksum of `data` on its own: the folded sum of its words.
pub fn data(bytes: &[u8]) -> (folded: u16)
    ensures
        folded == fold16(word_sum(bytes@)),
{
    fold(sum_words(bytes))
}

/// Combines partial sums into one folded sum.
pub fn combine(first: u128, second: u128) -> (folded: u16)
    requires
        first + second <= u128::MAX,
    ensures
        folded == fold16((first + second) as nat),
{
    fold(first + second)
}

} // verus!
