//! Keccak-256 and the storage locations derived from it.
use vstd::arithmetic::div_mod::{lemma_basic_div, lemma_div_denominator, lemma_fundamental_div_mod};
use vstd::prelude::*;

verus! {

/// The Keccak-256 digest of a byte string.
pub uninterp spec fn keccak(data: Seq<u8>) -> Seq<u8>;

/// Relies on `alloy::primitives::keccak256`: the 32-byte Keccak-256 digest of the input.
#[verifier::external_body]
pub(crate) fn keccak256(data: &[u8]) -> (r: [u8; 32])
    ensures
        r@ == keccak(data@),
{
    alloy::primitives::keccak256(data).0
}

/// The 32-byte big-endian word that holds `n`.
pub open spec fn be_word(n: u64) -> Seq<u8> {
    Seq::new(32, |i: int| if i < 24 { 0u8 } else { ((n as int / pow256(31 - i)) % 256) as u8 })
}

/// `256` to the power `e`.
pub open spec fn pow256(e: int) -> int
    decreases e,
{
    if e <= 0 { 1 } else { 256 * pow256(e - 1) }
}

/// Every power of 256 is positive.
pub proof fn lemma_pow256_positive(e: int)
    ensures
        pow256(e) > 0,
    decreases e,
{
    if e > 0 {
        lemma_pow256_positive(e - 1);
    }
}

/// The storage location of entry `key` of a `mapping(bytes32 => bytes32)` at slot `slot`.
pub open spec fn mapping_location(key: Seq<u8>, slot: u64) -> Seq<u8> {
    keccak(key + be_word(slot))
}

/// Derives the storage location of `key` in the mapping stored at `slot`: the digest of
/// the key followed by the slot as a big-endian word.
pub fn derive_commitment_slot(key: &[u8; 32], slot: u64) -> (r: [u8; 32])
    ensures
        r@ == mapping_location(key@, slot),
{
    let mut buf: Vec<u8> = Vec::new();
    let mut i: usize = 0;
    while i < 32
        invariant
            i <= 32,
            buf@ == key@.subrange(0, i as int),
        decreases 32 - i,
    {
        buf.push(key[i]);
        i = i + 1;
    }
    let word = u64_be_word(slot);
    let mut j: usize = 0;
    while j < 32
        invariant
            j <= 32,
            word@ == be_word(slot),
            buf@ == key@ + be_word(slot).subrange(0, j as int),
        decreases 32 - j,
    {
        buf.push(word[j]);
        j = j + 1;
    }
    assert(key@.subrange(0, 32) == key@);
    assert(be_word(slot).subrange(0, 32) == be_word(slot));
    keccak256(buf.as_slice())
}

/// The big-endian 32-byte word of `n`.
pub fn u64_be_word(n: u64) -> (r: [u8; 32])
    ensures
        r@ == be_word(n),
{
    let mut out = [0u8; 32];
    let mut rest: u64 = n;
    let mut i: usize = 32;
    while i > 24
        invariant
            24 <= i <= 32,
            rest as int == n as int / pow256(32 - i as int),
            forall|k: int| 0 <= k < i ==> out@[k] == 0u8,
            forall|k: int| i <= k < 32 ==> out@[k] == be_word(n)[k],
        decreases i,
    {
        i = i - 1;
        out[i] = (rest % 256) as u8;
        proof {
            let k = 31 - i as int;
            lemma_pow256_positive(k);
            lemma_div_denominator(n as int, pow256(k), 256);
            assert(pow256(k + 1) == 256 * pow256(k));
            assert(pow256(k) * 256 == 256 * pow256(k)) by (nonlinear_arith);
        }
        rest = rest / 256;
    }
    assert(out@ == be_word(n));
    out
}

/// The number that a big-endian byte string spells.
pub open spec fn be_value(s: Seq<u8>) -> nat
    decreases s.len(),
{
    if s.len() == 0 {
        0
    } else {
        be_value(s.drop_last()) * 256 + s.last() as nat
    }
}

/// Whether the first 24 bytes of the 32-byte word at `i` of `d` are zero.
pub open spec fn word_high_zero(d: Seq<u8>, i: int) -> bool {
    forall|k: int| i <= k < i + 24 ==> d[k] == 0u8
}

/// The number in the last 8 bytes of the 32-byte word at `i` of `d`.
pub open spec fn word_low_value(d: Seq<u8>, i: int) -> nat {
    be_value(d.subrange(i + 24, i + 32))
}

/// A big-endian byte string of `k` bytes spells less than `256` to the power `k`.
proof fn lemma_be_value_bound(s: Seq<u8>)
    ensures
        be_value(s) < pow256(s.len() as int),
    decreases s.len(),
{
    if s.len() > 0 {
        lemma_be_value_bound(s.drop_last());
        assert(pow256(s.len() as int) == 256 * pow256(s.len() - 1));
        assert(be_value(s.drop_last()) * 256 + (s.last() as nat) < 256 * pow256(s.len() - 1)) by (nonlinear_arith)
            requires be_value(s.drop_last()) < pow256(s.len() - 1), (s.last() as nat) < 256;
    }
}

/// The word of a 64-bit number has zero high bytes and spells the number in its low
/// eight bytes.
pub proof fn lemma_be_word_value(n: u64)
    ensures
        word_high_zero(be_word(n), 0),
        word_low_value(be_word(n), 0) == n,
{
    let w = be_word(n);
    lemma_be_word_prefix(n, 8);
    assert(pow256(0) == 1);
    assert(w.subrange(24, 32) =~= w.subrange(24, 24 + 8int));
    assert(word_low_value(w, 0) == be_value(w.subrange(24, 32)));
}

/// The first `k` of the low eight bytes of the word of `n` spell `n` without its last
/// `8 - k` bytes.
proof fn lemma_be_word_prefix(n: u64, k: int)
    requires
        0 <= k <= 8,
    ensures
        be_value(be_word(n).subrange(24, 24 + k)) == n as int / pow256(8 - k),
    decreases k,
{
    let w = be_word(n);
    if k == 0 {
        reveal_with_fuel(pow256, 9);
        assert(pow256(8) == 18446744073709551616);
        lemma_basic_div(n as int, pow256(8));
        assert(w.subrange(24, 24) =~= Seq::<u8>::empty());
    } else {
        lemma_be_word_prefix(n, k - 1);
        let x = n as int / pow256(8 - k);
        lemma_pow256_positive(8 - k);
        lemma_div_denominator(n as int, pow256(8 - k), 256);
        assert(pow256(9 - k) == 256 * pow256(8 - k));
        assert(pow256(8 - k) * 256 == 256 * pow256(8 - k)) by (nonlinear_arith);
        lemma_fundamental_div_mod(x, 256);
        let sub = w.subrange(24, 24 + k);
        assert(sub.drop_last() =~= w.subrange(24, 24 + k - 1));
        assert(sub.last() == w[24 + k - 1]);
        assert(31 - (24 + k - 1) == 8 - k);
        assert(w[24 + k - 1] == (x % 256) as u8);
        assert(be_value(sub) == be_value(sub.drop_last()) * 256 + sub.last() as nat);
        assert(be_value(sub.drop_last()) == x / 256);
        assert(x == 256 * (x / 256) + x % 256);
    }
}

/// Whether the first 24 bytes of the word at `i` are zero.
pub fn word_high_is_zero(d: &[u8], i: usize) -> (r: bool)
    requires
        i + 32 <= d@.len(),
    ensures
        r == word_high_zero(d@, i as int),
{
    let len = d.len();
    let mut k: usize = 0;
    while k < 24
        invariant
            k <= 24,
            len == d@.len(),
            i + 32 <= d@.len(),
            forall|j: int| i <= j < i + k ==> d@[j] == 0u8,
        decreases 24 - k,
    {
        if d[i + k] != 0 {
            return false;
        }
        k = k + 1;
    }
    true
}

/// The number in the last 8 bytes of the word at `i`.
pub fn word_low(d: &[u8], i: usize) -> (r: u64)
    requires
        i + 32 <= d@.len(),
    ensures
        r as nat == word_low_value(d@, i as int),
{
    let len = d.len();
    let mut acc: u64 = 0;
    let mut k: usize = 0;
    while k < 8
        invariant
            k <= 8,
            len == d@.len(),
            i + 32 <= d@.len(),
            acc as nat == be_value(d@.subrange(i + 24, i + 24 + k)),
        decreases 8 - k,
    {
        proof {
            lemma_be_value_bound(d@.subrange(i + 24, i + 24 + k));
            assert(k < 8);
            reveal_with_fuel(pow256, 8);
            assert(pow256(7) == 72057594037927936);
            lemma_pow256_monotone(k as int, 7);
            let b = d@[i + 24 + k];
            assert(acc * 256 + (b as int) < 18446744073709551616) by (nonlinear_arith)
                requires acc < 72057594037927936, (b as int) < 256;
            assert(d@.subrange(i + 24, i + 24 + k + 1).drop_last() =~= d@.subrange(i + 24, i + 24 + k));
        }
        acc = acc * 256 + d[i + 24 + k] as u64;
        k = k + 1;
    }
    assert(d@.subrange(i + 24, i + 32) =~= d@.subrange(i + 24, i + 24 + 8));
    acc
}

/// Powers of 256 grow with the exponent.
proof fn lemma_pow256_monotone(a: int, b: int)
    requires
        0 <= a <= b,
    ensures
        pow256(a) <= pow256(b),
    decreases b - a,
{
    if a < b {
        lemma_pow256_monotone(a, b - 1);
        lemma_pow256_positive(b - 1);
    }
}

/// The all-zero 32-byte word.
pub open spec fn zero_word() -> Seq<u8> {
    Seq::new(32, |i: int| 0u8)
}

/// Whether a 32-byte word is zero.
pub fn is_zero_word(w: &[u8; 32]) -> (r: bool)
    ensures
        r == (w@ == zero_word()),
{
    let mut i: usize = 0;
    while i < 32
        invariant
            i <= 32,
            forall|k: int| 0 <= k < i ==> w@[k] == 0u8,
        decreases 32 - i,
    {
        if w[i] != 0 {
            assert(w@[i as int] != zero_word()[i as int]);
            return false;
        }
        i = i + 1;
    }
    assert(w@ =~= zero_word());
    true
}

/// Whether two 32-byte words are equal.
pub fn words_equal(a: &[u8; 32], b: &[u8; 32]) -> (r: bool)
    ensures
        r == (a@ == b@),
{
    let mut i: usize = 0;
    while i < 32
        invariant
            i <= 32,
            forall|k: int| 0 <= k < i ==> a@[k] == b@[k],
        decreases 32 - i,
    {
        if a[i] != b[i] {
            return false;
        }
        i = i + 1;
    }
    assert(a@ =~= b@);
    true
}

/// Whether two byte strings are equal.
pub fn bytes_equal(a: &[u8], b: &[u8]) -> (r: bool)
    ensures
        r == (a@ == b@),
{
    if a.len() != b.len() {
        return false;
    }
    let mut i: usize = 0;
    while i < a.len()
        invariant
            i <= a@.len(),
            a@.len() == b@.len(),
            forall|k: int| 0 <= k < i ==> a@[k] == b@[k],
        decreases a@.len() - i,
    {
        if a[i] != b[i] {
            return false;
        }
        i = i + 1;
    }
    assert(a@ =~= b@);
    true
}

/// The 32-byte word held by `v`, if it has exactly 32 bytes.
pub fn word_from_bytes(v: &Vec<u8>) -> (r: Option<[u8; 32]>)
    ensures
        r is Some <==> v@.len() == 32,
        r is Some ==> r->Some_0@ == v@,
{
    if v.len() != 32 {
        return None;
    }
    let mut out = [0u8; 32];
    let mut i: usize = 0;
    while i < 32
        invariant
            i <= 32,
            v@.len() == 32,
            forall|k: int| 0 <= k < i ==> out@[k] == v@[k],
        decreases 32 - i,
    {
        out[i] = v[i];
        i = i + 1;
    }
    assert(out@ =~= v@);
    Some(out)
}

} // verus!
