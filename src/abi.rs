//! The Solidity ABI encodings of the light client's messages, by way of `alloy`.
use alloy::sol_types::{sol_data, SolType, SolValue};
use vstd::prelude::*;
use vstd::utf8::encode_utf8;

use crate::hash::{
    be_word, lemma_be_word_value, word_high_is_zero, word_high_zero, word_low, word_low_value,
};

verus! {

/// A client state as the ABI tuple `(string, (uint8, uint8), (uint32, uint32), uint32,
/// uint32, bool, uint8)`.
pub type ClientStateWords = (String, (u8, u8), (u32, u32), u32, u32, bool, u8);

/// The mathematical value of a [`ClientStateWords`].
pub type ClientStateWordsView = (Seq<char>, (u8, u8), (u32, u32), u32, u32, bool, u8);

/// The view of a client state tuple.
pub open spec fn client_state_words_view(w: ClientStateWords) -> ClientStateWordsView {
    (w.0@, w.1, w.2, w.3, w.4, w.5, w.6)
}

/// `b` followed by zero bytes up to a whole number of 32-byte words.
pub open spec fn padded(b: Seq<u8>) -> Seq<u8> {
    b + Seq::new(((32 - b.len() % 32) % 32) as nat, |i: int| 0u8)
}

/// The ABI encoding of a client state tuple, as one value: the offset of the tuple,
/// its head (the offset of the string within the tuple, then one word per number),
/// then the string's length and its UTF-8 bytes, padded.
pub open spec fn abi_client_state(v: ClientStateWordsView) -> Seq<u8> {
    let text = encode_utf8(v.0);
    be_word(32) + be_word(288) + be_word(v.1.0 as u64) + be_word(v.1.1 as u64) + be_word(
        v.2.0 as u64,
    ) + be_word(v.2.1 as u64) + be_word(v.3 as u64) + be_word(v.4 as u64) + be_word(
        if v.5 {
            1
        } else {
            0
        },
    ) + be_word(v.6 as u64) + be_word(text.len() as u64) + padded(text)
}

/// The ABI encoding of a consensus state `(uint64, bytes32, bytes32)`: three words.
pub open spec fn abi_consensus_state(v: (u64, Seq<u8>, Seq<u8>)) -> Seq<u8> {
    be_word(v.0) + v.1 + v.2
}

/// Whether the string length that the client state decoder reads, at the place that
/// the offsets in `d` lead to, is at most the length of `d`. The decoder reads the
/// tuple's offset `o` at the start, the string's offset `s` at `o`, and the length at
/// `o + s`, each from a word whose first 24 bytes must be zero.
pub open spec fn string_length_in_bounds(d: Seq<u8>) -> bool {
    let o = word_low_value(d, 0);
    let s = word_low_value(d, o as int);
    (d.len() >= 32 && word_high_zero(d, 0) && o + 32 <= d.len() && word_high_zero(d, o as int)
        && o + s + 32 <= d.len() && word_high_zero(d, (o + s) as int)) ==> word_low_value(d, (o + s) as int)
        <= d.len()
}

/// Whether `d` meets [`string_length_in_bounds`].
pub fn string_length_within(d: &[u8]) -> (r: bool)
    ensures
        r == string_length_in_bounds(d@),
{
    let len = d.len();
    if len < 32 || !word_high_is_zero(d, 0) {
        return true;
    }
    let o = word_low(d, 0);
    if (o as u128) + 32 > len as u128 || !word_high_is_zero(d, o as usize) {
        return true;
    }
    let s = word_low(d, o as usize);
    if (o as u128) + (s as u128) + 32 > len as u128 {
        return true;
    }
    let at = (o + s) as usize;
    if !word_high_is_zero(d, at) {
        return true;
    }
    (word_low(d, at) as u128) <= len as u128
}

/// A word of `d` that equals the word of `n` has zero high bytes and holds `n`.
proof fn lemma_word_at(d: Seq<u8>, i: int, n: u64)
    requires
        0 <= i,
        i + 32 <= d.len(),
        d.subrange(i, i + 32) == be_word(n),
    ensures
        word_high_zero(d, i),
        word_low_value(d, i) == n,
{
    lemma_be_word_value(n);
    assert forall|k: int| i <= k < i + 24 implies d[k] == 0u8 by {
        assert(d[k] == d.subrange(i, i + 32)[k - i]);
    }
    assert(d.subrange(i + 24, i + 32) =~= be_word(n).subrange(24, 32));
}

/// The encoding of a client state passes the decoder's length test.
pub proof fn lemma_client_state_length_in_bounds(v: ClientStateWordsView)
    ensures
        string_length_in_bounds(abi_client_state(v)),
{
    let d = abi_client_state(v);
    let text = encode_utf8(v.0);
    lemma_client_state_encoding_len(v);
    assert(d.subrange(0, 32) =~= be_word(32));
    assert(d.subrange(32, 64) =~= be_word(288));
    assert(d.subrange(320, 352) =~= be_word(text.len() as u64));
    lemma_word_at(d, 0, 32);
    lemma_word_at(d, 32, 288);
    lemma_word_at(d, 320, text.len() as u64);
}

/// A client state's encoding is a whole number of words, at least eleven.
pub proof fn lemma_client_state_encoding_len(v: ClientStateWordsView)
    ensures
        abi_client_state(v).len() >= 352,
        abi_client_state(v).len() % 32 == 0,
        abi_client_state(v).len() == 352 + padded(encode_utf8(v.0)).len(),
        encode_utf8(v.0).len() <= padded(encode_utf8(v.0)).len(),
{
    let n = encode_utf8(v.0).len() as int;
    vstd::arithmetic::div_mod::lemma_fundamental_div_mod(n, 32);
}

/// The ABI encoding of a zero-knowledge proof `(bytes32, bytes, bytes)`, as one value.
pub uninterp spec fn abi_sp1_proof(v: (Seq<u8>, Seq<u8>, Seq<u8>)) -> Seq<u8>;

/// The ABI encoding of a membership proof `(uint8, bytes)`, as one value.
pub uninterp spec fn abi_membership_proof(v: (u8, Seq<u8>)) -> Seq<u8>;

/// Relies on `alloy_sol_types::SolType::abi_encode` for the client state tuple: the ABI
/// encoding of the value, laid out as [`abi_client_state`] states.
#[verifier::external_body]
pub(crate) fn encode_client_state_words(w: &ClientStateWords) -> (r: Vec<u8>)
    ensures
        r@ == abi_client_state(client_state_words_view(*w)),
{
    <(
        sol_data::String,
        (sol_data::Uint<8>, sol_data::Uint<8>),
        (sol_data::Uint<32>, sol_data::Uint<32>),
        sol_data::Uint<32>,
        sol_data::Uint<32>,
        sol_data::Bool,
        sol_data::Uint<8>,
    ) as SolType>::abi_encode(w)
}

/// Relies on `alloy_sol_types::SolType::abi_decode`, validating, for the client state
/// tuple: on the encoding of a value it gives that value back. It computes the end of
/// the string from the length it reads without an overflow check, so inputs whose
/// length word is out of bounds are kept from it.
#[verifier::external_body]
pub(crate) fn decode_client_state_words(data: &[u8]) -> (r: Option<ClientStateWords>)
    requires
        string_length_in_bounds(data@),
    ensures
        forall|v: ClientStateWordsView|
            #[trigger] abi_client_state(v) == data@ ==> r is Some && client_state_words_view(
                r->Some_0,
            ) == v,
{
    <(
        sol_data::String,
        (sol_data::Uint<8>, sol_data::Uint<8>),
        (sol_data::Uint<32>, sol_data::Uint<32>),
        sol_data::Uint<32>,
        sol_data::Uint<32>,
        sol_data::Bool,
        sol_data::Uint<8>,
    ) as SolType>::abi_decode(data, true).ok()
}

/// Relies on `alloy_sol_types::SolValue::abi_encode` for `(uint64, bytes32, bytes32)`: the
/// three words of the value.
#[verifier::external_body]
pub(crate) fn encode_consensus_state_words(w: &(u64, [u8; 32], [u8; 32])) -> (r: Vec<u8>)
    ensures
        r@ == abi_consensus_state((w.0, w.1@, w.2@)),
{
    w.abi_encode()
}

/// Relies on `alloy_sol_types::SolType::abi_decode`, validating, for `(uint64, bytes32,
/// bytes32)`: on the encoding of a value it gives that value back.
#[verifier::external_body]
pub(crate) fn decode_consensus_state_words(data: &[u8]) -> (r: Option<(u64, [u8; 32], [u8; 32])>)
    ensures
        forall|t: u64, a: Seq<u8>, b: Seq<u8>|
            #[trigger] abi_consensus_state((t, a, b)) == data@ && a.len() == 32 && b.len() == 32
                ==> r is Some && r->Some_0.0 == t && r->Some_0.1@ == a && r->Some_0.2@ == b,
{
    <(u64, [u8; 32], [u8; 32]) as SolValue>::SolType::abi_decode(data, true)
        .ok()
        .map(|(t, a, b)| (t, a.0, b.0))
}

/// Relies on `alloy_sol_types::SolValue::abi_encode` for `(bytes32, bytes, bytes)`: the ABI
/// encoding of the value.
#[verifier::external_body]
pub(crate) fn encode_sp1_proof_words(w: &([u8; 32], Vec<u8>, Vec<u8>)) -> (r: Vec<u8>)
    ensures
        r@ == abi_sp1_proof((w.0@, w.1@, w.2@)),
{
    w.abi_encode()
}

/// Relies on `alloy_sol_types::SolType::abi_encode` for `(uint8, bytes)`: the ABI encoding
/// of the value.
#[verifier::external_body]
pub(crate) fn encode_membership_proof_words(w: &(u8, Vec<u8>)) -> (r: Vec<u8>)
    ensures
        r@ == abi_membership_proof((w.0, w.1@)),
{
    <(sol_data::Uint<8>, sol_data::Bytes) as SolType>::abi_encode(w)
}

} // verus!
