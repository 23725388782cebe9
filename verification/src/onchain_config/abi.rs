//! The contract ABI, as far as the system contracts need it.
//!
//! A call starts with the four bytes that select the function, and its parameters
//! follow as 32-byte words. The words are put together and taken apart by
//! `alloy_sol_types`; the spec functions here say what they hold.

use alloy_sol_types::{sol_data, SolType};
use vstd::prelude::*;

verus! {

/// Selects `getCurrentConfig()`.
pub const GET_CURRENT_CONFIG: [u8; 4] = [0x43, 0x08, 0xae, 0xc1];

/// Selects `getDKGState()`.
pub const GET_DKG_STATE: [u8; 4] = [0xbd, 0x7d, 0x9c, 0x9f];

/// Selects `finishTransition(bytes)`.
pub const FINISH_TRANSITION: [u8; 4] = [0x49, 0xa3, 0xcc, 0xbc];

/// Selects `getActiveValidators()`.
pub const GET_ACTIVE_VALIDATORS: [u8; 4] = [0x9d, 0xe7, 0x02, 0x58];

/// Selects `getPendingActiveValidators()`.
pub const GET_PENDING_ACTIVE_VALIDATORS: [u8; 4] = [0x53, 0xdc, 0x6a, 0x5e];

/// Selects `getPendingInactiveValidators()`.
pub const GET_PENDING_INACTIVE_VALIDATORS: [u8; 4] = [0x9f, 0xca, 0xa0, 0x80];

/// Selects `onBlockStart(uint64,uint64[],uint64)`.
pub const ON_BLOCK_START: [u8; 4] = [0x8d, 0x4a, 0xdf, 0xd5];

/// The last `len` bytes of `n`, the most significant first.
pub open spec fn be_bytes(n: nat, len: nat) -> Seq<u8>
    decreases len,
{
    if len == 0 {
        Seq::empty()
    } else {
        be_bytes(n / 256, (len - 1) as nat).push((n % 256) as u8)
    }
}

/// The integer that `bytes` stand for, the most significant first.
pub open spec fn be_value(bytes: Seq<u8>) -> nat
    decreases bytes.len(),
{
    if bytes.len() == 0 {
        0
    } else {
        be_value(bytes.drop_last()) * 256 + bytes.last() as nat
    }
}

/// `n` as a word of 32 bytes.
pub open spec fn word(n: nat) -> Seq<u8> {
    be_bytes(n, 32)
}

/// Each of `items` as a word, one after the other.
pub open spec fn words(items: Seq<u64>) -> Seq<u8>
    decreases items.len(),
{
    if items.len() == 0 {
        Seq::empty()
    } else {
        words(items.drop_last()) + word(items.last() as nat)
    }
}

/// `data` with zeros behind it, up to the end of its last word.
pub open spec fn padded(data: Seq<u8>) -> Seq<u8> {
    data + Seq::new(((32 - data.len() % 32) % 32) as nat, |i: int| 0u8)
}

/// A parameter or result of type `bytes`: where its tail starts, and the tail, which is the
/// length and the padded bytes.
pub open spec fn encoded_bytes(data: Seq<u8>) -> Seq<u8> {
    word(32) + word(data.len()) + padded(data)
}

/// The parameters of `onBlockStart`. The list stands behind the three words of the head.
pub open spec fn encoded_block_start(
    proposer_index: u64,
    failed_proposer_indices: Seq<u64>,
    timestamp_micros: u64,
) -> Seq<u8> {
    word(proposer_index as nat) + word(96) + word(timestamp_micros as nat) + word(
        failed_proposer_indices.len(),
    ) + words(failed_proposer_indices)
}

/// The integer in the word that starts at `offset`, if `data` reaches that far.
pub open spec fn word_at(data: Seq<u8>, offset: nat) -> Option<nat> {
    if offset + 32 <= data.len() {
        Some(be_value(data.subrange(offset as int, offset as int + 32)))
    } else {
        None
    }
}

/// What a result of type `bytes` holds: the first word says where to find the length, and the
/// bytes stand behind the length. `None` if any of them lies outside `data`.
pub open spec fn returned_bytes(data: Seq<u8>) -> Option<Seq<u8>> {
    match word_at(data, 0) {
        Some(offset) => match word_at(data, offset) {
            Some(len) => if offset + 32 + len <= data.len() {
                Some(data.subrange(offset as int + 32, offset as int + 32 + len as int))
            } else {
                None
            },
            None => None,
        },
        None => None,
    }
}

/// What a randomness configuration as a result holds: the variant and the three thresholds,
/// a word each, of which the leading bytes do not count. `None` if `data` is too short.
pub open spec fn returned_config(data: Seq<u8>) -> Option<(u8, (u128, u128, u128))> {
    if data.len() < 128 {
        None
    } else {
        Some(
            (
                data[31],
                (
                    be_value(data.subrange(48, 64)) as u128,
                    be_value(data.subrange(80, 96)) as u128,
                    be_value(data.subrange(112, 128)) as u128,
                ),
            ),
        )
    }
}

/// The bytes of `b`, if there are any.
pub open spec fn bytes_of(b: Option<Vec<u8>>) -> Option<Seq<u8>> {
    match b {
        Some(bytes) => Some(bytes@),
        None => None,
    }
}

/// `SolType::abi_encode_sequence` on one parameter of type `bytes`.
#[verifier::external_body]
pub(crate) fn encode_bytes(data: &Vec<u8>) -> (r: Vec<u8>)
    ensures
        r@ == encoded_bytes(data@),
{
    <(sol_data::Bytes,)>::abi_encode_sequence(&(data.as_slice(),))
}

/// `SolType::abi_encode_sequence` on parameters of types `uint64`, `uint64[]` and `uint64`.
#[verifier::external_body]
pub(crate) fn encode_block_start(
    proposer_index: u64,
    failed_proposer_indices: &Vec<u64>,
    timestamp_micros: u64,
) -> (r: Vec<u8>)
    ensures
        r@ == encoded_block_start(proposer_index, failed_proposer_indices@, timestamp_micros),
{
    <(sol_data::Uint<64>, sol_data::Array<sol_data::Uint<64>>, sol_data::Uint<64>)>::abi_encode_sequence(
        &(proposer_index, failed_proposer_indices.as_slice(), timestamp_micros),
    )
}

/// `SolType::abi_decode_sequence` on one result of type `bytes`. It follows the offset and the
/// length wherever they point inside the data, and does not look at the padding.
#[verifier::external_body]
pub(crate) fn decode_bytes(data: &Vec<u8>) -> (r: Option<Vec<u8>>)
    ensures
        bytes_of(r) == returned_bytes(data@),
{
    <(sol_data::Bytes,)>::abi_decode_sequence(data).ok().map(|r| r.0.to_vec())
}

/// `SolType::abi_decode_sequence` on a randomness configuration: an enum, which is a `uint8`,
/// and a struct of three `uint128`. All of them stand in the head. It takes the trailing bytes
/// of each word and lets the leading ones be what they are.
#[verifier::external_body]
pub(crate) fn decode_config(data: &Vec<u8>) -> (r: Option<(u8, (u128, u128, u128))>)
    ensures
        r == returned_config(data@),
{
    <((
        sol_data::Uint<8>,
        (sol_data::Uint<128>, sol_data::Uint<128>, sol_data::Uint<128>),
    ),)>::abi_decode_sequence(data).ok().map(|r| r.0)
}

/// The call data of the function that `selector` selects, without parameters.
pub(crate) fn selector_only(selector: [u8; 4]) -> (r: Vec<u8>)
    ensures
        r@ == selector@,
{
    let mut r: Vec<u8> = Vec::with_capacity(4);
    r.push(selector[0]);
    r.push(selector[1]);
    r.push(selector[2]);
    r.push(selector[3]);
    assert(r@ =~= selector@);
    r
}

/// The call data of the function that `selector` selects, with these encoded parameters.
pub(crate) fn call_data(selector: [u8; 4], params: &Vec<u8>) -> (r: Vec<u8>)
    ensures
        r@ == selector@ + params@,
{
    let mut r = selector_only(selector);
    let mut i: usize = 0;
    while i < params.len()
        invariant
            i <= params.len(),
            r@ =~= selector@ + params@.take(i as int),
        decreases params.len() - i,
    {
        r.push(params[i]);
        i += 1;
        assert(r@ =~= selector@ + params@.take(i as int));
    }
    assert(params@.take(params.len() as int) =~= params@);
    r
}

proof fn lemma_be_bytes_len(n: nat, len: nat)
    ensures
        be_bytes(n, len).len() == len,
    decreases len,
{
    if len > 0 {
        lemma_be_bytes_len(n / 256, (len - 1) as nat);
    }
}

/// A word gives back the number it was made from, if the number fits into a 64-bit integer.
pub proof fn law_word_reads_back(n: u64)
    ensures
        word(n as nat).len() == 32,
        be_value(word(n as nat)) == n,
{
    lemma_be_bytes_len(n as nat, 32);
    lemma_be_value(n as nat, 32);
    assert(n < vstd::arithmetic::power::pow(256, 32)) by {
        assert(n < vstd::arithmetic::power::pow(256, 8)) by {
            reveal_with_fuel(vstd::arithmetic::power::pow, 9);
        }
        vstd::arithmetic::power::lemma_pow_increases(256, 8, 32);
    }
}

proof fn lemma_be_value(n: nat, len: nat)
    ensures
        n < vstd::arithmetic::power::pow(256, len) ==> be_value(be_bytes(n, len)) == n,
    decreases len,
{
    reveal(vstd::arithmetic::power::pow);
    if len > 0 {
        let front = be_bytes(n / 256, (len - 1) as nat);
        lemma_be_value(n / 256, (len - 1) as nat);
        assert(be_bytes(n, len).drop_last() =~= front);
        assert(be_bytes(n, len).last() == (n % 256) as u8);
        let p = vstd::arithmetic::power::pow(256, (len - 1) as nat);
        assert(vstd::arithmetic::power::pow(256, len) == 256 * p);
        assert(n < 256 * p ==> n / 256 < p);
    }
}

/// Bytes are what is written for the number that they stand for.
proof fn lemma_be_bytes(bytes: Seq<u8>)
    ensures
        be_bytes(be_value(bytes), bytes.len()) == bytes,
    decreases bytes.len(),
{
    if bytes.len() > 0 {
        lemma_be_bytes(bytes.drop_last());
        let n = be_value(bytes);
        assert(n / 256 == be_value(bytes.drop_last()));
        assert(n % 256 == bytes.last() as nat);
        assert(be_bytes(n, bytes.len()) =~= bytes);
    } else {
        assert(be_bytes(be_value(bytes), 0) =~= bytes);
    }
}

/// 32 bytes are the word of a 256-bit integer exactly if they stand for it, the most
/// significant byte first.
pub proof fn law_word_is_its_value(bytes: Seq<u8>, n: nat)
    requires
        bytes.len() == 32,
        n < 0x1_0000_0000_0000_0000_0000_0000_0000_0000_0000_0000_0000_0000_0000_0000_0000_0000nat,
    ensures
        bytes == word(n) <==> be_value(bytes) == n,
{
    lemma_be_bytes(bytes);
    lemma_be_value(n, 32);
    assert(vstd::arithmetic::power::pow(256, 32)
        == 0x1_0000_0000_0000_0000_0000_0000_0000_0000_0000_0000_0000_0000_0000_0000_0000_0000nat) by {
        reveal_with_fuel(vstd::arithmetic::power::pow, 33);
    }
}

/// The parameters of `onBlockStart` hold the proposer in the first word and the timestamp in the
/// third. The second says that the list starts at the fourth, which holds its length.
pub proof fn law_block_start_reads_back(
    proposer_index: u64,
    failed_proposer_indices: Seq<u64>,
    timestamp_micros: u64,
)
    requires
        failed_proposer_indices.len() <= u64::MAX,
    ensures
        ({
            let params = encoded_block_start(
                proposer_index,
                failed_proposer_indices,
                timestamp_micros,
            );
            &&& word_at(params, 0) == Some(proposer_index as nat)
            &&& word_at(params, 32) == Some(96nat)
            &&& word_at(params, 64) == Some(timestamp_micros as nat)
            &&& word_at(params, 96) == Some(failed_proposer_indices.len())
            &&& failed_proposer_indices.len() == 0 ==> params.len() == 128
        }),
{
    let params = encoded_block_start(proposer_index, failed_proposer_indices, timestamp_micros);
    law_word_reads_back(proposer_index);
    law_word_reads_back(96);
    law_word_reads_back(timestamp_micros);
    law_word_reads_back(failed_proposer_indices.len() as u64);
    assert(params.subrange(0, 32) =~= word(proposer_index as nat));
    assert(params.subrange(32, 64) =~= word(96));
    assert(params.subrange(64, 96) =~= word(timestamp_micros as nat));
    assert(params.subrange(96, 128) =~= word(failed_proposer_indices.len()));
}

/// What a contract returns as `bytes` is what is read out of its encoding.
pub proof fn law_bytes_read_back(data: Seq<u8>)
    requires
        data.len() <= u64::MAX,
    ensures
        returned_bytes(encoded_bytes(data)) == Some(data),
{
    let encoded = encoded_bytes(data);
    law_word_reads_back(32);
    law_word_reads_back(data.len() as u64);
    assert(encoded.subrange(0, 32) =~= word(32));
    assert(encoded.subrange(32, 64) =~= word(data.len()));
    assert(encoded.subrange(64, 64 + data.len() as int) =~= data);
}

} // verus!
