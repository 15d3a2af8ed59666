use vstd::prelude::*;
use crate::codec::{from_hex, hex_decoded, is_hex_of, is_hex_text, lemma_hex_decoded_unique, to_hex};
use crate::error::ProxyError;
use vstd::string::StringSliceAdditionalSpecFns;

verus! {

/// A block of the upstream chain, in the upstream chain's own structure.
#[verifier::external_type_specification]
#[verifier::external_body]
pub struct ExUpstreamBlock(monero::Block);

/// Whether monero's consensus decoder reads a whole block from these bytes.
pub uninterp spec fn block_decodes(bytes: Seq<u8>) -> bool;

/// Relies on monero::consensus::encode::deserialize: decodes a block from its
/// consensus bytes, failing unless the bytes are consumed whole; whether it
/// succeeds depends on the bytes alone.
#[verifier::external_body]
fn deserialize_block(bytes: &[u8]) -> (r: Option<monero::Block>)
    ensures
        r.is_some() == block_decodes(bytes@),
{
    monero::consensus::encode::deserialize::<monero::Block>(bytes).ok()
}

/// Relies on monero::consensus::encode::serialize: the consensus bytes of a
/// block. They start with the header: three varints of at least one byte
/// each, a 32-byte previous-block hash and a 4-byte nonce.
#[verifier::external_body]
fn serialize_block(block: &monero::Block) -> (r: Vec<u8>)
    ensures
        r@.len() >= 39,
{
    monero::consensus::encode::serialize(block)
}

/// Decodes a hex block blob into an upstream block. Text that is not an even
/// run of hex digits, or bytes that are no block, give a decode failure.
pub fn decode_upstream_block(blob: &str) -> (r: Result<monero::Block, ProxyError>)
    ensures
        r is Ok <==> exists|b: Seq<u8>| hex_decoded(blob.spec_bytes(), b) && block_decodes(b),
        !is_hex_text(blob.spec_bytes()) ==> r is Err,
        r is Err ==> r == Err::<monero::Block, ProxyError>(ProxyError::Decode),
{
    match from_hex(blob) {
        None => {
            Err(ProxyError::Decode)
        },
        Some(bytes) => match deserialize_block(bytes.as_slice()) {
            Some(block) => Ok(block),
            None => {
                assert forall|b: Seq<u8>| !(hex_decoded(blob.spec_bytes(), b) && block_decodes(b)) by {
                    if hex_decoded(blob.spec_bytes(), b) {
                        lemma_hex_decoded_unique(blob.spec_bytes(), b, bytes@);
                    }
                }
                Err(ProxyError::Decode)
            },
        },
    }
}

/// The lower-case hex blob of an upstream block: two digits for each byte of
/// its consensus encoding, which holds at least the block header.
pub fn encode_upstream_block(block: &monero::Block) -> (r: String)
    ensures
        exists|bytes: Seq<u8>| bytes.len() >= 39 && is_hex_of(r@, bytes),
{
    let bytes = serialize_block(block);
    let r = to_hex(bytes.as_slice());
    assert(bytes@.len() >= 39 && is_hex_of(r@, bytes@));
    r
}

} // verus!
