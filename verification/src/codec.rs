//! The wire shape of an operation payload: an 8-byte identity tag — the
//! first 8 bytes of a SHA-256 digest of the handler's qualified name —
//! followed by the handler's parameters in little-endian fixed-width
//! encoding. Also the raw header of the introspection collaborator's
//! layout, whose first two bytes hold the operation count.

use vstd::bytes::{
    lemma_auto_spec_u64_to_from_le_bytes, spec_u16_from_le_bytes, spec_u64_from_le_bytes,
    spec_u64_to_le_bytes, u16_from_le_bytes, u64_from_le_bytes, u64_to_le_bytes,
};
use vstd::prelude::*;
use vstd::slice::slice_subrange;

verus! {

/// The SHA-256 digest of a byte sequence, named but not stated: it is a
/// function of the input alone, and only the outside hasher computes it.
pub uninterp spec fn sha256_of(input: Seq<u8>) -> Seq<u8>;

/// Relies on `anchor_lang::solana_program::hash::hash`: a SHA-256 digest,
/// 32 bytes, a function of the input bytes alone.
#[verifier::external_body]
fn sha256(input: &[u8]) -> (r: Vec<u8>)
    ensures
        r@ == sha256_of(input@),
        r@.len() == 32,
{
    anchor_lang::solana_program::hash::hash(input).to_bytes().to_vec()
}

/// The qualified name of the borrow handler, "global:borrow", as bytes.
pub open spec fn borrow_handler_name() -> Seq<u8> {
    seq![103u8, 108u8, 111u8, 98u8, 97u8, 108u8, 58u8, 98u8, 111u8, 114u8, 114u8, 111u8, 119u8]
}

/// The qualified name of the repay handler, "global:repay", as bytes.
pub open spec fn repay_handler_name() -> Seq<u8> {
    seq![103u8, 108u8, 111u8, 98u8, 97u8, 108u8, 58u8, 114u8, 101u8, 112u8, 97u8, 121u8]
}

/// The identity tag of the borrow handler: the first 8 digest bytes of its
/// qualified name.
pub open spec fn borrow_tag() -> Seq<u8> {
    Seq::new(8, |i: int| sha256_of(borrow_handler_name())[i])
}

/// The identity tag of the repay handler: the first 8 digest bytes of its
/// qualified name.
pub open spec fn repay_tag() -> Seq<u8> {
    Seq::new(8, |i: int| sha256_of(repay_handler_name())[i])
}

/// "global:borrow" as a byte vector.
fn borrow_handler_name_bytes() -> (r: Vec<u8>)
    ensures
        r@ == borrow_handler_name(),
{
    let mut v: Vec<u8> = Vec::new();
    v.push(103);
    v.push(108);
    v.push(111);
    v.push(98);
    v.push(97);
    v.push(108);
    v.push(58);
    v.push(98);
    v.push(111);
    v.push(114);
    v.push(114);
    v.push(111);
    v.push(119);
    proof {
        assert(v@ =~= borrow_handler_name());
    }
    v
}

/// "global:repay" as a byte vector.
fn repay_handler_name_bytes() -> (r: Vec<u8>)
    ensures
        r@ == repay_handler_name(),
{
    let mut v: Vec<u8> = Vec::new();
    v.push(103);
    v.push(108);
    v.push(111);
    v.push(98);
    v.push(97);
    v.push(108);
    v.push(58);
    v.push(114);
    v.push(101);
    v.push(112);
    v.push(97);
    v.push(121);
    proof {
        assert(v@ =~= repay_handler_name());
    }
    v
}

/// Recomputes the borrow handler's 8-byte identity tag.
pub fn borrow_discriminator() -> (r: Vec<u8>)
    ensures
        r@ == borrow_tag(),
        r@.len() == 8,
{
    let name = borrow_handler_name_bytes();
    let mut digest = sha256(name.as_slice());
    digest.truncate(8);
    proof {
        assert(digest@ =~= borrow_tag());
    }
    digest
}

/// Recomputes the repay handler's 8-byte identity tag.
pub fn repay_discriminator() -> (r: Vec<u8>)
    ensures
        r@ == repay_tag(),
        r@.len() == 8,
{
    let name = repay_handler_name_bytes();
    let mut digest = sha256(name.as_slice());
    digest.truncate(8);
    proof {
        assert(digest@ =~= repay_tag());
    }
    digest
}

/// A payload carrying one 64-bit amount: the handler's identity tag, then
/// the amount in little-endian bytes.
pub open spec fn payload_with_amount(tag: Seq<u8>, amount: u64) -> Seq<u8> {
    tag + spec_u64_to_le_bytes(amount)
}

/// The amount a payload carries: bytes 8 to 16, read little-endian.
pub open spec fn encoded_amount(data: Seq<u8>) -> u64 {
    spec_u64_from_le_bytes(data.subrange(8, 16))
}

/// Encodes a payload from an 8-byte identity tag and an amount.
pub fn encode_payload(tag: &Vec<u8>, amount: u64) -> (r: Vec<u8>)
    requires
        tag@.len() == 8,
    ensures
        r@ == payload_with_amount(tag@, amount),
        r@.len() == 16,
{
    let mut out: Vec<u8> = Vec::new();
    let mut i: usize = 0;
    while i < tag.len()
        invariant
            i <= tag@.len(),
            out@.len() == i,
            forall|j: int| 0 <= j < i ==> out@[j] == tag@[j],
        decreases tag@.len() - i,
    {
        out.push(tag[i]);
        i += 1;
    }
    proof {
        assert(out@ =~= tag@);
    }
    let mut le = u64_to_le_bytes(amount);
    out.append(&mut le);
    proof {
        lemma_auto_spec_u64_to_from_le_bytes();
        assert(out@ =~= payload_with_amount(tag@, amount));
    }
    out
}

/// Reads the amount out of a payload that has one: the 8 bytes after the
/// identity tag, little-endian.
pub fn decode_amount(data: &Vec<u8>) -> (r: u64)
    requires
        data@.len() >= 16,
    ensures
        r == encoded_amount(data@),
{
    let bytes = slice_subrange(data.as_slice(), 8, 16);
    u64_from_le_bytes(bytes)
}

/// Every payload gives back the amount it was encoded from: the decode of
/// bytes 8 to 16 inverts the little-endian encode, whatever the tag.
pub proof fn lemma_payload_round_trip(tag: Seq<u8>, amount: u64)
    requires
        tag.len() == 8,
    ensures
        encoded_amount(payload_with_amount(tag, amount)) == amount,
{
    lemma_auto_spec_u64_to_from_le_bytes();
    assert(payload_with_amount(tag, amount).subrange(8, 16) =~= spec_u64_to_le_bytes(amount));
}

/// Reads the operation count of the current unit from the introspection
/// collaborator's raw layout: a 2-byte little-endian value at offset 0.
pub fn operation_count_from_header(raw: &[u8]) -> (n: u16)
    requires
        raw@.len() >= 2,
    ensures
        n == spec_u16_from_le_bytes(raw@.subrange(0, 2)),
{
    let bytes = slice_subrange(raw, 0, 2);
    u16_from_le_bytes(bytes)
}

} // verus!
