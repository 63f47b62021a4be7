//! The attestation record, the write parameters, and the record's fixed
//! 116-byte persisted layout.

use vstd::prelude::*;
use vstd::bytes::{spec_u16_to_le_bytes, spec_u64_to_le_bytes, u16_to_le_bytes, u64_to_le_bytes};
use crate::classification::{classification_from_byte, spec_classification_from_byte, Classification};

verus! {

/// Total persisted size of a record: an 8-byte type tag, two 32-byte
/// hashes, one classification byte, a 2-byte confidence, an 8-byte
/// timestamp, a 32-byte authority key and one derivation proof byte.
pub const ATTESTATION_SIZE: usize = 8 + 32 + 32 + 1 + 2 + 8 + 32 + 1;

/// A persisted attestation record. It is created exactly once per derived
/// address and never mutated afterwards.
#[derive(Clone, Copy, PartialEq, Eq, Debug)]
pub struct SignalAttestation {
    /// SHA-256 digest of the full signal payload, as the caller supplied it.
    pub signal_hash: [u8; 32],
    /// SHA-256 digest of the market identifier; hashing keeps the stored
    /// subject fixed-length.
    pub market_id_hash: [u8; 32],
    /// One-byte classification code.
    pub classification: u8,
    /// Confidence scaled to basis points, where 10000 stands for 1.0.
    pub confidence_bps: u16,
    /// Unix timestamp in seconds when the signal was scored, caller-supplied.
    pub timestamp: i64,
    /// The verified signer that wrote this record; never caller input.
    pub authority: [u8; 32],
    /// Proof byte of the address derivation, kept so the record's address
    /// can be re-derived later without a search.
    pub bump: u8,
}

/// Caller-supplied parameters of one `record_signal` call.
#[derive(Clone, Copy, Debug)]
pub struct RecordSignalParams {
    pub signal_hash: [u8; 32],
    pub market_id_hash: [u8; 32],
    /// Subject hash used for address derivation, and only for that.
    pub movement_id_hash: [u8; 32],
    pub classification: u8,
    pub confidence_bps: u16,
    pub timestamp: i64,
}

impl SignalAttestation {
    /// The decoded classification of this record; nothing when the byte is
    /// not a known code.
    pub fn classification_variant(&self) -> (r: Option<Classification>)
        ensures
            r == spec_classification_from_byte(self.classification),
            record_well_formed(*self) ==> r is Some,
    {
        classification_from_byte(self.classification)
    }
}

/// A record is well formed when its classification byte decodes to a known
/// variant and its confidence lies within basis-point range.
pub open spec fn record_well_formed(rec: SignalAttestation) -> bool {
    &&& spec_classification_from_byte(rec.classification) is Some
    &&& rec.confidence_bps <= 10000
}

/// The SHA-256 digest of a byte sequence, named: the digest is a function
/// of the input bytes alone.
pub uninterp spec fn sha256_of(data: Seq<u8>) -> Seq<u8>;

/// Relies on solana_program::hash::hash: returns the 32-byte SHA-256
/// digest of the input bytes.
#[verifier::external_body]
fn sha256_digest(data: &[u8]) -> (r: [u8; 32])
    ensures
        r@ == sha256_of(data@),
{
    solana_program::hash::hash(data).to_bytes()
}

/// The namespaced name of the record type, `account:SignalAttestation` in
/// ASCII bytes; the leading type tag of every record is derived from it.
pub open spec fn record_tag_preimage() -> Seq<u8> {
    seq![
        97u8, 99, 99, 111, 117, 110, 116, 58,
        83, 105, 103, 110, 97, 108, 65, 116, 116, 101, 115, 116, 97, 116, 105, 111, 110,
    ]
}

/// The 8-byte type tag that leads every persisted record: the first eight
/// bytes of the digest of the namespaced record type name.
pub open spec fn record_type_tag() -> Seq<u8> {
    sha256_of(record_tag_preimage()).take(8)
}

/// The persisted form of a record: type tag, signal hash, market hash,
/// classification byte, little-endian confidence, little-endian two's
/// complement timestamp, authority key, derivation proof byte. Field and
/// byte order are a wire contract.
pub open spec fn spec_serialize_record(rec: SignalAttestation) -> Seq<u8> {
    record_type_tag() + rec.signal_hash@ + rec.market_id_hash@ + seq![rec.classification]
        + spec_u16_to_le_bytes(rec.confidence_bps) + spec_u64_to_le_bytes(rec.timestamp as u64)
        + rec.authority@ + seq![rec.bump]
}

/// The namespaced record type name as bytes.
fn record_tag_preimage_bytes() -> (v: Vec<u8>)
    ensures
        v@ == record_tag_preimage(),
{
    let mut v: Vec<u8> = Vec::new();
    v.push(97);
    v.push(99);
    v.push(99);
    v.push(111);
    v.push(117);
    v.push(110);
    v.push(116);
    v.push(58);
    v.push(83);
    v.push(105);
    v.push(103);
    v.push(110);
    v.push(97);
    v.push(108);
    v.push(65);
    v.push(116);
    v.push(116);
    v.push(101);
    v.push(115);
    v.push(116);
    v.push(97);
    v.push(116);
    v.push(105);
    v.push(111);
    v.push(110);
    proof {
        assert(v@ =~= record_tag_preimage());
    }
    v
}

/// Append a byte slice to a byte vector.
fn push_bytes(out: &mut Vec<u8>, data: &[u8])
    ensures
        final(out)@ == old(out)@ + data@,
{
    let mut i: usize = 0;
    while i < data.len()
        invariant
            i <= data.len(),
            out@ == old(out)@ + data@.take(i as int),
        decreases data.len() - i,
    {
        out.push(data[i]);
        proof {
            assert(out@ =~= old(out)@ + data@.take(i + 1));
        }
        i = i + 1;
    }
    proof {
        assert(old(out)@ + data@.take(data@.len() as int) =~= old(out)@ + data@);
    }
}

/// Serialize a record into its persisted form, which is exactly
/// `ATTESTATION_SIZE` bytes for every record, independent of field values.
pub fn serialize_record(rec: &SignalAttestation) -> (out: Vec<u8>)
    ensures
        out@ == spec_serialize_record(*rec),
        out@.len() == ATTESTATION_SIZE,
{
    let preimage = record_tag_preimage_bytes();
    let digest = sha256_digest(preimage.as_slice());
    let mut out: Vec<u8> = Vec::new();
    let mut i: usize = 0;
    while i < 8
        invariant
            i <= 8,
            digest@ == sha256_of(record_tag_preimage()),
            out@ == digest@.take(i as int),
        decreases 8 - i,
    {
        out.push(digest[i]);
        proof {
            assert(out@ =~= digest@.take(i + 1));
        }
        i = i + 1;
    }
    push_bytes(&mut out, rec.signal_hash.as_slice());
    push_bytes(&mut out, rec.market_id_hash.as_slice());
    out.push(rec.classification);
    let conf = u16_to_le_bytes(rec.confidence_bps);
    push_bytes(&mut out, conf.as_slice());
    let ts = u64_to_le_bytes(#[verifier::truncate] (rec.timestamp as u64));
    push_bytes(&mut out, ts.as_slice());
    push_bytes(&mut out, rec.authority.as_slice());
    out.push(rec.bump);
    proof {
        vstd::bytes::lemma_auto_spec_u16_to_from_le_bytes();
        vstd::bytes::lemma_auto_spec_u64_to_from_le_bytes();
        assert(out@ =~= spec_serialize_record(*rec));
    }
    out
}

} // verus!
