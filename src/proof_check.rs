use vstd::prelude::*;

verus! {

/// The shortest proof blob that can be accepted.
pub const MIN_PROOF_LEN: usize = 132;

/// Byte `i` of `blob`, or zero where the blob is too short.
pub open spec fn byte_at(blob: Seq<u8>, i: int) -> u8 {
    if 0 <= i < blob.len() { blob[i] } else { 0 }
}

/// The big-endian 32-bit integer made of bytes `i .. i + 4` of `blob`.
pub open spec fn be_u32_at(blob: Seq<u8>, i: int) -> int {
    byte_at(blob, i) as int * 0x1000000 + byte_at(blob, i + 1) as int * 0x10000
        + byte_at(blob, i + 2) as int * 0x100 + byte_at(blob, i + 3) as int
}

/// Whether a proof blob backs the claim that `number` was committed as `commitment`.
pub open spec fn proof_accepts(commitment: Seq<u8>, number: u32, blob: Seq<u8>) -> bool {
    &&& blob.len() >= MIN_PROOF_LEN
    &&& be_u32_at(blob, 0) == 2
    &&& forall|k: int| 0 <= k < 32 ==> #[trigger] byte_at(blob, 4 + k) == commitment[k]
    &&& be_u32_at(blob, 64) == number as int
}

fn get_or_zero(blob: &Vec<u8>, i: usize) -> (r: u8)
    ensures
        r == byte_at(blob@, i as int),
{
    if i < blob.len() { blob[i] } else { 0 }
}

fn read_be_u32(blob: &Vec<u8>, i: usize) -> (r: u32)
    requires
        i <= usize::MAX - 4,
    ensures
        r as int == be_u32_at(blob@, i as int),
{
    let b0 = get_or_zero(blob, i) as u32;
    let b1 = get_or_zero(blob, i + 1) as u32;
    let b2 = get_or_zero(blob, i + 2) as u32;
    let b3 = get_or_zero(blob, i + 3) as u32;
    let r = (b0 << 24u32) | (b1 << 16u32) | (b2 << 8u32) | b3;
    assert(r == b0 * 0x1000000 + b1 * 0x10000 + b2 * 0x100 + b3) by (bit_vector)
        requires
            b0 < 256, b1 < 256, b2 < 256, b3 < 256,
            r == (b0 << 24u32) | (b1 << 16u32) | (b2 << 8u32) | b3,
    ;
    r
}

/// Checks a revealed number against a stored commitment by the fixed layout
/// of the proof blob: an input count of 2 in bytes 0..4, the commitment in
/// bytes 4..36 and the number in bytes 64..68, all big-endian, in a blob of at
/// least 132 bytes. Bytes past 68 are not read.
pub fn verify_proof(stored_commitment: &[u8; 32], number: u32, proof_blob: &Vec<u8>) -> (r: bool)
    ensures
        r == proof_accepts(stored_commitment@, number, proof_blob@),
{
    if proof_blob.len() < MIN_PROOF_LEN {
        return false;
    }
    let num_inputs = read_be_u32(proof_blob, 0);
    if num_inputs != 2 {
        return false;
    }
    let mut i: usize = 0;
    while i < 32
        invariant
            i <= 32,
            forall|k: int| 0 <= k < i ==> #[trigger] byte_at(proof_blob@, 4 + k) == stored_commitment@[k],
        decreases 32 - i,
    {
        if get_or_zero(proof_blob, 4 + i) != stored_commitment[i] {
            assert(byte_at(proof_blob@, 4 + i as int) != stored_commitment@[i as int]);
            return false;
        }
        i = i + 1;
    }
    let proof_number = read_be_u32(proof_blob, 64);
    proof_number == number
}

/// A blob shorter than the minimum length is never accepted.
pub proof fn lemma_short_blob_rejected(commitment: Seq<u8>, number: u32, blob: Seq<u8>)
    requires
        blob.len() < MIN_PROOF_LEN,
    ensures
        !proof_accepts(commitment, number, blob),
{
}

/// A blob whose bytes 4..36 differ from the stored commitment is never accepted.
pub proof fn lemma_commitment_mismatch_rejected(commitment: Seq<u8>, number: u32, blob: Seq<u8>)
    requires
        commitment.len() == 32,
        blob.len() >= MIN_PROOF_LEN,
        blob.subrange(4, 36) != commitment,
    ensures
        !proof_accepts(commitment, number, blob),
{
    if proof_accepts(commitment, number, blob) {
        assert forall|k: int| 0 <= k < 32 implies blob.subrange(4, 36)[k] == commitment[k] by {
            assert(byte_at(blob, 4 + k) == commitment[k]);
        }
        assert(blob.subrange(4, 36) =~= commitment);
    }
}

/// A blob whose bytes 64..68 do not read as the claimed number is never accepted.
pub proof fn lemma_number_mismatch_rejected(commitment: Seq<u8>, number: u32, blob: Seq<u8>)
    requires
        be_u32_at(blob, 64) != number as int,
    ensures
        !proof_accepts(commitment, number, blob),
{
}

/// A blob of the minimum length or more, with an input count of 2, the
/// stored commitment and the claimed number in place, is accepted; so what
/// follows byte 68 never changes the verdict.
pub proof fn lemma_layout_accepted(commitment: Seq<u8>, number: u32, blob: Seq<u8>, other: Seq<u8>)
    requires
        commitment.len() == 32,
        blob.len() >= MIN_PROOF_LEN,
        other.len() >= MIN_PROOF_LEN,
        blob.subrange(0, 68) == other.subrange(0, 68),
    ensures
        (be_u32_at(blob, 0) == 2 && blob.subrange(4, 36) == commitment && be_u32_at(blob, 64)
            == number as int) ==> proof_accepts(commitment, number, blob),
        proof_accepts(commitment, number, blob) == proof_accepts(commitment, number, other),
{
    assert forall|i: int| 0 <= i < 68 implies byte_at(blob, i) == byte_at(other, i) by {
        assert(blob.subrange(0, 68)[i] == blob[i]);
        assert(other.subrange(0, 68)[i] == other[i]);
    }
    if blob.subrange(4, 36) == commitment {
        assert forall|k: int| 0 <= k < 32 implies #[trigger] byte_at(blob, 4 + k) == commitment[k] by {
            assert(blob.subrange(4, 36)[k] == blob[4 + k]);
        }
    }
    assert(be_u32_at(blob, 0) == be_u32_at(other, 0));
    assert(be_u32_at(blob, 64) == be_u32_at(other, 64));
    if proof_accepts(commitment, number, blob) {
        assert forall|k: int| 0 <= k < 32 implies #[trigger] byte_at(other, 4 + k) == commitment[k] by {
            assert(byte_at(blob, 4 + k) == commitment[k]);
        }
    }
    if proof_accepts(commitment, number, other) {
        assert forall|k: int| 0 <= k < 32 implies #[trigger] byte_at(blob, 4 + k) == commitment[k] by {
            assert(byte_at(other, 4 + k) == commitment[k]);
        }
    }
}

} // verus!
