//! Keccak-256 and the digest that the signer signs.

use vstd::prelude::*;

verus! {

/// Length in bytes of a Keccak-256 hash.
pub const HASH_LEN: usize = 32;

/// The Keccak-256 hash of `data`, as computed by `alloy_primitives::keccak256`.
///
/// The hash is a function of the input bytes alone. Nothing else is assumed of
/// it: in particular no contract in this crate rests on collision resistance.
pub uninterp spec fn keccak256_spec(data: Seq<u8>) -> Seq<u8>;

/// Calls `alloy_primitives::keccak256` on `data` and hands out the 32 bytes of
/// the hash. The contract says only that this is the hash named by
/// [`keccak256_spec`]; it is not proved.
#[verifier::external_body]
pub(crate) fn keccak256(data: &[u8]) -> (hash: [u8; 32])
    ensures
        hash@ == keccak256_spec(data@),
{
    alloy_primitives::keccak256(data).0
}

/// The message that is hashed into the digest: the verifying key followed by
/// the public values.
pub open spec fn digest_preimage(vkey: Seq<u8>, public_values: Seq<u8>) -> Seq<u8> {
    vkey + public_values
}

/// The digest of a verifying key and public values: the Keccak-256 hash of
/// their concatenation.
pub open spec fn digest_spec(vkey: Seq<u8>, public_values: Seq<u8>) -> Seq<u8> {
    keccak256_spec(digest_preimage(vkey, public_values))
}

/// Computes the digest that the signer signs: `keccak256(vkey ‖ public_values)`.
pub fn digest(vkey: &[u8; 32], public_values: &[u8]) -> (out: [u8; 32])
    ensures
        out@ == digest_spec(vkey@, public_values@),
{
    let mut message: Vec<u8> = Vec::new();
    message.extend_from_slice(vkey.as_slice());
    message.extend_from_slice(public_values);
    assert(message@ =~= digest_preimage(vkey@, public_values@));
    keccak256(message.as_slice())
}

/// The digest is a function of the verifying key and the public values alone:
/// the same two values always give the same digest.
pub proof fn lemma_digest_is_deterministic(
    vkey_a: Seq<u8>,
    public_values_a: Seq<u8>,
    vkey_b: Seq<u8>,
    public_values_b: Seq<u8>,
)
    requires
        vkey_a == vkey_b,
        public_values_a == public_values_b,
    ensures
        digest_spec(vkey_a, public_values_a) == digest_spec(vkey_b, public_values_b),
{
}

} // verus!
