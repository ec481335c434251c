//! The check of a response against a trusted signer.
//!
//! The signer signs the digest of the verifying key and the public values. A
//! response is authentic when the address recovered from its signature, its
//! recovery id and that digest is the address that the caller trusts.

use vstd::prelude::*;
use crate::api::{response_prefix_spec, ResponseView, TEEResponse, ADDRESS_LEN, PREFIX_LEN};
use crate::error::TEEError;
use crate::hash::{digest, digest_spec, keccak256, keccak256_spec, HASH_LEN};
use crate::scalar::scalar_in_range;

verus! {

/// The largest recovery id that a response may carry.
pub const MAX_RECOVERY_ID: u8 = 1;

/// The public key that k256's `VerifyingKey::recover_from_prehash` recovers
/// from a prehash, the scalars `r` and `s` of a signature and a recovery id, as
/// the 64 bytes of its affine coordinates `x` and `y`, or `None` where it
/// recovers no key.
///
/// The key is a function of these four values alone. Nothing else is assumed
/// of it.
pub uninterp spec fn ecdsa_recover_spec(
    prehash: Seq<u8>,
    r: Seq<u8>,
    s: Seq<u8>,
    recovery_id: u8,
) -> Option<Seq<u8>>;

/// Recovers a public key with k256's `VerifyingKey::recover_from_prehash`.
///
/// The caller has checked that the curve admits the scalars and that the
/// recovery id is 0 or 1, which is what `Signature::from_scalars` and
/// `RecoveryId::from_byte` ask of them to make the signature and the recovery
/// id that the call takes. The key comes back through
/// `VerifyingKey::to_encoded_point`, uncompressed and without its leading tag
/// byte. The contract says only that the outcome is the one named by
/// [`ecdsa_recover_spec`]; it is not proved.
#[verifier::external_body]
pub(crate) fn ecdsa_recover(prehash: &[u8; 32], r: &[u8; 32], s: &[u8; 32], recovery_id: u8) -> (key:
    Option<[u8; 64]>)
    requires
        scalar_in_range(r@),
        scalar_in_range(s@),
        recovery_id <= MAX_RECOVERY_ID,
    ensures
        key is Some <==> ecdsa_recover_spec(prehash@, r@, s@, recovery_id) is Some,
        key matches Some(k) ==> ecdsa_recover_spec(prehash@, r@, s@, recovery_id) == Some(k@),
{
    let signature = k256::ecdsa::Signature::from_scalars(*r, *s).ok()?;
    let id = k256::ecdsa::RecoveryId::from_byte(recovery_id)?;
    let key = k256::ecdsa::VerifyingKey::recover_from_prehash(prehash, &signature, id).ok()?;
    let point = key.to_encoded_point(false);
    point.as_bytes()[1..].try_into().ok()
}

/// The address that belongs to a hash of a public key: its last twenty bytes.
pub open spec fn address_from_hash_spec(hash: Seq<u8>) -> Seq<u8> {
    hash.subrange(HASH_LEN - ADDRESS_LEN, HASH_LEN as int)
}

/// The address of a public key given as its two affine coordinates: the last
/// twenty bytes of the Keccak-256 hash of the key.
pub open spec fn address_of_key_spec(key: Seq<u8>) -> Seq<u8> {
    address_from_hash_spec(keccak256_spec(key))
}

/// The signer of a response: the address of the key recovered from the digest
/// of the response, its signature and its recovery id. There is none where the
/// recovery id is neither 0 nor 1, where a scalar of the signature is zero or
/// not below the order of the group, or where no key is recovered.
pub open spec fn signer_spec(response: ResponseView) -> Option<Seq<u8>> {
    if response.recovery_id > MAX_RECOVERY_ID || !response.signature.is_valid() {
        None
    } else {
        match ecdsa_recover_spec(
            digest_spec(response.vkey, response.public_values),
            response.signature.r,
            response.signature.s,
            response.recovery_id,
        ) {
            Some(key) => Some(address_of_key_spec(key)),
            None => None,
        }
    }
}

/// A recovered signer as the bytes of its address.
pub open spec fn signer_view(signer: Option<[u8; 20]>) -> Option<Seq<u8>> {
    match signer {
        Some(address) => Some(address@),
        None => None,
    }
}

/// What checking a recovered signer against the trusted one gives: a failed
/// recovery is a `SignatureRecoveryFailure`, another address than the trusted
/// one an `AddressMismatch`, and the trusted address a success.
pub open spec fn check_signer_spec(signer: Option<Seq<u8>>, trusted: Seq<u8>) -> Result<
    (),
    TEEError,
> {
    match signer {
        None => Err(TEEError::SignatureRecoveryFailure),
        Some(address) => if address == trusted {
            Ok(())
        } else {
            Err(TEEError::AddressMismatch)
        },
    }
}

/// What verifying a response against a trusted signer gives.
pub open spec fn verify_spec(response: ResponseView, trusted: Seq<u8>) -> Result<(), TEEError> {
    check_signer_spec(signer_spec(response), trusted)
}

/// Takes the address out of the hash of a public key: its last twenty bytes.
pub fn address_from_hash(hash: &[u8; 32]) -> (address: [u8; 20])
    ensures
        address@ == address_from_hash_spec(hash@),
{
    let mut address: [u8; 20] = [0u8; 20];
    let mut i: usize = 0;
    while i < 20
        invariant
            i <= 20,
            forall|j: int| 0 <= j < i ==> address@[j] == hash@[12 + j],
        decreases 20 - i,
    {
        address[i] = hash[12 + i];
        i += 1;
    }
    assert(address@ =~= address_from_hash_spec(hash@));
    address
}

/// Derives the address of a public key given as its two affine coordinates.
pub fn address_of_key(key: &[u8; 64]) -> (address: [u8; 20])
    ensures
        address@ == address_of_key_spec(key@),
{
    let hash = keccak256(key.as_slice());
    address_from_hash(&hash)
}

/// Whether two addresses are the same twenty bytes.
pub fn same_address(a: &[u8; 20], b: &[u8; 20]) -> (same: bool)
    ensures
        same == (a@ == b@),
{
    let mut i: usize = 0;
    while i < 20
        invariant
            i <= 20,
            forall|j: int| 0 <= j < i ==> a@[j] == b@[j],
        decreases 20 - i,
    {
        if a[i] != b[i] {
            return false;
        }
        i += 1;
    }
    assert(a@ =~= b@);
    true
}

/// Checks a recovered signer against the trusted one.
///
/// `signer` is what the recovery gave: `None` where it failed.
pub fn check_signer(signer: Option<[u8; 20]>, trusted: &[u8; 20]) -> (res: Result<(), TEEError>)
    ensures
        res == check_signer_spec(signer_view(signer), trusted@),
{
    match signer {
        None => Err(TEEError::SignatureRecoveryFailure),
        Some(address) => {
            if same_address(&address, trusted) {
                Ok(())
            } else {
                Err(TEEError::AddressMismatch)
            }
        },
    }
}

impl TEEResponse {
    /// The digest that the signer signed: `keccak256(vkey ‖ public_values)`.
    pub fn digest(&self) -> (out: [u8; 32])
        ensures
            out@ == digest_spec(self@.vkey, self@.public_values),
    {
        digest(&self.vkey, self.public_values.as_slice())
    }

    /// Recovers the address of the signer of this response.
    ///
    /// Fails with [`TEEError::SignatureRecoveryFailure`] where the recovery id
    /// is neither 0 nor 1, where the curve does not admit the signature, or
    /// where no key is recovered from it, and in no other way.
    pub fn recover_signer(&self) -> (res: Result<[u8; 20], TEEError>)
        ensures
            res matches Ok(address) ==> signer_spec(self@) == Some(address@),
            res is Err ==> signer_spec(self@) is None,
            res matches Err(e) ==> e == TEEError::SignatureRecoveryFailure,
    {
        if self.recovery_id > MAX_RECOVERY_ID || !self.signature.is_valid() {
            return Err(TEEError::SignatureRecoveryFailure);
        }
        let prehash = self.digest();
        match ecdsa_recover(&prehash, &self.signature.r, &self.signature.s, self.recovery_id) {
            Some(key) => Ok(address_of_key(&key)),
            None => Err(TEEError::SignatureRecoveryFailure),
        }
    }

    /// Verifies this response against the address of the trusted signer.
    ///
    /// Succeeds exactly where a signer is recovered and it is the trusted one.
    /// Fails with [`TEEError::SignatureRecoveryFailure`] where none is
    /// recovered, and with [`TEEError::AddressMismatch`] where another is.
    /// The response is not changed.
    pub fn verify(&self, trusted_signer: &[u8; 20]) -> (res: Result<(), TEEError>)
        ensures
            res == verify_spec(self@, trusted_signer@),
    {
        match self.recover_signer() {
            Ok(address) => check_signer(Some(address), trusted_signer),
            Err(_) => check_signer(None, trusted_signer),
        }
    }

    /// Verifies this response and, where it is authentic, gives the bytes to
    /// prepend to the encoded proof bytes.
    ///
    /// Fails as [`TEEResponse::verify`] does, and then gives no bytes.
    pub fn verified_prefix(&self, trusted_signer: &[u8; 20]) -> (res: Result<Vec<u8>, TEEError>)
        ensures
            res is Ok <==> verify_spec(self@, trusted_signer@) is Ok,
            res matches Ok(bytes) ==> bytes@ == response_prefix_spec(self@) && bytes@.len()
                == PREFIX_LEN,
            res matches Err(e) ==> verify_spec(self@, trusted_signer@) == Err::<(), TEEError>(e),
    {
        match self.verify(trusted_signer) {
            Ok(()) => Ok(self.as_prefix_bytes()),
            Err(e) => Err(e),
        }
    }
}

/// A response verifies against an address exactly when that address is its
/// signer. A verification that does not succeed fails with
/// `SignatureRecoveryFailure` or with `AddressMismatch`, and with nothing else.
pub proof fn lemma_verify_outcomes(response: ResponseView, trusted: Seq<u8>)
    ensures
        verify_spec(response, trusted) is Ok <==> signer_spec(response) == Some(trusted),
        signer_spec(response) is None <==> verify_spec(response, trusted) == Err::<(), TEEError>(
            TEEError::SignatureRecoveryFailure,
        ),
        (signer_spec(response) matches Some(address) && address != trusted) <==> verify_spec(
            response,
            trusted,
        ) == Err::<(), TEEError>(TEEError::AddressMismatch),
{
}

/// Tampering never passes in silence. Take a response that verifies and
/// change its vkey, its public values, its signature or its recovery id: if
/// the signer that is then recovered is no longer the same, the changed
/// response fails with `SignatureRecoveryFailure` or with `AddressMismatch`.
pub proof fn lemma_tampering_is_reported(
    authentic: ResponseView,
    tampered: ResponseView,
    trusted: Seq<u8>,
)
    requires
        verify_spec(authentic, trusted) is Ok,
        signer_spec(tampered) != signer_spec(authentic),
    ensures
        verify_spec(tampered, trusted) == Err::<(), TEEError>(TEEError::SignatureRecoveryFailure)
            || verify_spec(tampered, trusted) == Err::<(), TEEError>(TEEError::AddressMismatch),
{
}

/// A malformed response has no signer, whatever its other fields hold and
/// whichever address is trusted: one with a recovery id other than 0 or 1, or
/// with a scalar that is zero or not below the order of the group, fails with
/// `SignatureRecoveryFailure`.
pub proof fn lemma_malformed_response_is_rejected(response: ResponseView, trusted: Seq<u8>)
    requires
        response.recovery_id > MAX_RECOVERY_ID || !scalar_in_range(response.signature.r)
            || !scalar_in_range(response.signature.s),
    ensures
        verify_spec(response, trusted) == Err::<(), TEEError>(TEEError::SignatureRecoveryFailure),
{
}

} // verus!
