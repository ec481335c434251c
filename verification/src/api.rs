//! The payloads exchanged with the TEE server, and the bytes that carry an
//! integrity proof in front of an encoded proof.

use vstd::prelude::*;
use vstd::utf8::encode_utf8;
use crate::hash::{keccak256, keccak256_spec};
use crate::scalar::{is_scalar_in_range, scalar_in_range};

verus! {

/// Length in bytes of a request id and of a verifying key.
pub const WORD_LEN: usize = 32;

/// Length in bytes of one scalar of a signature.
pub const SCALAR_LEN: usize = 32;

/// Length in bytes of a signer address.
pub const ADDRESS_LEN: usize = 20;

/// Length in bytes of the selector of the TEE verifier.
pub const SELECTOR_LEN: usize = 4;

/// Length in bytes of the prefix that carries an integrity proof: the selector,
/// the recovery id and the two scalars of the signature.
pub const PREFIX_LEN: usize = 69;

/// The string whose hash gives the selector of the TEE verifier.
pub const SELECTOR_DOMAIN: &'static str = "SP1TeeVerifier";

/// An ECDSA signature over secp256k1 as its two scalars, each big-endian.
///
/// The scalars are kept as they arrived: [`Signature::is_valid`] tells whether
/// the curve admits them, and no signer is recovered from a signature that it
/// does not admit.
#[derive(Clone, Copy, Debug, PartialEq, Eq)]
pub struct Signature {
    /// The scalar `r`.
    pub r: [u8; 32],
    /// The scalar `s`.
    pub s: [u8; 32],
}

/// The request payload for the TEE server.
///
/// Neither the program nor the stdin is looked at here: whether the program
/// can run is for the server to find out.
#[derive(Clone, Debug, PartialEq, Eq)]
pub struct TEERequest {
    /// The network request id. The caller picks it, and picks one that no
    /// other request in flight has: the streamed answer is matched by it.
    /// Nothing here enforces that.
    pub id: [u8; 32],
    /// The program to execute.
    pub program: Vec<u8>,
    /// The stdin for the program, in its serialized form.
    pub stdin: Vec<u8>,
}

/// The response payload from the TEE server.
#[derive(Clone, Debug, PartialEq, Eq)]
pub struct TEEResponse {
    /// The vkey computed by the TEE server.
    pub vkey: [u8; 32],
    /// The public values computed by the TEE server.
    pub public_values: Vec<u8>,
    /// The signature over the public values and the vkey.
    /// Computed over keccak256([`vkey` || `public_values`]).
    pub signature: Signature,
    /// The recovery id computed by the TEE server.
    pub recovery_id: u8,
}

/// The response payload from the TEE server for the `get_address` endpoint.
///
/// The address arrives over the transport like any other input. To verify a
/// response against it proves something only where the caller has reason,
/// from elsewhere, to trust it.
#[derive(Clone, Copy, Debug, PartialEq, Eq)]
pub struct GetAddressResponse {
    /// The address of the TEE signer.
    pub address: [u8; 20],
}

/// The underlying payload for the SSE event sent from the TEE server.
///
/// It ends a streamed exchange: either the request succeeded and the response
/// is here, or the server reports why the execution failed.
#[derive(Clone, Debug, PartialEq, Eq)]
pub enum EventPayload {
    /// The request was successful.
    Success(TEEResponse),
    /// The execution failed.
    Error(String),
}

/// What a [`Signature`] is: its two scalars.
pub struct SignatureView {
    pub r: Seq<u8>,
    pub s: Seq<u8>,
}

/// What a [`TEERequest`] is.
pub struct RequestView {
    pub id: Seq<u8>,
    pub program: Seq<u8>,
    pub stdin: Seq<u8>,
}

/// What a [`TEEResponse`] is.
pub struct ResponseView {
    pub vkey: Seq<u8>,
    pub public_values: Seq<u8>,
    pub signature: SignatureView,
    pub recovery_id: u8,
}

/// What an [`EventPayload`] is.
pub enum EventView {
    Success(ResponseView),
    Error(Seq<char>),
}

impl SignatureView {
    /// Both scalars have their fixed length.
    pub open spec fn wf(self) -> bool {
        self.r.len() == SCALAR_LEN && self.s.len() == SCALAR_LEN
    }

    /// The signature as 64 bytes: `r` followed by `s`.
    pub open spec fn bytes(self) -> Seq<u8> {
        self.r + self.s
    }

    /// Whether the curve admits the signature: both scalars are numbers from 1
    /// up to the order of the group, the order itself left out.
    pub open spec fn is_valid(self) -> bool {
        scalar_in_range(self.r) && scalar_in_range(self.s)
    }
}

impl RequestView {
    /// The id has its fixed length.
    pub open spec fn wf(self) -> bool {
        self.id.len() == WORD_LEN
    }
}

impl ResponseView {
    /// The fixed-size fields have their lengths.
    pub open spec fn wf(self) -> bool {
        self.vkey.len() == WORD_LEN && self.signature.wf()
    }
}

impl EventView {
    /// The payload of a success is well-formed.
    pub open spec fn wf(self) -> bool {
        match self {
            EventView::Success(response) => response.wf(),
            EventView::Error(_) => true,
        }
    }
}

impl View for Signature {
    type V = SignatureView;

    open spec fn view(&self) -> SignatureView {
        SignatureView { r: self.r@, s: self.s@ }
    }
}

impl View for TEERequest {
    type V = RequestView;

    open spec fn view(&self) -> RequestView {
        RequestView { id: self.id@, program: self.program@, stdin: self.stdin@ }
    }
}

impl View for TEEResponse {
    type V = ResponseView;

    open spec fn view(&self) -> ResponseView {
        ResponseView {
            vkey: self.vkey@,
            public_values: self.public_values@,
            signature: self.signature@,
            recovery_id: self.recovery_id,
        }
    }
}

impl View for EventPayload {
    type V = EventView;

    open spec fn view(&self) -> EventView {
        match self {
            EventPayload::Success(response) => EventView::Success(response@),
            EventPayload::Error(message) => EventView::Error(message@),
        }
    }
}

/// The bytes that are hashed into the selector: the UTF-8 encoding of
/// [`SELECTOR_DOMAIN`].
pub open spec fn selector_preimage() -> Seq<u8> {
    encode_utf8(SELECTOR_DOMAIN@)
}

/// The selector of the TEE verifier: the first four bytes of the Keccak-256
/// hash of [`SELECTOR_DOMAIN`]. It depends on no response.
pub open spec fn selector_spec() -> Seq<u8> {
    keccak256_spec(selector_preimage()).subrange(0, SELECTOR_LEN as int)
}

/// The prefix for a selector, a recovery id and a signature: the selector, the
/// recovery id in one byte, then `r` and `s`.
pub open spec fn prefix_spec(selector: Seq<u8>, recovery_id: u8, signature: SignatureView) -> Seq<
    u8,
> {
    selector + seq![recovery_id] + signature.bytes()
}

/// The prefix of a response: the one for the selector of the TEE verifier and
/// the recovery id and signature of the response. The vkey and the public
/// values have no part in it.
pub open spec fn response_prefix_spec(response: ResponseView) -> Seq<u8> {
    prefix_spec(selector_spec(), response.recovery_id, response.signature)
}

/// Takes the selector out of a hash: its first four bytes.
pub fn selector_from_hash(hash: &[u8; 32]) -> (selector: [u8; 4])
    ensures
        selector@ == hash@.subrange(0, SELECTOR_LEN as int),
{
    let selector: [u8; 4] = [hash[0], hash[1], hash[2], hash[3]];
    assert(selector@ =~= hash@.subrange(0, SELECTOR_LEN as int));
    selector
}

/// Lays out a prefix from a selector, a recovery id and a signature.
pub fn prefix_from_parts(selector: &[u8; 4], recovery_id: u8, signature: &Signature) -> (bytes:
    Vec<u8>)
    ensures
        bytes@ == prefix_spec(selector@, recovery_id, signature@),
        bytes@.len() == PREFIX_LEN,
{
    let mut bytes: Vec<u8> = Vec::new();
    // Push the selector.
    bytes.extend_from_slice(selector.as_slice());
    // Push v.
    bytes.push(recovery_id);
    // Push r and s.
    let scalars = signature.to_bytes();
    bytes.extend_from_slice(scalars.as_slice());
    assert(bytes@ =~= prefix_spec(selector@, recovery_id, signature@));
    bytes
}

impl Signature {
    /// Whether the curve admits this signature: neither scalar is zero, and
    /// both lie below the order of the group.
    pub fn is_valid(&self) -> (valid: bool)
        ensures
            valid == self@.is_valid(),
    {
        is_scalar_in_range(&self.r) && is_scalar_in_range(&self.s)
    }

    /// The signature as 64 bytes: `r` followed by `s`.
    pub fn to_bytes(&self) -> (bytes: [u8; 64])
        ensures
            bytes@ == self@.bytes(),
    {
        let mut bytes: [u8; 64] = [0u8; 64];
        let mut i: usize = 0;
        while i < 32
            invariant
                i <= 32,
                forall|j: int| 0 <= j < i ==> bytes@[j] == self.r@[j],
                forall|j: int| 0 <= j < i ==> bytes@[32 + j] == self.s@[j],
            decreases 32 - i,
        {
            bytes[i] = self.r[i];
            bytes[32 + i] = self.s[i];
            i += 1;
        }
        assert(bytes@ =~= self@.bytes());
        bytes
    }
}

impl TEEResponse {
    /// The bytes to prepend to the encoded proof bytes: the selector, the
    /// recovery id in one byte, then `r` and `s`, sixty-nine bytes in all.
    ///
    /// Nothing is checked here: verify the response before it is encoded.
    #[must_use]
    pub fn as_prefix_bytes(&self) -> (bytes: Vec<u8>)
        ensures
            bytes@ == response_prefix_spec(self@),
            bytes@.len() == PREFIX_LEN,
            bytes@.subrange(0, 4) == selector_spec(),
            bytes@[4] == self.recovery_id,
            bytes@.subrange(5, 37) == self.signature.r@,
            bytes@.subrange(37, 69) == self.signature.s@,
    {
        let selector = Self::selector();
        let bytes = prefix_from_parts(&selector, self.recovery_id, &self.signature);
        proof {
            lemma_prefix_layout(selector@, self.recovery_id, self.signature@);
        }
        bytes
    }

    /// The selector for the TEE verifier.
    pub fn selector() -> (selector: [u8; 4])
        ensures
            selector@ == selector_spec(),
    {
        let hash = keccak256(SELECTOR_DOMAIN.as_bytes());
        selector_from_hash(&hash)
    }
}

/// A prefix is sixty-nine bytes with its fields at fixed places: the selector
/// in bytes 0 to 3, the recovery id in byte 4, `r` in bytes 5 to 36 and `s` in
/// bytes 37 to 68.
pub proof fn lemma_prefix_layout(selector: Seq<u8>, recovery_id: u8, signature: SignatureView)
    requires
        selector.len() == SELECTOR_LEN,
        signature.wf(),
    ensures
        prefix_spec(selector, recovery_id, signature).len() == PREFIX_LEN,
        prefix_spec(selector, recovery_id, signature).subrange(0, 4) == selector,
        prefix_spec(selector, recovery_id, signature)[4] == recovery_id,
        prefix_spec(selector, recovery_id, signature).subrange(5, 37) == signature.r,
        prefix_spec(selector, recovery_id, signature).subrange(37, 69) == signature.s,
{
    let prefix = prefix_spec(selector, recovery_id, signature);
    assert(prefix.subrange(0, 4) =~= selector);
    assert(prefix.subrange(5, 37) =~= signature.r);
    assert(prefix.subrange(37, 69) =~= signature.s);
}

/// The selector is the same for every response, and neither the vkey nor the
/// public values reach the prefix: two prefixes differ at most
/// in the recovery id and the signature that they carry.
pub proof fn lemma_prefix_ignores_attested_values(a: ResponseView, b: ResponseView)
    requires
        a.recovery_id == b.recovery_id,
        a.signature == b.signature,
    ensures
        response_prefix_spec(a) == response_prefix_spec(b),
{
}

} // verus!
