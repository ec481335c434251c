//! The byte layout of each payload on the wire.
//!
//! A payload is its fields one after the other, in the order in which the
//! payload declares them. A field of fixed size is its bytes and nothing else.
//! A field of variable size is its length in bytes as eight little-endian
//! bytes, then its content. A string is the variable-size field of its UTF-8
//! encoding. An event starts with four little-endian bytes that tell its
//! variant. A payload is decoded only from bytes that are exactly its
//! encoding: bytes that are too short, too long or otherwise off give
//! [`TEEError::MalformedPayload`].

use vstd::prelude::*;
use vstd::slice::slice_to_vec;
use vstd::utf8::{
    decode_utf8, decode_utf8_encode_utf8, encode_utf8, encode_utf8_decode_utf8,
    encode_utf8_valid_utf8, valid_utf8,
};
use crate::api::{
    EventPayload, EventView, GetAddressResponse, RequestView, ResponseView, Signature,
    SignatureView, TEERequest, TEEResponse, ADDRESS_LEN, SCALAR_LEN, WORD_LEN,
};
use crate::endian::{
    le_bytes, le_value, lemma_le_bytes_len, lemma_le_bytes_of_value, lemma_le_value_bound,
    lemma_le_value_of_bytes, lemma_pow256_of_widths, put_le, read_le,
};
use crate::error::TEEError;

verus! {

/// Length in bytes of the length that precedes a field of variable size.
pub const LENGTH_LEN: usize = 8;

/// Length in bytes of the tag that starts an event.
pub const TAG_LEN: usize = 4;

/// The tag of an event that carries a response.
pub const SUCCESS_TAG: u32 = 0;

/// The tag of an event that carries the server's error message.
pub const ERROR_TAG: u32 = 1;

/// A field of variable size on the wire: the length of the content as eight
/// little-endian bytes, then the content.
pub open spec fn sized_spec(content: Seq<u8>) -> Seq<u8> {
    le_bytes(content.len(), LENGTH_LEN as nat) + content
}

/// Splits `bytes` after its first `n` bytes. There is no split where `bytes`
/// is shorter than that.
pub open spec fn split_fixed(bytes: Seq<u8>, n: nat) -> Option<(Seq<u8>, Seq<u8>)> {
    if bytes.len() >= n {
        Some((bytes.subrange(0, n as int), bytes.subrange(n as int, bytes.len() as int)))
    } else {
        None
    }
}

/// Splits `bytes` after the field of variable size that it starts with, and
/// gives the content of the field and what follows it. There is no split where
/// `bytes` is too short for the length, or for the content that the length
/// announces.
pub open spec fn split_sized(bytes: Seq<u8>) -> Option<(Seq<u8>, Seq<u8>)> {
    match split_fixed(bytes, LENGTH_LEN as nat) {
        Some((length, rest)) => split_fixed(rest, le_value(length)),
        None => None,
    }
}

/// The bytes of a request: the id, the program, the stdin.
pub open spec fn request_bytes(request: RequestView) -> Seq<u8> {
    request.id + sized_spec(request.program) + sized_spec(request.stdin)
}

/// The bytes of a response: the vkey, the public values, `r`, `s`, the
/// recovery id.
pub open spec fn response_bytes(response: ResponseView) -> Seq<u8> {
    response.vkey + sized_spec(response.public_values) + response.signature.r
        + response.signature.s + seq![response.recovery_id]
}

/// The four little-endian bytes of a tag.
pub open spec fn tag_bytes(tag: u32) -> Seq<u8> {
    le_bytes(tag as nat, TAG_LEN as nat)
}

/// The bytes of an event: the tag of its variant, then the response or the
/// message.
pub open spec fn event_bytes(event: EventView) -> Seq<u8> {
    match event {
        EventView::Success(response) => tag_bytes(SUCCESS_TAG) + response_bytes(response),
        EventView::Error(message) => tag_bytes(ERROR_TAG) + sized_spec(encode_utf8(message)),
    }
}

/// Whether the variable-size fields of a request have lengths that fit the
/// eight bytes of a length.
pub open spec fn request_fits(request: RequestView) -> bool {
    request.program.len() <= u64::MAX && request.stdin.len() <= u64::MAX
}

/// Whether the public values of a response have a length that fits the eight
/// bytes of a length.
pub open spec fn response_fits(response: ResponseView) -> bool {
    response.public_values.len() <= u64::MAX
}

/// Whether the variable-size field of an event has a length that fits the
/// eight bytes of a length.
pub open spec fn event_fits(event: EventView) -> bool {
    match event {
        EventView::Success(response) => response_fits(response),
        EventView::Error(message) => encode_utf8(message).len() <= u64::MAX,
    }
}

/// The request that `bytes` encode, if they encode one.
pub open spec fn decode_request_spec(bytes: Seq<u8>) -> Option<RequestView> {
    match split_fixed(bytes, WORD_LEN as nat) {
        Some((id, rest)) => match split_sized(rest) {
            Some((program, rest)) => match split_sized(rest) {
                Some((stdin, rest)) => if rest.len() == 0 {
                    Some(RequestView { id, program, stdin })
                } else {
                    None
                },
                None => None,
            },
            None => None,
        },
        None => None,
    }
}

/// The response that `bytes` encode, if they encode one.
pub open spec fn decode_response_spec(bytes: Seq<u8>) -> Option<ResponseView> {
    match split_fixed(bytes, WORD_LEN as nat) {
        Some((vkey, rest)) => match split_sized(rest) {
            Some((public_values, rest)) => match split_fixed(rest, SCALAR_LEN as nat) {
                Some((r, rest)) => match split_fixed(rest, SCALAR_LEN as nat) {
                    Some((s, rest)) => if rest.len() == 1 {
                        Some(
                            ResponseView {
                                vkey,
                                public_values,
                                signature: SignatureView { r, s },
                                recovery_id: rest[0],
                            },
                        )
                    } else {
                        None
                    },
                    None => None,
                },
                None => None,
            },
            None => None,
        },
        None => None,
    }
}

/// The message that `bytes` encode as the payload of an error event, if they
/// encode one: a field of variable size, with nothing after it, whose content
/// is UTF-8.
pub open spec fn decode_message_spec(bytes: Seq<u8>) -> Option<Seq<char>> {
    match split_sized(bytes) {
        Some((content, rest)) => if rest.len() == 0 && valid_utf8(content) {
            Some(decode_utf8(content))
        } else {
            None
        },
        None => None,
    }
}

/// The event that `bytes` encode, if they encode one.
pub open spec fn decode_event_spec(bytes: Seq<u8>) -> Option<EventView> {
    match split_fixed(bytes, TAG_LEN as nat) {
        Some((tag, rest)) => if le_value(tag) == SUCCESS_TAG {
            match decode_response_spec(rest) {
                Some(response) => Some(EventView::Success(response)),
                None => None,
            }
        } else if le_value(tag) == ERROR_TAG {
            match decode_message_spec(rest) {
                Some(message) => Some(EventView::Error(message)),
                None => None,
            }
        } else {
            None
        },
        None => None,
    }
}

/// The address that `bytes` encode, if they encode one: twenty bytes are the
/// address that they are.
pub open spec fn decode_address_spec(bytes: Seq<u8>) -> Option<Seq<u8>> {
    if bytes.len() == ADDRESS_LEN {
        Some(bytes)
    } else {
        None
    }
}

/// The two parts of a split as the bytes that they hold.
pub open spec fn parts_view(parts: Option<(&[u8], &[u8])>) -> Option<(Seq<u8>, Seq<u8>)> {
    match parts {
        Some((head, rest)) => Some((head@, rest@)),
        None => None,
    }
}

/// Appends a field of variable size to `out`.
fn put_sized(out: &mut Vec<u8>, content: &[u8])
    ensures
        final(out)@ == old(out)@ + sized_spec(content@),
        content@.len() <= u64::MAX,
{
    put_le(out, content.len() as u64, LENGTH_LEN);
    out.extend_from_slice(content);
    assert(out@ =~= old(out)@ + sized_spec(content@));
}

/// Splits `bytes` after its first `n` bytes.
fn take_fixed<'a>(bytes: &'a [u8], n: usize) -> (parts: Option<(&'a [u8], &'a [u8])>)
    ensures
        parts_view(parts) == split_fixed(bytes@, n as nat),
{
    if bytes.len() >= n {
        let (head, rest) = bytes.split_at(n);
        Some((head, rest))
    } else {
        None
    }
}

/// Splits `bytes` after the field of variable size that it starts with.
fn take_sized<'a>(bytes: &'a [u8]) -> (parts: Option<(&'a [u8], &'a [u8])>)
    ensures
        parts_view(parts) == split_sized(bytes@),
{
    match take_fixed(bytes, LENGTH_LEN) {
        Some((length, rest)) => {
            let n = read_le(length);
            if n <= rest.len() as u64 {
                take_fixed(rest, n as usize)
            } else {
                None
            }
        },
        None => None,
    }
}

/// Copies `N` bytes into an array.
fn array_of<const N: usize>(bytes: &[u8]) -> (array: [u8; N])
    requires
        bytes@.len() == N,
    ensures
        array@ == bytes@,
{
    let mut array: [u8; N] = [0u8; N];
    let mut i: usize = 0;
    while i < N
        invariant
            i <= N,
            bytes@.len() == N,
            forall|j: int| 0 <= j < i ==> array@[j] == bytes@[j],
        decreases N - i,
    {
        array[i] = bytes[i];
        i += 1;
    }
    assert(array@ =~= bytes@);
    array
}

/// Makes a string of bytes with `String::from_utf8`, which gives a string
/// exactly where the bytes are UTF-8, and then the string that they encode.
/// The contract says so in the terms of `vstd::utf8`; it is not proved.
#[verifier::external_body]
fn string_from_utf8(bytes: Vec<u8>) -> (text: Option<String>)
    ensures
        text is Some <==> valid_utf8(bytes@),
        text matches Some(t) ==> t@ == decode_utf8(bytes@),
{
    String::from_utf8(bytes).ok()
}

/// Decodes the payload of an error event: the server's message.
fn decode_message(bytes: &[u8]) -> (message: Option<String>)
    ensures
        message is Some <==> decode_message_spec(bytes@) is Some,
        message matches Some(m) ==> decode_message_spec(bytes@) == Some(m@),
{
    match take_sized(bytes) {
        Some((content, rest)) => {
            if rest.len() == 0 {
                string_from_utf8(slice_to_vec(content))
            } else {
                None
            }
        },
        None => None,
    }
}

impl TEERequest {
    /// The bytes of this request on the wire.
    pub fn encode(&self) -> (bytes: Vec<u8>)
        ensures
            bytes@ == request_bytes(self@),
            decode_request_spec(bytes@) == Some(self@),
            self@.wf() && request_fits(self@),
    {
        let mut bytes: Vec<u8> = Vec::new();
        bytes.extend_from_slice(self.id.as_slice());
        put_sized(&mut bytes, self.program.as_slice());
        put_sized(&mut bytes, self.stdin.as_slice());
        proof {
            assert(bytes@ =~= request_bytes(self@));
            assert(self@.wf() && request_fits(self@));
            lemma_request_round_trip(self@);
        }
        bytes
    }

    /// Decodes a request from bytes that are exactly the encoding of one.
    ///
    /// Fails with [`TEEError::MalformedPayload`] on any other bytes.
    pub fn decode(bytes: &[u8]) -> (res: Result<TEERequest, TEEError>)
        ensures
            res is Ok <==> decode_request_spec(bytes@) is Some,
            res matches Ok(request) ==> decode_request_spec(bytes@) == Some(request@),
            res matches Err(e) ==> e == TEEError::MalformedPayload,
    {
        let (id, rest) = match take_fixed(bytes, WORD_LEN) {
            Some(parts) => parts,
            None => { return Err(TEEError::MalformedPayload); },
        };
        let (program, rest) = match take_sized(rest) {
            Some(parts) => parts,
            None => { return Err(TEEError::MalformedPayload); },
        };
        let (stdin, rest) = match take_sized(rest) {
            Some(parts) => parts,
            None => { return Err(TEEError::MalformedPayload); },
        };
        if rest.len() != 0 {
            return Err(TEEError::MalformedPayload);
        }
        Ok(TEERequest { id: array_of(id), program: slice_to_vec(program), stdin: slice_to_vec(stdin) })
    }
}

impl TEEResponse {
    /// The bytes of this response on the wire.
    pub fn encode(&self) -> (bytes: Vec<u8>)
        ensures
            bytes@ == response_bytes(self@),
            decode_response_spec(bytes@) == Some(self@),
            self@.wf() && response_fits(self@),
    {
        let mut bytes: Vec<u8> = Vec::new();
        bytes.extend_from_slice(self.vkey.as_slice());
        put_sized(&mut bytes, self.public_values.as_slice());
        bytes.extend_from_slice(self.signature.r.as_slice());
        bytes.extend_from_slice(self.signature.s.as_slice());
        bytes.push(self.recovery_id);
        proof {
            assert(bytes@ =~= response_bytes(self@));
            assert(self@.wf() && response_fits(self@));
            lemma_response_round_trip(self@);
        }
        bytes
    }

    /// Decodes a response from bytes that are exactly the encoding of one.
    ///
    /// Fails with [`TEEError::MalformedPayload`] on any other bytes. The
    /// signature is not looked at: a decoded response is yet to be verified.
    pub fn decode(bytes: &[u8]) -> (res: Result<TEEResponse, TEEError>)
        ensures
            res is Ok <==> decode_response_spec(bytes@) is Some,
            res matches Ok(response) ==> decode_response_spec(bytes@) == Some(response@),
            res matches Err(e) ==> e == TEEError::MalformedPayload,
    {
        let (vkey, rest) = match take_fixed(bytes, WORD_LEN) {
            Some(parts) => parts,
            None => { return Err(TEEError::MalformedPayload); },
        };
        let (public_values, rest) = match take_sized(rest) {
            Some(parts) => parts,
            None => { return Err(TEEError::MalformedPayload); },
        };
        let (r, rest) = match take_fixed(rest, SCALAR_LEN) {
            Some(parts) => parts,
            None => { return Err(TEEError::MalformedPayload); },
        };
        let (s, rest) = match take_fixed(rest, SCALAR_LEN) {
            Some(parts) => parts,
            None => { return Err(TEEError::MalformedPayload); },
        };
        if rest.len() != 1 {
            return Err(TEEError::MalformedPayload);
        }
        Ok(
            TEEResponse {
                vkey: array_of(vkey),
                public_values: slice_to_vec(public_values),
                signature: Signature { r: array_of(r), s: array_of(s) },
                recovery_id: rest[0],
            },
        )
    }
}

impl EventPayload {
    /// The bytes of this event on the wire.
    pub fn encode(&self) -> (bytes: Vec<u8>)
        ensures
            bytes@ == event_bytes(self@),
            decode_event_spec(bytes@) == Some(self@),
            self@.wf() && event_fits(self@),
    {
        match self {
            EventPayload::Success(response) => {
                let mut bytes: Vec<u8> = Vec::new();
                put_le(&mut bytes, SUCCESS_TAG as u64, TAG_LEN);
                let body = response.encode();
                bytes.extend_from_slice(body.as_slice());
                proof {
                    assert(bytes@ =~= event_bytes(self@));
                    assert(self@.wf() && event_fits(self@));
                    lemma_event_round_trip(self@);
                }
                bytes
            },
            EventPayload::Error(message) => {
                let mut bytes: Vec<u8> = Vec::new();
                put_le(&mut bytes, ERROR_TAG as u64, TAG_LEN);
                let text = message.as_str().as_bytes();
                put_sized(&mut bytes, text);
                proof {
                    assert(text@ == encode_utf8(message@));
                    assert(bytes@ =~= event_bytes(self@));
                    assert(self@.wf() && event_fits(self@));
                    lemma_event_round_trip(self@);
                }
                bytes
            },
        }
    }

    /// Decodes an event from bytes that are exactly the encoding of one.
    ///
    /// The tag alone decides the variant: bytes tagged as an error give an
    /// error with the message that they carry, never a success. Fails with
    /// [`TEEError::MalformedPayload`] on bytes that encode no event.
    pub fn decode(bytes: &[u8]) -> (res: Result<EventPayload, TEEError>)
        ensures
            res is Ok <==> decode_event_spec(bytes@) is Some,
            res matches Ok(event) ==> decode_event_spec(bytes@) == Some(event@),
            res matches Err(e) ==> e == TEEError::MalformedPayload,
    {
        let (tag, rest) = match take_fixed(bytes, TAG_LEN) {
            Some(parts) => parts,
            None => { return Err(TEEError::MalformedPayload); },
        };
        let tag = read_le(tag);
        if tag == SUCCESS_TAG as u64 {
            match TEEResponse::decode(rest) {
                Ok(response) => Ok(EventPayload::Success(response)),
                Err(e) => Err(e),
            }
        } else if tag == ERROR_TAG as u64 {
            match decode_message(rest) {
                Some(message) => Ok(EventPayload::Error(message)),
                None => Err(TEEError::MalformedPayload),
            }
        } else {
            Err(TEEError::MalformedPayload)
        }
    }
}

impl GetAddressResponse {
    /// The bytes of this payload on the wire: the twenty bytes of the address.
    pub fn encode(&self) -> (bytes: Vec<u8>)
        ensures
            bytes@ == self.address@,
            decode_address_spec(bytes@) == Some(self.address@),
    {
        slice_to_vec(self.address.as_slice())
    }

    /// Decodes the payload from the twenty bytes of an address.
    ///
    /// Fails with [`TEEError::MalformedPayload`] on any other number of bytes.
    pub fn decode(bytes: &[u8]) -> (res: Result<GetAddressResponse, TEEError>)
        ensures
            res is Ok <==> decode_address_spec(bytes@) is Some,
            res matches Ok(response) ==> decode_address_spec(bytes@) == Some(response.address@),
            res matches Err(e) ==> e == TEEError::MalformedPayload,
    {
        if bytes.len() == ADDRESS_LEN {
            Ok(GetAddressResponse { address: array_of(bytes) })
        } else {
            Err(TEEError::MalformedPayload)
        }
    }
}

/// Splitting a concatenation after its first part gives back the two parts.
pub proof fn lemma_split_fixed_of_concat(head: Seq<u8>, rest: Seq<u8>)
    ensures
        split_fixed(head + rest, head.len()) == Some((head, rest)),
{
    let bytes = head + rest;
    assert(bytes.subrange(0, head.len() as int) =~= head);
    assert(bytes.subrange(head.len() as int, bytes.len() as int) =~= rest);
}

/// The two parts of a split, put together again, are the bytes that were
/// split, and the first part has the length that was asked for.
pub proof fn lemma_split_fixed_is_exact(bytes: Seq<u8>, n: nat)
    ensures
        split_fixed(bytes, n) matches Some((head, rest)) ==> head + rest == bytes && head.len()
            == n && rest.len() == bytes.len() - n,
        split_fixed(bytes, n) is None <==> bytes.len() < n,
{
    if bytes.len() >= n {
        let head = bytes.subrange(0, n as int);
        let rest = bytes.subrange(n as int, bytes.len() as int);
        assert(head + rest =~= bytes);
    }
}

/// Splitting off a field of variable size that was laid out before `rest`
/// gives back its content, and `rest`.
pub proof fn lemma_split_sized_of_concat(content: Seq<u8>, rest: Seq<u8>)
    requires
        content.len() <= u64::MAX,
    ensures
        split_sized(sized_spec(content) + rest) == Some((content, rest)),
{
    lemma_pow256_of_widths();
    lemma_le_bytes_len(content.len(), LENGTH_LEN as nat);
    lemma_le_value_of_bytes(content.len(), LENGTH_LEN as nat);
    let length = le_bytes(content.len(), LENGTH_LEN as nat);
    let bytes = sized_spec(content) + rest;
    assert(bytes =~= length + (content + rest));
    lemma_split_fixed_of_concat(length, content + rest);
    lemma_split_fixed_of_concat(content, rest);
}

/// The content and the rest that a split gives are, laid out again, the bytes
/// that were split.
pub proof fn lemma_split_sized_is_exact(bytes: Seq<u8>)
    ensures
        split_sized(bytes) matches Some((content, rest)) ==> sized_spec(content) + rest == bytes
            && content.len() <= u64::MAX && rest.len() == bytes.len() - LENGTH_LEN
            - content.len(),
{
    lemma_pow256_of_widths();
    lemma_split_fixed_is_exact(bytes, LENGTH_LEN as nat);
    if let Some((length, after)) = split_fixed(bytes, LENGTH_LEN as nat) {
        let n = le_value(length);
        lemma_le_value_bound(length);
        lemma_le_bytes_of_value(length);
        lemma_split_fixed_is_exact(after, n);
        if let Some((content, rest)) = split_fixed(after, n) {
            assert(sized_spec(content) + rest =~= length + (content + rest));
        }
    }
}

/// Decoding the bytes of a request gives the request back: every field is
/// kept, whatever the lengths of the program and of the stdin.
pub proof fn lemma_request_round_trip(request: RequestView)
    requires
        request.wf(),
        request_fits(request),
    ensures
        decode_request_spec(request_bytes(request)) == Some(request),
{
    let program = sized_spec(request.program);
    let stdin = sized_spec(request.stdin);
    assert(request_bytes(request) =~= request.id + (program + stdin));
    lemma_split_fixed_of_concat(request.id, program + stdin);
    lemma_split_sized_of_concat(request.program, stdin);
    assert(stdin =~= stdin + Seq::<u8>::empty());
    lemma_split_sized_of_concat(request.stdin, Seq::<u8>::empty());
}

/// Bytes decode to a request only if they are the bytes of that request.
pub proof fn lemma_request_decoding_is_exact(bytes: Seq<u8>)
    ensures
        decode_request_spec(bytes) matches Some(request) ==> request_bytes(request) == bytes
            && request.wf() && request_fits(request),
{
    lemma_split_fixed_is_exact(bytes, WORD_LEN as nat);
    if let Some((id, after_id)) = split_fixed(bytes, WORD_LEN as nat) {
        lemma_split_sized_is_exact(after_id);
        if let Some((program, after_program)) = split_sized(after_id) {
            lemma_split_sized_is_exact(after_program);
            if let Some((stdin, rest)) = split_sized(after_program) {
                if rest.len() == 0 {
                    assert(sized_spec(stdin) + rest =~= sized_spec(stdin));
                    assert(id + sized_spec(program) + sized_spec(stdin) =~= id + (sized_spec(
                        program,
                    ) + sized_spec(stdin)));
                }
            }
        }
    }
}

/// Decoding the bytes of a response gives the response back: every field is
/// kept, whatever the length of the public values.
pub proof fn lemma_response_round_trip(response: ResponseView)
    requires
        response.wf(),
        response_fits(response),
    ensures
        decode_response_spec(response_bytes(response)) == Some(response),
{
    let values = sized_spec(response.public_values);
    let r = response.signature.r;
    let s = response.signature.s;
    let id = seq![response.recovery_id];
    assert(response_bytes(response) =~= response.vkey + (values + (r + (s + id))));
    lemma_split_fixed_of_concat(response.vkey, values + (r + (s + id)));
    lemma_split_sized_of_concat(response.public_values, r + (s + id));
    lemma_split_fixed_of_concat(r, s + id);
    lemma_split_fixed_of_concat(s, id);
}

/// Bytes decode to a response only if they are the bytes of that response.
pub proof fn lemma_response_decoding_is_exact(bytes: Seq<u8>)
    ensures
        decode_response_spec(bytes) matches Some(response) ==> response_bytes(response) == bytes
            && response.wf() && response_fits(response),
{
    lemma_split_fixed_is_exact(bytes, WORD_LEN as nat);
    if let Some((vkey, after_vkey)) = split_fixed(bytes, WORD_LEN as nat) {
        lemma_split_sized_is_exact(after_vkey);
        if let Some((values, after_values)) = split_sized(after_vkey) {
            lemma_split_fixed_is_exact(after_values, SCALAR_LEN as nat);
            if let Some((r, after_r)) = split_fixed(after_values, SCALAR_LEN as nat) {
                lemma_split_fixed_is_exact(after_r, SCALAR_LEN as nat);
                if let Some((s, rest)) = split_fixed(after_r, SCALAR_LEN as nat) {
                    if rest.len() == 1 {
                        assert(rest =~= seq![rest[0]]);
                        assert(vkey + sized_spec(values) + r + s + rest =~= vkey + (sized_spec(
                            values,
                        ) + (r + (s + rest))));
                    }
                }
            }
        }
    }
}

/// Decoding the bytes of an event gives the event back: a success stays a
/// success with the same response, and an error stays an error with the same
/// message.
pub proof fn lemma_event_round_trip(event: EventView)
    requires
        event.wf(),
        event_fits(event),
    ensures
        decode_event_spec(event_bytes(event)) == Some(event),
{
    lemma_pow256_of_widths();
    match event {
        EventView::Success(response) => {
            lemma_le_bytes_len(SUCCESS_TAG as nat, TAG_LEN as nat);
            lemma_le_value_of_bytes(SUCCESS_TAG as nat, TAG_LEN as nat);
            lemma_split_fixed_of_concat(tag_bytes(SUCCESS_TAG), response_bytes(response));
            lemma_response_round_trip(response);
        },
        EventView::Error(message) => {
            let content = encode_utf8(message);
            lemma_le_bytes_len(ERROR_TAG as nat, TAG_LEN as nat);
            lemma_le_value_of_bytes(ERROR_TAG as nat, TAG_LEN as nat);
            lemma_split_fixed_of_concat(tag_bytes(ERROR_TAG), sized_spec(content));
            assert(sized_spec(content) =~= sized_spec(content) + Seq::<u8>::empty());
            lemma_split_sized_of_concat(content, Seq::<u8>::empty());
            encode_utf8_valid_utf8(message);
            encode_utf8_decode_utf8(message);
        },
    }
}

/// Bytes decode to an event only if they are the bytes of that event.
pub proof fn lemma_event_decoding_is_exact(bytes: Seq<u8>)
    ensures
        decode_event_spec(bytes) matches Some(event) ==> event_bytes(event) == bytes && event.wf()
            && event_fits(event),
{
    lemma_split_fixed_is_exact(bytes, TAG_LEN as nat);
    if let Some((tag, rest)) = split_fixed(bytes, TAG_LEN as nat) {
        lemma_le_bytes_of_value(tag);
        if le_value(tag) == SUCCESS_TAG {
            lemma_response_decoding_is_exact(rest);
        } else if le_value(tag) == ERROR_TAG {
            lemma_split_sized_is_exact(rest);
            if let Some((content, end)) = split_sized(rest) {
                if end.len() == 0 && valid_utf8(content) {
                    decode_utf8_encode_utf8(content);
                    assert(sized_spec(content) + end =~= sized_spec(content));
                }
            }
        }
    }
}

/// An event that is encoded as an error never decodes to a success, and one
/// that is encoded as a success never decodes to an error.
pub proof fn lemma_event_variant_is_kept(event: EventView)
    requires
        event.wf(),
        event_fits(event),
    ensures
        event matches EventView::Error(message) ==> decode_event_spec(event_bytes(event))
            == Some(EventView::Error(message)),
        event matches EventView::Success(response) ==> decode_event_spec(event_bytes(event))
            == Some(EventView::Success(response)),
        event is Error ==> !(decode_event_spec(event_bytes(event)) matches Some(
            EventView::Success(_),
        )),
{
    lemma_event_round_trip(event);
}

} // verus!
