//! The four protocol values and their deterministic binary codec.
//!
//! Every encoding is a concatenation of fixed-length fields in a documented
//! order; only the upload's envelope carries an explicit length field.  Each
//! `deserialize` rejects truncated input, trailing bytes and encodings that
//! are not valid group elements, each with its own [`DecodeError`] variant,
//! and never panics.  The codec is specified by spec-level functions over
//! byte sequences; the executable functions are proved to agree with them.

use vstd::prelude::*;
use vstd::slice::slice_subrange;
use vstd::slice::slice_to_vec;

use crate::byteops::concat2;
use crate::byteops::is_zero32;
use crate::byteops::zero32;
use crate::errors::DecodeError;
use crate::primitives::check_point;
use crate::primitives::check_scalar;
use crate::primitives::is_point;
use crate::primitives::is_scalar;

verus! {

/// The mathematical value of a `ClientRegistrationState`.
pub struct StateView {
    /// Canonical encoding of the blinding scalar.
    pub blind: Seq<u8>,
    /// The password bytes given to `start`.
    pub password: Seq<u8>,
    /// Whether a successful `finish` already consumed this state.
    pub consumed: bool,
}

/// The mathematical value of a `RegistrationResponse`.
pub struct ResponseView {
    /// Encoding of the server's OPRF-evaluated group element.
    pub evaluated: Seq<u8>,
    /// Encoding of the server's static public key.
    pub server_pk: Seq<u8>,
}

/// The mathematical value of a `RegistrationUpload`.
pub struct UploadView {
    /// Encoding of the client's public key.
    pub client_pk: Seq<u8>,
    /// The sealed envelope: ciphertext followed by authentication tag.
    pub envelope: Seq<u8>,
}

/// Client-to-server message opening a registration: one blinded group
/// element.
#[derive(Clone, Debug, PartialEq, Eq)]
pub struct RegistrationRequest {
    pub(crate) element: Vec<u8>,
}

/// The private client state held between `start` and `finish`: the blinding
/// scalar and the password bytes, plus the single-use marker.
#[derive(Clone, Debug, PartialEq, Eq)]
pub struct ClientRegistrationState {
    pub(crate) blind: Vec<u8>,
    pub(crate) password: Vec<u8>,
    pub(crate) consumed: bool,
}

/// Server-to-client message: the OPRF-evaluated element and the server's
/// static public key.
#[derive(Clone, Debug, PartialEq, Eq)]
pub struct RegistrationResponse {
    pub(crate) evaluated: Vec<u8>,
    pub(crate) server_pk: Vec<u8>,
}

/// Client-to-server message closing a registration: the client's public key
/// and the sealed envelope.
#[derive(Clone, Debug, PartialEq, Eq)]
pub struct RegistrationUpload {
    pub(crate) client_pk: Vec<u8>,
    pub(crate) envelope: Vec<u8>,
}

impl View for RegistrationRequest {
    type V = Seq<u8>;

    closed spec fn view(&self) -> Seq<u8> {
        self.element@
    }
}

impl View for ClientRegistrationState {
    type V = StateView;

    closed spec fn view(&self) -> StateView {
        StateView { blind: self.blind@, password: self.password@, consumed: self.consumed }
    }
}

impl View for RegistrationResponse {
    type V = ResponseView;

    closed spec fn view(&self) -> ResponseView {
        ResponseView { evaluated: self.evaluated@, server_pk: self.server_pk@ }
    }
}

impl View for RegistrationUpload {
    type V = UploadView;

    closed spec fn view(&self) -> UploadView {
        UploadView { client_pk: self.client_pk@, envelope: self.envelope@ }
    }
}

/// A request is one valid, non-identity group element.
pub open spec fn request_wf(element: Seq<u8>) -> bool {
    &&& element.len() == 32
    &&& is_point(element)
    &&& element != zero32()
}

/// A state holds a 32-byte blinding field; until it is consumed, that field
/// is a canonical, non-zero scalar.
pub open spec fn state_wf(v: StateView) -> bool {
    &&& v.blind.len() == 32
    &&& !v.consumed ==> is_scalar(v.blind) && v.blind != zero32()
}

/// A response holds a valid non-identity evaluated element and a valid
/// server public key.
pub open spec fn response_wf(v: ResponseView) -> bool {
    &&& v.evaluated.len() == 32
    &&& is_point(v.evaluated)
    &&& v.evaluated != zero32()
    &&& v.server_pk.len() == 32
    &&& is_point(v.server_pk)
}

/// An upload holds a valid client public key and an envelope of the suite's
/// fixed size.
pub open spec fn upload_wf(v: UploadView) -> bool {
    &&& v.client_pk.len() == 32
    &&& is_point(v.client_pk)
    &&& v.envelope.len() == 96
}

/// Encoding of a request: the group element's 32 bytes.
pub open spec fn spec_serialize_request(element: Seq<u8>) -> Seq<u8> {
    element
}

/// Decoding of a request.
pub open spec fn spec_deserialize_request(b: Seq<u8>) -> Result<Seq<u8>, DecodeError> {
    if b.len() < 32 {
        Err(DecodeError::Truncated)
    } else if b.len() > 32 {
        Err(DecodeError::TrailingBytes)
    } else if !is_point(b) {
        Err(DecodeError::InvalidElement)
    } else if b == zero32() {
        Err(DecodeError::IdentityElement)
    } else {
        Ok(b)
    }
}

/// Encoding of a state: the blinding scalar's 32 bytes, then the password.
pub open spec fn spec_serialize_state(v: StateView) -> Seq<u8> {
    v.blind + v.password
}

/// Decoding of a state; the decoded state is not yet consumed.
pub open spec fn spec_deserialize_state(b: Seq<u8>) -> Result<StateView, DecodeError> {
    if b.len() < 32 {
        Err(DecodeError::Truncated)
    } else if !is_scalar(b.subrange(0, 32)) {
        Err(DecodeError::InvalidScalar)
    } else if b.subrange(0, 32) == zero32() {
        Err(DecodeError::InvalidScalar)
    } else {
        Ok(
            StateView {
                blind: b.subrange(0, 32),
                password: b.subrange(32, b.len() as int),
                consumed: false,
            },
        )
    }
}

/// Encoding of a response: the evaluated element, then the server public
/// key.
pub open spec fn spec_serialize_response(v: ResponseView) -> Seq<u8> {
    v.evaluated + v.server_pk
}

/// Decoding of a response.
pub open spec fn spec_deserialize_response(b: Seq<u8>) -> Result<ResponseView, DecodeError> {
    if b.len() < 64 {
        Err(DecodeError::Truncated)
    } else if b.len() > 64 {
        Err(DecodeError::TrailingBytes)
    } else if !is_point(b.subrange(0, 32)) {
        Err(DecodeError::InvalidElement)
    } else if b.subrange(0, 32) == zero32() {
        Err(DecodeError::IdentityElement)
    } else if !is_point(b.subrange(32, 64)) {
        Err(DecodeError::InvalidElement)
    } else {
        Ok(ResponseView { evaluated: b.subrange(0, 32), server_pk: b.subrange(32, 64) })
    }
}

/// Encoding of an upload: the client public key, a two-byte big-endian
/// length field holding the suite's fixed envelope size, then the envelope.
pub open spec fn spec_serialize_upload(v: UploadView) -> Seq<u8> {
    v.client_pk + seq![0u8, 96u8] + v.envelope
}

/// Decoding of an upload.
pub open spec fn spec_deserialize_upload(b: Seq<u8>) -> Result<UploadView, DecodeError> {
    if b.len() < 34 {
        Err(DecodeError::Truncated)
    } else if !is_point(b.subrange(0, 32)) {
        Err(DecodeError::InvalidElement)
    } else if b[32] != 0u8 || b[33] != 96u8 {
        Err(DecodeError::LengthMismatch)
    } else if b.len() < 130 {
        Err(DecodeError::Truncated)
    } else if b.len() > 130 {
        Err(DecodeError::TrailingBytes)
    } else {
        Ok(UploadView { client_pk: b.subrange(0, 32), envelope: b.subrange(34, 130) })
    }
}

impl RegistrationRequest {
    /// Whether this request is well formed.
    pub open spec fn wf(&self) -> bool {
        request_wf(self@)
    }

    /// Packs an already-checked element encoding into a request.
    pub(crate) fn from_element(element: Vec<u8>) -> (r: RegistrationRequest)
        ensures
            r@ == element@,
    {
        RegistrationRequest { element }
    }

    /// Serializes the request; a total function.
    pub fn serialize(&self) -> (r: Vec<u8>)
        ensures
            r@ == spec_serialize_request(self@),
    {
        slice_to_vec(self.element.as_slice())
    }

    /// Deserializes a request, rejecting wrong lengths, invalid group
    /// elements and the identity element.
    pub fn deserialize(input: &[u8]) -> (r: Result<RegistrationRequest, DecodeError>)
        ensures
            r matches Ok(q) ==> spec_deserialize_request(input@) == Ok::<Seq<u8>, DecodeError>(q@)
                && q.wf(),
            r matches Err(e) ==> spec_deserialize_request(input@) == Err::<Seq<u8>, DecodeError>(
                e,
            ),
    {
        if input.len() < 32 {
            return Err(DecodeError::Truncated);
        }
        if input.len() > 32 {
            return Err(DecodeError::TrailingBytes);
        }
        if !check_point(input) {
            return Err(DecodeError::InvalidElement);
        }
        if is_zero32(input) {
            return Err(DecodeError::IdentityElement);
        }
        Ok(RegistrationRequest { element: slice_to_vec(input) })
    }
}

impl ClientRegistrationState {
    /// Whether this state is well formed.
    pub open spec fn wf(&self) -> bool {
        state_wf(self@)
    }

    /// Packs a blinding scalar and the password into a fresh, unconsumed
    /// state.
    pub(crate) fn from_parts(blind: Vec<u8>, password: Vec<u8>) -> (r: ClientRegistrationState)
        ensures
            r@.blind == blind@,
            r@.password == password@,
            !r@.consumed,
    {
        ClientRegistrationState { blind, password, consumed: false }
    }

    /// The blinding scalar's encoding.
    pub(crate) fn blind_slice(&self) -> (r: &[u8])
        ensures
            r@ == self@.blind,
    {
        self.blind.as_slice()
    }

    /// The password bytes.
    pub(crate) fn password_slice(&self) -> (r: &[u8])
        ensures
            r@ == self@.password,
    {
        self.password.as_slice()
    }

    /// Marks the state consumed and erases its secrets.
    pub(crate) fn consume(&mut self)
        ensures
            final(self)@.consumed,
            final(self)@.blind == zero32(),
            final(self)@.password == Seq::<u8>::empty(),
    {
        self.blind = crate::byteops::zero_vec32();
        self.password = Vec::new();
        self.consumed = true;
    }

    /// Whether a successful `finish` already consumed this state.
    pub fn is_consumed(&self) -> (r: bool)
        ensures
            r == self@.consumed,
    {
        self.consumed
    }

    /// Serializes the state so the caller can hold it across the round trip;
    /// a total function.
    pub fn serialize(&self) -> (r: Vec<u8>)
        ensures
            r@ == spec_serialize_state(self@),
    {
        concat2(self.blind.as_slice(), self.password.as_slice())
    }

    /// Deserializes a state, rejecting a truncated blob and a blinding field
    /// that is not a canonical non-zero scalar.  The result is not consumed.
    pub fn deserialize(input: &[u8]) -> (r: Result<ClientRegistrationState, DecodeError>)
        ensures
            r matches Ok(s) ==> spec_deserialize_state(input@) == Ok::<
                StateView,
                DecodeError,
            >(s@) && s.wf() && !s@.consumed,
            r matches Err(e) ==> spec_deserialize_state(input@) == Err::<StateView, DecodeError>(
                e,
            ),
    {
        if input.len() < 32 {
            return Err(DecodeError::Truncated);
        }
        let blind = slice_subrange(input, 0, 32);
        if !check_scalar(blind) {
            return Err(DecodeError::InvalidScalar);
        }
        if is_zero32(blind) {
            return Err(DecodeError::InvalidScalar);
        }
        let password = slice_subrange(input, 32, input.len());
        Ok(
            ClientRegistrationState {
                blind: slice_to_vec(blind),
                password: slice_to_vec(password),
                consumed: false,
            },
        )
    }
}

impl RegistrationResponse {
    /// Whether this response is well formed.
    pub open spec fn wf(&self) -> bool {
        response_wf(self@)
    }

    /// The evaluated element's encoding.
    pub(crate) fn evaluated_slice(&self) -> (r: &[u8])
        ensures
            r@ == self@.evaluated,
    {
        self.evaluated.as_slice()
    }

    /// The server public key's encoding.
    pub(crate) fn server_pk_slice(&self) -> (r: &[u8])
        ensures
            r@ == self@.server_pk,
    {
        self.server_pk.as_slice()
    }

    /// Serializes the response; a total function.
    pub fn serialize(&self) -> (r: Vec<u8>)
        ensures
            r@ == spec_serialize_response(self@),
    {
        concat2(self.evaluated.as_slice(), self.server_pk.as_slice())
    }

    /// Deserializes a response, rejecting wrong lengths, invalid group
    /// elements, an identity evaluated element and an invalid server key.
    pub fn deserialize(input: &[u8]) -> (r: Result<RegistrationResponse, DecodeError>)
        ensures
            r matches Ok(p) ==> spec_deserialize_response(input@) == Ok::<
                ResponseView,
                DecodeError,
            >(p@) && p.wf(),
            r matches Err(e) ==> spec_deserialize_response(input@) == Err::<
                ResponseView,
                DecodeError,
            >(e),
    {
        if input.len() < 64 {
            return Err(DecodeError::Truncated);
        }
        if input.len() > 64 {
            return Err(DecodeError::TrailingBytes);
        }
        let evaluated = slice_subrange(input, 0, 32);
        if !check_point(evaluated) {
            return Err(DecodeError::InvalidElement);
        }
        if is_zero32(evaluated) {
            return Err(DecodeError::IdentityElement);
        }
        let server_pk = slice_subrange(input, 32, 64);
        if !check_point(server_pk) {
            return Err(DecodeError::InvalidElement);
        }
        Ok(RegistrationResponse { evaluated: slice_to_vec(evaluated), server_pk: slice_to_vec(server_pk) })
    }
}

impl RegistrationUpload {
    /// Whether this upload is well formed.
    pub open spec fn wf(&self) -> bool {
        upload_wf(self@)
    }

    /// Packs a client public key and a sealed envelope into an upload.
    pub(crate) fn from_parts(client_pk: Vec<u8>, envelope: Vec<u8>) -> (r: RegistrationUpload)
        ensures
            r@.client_pk == client_pk@,
            r@.envelope == envelope@,
    {
        RegistrationUpload { client_pk, envelope }
    }

    /// Serializes the upload; a total function.
    pub fn serialize(&self) -> (r: Vec<u8>)
        ensures
            r@ == spec_serialize_upload(self@),
    {
        let mut out = slice_to_vec(self.client_pk.as_slice());
        out.push(0u8);
        out.push(96u8);
        crate::byteops::append_bytes(&mut out, self.envelope.as_slice());
        proof {
            assert(self.client_pk@.push(0u8).push(96u8) =~= self.client_pk@ + seq![0u8, 96u8]);
        }
        out
    }

    /// Deserializes an upload, rejecting wrong lengths, an invalid client
    /// key and a length field that disagrees with the suite's envelope size.
    pub fn deserialize(input: &[u8]) -> (r: Result<RegistrationUpload, DecodeError>)
        ensures
            r matches Ok(u) ==> spec_deserialize_upload(input@) == Ok::<
                UploadView,
                DecodeError,
            >(u@) && u.wf(),
            r matches Err(e) ==> spec_deserialize_upload(input@) == Err::<UploadView, DecodeError>(
                e,
            ),
    {
        if input.len() < 34 {
            return Err(DecodeError::Truncated);
        }
        let pk = slice_subrange(input, 0, 32);
        if !check_point(pk) {
            return Err(DecodeError::InvalidElement);
        }
        if input[32] != 0u8 || input[33] != 96u8 {
            return Err(DecodeError::LengthMismatch);
        }
        if input.len() < 130 {
            return Err(DecodeError::Truncated);
        }
        if input.len() > 130 {
            return Err(DecodeError::TrailingBytes);
        }
        let envelope = slice_subrange(input, 34, 130);
        Ok(RegistrationUpload { client_pk: slice_to_vec(pk), envelope: slice_to_vec(envelope) })
    }
}

/// Codec round trip for requests: decoding an encoded well-formed request
/// gives the request back.
pub proof fn lemma_request_round_trip(element: Seq<u8>)
    requires
        request_wf(element),
    ensures
        spec_deserialize_request(spec_serialize_request(element)) == Ok::<Seq<u8>, DecodeError>(
            element,
        ),
{
}

/// Codec round trip for states: decoding an encoded well-formed, unconsumed
/// state gives the state back.
pub proof fn lemma_state_round_trip(v: StateView)
    requires
        state_wf(v),
        !v.consumed,
    ensures
        spec_deserialize_state(spec_serialize_state(v)) == Ok::<StateView, DecodeError>(v),
{
    let b = spec_serialize_state(v);
    assert(b.subrange(0, 32) =~= v.blind);
    assert(b.subrange(32, b.len() as int) =~= v.password);
}

/// Codec round trip for responses: decoding an encoded well-formed response
/// gives the response back.
pub proof fn lemma_response_round_trip(v: ResponseView)
    requires
        response_wf(v),
    ensures
        spec_deserialize_response(spec_serialize_response(v)) == Ok::<ResponseView, DecodeError>(
            v,
        ),
{
    let b = spec_serialize_response(v);
    assert(b.subrange(0, 32) =~= v.evaluated);
    assert(b.subrange(32, 64) =~= v.server_pk);
}

/// Codec round trip for uploads: decoding an encoded well-formed upload
/// gives the upload back.
pub proof fn lemma_upload_round_trip(v: UploadView)
    requires
        upload_wf(v),
    ensures
        spec_deserialize_upload(spec_serialize_upload(v)) == Ok::<UploadView, DecodeError>(v),
{
    let b = spec_serialize_upload(v);
    assert(b.subrange(0, 32) =~= v.client_pk);
    assert(b.subrange(34, 130) =~= v.envelope);
    assert(b[32] == 0u8 && b[33] == 96u8);
}

/// State encodings are injective: two well-formed, unconsumed states with
/// byte-identical blobs are the same value.
pub proof fn lemma_state_encoding_injective(v1: StateView, v2: StateView)
    requires
        state_wf(v1),
        state_wf(v2),
        !v1.consumed,
        !v2.consumed,
        spec_serialize_state(v1) == spec_serialize_state(v2),
    ensures
        v1 == v2,
{
    lemma_state_round_trip(v1);
    lemma_state_round_trip(v2);
}

/// Response encodings are injective: two well-formed responses with
/// byte-identical encodings are the same value.
pub proof fn lemma_response_encoding_injective(v1: ResponseView, v2: ResponseView)
    requires
        response_wf(v1),
        response_wf(v2),
        spec_serialize_response(v1) == spec_serialize_response(v2),
    ensures
        v1 == v2,
{
    lemma_response_round_trip(v1);
    lemma_response_round_trip(v2);
}

/// Decoding a response shorter than its fixed length — in particular one
/// with a single byte truncated — always fails, and as a truncation.
pub proof fn lemma_response_truncated(b: Seq<u8>)
    requires
        b.len() < 64,
    ensures
        spec_deserialize_response(b) == Err::<ResponseView, DecodeError>(DecodeError::Truncated),
{
}

/// Decoding a response whose evaluated-element field is not the encoding of
/// a group element of the valid subgroup always fails.
pub proof fn lemma_response_invalid_element(b: Seq<u8>)
    requires
        b.len() == 64,
        !is_point(b.subrange(0, 32)),
    ensures
        spec_deserialize_response(b) == Err::<ResponseView, DecodeError>(
            DecodeError::InvalidElement,
        ),
{
}

} // verus!
