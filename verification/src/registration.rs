//! The two-step client registration state machine.
//!
//! `start` blinds the password with a fresh random scalar and hands back the
//! request together with the private state; `finish` consumes the server's
//! response and that state, unblinds the evaluated element, stretches it with
//! the slow hash, derives the client key pair deterministically from the
//! stretched material and seals the envelope.  The only randomness of the
//! whole registration is the blinding scalar drawn in `start`: given its
//! state and response values, `finish` is a pure function, and a state value
//! is single-use — a second `finish` on the same value fails.

use vstd::prelude::*;
use vstd::slice::slice_subrange;
use vstd::slice::slice_to_vec;

use crate::byteops::append_bytes;
use crate::byteops::concat2;
use crate::byteops::is_zero32;
use crate::byteops::xor_bytes;
use crate::byteops::xor_seq;
use crate::byteops::zero32;
use crate::codec::spec_deserialize_response;
use crate::codec::spec_deserialize_state;
use crate::codec::spec_serialize_upload;
use crate::codec::ClientRegistrationState;
use crate::codec::RegistrationRequest;
use crate::codec::RegistrationResponse;
use crate::codec::RegistrationUpload;
use crate::codec::ResponseView;
use crate::codec::StateView;
use crate::codec::UploadView;
use crate::errors::ProtocolError;
use crate::errors::RegisterError;
use crate::primitives::argon2_stretch;
use crate::primitives::base_mul_of;
use crate::primitives::base_mul;
use crate::primitives::from_uniform_of;
use crate::primitives::is_point;
use crate::primitives::point_mul;
use crate::primitives::point_mul_of;
use crate::primitives::random_bytes_64;
use crate::primitives::ristretto_from_uniform;
use crate::primitives::scalar_invert;
use crate::primitives::scalar_invert_of;
use crate::primitives::scalar_reduce_wide;
use crate::primitives::scalar_reduce_wide_of;
use crate::primitives::sha512;
use crate::primitives::sha512_of;
use crate::primitives::slow_hash_of;
use crate::suite::BLIND_RETRY_LIMIT;
use crate::suite::TAG_AUTH;
use crate::suite::TAG_AUTH_KEY;
use crate::suite::TAG_CLIENT_KEY;
use crate::suite::TAG_HASH_TO_GROUP;
use crate::suite::TAG_OPRF_OUTPUT;
use crate::suite::TAG_PAD;

verus! {

/// What `start` returns: the request message for the server and the private
/// state the caller must hold until `finish`.
pub struct StartResult {
    /// The registration request to send to the server.
    pub request: RegistrationRequest,
    /// The private client state: blinding scalar and password.
    pub state: ClientRegistrationState,
}

/// The blinded element a request carries: the password hashed onto the
/// group, multiplied by the blinding scalar.
pub open spec fn spec_blinded_element(password: Seq<u8>, blind: Seq<u8>) -> Seq<u8> {
    point_mul_of(blind, from_uniform_of(sha512_of(seq![TAG_HASH_TO_GROUP] + password)))
}

/// The raw OPRF output `finish` derives: a digest over the password and the
/// evaluated element with the blinding removed.
pub open spec fn spec_oprf_output(password: Seq<u8>, blind: Seq<u8>, evaluated: Seq<u8>) -> Seq<
    u8,
> {
    sha512_of(
        seq![TAG_OPRF_OUTPUT] + password + point_mul_of(scalar_invert_of(blind), evaluated),
    )
}

/// The client private key derived deterministically from the stretched key
/// material.
pub open spec fn spec_client_sk(stretched: Seq<u8>) -> Seq<u8> {
    scalar_reduce_wide_of(sha512_of(seq![TAG_CLIENT_KEY] + stretched))
}

/// The upload sealed from the stretched key material under the server's
/// public key: the client public key, and an envelope made of the private
/// key masked with a derived pad followed by an authentication tag that
/// binds the server public key.
pub open spec fn spec_seal(server_pk: Seq<u8>, stretched: Seq<u8>) -> UploadView {
    let sk = spec_client_sk(stretched);
    let pad = sha512_of(seq![TAG_PAD] + stretched).subrange(0, 32);
    let cipher = xor_seq(sk, pad);
    let auth_key = sha512_of(seq![TAG_AUTH_KEY] + stretched);
    let tag = sha512_of(seq![TAG_AUTH] + auth_key + server_pk + cipher);
    UploadView { client_pk: base_mul_of(sk), envelope: cipher + tag }
}

/// The upload that `finish` produces, as a function of the state and
/// response values and the cipher-suite constants alone.
pub open spec fn spec_finish(s: StateView, r: ResponseView) -> UploadView {
    spec_seal(r.server_pk, slow_hash_of(spec_oprf_output(s.password, s.blind, r.evaluated)))
}

/// The suite's slow hash: stretches one digest-sized block of key material
/// into another, deterministically, so client and server derive matching
/// keys independently.  The suite's fixed configuration is accepted by the
/// memory-hard primitive, so the call succeeds; the error shape remains in
/// the signature because a runtime failure of the primitive would still be
/// surfaced here, never retried.
pub fn slow_hash(input: &[u8]) -> (r: Result<Vec<u8>, RegisterError>)
    requires
        input@.len() == 64,
    ensures
        r matches Ok(v) && v@ == slow_hash_of(input@) && v@.len() == 64,
{
    argon2_stretch(input)
}

/// A fresh byte string `[tag] + bytes`, used for domain separation of the
/// suite's hash.
fn tag_concat(tag: u8, bytes: &[u8]) -> (r: Vec<u8>)
    ensures
        r@ == seq![tag] + bytes@,
{
    let mut out: Vec<u8> = Vec::new();
    out.push(tag);
    append_bytes(&mut out, bytes);
    proof {
        assert(Seq::<u8>::empty().push(tag) =~= seq![tag]);
    }
    out
}

/// One blinding attempt from a caller-supplied 64-byte seed: deterministic,
/// so a test can substitute a fixed seed for the secure source.  `start` is
/// the production entry and draws fresh seeds from the operating system.
///
/// Fails exactly when the seed reduces to the zero scalar or the password
/// blinds to the identity element, both of which the protocol rejects.
pub fn start_from_seed(password: &[u8], seed: &[u8]) -> (r: Result<StartResult, RegisterError>)
    requires
        seed@.len() == 64,
    ensures
        r matches Ok(sr) ==> sr.request.wf() && sr.state.wf() && !sr.state@.consumed
            && sr.state@.password == password@ && sr.state@.blind == scalar_reduce_wide_of(seed@)
            && sr.request@ == spec_blinded_element(password@, sr.state@.blind),
        (r is Err) == (scalar_reduce_wide_of(seed@) == zero32() || spec_blinded_element(
            password@,
            scalar_reduce_wide_of(seed@),
        ) == zero32()),
        r matches Err(e) ==> e == RegisterError::Protocol(ProtocolError::RetriesExhausted),
{
    let tagged = tag_concat(TAG_HASH_TO_GROUP, password);
    let digest = sha512(tagged.as_slice());
    let point = ristretto_from_uniform(digest.as_slice());
    let blind = scalar_reduce_wide(seed);
    if is_zero32(blind.as_slice()) {
        return Err(RegisterError::Protocol(ProtocolError::RetriesExhausted));
    }
    let element = match point_mul(blind.as_slice(), point.as_slice()) {
        Some(v) => v,
        None => { return Err(RegisterError::Protocol(ProtocolError::RetriesExhausted)) },
    };
    if is_zero32(element.as_slice()) {
        return Err(RegisterError::Protocol(ProtocolError::RetriesExhausted));
    }
    Ok(
        StartResult {
            request: RegistrationRequest::from_element(element),
            state: ClientRegistrationState::from_parts(blind, slice_to_vec(password)),
        },
    )
}

/// Opens a registration: blinds `password` with a fresh random scalar and
/// returns the request together with the private state.
///
/// The password may be empty; the engine enforces no length policy.  A draw
/// that yields the zero scalar or blinds to the identity element is rejected
/// and retried internally with fresh randomness; only an unavailable random
/// source, or a retry budget spent without an acceptable draw, is surfaced.
pub fn start(password: &[u8]) -> (r: Result<StartResult, RegisterError>)
    ensures
        r matches Ok(sr) ==> sr.request.wf() && sr.state.wf() && !sr.state@.consumed
            && sr.state@.password == password@ && sr.request@ == spec_blinded_element(
            password@,
            sr.state@.blind,
        ),
        r matches Err(e) ==> e == RegisterError::RandomSource || e == RegisterError::Protocol(
            ProtocolError::RetriesExhausted,
        ),
{
    let mut attempts: usize = 0;
    while attempts < BLIND_RETRY_LIMIT
        invariant
            attempts <= BLIND_RETRY_LIMIT,
        decreases BLIND_RETRY_LIMIT - attempts,
    {
        let seed = match random_bytes_64() {
            Ok(v) => v,
            Err(e) => { return Err(e) },
        };
        match start_from_seed(password, seed.as_slice()) {
            Ok(sr) => { return Ok(sr) },
            Err(_) => {},
        }
        attempts += 1;
    }
    Err(RegisterError::Protocol(ProtocolError::RetriesExhausted))
}

/// Seals the registration upload from the stretched key material under the
/// server's public key.  A pure, total function: this is the whole of
/// `finish` after the slow hash, and its result is fully determined by the
/// two arguments.
pub fn seal_envelope(server_pk: &[u8], stretched: &[u8]) -> (u: RegistrationUpload)
    requires
        server_pk@.len() == 32,
        stretched@.len() == 64,
    ensures
        u@ == spec_seal(server_pk@, stretched@),
        u.wf(),
        is_point(u@.client_pk),
{
    let sk_digest = sha512(tag_concat(TAG_CLIENT_KEY, stretched).as_slice());
    let sk = scalar_reduce_wide(sk_digest.as_slice());
    let client_pk = base_mul(sk.as_slice());
    let pad_digest = sha512(tag_concat(TAG_PAD, stretched).as_slice());
    let pad = slice_subrange(pad_digest.as_slice(), 0, 32);
    let cipher = xor_bytes(sk.as_slice(), pad);
    let auth_key = sha512(tag_concat(TAG_AUTH_KEY, stretched).as_slice());
    let mut tag_input = tag_concat(TAG_AUTH, auth_key.as_slice());
    append_bytes(&mut tag_input, server_pk);
    append_bytes(&mut tag_input, cipher.as_slice());
    let tag = sha512(tag_input.as_slice());
    let envelope = concat2(cipher.as_slice(), tag.as_slice());
    RegistrationUpload::from_parts(client_pk, envelope)
}

/// Closes a registration: consumes the state and the server's response and
/// produces the upload.
///
/// Pure in its inputs — no randomness enters here, so byte-identical state
/// and response values give a byte-identical upload.  A state already
/// consumed by a prior successful `finish` is rejected and left unchanged;
/// on any other well-formed input the upload is produced, the state is
/// marked consumed and its secrets (blinding scalar, password) are erased.
pub fn finish(state: &mut ClientRegistrationState, response: &RegistrationResponse) -> (r: Result<
    RegistrationUpload,
    RegisterError,
>)
    requires
        old(state).wf(),
        response.wf(),
    ensures
        old(state)@.consumed ==> (r matches Err(e) && e == RegisterError::Protocol(
            ProtocolError::StateConsumed,
        )) && final(state)@ == old(state)@,
        !old(state)@.consumed ==> (r matches Ok(u) && u@ == spec_finish(old(state)@, response@)
            && u.wf() && final(state)@.consumed && final(state)@.password == Seq::<u8>::empty()
            && final(state)@.blind == zero32() && final(state).wf()),
{
    if state.is_consumed() {
        return Err(RegisterError::Protocol(ProtocolError::StateConsumed));
    }
    let inverse = scalar_invert(state.blind_slice());
    let unblinded = match point_mul(inverse.as_slice(), response.evaluated_slice()) {
        Some(v) => v,
        None => { return Err(RegisterError::SlowHash) },
    };
    let mut oprf_input = tag_concat(TAG_OPRF_OUTPUT, state.password_slice());
    append_bytes(&mut oprf_input, unblinded.as_slice());
    let oprf_output = sha512(oprf_input.as_slice());
    let stretched = match argon2_stretch(oprf_output.as_slice()) {
        Ok(v) => v,
        Err(e) => { return Err(e) },
    };
    let upload = seal_envelope(response.server_pk_slice(), stretched.as_slice());
    state.consume();
    Ok(upload)
}

/// The whole client `finish` step over wire bytes: decodes the state blob
/// and the response, runs `finish`, and encodes the upload.  Decoding
/// failures are surfaced verbatim as `Decode` errors; whenever both inputs
/// decode, the upload is produced.
pub fn finish_message_bytes(state_bytes: &[u8], response_bytes: &[u8]) -> (r: Result<
    Vec<u8>,
    RegisterError,
>)
    ensures
        spec_deserialize_state(state_bytes@) matches Err(e) ==> r == Err::<Vec<u8>, RegisterError>(
            RegisterError::Decode(e),
        ),
        spec_deserialize_state(state_bytes@) matches Ok(sv) ==> (spec_deserialize_response(
            response_bytes@,
        ) matches Err(e) ==> r == Err::<Vec<u8>, RegisterError>(RegisterError::Decode(e))),
        spec_deserialize_state(state_bytes@) matches Ok(sv) ==> (spec_deserialize_response(
            response_bytes@,
        ) matches Ok(rv) ==> (r matches Ok(out) && out@ == spec_serialize_upload(
            spec_finish(sv, rv),
        ))),
{
    let mut state = match ClientRegistrationState::deserialize(state_bytes) {
        Ok(s) => s,
        Err(e) => { return Err(RegisterError::Decode(e)) },
    };
    let response = match RegistrationResponse::deserialize(response_bytes) {
        Ok(p) => p,
        Err(e) => { return Err(RegisterError::Decode(e)) },
    };
    match finish(&mut state, &response) {
        Ok(upload) => Ok(upload.serialize()),
        Err(e) => Err(e),
    }
}

/// Sealing is reversible: the envelope's leading key-sized field is the
/// client private key masked with the pad derived from the stretched
/// material, so masking it once more with that pad returns the key.  The
/// length facts required here hold of every sealed envelope, by the
/// contracts of the suite's hash and scalar reduction.
pub proof fn lemma_envelope_opens(server_pk: Seq<u8>, stretched: Seq<u8>)
    requires
        spec_client_sk(stretched).len() == 32,
        sha512_of(seq![TAG_PAD] + stretched).len() == 64,
    ensures
        xor_seq(
            spec_seal(server_pk, stretched).envelope.subrange(0, 32),
            sha512_of(seq![TAG_PAD] + stretched).subrange(0, 32),
        ) == spec_client_sk(stretched),
{
    let sk = spec_client_sk(stretched);
    let pad = sha512_of(seq![TAG_PAD] + stretched).subrange(0, 32);
    assert(spec_seal(server_pk, stretched).envelope.subrange(0, 32) =~= xor_seq(sk, pad));
    crate::byteops::lemma_xor_involution(sk, pad);
}

/// Finishing is deterministic: equal state values and equal response values
/// always seal equal uploads — no hidden randomness enters `finish`.
pub proof fn lemma_finish_deterministic(
    s1: StateView,
    r1: ResponseView,
    s2: StateView,
    r2: ResponseView,
)
    requires
        s1 == s2,
        r1 == r2,
    ensures
        spec_finish(s1, r1) == spec_finish(s2, r2),
{
}

} // verus!
