//! Tests of the registration state machine: determinism of finish, freshness
//! of blinding, single use of the state, and the end-to-end scenario.

use opaque_client::codec::RegistrationResponse;
use opaque_client::codec::RegistrationUpload;
use opaque_client::errors::ProtocolError;
use opaque_client::errors::RegisterError;
use opaque_client::registration::finish;
use opaque_client::registration::finish_message_bytes;
use opaque_client::registration::start;
use opaque_client::suite;

use curve25519_dalek::constants::RISTRETTO_BASEPOINT_POINT;
use curve25519_dalek::ristretto::CompressedRistretto;
use curve25519_dalek::ristretto::RistrettoPoint;
use curve25519_dalek::scalar::Scalar;
use sha2::Digest;
use sha2::Sha512;

/// A deterministic valid (non-identity) Ristretto255 element encoding.
fn valid_point(seed: u8) -> [u8; 32] {
    RistrettoPoint::from_uniform_bytes(&[seed; 64])
        .compress()
        .to_bytes()
}

fn valid_response_bytes() -> Vec<u8> {
    let mut bytes = valid_point(3).to_vec();
    bytes.extend_from_slice(&valid_point(4));
    bytes
}

#[test]
fn finish_is_deterministic() {
    // A fixed state blob: the canonical encoding of the scalar 2, then the
    // password bytes.
    let mut state_bytes = vec![0u8; 32];
    state_bytes[0] = 2;
    state_bytes.extend_from_slice(b"a password");
    let response_bytes = valid_response_bytes();

    let first = finish_message_bytes(&state_bytes, &response_bytes).unwrap();
    let second = finish_message_bytes(&state_bytes, &response_bytes).unwrap();
    assert_eq!(first, second);
}

#[test]
fn same_password_yields_fresh_requests() {
    let one = start(b"same password").unwrap();
    let two = start(b"same password").unwrap();
    assert_ne!(one.request.serialize(), two.request.serialize());
    assert_ne!(one.state.serialize(), two.state.serialize());
}

#[test]
fn state_is_single_use() {
    let mut result = start(b"once only").unwrap();
    let response = RegistrationResponse::deserialize(&valid_response_bytes()).unwrap();

    let first = finish(&mut result.state, &response);
    assert!(first.is_ok());
    assert!(result.state.is_consumed());

    let second = finish(&mut result.state, &response);
    assert!(matches!(
        second,
        Err(RegisterError::Protocol(ProtocolError::StateConsumed))
    ));
}

#[test]
fn consumed_state_forgets_secrets() {
    let mut result = start(b"secret password").unwrap();
    let response = RegistrationResponse::deserialize(&valid_response_bytes()).unwrap();
    finish(&mut result.state, &response).unwrap();
    // After consumption the blob is the zeroed blinding field alone: the
    // password bytes are gone.
    assert_eq!(result.state.serialize(), vec![0u8; 32]);
}

#[test]
fn end_to_end_scenario() {
    let password = b"correct horse battery staple";
    let result = start(password).unwrap();

    let request_bytes = result.request.serialize();
    assert_eq!(request_bytes.len(), suite::ELEMENT_LEN);
    // The request is itself a valid encoding of a group element.
    assert!(CompressedRistretto::from_slice(&request_bytes)
        .decompress()
        .is_some());

    let state_bytes = result.state.serialize();
    assert_eq!(state_bytes.len(), suite::SCALAR_LEN + password.len());

    let response_bytes = valid_response_bytes();
    assert_eq!(response_bytes.len(), suite::RESPONSE_LEN);

    let upload_bytes = finish_message_bytes(&state_bytes, &response_bytes).unwrap();
    assert_eq!(upload_bytes.len(), suite::UPLOAD_LEN);
    // Client public key: 32 bytes, a valid group element.
    assert!(CompressedRistretto::from_slice(&upload_bytes[..32])
        .decompress()
        .is_some());
    // Explicit length field, then the envelope of the suite's fixed size.
    assert_eq!(&upload_bytes[32..34], &[0u8, 96u8]);
    assert_eq!(upload_bytes.len() - 34, suite::ENVELOPE_LEN);
    let decoded = RegistrationUpload::deserialize(&upload_bytes).unwrap();
    assert_eq!(decoded.serialize(), upload_bytes);
}

#[test]
fn empty_password_is_accepted() {
    let result = start(b"").unwrap();
    assert_eq!(result.request.serialize().len(), suite::ELEMENT_LEN);
    assert_eq!(result.state.serialize().len(), suite::SCALAR_LEN);

    let upload = finish_message_bytes(&result.state.serialize(), &valid_response_bytes());
    assert!(upload.is_ok());
}

#[test]
fn finish_matches_primitive_composition() {
    // Recompute the whole finish step directly from the underlying
    // primitives and check the engine agrees byte for byte.
    let mut blind = [0u8; 32];
    blind[0] = 2;
    let password = b"vector";
    let mut state_bytes = blind.to_vec();
    state_bytes.extend_from_slice(password);
    let beta = valid_point(9);
    let server_pk = valid_point(10);
    let mut response_bytes = beta.to_vec();
    response_bytes.extend_from_slice(&server_pk);

    let got = finish_message_bytes(&state_bytes, &response_bytes).unwrap();

    let scalar = Scalar::from_canonical_bytes(blind).unwrap();
    let unblinded = (CompressedRistretto::from_slice(&beta).decompress().unwrap()
        * scalar.invert())
    .compress()
    .to_bytes();

    let mut oprf_input = vec![suite::TAG_OPRF_OUTPUT];
    oprf_input.extend_from_slice(password);
    oprf_input.extend_from_slice(&unblinded);
    let oprf_output = Sha512::digest(&oprf_input);

    let mut stretched = [0u8; 64];
    argon2::Argon2::default()
        .hash_password_into(&oprf_output, &[0u8; argon2::MIN_SALT_LEN], &mut stretched)
        .unwrap();
    assert_ne!(stretched.to_vec(), oprf_output.to_vec());

    let mut sk_input = vec![suite::TAG_CLIENT_KEY];
    sk_input.extend_from_slice(&stretched);
    let mut sk_digest = [0u8; 64];
    sk_digest.copy_from_slice(&Sha512::digest(&sk_input));
    let sk = Scalar::from_bytes_mod_order_wide(&sk_digest);
    let client_pk = (RISTRETTO_BASEPOINT_POINT * sk).compress().to_bytes();

    let mut pad_input = vec![suite::TAG_PAD];
    pad_input.extend_from_slice(&stretched);
    let pad = Sha512::digest(&pad_input);
    let cipher: Vec<u8> = sk
        .to_bytes()
        .iter()
        .zip(pad.iter().take(32))
        .map(|(a, b)| a ^ b)
        .collect();

    let mut auth_key_input = vec![suite::TAG_AUTH_KEY];
    auth_key_input.extend_from_slice(&stretched);
    let auth_key = Sha512::digest(&auth_key_input);

    let mut tag_input = vec![suite::TAG_AUTH];
    tag_input.extend_from_slice(&auth_key);
    tag_input.extend_from_slice(&server_pk);
    tag_input.extend_from_slice(&cipher);
    let tag = Sha512::digest(&tag_input);

    let mut expected = client_pk.to_vec();
    expected.push(0);
    expected.push(96);
    expected.extend_from_slice(&cipher);
    expected.extend_from_slice(&tag);

    assert_eq!(got, expected);
}

#[test]
fn start_from_seed_matches_primitive_composition() {
    // With a fixed seed the blinding is deterministic; recompute it directly
    // from the underlying primitives and check the engine agrees.
    let password = b"pinned";
    let seed = [1u8; 64];
    let one = opaque_client::registration::start_from_seed(password, &seed).unwrap();
    let two = opaque_client::registration::start_from_seed(password, &seed).unwrap();
    assert_eq!(one.request.serialize(), two.request.serialize());
    assert_eq!(one.state.serialize(), two.state.serialize());

    let blind = Scalar::from_bytes_mod_order_wide(&seed);
    let mut h2g_input = vec![opaque_client::suite::TAG_HASH_TO_GROUP];
    h2g_input.extend_from_slice(password);
    let mut digest = [0u8; 64];
    digest.copy_from_slice(&Sha512::digest(&h2g_input));
    let element = (RistrettoPoint::from_uniform_bytes(&digest) * blind)
        .compress()
        .to_bytes();
    assert_eq!(one.request.serialize(), element.to_vec());

    let mut state_bytes = blind.to_bytes().to_vec();
    state_bytes.extend_from_slice(password);
    assert_eq!(one.state.serialize(), state_bytes);
}

#[test]
fn slow_hash_is_deterministic_and_stretches() {
    let input = [7u8; 64];
    let first = opaque_client::registration::slow_hash(&input).unwrap();
    let second = opaque_client::registration::slow_hash(&input).unwrap();
    assert_eq!(first, second);
    assert_eq!(first.len(), 64);
    // The stretch really transforms its input.
    assert_ne!(first, input.to_vec());
    let other = opaque_client::registration::slow_hash(&[8u8; 64]).unwrap();
    assert_ne!(first, other);
}

#[test]
fn decode_failures_surface_verbatim() {
    let response_bytes = valid_response_bytes();
    // A bad state blob is reported as its decode error.
    let r = finish_message_bytes(&[1u8; 5], &response_bytes);
    assert!(matches!(
        r,
        Err(RegisterError::Decode(
            opaque_client::errors::DecodeError::Truncated
        ))
    ));
    // A bad response likewise.
    let result = start(b"pw").unwrap();
    let r = finish_message_bytes(&result.state.serialize(), &response_bytes[..63]);
    assert!(matches!(
        r,
        Err(RegisterError::Decode(
            opaque_client::errors::DecodeError::Truncated
        ))
    ));
}
