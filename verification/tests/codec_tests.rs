//! Tests of the message codec: round trips, truncation, trailing bytes and
//! invalid group elements.

use opaque_client::codec::ClientRegistrationState;
use opaque_client::codec::RegistrationRequest;
use opaque_client::codec::RegistrationResponse;
use opaque_client::codec::RegistrationUpload;
use opaque_client::errors::DecodeError;
use opaque_client::registration::finish_message_bytes;
use opaque_client::registration::start;

use curve25519_dalek::ristretto::RistrettoPoint;

/// A deterministic valid (non-identity) Ristretto255 element encoding.
fn valid_point(seed: u8) -> [u8; 32] {
    RistrettoPoint::from_uniform_bytes(&[seed; 64])
        .compress()
        .to_bytes()
}

fn valid_response_bytes() -> Vec<u8> {
    let mut bytes = valid_point(3).to_vec();
    bytes.extend_from_slice(&valid_point(4));
    bytes
}

#[test]
fn request_round_trip() {
    let result = start(b"hunter2").unwrap();
    let encoded = result.request.serialize();
    let decoded = RegistrationRequest::deserialize(&encoded).unwrap();
    assert_eq!(decoded, result.request);
    assert_eq!(decoded.serialize(), encoded);
}

#[test]
fn request_rejects_bad_input() {
    assert_eq!(
        RegistrationRequest::deserialize(&[7u8; 31]),
        Err(DecodeError::Truncated)
    );
    assert_eq!(
        RegistrationRequest::deserialize(&[7u8; 33]),
        Err(DecodeError::TrailingBytes)
    );
    assert_eq!(
        RegistrationRequest::deserialize(&[0xFFu8; 32]),
        Err(DecodeError::InvalidElement)
    );
    assert_eq!(
        RegistrationRequest::deserialize(&[0u8; 32]),
        Err(DecodeError::IdentityElement)
    );
}

#[test]
fn state_round_trip() {
    let result = start(b"a password").unwrap();
    let encoded = result.state.serialize();
    let decoded = ClientRegistrationState::deserialize(&encoded).unwrap();
    assert_eq!(decoded, result.state);
    assert_eq!(decoded.serialize(), encoded);
}

#[test]
fn state_rejects_bad_input() {
    assert_eq!(
        ClientRegistrationState::deserialize(&[1u8; 31]),
        Err(DecodeError::Truncated)
    );
    // Not a canonical scalar encoding.
    let mut blob = vec![0xFFu8; 32];
    blob.extend_from_slice(b"pw");
    assert_eq!(
        ClientRegistrationState::deserialize(&blob),
        Err(DecodeError::InvalidScalar)
    );
    // The zero scalar cannot be a blinding factor.
    let mut blob = vec![0u8; 32];
    blob.extend_from_slice(b"pw");
    assert_eq!(
        ClientRegistrationState::deserialize(&blob),
        Err(DecodeError::InvalidScalar)
    );
}

#[test]
fn response_round_trip() {
    let bytes = valid_response_bytes();
    let decoded = RegistrationResponse::deserialize(&bytes).unwrap();
    assert_eq!(decoded.serialize(), bytes);
}

#[test]
fn response_rejects_truncation() {
    let mut bytes = valid_response_bytes();
    bytes.pop();
    assert_eq!(
        RegistrationResponse::deserialize(&bytes),
        Err(DecodeError::Truncated)
    );
    assert_eq!(
        RegistrationResponse::deserialize(&[]),
        Err(DecodeError::Truncated)
    );
}

#[test]
fn response_rejects_trailing_bytes() {
    let mut bytes = valid_response_bytes();
    bytes.push(0);
    assert_eq!(
        RegistrationResponse::deserialize(&bytes),
        Err(DecodeError::TrailingBytes)
    );
}

#[test]
fn response_rejects_invalid_elements() {
    let mut bytes = vec![0xFFu8; 32];
    bytes.extend_from_slice(&valid_point(4));
    assert_eq!(
        RegistrationResponse::deserialize(&bytes),
        Err(DecodeError::InvalidElement)
    );

    let mut bytes = vec![0u8; 32];
    bytes.extend_from_slice(&valid_point(4));
    assert_eq!(
        RegistrationResponse::deserialize(&bytes),
        Err(DecodeError::IdentityElement)
    );

    let mut bytes = valid_point(3).to_vec();
    bytes.extend_from_slice(&[0xFFu8; 32]);
    assert_eq!(
        RegistrationResponse::deserialize(&bytes),
        Err(DecodeError::InvalidElement)
    );
}

#[test]
fn upload_codec() {
    let result = start(b"pw").unwrap();
    let upload = finish_message_bytes(&result.state.serialize(), &valid_response_bytes()).unwrap();

    let decoded = RegistrationUpload::deserialize(&upload).unwrap();
    assert_eq!(decoded.serialize(), upload);

    let mut truncated = upload.clone();
    truncated.pop();
    assert_eq!(
        RegistrationUpload::deserialize(&truncated),
        Err(DecodeError::Truncated)
    );

    let mut trailing = upload.clone();
    trailing.push(0);
    assert_eq!(
        RegistrationUpload::deserialize(&trailing),
        Err(DecodeError::TrailingBytes)
    );

    let mut bad_prefix = upload.clone();
    bad_prefix[33] = 95;
    assert_eq!(
        RegistrationUpload::deserialize(&bad_prefix),
        Err(DecodeError::LengthMismatch)
    );

    let mut bad_key = upload;
    bad_key[..32].copy_from_slice(&[0xFFu8; 32]);
    assert_eq!(
        RegistrationUpload::deserialize(&bad_key),
        Err(DecodeError::InvalidElement)
    );
}
