//! Trusted boundary around the `snow` Noise-protocol implementation.
//!
//! The engine delegates all key agreement and AEAD work to `snow`.
//! Each function here wraps exactly one step of that crate's API and
//! states only what `snow`'s own source shows of it; everything built
//! on top (message order, framing, the sentinel) is verified in the
//! neighbouring modules.

use vstd::prelude::*;

verus! {

#[verifier::external_type_specification]
#[verifier::external_body]
/// An in-progress Noise handshake held by `snow`.
pub struct ExHandshakeState(snow::HandshakeState);

#[verifier::external_type_specification]
#[verifier::external_body]
/// A completed handshake's pair of transport ciphers held by `snow`.
pub struct ExTransportState(snow::TransportState);

#[verifier::external_type_specification]
#[verifier::external_body]
/// `snow`'s error value; the engine never looks inside it.
pub struct ExSnowError(snow::Error);

/// The length of the authentication tag that `snow`'s AEAD ciphers
/// append to every sealed payload.
pub const TAG_LEN: usize = 16;

/// The largest message the Noise protocol allows on the wire.
pub const MAX_NOISE_MESSAGE: usize = 65535;

/// Relies on `snow::Builder`: parses the given Noise pattern, generates
/// a fresh static keypair and builds the initiator's handshake state.
#[verifier::external_body]
pub(crate) fn build_initiator(pattern: &str) -> (r: Result<snow::HandshakeState, snow::Error>) {
    let builder = snow::Builder::new(pattern.parse()?);
    let keys = builder.generate_keypair()?;
    builder.local_private_key(&keys.private)?.build_initiator()
}

/// Relies on `snow::Builder`: parses the given Noise pattern, generates
/// a fresh static keypair and builds the responder's handshake state.
#[verifier::external_body]
pub(crate) fn build_responder(pattern: &str) -> (r: Result<snow::HandshakeState, snow::Error>) {
    let builder = snow::Builder::new(pattern.parse()?);
    let keys = builder.generate_keypair()?;
    builder.local_private_key(&keys.private)?.build_responder()
}

/// Relies on `snow::HandshakeState::write_message`: on success the
/// constructed handshake message never exceeds the Noise maximum.
#[verifier::external_body]
pub(crate) fn hs_write(hs: &mut snow::HandshakeState, payload: &[u8]) -> (r: Result<
    Vec<u8>,
    snow::Error,
>)
    ensures
        r is Ok ==> r->Ok_0@.len() <= MAX_NOISE_MESSAGE,
{
    let mut buf = vec![0u8; 65535];
    match hs.write_message(payload, &mut buf) {
        Ok(n) => {
            buf.truncate(n);
            Ok(buf)
        },
        Err(e) => Err(e),
    }
}

/// Relies on `snow::HandshakeState::read_message`: on success the
/// decrypted payload fits the 65535-byte buffer handed to the call.
#[verifier::external_body]
pub(crate) fn hs_read(hs: &mut snow::HandshakeState, message: &[u8]) -> (r: Result<
    Vec<u8>,
    snow::Error,
>)
    ensures
        r is Ok ==> r->Ok_0@.len() <= MAX_NOISE_MESSAGE,
{
    let mut buf = vec![0u8; 65535];
    match hs.read_message(message, &mut buf) {
        Ok(n) => {
            buf.truncate(n);
            Ok(buf)
        },
        Err(e) => Err(e),
    }
}

/// Relies on `snow::HandshakeState::into_transport_mode`: succeeds only
/// once the message pattern has been played to its end.
#[verifier::external_body]
pub(crate) fn into_transport(hs: snow::HandshakeState) -> (r: Result<
    snow::TransportState,
    snow::Error,
>) {
    hs.into_transport_mode()
}

/// Relies on `snow::TransportState::write_message`: a sealed payload is
/// the payload length plus the 16-byte tag, and a payload that would
/// overflow the Noise maximum is refused.
#[verifier::external_body]
pub(crate) fn transport_seal(t: &mut snow::TransportState, payload: &[u8]) -> (r: Result<
    Vec<u8>,
    snow::Error,
>)
    ensures
        r is Ok ==> r->Ok_0@.len() == payload@.len() + TAG_LEN,
        payload@.len() + TAG_LEN > MAX_NOISE_MESSAGE ==> r is Err,
{
    let mut buf = vec![0u8; 65535];
    match t.write_message(payload, &mut buf) {
        Ok(n) => {
            buf.truncate(n);
            Ok(buf)
        },
        Err(e) => Err(e),
    }
}

/// Relies on `snow::TransportState::read_message`: opening succeeds
/// only on a ciphertext of at least the 16-byte tag, and yields exactly
/// the ciphertext minus that tag.
#[verifier::external_body]
pub(crate) fn transport_open(t: &mut snow::TransportState, ciphertext: &[u8]) -> (r: Result<
    Vec<u8>,
    snow::Error,
>)
    ensures
        r is Ok ==> ciphertext@.len() >= TAG_LEN && r->Ok_0@.len() + TAG_LEN == ciphertext@.len(),
{
    let mut buf = vec![0u8; ciphertext.len()];
    match t.read_message(ciphertext, &mut buf) {
        Ok(n) => {
            buf.truncate(n);
            Ok(buf)
        },
        Err(e) => Err(e),
    }
}

} // verus!
