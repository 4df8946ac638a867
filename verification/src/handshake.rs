//! The 3-message mutual-authentication handshake.
//!
//! Both roles use the same Noise pattern with a static key generated
//! fresh per connection; who is talking is established above this
//! layer, by the identity token.  The initiator sends message one,
//! reads message two and sends message three; the responder mirrors it.
//! Each message travels as a 2-byte big-endian length followed by the
//! message bytes, in the clear.  Any malformed message, failed
//! verification or premature close fails the connection; the caller
//! must open a new one.

use vstd::prelude::*;
use crate::errors::TransferError;
use crate::noise;
use crate::noise::MAX_NOISE_MESSAGE;
use crate::wire::be16;
use crate::wire::u16_to_be;

verus! {

/// The Noise pattern every connection runs: the XX mutual pattern over
/// Curve25519 with the ChaCha20-Poly1305 AEAD and the BLAKE2s hash.
pub const NOISE_PATTERN: &'static str = "Noise_XX_25519_ChaChaPoly_BLAKE2s";

/// Frame one plaintext handshake message for the wire: a 2-byte
/// big-endian length followed by the message itself.
pub fn plain_frame(msg: &Vec<u8>) -> (r: Vec<u8>)
    requires
        msg@.len() <= MAX_NOISE_MESSAGE,
    ensures
        r@.len() == 2 + msg@.len(),
        be16(r@.subrange(0, 2)) == msg@.len(),
        r@.skip(2) =~= msg@,
{
    let mut r = u16_to_be(msg.len() as u16);
    let mut body = msg.clone();
    assert(body@ =~= msg@);
    r.append(&mut body);
    assert(r@.subrange(0, 2) =~= r@.take(2));
    r
}

/// Start a connection as the initiator: build a fresh handshake state
/// and construct message one, ready to be framed and sent.
pub fn initiator_start() -> (r: Result<(snow::HandshakeState, Vec<u8>), TransferError>)
    ensures
        r is Ok ==> r->Ok_0.1@.len() <= MAX_NOISE_MESSAGE,
        r is Err ==> r->Err_0 == TransferError::Handshake,
{
    let mut hs = match noise::build_initiator(NOISE_PATTERN) {
        Ok(hs) => hs,
        Err(_) => {
            return Err(TransferError::Handshake);
        },
    };
    let empty: Vec<u8> = Vec::new();
    match noise::hs_write(&mut hs, empty.as_slice()) {
        Ok(msg1) => Ok((hs, msg1)),
        Err(_) => Err(TransferError::Handshake),
    }
}

/// Finish as the initiator: consume the responder's message two,
/// construct message three and turn the handshake into transport keys.
pub fn initiator_finish(hs: snow::HandshakeState, msg2: &[u8]) -> (r: Result<
    (snow::TransportState, Vec<u8>),
    TransferError,
>)
    ensures
        r is Ok ==> r->Ok_0.1@.len() <= MAX_NOISE_MESSAGE,
        r is Err ==> r->Err_0 == TransferError::Handshake,
{
    let mut hs = hs;
    match noise::hs_read(&mut hs, msg2) {
        Ok(_) => (),
        Err(_) => {
            return Err(TransferError::Handshake);
        },
    }
    let empty: Vec<u8> = Vec::new();
    let msg3 = match noise::hs_write(&mut hs, empty.as_slice()) {
        Ok(m) => m,
        Err(_) => {
            return Err(TransferError::Handshake);
        },
    };
    match noise::into_transport(hs) {
        Ok(t) => Ok((t, msg3)),
        Err(_) => Err(TransferError::Handshake),
    }
}

/// Answer a connection as the responder: build a fresh handshake state,
/// consume the initiator's message one and construct message two.
pub fn responder_start(msg1: &[u8]) -> (r: Result<
    (snow::HandshakeState, Vec<u8>),
    TransferError,
>)
    ensures
        r is Ok ==> r->Ok_0.1@.len() <= MAX_NOISE_MESSAGE,
        r is Err ==> r->Err_0 == TransferError::Handshake,
{
    let mut hs = match noise::build_responder(NOISE_PATTERN) {
        Ok(hs) => hs,
        Err(_) => {
            return Err(TransferError::Handshake);
        },
    };
    match noise::hs_read(&mut hs, msg1) {
        Ok(_) => (),
        Err(_) => {
            return Err(TransferError::Handshake);
        },
    }
    let empty: Vec<u8> = Vec::new();
    match noise::hs_write(&mut hs, empty.as_slice()) {
        Ok(msg2) => Ok((hs, msg2)),
        Err(_) => Err(TransferError::Handshake),
    }
}

/// Finish as the responder: consume message three and turn the
/// handshake into transport keys.
pub fn responder_finish(hs: snow::HandshakeState, msg3: &[u8]) -> (r: Result<
    snow::TransportState,
    TransferError,
>)
    ensures
        r is Err ==> r->Err_0 == TransferError::Handshake,
{
    let mut hs = hs;
    match noise::hs_read(&mut hs, msg3) {
        Ok(_) => (),
        Err(_) => {
            return Err(TransferError::Handshake);
        },
    }
    match noise::into_transport(hs) {
        Ok(t) => Ok(t),
        Err(_) => Err(TransferError::Handshake),
    }
}

} // verus!
