//! The encrypted framing channel.
//!
//! After the handshake every logical message is sealed with the
//! transport state and travels as a 2-byte big-endian ciphertext length
//! followed by the ciphertext.  A frame whose declared length is
//! exactly zero is the reserved end-of-stream sentinel: it carries no
//! ciphertext, is never handed to the opening routine, and doubles as
//! the sender's "body finished" signal and the receiver's final
//! acknowledgment.  A failed seal or open is fatal to the connection;
//! no resynchronisation is attempted.

use vstd::prelude::*;
use vstd::slice::slice_subrange;
use crate::errors::TransferError;
use crate::noise;
use crate::noise::MAX_NOISE_MESSAGE;
use crate::noise::TAG_LEN;
use crate::wire::be16;
use crate::wire::be_to_u16;
use crate::wire::u16_to_be;

verus! {

/// The declared length of the frame starting at `pos`: the value of its
/// 2-byte big-endian prefix.
pub open spec fn frame_len_at(input: Seq<u8>, pos: int) -> int
    recommends
        0 <= pos,
        pos + 2 <= input.len(),
{
    be16(input.subrange(pos, pos + 2))
}

/// The end-of-stream sentinel: a frame of declared length zero.
pub fn sentinel_frame() -> (r: Vec<u8>)
    ensures
        r@.len() == 2,
        be16(r@) == 0,
{
    u16_to_be(0)
}

/// Seal one plaintext into one frame: the 2-byte big-endian length of
/// the ciphertext, then the ciphertext itself (the plaintext plus the
/// 16-byte tag).  A sealed frame always declares a length of at least
/// 16, so it can never be mistaken for the sentinel.  Fails when the
/// plaintext would not fit one frame or when the seal itself fails.
pub fn seal_frame(t: &mut snow::TransportState, plaintext: &[u8]) -> (r: Result<
    Vec<u8>,
    TransferError,
>)
    ensures
        r is Ok ==> r->Ok_0@.len() == plaintext@.len() + 2 + TAG_LEN,
        r is Ok ==> be16(r->Ok_0@.subrange(0, 2)) == plaintext@.len() + TAG_LEN,
        r is Ok ==> frame_len_at(r->Ok_0@, 0) >= TAG_LEN,
        plaintext@.len() + TAG_LEN > MAX_NOISE_MESSAGE ==> r is Err,
        r is Err ==> r->Err_0 == TransferError::Framing,
{
    let mut ciphertext = match noise::transport_seal(t, plaintext) {
        Ok(c) => c,
        Err(_) => {
            return Err(TransferError::Framing);
        },
    };
    let mut frame = u16_to_be(ciphertext.len() as u16);
    frame.append(&mut ciphertext);
    assert(frame@.subrange(0, 2) =~= frame@.take(2));
    Ok(frame)
}

/// Open one non-sentinel frame's ciphertext.  The sentinel (declared
/// length zero) must never reach this routine.
pub fn open_frame(t: &mut snow::TransportState, ciphertext: &[u8]) -> (r: Result<
    Vec<u8>,
    TransferError,
>)
    requires
        ciphertext@.len() > 0,
    ensures
        r is Ok ==> r->Ok_0@.len() + TAG_LEN == ciphertext@.len(),
        r is Err ==> r->Err_0 == TransferError::Framing,
{
    match noise::transport_open(t, ciphertext) {
        Ok(p) => Ok(p),
        Err(_) => Err(TransferError::Framing),
    }
}

/// Read one frame from a byte stream, `input` from position `pos` on.
/// A sentinel comes back as an empty payload, consuming exactly the two
/// prefix bytes and opening nothing — the transport state is left
/// untouched, so the AEAD sequence numbers cannot desync; a data frame
/// is opened and comes back with the position just past its ciphertext.
/// A stream too short for its own declared length, and a ciphertext
/// that fails to open, fail the connection.
pub fn read_encrypted(t: &mut snow::TransportState, input: &Vec<u8>, pos: usize) -> (r: Result<
    (Vec<u8>, usize),
    TransferError,
>)
    requires
        pos <= input@.len(),
    ensures
        r is Ok ==> pos + 2 <= input@.len(),
        (pos + 2 <= input@.len() && frame_len_at(input@, pos as int) == 0) ==> (r is Ok
            && r->Ok_0.0@.len() == 0 && r->Ok_0.1 == pos + 2 && *final(t) == *old(t)),
        (r is Ok && frame_len_at(input@, pos as int) != 0) ==> {
            let declared = frame_len_at(input@, pos as int);
            &&& pos + 2 + declared <= input@.len()
            &&& r->Ok_0.1 == pos + 2 + declared
            &&& r->Ok_0.0@.len() + TAG_LEN == declared
        },
        r is Err ==> r->Err_0 == TransferError::Framing,
{
    if input.len() - pos < 2 {
        return Err(TransferError::Framing);
    }
    let prefix = slice_subrange(input.as_slice(), pos, pos + 2);
    let declared = be_to_u16(prefix) as usize;
    assert(declared == frame_len_at(input@, pos as int));
    if declared == 0 {
        let empty: Vec<u8> = Vec::new();
        return Ok((empty, pos + 2));
    }
    if input.len() - (pos + 2) < declared {
        return Err(TransferError::Framing);
    }
    let ciphertext = slice_subrange(input.as_slice(), pos + 2, pos + 2 + declared);
    match open_frame(t, ciphertext) {
        Ok(payload) => Ok((payload, pos + 2 + declared)),
        Err(e) => Err(e),
    }
}

/// Judge the 2-byte prefix the sender reads while waiting for the
/// receiver's acknowledgment: only the sentinel completes the transfer;
/// any other value is a protocol error.
pub fn ack_outcome(len_prefix: u16) -> (r: Result<(), TransferError>)
    ensures
        r is Ok <==> len_prefix == 0,
        r is Err ==> r->Err_0 == TransferError::Protocol,
{
    if len_prefix == 0 {
        Ok(())
    } else {
        Err(TransferError::Protocol)
    }
}

} // verus!
