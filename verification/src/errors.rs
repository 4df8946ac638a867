//! Failure taxonomy of the transfer protocol.
//!
//! Every failure is fatal to its connection; nothing is retried inside
//! the engine.  An admission rejection is not an error: it is a normal
//! outcome signalled on the wire by the end-of-stream sentinel.

use vstd::prelude::*;

verus! {

/// Why a connection or a single transfer failed.
#[derive(Debug, Clone, Copy, PartialEq, Eq, Structural)]
pub enum TransferError {
    /// A handshake message was malformed or could not be verified, or
    /// the stream broke during the handshake.
    Handshake,
    /// A frame could not be sealed or opened, or a payload was too
    /// large to fit one frame.
    Framing,
    /// A field or a sentinel appeared where the protocol does not allow
    /// it, for instance a declared size that the body never reached.
    Protocol,
    /// The locally stored identity token does not have exactly 64
    /// bytes; the send is aborted before any network write.
    IdentityInvalid,
    /// The peer signalled end-of-stream before the declared file size
    /// was reached.
    Incomplete,
    /// An operating-system error on a socket, a file or the metadata
    /// store, surfaced by the surrounding binary.
    Io,
}

impl TransferError {
    /// A short human-readable description of the failure.
    pub fn describe(&self) -> (r: &'static str)
        ensures
            r@.len() > 0,
            self is Handshake ==> r@ == "handshake failed"@,
            self is Framing ==> r@ == "encrypted framing failed"@,
            self is Protocol ==> r@ == "protocol violation"@,
            self is IdentityInvalid ==> r@ == "identity token must have 64 characters"@,
            self is Incomplete ==> r@ == "transfer ended before the declared size"@,
            self is Io ==> r@ == "input/output error"@,
    {
        let r = match self {
            TransferError::Handshake => "handshake failed",
            TransferError::Framing => "encrypted framing failed",
            TransferError::Protocol => "protocol violation",
            TransferError::IdentityInvalid => "identity token must have 64 characters",
            TransferError::Incomplete => "transfer ended before the declared size",
            TransferError::Io => "input/output error",
        };
        proof {
            reveal_strlit("handshake failed");
            reveal_strlit("encrypted framing failed");
            reveal_strlit("protocol violation");
            reveal_strlit("identity token must have 64 characters");
            reveal_strlit("transfer ended before the declared size");
            reveal_strlit("input/output error");
        }
        r
    }
}

} // verus!
