//! The receiver's protocol, driven over an in-memory byte stream.
//!
//! These drivers run the per-connection receiver session against a
//! stream of encrypted frames held in one buffer: first the identity
//! and the admission decision, then filename, size and body to the
//! completed record.  What they decide is exactly what `RecvSession`
//! decides frame by frame; what they add is the bookkeeping of stream
//! positions — a rejected connection consumes nothing past the identity
//! frame — and of the assembled body, which always has exactly the
//! declared size.

use vstd::prelude::*;
use crate::admission::ReceiveStatus;
use crate::channel::frame_len_at;
use crate::channel::read_encrypted;
use crate::errors::TransferError;
use crate::receiver::RecvAction;
use crate::receiver::RecvPhase;
use crate::receiver::RecvSession;
use crate::records::FileReceiveRecord;

verus! {

/// How a connection's admission phase came out.
#[derive(Debug, Clone, Copy, PartialEq, Eq, Structural)]
pub enum StreamAdmission {
    /// The connection may deliver its file.
    Admitted,
    /// The mode is `Collect`: the caller must look the identity up and
    /// report the result to the session.
    NeedWhitelist,
    /// The connection is turned away; the caller sends the sentinel and
    /// closes.
    Rejected,
    /// The peer sent its sentinel instead of an identity and is done.
    ClosedEarly,
}

/// How a connection's content phase came out.
#[derive(Debug)]
pub enum StreamReceipt {
    /// The declared size arrived in full: the transfer's record and the
    /// body bytes, in order of arrival.
    Completed(FileReceiveRecord, Vec<u8>),
    /// The peer sent its sentinel before declaring a file.
    ClosedEarly,
}

/// Read the identity frame and decide admission.  Exactly one frame is
/// consumed, whatever the decision: a connection turned away reads
/// nothing past its identity.  A sentinel in place of the identity is
/// owed a clean early close: it consumes only its 2-byte prefix and
/// leaves the session untouched.
pub fn admit_from_stream(
    t: &mut snow::TransportState,
    session: &mut RecvSession,
    input: &Vec<u8>,
    pos: usize,
) -> (r: Result<(StreamAdmission, usize), TransferError>)
    requires
        old(session).wf(),
        old(session).spec_phase() == RecvPhase::AwaitIdentity,
        pos <= input@.len(),
    ensures
        final(session).wf(),
        final(session).spec_mode() == old(session).spec_mode(),
        final(session).spec_peer() == old(session).spec_peer(),
        r is Ok ==> {
            let (admission, consumed) = r->Ok_0;
            &&& pos + 2 <= consumed <= input@.len()
            &&& (consumed == pos + 2 || consumed == pos + 2 + frame_len_at(input@, pos as int))
            &&& (old(session).spec_mode() == ReceiveStatus::Open ==> admission
                != StreamAdmission::NeedWhitelist && admission != StreamAdmission::Rejected)
            &&& (old(session).spec_mode() == ReceiveStatus::Closed ==> admission
                != StreamAdmission::Admitted && admission != StreamAdmission::NeedWhitelist)
            &&& (admission == StreamAdmission::Admitted ==> final(session).spec_phase()
                == RecvPhase::AwaitNameLen)
            &&& (admission == StreamAdmission::NeedWhitelist ==> final(session).spec_phase()
                == RecvPhase::AwaitWhitelist && old(session).spec_mode() == ReceiveStatus::Collect)
            &&& (admission == StreamAdmission::Rejected ==> final(session).spec_phase()
                == RecvPhase::Rejected && old(session).spec_mode() == ReceiveStatus::Closed)
            &&& (admission == StreamAdmission::ClosedEarly ==> final(session).spec_phase()
                == RecvPhase::AwaitIdentity)
        },
        (pos + 2 <= input@.len() && frame_len_at(input@, pos as int) == 0) ==> (r is Ok
            && r->Ok_0.0 == StreamAdmission::ClosedEarly && r->Ok_0.1 == pos + 2 && *final(t)
            == *old(t)),
{
    let (payload, consumed) = match read_encrypted(t, input, pos) {
        Ok(p) => p,
        Err(e) => {
            return Err(e);
        },
    };
    if payload.len() == 0 {
        return Ok((StreamAdmission::ClosedEarly, consumed));
    }
    match session.on_identity(payload) {
        RecvAction::Proceed => Ok((StreamAdmission::Admitted, consumed)),
        RecvAction::CheckWhitelist => Ok((StreamAdmission::NeedWhitelist, consumed)),
        RecvAction::Reject => Ok((StreamAdmission::Rejected, consumed)),
        RecvAction::Fail(e) => Err(e),
        _ => Err(TransferError::Protocol),
    }
}

/// Read filename, size and body for an admitted connection, and build
/// the completed transfer's record.  The assembled body has exactly the
/// size both declared and recorded, and the record carries the identity
/// and peer address the session holds.  A sentinel in place of the
/// filename length is owed a clean early close, consuming only its
/// 2-byte prefix.
pub fn receive_content(
    t: &mut snow::TransportState,
    session: RecvSession,
    input: &Vec<u8>,
    pos: usize,
    save_path: String,
) -> (r: Result<(StreamReceipt, usize), TransferError>)
    requires
        session.wf(),
        session.spec_phase() == RecvPhase::AwaitNameLen,
        pos <= input@.len(),
    ensures
        r is Ok ==> {
            let (receipt, consumed) = r->Ok_0;
            &&& pos <= consumed <= input@.len()
            &&& (receipt matches StreamReceipt::Completed(record, body) ==> {
                &&& body@.len() == record.file_size
                &&& record.sender_identity@ == session.spec_identity()
                &&& record.sender_ipv6@ == session.spec_peer()
                &&& record.save_path == save_path
                &&& record.received_at@ == Seq::<char>::empty()
            })
        },
        (pos + 2 <= input@.len() && frame_len_at(input@, pos as int) == 0) ==> (r is Ok
            && r->Ok_0.0 is ClosedEarly && r->Ok_0.1 == pos + 2 && *final(t) == *old(t)),
{
    let mut st = session;
    let mut at = pos;

    // Filename length.
    let (payload, next) = match read_encrypted(t, input, at) {
        Ok(p) => p,
        Err(e) => {
            return Err(e);
        },
    };
    at = next;
    if payload.len() == 0 {
        st.on_sentinel();
        return Ok((StreamReceipt::ClosedEarly, at));
    }
    match st.on_name_len(payload) {
        RecvAction::Proceed => (),
        RecvAction::Fail(e) => {
            return Err(e);
        },
        _ => {
            return Err(TransferError::Protocol);
        },
    }

    // Filename.
    let (payload, next) = match read_encrypted(t, input, at) {
        Ok(p) => p,
        Err(e) => {
            return Err(e);
        },
    };
    at = next;
    if payload.len() == 0 {
        st.on_sentinel();
        return Ok((StreamReceipt::ClosedEarly, at));
    }
    match st.on_name(payload) {
        RecvAction::Proceed => (),
        RecvAction::Fail(e) => {
            return Err(e);
        },
        _ => {
            return Err(TransferError::Protocol);
        },
    }

    // File size.
    let (payload, next) = match read_encrypted(t, input, at) {
        Ok(p) => p,
        Err(e) => {
            return Err(e);
        },
    };
    at = next;
    if payload.len() == 0 {
        st.on_sentinel();
        return Ok((StreamReceipt::ClosedEarly, at));
    }
    let mut body: Vec<u8> = Vec::new();
    match st.on_size(payload) {
        RecvAction::Complete => {
            let record = st.take_record(save_path);
            return Ok((StreamReceipt::Completed(record, body), at));
        },
        RecvAction::Proceed => (),
        RecvAction::Fail(e) => {
            return Err(e);
        },
        _ => {
            return Err(TransferError::Protocol);
        },
    }

    // Body chunks until the declared size is reached.
    loop
        invariant
            st.wf(),
            st.spec_phase() == RecvPhase::AwaitBody,
            st.spec_identity() == session.spec_identity(),
            st.spec_peer() == session.spec_peer(),
            body@.len() == st.spec_received(),
            pos <= at <= input@.len(),
            !(pos + 2 <= input@.len() && frame_len_at(input@, pos as int) == 0),
        decreases input@.len() - at,
    {
        let (mut payload, next) = match read_encrypted(t, input, at) {
            Ok(p) => p,
            Err(e) => {
                return Err(e);
            },
        };
        at = next;
        if payload.len() == 0 {
            match st.on_sentinel() {
                RecvAction::Fail(e) => {
                    return Err(e);
                },
                _ => {
                    return Err(TransferError::Protocol);
                },
            }
        }
        match st.on_chunk(payload.len() as u64) {
            RecvAction::StoreChunk => {
                body.append(&mut payload);
            },
            RecvAction::Complete => {
                body.append(&mut payload);

                let record = st.take_record(save_path);
                return Ok((StreamReceipt::Completed(record, body), at));
            },
            RecvAction::Fail(e) => {
                return Err(e);
            },
            _ => {
                return Err(TransferError::Protocol);
            },
        }
    }
}

} // verus!
