//! The receive server's state and the per-connection receiver session.
//!
//! `FileReceiver` holds the process-wide state: the receive mode, the
//! listener's running flag and the inbound slot pool.  `RecvSession`
//! drives one accepted connection through the protocol after its
//! handshake: identity, admission, filename length, filename, file
//! size, body chunks, completion.  The session decides; the caller
//! performs the socket, file and address-book work the decisions ask
//! for.

use vstd::prelude::*;
use vstd::utf8::decode_utf8;
use vstd::utf8::valid_utf8;
use crate::admission::spec_admits;
use crate::admission::ReceiveStatus;
use crate::errors::TransferError;
use crate::identity::IDENTITY_LEN;
use crate::records::FileReceiveRecord;
use crate::slots::SlotPool;
use crate::wire::be64;
use crate::wire::be_to_u64;

verus! {

/// How many inbound connections may run at the same time.
pub const INBOUND_SLOTS: usize = 10;

/// The receiver's per-read bound on one body chunk.
pub const RECV_CHUNK: u64 = 65536;

/// Relies on `String::from_utf8`: succeeds exactly on valid UTF-8 and
/// yields the characters those bytes encode.
#[verifier::external_body]
fn utf8_to_string(bytes: Vec<u8>) -> (r: Option<String>)
    ensures
        r is Some <==> valid_utf8(bytes@),
        r is Some ==> r->0@ == decode_utf8(bytes@),
{
    match String::from_utf8(bytes) {
        Ok(s) => Some(s),
        Err(_) => None,
    }
}

/// An identity payload the protocol accepts: exactly 64 bytes of valid
/// UTF-8.
pub open spec fn identity_payload_ok(p: Seq<u8>) -> bool {
    p.len() == IDENTITY_LEN && valid_utf8(p)
}

/// Where a receiver session stands in the per-connection protocol.
#[derive(Debug, Clone, Copy, PartialEq, Eq, Structural)]
pub enum RecvPhase {
    /// Waiting for the 64-byte identity frame.
    AwaitIdentity,
    /// Waiting for the whitelist lookup's result.
    AwaitWhitelist,
    /// Waiting for the 8-byte filename length.
    AwaitNameLen,
    /// Waiting for the filename bytes.
    AwaitName,
    /// Waiting for the 8-byte file size.
    AwaitSize,
    /// Waiting for body chunks until the declared size is reached.
    AwaitBody,
    /// The declared size arrived in full; the transfer is complete.
    Done,
    /// Admission was denied; the rejection sentinel closes the
    /// connection cleanly.
    Rejected,
    /// The peer sent its sentinel before declaring a file; nothing was
    /// stored and nothing failed.
    ClosedEarly,
    /// A protocol violation or an incomplete body; the connection is
    /// aborted.
    Failed,
}

/// What the caller must do next with a session's connection.
#[derive(Debug, Clone, Copy, PartialEq, Eq, Structural)]
pub enum RecvAction {
    /// Read the next encrypted frame and feed it back.
    Proceed,
    /// Look the presented identity up in the whitelist and report the
    /// result.
    CheckWhitelist,
    /// Write the sentinel and close; the connection was not admitted.
    Reject,
    /// Append the chunk just fed to the destination file, then read on.
    StoreChunk,
    /// Append nothing more: write the sentinel as acknowledgment and
    /// record the completed transfer.
    Complete,
    /// The peer closed cleanly before declaring a file; just close.
    CloseEarly,
    /// Abort the connection with this error.
    Fail(TransferError),
}

/// One accepted connection's protocol state, from just after the
/// handshake to completion.
pub struct RecvSession {
    mode: ReceiveStatus,
    peer: String,
    phase: RecvPhase,
    identity: String,
    name_len: u64,
    name: String,
    size: u64,
    received: u64,
}

impl RecvSession {
    /// The session's internal consistency: the whitelist is consulted
    /// only in `Collect` mode, a body is awaited only while bytes are
    /// missing, and a finished body matches its declared size.
    pub closed spec fn wf(&self) -> bool {
        &&& (self.phase == RecvPhase::AwaitWhitelist ==> self.mode == ReceiveStatus::Collect)
        &&& (self.phase == RecvPhase::AwaitBody ==> self.received < self.size)
        &&& (self.phase == RecvPhase::Done ==> self.received == self.size)
    }

    /// The receive mode this connection is evaluated under.
    pub closed spec fn spec_mode(&self) -> ReceiveStatus {
        self.mode
    }

    /// Where the session stands.
    pub closed spec fn spec_phase(&self) -> RecvPhase {
        self.phase
    }

    /// The sender's address, kept for the transfer record.
    pub closed spec fn spec_peer(&self) -> Seq<char> {
        self.peer@
    }

    /// The identity the peer presented.
    pub closed spec fn spec_identity(&self) -> Seq<char> {
        self.identity@
    }

    /// The filename the peer declared.
    pub closed spec fn spec_name(&self) -> Seq<char> {
        self.name@
    }

    /// The file size the peer declared.
    pub closed spec fn spec_size(&self) -> u64 {
        self.size
    }

    /// How many body bytes have arrived.
    pub closed spec fn spec_received(&self) -> u64 {
        self.received
    }

    /// A fresh session for one accepted connection, evaluated under the
    /// mode read at accept time.
    pub fn new(mode: ReceiveStatus, peer: String) -> (r: RecvSession)
        ensures
            r.wf(),
            r.spec_phase() == RecvPhase::AwaitIdentity,
            r.spec_mode() == mode,
            r.spec_peer() == peer@,
    {
        RecvSession {
            mode,
            peer,
            phase: RecvPhase::AwaitIdentity,
            identity: String::new(),
            name_len: 0,
            name: String::new(),
            size: 0,
            received: 0,
        }
    }

    /// Where the session stands.
    pub fn phase(&self) -> (r: RecvPhase)
        ensures
            r == self.spec_phase(),
    {
        self.phase
    }

    /// The identity the peer presented, for the whitelist lookup and
    /// the transfer record.
    pub fn identity(&self) -> (r: &String)
        ensures
            r@ == self.spec_identity(),
    {
        &self.identity
    }

    /// The filename the peer declared.
    pub fn name(&self) -> (r: &String)
        ensures
            r@ == self.spec_name(),
    {
        &self.name
    }

    /// The file size the peer declared.
    pub fn size(&self) -> (r: u64)
        ensures
            r == self.spec_size(),
    {
        self.size
    }

    /// How many body bytes have arrived.
    pub fn received(&self) -> (r: u64)
        ensures
            r == self.spec_received(),
    {
        self.received
    }

    /// Feed the first frame's payload: the 64-byte identity.  Anything
    /// but 64 bytes of valid UTF-8 aborts the connection.  Under
    /// `Closed` the connection is rejected at once, without reading
    /// past the identity; under `Open` it proceeds regardless of any
    /// whitelist; under `Collect` the caller is asked to consult the
    /// whitelist.
    pub fn on_identity(&mut self, payload: Vec<u8>) -> (r: RecvAction)
        requires
            old(self).wf(),
            old(self).spec_phase() == RecvPhase::AwaitIdentity,
        ensures
            final(self).wf(),
            final(self).spec_mode() == old(self).spec_mode(),
            final(self).spec_peer() == old(self).spec_peer(),
            !identity_payload_ok(payload@) ==> r == RecvAction::Fail(TransferError::Protocol)
                && final(self).spec_phase() == RecvPhase::Failed,
            identity_payload_ok(payload@) ==> final(self).spec_identity() == decode_utf8(payload@),
            identity_payload_ok(payload@) && old(self).spec_mode() == ReceiveStatus::Closed ==> r
                == RecvAction::Reject && final(self).spec_phase() == RecvPhase::Rejected,
            identity_payload_ok(payload@) && old(self).spec_mode() == ReceiveStatus::Open ==> r
                == RecvAction::Proceed && final(self).spec_phase() == RecvPhase::AwaitNameLen,
            identity_payload_ok(payload@) && old(self).spec_mode() == ReceiveStatus::Collect ==> r
                == RecvAction::CheckWhitelist && final(self).spec_phase()
                == RecvPhase::AwaitWhitelist,
    {
        if payload.len() != IDENTITY_LEN {
            self.phase = RecvPhase::Failed;
            return RecvAction::Fail(TransferError::Protocol);
        }
        let identity = match utf8_to_string(payload) {
            Some(s) => s,
            None => {
                self.phase = RecvPhase::Failed;
                return RecvAction::Fail(TransferError::Protocol);
            },
        };
        self.identity = identity;
        match self.mode {
            ReceiveStatus::Closed => {
                self.phase = RecvPhase::Rejected;
                RecvAction::Reject
            },
            ReceiveStatus::Open => {
                self.phase = RecvPhase::AwaitNameLen;
                RecvAction::Proceed
            },
            ReceiveStatus::Collect => {
                self.phase = RecvPhase::AwaitWhitelist;
                RecvAction::CheckWhitelist
            },
        }
    }

    /// Feed the whitelist lookup's result.  The connection proceeds
    /// exactly when the admission rule admits it; otherwise the
    /// rejection sentinel is sent and no file bytes are ever read.
    pub fn on_whitelist(&mut self, found: bool) -> (r: RecvAction)
        requires
            old(self).wf(),
            old(self).spec_phase() == RecvPhase::AwaitWhitelist,
        ensures
            final(self).wf(),
            final(self).spec_mode() == old(self).spec_mode(),
            final(self).spec_peer() == old(self).spec_peer(),
            final(self).spec_identity() == old(self).spec_identity(),
            spec_admits(old(self).spec_mode(), found) ==> r == RecvAction::Proceed && final(self).spec_phase() == RecvPhase::AwaitNameLen,
            !spec_admits(old(self).spec_mode(), found) ==> r == RecvAction::Reject && final(self).spec_phase() == RecvPhase::Rejected,
    {
        if found {
            self.phase = RecvPhase::AwaitNameLen;
            RecvAction::Proceed
        } else {
            self.phase = RecvPhase::Rejected;
            RecvAction::Reject
        }
    }

    /// Feed a sentinel read while a frame was awaited.  Before the body
    /// it is a clean early close; during the body it means the declared
    /// size was never reached, a hard failure.
    pub fn on_sentinel(&mut self) -> (r: RecvAction)
        requires
            old(self).wf(),
            old(self).spec_phase() == RecvPhase::AwaitNameLen || old(self).spec_phase()
                == RecvPhase::AwaitName || old(self).spec_phase() == RecvPhase::AwaitSize || old(self).spec_phase() == RecvPhase::AwaitBody,
        ensures
            final(self).wf(),
            final(self).spec_mode() == old(self).spec_mode(),
            old(self).spec_phase() != RecvPhase::AwaitBody ==> r == RecvAction::CloseEarly
                && final(self).spec_phase() == RecvPhase::ClosedEarly,
            old(self).spec_phase() == RecvPhase::AwaitBody ==> r == RecvAction::Fail(
                TransferError::Incomplete,
            ) && final(self).spec_phase() == RecvPhase::Failed,
    {
        match self.phase {
            RecvPhase::AwaitBody => {
                self.phase = RecvPhase::Failed;
                RecvAction::Fail(TransferError::Incomplete)
            },
            _ => {
                self.phase = RecvPhase::ClosedEarly;
                RecvAction::CloseEarly
            },
        }
    }

    /// Feed the filename-length frame: 8 bytes, big-endian.
    pub fn on_name_len(&mut self, payload: Vec<u8>) -> (r: RecvAction)
        requires
            old(self).wf(),
            old(self).spec_phase() == RecvPhase::AwaitNameLen,
        ensures
            final(self).wf(),
            final(self).spec_mode() == old(self).spec_mode(),
            final(self).spec_peer() == old(self).spec_peer(),
            final(self).spec_identity() == old(self).spec_identity(),
            payload@.len() != 8 ==> r == RecvAction::Fail(TransferError::Protocol) && final(self).spec_phase() == RecvPhase::Failed,
            payload@.len() == 8 ==> r == RecvAction::Proceed && final(self).spec_phase()
                == RecvPhase::AwaitName && final(self).spec_name_len() == be64(payload@),
    {
        if payload.len() != 8 {
            self.phase = RecvPhase::Failed;
            return RecvAction::Fail(TransferError::Protocol);
        }
        self.name_len = be_to_u64(payload.as_slice());
        self.phase = RecvPhase::AwaitName;
        RecvAction::Proceed
    }

    /// The filename length the peer declared.
    pub closed spec fn spec_name_len(&self) -> u64 {
        self.name_len
    }

    /// Feed the filename frame.  Its length must be exactly the
    /// declared filename length and its bytes valid UTF-8.
    pub fn on_name(&mut self, payload: Vec<u8>) -> (r: RecvAction)
        requires
            old(self).wf(),
            old(self).spec_phase() == RecvPhase::AwaitName,
        ensures
            final(self).wf(),
            final(self).spec_mode() == old(self).spec_mode(),
            final(self).spec_peer() == old(self).spec_peer(),
            final(self).spec_identity() == old(self).spec_identity(),
            (payload@.len() != old(self).spec_name_len() || !valid_utf8(payload@)) ==> r
                == RecvAction::Fail(TransferError::Protocol) && final(self).spec_phase()
                == RecvPhase::Failed,
            (payload@.len() == old(self).spec_name_len() && valid_utf8(payload@)) ==> r
                == RecvAction::Proceed && final(self).spec_phase() == RecvPhase::AwaitSize && final(self).spec_name() == decode_utf8(payload@),
    {
        if payload.len() as u64 != self.name_len {
            self.phase = RecvPhase::Failed;
            return RecvAction::Fail(TransferError::Protocol);
        }
        let name = match utf8_to_string(payload) {
            Some(s) => s,
            None => {
                self.phase = RecvPhase::Failed;
                return RecvAction::Fail(TransferError::Protocol);
            },
        };
        self.name = name;
        self.phase = RecvPhase::AwaitSize;
        RecvAction::Proceed
    }

    /// Feed the file-size frame: 8 bytes, big-endian.  A size of zero
    /// completes the transfer at once: empty files are legal and carry
    /// no body chunks.
    pub fn on_size(&mut self, payload: Vec<u8>) -> (r: RecvAction)
        requires
            old(self).wf(),
            old(self).spec_phase() == RecvPhase::AwaitSize,
        ensures
            final(self).wf(),
            final(self).spec_mode() == old(self).spec_mode(),
            final(self).spec_peer() == old(self).spec_peer(),
            final(self).spec_identity() == old(self).spec_identity(),
            final(self).spec_name() == old(self).spec_name(),
            payload@.len() != 8 ==> r == RecvAction::Fail(TransferError::Protocol) && final(self).spec_phase() == RecvPhase::Failed,
            payload@.len() == 8 ==> final(self).spec_size() == be64(payload@) && final(self).spec_received() == 0,
            payload@.len() == 8 && be64(payload@) == 0 ==> r == RecvAction::Complete && final(self).spec_phase() == RecvPhase::Done,
            payload@.len() == 8 && be64(payload@) != 0 ==> r == RecvAction::Proceed && final(self).spec_phase() == RecvPhase::AwaitBody,
    {
        if payload.len() != 8 {
            self.phase = RecvPhase::Failed;
            return RecvAction::Fail(TransferError::Protocol);
        }
        self.size = be_to_u64(payload.as_slice());
        self.received = 0;
        if self.size == 0 {
            self.phase = RecvPhase::Done;
            RecvAction::Complete
        } else {
            self.phase = RecvPhase::AwaitBody;
            RecvAction::Proceed
        }
    }

    /// How many body bytes to ask the stream for next: the chunk bound,
    /// or the bytes still missing if fewer.
    pub fn body_read_limit(&self) -> (r: u64)
        requires
            self.wf(),
            self.spec_phase() == RecvPhase::AwaitBody,
        ensures
            r == if self.spec_size() - self.spec_received() < RECV_CHUNK {
                (self.spec_size() - self.spec_received()) as u64
            } else {
                RECV_CHUNK
            },
            0 < r <= RECV_CHUNK,
    {
        let remaining = self.size - self.received;
        if remaining < RECV_CHUNK {
            remaining
        } else {
            RECV_CHUNK
        }
    }

    /// Feed one non-empty body chunk's length.  The chunk's bytes go to
    /// the destination file; the session counts them.  A chunk that
    /// would pass the declared size aborts the connection; the chunk
    /// that reaches the size exactly completes the transfer.
    pub fn on_chunk(&mut self, chunk_len: u64) -> (r: RecvAction)
        requires
            old(self).wf(),
            old(self).spec_phase() == RecvPhase::AwaitBody,
            chunk_len > 0,
        ensures
            final(self).wf(),
            final(self).spec_mode() == old(self).spec_mode(),
            final(self).spec_peer() == old(self).spec_peer(),
            final(self).spec_identity() == old(self).spec_identity(),
            final(self).spec_name() == old(self).spec_name(),
            final(self).spec_size() == old(self).spec_size(),
            chunk_len > old(self).spec_size() - old(self).spec_received() ==> r
                == RecvAction::Fail(TransferError::Protocol) && final(self).spec_phase()
                == RecvPhase::Failed,
            chunk_len <= old(self).spec_size() - old(self).spec_received() ==> final(self).spec_received() == old(self).spec_received() + chunk_len,
            chunk_len == old(self).spec_size() - old(self).spec_received() ==> r
                == RecvAction::Complete && final(self).spec_phase() == RecvPhase::Done,
            0 < chunk_len < old(self).spec_size() - old(self).spec_received() ==> r
                == RecvAction::StoreChunk && final(self).spec_phase() == RecvPhase::AwaitBody,
    {
        let remaining = self.size - self.received;
        if chunk_len > remaining {
            self.phase = RecvPhase::Failed;
            return RecvAction::Fail(TransferError::Protocol);
        }
        self.received = self.received + chunk_len;
        if self.received == self.size {
            self.phase = RecvPhase::Done;
            RecvAction::Complete
        } else {
            RecvAction::StoreChunk
        }
    }

    /// Build the completed transfer's record for the address book: the
    /// declared filename, the declared (and fully received) size, the
    /// sender's address and identity, and the path the file was saved
    /// under.  The store stamps the time, so `received_at` is left
    /// empty.
    pub fn take_record(self, save_path: String) -> (r: FileReceiveRecord)
        requires
            self.wf(),
            self.spec_phase() == RecvPhase::Done,
        ensures
            r.id == 0,
            r.filename@ == self.spec_name(),
            r.file_size == self.spec_size(),
            r.file_size == self.spec_received(),
            r.sender_ipv6@ == self.spec_peer(),
            r.sender_identity@ == self.spec_identity(),
            r.save_path == save_path,
            r.received_at@ == Seq::<char>::empty(),
    {
        proof {
            assert(self.received == self.size);
        }
        FileReceiveRecord {
            id: 0,
            filename: self.name,
            file_size: self.size,
            sender_ipv6: self.peer,
            sender_identity: self.identity,
            received_at: String::new(),
            save_path,
        }
    }
}

/// What the server driver must do after a mode change.
#[derive(Debug, Clone, Copy, PartialEq, Eq, Structural)]
pub enum ServerAction {
    /// Bind the listener and start accepting.
    Start,
    /// Signal the accept loop to stop.
    Stop,
    /// Leave the listener as it is.
    Keep,
}

/// The process-wide receive state: the mode, the listener's running
/// flag and the inbound slot pool.
pub struct FileReceiver {
    mode: ReceiveStatus,
    running: bool,
    slots: SlotPool,
}

impl FileReceiver {
    /// The receiver's invariant: its slot pool respects its bound.
    pub closed spec fn wf(&self) -> bool {
        self.slots.wf() && self.slots.spec_capacity() == INBOUND_SLOTS
    }

    /// The current receive mode.
    pub closed spec fn spec_mode(&self) -> ReceiveStatus {
        self.mode
    }

    /// Whether the listener is marked running.
    pub closed spec fn spec_running(&self) -> bool {
        self.running
    }

    /// How many inbound connections hold a slot.
    pub closed spec fn spec_slots_in_use(&self) -> int {
        self.slots.spec_in_use()
    }

    /// A fresh receiver: mode `Closed`, listener down, no slot held.
    pub fn new() -> (r: FileReceiver)
        ensures
            r.wf(),
            r.spec_mode() == ReceiveStatus::Closed,
            !r.spec_running(),
            r.spec_slots_in_use() == 0,
    {
        FileReceiver { mode: ReceiveStatus::Closed, running: false, slots: SlotPool::new(
            INBOUND_SLOTS,
        ) }
    }

    /// The current receive mode.
    pub fn get_receive_status(&self) -> (r: ReceiveStatus)
        ensures
            r == self.spec_mode(),
    {
        self.mode
    }

    /// Change the receive mode and say what the listener must do:
    /// leaving `Closed` while no listener runs starts one; entering
    /// `Closed` while one runs stops it; any other change leaves the
    /// listener alone.
    pub fn set_receive_status(&mut self, status: ReceiveStatus) -> (r: ServerAction)
        requires
            old(self).wf(),
        ensures
            final(self).wf(),
            final(self).spec_mode() == status,
            final(self).spec_running() == old(self).spec_running(),
            final(self).spec_slots_in_use() == old(self).spec_slots_in_use(),
            r == ServerAction::Stop <==> (status == ReceiveStatus::Closed && old(self).spec_running()),
            r == ServerAction::Start <==> (status != ReceiveStatus::Closed && !old(self).spec_running()),
    {
        self.mode = status;
        match status {
            ReceiveStatus::Closed => {
                if self.running {
                    ServerAction::Stop
                } else {
                    ServerAction::Keep
                }
            },
            _ => {
                if !self.running {
                    ServerAction::Start
                } else {
                    ServerAction::Keep
                }
            },
        }
    }

    /// Whether a listener should run at all: under `Closed` none is
    /// ever bound.
    pub fn should_run(&self) -> (r: bool)
        ensures
            r <==> self.spec_mode() != ReceiveStatus::Closed,
    {
        match self.mode {
            ReceiveStatus::Closed => false,
            _ => true,
        }
    }

    /// Whether the listener is marked running.
    pub fn is_running(&self) -> (r: bool)
        ensures
            r == self.spec_running(),
    {
        self.running
    }

    /// Record that the listener came up or went down.
    pub fn mark_running(&mut self, on: bool)
        requires
            old(self).wf(),
        ensures
            final(self).wf(),
            final(self).spec_running() == on,
            final(self).spec_mode() == old(self).spec_mode(),
            final(self).spec_slots_in_use() == old(self).spec_slots_in_use(),
    {
        self.running = on;
    }

    /// How many inbound connections hold a slot.
    pub fn slots_in_use(&self) -> (r: usize)
        ensures
            r == self.spec_slots_in_use(),
    {
        self.slots.in_use()
    }

    /// Take an inbound slot for one accepted connection, if one of the
    /// ten is free.  A connection denied here must wait for a release.
    pub fn try_acquire_slot(&mut self) -> (granted: bool)
        requires
            old(self).wf(),
        ensures
            final(self).wf(),
            final(self).spec_mode() == old(self).spec_mode(),
            final(self).spec_running() == old(self).spec_running(),
            granted <==> old(self).spec_slots_in_use() < INBOUND_SLOTS,
            granted ==> final(self).spec_slots_in_use() == old(self).spec_slots_in_use() + 1,
            !granted ==> final(self).spec_slots_in_use() == old(self).spec_slots_in_use(),
    {
        self.slots.try_acquire()
    }

    /// Give a connection's slot back; called exactly once on every exit
    /// path of its handler.
    pub fn release_slot(&mut self)
        requires
            old(self).wf(),
            old(self).spec_slots_in_use() > 0,
        ensures
            final(self).wf(),
            final(self).spec_mode() == old(self).spec_mode(),
            final(self).spec_running() == old(self).spec_running(),
            final(self).spec_slots_in_use() == old(self).spec_slots_in_use() - 1,
    {
        self.slots.release()
    }
}

} // verus!
