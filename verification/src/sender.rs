//! The sender's message plan and the outbound transfer bookkeeping.
//!
//! For each (target, file) pair a connection is opened, the handshake
//! run as initiator, and then the identity, the filename length, the
//! filename and the file size are sent as one encrypted frame each,
//! followed by the body in fixed-size chunks, the end-of-stream
//! sentinel, and a blocking wait for the receiver's sentinel as
//! acknowledgment.  At most five transfers are in flight at once; one
//! item's failure never cancels its siblings, and every batch comes
//! back as a full per-item result list with aggregate counts.

use vstd::prelude::*;
use vstd::slice::slice_subrange;
use vstd::slice::slice_to_vec;
use vstd::string::StringSliceAdditionalSpecFns;
use crate::errors::TransferError;
use crate::identity::IDENTITY_LEN;
use crate::slots::SlotPool;
use crate::wire::be64;
use crate::wire::u64_to_be;

verus! {

/// How many outbound transfers may be in flight at the same time.
pub const OUTBOUND_SLOTS: usize = 5;

/// The fixed size of one body chunk; each chunk is sealed and sent as
/// its own frame, and must fit one frame with its tag.
pub const SEND_CHUNK: u64 = 32768;

/// The per-item outcome of a batch: the file's path and how its
/// transfer ended.
pub type SendOutcome = (String, Result<(), TransferError>);

/// How many outcomes of the sequence succeeded.
pub open spec fn count_ok(s: Seq<SendOutcome>) -> int
    decreases s.len(),
{
    if s.len() == 0 {
        0
    } else {
        count_ok(s.drop_last()) + if s.last().1 is Ok {
            1int
        } else {
            0int
        }
    }
}

/// The sender's process-wide state: the outbound slot pool.
pub struct FileSender {
    slots: SlotPool,
}

impl FileSender {
    /// The sender's invariant: its slot pool respects its bound.
    pub closed spec fn wf(&self) -> bool {
        self.slots.wf() && self.slots.spec_capacity() == OUTBOUND_SLOTS
    }

    /// How many outbound transfers hold a slot.
    pub closed spec fn spec_slots_in_use(&self) -> int {
        self.slots.spec_in_use()
    }

    /// A fresh sender with no transfer in flight.
    pub fn new() -> (r: FileSender)
        ensures
            r.wf(),
            r.spec_slots_in_use() == 0,
    {
        FileSender { slots: SlotPool::new(OUTBOUND_SLOTS) }
    }

    /// How many outbound transfers hold a slot.
    pub fn slots_in_use(&self) -> (r: usize)
        ensures
            r == self.spec_slots_in_use(),
    {
        self.slots.in_use()
    }

    /// Take a slot for one outbound transfer, if one of the five is
    /// free.  A transfer denied here queues until a slot frees; it may
    /// not open its connection without a slot.
    pub fn try_acquire_slot(&mut self) -> (granted: bool)
        requires
            old(self).wf(),
        ensures
            final(self).wf(),
            granted <==> old(self).spec_slots_in_use() < OUTBOUND_SLOTS,
            granted ==> final(self).spec_slots_in_use() == old(self).spec_slots_in_use() + 1,
            !granted ==> final(self).spec_slots_in_use() == old(self).spec_slots_in_use(),
    {
        self.slots.try_acquire()
    }

    /// Give a transfer's slot back; called exactly once on every exit
    /// path, success or failure.
    pub fn release_slot(&mut self)
        requires
            old(self).wf(),
            old(self).spec_slots_in_use() > 0,
        ensures
            final(self).wf(),
            final(self).spec_slots_in_use() == old(self).spec_slots_in_use() - 1,
    {
        self.slots.release()
    }
}

/// The target address a transfer actually connects to: an empty target
/// defaults to the local host, `::1`; anything else is used as given.
pub fn effective_target<'a>(ipv6_addr: &'a str) -> (r: &'a str)
    ensures
        ipv6_addr@.len() == 0 ==> r@ == "::1"@,
        ipv6_addr@.len() != 0 ==> r@ == ipv6_addr@,
{
    if ipv6_addr.is_empty() {
        "::1"
    } else {
        ipv6_addr
    }
}

/// The four header payloads of one transfer, in wire order: the 64-byte
/// identity, the 8-byte big-endian filename length, the filename bytes,
/// and the 8-byte big-endian file size.  A stored identity of any other
/// length aborts the send before any network write.
pub fn header_payloads(identity: &str, file_name: &Vec<u8>, file_size: u64) -> (r: Result<
    Vec<Vec<u8>>,
    TransferError,
>)
    ensures
        r is Err <==> identity.spec_bytes().len() != IDENTITY_LEN,
        r is Err ==> r->Err_0 == TransferError::IdentityInvalid,
        r is Ok ==> {
            let h = r->Ok_0@;
            &&& h.len() == 4
            &&& h[0]@ == identity.spec_bytes()
            &&& h[0]@.len() == IDENTITY_LEN
            &&& h[1]@.len() == 8 && be64(h[1]@) == file_name@.len()
            &&& h[2]@ == file_name@
            &&& h[3]@.len() == 8 && be64(h[3]@) == file_size
        },
{
    if !crate::identity::identity_len_ok(identity) {
        return Err(TransferError::IdentityInvalid);
    }
    let token = slice_to_vec(identity.as_bytes());
    let mut headers: Vec<Vec<u8>> = Vec::new();
    headers.push(token);
    headers.push(u64_to_be(file_name.len() as u64));
    headers.push(file_name.clone());
    headers.push(u64_to_be(file_size));
    assert(headers@[2]@ =~= file_name@);
    Ok(headers)
}

/// How many body bytes to read from the file and seal next: the chunk
/// size, or the bytes still unsent if fewer.  Zero exactly when the
/// whole body has been sent.
pub fn next_chunk_len(file_size: u64, sent: u64) -> (r: u64)
    requires
        sent <= file_size,
    ensures
        r == if file_size - sent < SEND_CHUNK {
            (file_size - sent) as u64
        } else {
            SEND_CHUNK
        },
        r == 0 <==> sent == file_size,
{
    let remaining = file_size - sent;
    if remaining < SEND_CHUNK {
        remaining
    } else {
        SEND_CHUNK
    }
}

/// The byte sequences a list of chunks carries.
pub open spec fn chunk_views(chunks: Seq<Vec<u8>>) -> Seq<Seq<u8>> {
    chunks.map_values(|v: Vec<u8>| v@)
}

/// Split a body into the chunks the sender seals, one frame each: every
/// chunk is non-empty, none exceeds the chunk size, and in order they
/// are exactly the body.  An empty body has no chunks at all.
pub fn body_chunks(body: &Vec<u8>) -> (r: Vec<Vec<u8>>)
    ensures
        chunk_views(r@).flatten() == body@,
        forall|i: int| 0 <= i < r@.len() ==> 0 < #[trigger] r@[i]@.len() <= SEND_CHUNK,
{
    let mut chunks: Vec<Vec<u8>> = Vec::new();
    let mut sent: usize = 0;
    proof {
        assert(chunk_views(chunks@).flatten() =~= body@.take(0));
    }
    while sent < body.len()
        invariant
            sent <= body@.len(),
            chunk_views(chunks@).flatten() == body@.take(sent as int),
            forall|i: int| 0 <= i < chunks@.len() ==> 0 < #[trigger] chunks@[i]@.len()
                <= SEND_CHUNK,
        decreases body@.len() - sent,
    {
        let n = next_chunk_len(body.len() as u64, sent as u64) as usize;
        proof {
            assert(sent + n <= body@.len());
        }
        let chunk = slice_to_vec(slice_subrange(body.as_slice(), sent, sent + n));
        let ghost pre = chunks@;
        chunks.push(chunk);
        proof {
            assert(chunk_views(chunks@) =~= chunk_views(pre).push(chunk@));
            chunk_views(pre).lemma_flatten_push(chunk@);
            assert(body@.take(sent as int) + chunk@ =~= body@.take((sent + n) as int));
        }
        sent = sent + n;
    }
    proof {
        assert(body@.take(body@.len() as int) =~= body@);
    }
    chunks
}

/// Aggregate a batch's outcomes: how many items succeeded and how many
/// failed.  The two always add up to the batch's length.
pub fn summarize(results: &Vec<SendOutcome>) -> (r: (usize, usize))
    ensures
        r.0 == count_ok(results@),
        r.0 + r.1 == results@.len(),
{
    let mut ok: usize = 0;
    let n = results.len();
    for i in 0..n
        invariant
            n == results@.len(),
            ok == count_ok(results@.take(i as int)),
            ok <= i,
    {
        proof {
            assert(results@.take(i + 1).drop_last() =~= results@.take(i as int));
            assert(results@.take(i + 1).last() == results@[i as int]);
        }
        if results[i].1.is_ok() {
            ok = ok + 1;
        }
    }
    proof {
        assert(results@.take(n as int) =~= results@);
    }
    (ok, n - ok)
}

} // verus!
