//! Byte-granular progress accounting for one streaming file.
//!
//! The ingestion loop reads the body in chunks, writes each chunk to the
//! destination file, and records it here; recording publishes one progress
//! event per chunk.  The tracker's invariant ties the two together: the
//! events published for the file account for exactly the bytes recorded,
//! which is the byte length of the file on disk once every written chunk
//! has been recorded.

use crate::protos::ServerMessage;
use vstd::prelude::*;

verus! {

/// The sum of the byte counts of the `SendFileRequest` events for `fid`
/// among `msgs`.
pub open spec fn progress_total(msgs: Seq<ServerMessage>, fid: Seq<char>) -> int
    decreases msgs.len(),
{
    if msgs.len() == 0 {
        0
    } else {
        progress_total(msgs.drop_last(), fid) + (match msgs.last() {
            ServerMessage::SendFileRequest(f, n) => if f@ == fid {
                n as int
            } else {
                0
            },
            _ => 0,
        })
    }
}

/// Progress bookkeeping for one file while its body streams in.
pub struct FileProgress {
    pub file_id: String,
    /// Bytes recorded so far.
    pub bytes_received: u64,
    /// The progress events this tracker has published.
    pub history: Ghost<Seq<ServerMessage>>,
}

impl FileProgress {
    /// Progress accounting: the events published for this file account for
    /// exactly the bytes recorded.
    pub open spec fn wf(self) -> bool {
        self.bytes_received == progress_total(self.history@, self.file_id@)
    }

    /// A fresh tracker: no bytes, no events.
    pub fn new(file_id: String) -> (p: FileProgress)
        ensures
            p.wf(),
            p.file_id@ == file_id@,
            p.bytes_received == 0,
            p.history@ == Seq::<ServerMessage>::empty(),
    {
        FileProgress { file_id, bytes_received: 0, history: Ghost(Seq::empty()) }
    }

    /// Record one chunk of `n` bytes just written, and publish the matching
    /// progress event.  Fails only when the running total would exceed
    /// `u64::MAX`, leaving everything unchanged.
    pub fn record_chunk(&mut self, n: usize, outbox: &mut Vec<ServerMessage>) -> (ok: bool)
        requires
            old(self).wf(),
        ensures
            final(self).wf(),
            final(self).file_id@ == old(self).file_id@,
            ok ==> {
                &&& final(self).bytes_received == old(self).bytes_received + n
                &&& final(outbox)@.len() == old(outbox)@.len() + 1
                &&& final(outbox)@.drop_last() == old(outbox)@
                &&& final(outbox)@.last() matches ServerMessage::SendFileRequest(f, m) && f@
                    == old(self).file_id@ && m == n
                &&& final(self).history@ == old(self).history@.push(final(outbox)@.last())
            },
            !ok ==> {
                &&& old(self).bytes_received + n > u64::MAX
                &&& *final(self) == *old(self)
                &&& *final(outbox) == *old(outbox)
            },
    {
        if n as u64 > u64::MAX - self.bytes_received {
            return false;
        }
        let msg = ServerMessage::SendFileRequest(self.file_id.clone(), n);
        let ghost m = msg;
        outbox.push(msg);
        self.bytes_received = self.bytes_received + n as u64;
        proof {
            let h = self.history@.push(m);
            assert(h.drop_last() =~= old(self).history@);
            assert(outbox@.drop_last() =~= old(outbox)@);
        }
        self.history = Ghost(self.history@.push(m));
        true
    }
}

/// Progress law: for a well-formed tracker the byte counts of the progress
/// events published for its file sum to exactly the bytes it has recorded
/// — the on-disk byte length, once every written chunk is recorded.
pub proof fn lemma_progress_accounts_for_bytes(p: FileProgress)
    requires
        p.wf(),
    ensures
        progress_total(p.history@, p.file_id@) == p.bytes_received,
{
}

} // verus!
