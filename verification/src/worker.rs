//! The job queue that feeds the single compression worker.
//!
//! Every request handler enqueues; exactly one worker dequeues and runs
//! `publish` one job at a time, so no two generation attempts for the same
//! (path, kind) pair ever run concurrently. The queue is first-in
//! first-out and is never pruned: duplicate jobs are legal and cheap, since
//! a fresh artifact makes a repeated publish a no-op.

use vstd::prelude::*;

use crate::compression::Compression;
use crate::compression::copy_bytes;

verus! {

/// One unit of generation work: publish the artifact of `kind` for the
/// file at `path`. Consumed exactly once; it has no identity beyond its
/// fields.
pub struct CompressionJob {
    pub path: Vec<u8>,
    pub kind: Compression,
}

impl View for CompressionJob {
    type V = (Seq<u8>, Compression);

    open spec fn view(&self) -> (Seq<u8>, Compression) {
        (self.path@, self.kind)
    }
}

/// The jobs the completion hook enqueues for one successfully served path:
/// one per supported kind, in dispatch order.
pub open spec fn jobs_for_path(path: Seq<u8>) -> Seq<(Seq<u8>, Compression)> {
    seq![
        (path, Compression::Gzip),
        (path, Compression::Deflate),
        (path, Compression::Brotli),
        (path, Compression::Zstd),
    ]
}

/// The first-in first-out queue of pending compression jobs, viewed as the
/// sequence of (path, kind) pairs in processing order.
pub struct JobQueue {
    jobs: Vec<CompressionJob>,
}

impl View for JobQueue {
    type V = Seq<(Seq<u8>, Compression)>;

    closed spec fn view(&self) -> Seq<(Seq<u8>, Compression)> {
        self.jobs@.map_values(|j: CompressionJob| j@)
    }
}

impl JobQueue {
    /// An empty queue.
    pub fn new() -> (r: JobQueue)
        ensures
            r@ == Seq::<(Seq<u8>, Compression)>::empty(),
    {
        let r = JobQueue { jobs: Vec::new() };
        proof {
            assert(r@ =~= Seq::<(Seq<u8>, Compression)>::empty());
        }
        r
    }

    /// How many jobs are pending.
    pub fn len(&self) -> (r: usize)
        ensures
            r == self@.len(),
    {
        self.jobs.len()
    }

    fn push_job(&mut self, path: &Vec<u8>, kind: Compression)
        ensures
            final(self)@ == old(self)@ + seq![(path@, kind)],
    {
        let job = CompressionJob { path: copy_bytes(path), kind };
        self.jobs.push(job);
        proof {
            assert(final(self)@ =~= old(self)@ + seq![(path@, kind)]);
        }
    }

    /// The completion hook: called once the serving layer has determined
    /// the outcome of a read of `path`. A successful read enqueues one job
    /// per supported kind, in dispatch order; a failed read enqueues
    /// nothing.
    pub fn on_read_complete(&mut self, path: &Vec<u8>, success: bool)
        ensures
            success ==> final(self)@ == old(self)@ + jobs_for_path(path@),
            !success ==> final(self)@ == old(self)@,
    {
        if !success {
            return;
        }
        self.push_job(path, Compression::Gzip);
        self.push_job(path, Compression::Deflate);
        self.push_job(path, Compression::Brotli);
        self.push_job(path, Compression::Zstd);
        proof {
            assert(final(self)@ =~= old(self)@ + jobs_for_path(path@));
        }
    }

    /// The worker takes the oldest pending job; `None` when the queue is
    /// drained. Jobs leave in enqueue order.
    pub fn pop_front(&mut self) -> (r: Option<CompressionJob>)
        ensures
            old(self)@.len() == 0 ==> r is None && final(self)@ == old(self)@,
            old(self)@.len() > 0 ==> r is Some && r.unwrap()@ == old(self)@[0] && final(self)@
                == old(self)@.subrange(1, old(self)@.len() as int),
    {
        if self.jobs.len() == 0 {
            return None;
        }
        let j = self.jobs.remove(0);
        proof {
            assert(final(self)@ =~= old(self)@.subrange(1, old(self)@.len() as int));
        }
        Some(j)
    }
}

} // verus!
