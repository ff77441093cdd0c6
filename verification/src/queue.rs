//! The command queue: the one serialization point at which recorded
//! command buffers reach the shared context.
//!
//! The legacy context has no independent command streams, so list order
//! at submission is the only execution model there is: a batch's trace
//! is exactly the concatenation of its buffers' command lists, in the
//! order they were submitted.  Because every submission must happen on
//! the context's owning thread, submissions to different queues over
//! the same context are serialized by that thread.

use vstd::prelude::*;

use crate::command::BufferState;
use crate::command::Command;
use crate::command::RawCommandPool;
use crate::native::Fence;
use crate::native::Semaphore;
use crate::share::ShareCell;
use crate::share::Starc;

verus! {

/// The replay trace a batch owes: the commands of the buffers picked
/// out by `indices`, buffer after buffer, in list order.
pub open spec fn spec_batch_trace(pool: RawCommandPool, indices: Seq<usize>) -> Seq<Command>
    decreases indices.len(),
{
    if indices.len() == 0 {
        Seq::empty()
    } else {
        spec_batch_trace(pool, indices.drop_last()) + pool.buffer_commands(
            indices.last() as int,
        )
    }
}

/// Batches never interleave: two batches submitted one after the other
/// against the same context owe exactly the trace of the first followed
/// by the trace of the second, whichever queues they went to.
pub proof fn lemma_batches_do_not_interleave(
    pool: RawCommandPool,
    first: Seq<usize>,
    second: Seq<usize>,
)
    ensures
        spec_batch_trace(pool, first + second) == spec_batch_trace(pool, first)
            + spec_batch_trace(pool, second),
    decreases second.len(),
{
    if second.len() == 0 {
        assert(first + second =~= first);
        assert(spec_batch_trace(pool, first) + spec_batch_trace(pool, second) =~= spec_batch_trace(
            pool,
            first,
        ));
    } else {
        lemma_batches_do_not_interleave(pool, first, second.drop_last());
        let whole = first + second;
        assert(whole.drop_last() =~= first + second.drop_last());
        assert(whole.last() == second.last());
        let head = spec_batch_trace(pool, first);
        let mid = spec_batch_trace(pool, second.drop_last());
        let tail = pool.buffer_commands(second.last() as int);
        assert((head + mid) + tail =~= head + (mid + tail));
    }
}

/// Every index of `indices` addresses a buffer of `pool` that is ready
/// to submit, and no buffer twice.
pub open spec fn spec_submittable(pool: RawCommandPool, indices: Seq<usize>) -> bool {
    &&& forall|j: int|
        0 <= j < indices.len() ==> indices[j] < pool.buffers().len() && pool.buffer_state(
            indices[j] as int,
        ) == BufferState::Executable
    &&& forall|j: int, k: int| 0 <= j < k < indices.len() ==> indices[j] != indices[k]
}

/// One serialized submission stream against the shared context.  It
/// carries the baseline vertex-array object synthesized at device open,
/// since the legacy context needs some bound vertex-array object before
/// any draw call.
#[derive(Debug)]
pub struct CommandQueue {
    starc: Starc,
    vao: u64,
}

impl CommandQueue {
    /// Which cell this queue's context handle refers to.
    pub closed spec fn share_id(&self) -> u64 {
        self.starc.share_id()
    }

    /// The owning thread captured by this queue's context handle.
    pub closed spec fn thread_id(&self) -> u64 {
        self.starc.thread_id()
    }

    /// The baseline vertex-array object id threaded in at device open.
    pub closed spec fn vao(&self) -> u64 {
        self.vao
    }

    /// This queue's handle refers to `cell`.
    pub open spec fn refers_to(&self, cell: ShareCell) -> bool {
        self.share_id() == cell.cell_id() && self.thread_id() == cell.owner_thread()
    }

    /// Build a queue around one strong context handle and the baseline
    /// vertex-array object of the open session.
    pub fn new(starc: Starc, vao: u64) -> (r: CommandQueue)
        ensures
            r.share_id() == starc.share_id(),
            r.thread_id() == starc.thread_id(),
            r.vao() == vao,
    {
        CommandQueue { starc, vao }
    }

    /// Exec view of the baseline vertex-array object id.
    pub fn vao_id(&self) -> (r: u64)
        ensures
            r == self.vao(),
    {
        self.vao
    }

    /// Submit one batch: the executable buffers at `indices`, in that
    /// order, after the given wait-semaphores.
    ///
    /// The returned trace is what the embedding program must replay
    /// against the native context, in order, on the owning thread; the
    /// buffers become pending until `retire` acknowledges that the
    /// replay has been issued and delivers the batch's
    /// signal-semaphores and fence.  Wait-semaphores must already be
    /// signaled — with one serial execution stream, waiting on a
    /// semaphore no earlier submission has signaled could never finish
    /// — and are consumed back to unsignaled before anything of this
    /// batch is issued.
    pub fn submit(
        &self,
        cell: &ShareCell,
        current_thread: u64,
        pool: &mut RawCommandPool,
        indices: &Vec<usize>,
        wait_semaphores: &mut Vec<Semaphore>,
    ) -> (trace: Vec<Command>)
        requires
            self.refers_to(*cell),
            cell.wf(),
            cell.strong_count() >= 1,
            current_thread == self.thread_id(),
            spec_submittable(*old(pool), indices@),
            forall|j: int|
                0 <= j < old(wait_semaphores)@.len() ==> old(wait_semaphores)@[j].signaled(),
        ensures
            trace@ == spec_batch_trace(*old(pool), indices@),
            final(pool).buffers().len() == old(pool).buffers().len(),
            forall|j: int|
                0 <= j < indices@.len() ==> final(pool).buffer_state(indices@[j] as int)
                    == BufferState::Pending && final(pool).buffer_commands(indices@[j] as int)
                    == old(pool).buffer_commands(indices@[j] as int),
            forall|t: int|
                0 <= t < old(pool).buffers().len() && !indices@.contains(t as usize) ==> final(pool).buffers()[t] == old(pool).buffers()[t],
            final(wait_semaphores)@.len() == old(wait_semaphores)@.len(),
            forall|j: int|
                0 <= j < final(wait_semaphores)@.len() ==> !final(wait_semaphores)@[j].signaled(),
    {
        // Wait: consume every wait-semaphore before any command of the
        // batch is issued.
        let mut w: usize = 0;
        let wn = wait_semaphores.len();
        while w < wn
            invariant
                wn == wait_semaphores@.len(),
                w <= wn,
                forall|j: int| 0 <= j < w ==> !wait_semaphores@[j].signaled(),
            decreases wn - w,
        {
            wait_semaphores.set(w, Semaphore::with_state(false));
            w = w + 1;
        }

        // Collect the replay trace, buffer after buffer, in list order.
        let mut trace: Vec<Command> = Vec::new();
        let n = indices.len();
        let mut j: usize = 0;
        while j < n
            invariant
                n == indices@.len(),
                j <= n,
                spec_submittable(*pool, indices@),
                trace@ == spec_batch_trace(*pool, indices@.take(j as int)),
            decreases n - j,
        {
            let idx = indices[j];
            let m = pool.buffer_commands_len(idx);
            let ghost trace_before = trace@;
            let mut k: usize = 0;
            while k < m
                invariant
                    m == pool.buffer_commands(idx as int).len(),
                    idx < pool.buffers().len(),
                    k <= m,
                    trace@ == trace_before + pool.buffer_commands(idx as int).take(k as int),
                decreases m - k,
            {
                let cmd = pool.command_at(idx, k);
                trace.push(cmd);
                k = k + 1;
            }
            proof {
                assert(pool.buffer_commands(idx as int).take(m as int) =~= pool.buffer_commands(
                    idx as int,
                ));
                assert(indices@.take(j + 1).drop_last() =~= indices@.take(j as int));
                assert(indices@.take(j + 1).last() == indices@[j as int]);
            }
            j = j + 1;
        }
        proof {
            assert(indices@.take(n as int) =~= indices@);
        }

        // Mark every submitted buffer pending until it is retired.
        let ghost pool0 = *pool;
        let mut p: usize = 0;
        while p < n
            invariant
                n == indices@.len(),
                p <= n,
                spec_submittable(pool0, indices@),
                pool.buffers().len() == pool0.buffers().len(),
                forall|q: int|
                    0 <= q < p ==> pool.buffer_state(indices@[q] as int) == BufferState::Pending
                        && pool.buffer_commands(indices@[q] as int) == pool0.buffer_commands(
                        indices@[q] as int,
                    ),
                forall|q: int|
                    p <= q < n ==> pool.buffers()[indices@[q] as int] == pool0.buffers()[indices@[q] as int],
                forall|t: int|
                    0 <= t < pool0.buffers().len() && !indices@.contains(t as usize)
                        ==> pool.buffers()[t] == pool0.buffers()[t],
            decreases n - p,
        {
            let idx = indices[p];
            proof {
                assert(indices@[p as int] == idx);
                assert(indices@.contains(idx));
            }
            pool.mark_pending_at(idx);
            p = p + 1;
        }
        trace
    }

    /// Retire a batch once the embedding program has issued its
    /// replay: every buffer of the batch returns from pending to
    /// executable, keeping its commands, ready to be submitted again,
    /// and the batch's signal-semaphores and fence go up — only now,
    /// after every native call of the batch has been issued (issuance,
    /// not completion, is what they track on this context).
    pub fn retire(
        &self,
        pool: &mut RawCommandPool,
        indices: &Vec<usize>,
        signal_semaphores: &mut Vec<Semaphore>,
        fence: &mut Option<Fence>,
    )
        requires
            forall|j: int|
                0 <= j < indices@.len() ==> indices@[j] < old(pool).buffers().len() && old(pool).buffer_state(indices@[j] as int) == BufferState::Pending,
            forall|j: int, k: int| 0 <= j < k < indices@.len() ==> indices@[j] != indices@[k],
        ensures
            final(pool).buffers().len() == old(pool).buffers().len(),
            forall|j: int|
                0 <= j < indices@.len() ==> final(pool).buffer_state(indices@[j] as int)
                    == BufferState::Executable && final(pool).buffer_commands(indices@[j] as int)
                    == old(pool).buffer_commands(indices@[j] as int),
            forall|t: int|
                0 <= t < old(pool).buffers().len() && !indices@.contains(t as usize) ==> final(pool).buffers()[t] == old(pool).buffers()[t],
            final(signal_semaphores)@.len() == old(signal_semaphores)@.len(),
            forall|j: int|
                0 <= j < final(signal_semaphores)@.len() ==> final(signal_semaphores)@[j].signaled(),
            *old(fence) is Some <==> *final(fence) is Some,
            *final(fence) matches Some(f) ==> f.signaled(),
    {
        let ghost pool0 = *pool;
        let n = indices.len();
        let mut p: usize = 0;
        while p < n
            invariant
                n == indices@.len(),
                p <= n,
                forall|j: int|
                    0 <= j < indices@.len() ==> indices@[j] < pool0.buffers().len() && pool0.buffer_state(
                        indices@[j] as int,
                    ) == BufferState::Pending,
                forall|j: int, k: int| 0 <= j < k < indices@.len() ==> indices@[j] != indices@[k],
                pool.buffers().len() == pool0.buffers().len(),
                forall|q: int|
                    0 <= q < p ==> pool.buffer_state(indices@[q] as int)
                        == BufferState::Executable && pool.buffer_commands(indices@[q] as int)
                        == pool0.buffer_commands(indices@[q] as int),
                forall|q: int|
                    p <= q < n ==> pool.buffers()[indices@[q] as int] == pool0.buffers()[indices@[q] as int],
                forall|t: int|
                    0 <= t < pool0.buffers().len() && !indices@.contains(t as usize)
                        ==> pool.buffers()[t] == pool0.buffers()[t],
            decreases n - p,
        {
            let idx = indices[p];
            proof {
                assert(indices@[p as int] == idx);
                assert(indices@.contains(idx));
            }
            pool.mark_retired_at(idx);
            p = p + 1;
        }

        // The whole batch has been issued: deliver its signals.
        let mut s: usize = 0;
        let sn = signal_semaphores.len();
        while s < sn
            invariant
                sn == signal_semaphores@.len(),
                s <= sn,
                forall|j2: int| 0 <= j2 < s ==> signal_semaphores@[j2].signaled(),
            decreases sn - s,
        {
            signal_semaphores.set(s, Semaphore::with_state(true));
            s = s + 1;
        }
        match fence {
            Some(f) => f.set_signaled(true),
            None => (),
        }
    }

    /// Retire this queue's context handle; the last handle to go drops
    /// the shared value.
    pub fn dispose(self, cell: &mut ShareCell)
        requires
            self.refers_to(*old(cell)),
            old(cell).wf(),
            old(cell).strong_count() >= 1,
        ensures
            final(cell).cell_id() == old(cell).cell_id(),
            final(cell).owner_thread() == old(cell).owner_thread(),
            final(cell).strong_count() == old(cell).strong_count() - 1,
            final(cell).weak_count() == old(cell).weak_count(),
            old(cell).strong_count() > 1 ==> final(cell).contents() == old(cell).contents(),
            old(cell).strong_count() == 1 ==> final(cell).contents() is None,
            final(cell).wf(),
    {
        self.starc.release(cell);
    }
}

} // verus!
