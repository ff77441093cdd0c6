//! Command recording: buffers that collect abstract commands without
//! touching the native context, and the pool that allocates and
//! recycles them in bulk.
//!
//! Recording never makes a native call, because the native context may
//! not be current on the recording thread; a buffer only appends to its
//! internal command list.  Submission (see the queue module) is the one
//! point where commands reach the context.

use vstd::prelude::*;

verus! {

/// One abstract command.  Payloads are the plain identifiers and counts
/// the replay needs; they mean nothing to the state machine itself.
#[derive(Copy, Clone, Debug, PartialEq, Eq, Structural)]
pub enum Command {
    Draw { first_vertex: u32, vertex_count: u32 },
    Dispatch { group_count: u32 },
    CopyBuffer { src: u64, dst: u64, size: u64 },
    Barrier,
    BindPipeline { pipeline: u64 },
}

/// Where a command buffer stands in its lifecycle.
#[derive(Copy, Clone, Debug, PartialEq, Eq, Structural)]
pub enum BufferState {
    /// Freshly allocated or bulk-reset; holds no commands.
    Initial,
    /// Between `begin` and `finish`; commands are being appended.
    Recording,
    /// Finished and ready to submit.
    Executable,
    /// Submitted and not yet retired by its queue.
    Pending,
}

/// A recorded, replayable sequence of commands.
#[derive(Clone, Debug)]
pub struct RawCommandBuffer {
    state: BufferState,
    commands: Vec<Command>,
}

impl RawCommandBuffer {
    /// Where this buffer stands in its lifecycle.
    pub closed spec fn state(&self) -> BufferState {
        self.state
    }

    /// The commands recorded so far, oldest first.
    pub closed spec fn commands(&self) -> Seq<Command> {
        self.commands@
    }

    /// Exec view of the lifecycle state.
    pub fn current_state(&self) -> (r: BufferState)
        ensures
            r == self.state(),
    {
        self.state
    }

    /// Exec view of how many commands are recorded.
    pub fn command_count(&self) -> (r: usize)
        ensures
            r == self.commands().len(),
    {
        self.commands.len()
    }

    /// Freshly allocated or bulk-reset: ready for `begin`, holding no
    /// commands.
    pub open spec fn is_fresh(&self) -> bool {
        self.state() == BufferState::Initial && self.commands() == Seq::<Command>::empty()
    }

}

/// The arena that allocates command buffers and recycles them in bulk.
/// Buffers are addressed by the index `allocate` returned.
#[derive(Clone, Debug)]
pub struct RawCommandPool {
    buffers: Vec<RawCommandBuffer>,
}

impl RawCommandPool {
    /// The buffers this pool owns, in allocation order.
    pub closed spec fn buffers(&self) -> Seq<RawCommandBuffer> {
        self.buffers@
    }

    /// The lifecycle state of the buffer at `i`.
    pub open spec fn buffer_state(&self, i: int) -> BufferState {
        self.buffers()[i].state()
    }

    /// The recorded commands of the buffer at `i`.
    pub open spec fn buffer_commands(&self, i: int) -> Seq<Command> {
        self.buffers()[i].commands()
    }

    /// No buffer of this pool has been submitted and not yet retired.
    pub open spec fn none_pending(&self) -> bool {
        forall|i: int|
            0 <= i < self.buffers().len() ==> self.buffer_state(i) != BufferState::Pending
    }

    /// A pool that owns no buffers yet.
    pub fn new() -> (r: RawCommandPool)
        ensures
            r.buffers().len() == 0,
    {
        RawCommandPool { buffers: Vec::new() }
    }

    /// Exec view of how many buffers are allocated.
    pub fn len(&self) -> (r: usize)
        ensures
            r == self.buffers().len(),
    {
        self.buffers.len()
    }

    /// Exec view of the lifecycle state of the buffer at `i`.
    pub fn state_of(&self, i: usize) -> (r: BufferState)
        requires
            i < self.buffers().len(),
        ensures
            r == self.buffer_state(i as int),
    {
        self.buffers[i].current_state()
    }

    /// Allocate one fresh buffer; its index addresses it from then on.
    pub fn allocate(&mut self) -> (idx: usize)
        requires
            old(self).buffers().len() < usize::MAX,
        ensures
            idx == old(self).buffers().len(),
            final(self).buffers().len() == old(self).buffers().len() + 1,
            forall|i: int|
                0 <= i < old(self).buffers().len() ==> final(self).buffers()[i] == old(
                    self,
                ).buffers()[i],
            final(self).buffer_state(idx as int) == BufferState::Initial,
            final(self).buffer_commands(idx as int) == Seq::<Command>::empty(),
    {
        let idx = self.buffers.len();
        self.buffers.push(RawCommandBuffer { state: BufferState::Initial, commands: Vec::new() });
        idx
    }

    /// Start recording into the buffer at `i`.  A fresh buffer starts
    /// recording; an executable one is implicitly reset first.  Any
    /// commands it held are discarded.
    pub fn begin(&mut self, i: usize)
        requires
            i < old(self).buffers().len(),
            old(self).buffer_state(i as int) == BufferState::Initial || old(self).buffer_state(
                i as int,
            ) == BufferState::Executable,
        ensures
            final(self).buffers().len() == old(self).buffers().len(),
            forall|j: int|
                0 <= j < old(self).buffers().len() && j != i ==> final(self).buffers()[j] == old(
                    self,
                ).buffers()[j],
            final(self).buffer_state(i as int) == BufferState::Recording,
            final(self).buffer_commands(i as int) == Seq::<Command>::empty(),
    {
        let buffer = RawCommandBuffer { state: BufferState::Recording, commands: Vec::new() };
        self.buffers.set(i, buffer);
    }

    /// Append one command to the buffer at `i`.
    pub fn record(&mut self, i: usize, cmd: Command)
        requires
            i < old(self).buffers().len(),
            old(self).buffer_state(i as int) == BufferState::Recording,
            old(self).buffer_commands(i as int).len() < usize::MAX,
        ensures
            final(self).buffers().len() == old(self).buffers().len(),
            forall|j: int|
                0 <= j < old(self).buffers().len() && j != i ==> final(self).buffers()[j] == old(
                    self,
                ).buffers()[j],
            final(self).buffer_state(i as int) == BufferState::Recording,
            final(self).buffer_commands(i as int) == old(self).buffer_commands(i as int).push(cmd),
    {
        let buffer = &mut self.buffers[i];
        buffer.commands.push(cmd);
    }

    /// End recording: the buffer at `i` becomes executable with exactly
    /// the commands recorded since `begin`.
    pub fn finish(&mut self, i: usize)
        requires
            i < old(self).buffers().len(),
            old(self).buffer_state(i as int) == BufferState::Recording,
        ensures
            final(self).buffers().len() == old(self).buffers().len(),
            forall|j: int|
                0 <= j < old(self).buffers().len() && j != i ==> final(self).buffers()[j] == old(
                    self,
                ).buffers()[j],
            final(self).buffer_state(i as int) == BufferState::Executable,
            final(self).buffer_commands(i as int) == old(self).buffer_commands(i as int),
    {
        let buffer = &mut self.buffers[i];
        buffer.state = BufferState::Executable;
    }

    /// Whether any buffer of this pool is pending.  An embedding tests
    /// this to fail fast before a `reset`, whose contract excludes
    /// pending buffers.
    pub fn any_pending(&self) -> (r: bool)
        ensures
            r == !self.none_pending(),
    {
        let n = self.buffers.len();
        let mut i: usize = 0;
        while i < n
            invariant
                n == self.buffers().len(),
                i <= n,
                forall|j: int| 0 <= j < i ==> self.buffer_state(j) != BufferState::Pending,
            decreases n - i,
        {
            if self.buffers[i].current_state() == BufferState::Pending {
                proof {
                    assert(self.buffer_state(i as int) == BufferState::Pending);
                    assert(!self.none_pending());
                }
                return true;
            }
            i = i + 1;
        }
        false
    }

    /// Recycle every buffer of the pool in one step: all storage is
    /// reclaimed and every buffer is fresh and re-recordable.  Calling
    /// this while any buffer is pending is a contract violation, so the
    /// contract excludes it.
    pub fn reset(&mut self)
        requires
            old(self).none_pending(),
        ensures
            final(self).buffers().len() == old(self).buffers().len(),
            forall|i: int| 0 <= i < final(self).buffers().len() ==> final(self).buffers()[i].is_fresh(),
    {
        let n = self.buffers.len();
        let mut i: usize = 0;
        while i < n
            invariant
                n == self.buffers().len(),
                i <= n,
                forall|j: int| 0 <= j < i ==> self.buffers()[j].is_fresh(),
            decreases n - i,
        {
            let buffer = RawCommandBuffer { state: BufferState::Initial, commands: Vec::new() };
            self.buffers.set(i, buffer);
            i = i + 1;
        }
    }

    /// Exec view of how many commands the buffer at `i` holds.
    pub fn buffer_commands_len(&self, i: usize) -> (r: usize)
        requires
            i < self.buffers().len(),
        ensures
            r == self.buffer_commands(i as int).len(),
    {
        self.buffers[i].commands.len()
    }

    /// The command at position `k` of the buffer at `i`.
    pub fn command_at(&self, i: usize, k: usize) -> (r: Command)
        requires
            i < self.buffers().len(),
            k < self.buffer_commands(i as int).len(),
        ensures
            r == self.buffer_commands(i as int)[k as int],
    {
        self.buffers[i].commands[k]
    }

    pub(crate) fn mark_pending_at(&mut self, i: usize)
        requires
            i < old(self).buffers().len(),
            old(self).buffer_state(i as int) == BufferState::Executable,
        ensures
            final(self).buffers().len() == old(self).buffers().len(),
            forall|j: int|
                0 <= j < old(self).buffers().len() && j != i ==> final(self).buffers()[j] == old(
                    self,
                ).buffers()[j],
            final(self).buffer_state(i as int) == BufferState::Pending,
            final(self).buffer_commands(i as int) == old(self).buffer_commands(i as int),
    {
        let buffer = &mut self.buffers[i];
        buffer.state = BufferState::Pending;
    }

    pub(crate) fn mark_retired_at(&mut self, i: usize)
        requires
            i < old(self).buffers().len(),
            old(self).buffer_state(i as int) == BufferState::Pending,
        ensures
            final(self).buffers().len() == old(self).buffers().len(),
            forall|j: int|
                0 <= j < old(self).buffers().len() && j != i ==> final(self).buffers()[j] == old(
                    self,
                ).buffers()[j],
            final(self).buffer_state(i as int) == BufferState::Executable,
            final(self).buffer_commands(i as int) == old(self).buffer_commands(i as int),
    {
        let buffer = &mut self.buffers[i];
        buffer.state = BufferState::Executable;
    }
}

} // verus!
