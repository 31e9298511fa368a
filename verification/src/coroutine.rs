//! The owning handle of a coroutine, and the operations that address
//! whichever coroutine is running.

use vstd::prelude::*;
use crate::error::CoroutineError;
use crate::model::DEFAULT_STORAGE_SIZE;
use crate::registry::{payload, Registry};
use crate::state::CoroutineState;

verus! {

/// A coroutine of some registry. The handle owns the coroutine: it cannot
/// be copied, and `destroy` consumes it, so that a control block is
/// released at most once through it.
#[derive(Debug)]
pub struct Coroutine {
    id: usize,
}

impl View for Coroutine {
    type V = usize;

    /// The index of the control block in its registry.
    closed spec fn view(&self) -> usize {
        self.id
    }
}

/// The outcome of a creation, with the handle as a plain index.
pub open spec fn created(r: Result<Coroutine, CoroutineError>) -> Result<usize, CoroutineError> {
    match r {
        Ok(co) => Ok(co@),
        Err(e) => Err(e),
    }
}

impl Coroutine {
    /// Creates a coroutine with a stack of `stack_size` bytes and a storage
    /// channel of the default capacity. It is suspended and holds nothing.
    ///
    /// A stack below `MIN_STACK_SIZE` is rejected with `InvalidArguments`;
    /// where the allocator cannot take the stack the answer is
    /// `OutOfMemory`. Nothing changes then.
    pub fn new(reg: &mut Registry, stack_size: usize) -> (r: Result<Coroutine, CoroutineError>)
        requires
            old(reg)@.wf(),
        ensures
            created(r) == old(reg)@.create_result(stack_size),
            final(reg)@ == old(reg)@.create(stack_size, DEFAULT_STORAGE_SIZE),
            final(reg)@.wf(),
            r matches Ok(co) ==> final(reg)@.state_of(co@) == CoroutineState::Suspended
                && final(reg)@.storage_of(co@) == Seq::<u8>::empty()
                && final(reg)@.capacity_of(co@) == DEFAULT_STORAGE_SIZE,
    {
        Coroutine::with_storage(reg, stack_size, DEFAULT_STORAGE_SIZE)
    }

    /// Creates a coroutine as `new` does, with a storage channel that holds
    /// up to `storage_size` bytes.
    pub fn with_storage(reg: &mut Registry, stack_size: usize, storage_size: usize) -> (r: Result<
        Coroutine,
        CoroutineError,
    >)
        requires
            old(reg)@.wf(),
        ensures
            created(r) == old(reg)@.create_result(stack_size),
            final(reg)@ == old(reg)@.create(stack_size, storage_size),
            final(reg)@.wf(),
            r matches Ok(co) ==> final(reg)@.state_of(co@) == CoroutineState::Suspended
                && final(reg)@.storage_of(co@) == Seq::<u8>::empty()
                && final(reg)@.capacity_of(co@) == storage_size,
    {
        match reg.create(stack_size, storage_size) {
            Ok(id) => Ok(Coroutine { id }),
            Err(e) => Err(e),
        }
    }

    /// The index of the control block in its registry: what `running`
    /// reports while this coroutine runs.
    pub fn id(&self) -> (r: usize)
        ensures
            r == self@,
    {
        self.id
    }

    /// Resumes the coroutine. See `Registry::resume`.
    pub fn resume(&mut self, reg: &mut Registry) -> (r: Result<(), CoroutineError>)
        requires
            old(reg)@.wf(),
        ensures
            r == old(reg)@.resume_result(old(self)@),
            final(reg)@ == old(reg)@.resume(old(self)@),
            final(reg)@.wf(),
            final(self)@ == old(self)@,
    {
        reg.resume(self.id)
    }

    /// Suspends the coroutine, which must be the running one. See
    /// `Registry::yield_now`.
    pub fn yield_now(&mut self, reg: &mut Registry) -> (r: Result<(), CoroutineError>)
        requires
            old(reg)@.wf(),
        ensures
            r == old(reg)@.yield_result(old(self)@),
            final(reg)@ == old(reg)@.yield_now(old(self)@),
            final(reg)@.wf(),
            final(self)@ == old(self)@,
    {
        reg.yield_now(self.id)
    }

    /// The coroutine's state; dead once it was released.
    pub fn status(&self, reg: &Registry) -> (r: CoroutineState)
        ensures
            r == reg@.state_of(self@),
    {
        reg.status(self.id)
    }

    /// Appends `data` to the coroutine's storage channel. See
    /// `Registry::push`.
    pub fn push(&mut self, reg: &mut Registry, data: &[u8]) -> (r: Result<(), CoroutineError>)
        requires
            old(reg)@.wf(),
        ensures
            r == old(reg)@.push_result(old(self)@, data@),
            final(reg)@ == old(reg)@.push(old(self)@, data@),
            final(reg)@.wf(),
            final(self)@ == old(self)@,
    {
        reg.push(self.id, data)
    }

    /// Removes the last `len` bytes from the coroutine's storage channel
    /// and returns them. See `Registry::pop`.
    pub fn pop(&mut self, reg: &mut Registry, len: usize) -> (r: Result<Vec<u8>, CoroutineError>)
        requires
            old(reg)@.wf(),
        ensures
            payload(r) == old(reg)@.tail_result(old(self)@, len as nat),
            final(reg)@ == old(reg)@.pop(old(self)@, len as nat),
            final(reg)@.wf(),
            final(self)@ == old(self)@,
    {
        reg.pop(self.id, len)
    }

    /// Copies the last `len` bytes of the coroutine's storage channel. See
    /// `Registry::peek`.
    pub fn peek(&self, reg: &Registry, len: usize) -> (r: Result<Vec<u8>, CoroutineError>)
        ensures
            payload(r) == reg@.tail_result(self@, len as nat),
    {
        reg.peek(self.id, len)
    }

    /// The number of bytes in the coroutine's storage channel.
    pub fn bytes_stored(&self, reg: &Registry) -> (r: usize)
        ensures
            r == reg@.storage_of(self@).len(),
    {
        reg.bytes_stored(self.id)
    }

    /// The capacity of the coroutine's storage channel.
    pub fn storage_size(&self, reg: &Registry) -> (r: usize)
        ensures
            r == reg@.capacity_of(self@),
    {
        reg.storage_size(self.id)
    }

    /// Releases the coroutine and gives up the handle. See
    /// `Registry::destroy`. A coroutine that is running or normal is not
    /// released; it stays in the registry, out of reach of any owning
    /// handle.
    pub fn destroy(self, reg: &mut Registry) -> (r: Result<(), CoroutineError>)
        requires
            old(reg)@.wf(),
        ensures
            r == old(reg)@.destroy_result(self@),
            final(reg)@ == old(reg)@.destroy(self@),
            final(reg)@.wf(),
    {
        reg.destroy(self.id)
    }
}

/// The coroutine that is running on the registry's thread, none at the
/// root.
pub fn running(reg: &Registry) -> (r: Option<usize>)
    ensures
        r == reg@.running(),
{
    reg.running()
}

/// Suspends whichever coroutine is running and hands control back to its
/// resumer. At the root the answer is `NotRunning` and nothing changes.
pub fn yield_current(reg: &mut Registry) -> (r: Result<(), CoroutineError>)
    requires
        old(reg)@.wf(),
    ensures
        r == old(reg)@.current_result(),
        final(reg)@ == old(reg)@.leave(CoroutineState::Suspended),
        final(reg)@.wf(),
{
    reg.yield_current()
}

/// Suspends whichever coroutine is running, as `yield_current` does. It is
/// the entry for a caller that knows it is inside a coroutine: there the
/// yield cannot fail. At the root the answer is `NotRunning` and nothing
/// changes.
pub fn yield_current_unsafe(reg: &mut Registry) -> (r: Result<(), CoroutineError>)
    requires
        old(reg)@.wf(),
    ensures
        r == old(reg)@.current_result(),
        old(reg)@.running() is Some ==> r == Ok::<(), CoroutineError>(()),
        final(reg)@ == old(reg)@.leave(CoroutineState::Suspended),
        final(reg)@.wf(),
{
    reg.yield_current()
}

} // verus!
