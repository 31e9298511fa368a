//! The registry: one execution thread's control blocks and its chain of
//! active resumes.
//!
//! Which coroutine is running is a property of a thread, so it lives in a
//! value that the thread owns and hands to every operation, never in a
//! global. A handle is the index of a control block; it is never given to a
//! second block, so a handle whose block was released is told apart from a
//! live one for good.

use vstd::prelude::*;
use vstd::slice::{slice_subrange, slice_to_vec};
use crate::error::CoroutineError;
use crate::model::{BlockView, RegistryView, MIN_STACK_SIZE};
use crate::state::CoroutineState;
use crate::wellformed::{
    lemma_bytes_update, lemma_create_wf, lemma_destroy_wf, lemma_empty_wf, lemma_leave_wf,
    lemma_pop_wf, lemma_push_wf, lemma_resume_wf, lemma_running_is_top,
};

verus! {

/// One coroutine's record.
struct ControlBlock {
    live: bool,
    state: CoroutineState,
    stack_size: usize,
    storage_size: usize,
    storage: Vec<u8>,
    resumer: Option<usize>,
}

impl View for ControlBlock {
    type V = BlockView;

    closed spec fn view(&self) -> BlockView {
        BlockView {
            live: self.live,
            state: self.state,
            stack_size: self.stack_size as nat,
            capacity: self.storage_size as nat,
            storage: self.storage@,
            resumer: self.resumer,
        }
    }
}

/// The control blocks of one execution thread, its active resume chain and
/// its stack allocator's account.
pub struct Registry {
    blocks: Vec<ControlBlock>,
    chain: Vec<usize>,
    budget: usize,
    in_use: usize,
}

impl View for Registry {
    type V = RegistryView;

    closed spec fn view(&self) -> RegistryView {
        RegistryView {
            blocks: Seq::new(self.blocks@.len(), |i: int| self.blocks@[i]@),
            chain: self.chain@,
            budget: self.budget as nat,
            in_use: self.in_use as nat,
        }
    }
}

/// The outcome of reading bytes, with the bytes as a plain sequence.
pub open spec fn payload(r: Result<Vec<u8>, CoroutineError>) -> Result<Seq<u8>, CoroutineError> {
    match r {
        Ok(bytes) => Ok(bytes@),
        Err(e) => Err(e),
    }
}

impl Registry {
    /// A registry for a thread on which no coroutine exists yet, with an
    /// allocator that hands out stacks as long as their sizes add up to a
    /// `usize`.
    pub fn new() -> (r: Registry)
        ensures
            r@ == RegistryView::empty(usize::MAX as nat),
            r@.wf(),
    {
        Registry::with_stack_budget(usize::MAX)
    }

    /// A registry whose allocator hands out at most `budget` bytes of stack
    /// at a time.
    pub fn with_stack_budget(budget: usize) -> (r: Registry)
        ensures
            r@ == RegistryView::empty(budget as nat),
            r@.wf(),
    {
        let r = Registry { blocks: Vec::new(), chain: Vec::new(), budget, in_use: 0 };
        proof {
            assert(r@.blocks =~= Seq::empty());
            lemma_empty_wf(budget as nat);
        }
        r
    }

    /// The coroutine that is running on this thread, none at the root.
    pub fn running(&self) -> (r: Option<usize>)
        ensures
            r == self@.running(),
    {
        let n = self.chain.len();
        if n == 0 {
            None
        } else {
            Some(self.chain[n - 1])
        }
    }

    /// The stack bytes that live coroutines hold.
    pub fn stack_in_use(&self) -> (r: usize)
        ensures
            r == self@.in_use,
    {
        self.in_use
    }

    /// The most stack bytes that the allocator hands out at a time.
    pub fn stack_budget(&self) -> (r: usize)
        ensures
            r == self@.budget,
    {
        self.budget
    }

    /// Whether the handle names a control block that was not released.
    pub fn is_live(&self, id: usize) -> (r: bool)
        ensures
            r == self@.is_live(id),
    {
        id < self.blocks.len() && self.blocks[id].live
    }

    /// The state of a coroutine. A handle that names nothing reads as dead.
    pub fn status(&self, id: usize) -> (r: CoroutineState)
        ensures
            r == self@.state_of(id),
    {
        if self.is_live(id) {
            self.blocks[id].state
        } else {
            CoroutineState::Dead
        }
    }

    /// The number of bytes in a coroutine's storage channel.
    pub fn bytes_stored(&self, id: usize) -> (r: usize)
        ensures
            r == self@.storage_of(id).len(),
    {
        if self.is_live(id) {
            self.blocks[id].storage.len()
        } else {
            0
        }
    }

    /// The capacity of a coroutine's storage channel.
    pub fn storage_size(&self, id: usize) -> (r: usize)
        ensures
            r == self@.capacity_of(id),
    {
        if self.is_live(id) {
            self.blocks[id].storage_size
        } else {
            0
        }
    }

    /// Creates a coroutine with a stack of `stack_size` bytes and a storage
    /// channel of `storage_size` bytes, suspended and not yet started.
    ///
    /// A stack below `MIN_STACK_SIZE` is rejected with `InvalidArguments`.
    /// Where the allocator's budget cannot take the stack, or no handle is
    /// left, the answer is `OutOfMemory`.
    pub fn create(&mut self, stack_size: usize, storage_size: usize) -> (r: Result<
        usize,
        CoroutineError,
    >)
        requires
            old(self)@.wf(),
        ensures
            r == old(self)@.create_result(stack_size),
            final(self)@ == old(self)@.create(stack_size, storage_size),
            final(self)@.wf(),
    {
        if stack_size < MIN_STACK_SIZE {
            return Err(CoroutineError::InvalidArguments);
        }
        let id = self.blocks.len();
        if stack_size > self.budget - self.in_use || id == usize::MAX {
            return Err(CoroutineError::OutOfMemory);
        }
        self.blocks.push(
            ControlBlock {
                live: true,
                state: CoroutineState::Suspended,
                stack_size,
                storage_size,
                storage: Vec::new(),
                resumer: None,
            },
        );
        self.in_use = self.in_use + stack_size;
        proof {
            assert(self@.blocks =~= old(self)@.create(stack_size, storage_size).blocks);
            lemma_create_wf(old(self)@, stack_size, storage_size);
        }
        Ok(id)
    }

    /// Resumes a suspended coroutine: it becomes running and the top of
    /// the chain; the coroutine that asked, if one is running, becomes
    /// normal and is remembered as the resumer. On `Ok` the caller switches
    /// into the target's context; should that switch fail, a yield of the
    /// target takes the registry back to where it was.
    ///
    /// A handle that names no live coroutine gives `InvalidCoroutine`, a
    /// coroutine in any other state `NotSuspended`; nothing changes then.
    pub fn resume(&mut self, id: usize) -> (r: Result<(), CoroutineError>)
        requires
            old(self)@.wf(),
        ensures
            r == old(self)@.resume_result(id),
            final(self)@ == old(self)@.resume(id),
            final(self)@.wf(),
    {
        if !self.is_live(id) {
            return Err(CoroutineError::InvalidCoroutine);
        }
        if self.blocks[id].state != CoroutineState::Suspended {
            return Err(CoroutineError::NotSuspended);
        }
        let caller = self.running();
        match caller {
            Some(top) => {
                assert(old(self)@.link_ok(self.chain@.len() - 1));
                self.blocks[top].state = CoroutineState::Normal;
            },
            None => {},
        }
        self.blocks[id].state = CoroutineState::Running;
        self.blocks[id].resumer = caller;
        self.chain.push(id);
        proof {
            assert(self@.blocks =~= old(self)@.resume(id).blocks);
            lemma_resume_wf(old(self)@, id);
        }
        Ok(())
    }

    /// Takes the running coroutine off the chain with the state `end` and
    /// lets its resumer run again.
    fn leave(&mut self, end: CoroutineState)
        requires
            old(self)@.wf(),
            old(self)@.running() is Some,
            !end.is_active(),
        ensures
            final(self)@ == old(self)@.leave(end),
            final(self)@.wf(),
    {
        let n = self.chain.len();
        let top = self.chain[n - 1];
        assert(old(self)@.link_ok(n - 1));
        self.blocks[top].state = end;
        self.blocks[top].resumer = None;
        self.chain.truncate(n - 1);
        if n > 1 {
            let back = self.chain[n - 2];
            assert(old(self)@.link_ok(n - 2));
            self.blocks[back].state = CoroutineState::Running;
        }
        proof {
            assert(self@.chain =~= old(self)@.leave(end).chain);
            assert(self@.blocks =~= old(self)@.leave(end).blocks);
            lemma_leave_wf(old(self)@, end);
        }
    }

    /// Suspends the given coroutine, which must be the running one, and
    /// hands control back to its resumer. On `Ok` the caller switches back
    /// to the resumer's context, or to the root.
    ///
    /// A handle that names no live coroutine gives `InvalidCoroutine`, a
    /// coroutine that is not running `NotRunning`; nothing changes then.
    pub fn yield_now(&mut self, id: usize) -> (r: Result<(), CoroutineError>)
        requires
            old(self)@.wf(),
        ensures
            r == old(self)@.yield_result(id),
            final(self)@ == old(self)@.yield_now(id),
            final(self)@.wf(),
    {
        if !self.is_live(id) {
            return Err(CoroutineError::InvalidCoroutine);
        }
        if self.blocks[id].state != CoroutineState::Running {
            return Err(CoroutineError::NotRunning);
        }
        proof {
            lemma_running_is_top(self@, id);
        }
        self.leave(CoroutineState::Suspended);
        Ok(())
    }

    /// Suspends whichever coroutine is running and hands control back to
    /// its resumer. At the root, where none is running, the answer is
    /// `NotRunning` and nothing changes.
    pub fn yield_current(&mut self) -> (r: Result<(), CoroutineError>)
        requires
            old(self)@.wf(),
        ensures
            r == old(self)@.current_result(),
            final(self)@ == old(self)@.leave(CoroutineState::Suspended),
            final(self)@.wf(),
    {
        if self.chain.len() == 0 {
            return Err(CoroutineError::NotRunning);
        }
        self.leave(CoroutineState::Suspended);
        Ok(())
    }

    /// Records that the running coroutine's entry routine has returned: the
    /// coroutine is dead from now on, and control goes back to its resumer
    /// as after a yield. At the root the answer is `NotRunning` and nothing
    /// changes.
    pub fn finish_current(&mut self) -> (r: Result<(), CoroutineError>)
        requires
            old(self)@.wf(),
        ensures
            r == old(self)@.current_result(),
            final(self)@ == old(self)@.leave(CoroutineState::Dead),
            final(self)@.wf(),
    {
        if self.chain.len() == 0 {
            return Err(CoroutineError::NotRunning);
        }
        self.leave(CoroutineState::Dead);
        Ok(())
    }

    /// Appends `data` to a coroutine's storage channel.
    ///
    /// A handle that names no live coroutine gives `InvalidCoroutine`; data
    /// that would take the channel past its capacity gives
    /// `NotEnoughSpace`. Nothing changes then.
    pub fn push(&mut self, id: usize, data: &[u8]) -> (r: Result<(), CoroutineError>)
        requires
            old(self)@.wf(),
        ensures
            r == old(self)@.push_result(id, data@),
            final(self)@ == old(self)@.push(id, data@),
            final(self)@.wf(),
    {
        if !self.is_live(id) {
            return Err(CoroutineError::InvalidCoroutine);
        }
        assert(old(self)@.block_ok(id as int));
        let stored = self.blocks[id].storage.len();
        if data.len() > self.blocks[id].storage_size - stored {
            return Err(CoroutineError::NotEnoughSpace);
        }
        let mut bytes = slice_to_vec(data);
        self.blocks[id].storage.append(&mut bytes);
        proof {
            assert(self@.blocks =~= old(self)@.push(id, data@).blocks);
            lemma_push_wf(old(self)@, id, data@);
        }
        Ok(())
    }

    /// Removes the last `len` bytes from a coroutine's storage channel and
    /// returns them, oldest first.
    ///
    /// A handle that names no live coroutine gives `InvalidCoroutine`; a
    /// channel that holds fewer than `len` bytes gives `NotEnoughSpace`.
    /// Nothing changes then.
    pub fn pop(&mut self, id: usize, len: usize) -> (r: Result<Vec<u8>, CoroutineError>)
        requires
            old(self)@.wf(),
        ensures
            payload(r) == old(self)@.tail_result(id, len as nat),
            final(self)@ == old(self)@.pop(id, len as nat),
            final(self)@.wf(),
    {
        if !self.is_live(id) {
            return Err(CoroutineError::InvalidCoroutine);
        }
        let stored = self.blocks[id].storage.len();
        if len > stored {
            return Err(CoroutineError::NotEnoughSpace);
        }
        let bytes = self.blocks[id].storage.split_off(stored - len);
        proof {
            assert(self@.blocks =~= old(self)@.pop(id, len as nat).blocks);
            lemma_pop_wf(old(self)@, id, len as nat);
        }
        Ok(bytes)
    }

    /// Copies the last `len` bytes of a coroutine's storage channel, oldest
    /// first, and leaves the channel as it is.
    ///
    /// A handle that names no live coroutine gives `InvalidCoroutine`; a
    /// channel that holds fewer than `len` bytes gives `NotEnoughSpace`.
    pub fn peek(&self, id: usize, len: usize) -> (r: Result<Vec<u8>, CoroutineError>)
        ensures
            payload(r) == self@.tail_result(id, len as nat),
    {
        if !self.is_live(id) {
            return Err(CoroutineError::InvalidCoroutine);
        }
        let stored = self.blocks[id].storage.len();
        if len > stored {
            return Err(CoroutineError::NotEnoughSpace);
        }
        let tail = slice_subrange(self.blocks[id].storage.as_slice(), stored - len, stored);
        Ok(slice_to_vec(tail))
    }

    /// Releases a coroutine that is suspended, started or not, or dead: its
    /// storage is freed, its stack goes back to the allocator, and its
    /// handle names nothing from now on.
    ///
    /// A handle that names no live coroutine gives `InvalidCoroutine`. A
    /// coroutine that is running or normal cannot be released: the answer
    /// is `InvalidOperation`. Nothing changes then.
    pub fn destroy(&mut self, id: usize) -> (r: Result<(), CoroutineError>)
        requires
            old(self)@.wf(),
        ensures
            r == old(self)@.destroy_result(id),
            final(self)@ == old(self)@.destroy(id),
            final(self)@.wf(),
    {
        if !self.is_live(id) {
            return Err(CoroutineError::InvalidCoroutine);
        }
        let state = self.blocks[id].state;
        if state == CoroutineState::Running || state == CoroutineState::Normal {
            return Err(CoroutineError::InvalidOperation);
        }
        proof {
            lemma_bytes_update(old(self)@.blocks, id as int, BlockView::released());
        }
        self.in_use = self.in_use - self.blocks[id].stack_size;
        self.blocks[id] = ControlBlock {
            live: false,
            state: CoroutineState::Dead,
            stack_size: 0,
            storage_size: 0,
            storage: Vec::new(),
            resumer: None,
        };
        proof {
            assert(self@.blocks =~= old(self)@.destroy(id).blocks);
            lemma_destroy_wf(old(self)@, id);
        }
        Ok(())
    }
}

} // verus!
