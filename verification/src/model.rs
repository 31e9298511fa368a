//! The mathematical model of a thread's coroutines.
//!
//! A `RegistryView` is the whole record of one execution thread: every
//! control block that was ever created, the chain of active resumes, and the
//! stack allocator's account. Each operation of the engine is a pair of
//! functions on that record: one gives the outcome that is reported, the
//! other the record afterwards. A failed operation leaves the record as it
//! was.

use vstd::prelude::*;
use crate::error::CoroutineError;
use crate::state::CoroutineState;

verus! {

/// The smallest stack a coroutine can be created with. A request below it
/// is rejected, not rounded up.
pub const MIN_STACK_SIZE: usize = 32768;

/// The stack size to ask for where the caller has no preference.
pub const DEFAULT_STACK_SIZE: usize = 57344;

/// The capacity of a storage channel where none is asked for.
pub const DEFAULT_STORAGE_SIZE: usize = 1024;

/// One control block, as a plain value.
pub ghost struct BlockView {
    /// False once the block was released.
    pub live: bool,
    /// The coroutine's state.
    pub state: CoroutineState,
    /// The size of its stack in bytes.
    pub stack_size: nat,
    /// The most bytes its storage channel can hold.
    pub capacity: nat,
    /// The bytes in its storage channel, oldest first.
    pub storage: Seq<u8>,
    /// The coroutine that resumed it, while it is active and was not
    /// resumed from the root.
    pub resumer: Option<usize>,
}

impl BlockView {
    /// A control block right after creation.
    pub open spec fn fresh(stack_size: nat, capacity: nat) -> BlockView {
        BlockView {
            live: true,
            state: CoroutineState::Suspended,
            stack_size,
            capacity,
            storage: Seq::empty(),
            resumer: None,
        }
    }

    /// What is left of a control block after its release.
    pub open spec fn released() -> BlockView {
        BlockView {
            live: false,
            state: CoroutineState::Dead,
            stack_size: 0,
            capacity: 0,
            storage: Seq::empty(),
            resumer: None,
        }
    }

    /// The stack bytes that the block holds from the allocator.
    pub open spec fn held(self) -> nat {
        if self.live {
            self.stack_size
        } else {
            0
        }
    }
}

/// The stack bytes held by all blocks of a sequence together.
pub open spec fn live_stack_bytes(blocks: Seq<BlockView>) -> nat
    decreases blocks.len(),
{
    if blocks.len() == 0 {
        0
    } else {
        live_stack_bytes(blocks.drop_last()) + blocks.last().held()
    }
}

/// The record of one execution thread.
pub ghost struct RegistryView {
    /// Every control block created so far; a handle is an index into it.
    pub blocks: Seq<BlockView>,
    /// The active resume chain: first the coroutine resumed from the root,
    /// last the one that is running.
    pub chain: Seq<usize>,
    /// The most stack bytes the allocator hands out at a time.
    pub budget: nat,
    /// The stack bytes handed out and not yet released.
    pub in_use: nat,
}

impl RegistryView {
    /// A thread on which nothing was created yet.
    pub open spec fn empty(budget: nat) -> RegistryView {
        RegistryView { blocks: Seq::empty(), chain: Seq::empty(), budget, in_use: 0 }
    }

    // ----- what can be observed -----

    /// Whether the handle names a control block that was not released.
    pub open spec fn is_live(self, id: usize) -> bool {
        id < self.blocks.len() && self.blocks[id as int].live
    }

    /// The state behind a handle; a handle that names nothing reads as dead.
    pub open spec fn state_of(self, id: usize) -> CoroutineState {
        if self.is_live(id) {
            self.blocks[id as int].state
        } else {
            CoroutineState::Dead
        }
    }

    /// The bytes in a coroutine's storage channel.
    pub open spec fn storage_of(self, id: usize) -> Seq<u8> {
        if self.is_live(id) {
            self.blocks[id as int].storage
        } else {
            Seq::empty()
        }
    }

    /// The capacity of a coroutine's storage channel.
    pub open spec fn capacity_of(self, id: usize) -> nat {
        if self.is_live(id) {
            self.blocks[id as int].capacity
        } else {
            0
        }
    }

    /// The coroutine that is executing, none at the root.
    pub open spec fn running(self) -> Option<usize> {
        if self.chain.len() == 0 {
            None
        } else {
            Some(self.chain.last())
        }
    }

    // ----- the invariant -----

    /// The `k`-th member of the chain is live, is running if it is the last
    /// and normal otherwise, and points back at the member before it.
    pub open spec fn link_ok(self, k: int) -> bool {
        let id = self.chain[k];
        &&& self.is_live(id)
        &&& self.blocks[id as int].state == if k == self.chain.len() - 1 {
            CoroutineState::Running
        } else {
            CoroutineState::Normal
        }
        &&& self.blocks[id as int].resumer == if k == 0 {
            None
        } else {
            Some(self.chain[k - 1])
        }
    }

    /// The `i`-th block's channel is within its capacity; a live block has
    /// a stack of at least the minimum and a released block holds nothing;
    /// an active block is on the chain and no other block has a resumer.
    pub open spec fn block_ok(self, i: int) -> bool {
        let b = self.blocks[i];
        &&& b.storage.len() <= b.capacity
        &&& b.live ==> b.stack_size >= MIN_STACK_SIZE
        &&& !b.live ==> b == BlockView::released()
        &&& b.state.is_active() ==> self.chain.contains(i as usize)
        &&& !b.state.is_active() ==> b.resumer is None
    }

    /// What holds of every record that the operations can reach.
    pub open spec fn wf(self) -> bool {
        &&& self.blocks.len() <= usize::MAX
        &&& forall|k: int| 0 <= k < self.chain.len() ==> #[trigger] self.link_ok(k)
        &&& forall|i: int| 0 <= i < self.blocks.len() ==> #[trigger] self.block_ok(i)
        &&& forall|j: int, k: int|
            0 <= j < k < self.chain.len() ==> self.chain[j] != self.chain[k]
        &&& self.in_use == live_stack_bytes(self.blocks)
        &&& self.in_use <= self.budget <= usize::MAX
    }

    // ----- creation -----

    /// The outcome of creating a coroutine: the new handle, or why not.
    pub open spec fn create_result(self, stack_size: usize) -> Result<usize, CoroutineError> {
        if stack_size < MIN_STACK_SIZE {
            Err(CoroutineError::InvalidArguments)
        } else if self.in_use + stack_size > self.budget || self.blocks.len() >= usize::MAX {
            Err(CoroutineError::OutOfMemory)
        } else {
            Ok(self.blocks.len() as usize)
        }
    }

    /// The record after creating a coroutine.
    pub open spec fn create(self, stack_size: usize, capacity: usize) -> RegistryView {
        if self.create_result(stack_size) is Ok {
            RegistryView {
                blocks: self.blocks.push(BlockView::fresh(stack_size as nat, capacity as nat)),
                in_use: self.in_use + stack_size as nat,
                ..self
            }
        } else {
            self
        }
    }

    // ----- resume -----

    /// The outcome of resuming a coroutine.
    pub open spec fn resume_result(self, id: usize) -> Result<(), CoroutineError> {
        if !self.is_live(id) {
            Err(CoroutineError::InvalidCoroutine)
        } else if self.blocks[id as int].state != CoroutineState::Suspended {
            Err(CoroutineError::NotSuspended)
        } else {
            Ok(())
        }
    }

    /// The blocks after the running coroutine, if there is one, took the
    /// state `s`.
    pub open spec fn with_top_state(self, s: CoroutineState) -> Seq<BlockView> {
        if self.chain.len() == 0 {
            self.blocks
        } else {
            let top = self.chain.last() as int;
            self.blocks.update(top, BlockView { state: s, ..self.blocks[top] })
        }
    }

    /// The record after resuming a coroutine: the caller, if it is a
    /// coroutine, becomes normal; the target becomes running, remembers its
    /// caller and joins the chain.
    pub open spec fn resume(self, id: usize) -> RegistryView {
        if self.resume_result(id) is Ok {
            let waiting = self.with_top_state(CoroutineState::Normal);
            RegistryView {
                blocks: waiting.update(
                    id as int,
                    BlockView {
                        state: CoroutineState::Running,
                        resumer: self.running(),
                        ..waiting[id as int]
                    },
                ),
                chain: self.chain.push(id),
                ..self
            }
        } else {
            self
        }
    }

    // ----- yield and return -----

    /// The record after the running coroutine gave up control and took the
    /// state `end`: it leaves the chain and forgets its resumer, and the
    /// resumer, if it is a coroutine, runs again. Without a running
    /// coroutine nothing changes.
    pub open spec fn leave(self, end: CoroutineState) -> RegistryView {
        if self.chain.len() == 0 {
            self
        } else {
            let top = self.chain.last() as int;
            let left = self.blocks.update(
                top,
                BlockView { state: end, resumer: None, ..self.blocks[top] },
            );
            let rest = self.chain.drop_last();
            RegistryView {
                blocks: if rest.len() == 0 {
                    left
                } else {
                    let back = rest.last() as int;
                    left.update(back, BlockView { state: CoroutineState::Running, ..left[back] })
                },
                chain: rest,
                ..self
            }
        }
    }

    /// The outcome of a yield asked of a given coroutine.
    pub open spec fn yield_result(self, id: usize) -> Result<(), CoroutineError> {
        if !self.is_live(id) {
            Err(CoroutineError::InvalidCoroutine)
        } else if self.blocks[id as int].state != CoroutineState::Running {
            Err(CoroutineError::NotRunning)
        } else {
            Ok(())
        }
    }

    /// The record after a yield asked of a given coroutine.
    pub open spec fn yield_now(self, id: usize) -> RegistryView {
        if self.yield_result(id) is Ok {
            self.leave(CoroutineState::Suspended)
        } else {
            self
        }
    }

    /// The outcome of a yield, or of a return, asked of whichever coroutine
    /// is running.
    pub open spec fn current_result(self) -> Result<(), CoroutineError> {
        if self.running() is None {
            Err(CoroutineError::NotRunning)
        } else {
            Ok(())
        }
    }

    // ----- the storage channel -----

    /// The outcome of pushing bytes onto a coroutine's channel.
    pub open spec fn push_result(self, id: usize, bytes: Seq<u8>) -> Result<(), CoroutineError> {
        if !self.is_live(id) {
            Err(CoroutineError::InvalidCoroutine)
        } else if self.blocks[id as int].storage.len() + bytes.len()
            > self.blocks[id as int].capacity {
            Err(CoroutineError::NotEnoughSpace)
        } else {
            Ok(())
        }
    }

    /// The record after pushing bytes onto a coroutine's channel.
    pub open spec fn push(self, id: usize, bytes: Seq<u8>) -> RegistryView {
        if self.push_result(id, bytes) is Ok {
            let b = self.blocks[id as int];
            RegistryView {
                blocks: self.blocks.update(id as int, BlockView { storage: b.storage + bytes, ..b }),
                ..self
            }
        } else {
            self
        }
    }

    /// The outcome of reading the last `len` bytes of a coroutine's
    /// channel, by `pop` or by `peek`: those bytes, oldest first.
    pub open spec fn tail_result(self, id: usize, len: nat) -> Result<Seq<u8>, CoroutineError> {
        if !self.is_live(id) {
            Err(CoroutineError::InvalidCoroutine)
        } else if len > self.blocks[id as int].storage.len() {
            Err(CoroutineError::NotEnoughSpace)
        } else {
            let s = self.blocks[id as int].storage;
            Ok(s.subrange(s.len() - len, s.len() as int))
        }
    }

    /// The record after popping the last `len` bytes off a coroutine's
    /// channel.
    pub open spec fn pop(self, id: usize, len: nat) -> RegistryView {
        if self.tail_result(id, len) is Ok {
            let b = self.blocks[id as int];
            RegistryView {
                blocks: self.blocks.update(
                    id as int,
                    BlockView { storage: b.storage.subrange(0, b.storage.len() - len), ..b },
                ),
                ..self
            }
        } else {
            self
        }
    }

    // ----- destruction -----

    /// The outcome of destroying a coroutine.
    pub open spec fn destroy_result(self, id: usize) -> Result<(), CoroutineError> {
        if !self.is_live(id) {
            Err(CoroutineError::InvalidCoroutine)
        } else if self.blocks[id as int].state.is_active() {
            Err(CoroutineError::InvalidOperation)
        } else {
            Ok(())
        }
    }

    /// The record after destroying a coroutine: its block is released and
    /// its stack goes back to the allocator.
    pub open spec fn destroy(self, id: usize) -> RegistryView {
        if self.destroy_result(id) is Ok {
            RegistryView {
                blocks: self.blocks.update(id as int, BlockView::released()),
                in_use: (self.in_use - self.blocks[id as int].stack_size) as nat,
                ..self
            }
        } else {
            self
        }
    }
}

} // verus!
