//! What holds of the engine whatever the coroutines do, stated over the
//! model and proved from its definitions.

use vstd::prelude::*;
use crate::error::CoroutineError;
use crate::model::{live_stack_bytes, BlockView, RegistryView, MIN_STACK_SIZE};
use crate::state::CoroutineState;
use crate::wellformed::{
    lemma_bytes_update, lemma_create_wf, lemma_destroy_wf, lemma_empty_wf, lemma_leave_wf,
    lemma_pop_wf, lemma_push_wf, lemma_resume_wf, lemma_running_is_top, lemma_yield_wf,
};

verus! {

// ----- the states of a thread's coroutines -----

/// A fresh registry is well formed, and every operation, whether it
/// succeeds or fails, takes a well-formed record to a well-formed one. So
/// what the other laws of this file require holds at every moment of a
/// thread's life.
pub proof fn operations_keep_the_record_well_formed(
    v: RegistryView,
    id: usize,
    stack_size: usize,
    capacity: usize,
    bytes: Seq<u8>,
    len: nat,
    end: CoroutineState,
    budget: nat,
)
    requires
        v.wf(),
    ensures
        budget <= usize::MAX ==> RegistryView::empty(budget).wf(),
        v.create(stack_size, capacity).wf(),
        v.resume(id).wf(),
        v.yield_now(id).wf(),
        !end.is_active() ==> v.leave(end).wf(),
        v.push(id, bytes).wf(),
        v.pop(id, len).wf(),
        v.destroy(id).wf(),
{
    if budget <= usize::MAX {
        lemma_empty_wf(budget);
    }
    lemma_create_wf(v, stack_size, capacity);
    lemma_resume_wf(v, id);
    lemma_yield_wf(v, id);
    if !end.is_active() {
        lemma_leave_wf(v, end);
    }
    lemma_push_wf(v, id, bytes);
    lemma_pop_wf(v, id, len);
    lemma_destroy_wf(v, id);
}

/// At most one coroutine of a thread is running, and it is the one that
/// the registry reports.
pub proof fn at_most_one_running(v: RegistryView, a: usize, b: usize)
    requires
        v.wf(),
        v.state_of(a) == CoroutineState::Running,
        v.state_of(b) == CoroutineState::Running,
    ensures
        a == b,
        v.running() == Some(a),
{
    lemma_running_is_top(v, a);
    lemma_running_is_top(v, b);
}

/// The last coroutine of the resume chain is running, every one before it
/// is normal and was resumed by none at the root or else by the one before
/// it, and no coroutine is on the chain twice.
pub proof fn chain_states(v: RegistryView, j: int, k: int)
    requires
        v.wf(),
        0 <= j < k < v.chain.len(),
    ensures
        v.state_of(v.chain[j]) == CoroutineState::Normal,
        v.state_of(v.chain[k]) == if k == v.chain.len() - 1 {
            CoroutineState::Running
        } else {
            CoroutineState::Normal
        },
        v.blocks[v.chain[k] as int].resumer == Some(v.chain[k - 1]),
        v.blocks[v.chain[0] as int].resumer == None::<usize>,
        v.chain[j] != v.chain[k],
{
    assert(v.link_ok(j));
    assert(v.link_ok(k));
    assert(v.link_ok(0));
}

/// A coroutine that is not on the resume chain is suspended or dead, and
/// one that is on it is running or normal.
pub proof fn off_chain_is_idle(v: RegistryView, id: usize)
    requires
        v.wf(),
    ensures
        v.chain.contains(id) <==> v.state_of(id).is_active(),
        !v.chain.contains(id) ==> v.state_of(id) == CoroutineState::Suspended || v.state_of(id)
            == CoroutineState::Dead,
{
    if v.chain.contains(id) {
        let k = choose|k: int| 0 <= k < v.chain.len() && v.chain[k] == id;
        assert(v.link_ok(k));
    }
    if v.state_of(id).is_active() {
        assert(v.block_ok(id as int));
    }
}

/// At the root no coroutine is running or normal.
pub proof fn root_has_no_active(v: RegistryView, id: usize)
    requires
        v.wf(),
        v.running() is None,
    ensures
        !v.state_of(id).is_active(),
{
    off_chain_is_idle(v, id);
}

// ----- creation -----

/// With a stack of at least the minimum, and an allocator that can take
/// it, creation succeeds, and the new coroutine is suspended with an empty
/// channel. No other coroutine is touched.
pub proof fn creation_succeeds(v: RegistryView, stack_size: usize, capacity: usize)
    requires
        v.wf(),
        stack_size >= MIN_STACK_SIZE,
        v.in_use + stack_size <= v.budget,
        v.blocks.len() < usize::MAX,
    ensures
        v.create_result(stack_size) == Ok::<usize, CoroutineError>(v.blocks.len() as usize),
        !v.is_live(v.blocks.len() as usize),
        ({
            let id = v.blocks.len() as usize;
            let w = v.create(stack_size, capacity);
            &&& w.wf()
            &&& w.is_live(id)
            &&& w.state_of(id) == CoroutineState::Suspended
            &&& w.storage_of(id) == Seq::<u8>::empty()
            &&& w.capacity_of(id) == capacity
            &&& w.running() == v.running()
            &&& forall|x: usize| x != id ==> w.state_of(x) == v.state_of(x) && w.storage_of(x)
                == v.storage_of(x)
        }),
{
    lemma_create_wf(v, stack_size, capacity);
}

/// Where the stack is large enough but the allocator cannot take it, the
/// answer is `OutOfMemory`, and nothing is created.
pub proof fn exhausted_allocator_refuses(v: RegistryView, stack_size: usize, capacity: usize)
    requires
        stack_size >= MIN_STACK_SIZE,
        v.in_use + stack_size > v.budget,
    ensures
        v.create_result(stack_size) == Err::<usize, CoroutineError>(CoroutineError::OutOfMemory),
        v.create(stack_size, capacity) == v,
{
}

/// A stack below the minimum is rejected with `InvalidArguments`, whatever
/// the registry holds, and nothing is created.
pub proof fn small_stack_is_rejected(v: RegistryView, stack_size: usize, capacity: usize)
    requires
        stack_size < MIN_STACK_SIZE,
    ensures
        v.create_result(stack_size) == Err::<usize, CoroutineError>(
            CoroutineError::InvalidArguments,
        ),
        v.create(stack_size, capacity) == v,
{
}

// ----- resume, yield and return -----

/// Resuming a coroutine that is running, normal or dead is refused with
/// `NotSuspended` and changes nothing.
pub proof fn resume_needs_suspended(v: RegistryView, id: usize)
    requires
        v.is_live(id),
        v.state_of(id) != CoroutineState::Suspended,
    ensures
        v.resume_result(id) == Err::<(), CoroutineError>(CoroutineError::NotSuspended),
        v.resume(id) == v,
{
}

/// A resume succeeds exactly when the coroutine is suspended.
pub proof fn resume_succeeds_exactly_when_suspended(v: RegistryView, id: usize)
    ensures
        v.resume_result(id) is Ok <==> v.state_of(id) == CoroutineState::Suspended,
{
}

/// Neither a resume nor a yield or return creates or releases a control
/// block or changes the capacity of a storage channel.
pub proof fn switching_keeps_the_blocks(
    v: RegistryView,
    id: usize,
    end: CoroutineState,
    x: usize,
)
    requires
        v.wf(),
    ensures
        v.resume(id).capacity_of(x) == v.capacity_of(x),
        v.resume(id).is_live(x) == v.is_live(x),
        v.resume(id).blocks.len() == v.blocks.len(),
        v.leave(end).capacity_of(x) == v.capacity_of(x),
        v.leave(end).is_live(x) == v.is_live(x),
        v.leave(end).blocks.len() == v.blocks.len(),
        v.yield_now(id).capacity_of(x) == v.capacity_of(x),
        v.yield_now(id).is_live(x) == v.is_live(x),
{
    let n = v.chain.len() as int;
    if n > 0 {
        assert(v.link_ok(n - 1));
    }
    if n > 1 {
        assert(v.link_ok(n - 2));
    }
}

/// A yield followed by a resume of the coroutine that yielded leaves the
/// record exactly as it was.
pub proof fn yield_then_resume_restores(v: RegistryView)
    requires
        v.wf(),
        v.running() is Some,
    ensures
        v.leave(CoroutineState::Suspended).resume_result(v.running().unwrap()) == Ok::<
            (),
            CoroutineError,
        >(()),
        v.leave(CoroutineState::Suspended).resume(v.running().unwrap()) == v,
{
    let n = v.chain.len() as int;
    let id = v.running().unwrap();
    let w = v.leave(CoroutineState::Suspended);
    let x = w.resume(id);
    assert(v.link_ok(n - 1));
    if n > 1 {
        assert(v.link_ok(n - 2));
        assert(v.chain[n - 2] != v.chain[n - 1]);
    }
    assert(w.chain =~= v.chain.drop_last());
    assert(x.chain =~= v.chain);
    assert(x.blocks =~= v.blocks);
}

/// Resuming a suspended coroutine makes it the running one and makes the
/// coroutine that ran until then, if there was one, normal. Every other
/// coroutine keeps its state, and no storage channel changes.
pub proof fn resume_enters(v: RegistryView, id: usize)
    requires
        v.wf(),
        v.state_of(id) == CoroutineState::Suspended,
    ensures
        v.resume_result(id) == Ok::<(), CoroutineError>(()),
        ({
            let w = v.resume(id);
            &&& w.running() == Some(id)
            &&& w.state_of(id) == CoroutineState::Running
            &&& w.blocks[id as int].resumer == v.running()
            &&& v.running() matches Some(caller) ==> w.state_of(caller) == CoroutineState::Normal
            &&& forall|x: usize|
                x != id && v.running() != Some(x) ==> w.state_of(x) == v.state_of(x)
            &&& forall|x: usize| w.storage_of(x) == v.storage_of(x)
        }),
{
    let n = v.chain.len() as int;
    if n > 0 {
        assert(v.link_ok(n - 1));
    }
}

/// A yield at the root, where no coroutine is running, is refused with
/// `NotRunning` and changes nothing.
pub proof fn yield_at_root_fails(v: RegistryView, end: CoroutineState)
    requires
        v.running() is None,
    ensures
        v.current_result() == Err::<(), CoroutineError>(CoroutineError::NotRunning),
        v.leave(end) == v,
{
}

/// A yield asked of a coroutine that is not the running one is refused
/// with `NotRunning` and changes nothing.
pub proof fn yield_needs_running(v: RegistryView, id: usize)
    requires
        v.is_live(id),
        v.state_of(id) != CoroutineState::Running,
    ensures
        v.yield_result(id) == Err::<(), CoroutineError>(CoroutineError::NotRunning),
        v.yield_now(id) == v,
{
}

/// When the running coroutine yields, or returns, it takes the state
/// `end`, and control goes to the coroutine that resumed it, which runs
/// again, or to the root if it was resumed from there. Every other
/// coroutine keeps its state, and no storage channel changes.
pub proof fn leave_returns_to_resumer(v: RegistryView, end: CoroutineState)
    requires
        v.wf(),
        v.running() is Some,
        !end.is_active(),
    ensures
        ({
            let id = v.running().unwrap();
            let w = v.leave(end);
            &&& w.state_of(id) == end
            &&& w.running() == v.blocks[id as int].resumer
            &&& w.running() matches Some(back) ==> w.state_of(back) == CoroutineState::Running
            &&& forall|x: usize|
                x != id && w.running() != Some(x) ==> w.state_of(x) == v.state_of(x)
            &&& forall|x: usize| w.storage_of(x) == v.storage_of(x)
        }),
{
    let n = v.chain.len() as int;
    assert(v.link_ok(n - 1));
    if n > 1 {
        assert(v.link_ok(n - 2));
    }
}

/// A resume followed by the yield of the resumed coroutine leaves the
/// record exactly as it was: control is back with whoever asked for the
/// resume, and with nobody else.
pub proof fn resume_then_yield_restores(v: RegistryView, id: usize)
    requires
        v.wf(),
        v.state_of(id) == CoroutineState::Suspended,
    ensures
        v.resume(id).current_result() == Ok::<(), CoroutineError>(()),
        v.resume(id).yield_result(id) == Ok::<(), CoroutineError>(()),
        v.resume(id).leave(CoroutineState::Suspended) == v,
        v.resume(id).yield_now(id) == v,
{
    let n = v.chain.len() as int;
    let w = v.resume(id);
    let x = w.leave(CoroutineState::Suspended);
    assert(v.block_ok(id as int));
    if n > 0 {
        assert(v.link_ok(n - 1));
    }
    assert(w.chain.drop_last() =~= v.chain);
    assert(x.chain =~= v.chain);
    assert(x.blocks =~= v.blocks);
}

/// A coroutine whose entry routine has returned is dead for good: it
/// cannot be resumed and cannot yield, and it can be destroyed.
pub proof fn dead_is_final(v: RegistryView, id: usize)
    requires
        v.is_live(id),
        v.state_of(id) == CoroutineState::Dead,
    ensures
        v.resume_result(id) == Err::<(), CoroutineError>(CoroutineError::NotSuspended),
        v.yield_result(id) == Err::<(), CoroutineError>(CoroutineError::NotRunning),
        v.destroy_result(id) == Ok::<(), CoroutineError>(()),
{
}

// ----- the storage channel -----

/// Bytes that were pushed come back unchanged from a pop of the same
/// length, which leaves the record as it was before the push.
pub proof fn push_pop_round_trip(v: RegistryView, id: usize, bytes: Seq<u8>)
    requires
        v.push_result(id, bytes) is Ok,
    ensures
        v.push(id, bytes).tail_result(id, bytes.len()) == Ok::<Seq<u8>, CoroutineError>(bytes),
        v.push(id, bytes).pop(id, bytes.len()) == v,
{
    let w = v.push(id, bytes);
    let s = v.blocks[id as int].storage;
    assert((s + bytes).subrange(s.len() as int, (s + bytes).len() as int) =~= bytes);
    assert((s + bytes).subrange(0, s.len() as int) =~= s);
    assert(w.pop(id, bytes.len()).blocks =~= v.blocks);
}

/// What was pushed last is popped first.
pub proof fn channel_is_last_in_first_out(
    v: RegistryView,
    id: usize,
    first: Seq<u8>,
    second: Seq<u8>,
)
    requires
        v.push_result(id, first) is Ok,
        v.push(id, first).push_result(id, second) is Ok,
    ensures
        ({
            let w = v.push(id, first).push(id, second);
            &&& w.tail_result(id, second.len()) == Ok::<Seq<u8>, CoroutineError>(second)
            &&& w.pop(id, second.len()).tail_result(id, first.len()) == Ok::<
                Seq<u8>,
                CoroutineError,
            >(first)
            &&& w.pop(id, second.len()).pop(id, first.len()) == v
        }),
{
    push_pop_round_trip(v.push(id, first), id, second);
    push_pop_round_trip(v, id, first);
}

/// A push that the channel has no room for is refused with
/// `NotEnoughSpace`, and the channel holds what it held.
pub proof fn push_past_capacity_fails(v: RegistryView, id: usize, bytes: Seq<u8>)
    requires
        v.is_live(id),
        v.storage_of(id).len() + bytes.len() > v.capacity_of(id),
    ensures
        v.push_result(id, bytes) == Err::<(), CoroutineError>(CoroutineError::NotEnoughSpace),
        v.push(id, bytes) == v,
        v.push(id, bytes).storage_of(id).len() == v.storage_of(id).len(),
{
}

/// A channel never holds more than its capacity, and a push is accepted
/// exactly when the bytes fit into what is left.
pub proof fn channel_within_capacity(v: RegistryView, id: usize, bytes: Seq<u8>)
    requires
        v.wf(),
        v.is_live(id),
    ensures
        v.storage_of(id).len() <= v.capacity_of(id),
        v.push_result(id, bytes) is Ok <==> bytes.len() <= v.capacity_of(id) - v.storage_of(
            id,
        ).len(),
        v.push_result(id, bytes) is Ok ==> v.push(id, bytes).storage_of(id) == v.storage_of(id)
            + bytes,
{
    assert(v.block_ok(id as int));
}

/// Reading the last bytes of a channel by `peek` changes nothing, and a
/// `pop` of the same length removes exactly the bytes that were read.
pub proof fn pop_removes_what_peek_reads(v: RegistryView, id: usize, len: nat)
    requires
        v.tail_result(id, len) is Ok,
    ensures
        v.pop(id, len).storage_of(id) + v.tail_result(id, len).unwrap() == v.storage_of(id),
        v.pop(id, len).storage_of(id).len() == v.storage_of(id).len() - len,
{
    let s = v.blocks[id as int].storage;
    assert(s.subrange(0, s.len() - len) + s.subrange(s.len() - len, s.len() as int) =~= s);
}

// ----- destruction -----

/// A coroutine that is dead or suspended is destroyed on request. Its
/// stack goes back to the allocator once: the handle names nothing
/// afterwards, so that a second request is refused and gives nothing back
/// again. No other coroutine is touched.
pub proof fn destroy_releases_once(v: RegistryView, id: usize)
    requires
        v.wf(),
        v.is_live(id),
        v.state_of(id) == CoroutineState::Dead || v.state_of(id) == CoroutineState::Suspended,
    ensures
        v.destroy_result(id) == Ok::<(), CoroutineError>(()),
        ({
            let w = v.destroy(id);
            &&& !w.is_live(id)
            &&& w.in_use == v.in_use - v.blocks[id as int].stack_size
            &&& w.running() == v.running()
            &&& forall|x: usize| x != id ==> w.is_live(x) == v.is_live(x) && w.state_of(x)
                == v.state_of(x) && w.storage_of(x) == v.storage_of(x)
            &&& w.destroy_result(id) == Err::<(), CoroutineError>(
                CoroutineError::InvalidCoroutine,
            )
            &&& w.destroy(id) == w
        }),
{
    lemma_bytes_update(v.blocks, id as int, BlockView::released());
}

/// A coroutine that is running or normal cannot be destroyed: the request
/// is refused with `InvalidOperation` and changes nothing.
pub proof fn active_cannot_be_destroyed(v: RegistryView, id: usize)
    requires
        v.is_live(id),
        v.state_of(id).is_active(),
    ensures
        v.destroy_result(id) == Err::<(), CoroutineError>(CoroutineError::InvalidOperation),
        v.destroy(id) == v,
{
}

/// Destroying a coroutine right after its creation gives the allocator
/// back exactly the stack that the creation took.
pub proof fn create_then_destroy_balances(v: RegistryView, stack_size: usize, capacity: usize)
    requires
        v.wf(),
        v.create_result(stack_size) is Ok,
    ensures
        ({
            let id = v.create_result(stack_size).unwrap();
            let w = v.create(stack_size, capacity);
            &&& w.in_use == v.in_use + stack_size
            &&& w.destroy_result(id) == Ok::<(), CoroutineError>(())
            &&& w.destroy(id).in_use == v.in_use
        }),
{
}

/// The allocator's account is the sum of the stacks of the live
/// coroutines, each of which holds at least the minimum, and it never
/// exceeds the budget.
pub proof fn account_is_exact(v: RegistryView, id: usize)
    requires
        v.wf(),
    ensures
        v.in_use == live_stack_bytes(v.blocks),
        v.in_use <= v.budget,
        v.is_live(id) ==> MIN_STACK_SIZE <= v.blocks[id as int].stack_size <= v.in_use,
{
    if v.is_live(id) {
        assert(v.block_ok(id as int));
        lemma_bytes_update(v.blocks, id as int, v.blocks[id as int]);
    }
}

// ----- failures -----

/// A handle that names no live control block is refused everywhere with
/// `InvalidCoroutine`, and reads as a dead coroutine with an empty channel
/// of no capacity.
pub proof fn stale_handle_is_refused(v: RegistryView, id: usize, bytes: Seq<u8>, len: nat)
    requires
        !v.is_live(id),
    ensures
        v.resume_result(id) == Err::<(), CoroutineError>(CoroutineError::InvalidCoroutine),
        v.yield_result(id) == Err::<(), CoroutineError>(CoroutineError::InvalidCoroutine),
        v.push_result(id, bytes) == Err::<(), CoroutineError>(CoroutineError::InvalidCoroutine),
        v.tail_result(id, len) == Err::<Seq<u8>, CoroutineError>(
            CoroutineError::InvalidCoroutine,
        ),
        v.destroy_result(id) == Err::<(), CoroutineError>(CoroutineError::InvalidCoroutine),
        v.state_of(id) == CoroutineState::Dead,
        v.storage_of(id) == Seq::<u8>::empty(),
        v.capacity_of(id) == 0,
{
}

/// An operation that fails leaves the whole record as it was.
pub proof fn failure_changes_nothing(
    v: RegistryView,
    id: usize,
    stack_size: usize,
    capacity: usize,
    bytes: Seq<u8>,
    len: nat,
    end: CoroutineState,
)
    ensures
        v.create_result(stack_size) is Err ==> v.create(stack_size, capacity) == v,
        v.resume_result(id) is Err ==> v.resume(id) == v,
        v.yield_result(id) is Err ==> v.yield_now(id) == v,
        v.current_result() is Err ==> v.leave(end) == v,
        v.push_result(id, bytes) is Err ==> v.push(id, bytes) == v,
        v.tail_result(id, len) is Err ==> v.pop(id, len) == v,
        v.destroy_result(id) is Err ==> v.destroy(id) == v,
{
}

} // verus!
