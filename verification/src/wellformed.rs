//! Every operation of the model keeps the record well formed.

use vstd::prelude::*;
use crate::model::{live_stack_bytes, BlockView, RegistryView};
use crate::state::CoroutineState;

verus! {

/// Appending a block adds what it holds to the total.
pub proof fn lemma_bytes_push(blocks: Seq<BlockView>, b: BlockView)
    ensures
        live_stack_bytes(blocks.push(b)) == live_stack_bytes(blocks) + b.held(),
{
    assert(blocks.push(b).drop_last() == blocks);
}

/// Replacing a block changes the total by the difference of what the two
/// hold.
pub proof fn lemma_bytes_update(blocks: Seq<BlockView>, i: int, b: BlockView)
    requires
        0 <= i < blocks.len(),
    ensures
        live_stack_bytes(blocks.update(i, b)) == live_stack_bytes(blocks) - blocks[i].held()
            + b.held(),
        live_stack_bytes(blocks) >= blocks[i].held(),
    decreases blocks.len(),
{
    let after = blocks.update(i, b);
    if i == blocks.len() - 1 {
        assert(after.drop_last() == blocks.drop_last());
    } else {
        assert(after.drop_last() == blocks.drop_last().update(i, b));
        lemma_bytes_update(blocks.drop_last(), i, b);
    }
}

/// A chain that holds `x` still holds it after an element was appended.
proof fn lemma_contains_push(s: Seq<usize>, a: usize, x: usize)
    requires
        s.contains(x),
    ensures
        s.push(a).contains(x),
{
    let k = choose|k: int| 0 <= k < s.len() && s[k] == x;
    assert(s.push(a)[k] == x);
}

/// A chain that holds `x` before its last place still holds it after the
/// last element was dropped.
proof fn lemma_contains_drop_last(s: Seq<usize>, x: usize)
    requires
        s.len() > 0,
        s.contains(x),
        s.last() != x,
    ensures
        s.drop_last().contains(x),
{
    let k = choose|k: int| 0 <= k < s.len() && s[k] == x;
    assert(s.drop_last()[k] == x);
}

/// The running coroutine is the last of the chain, and nothing else is
/// running.
pub proof fn lemma_running_is_top(v: RegistryView, id: usize)
    requires
        v.wf(),
        v.state_of(id) == CoroutineState::Running,
    ensures
        v.running() == Some(id),
{
    assert(v.block_ok(id as int));
    let k = choose|k: int| 0 <= k < v.chain.len() && v.chain[k] == id;
    assert(v.link_ok(k));
}

/// A coroutine that is not active is nowhere on the chain.
pub proof fn lemma_inactive_off_chain(v: RegistryView, id: usize, k: int)
    requires
        v.wf(),
        !v.state_of(id).is_active(),
        0 <= k < v.chain.len(),
    ensures
        v.chain[k] != id,
{
    assert(v.link_ok(k));
}

/// A thread on which nothing was created is well formed.
pub proof fn lemma_empty_wf(budget: nat)
    requires
        budget <= usize::MAX,
    ensures
        RegistryView::empty(budget).wf(),
{
}

/// Creation keeps the record well formed.
pub proof fn lemma_create_wf(v: RegistryView, stack_size: usize, capacity: usize)
    requires
        v.wf(),
    ensures
        v.create(stack_size, capacity).wf(),
{
    let w = v.create(stack_size, capacity);
    if v.create_result(stack_size) is Ok {
        let b = BlockView::fresh(stack_size as nat, capacity as nat);
        lemma_bytes_push(v.blocks, b);
        assert forall|k: int| 0 <= k < w.chain.len() implies #[trigger] w.link_ok(k) by {
            assert(v.link_ok(k));
        }
        assert forall|i: int| 0 <= i < w.blocks.len() implies #[trigger] w.block_ok(i) by {
            if i < v.blocks.len() {
                assert(v.block_ok(i));
            }
        }
    }
}

/// Resuming keeps the record well formed.
pub proof fn lemma_resume_wf(v: RegistryView, id: usize)
    requires
        v.wf(),
    ensures
        v.resume(id).wf(),
{
    let w = v.resume(id);
    if v.resume_result(id) is Ok {
        let n = v.chain.len() as int;
        let waiting = v.with_top_state(CoroutineState::Normal);
        if n > 0 {
            assert(v.link_ok(n - 1));
        }
        assert(waiting.len() == v.blocks.len());
        assert(w.blocks == waiting.update(id as int, w.blocks[id as int]));
        assert(w.blocks.len() == v.blocks.len());
        assert(w.chain == v.chain.push(id));
        assert forall|k: int| 0 <= k < n implies v.chain[k] != id by {
            lemma_inactive_off_chain(v, id, k);
        }
        if n > 0 {
            lemma_bytes_update(v.blocks, v.chain.last() as int, waiting[v.chain.last() as int]);
        }
        lemma_bytes_update(waiting, id as int, w.blocks[id as int]);
        assert forall|k: int| 0 <= k < w.chain.len() implies #[trigger] w.link_ok(k) by {
            if k < n {
                assert(v.link_ok(k));
                assert(w.chain[k] == v.chain[k]);
                if k < n - 1 {
                    assert(v.chain[k] != v.chain[n - 1]);
                }
            } else {
                assert(w.chain[k] == id);
            }
        }
        assert forall|i: int| 0 <= i < w.blocks.len() implies #[trigger] w.block_ok(i) by {
            assert(v.block_ok(i));
            if i == id as int {
                assert(w.chain[n] == id);
            } else if w.blocks[i].state.is_active() {
                if n > 0 && i == v.chain.last() as int {
                    assert(w.chain[n - 1] == v.chain.last());
                } else {
                    assert(w.blocks[i] == v.blocks[i]);
                    lemma_contains_push(v.chain, id, i as usize);
                }
            }
        }
    }
}

/// Giving up control, by a yield or by a return, keeps the record well
/// formed.
pub proof fn lemma_leave_wf(v: RegistryView, end: CoroutineState)
    requires
        v.wf(),
        !end.is_active(),
    ensures
        v.leave(end).wf(),
{
    let w = v.leave(end);
    let n = v.chain.len() as int;
    if n > 0 {
        let top = v.chain.last();
        assert(v.link_ok(n - 1));
        let left = v.blocks.update(
            top as int,
            BlockView { state: end, resumer: None, ..v.blocks[top as int] },
        );
        lemma_bytes_update(v.blocks, top as int, left[top as int]);
        if n > 1 {
            assert(v.link_ok(n - 2));
            lemma_bytes_update(left, v.chain[n - 2] as int, w.blocks[v.chain[n - 2] as int]);
        }
        assert forall|k: int| 0 <= k < w.chain.len() implies #[trigger] w.link_ok(k) by {
            assert(v.link_ok(k));
            assert(v.chain[k] != top);
            if k < n - 2 {
                assert(v.chain[k] != v.chain[n - 2]);
            }
        }
        assert forall|i: int| 0 <= i < w.blocks.len() implies #[trigger] w.block_ok(i) by {
            assert(v.block_ok(i));
            if i != top as int && w.blocks[i].state.is_active() {
                if n > 1 && i == v.chain[n - 2] as int {
                    assert(w.chain[n - 2] == i as usize);
                } else {
                    lemma_contains_drop_last(v.chain, i as usize);
                }
            }
        }
    }
}

/// A yield asked of a given coroutine keeps the record well formed.
pub proof fn lemma_yield_wf(v: RegistryView, id: usize)
    requires
        v.wf(),
    ensures
        v.yield_now(id).wf(),
{
    lemma_leave_wf(v, CoroutineState::Suspended);
}

/// Replacing the channel of a live block by bytes within its capacity
/// keeps the record well formed.
proof fn lemma_storage_wf(v: RegistryView, id: usize, storage: Seq<u8>)
    requires
        v.wf(),
        v.is_live(id),
        storage.len() <= v.blocks[id as int].capacity,
    ensures
        (RegistryView {
            blocks: v.blocks.update(id as int, BlockView { storage, ..v.blocks[id as int] }),
            ..v
        }).wf(),
{
    let w = RegistryView {
        blocks: v.blocks.update(id as int, BlockView { storage, ..v.blocks[id as int] }),
        ..v
    };
    lemma_bytes_update(v.blocks, id as int, w.blocks[id as int]);
    assert forall|k: int| 0 <= k < w.chain.len() implies #[trigger] w.link_ok(k) by {
        assert(v.link_ok(k));
    }
    assert forall|i: int| 0 <= i < w.blocks.len() implies #[trigger] w.block_ok(i) by {
        assert(v.block_ok(i));
    }
}

/// Pushing keeps the record well formed.
pub proof fn lemma_push_wf(v: RegistryView, id: usize, bytes: Seq<u8>)
    requires
        v.wf(),
    ensures
        v.push(id, bytes).wf(),
{
    if v.push_result(id, bytes) is Ok {
        lemma_storage_wf(v, id, v.blocks[id as int].storage + bytes);
    }
}

/// Popping keeps the record well formed.
pub proof fn lemma_pop_wf(v: RegistryView, id: usize, len: nat)
    requires
        v.wf(),
    ensures
        v.pop(id, len).wf(),
{
    if v.tail_result(id, len) is Ok {
        let s = v.blocks[id as int].storage;
        assert(v.block_ok(id as int));
        lemma_storage_wf(v, id, s.subrange(0, s.len() - len));
    }
}

/// Destroying keeps the record well formed.
pub proof fn lemma_destroy_wf(v: RegistryView, id: usize)
    requires
        v.wf(),
    ensures
        v.destroy(id).wf(),
{
    let w = v.destroy(id);
    if v.destroy_result(id) is Ok {
        lemma_bytes_update(v.blocks, id as int, BlockView::released());
        assert forall|k: int| 0 <= k < w.chain.len() implies #[trigger] w.link_ok(k) by {
            assert(v.link_ok(k));
        }
        assert forall|i: int| 0 <= i < w.blocks.len() implies #[trigger] w.block_ok(i) by {
            assert(v.block_ok(i));
        }
    }
}

} // verus!
