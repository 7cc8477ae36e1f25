//! Memory manager: hands event buffers that CPU1 is done with back to CPU2.
//!
//! A released buffer first joins CPU1's local free queue. When the release
//! channel is idle, the local queue is moved onto the shared free queue at
//! once and the release doorbell rung; while CPU2 has not yet taken the
//! previous release, the move waits for the channel's transmit-free
//! interrupt (`free_buf_handler`).

use vstd::prelude::*;
use crate::ipcc::{tx_bit, Ipcc, IpccRegisters};
use crate::bits::bit_replaced;
use super::channels::IPCC_MM_RELEASE_BUFFER_CHANNEL;
use super::evt::EvtBox;
use super::{
    MemManagerTable, SharedMemory, BLE_SPARE_EVT_BUF, EVT_POOL, FREE_BUF_QUEUE,
    LOCAL_FREE_BUF_QUEUE, NULL_SLOT, POOL_SIZE, SYS_SPARE_EVT_BUF,
};

verus! {

/// The memory manager's table entries: spare buffers, the pool and the free
/// queue.
pub open spec fn mm_table() -> MemManagerTable {
    MemManagerTable {
        spare_ble_buffer: BLE_SPARE_EVT_BUF,
        spare_sys_buffer: SYS_SPARE_EVT_BUF,
        blepool: EVT_POOL,
        blepoolsize: POOL_SIZE,
        pevt_free_buffer_queue: FREE_BUF_QUEUE,
        traces_evt_pool: NULL_SLOT,
        tracespoolsize: 0,
    }
}

/// The queues after CPU1 releases buffer `x`: it joins the local free
/// queue; when the release channel is not `busy`, the local queue then moves
/// onto the back of the shared free queue.
pub open spec fn after_release(q: Map<u32, Seq<u32>>, busy: bool, x: u32) -> Map<u32, Seq<u32>> {
    if busy {
        q.insert(LOCAL_FREE_BUF_QUEUE, q[LOCAL_FREE_BUF_QUEUE].push(x))
    } else {
        after_send(q.insert(LOCAL_FREE_BUF_QUEUE, q[LOCAL_FREE_BUF_QUEUE].push(x)))
    }
}

/// The queues after the local free queue moves onto the back of the shared
/// free queue.
pub open spec fn after_send(q: Map<u32, Seq<u32>>) -> Map<u32, Seq<u32>> {
    q.insert(LOCAL_FREE_BUF_QUEUE, Seq::<u32>::empty()).insert(
        FREE_BUF_QUEUE,
        q[FREE_BUF_QUEUE] + q[LOCAL_FREE_BUF_QUEUE],
    )
}

/// How often `x` occurs in `s`.
pub open spec fn occurrences(s: Seq<u32>, x: u32) -> nat
    decreases s.len(),
{
    if s.len() == 0 {
        0
    } else {
        occurrences(s.drop_last(), x) + if s.last() == x {
            1nat
        } else {
            0nat
        }
    }
}

proof fn lemma_occurrences_absent(s: Seq<u32>, x: u32)
    requires
        !s.contains(x),
    ensures
        occurrences(s, x) == 0,
    decreases s.len(),
{
    if s.len() > 0 {
        assert(!s.drop_last().contains(x)) by {
            if s.drop_last().contains(x) {
                let k = choose|k: int| 0 <= k < s.drop_last().len() && s.drop_last()[k] == x;
                assert(s[k] == x);
            }
        }
        lemma_occurrences_absent(s.drop_last(), x);
    }
}

proof fn lemma_occurrences_concat(s: Seq<u32>, t: Seq<u32>, x: u32)
    ensures
        occurrences(s + t, x) == occurrences(s, x) + occurrences(t, x),
    decreases t.len(),
{
    if t.len() == 0 {
        assert(s + t =~= s);
    } else {
        lemma_occurrences_concat(s, t.drop_last(), x);
        assert((s + t).drop_last() =~= s + t.drop_last());
    }
}

/// A buffer that CPU1 releases ends up exactly once in the two free queues
/// together, whether the release channel was busy or not, provided it was in
/// neither before. Releasing consumes the buffer's `EvtBox`, and reading the
/// event through it changes nothing in the shared region, so each buffer is
/// released once however often it was read.
pub proof fn lemma_release_exactly_once(q: Map<u32, Seq<u32>>, busy: bool, x: u32)
    requires
        q.contains_key(LOCAL_FREE_BUF_QUEUE),
        q.contains_key(FREE_BUF_QUEUE),
        !q[LOCAL_FREE_BUF_QUEUE].contains(x),
        !q[FREE_BUF_QUEUE].contains(x),
    ensures
        occurrences(
            after_release(q, busy, x)[LOCAL_FREE_BUF_QUEUE] + after_release(q, busy, x)[FREE_BUF_QUEUE],
            x,
        ) == 1,
{
    let l = q[LOCAL_FREE_BUF_QUEUE];
    let f = q[FREE_BUF_QUEUE];
    lemma_occurrences_absent(l, x);
    lemma_occurrences_absent(f, x);
    assert(occurrences(seq![x], x) == 1) by {
        assert(seq![x].drop_last() =~= Seq::<u32>::empty());
        assert(occurrences(Seq::<u32>::empty(), x) == 0);
    }
    lemma_occurrences_concat(l, seq![x], x);
    assert(l + seq![x] =~= l.push(x));
    let r = after_release(q, busy, x);
    if busy {
        lemma_occurrences_concat(r[LOCAL_FREE_BUF_QUEUE], r[FREE_BUF_QUEUE], x);
    } else {
        assert(r[LOCAL_FREE_BUF_QUEUE] =~= Seq::<u32>::empty());
        assert(r[FREE_BUF_QUEUE] =~= f + l.push(x));
        lemma_occurrences_concat(f, l.push(x), x);
        lemma_occurrences_concat(r[LOCAL_FREE_BUF_QUEUE], r[FREE_BUF_QUEUE], x);
    }
}

/// A release while the release channel is busy leaves the shared free queue
/// as it was and parks the buffer on the local queue; the later
/// transmit-free interrupt moves it across and leaves the local queue empty.
pub proof fn lemma_busy_release_waits(q: Map<u32, Seq<u32>>, x: u32)
    requires
        q.contains_key(LOCAL_FREE_BUF_QUEUE),
        q.contains_key(FREE_BUF_QUEUE),
    ensures
        after_release(q, true, x)[FREE_BUF_QUEUE] == q[FREE_BUF_QUEUE],
        after_release(q, true, x)[LOCAL_FREE_BUF_QUEUE] == q[LOCAL_FREE_BUF_QUEUE].push(x),
        after_send(after_release(q, true, x))[LOCAL_FREE_BUF_QUEUE] == Seq::<u32>::empty(),
        after_send(after_release(q, true, x))[FREE_BUF_QUEUE] == q[FREE_BUF_QUEUE]
            + q[LOCAL_FREE_BUF_QUEUE].push(x),
        after_send(after_release(q, true, x)) == after_release(q, false, x),
{
}

/// The memory manager; its state lives in the shared region.
pub struct MemoryManager {}

impl MemoryManager {
    /// Empties both free queues and publishes the memory manager's table.
    pub fn new(shm: &mut SharedMemory) -> (r: MemoryManager)
        requires
            old(shm).wf(),
        ensures
            final(shm).wf(),
            final(shm).queues() == old(shm).queues().insert(FREE_BUF_QUEUE, Seq::<u32>::empty()).insert(
                LOCAL_FREE_BUF_QUEUE,
                Seq::<u32>::empty(),
            ),
            final(shm).in_flight() == old(shm).in_flight(),
            final(shm).spec_tables() == (super::RefTable {
                mem_manager_table: mm_table(),
                ..old(shm).spec_tables()
            }),
            forall|x: u32| #[trigger] final(shm).slot_bytes(x) == old(shm).slot_bytes(x),
    {
        shm.init_queue(FREE_BUF_QUEUE);
        shm.init_queue(LOCAL_FREE_BUF_QUEUE);
        shm.set_mem_manager_table(
            MemManagerTable {
                spare_ble_buffer: BLE_SPARE_EVT_BUF,
                spare_sys_buffer: SYS_SPARE_EVT_BUF,
                blepool: EVT_POOL,
                blepoolsize: POOL_SIZE,
                pevt_free_buffer_queue: FREE_BUF_QUEUE,
                traces_evt_pool: NULL_SLOT,
                tracespoolsize: 0,
            },
        );
        MemoryManager {}
    }
}

/// Hands the buffer of `evt` back. It joins the local free queue; if the
/// release channel is idle, the local queue is moved onto the shared free
/// queue and the release doorbell rung, otherwise the channel's
/// transmit-free interrupt is enabled so that `free_buf_handler` does the
/// move later. The handle is consumed: a buffer goes back once.
pub fn evt_drop(evt: EvtBox, shm: &mut SharedMemory, ipcc: &mut Ipcc)
    requires
        old(shm).wf(),
        old(shm).in_flight().contains(evt.slot()),
    ensures
        final(shm).wf(),
        final(shm).in_flight() == old(shm).in_flight().remove(evt.slot()),
        !old(shm).queue(LOCAL_FREE_BUF_QUEUE).contains(evt.slot()),
        !old(shm).queue(FREE_BUF_QUEUE).contains(evt.slot()),
        final(shm).queues() == after_release(
            old(shm).queues(),
            old(ipcc).c1_flag(IPCC_MM_RELEASE_BUFFER_CHANNEL),
            evt.slot(),
        ),
        old(ipcc).c1_flag(IPCC_MM_RELEASE_BUFFER_CHANNEL) ==> {
            &&& final(ipcc).rb.is_c1_tx_set(old(ipcc).rb, IPCC_MM_RELEASE_BUFFER_CHANNEL, true)
        },
        !old(ipcc).c1_flag(IPCC_MM_RELEASE_BUFFER_CHANNEL) ==> {
            &&& final(ipcc).rb.is_c1_flag_set(old(ipcc).rb, IPCC_MM_RELEASE_BUFFER_CHANNEL)
        },
        forall|x: u32| #[trigger] final(shm).slot_bytes(x) == old(shm).slot_bytes(x),
        final(shm).spec_tables() == old(shm).spec_tables(),
{
    proof {
        shm.lemma_wf();
    }
    let x = evt.slot_number();
    shm.push(LOCAL_FREE_BUF_QUEUE, x, true);
    let ghost pushed = shm.queues();
    let channel_is_busy = ipcc.c1_is_active_flag(IPCC_MM_RELEASE_BUFFER_CHANNEL);
    if channel_is_busy {
        ipcc.c1_set_tx_channel(IPCC_MM_RELEASE_BUFFER_CHANNEL, true);
    } else {
        send_free_buf(shm);
        ipcc.c1_set_flag_channel(IPCC_MM_RELEASE_BUFFER_CHANNEL);
        proof {
            assert(pushed[FREE_BUF_QUEUE] == old(shm).queues()[FREE_BUF_QUEUE]);
        }
    }
}

/// Moves every buffer of the local free queue, in order, to the back of the
/// shared free queue.
pub fn send_free_buf(shm: &mut SharedMemory)
    requires
        old(shm).wf(),
    ensures
        final(shm).wf(),
        final(shm).queues() == after_send(old(shm).queues()),
        final(shm).in_flight() == old(shm).in_flight(),
        forall|x: u32| #[trigger] final(shm).slot_bytes(x) == old(shm).slot_bytes(x),
        final(shm).spec_tables() == old(shm).spec_tables(),
{
    let ghost local = shm.queue(LOCAL_FREE_BUF_QUEUE);
    let ghost free = shm.queue(FREE_BUF_QUEUE);
    let ghost k: int = 0;
    proof {
        shm.lemma_wf();
        assert(local.subrange(0, local.len() as int) =~= local);
        assert(free + local.subrange(0, 0) =~= free);
        assert(shm.queues().insert(LOCAL_FREE_BUF_QUEUE, local).insert(FREE_BUF_QUEUE, free) =~= shm.queues());
    }
    while !shm.is_queue_empty(LOCAL_FREE_BUF_QUEUE)
        invariant
            shm.wf(),
            0 <= k <= local.len(),
            shm.queues() == old(shm).queues().insert(
                LOCAL_FREE_BUF_QUEUE,
                local.subrange(k, local.len() as int),
            ).insert(FREE_BUF_QUEUE, free + local.subrange(0, k)),
            shm.in_flight() == old(shm).in_flight(),
            forall|x: u32| #[trigger] shm.slot_bytes(x) == old(shm).slot_bytes(x),
            shm.spec_tables() == old(shm).spec_tables(),
        decreases local.len() - k,
    {
        let node = shm.pop(LOCAL_FREE_BUF_QUEUE, false);
        match node {
            Some(x) => {
                shm.push(FREE_BUF_QUEUE, x, false);
                proof {
                    assert(local[k] == x);
                    k = k + 1;
                    assert(shm.queue(LOCAL_FREE_BUF_QUEUE) =~= local.subrange(k, local.len() as int));
                    assert(shm.queue(FREE_BUF_QUEUE) =~= free + local.subrange(0, k));
                    assert(shm.queues() =~= old(shm).queues().insert(
                        LOCAL_FREE_BUF_QUEUE,
                        local.subrange(k, local.len() as int),
                    ).insert(FREE_BUF_QUEUE, free + local.subrange(0, k)));
                }
            },
            None => {},
        }
    }
    proof {
        assert(local.subrange(0, local.len() as int) =~= local);
        assert(local.subrange(local.len() as int, local.len() as int) =~= Seq::<u32>::empty());
    }
}

/// Transmit-free interrupt of the release channel: CPU2 took the previous
/// release, so the deferred move happens now and the doorbell is rung again.
pub fn free_buf_handler(shm: &mut SharedMemory, ipcc: &mut Ipcc)
    requires
        old(shm).wf(),
    ensures
        final(shm).wf(),
        final(shm).queues() == after_send(old(shm).queues()),
        final(shm).in_flight() == old(shm).in_flight(),
        forall|x: u32| #[trigger] final(shm).slot_bytes(x) == old(shm).slot_bytes(x),
        final(shm).spec_tables() == old(shm).spec_tables(),
        !final(ipcc).c1_tx_enabled(IPCC_MM_RELEASE_BUFFER_CHANNEL),
        final(ipcc).c1_flag(IPCC_MM_RELEASE_BUFFER_CHANNEL),
        bit_replaced(
            final(ipcc).rb.c1mr,
            old(ipcc).rb.c1mr,
            tx_bit(IPCC_MM_RELEASE_BUFFER_CHANNEL),
            true,
        ),
        bit_replaced(
            final(ipcc).rb.c1toc2sr,
            old(ipcc).rb.c1toc2sr,
            IPCC_MM_RELEASE_BUFFER_CHANNEL.spec_index(),
            true,
        ),
        final(ipcc).rb == (IpccRegisters {
            c1mr: final(ipcc).rb.c1mr,
            c1toc2sr: final(ipcc).rb.c1toc2sr,
            ..old(ipcc).rb
        }),
{
    ipcc.c1_set_tx_channel(IPCC_MM_RELEASE_BUFFER_CHANNEL, false);
    send_free_buf(shm);
    ipcc.c1_set_flag_channel(IPCC_MM_RELEASE_BUFFER_CHANNEL);
}

} // verus!
