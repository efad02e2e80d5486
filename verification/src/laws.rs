//! The laws of the machine: properties that relate several operations,
//! stated over the transition functions of [`crate::model`] that the
//! operations' own contracts pin their effects to.

use vstd::prelude::*;

use crate::AddressSpace;
use crate::model::{
    alloc_fits, alloc_handle, alloc_t, apply_op, buf_data, copy_allowed, copy_op, copy_t, free_t,
    init_t, lemma_replay_push, live_bufs, record_t, replay, set_current_t, sync_t, valid_buffer,
    valid_stream, wait_t, wf, MachineView, QueueOp,
};
use crate::types::{Buffer, Event, Stream};

verus! {

/// Driver bring-up happens at most once: performing it on an already
/// initialized machine changes nothing.
pub proof fn lemma_init_idempotent(v: MachineView)
    ensures
        init_t(init_t(v)) == init_t(v),
{
    assert(init_t(init_t(v)) =~~= init_t(v));
}

/// For every positive size and every address space, an allocation that
/// fits, followed immediately by its free on the same stream, leaves
/// no observable allocation: the live allocations, every memory pool,
/// and all context, stream and event state are exactly as before.
pub proof fn lemma_allocate_free_leaves_nothing(
    v: MachineView,
    s: Stream,
    size: usize,
    space: AddressSpace,
)
    requires
        wf(v),
        valid_stream(v, s),
        0 < size,
        alloc_fits(v, s.ctx, size, space),
    ensures
        ({
            let b = alloc_handle(v, s, size, space);
            let v2 = free_t(alloc_t(v, s, size, space), s, b);
            &&& live_bufs(v2.bufs) == live_bufs(v.bufs)
            &&& v2.devices == v.devices
            &&& v2.pinned == v.pinned
            &&& v2.plain == v.plain
            &&& v2.ctx_devices == v.ctx_devices
            &&& v2.streams == v.streams
            &&& v2.events == v.events
            &&& v2.accessible == v.accessible
            &&& v2.enabled == v.enabled
            &&& v2.initialized == v.initialized
        }),
{
    let b = alloc_handle(v, s, size, space);
    let v1 = alloc_t(v, s, size, space);
    let v2 = free_t(v1, s, b);
    assert(v2.bufs =~~= v.bufs.push(
        Some(
            crate::model::BufView {
                space,
                device_id: s.ctx.device_id,
                data: crate::model::zero_bytes(size as nat),
            },
        ),
    ).update(v.bufs.len() as int, None));
    assert(live_bufs(v2.bufs) =~~= live_bufs(v.bufs));
    match space {
        AddressSpace::Device => {
            assert(v2.devices =~= v.devices);
        },
        AddressSpace::PinnedHost => {},
        AddressSpace::PlainHost => {},
    }
}

/// A copy that was refused changes nothing a drain could observe: a
/// synchronize issued after the refused call completes exactly as a
/// synchronize issued in its place.
pub proof fn lemma_refused_copy_then_sync_unaffected(v: MachineView, s: Stream)
    requires
        valid_stream(v, s),
    ensures
        sync_t(set_current_t(v, s.ctx), s) == sync_t(v, s),
{
    assert(sync_t(set_current_t(v, s.ctx), s) =~~= sync_t(v, s));
}

/// Strict FIFO within a single stream: two copies issued on the same
/// stream join its queue in issue order, behind everything already
/// enqueued, and no other stream's queue changes.
pub proof fn lemma_same_stream_copies_keep_issue_order(
    v: MachineView,
    s: Stream,
    d1: Buffer,
    a1: Buffer,
    d2: Buffer,
    a2: Buffer,
)
    requires
        wf(v),
        valid_stream(v, s),
    ensures
        ({
            let v2 = copy_t(copy_t(v, s, d1, a1), s, d2, a2);
            &&& v2.streams[s.id as int].pending == v.streams[s.id as int].pending.push(
                copy_op(d1, a1),
            ).push(copy_op(d2, a2))
            &&& forall|j: int|
                0 <= j < v.streams.len() && j != s.id ==> #[trigger] v2.streams[j]
                    == v.streams[j]
        }),
{
}

/// Round trip: starting from a drained stream, after writing `data`
/// into a host buffer, copying it into a device buffer, copying that
/// back into a second host buffer, and draining the stream, the
/// second host buffer holds `data` bit-for-bit.
pub proof fn lemma_round_trip(
    v: MachineView,
    s: Stream,
    host_src: Buffer,
    dev: Buffer,
    host_dst: Buffer,
    data: Seq<u8>,
)
    requires
        wf(v),
        valid_stream(v, s),
        v.streams[s.id as int].pending.len() == 0,
        valid_buffer(v, host_src),
        valid_buffer(v, dev),
        valid_buffer(v, host_dst),
        host_src.address_space != AddressSpace::Device,
        data.len() == host_src.size,
        dev.size == host_src.size,
        host_dst.size == dev.size,
        copy_allowed(v, s, dev, host_src),
        copy_allowed(v, s, host_dst, dev),
    ensures
        ({
            let v1 = crate::model::write_t(v, host_src, data);
            let v2 = copy_t(v1, s, dev, host_src);
            let v3 = copy_t(v2, s, host_dst, dev);
            let v4 = sync_t(v3, s);
            buf_data(v4, host_dst) == data
        }),
{
    let v1 = crate::model::write_t(v, host_src, data);
    let v2 = copy_t(v1, s, dev, host_src);
    let v3 = copy_t(v2, s, host_dst, dev);
    let c1 = copy_op(dev, host_src);
    let c2 = copy_op(host_dst, dev);
    let q0 = v.streams[s.id as int].pending;
    assert(q0 =~= Seq::<QueueOp>::empty());
    assert(v3.streams[s.id as int].pending =~= q0.push(c1).push(c2));
    lemma_replay_push(v3.bufs, q0.push(c1), c2);
    lemma_replay_push(v3.bufs, q0, c1);
    assert(replay(v3.bufs, q0) == v3.bufs);
    let b1 = apply_op(v3.bufs, c1);
    assert(b1 =~~= v3.bufs.update(
        dev.id as int,
        Some(
            crate::model::BufView {
                space: v3.bufs[dev.id as int]->0.space,
                device_id: v3.bufs[dev.id as int]->0.device_id,
                data,
            },
        ),
    ));
    let b2 = apply_op(b1, c2);
    assert(b2[host_dst.id as int]->0.data == data);
}

/// Ordering through an event: starting from two distinct drained
/// streams, stream A copies X and records the event; stream B waits
/// for the event and then copies A's destination onward. After both
/// streams drain, B's destination holds exactly the bytes A's source
/// held at the start — the wait made A's completed result visible to
/// B.
pub proof fn lemma_event_orders_two_streams(
    v: MachineView,
    sa: Stream,
    sb: Stream,
    e: Event,
    xsrc: Buffer,
    xdst: Buffer,
    ydst: Buffer,
)
    requires
        wf(v),
        valid_stream(v, sa),
        valid_stream(v, sb),
        sa.id != sb.id,
        v.streams[sa.id as int].pending.len() == 0,
        v.streams[sb.id as int].pending.len() == 0,
        crate::model::valid_event(v, e),
        valid_buffer(v, xsrc),
        valid_buffer(v, xdst),
        valid_buffer(v, ydst),
        xdst.size == xsrc.size,
        ydst.size == xdst.size,
        copy_allowed(v, sa, xdst, xsrc),
        copy_allowed(v, sb, ydst, xdst),
    ensures
        ({
            let v1 = copy_t(v, sa, xdst, xsrc);
            let v2 = record_t(v1, sa, e);
            let v3 = wait_t(v2, sb, e);
            let v4 = copy_t(v3, sb, ydst, xdst);
            let v5 = sync_t(v4, sa);
            let v6 = sync_t(v5, sb);
            buf_data(v6, ydst) == buf_data(v, xsrc)
        }),
{
    let v1 = copy_t(v, sa, xdst, xsrc);
    let v2 = record_t(v1, sa, e);
    let v3 = wait_t(v2, sb, e);
    let v4 = copy_t(v3, sb, ydst, xdst);
    let v5 = sync_t(v4, sa);
    let cx = copy_op(xdst, xsrc);
    let cy = copy_op(ydst, xdst);
    let rec = QueueOp::Record { event: e.id };
    let w = QueueOp::Wait { event: e.id };
    let qa0 = v.streams[sa.id as int].pending;
    let qb0 = v.streams[sb.id as int].pending;
    assert(qa0 =~= Seq::<QueueOp>::empty());
    assert(qb0 =~= Seq::<QueueOp>::empty());
    assert(v2.events[e.id as int].recorded_on == Some(sa.id));
    assert(v2.streams[sa.id as int].pending =~= qa0.push(cx).push(rec));
    // the wait drains A's queue: X executes, the record is inert
    lemma_replay_push(v2.bufs, qa0.push(cx), rec);
    lemma_replay_push(v2.bufs, qa0, cx);
    assert(replay(v2.bufs, qa0) == v2.bufs);
    let b1 = apply_op(v2.bufs, cx);
    assert(b1[xdst.id as int]->0.data == buf_data(v, xsrc));
    assert(v3.bufs == apply_op(replay(v2.bufs, qa0.push(cx)), rec));
    assert(v3.bufs == b1);
    assert(v3.streams[sb.id as int].pending =~= qb0.push(w));
    assert(v4.streams[sb.id as int].pending =~= qb0.push(w).push(cy));
    // A's own drain finds an empty queue
    assert(v4.streams[sa.id as int].pending.len() == 0);
    assert(replay(v4.bufs, v4.streams[sa.id as int].pending) == v4.bufs);
    // B's drain executes the (already satisfied) wait, then Y
    lemma_replay_push(v5.bufs, qb0.push(w), cy);
    lemma_replay_push(v5.bufs, qb0, w);
    assert(replay(v5.bufs, qb0) == v5.bufs);
    assert(v5.bufs == b1);
    let b2 = apply_op(apply_op(b1, w), cy);
    assert(b2[ydst.id as int]->0.data == buf_data(v, xsrc));
}

/// Two streams on two different contexts, each starting drained and
/// copying between its own buffers with no event linking them, do not
/// disturb each other: after each stream's own drain, each
/// destination holds its own source's original bytes and both queues
/// are empty.
pub proof fn lemma_independent_streams(
    v: MachineView,
    s1: Stream,
    s2: Stream,
    a1: Buffer,
    d1: Buffer,
    a2: Buffer,
    d2: Buffer,
)
    requires
        wf(v),
        valid_stream(v, s1),
        valid_stream(v, s2),
        s1.ctx != s2.ctx,
        s1.id != s2.id,
        v.streams[s1.id as int].pending.len() == 0,
        v.streams[s2.id as int].pending.len() == 0,
        valid_buffer(v, a1),
        valid_buffer(v, d1),
        valid_buffer(v, a2),
        valid_buffer(v, d2),
        d1.size == a1.size,
        d2.size == a2.size,
        d2.id != d1.id,
        a2.id != d1.id,
        copy_allowed(v, s1, d1, a1),
        copy_allowed(v, s2, d2, a2),
    ensures
        ({
            let v1 = copy_t(v, s1, d1, a1);
            let v2 = copy_t(v1, s2, d2, a2);
            let v3 = sync_t(v2, s1);
            let v4 = sync_t(v3, s2);
            &&& buf_data(v4, d1) == buf_data(v, a1)
            &&& buf_data(v4, d2) == buf_data(v, a2)
            &&& v4.streams[s1.id as int].pending.len() == 0
            &&& v4.streams[s2.id as int].pending.len() == 0
        }),
{
    let v1 = copy_t(v, s1, d1, a1);
    let v2 = copy_t(v1, s2, d2, a2);
    let v3 = sync_t(v2, s1);
    let c1 = copy_op(d1, a1);
    let c2 = copy_op(d2, a2);
    let q1 = v.streams[s1.id as int].pending;
    let q2 = v.streams[s2.id as int].pending;
    assert(q1 =~= Seq::<QueueOp>::empty());
    assert(q2 =~= Seq::<QueueOp>::empty());
    assert(v2.streams[s1.id as int].pending =~= q1.push(c1));
    assert(v2.streams[s2.id as int].pending =~= q2.push(c2));
    lemma_replay_push(v2.bufs, q1, c1);
    assert(replay(v2.bufs, q1) == v2.bufs);
    let b1 = apply_op(v2.bufs, c1);
    assert(v3.bufs == b1);
    assert(b1[d1.id as int]->0.data == buf_data(v, a1));
    assert(v3.streams[s2.id as int].pending =~= q2.push(c2));
    lemma_replay_push(v3.bufs, q2, c2);
    assert(replay(v3.bufs, q2) == v3.bufs);
    let b2 = apply_op(b1, c2);
    assert(b2[d2.id as int]->0.data == buf_data(v, a2));
    assert(b2[d1.id as int]->0.data == buf_data(v, a1));
}

} // verus!
