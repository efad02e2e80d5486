//! The mathematical model of the machine: the state every operation's
//! contract speaks of, validity of the handle types against it, and one
//! transition function per operation.

use vstd::prelude::*;

use crate::AddressSpace;
use crate::types::{Buffer, Context, Event, Stream};

verus! {

/// A memory pool: a capacity fixed at machine construction and the
/// number of bytes currently allocated from it.
#[derive(Debug, Clone, Copy, PartialEq, Eq, Structural)]
pub struct MemPool {
    pub capacity: usize,
    pub used: usize,
}

/// One enqueued entry of a stream's FIFO, by the machine handles it
/// names.
#[derive(Debug, Clone, Copy, PartialEq, Eq, Structural)]
pub enum QueueOp {
    /// An asynchronous copy of `size` bytes between two buffer slots.
    Copy { dst: usize, src: usize, size: usize },
    /// A record of an event: the event stands for everything enqueued
    /// before this entry.
    Record { event: usize },
    /// A wait for an event: entries after this one do not execute
    /// until the event's most recent record is satisfied.
    Wait { event: usize },
}

/// The driver-side state of one command queue: the context it is bound
/// to and, in issue order, the enqueued entries not yet known drained.
#[verifier::ext_equal]
pub struct StreamView {
    pub ctx_id: usize,
    pub pending: Seq<QueueOp>,
}

/// The driver-side state of one event: the context it is bound to
/// and, if it has ever been recorded, the stream the most recent
/// record was issued on.
#[derive(Debug, Clone, Copy, PartialEq, Eq)]
pub struct EventState {
    pub ctx_id: usize,
    pub recorded_on: Option<usize>,
}

/// The model of one live allocation.
#[verifier::ext_equal]
pub struct BufView {
    /// Which address space the bytes live in.
    pub space: AddressSpace,
    /// The device whose context created the allocation. Meaningful for
    /// `Device` memory; for host memory it only records the creator.
    pub device_id: i32,
    /// The bytes themselves; the length is the buffer's size.
    pub data: Seq<u8>,
}

/// The whole machine state: devices with their memory pools, the two
/// host pools, every context, stream, event and allocation ever
/// created, the peer-access topology, and which context is current on
/// the (single) host thread.
///
/// Slots in `bufs` are never reused: freeing an allocation leaves
/// `None` behind, so a buffer handle identifies its allocation for the
/// whole life of the machine.
#[verifier::ext_equal]
pub struct MachineView {
    /// Whether global driver bring-up has happened.
    pub initialized: bool,
    /// One device-local memory pool per device.
    pub devices: Seq<MemPool>,
    /// The page-locked host memory pool.
    pub pinned: MemPool,
    /// The ordinary host memory pool.
    pub plain: MemPool,
    /// The device each created context is bound to, by context id.
    pub ctx_devices: Seq<i32>,
    /// The state of each created stream, by stream id.
    pub streams: Seq<StreamView>,
    /// The state of each created event, by event id.
    pub events: Seq<EventState>,
    /// One slot per allocation ever made; `None` once freed.
    pub bufs: Seq<Option<BufView>>,
    /// The ordered device pairs `(a, b)` for which the hardware lets
    /// device `a` address device `b`'s memory.
    pub accessible: Seq<(i32, i32)>,
    /// The ordered device pairs for which peer access has been enabled.
    pub enabled: Seq<(i32, i32)>,
    /// The context currently current on the host thread, if any.
    pub current: Option<usize>,
}

/// A sequence of `n` zero bytes: the contents of a fresh allocation.
pub open spec fn zero_bytes(n: nat) -> Seq<u8> {
    Seq::new(n, |i: int| 0u8)
}

/// Well-formedness of a machine state: every stored id is in range and
/// no pool has allocated past its capacity. Constructed machines are
/// well formed and every operation preserves it.
pub open spec fn wf(v: MachineView) -> bool {
    &&& v.ctx_devices.len() <= usize::MAX
    &&& v.streams.len() <= usize::MAX
    &&& v.events.len() <= usize::MAX
    &&& v.bufs.len() <= usize::MAX
    &&& v.accessible.len() <= usize::MAX
    &&& v.enabled.len() <= usize::MAX
    &&& forall|i: int|
        0 <= i < v.ctx_devices.len() ==> 0 <= #[trigger] v.ctx_devices[i]
            && (v.ctx_devices[i] as int) < v.devices.len()
    &&& forall|i: int|
        0 <= i < v.devices.len() ==> (#[trigger] v.devices[i]).used <= v.devices[i].capacity
    &&& v.pinned.used <= v.pinned.capacity
    &&& v.plain.used <= v.plain.capacity
    &&& forall|i: int|
        0 <= i < v.streams.len() ==> (#[trigger] v.streams[i]).ctx_id < v.ctx_devices.len()
    &&& forall|i: int|
        0 <= i < v.events.len() ==> (#[trigger] v.events[i]).ctx_id < v.ctx_devices.len()
    &&& forall|i: int|
        0 <= i < v.events.len() ==> ((#[trigger] v.events[i]).recorded_on matches Some(a)
            ==> a < v.streams.len())
    &&& forall|i: int|
        0 <= i < v.bufs.len() && (#[trigger] v.bufs[i]) is Some ==> 0 <= v.bufs[i]->0.device_id
            && (v.bufs[i]->0.device_id as int) < v.devices.len()
    &&& v.current matches Some(c) ==> c < v.ctx_devices.len()
}

/// A context handle is valid when the machine created it for the
/// device it names.
pub open spec fn valid_ctx(v: MachineView, c: Context) -> bool {
    &&& c.id < v.ctx_devices.len()
    &&& v.ctx_devices[c.id as int] == c.device_id
}

/// A stream handle is valid when the machine created it under the
/// context it names.
pub open spec fn valid_stream(v: MachineView, s: Stream) -> bool {
    &&& valid_ctx(v, s.ctx)
    &&& s.id < v.streams.len()
    &&& v.streams[s.id as int].ctx_id == s.ctx.id
}

/// An event handle is valid when the machine created it under the
/// context it names.
pub open spec fn valid_event(v: MachineView, e: Event) -> bool {
    &&& valid_ctx(v, e.ctx)
    &&& e.id < v.events.len()
    &&& v.events[e.id as int].ctx_id == e.ctx.id
}

/// A buffer handle is valid when its allocation is still live and the
/// handle's metadata agrees with the allocation.
pub open spec fn valid_buffer(v: MachineView, b: Buffer) -> bool {
    &&& valid_ctx(v, b.ctx)
    &&& b.id < v.bufs.len()
    &&& v.bufs[b.id as int] matches Some(st) && st.space == b.address_space
        && st.data.len() == b.size && st.device_id == b.ctx.device_id
}

/// The bytes a live buffer holds.
pub open spec fn buf_data(v: MachineView, b: Buffer) -> Seq<u8> {
    v.bufs[b.id as int]->0.data
}

/// The pool an allocation in `space` is served from, on the device of
/// context `c`.
pub open spec fn pool_of(v: MachineView, c: Context, space: AddressSpace) -> MemPool {
    match space {
        AddressSpace::Device => v.devices[c.device_id as int],
        AddressSpace::PinnedHost => v.pinned,
        AddressSpace::PlainHost => v.plain,
    }
}

/// Whether an allocation of `size` bytes fits the pool it would be
/// served from.
pub open spec fn alloc_fits(v: MachineView, c: Context, size: usize, space: AddressSpace) -> bool {
    pool_of(v, c, space).used + size <= pool_of(v, c, space).capacity
}

/// The state with `pool` grown by `size` bytes, put back in place.
pub open spec fn with_pool(v: MachineView, c: Context, space: AddressSpace, p: MemPool) -> MachineView {
    match space {
        AddressSpace::Device => MachineView {
            devices: v.devices.update(c.device_id as int, p),
            ..v
        },
        AddressSpace::PinnedHost => MachineView { pinned: p, ..v },
        AddressSpace::PlainHost => MachineView { plain: p, ..v },
    }
}

/// Making context `c` current on the host thread; the effect every
/// driver-facing operation has first, whatever else it does.
pub open spec fn set_current_t(v: MachineView, c: Context) -> MachineView {
    MachineView { current: Some(c.id), ..v }
}

/// Global driver bring-up. Idempotent: the rest of the state is
/// untouched.
pub open spec fn init_t(v: MachineView) -> MachineView {
    MachineView { initialized: true, ..v }
}

/// Creating a context for `device_id`: bring-up has happened and one
/// context slot is appended.
pub open spec fn ctx_new_t(v: MachineView, device_id: i32) -> MachineView {
    MachineView { ctx_devices: init_t(v).ctx_devices.push(device_id), ..init_t(v) }
}

/// The handle `Context::new` hands back on success.
pub open spec fn ctx_new_handle(v: MachineView, device_id: i32) -> Context {
    Context { device_id, id: v.ctx_devices.len() as usize }
}

/// Creating a stream under context `c`: `c` becomes current and one
/// empty queue is appended.
pub open spec fn stream_new_t(v: MachineView, c: Context) -> MachineView {
    MachineView {
        streams: v.streams.push(StreamView { ctx_id: c.id, pending: Seq::empty() }),
        ..set_current_t(v, c)
    }
}

/// The handle `Context::create_stream` hands back.
pub open spec fn stream_new_handle(v: MachineView, c: Context) -> Stream {
    Stream { ctx: c, id: v.streams.len() as usize }
}

/// Creating an event under context `c`: `c` becomes current and one
/// unrecorded event is appended.
pub open spec fn event_new_t(v: MachineView, c: Context) -> MachineView {
    MachineView {
        events: v.events.push(EventState { ctx_id: c.id, recorded_on: None }),
        ..set_current_t(v, c)
    }
}

/// The handle `Context::create_event` hands back.
pub open spec fn event_new_handle(v: MachineView, c: Context) -> Event {
    Event { ctx: c, id: v.events.len() as usize }
}

/// A successful allocation of `size` bytes issued on stream `s`: the
/// stream's context becomes current, a zero-filled slot is appended,
/// and the serving pool grows by `size`.
pub open spec fn alloc_t(v: MachineView, s: Stream, size: usize, space: AddressSpace) -> MachineView {
    let v1 = set_current_t(v, s.ctx);
    let p = pool_of(v, s.ctx, space);
    let grown = MemPool { capacity: p.capacity, used: (p.used + size) as usize };
    MachineView {
        bufs: v1.bufs.push(
            Some(BufView { space, device_id: s.ctx.device_id, data: zero_bytes(size as nat) }),
        ),
        ..with_pool(v1, s.ctx, space, grown)
    }
}

/// The handle a successful allocation hands back.
pub open spec fn alloc_handle(v: MachineView, s: Stream, size: usize, space: AddressSpace) -> Buffer {
    Buffer { ctx: s.ctx, size, address_space: space, id: v.bufs.len() as usize }
}

/// Freeing buffer `b` through stream `s`: the stream's context becomes
/// current, the slot is cleared, and the serving pool shrinks by the
/// buffer's size.
pub open spec fn free_t(v: MachineView, s: Stream, b: Buffer) -> MachineView {
    let v1 = set_current_t(v, s.ctx);
    let p = pool_of(v, b.ctx, b.address_space);
    let shrunk = MemPool {
        capacity: p.capacity,
        used: if b.size <= p.used {
            (p.used - b.size) as usize
        } else {
            0
        },
    };
    MachineView { bufs: v1.bufs.update(b.id as int, None), ..with_pool(v1, b.ctx, b.address_space, shrunk) }
}

/// Whether an operation issued under the device of stream `s` may
/// address buffer `b` directly: host memory always; device memory when
/// it is on the stream's own device or peer access from the stream's
/// device to the buffer's device has been enabled.
pub open spec fn dev_accessible(v: MachineView, s: Stream, b: Buffer) -> bool {
    ||| b.address_space != AddressSpace::Device
    ||| b.ctx.device_id == s.ctx.device_id
    ||| v.enabled.contains((s.ctx.device_id, b.ctx.device_id))
}

/// Whether a copy between `dst` and `src` may be enqueued on `s`: both
/// ends must be addressable from the issuing stream's device.
pub open spec fn copy_allowed(v: MachineView, s: Stream, dst: Buffer, src: Buffer) -> bool {
    dev_accessible(v, s, dst) && dev_accessible(v, s, src)
}

/// The queue entry a copy between `dst` and `src` enqueues.
pub open spec fn copy_op(dst: Buffer, src: Buffer) -> QueueOp {
    QueueOp::Copy { dst: dst.id, src: src.id, size: src.size }
}

/// A successful asynchronous copy enqueued on `s`: the stream's
/// context becomes current and the copy joins the tail of the
/// stream's FIFO. No bytes move yet: the entry executes when the
/// queue drains.
pub open spec fn copy_t(v: MachineView, s: Stream, dst: Buffer, src: Buffer) -> MachineView {
    let v1 = set_current_t(v, s.ctx);
    let st = v.streams[s.id as int];
    MachineView {
        streams: v1.streams.update(
            s.id as int,
            StreamView { ctx_id: st.ctx_id, pending: st.pending.push(copy_op(dst, src)) },
        ),
        ..v1
    }
}

/// One queue entry executing against the allocation slots. A copy
/// moves its source's bytes into its destination when both slots are
/// still live with the recorded size; an entry whose buffers were
/// freed out from under it moves nothing (freeing a buffer an
/// enqueued entry still references is a caller error). Record and
/// wait entries order the queues and move no bytes.
pub open spec fn apply_op(bufs: Seq<Option<BufView>>, op: QueueOp) -> Seq<Option<BufView>> {
    match op {
        QueueOp::Copy { dst, src, size } => {
            if dst < bufs.len() && src < bufs.len() && bufs[dst as int] is Some
                && bufs[src as int] is Some && bufs[src as int]->0.data.len() == size
                && bufs[dst as int]->0.data.len() == size {
                bufs.update(
                    dst as int,
                    Some(
                        BufView {
                            space: bufs[dst as int]->0.space,
                            device_id: bufs[dst as int]->0.device_id,
                            data: bufs[src as int]->0.data,
                        },
                    ),
                )
            } else {
                bufs
            }
        },
        QueueOp::Record { event } => bufs,
        QueueOp::Wait { event } => bufs,
    }
}

/// A queue executing in issue order against the allocation slots.
pub open spec fn replay(bufs: Seq<Option<BufView>>, ops: Seq<QueueOp>) -> Seq<Option<BufView>>
    decreases ops.len(),
{
    if ops.len() == 0 {
        bufs
    } else {
        replay(apply_op(bufs, ops[0]), ops.skip(1))
    }
}

/// Executing a queue with one more entry at its tail executes the
/// queue, then the entry.
pub proof fn lemma_replay_push(bufs: Seq<Option<BufView>>, ops: Seq<QueueOp>, op: QueueOp)
    ensures
        replay(bufs, ops.push(op)) == apply_op(replay(bufs, ops), op),
    decreases ops.len(),
{
    let extended = ops.push(op);
    if ops.len() == 0 {
        assert(extended[0] == op);
        assert(extended.skip(1) =~= Seq::<QueueOp>::empty());
        assert(replay(bufs, extended) == replay(apply_op(bufs, op), extended.skip(1)));
        assert(replay(apply_op(bufs, op), extended.skip(1)) == apply_op(bufs, op));
        assert(replay(bufs, ops) == bufs);
    } else {
        assert(extended[0] == ops[0]);
        assert(extended.skip(1) =~= ops.skip(1).push(op));
        lemma_replay_push(apply_op(bufs, ops[0]), ops.skip(1), op);
        assert(replay(bufs, extended) == replay(apply_op(bufs, ops[0]), extended.skip(1)));
        assert(replay(bufs, ops) == replay(apply_op(bufs, ops[0]), ops.skip(1)));
    }
}

/// Whether two allocation slots agree on liveness, metadata and size;
/// executing a queue never disturbs any of those, only bytes.
pub open spec fn same_shape(a: Option<BufView>, b: Option<BufView>) -> bool {
    &&& a is Some <==> b is Some
    &&& b is Some ==> a->0.space == b->0.space && a->0.device_id == b->0.device_id
        && a->0.data.len() == b->0.data.len()
}

/// Executing a queue changes bytes only: no slot is created, freed,
/// retagged or resized.
pub proof fn lemma_replay_keeps_shape(bufs: Seq<Option<BufView>>, ops: Seq<QueueOp>)
    ensures
        replay(bufs, ops).len() == bufs.len(),
        forall|i: int| 0 <= i < bufs.len() ==> same_shape(#[trigger] replay(bufs, ops)[i], bufs[i]),
    decreases ops.len(),
{
    if ops.len() > 0 {
        let b1 = apply_op(bufs, ops[0]);
        assert(b1.len() == bufs.len());
        assert(forall|i: int| 0 <= i < bufs.len() ==> same_shape(#[trigger] b1[i], bufs[i]));
        lemma_replay_keeps_shape(b1, ops.skip(1));
        assert(forall|i: int|
            0 <= i < bufs.len() ==> same_shape(#[trigger] replay(bufs, ops)[i], bufs[i]));
    }
}

/// Draining stream `s`: its context becomes current, its FIFO
/// executes in issue order against the allocation slots, and the FIFO
/// empties. Other streams are untouched.
pub open spec fn sync_t(v: MachineView, s: Stream) -> MachineView {
    let st = v.streams[s.id as int];
    MachineView {
        bufs: replay(v.bufs, st.pending),
        streams: v.streams.update(
            s.id as int,
            StreamView { ctx_id: st.ctx_id, pending: Seq::empty() },
        ),
        ..set_current_t(v, s.ctx)
    }
}

/// Recording event `e` on stream `s`: the stream's context becomes
/// current, the record joins the tail of the stream's FIFO, and the
/// event remembers the stream; each record overwrites the last.
pub open spec fn record_t(v: MachineView, s: Stream, e: Event) -> MachineView {
    let ev = v.events[e.id as int];
    let st = v.streams[s.id as int];
    MachineView {
        events: v.events.update(
            e.id as int,
            EventState { ctx_id: ev.ctx_id, recorded_on: Some(s.id) },
        ),
        streams: v.streams.update(
            s.id as int,
            StreamView {
                ctx_id: st.ctx_id,
                pending: st.pending.push(QueueOp::Record { event: e.id }),
            },
        ),
        ..set_current_t(v, s.ctx)
    }
}

/// Waiting for event `e` on stream `s`: the stream's context becomes
/// current, the most recent record on `e` is satisfied by draining
/// the recording stream's FIFO, and the (then already satisfied) wait
/// joins the tail of `s`'s FIFO. The host-sequential model cannot run
/// the recording queue partway, so entries issued on the recording
/// stream after the record drain with it — sound, since nothing is
/// promised about them before that stream's own drain. A wait on a
/// never-recorded event completes at once.
pub open spec fn wait_t(v: MachineView, s: Stream, e: Event) -> MachineView {
    let v1 = set_current_t(v, s.ctx);
    let v2 = match v.events[e.id as int].recorded_on {
        Some(a) => MachineView {
            bufs: replay(v1.bufs, v1.streams[a as int].pending),
            streams: v1.streams.update(
                a as int,
                StreamView { ctx_id: v1.streams[a as int].ctx_id, pending: Seq::empty() },
            ),
            ..v1
        },
        None => v1,
    };
    MachineView {
        streams: v2.streams.update(
            s.id as int,
            StreamView {
                ctx_id: v2.streams[s.id as int].ctx_id,
                pending: v2.streams[s.id as int].pending.push(QueueOp::Wait { event: e.id }),
            },
        ),
        ..v2
    }
}

/// Whether a queue entry references the allocation slot `id`.
pub open spec fn op_references(op: QueueOp, id: usize) -> bool {
    match op {
        QueueOp::Copy { dst, src, size } => dst == id || src == id,
        QueueOp::Record { event } => false,
        QueueOp::Wait { event } => false,
    }
}

/// Whether no enqueued entry of any stream still references the
/// allocation slot `id`: the condition under which it is safe to free.
pub open spec fn buffer_unreferenced(v: MachineView, id: usize) -> bool {
    forall|i: int, j: int|
        0 <= i < v.streams.len() && 0 <= j < v.streams[i].pending.len()
            ==> !op_references(#[trigger] v.streams[i].pending[j], id)
}

/// A direct host write into a host-space buffer; no driver call is
/// involved, so the current context is untouched.
pub open spec fn write_t(v: MachineView, b: Buffer, data: Seq<u8>) -> MachineView {
    let st = v.bufs[b.id as int]->0;
    MachineView {
        bufs: v.bufs.update(
            b.id as int,
            Some(BufView { space: st.space, device_id: st.device_id, data }),
        ),
        ..v
    }
}

/// Enabling peer access from `a`'s device to `b`'s device: `a` becomes
/// current and the ordered pair is added unless already present, so
/// enabling is idempotent per ordered pair.
pub open spec fn enable_peer_t(v: MachineView, a: Context, b: Context) -> MachineView {
    let pair = (a.device_id, b.device_id);
    MachineView {
        enabled: if v.enabled.contains(pair) {
            v.enabled
        } else {
            v.enabled.push(pair)
        },
        ..set_current_t(v, a)
    }
}

/// The live allocations of a machine state, as a map from slot id to
/// allocation: what "no observable allocation" is judged against.
pub open spec fn live_bufs(bufs: Seq<Option<BufView>>) -> Map<int, BufView> {
    Map::new(|i: int| 0 <= i < bufs.len() && bufs[i] is Some, |i: int| bufs[i]->0)
}

} // verus!
