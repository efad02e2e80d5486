//! The executable machine state and the operations that belong to the
//! machine itself: construction, driver bring-up, and direct host
//! access to host-space buffers.

use vstd::prelude::*;
use vstd::pervasive::VecAdditionalExecFns;

use crate::AddressSpace;
use crate::model::{
    apply_op, buf_data, init_t, lemma_replay_push, replay, valid_buffer, wf, write_t, zero_bytes,
    BufView, EventState, MachineView, MemPool, QueueOp, StreamView,
};
use crate::types::Buffer;

verus! {

/// The model of one allocation slot, as stored: the executable twin of
/// [`BufView`].
pub struct BufferState {
    pub space: AddressSpace,
    pub device_id: i32,
    pub data: Vec<u8>,
}

impl View for BufferState {
    type V = BufView;

    open spec fn view(&self) -> BufView {
        BufView { space: self.space, device_id: self.device_id, data: self.data@ }
    }
}

/// The driver-side state of one command queue, as stored: the
/// executable twin of [`StreamView`].
pub struct StreamState {
    pub ctx_id: usize,
    pub pending: Vec<QueueOp>,
}

impl View for StreamState {
    type V = StreamView;

    open spec fn view(&self) -> StreamView {
        StreamView { ctx_id: self.ctx_id, pending: self.pending@ }
    }
}

/// The command queues a machine holds, as the model sees them.
pub open spec fn streams_view(s: Seq<StreamState>) -> Seq<StreamView> {
    Seq::new(s.len(), |i: int| s[i]@)
}

/// The allocation slots a machine holds, as the model sees them.
pub open spec fn bufs_view(s: Seq<Option<BufferState>>) -> Seq<Option<BufView>> {
    Seq::new(
        s.len(),
        |i: int|
            match s[i] {
                Some(b) => Some(b@),
                None => None,
            },
    )
}

/// The whole machine: every piece of driver-side state the operations
/// read or change, held explicitly so that nothing lives in ambient
/// global state. One host thread drives it; its view is a
/// [`MachineView`].
pub struct Machine {
    pub initialized: bool,
    pub devices: Vec<MemPool>,
    pub pinned: MemPool,
    pub plain: MemPool,
    pub ctx_devices: Vec<i32>,
    pub streams: Vec<StreamState>,
    pub events: Vec<EventState>,
    pub bufs: Vec<Option<BufferState>>,
    pub accessible: Vec<(i32, i32)>,
    pub enabled: Vec<(i32, i32)>,
    pub current: Option<usize>,
}

impl View for Machine {
    type V = MachineView;

    open spec fn view(&self) -> MachineView {
        MachineView {
            initialized: self.initialized,
            devices: self.devices@,
            pinned: self.pinned,
            plain: self.plain,
            ctx_devices: self.ctx_devices@,
            streams: streams_view(self.streams@),
            events: self.events@,
            bufs: bufs_view(self.bufs@),
            accessible: self.accessible@,
            enabled: self.enabled@,
            current: self.current,
        }
    }
}

impl Machine {
    /// A fresh machine: one device per entry of `device_capacities`,
    /// each with that many bytes of device memory, the two host pools
    /// with the given capacities, and `accessible` as the ordered
    /// device pairs the hardware connects. Nothing is initialized,
    /// created, enabled or current yet.
    pub fn new(
        device_capacities: &Vec<usize>,
        pinned_capacity: usize,
        plain_capacity: usize,
        accessible: Vec<(i32, i32)>,
    ) -> (m: Machine)
        ensures
            wf(m@),
            !m@.initialized,
            m@.devices.len() == device_capacities@.len(),
            forall|i: int|
                0 <= i < device_capacities@.len() ==> #[trigger] m@.devices[i] == (MemPool {
                    capacity: device_capacities@[i],
                    used: 0,
                }),
            m@.pinned == (MemPool { capacity: pinned_capacity, used: 0 }),
            m@.plain == (MemPool { capacity: plain_capacity, used: 0 }),
            m@.ctx_devices.len() == 0,
            m@.streams.len() == 0,
            m@.events.len() == 0,
            m@.bufs.len() == 0,
            m@.accessible == accessible@,
            m@.enabled.len() == 0,
            m@.current is None,
    {
        let mut devices: Vec<MemPool> = Vec::new();
        let mut i: usize = 0;
        while i < device_capacities.len()
            invariant
                i <= device_capacities@.len(),
                devices@.len() == i,
                forall|j: int|
                    0 <= j < i ==> #[trigger] devices@[j] == (MemPool {
                        capacity: device_capacities@[j],
                        used: 0,
                    }),
            decreases device_capacities@.len() - i,
        {
            devices.push(MemPool { capacity: device_capacities[i], used: 0 });
            i = i + 1;
        }
        let m = Machine {
            initialized: false,
            devices,
            pinned: MemPool { capacity: pinned_capacity, used: 0 },
            plain: MemPool { capacity: plain_capacity, used: 0 },
            ctx_devices: Vec::new(),
            streams: Vec::new(),
            events: Vec::new(),
            bufs: Vec::new(),
            accessible,
            enabled: Vec::new(),
            current: None,
        };
        proof {
            assert(m.accessible.len() == m.accessible@.len());
            assert(bufs_view(m.bufs@) =~= Seq::<Option<BufView>>::empty());
            assert(streams_view(m.streams@) =~= Seq::<StreamView>::empty());
        }
        m
    }

    /// Write `data` into a host-space buffer directly from the host;
    /// the buffer keeps its size, so `data` must fill it exactly.
    /// Device memory is not host-addressable: copy into a host buffer
    /// instead.
    pub fn write_buffer(&mut self, buf: &Buffer, data: &Vec<u8>)
        requires
            wf(old(self)@),
            valid_buffer(old(self)@, *buf),
            buf.address_space != AddressSpace::Device,
            data@.len() == buf.size,
        ensures
            wf(final(self)@),
            final(self)@ == write_t(old(self)@, *buf, data@),
            valid_buffer(final(self)@, *buf),
    {
        let bytes = clone_bytes(data);
        proof {
            assert(bufs_view(self.bufs@)[buf.id as int] is Some);
        }
        let old_state = self.bufs[buf.id].as_ref().unwrap();
        let space = old_state.space;
        let device_id = old_state.device_id;
        self.bufs.set(buf.id, Some(BufferState { space, device_id, data: bytes }));
        proof {
            assert(bufs_view(self.bufs@) =~~= write_t(old(self)@, *buf, data@).bufs);
            assert(self@ =~~= write_t(old(self)@, *buf, data@));
        }
    }

    /// Read a host-space buffer's bytes directly from the host.
    pub fn read_buffer(&self, buf: &Buffer) -> (r: Vec<u8>)
        requires
            wf(self@),
            valid_buffer(self@, *buf),
            buf.address_space != AddressSpace::Device,
        ensures
            r@ == buf_data(self@, *buf),
            r@.len() == buf.size,
    {
        match &self.bufs[buf.id] {
            Some(st) => clone_bytes(&st.data),
            None => {
                proof {
                    assert(bufs_view(self.bufs@)[buf.id as int] is Some);
                    assert(false);
                }
                Vec::new()
            },
        }
    }
}

/// Global driver bring-up. Idempotent and cheap: every context
/// creation performs it first, and however many times it runs, the
/// machine ends up initialized exactly once with the rest of its state
/// untouched.
pub fn cu_init(m: &mut Machine)
    ensures
        final(m)@ == init_t(old(m)@),
        final(m)@.initialized,
{
    m.initialized = true;
    proof {
        assert(m@ =~~= init_t(old(m)@));
    }
}

/// A fresh vector of `n` zero bytes: the contents of a new allocation.
pub fn zero_vec(n: usize) -> (r: Vec<u8>)
    ensures
        r@ == zero_bytes(n as nat),
{
    let mut r: Vec<u8> = Vec::new();
    let mut i: usize = 0;
    while i < n
        invariant
            i <= n,
            r@.len() == i,
            forall|j: int| 0 <= j < i ==> r@[j] == 0u8,
        decreases n - i,
    {
        r.push(0u8);
        i = i + 1;
    }
    proof {
        assert(r@ =~= zero_bytes(n as nat));
    }
    r
}

/// Execute a queue of entries, in issue order, against the
/// allocation slots, exactly as [`replay`] describes: copies move
/// bytes between live slots of the recorded size, everything else is
/// inert.
pub fn replay_ops(bufs: &mut Vec<Option<BufferState>>, ops: &Vec<QueueOp>)
    ensures
        bufs_view(final(bufs)@) == replay(bufs_view(old(bufs)@), ops@),
{
    let ghost b0 = bufs_view(bufs@);
    let mut i: usize = 0;
    while i < ops.len()
        invariant
            i <= ops@.len(),
            b0 == bufs_view(old(bufs)@),
            bufs_view(bufs@) == replay(b0, ops@.subrange(0, i as int)),
        decreases ops@.len() - i,
    {
        let ghost before = bufs_view(bufs@);
        let op = ops[i];
        match op {
            QueueOp::Copy { dst, src, size } => {
                if dst < bufs.len() && src < bufs.len() {
                    let src_fits = match &bufs[src] {
                        Some(st) => st.data.len() == size,
                        None => false,
                    };
                    let dst_fits = match &bufs[dst] {
                        Some(st) => st.data.len() == size,
                        None => false,
                    };
                    if src_fits && dst_fits {
                        let data = match &bufs[src] {
                            Some(st) => clone_bytes(&st.data),
                            None => {
                                proof {
                                    assert(false);
                                }
                                Vec::new()
                            },
                        };
                        let (space, device_id) = match &bufs[dst] {
                            Some(st) => (st.space, st.device_id),
                            None => {
                                proof {
                                    assert(false);
                                }
                                (crate::AddressSpace::PlainHost, 0)
                            },
                        };
                        bufs.set(dst, Some(BufferState { space, device_id, data }));
                    }
                }
            },
            QueueOp::Record { event: _ } => {},
            QueueOp::Wait { event: _ } => {},
        }
        proof {
            assert(bufs_view(bufs@) =~~= apply_op(before, op));
            assert(ops@.subrange(0, i + 1) =~= ops@.subrange(0, i as int).push(op));
            lemma_replay_push(b0, ops@.subrange(0, i as int), op);
        }
        i = i + 1;
    }
    proof {
        assert(ops@.subrange(0, ops@.len() as int) =~= ops@);
    }
}

/// An exact copy of a stream's queue.
pub fn clone_ops(src: &Vec<QueueOp>) -> (r: Vec<QueueOp>)
    ensures
        r@ == src@,
{
    let mut r: Vec<QueueOp> = Vec::new();
    let mut i: usize = 0;
    while i < src.len()
        invariant
            i <= src@.len(),
            r@ == src@.subrange(0, i as int),
        decreases src@.len() - i,
    {
        r.push(src[i]);
        proof {
            assert(r@ =~= src@.subrange(0, i + 1));
        }
        i = i + 1;
    }
    proof {
        assert(src@.subrange(0, src@.len() as int) =~= src@);
    }
    r
}

/// An exact copy of a byte vector.
pub fn clone_bytes(src: &Vec<u8>) -> (r: Vec<u8>)
    ensures
        r@ == src@,
{
    let mut r: Vec<u8> = Vec::new();
    let mut i: usize = 0;
    while i < src.len()
        invariant
            i <= src@.len(),
            r@ == src@.subrange(0, i as int),
        decreases src@.len() - i,
    {
        r.push(src[i]);
        proof {
            assert(r@ =~= src@.subrange(0, i + 1));
        }
        i = i + 1;
    }
    proof {
        assert(src@.subrange(0, src@.len() as int) =~= src@);
    }
    r
}

/// Whether `list` holds the ordered pair `(a, b)`.
pub fn pair_list_contains(list: &Vec<(i32, i32)>, a: i32, b: i32) -> (r: bool)
    ensures
        r == list@.contains((a, b)),
{
    let mut i: usize = 0;
    while i < list.len()
        invariant
            i <= list@.len(),
            forall|j: int| 0 <= j < i ==> list@[j] != (a, b),
        decreases list@.len() - i,
    {
        let p = list[i];
        if p.0 == a && p.1 == b {
            assert(list@[i as int] == (a, b));
            return true;
        }
        i = i + 1;
    }
    false
}

} // verus!
