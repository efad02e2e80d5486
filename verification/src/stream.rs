//! Stream operations: allocation and free, asynchronous copies, the
//! host-blocking drain, and the event record/wait pair that orders two
//! streams without blocking the host.

use vstd::prelude::*;
use vstd::pervasive::VecAdditionalExecFns;

use crate::AddressSpace;
use crate::error::GpuError;
use crate::machine::{
    bufs_view, clone_ops, pair_list_contains, replay_ops, streams_view, zero_vec, BufferState,
    Machine, StreamState,
};
use crate::model::{
    alloc_fits, alloc_handle, alloc_t, buf_data, copy_allowed, copy_op, copy_t, free_t, record_t,
    set_current_t, sync_t, valid_buffer, valid_event, valid_stream, wait_t, wf, EventState,
    MemPool, QueueOp,
};
use crate::types::{Buffer, Event, Stream};

verus! {

impl Stream {
    /// Allocate `size` bytes in `address_space`, serving device memory
    /// from this stream's device. Returns `InvalidSize` exactly for a
    /// zero size and `OutOfMemory` exactly when the serving pool has
    /// no room; on success the new buffer is zero-filled and the pool
    /// grows by `size`. The issue is asynchronous with respect to the
    /// device; the handle is usable at once.
    pub fn create_buffer_async(
        &self,
        m: &mut Machine,
        size: usize,
        address_space: AddressSpace,
    ) -> (r: Result<Buffer, GpuError>)
        requires
            wf(old(m)@),
            valid_stream(old(m)@, *self),
        ensures
            wf(final(m)@),
            valid_stream(final(m)@, *self),
            ({
                let v0 = old(m)@;
                if size == 0 {
                    &&& r == Err::<Buffer, GpuError>(GpuError::InvalidSize)
                    &&& final(m)@ == set_current_t(v0, self.ctx)
                } else if !alloc_fits(v0, self.ctx, size, address_space) {
                    &&& r == Err::<Buffer, GpuError>(GpuError::OutOfMemory)
                    &&& final(m)@ == set_current_t(v0, self.ctx)
                } else {
                    &&& r == Ok::<Buffer, GpuError>(alloc_handle(v0, *self, size, address_space))
                    &&& final(m)@ == alloc_t(v0, *self, size, address_space)
                }
            }),
            r matches Ok(b) ==> valid_buffer(final(m)@, b) && b.size == size
                && b.address_space == address_space && b.ctx == self.ctx
                && buf_data(final(m)@, b) == crate::model::zero_bytes(size as nat),
    {
        self.ctx.set_current(m);
        if size == 0 {
            return Err(GpuError::InvalidSize);
        }
        match address_space {
            AddressSpace::Device => {
                let d = self.ctx.device_id as usize;
                let pool = m.devices[d];
                if size > pool.capacity - pool.used {
                    return Err(GpuError::OutOfMemory);
                }
                m.devices.set(d, MemPool { capacity: pool.capacity, used: pool.used + size });
            },
            AddressSpace::PinnedHost => {
                if size > m.pinned.capacity - m.pinned.used {
                    return Err(GpuError::OutOfMemory);
                }
                m.pinned = MemPool { capacity: m.pinned.capacity, used: m.pinned.used + size };
            },
            AddressSpace::PlainHost => {
                if size > m.plain.capacity - m.plain.used {
                    return Err(GpuError::OutOfMemory);
                }
                m.plain = MemPool { capacity: m.plain.capacity, used: m.plain.used + size };
            },
        }
        let data = zero_vec(size);
        let id = m.bufs.len();
        m.bufs.push(Some(BufferState { space: address_space, device_id: self.ctx.device_id, data }));
        proof {
            assert(m.bufs.len() == m.bufs@.len());
            assert(bufs_view(m.bufs@) =~~= alloc_t(old(m)@, *self, size, address_space).bufs);
            assert(m@ =~~= alloc_t(old(m)@, *self, size, address_space));
        }
        Ok(Buffer { ctx: self.ctx, size, address_space, id })
    }

    /// Release `buf`'s allocation through the address-space-appropriate
    /// path and return its bytes to the serving pool. Synchronous with
    /// respect to the host. The preconditions make the caller errors
    /// explicit: the handle must still be live (one free per
    /// creation), only a stream of the creating context releases it,
    /// and no enqueued entry of any stream may still reference it.
    pub fn free_buffer_sync(&self, m: &mut Machine, buf: &Buffer)
        requires
            wf(old(m)@),
            valid_stream(old(m)@, *self),
            valid_buffer(old(m)@, *buf),
            buf.ctx == self.ctx,
            crate::model::buffer_unreferenced(old(m)@, buf.id),
        ensures
            wf(final(m)@),
            final(m)@ == free_t(old(m)@, *self, *buf),
            final(m)@.bufs[buf.id as int] is None,
    {
        self.ctx.set_current(m);
        match buf.address_space {
            AddressSpace::Device => {
                let d = buf.ctx.device_id as usize;
                let pool = m.devices[d];
                let used = if buf.size <= pool.used {
                    pool.used - buf.size
                } else {
                    0
                };
                m.devices.set(d, MemPool { capacity: pool.capacity, used });
            },
            AddressSpace::PinnedHost => {
                let used = if buf.size <= m.pinned.used {
                    m.pinned.used - buf.size
                } else {
                    0
                };
                m.pinned = MemPool { capacity: m.pinned.capacity, used };
            },
            AddressSpace::PlainHost => {
                let used = if buf.size <= m.plain.used {
                    m.plain.used - buf.size
                } else {
                    0
                };
                m.plain = MemPool { capacity: m.plain.capacity, used };
            },
        }
        m.bufs.set(buf.id, None);
        proof {
            assert(bufs_view(m.bufs@) =~~= free_t(old(m)@, *self, *buf).bufs);
            assert(m@ =~~= free_t(old(m)@, *self, *buf));
        }
    }

    /// Enqueue an asynchronous copy of `src.size` bytes from `src` to
    /// `dst`. The sizes must match; a mismatch is a programming error,
    /// checked eagerly: it fails with `SizeMismatch` and enqueues
    /// nothing. A device buffer on another device than this stream's
    /// must be reachable through enabled peer access, or the copy
    /// fails with `PeerAccessUnsupported`, again enqueuing nothing.
    /// On success the call returns at once and no bytes have moved
    /// yet: the entry executes, and the destination takes the source's
    /// bytes, when this stream drains — after a later `synchronize` or
    /// a correctly ordered event wait.
    pub fn memcpy_async(&self, m: &mut Machine, dst: &Buffer, src: &Buffer) -> (r: Result<
        (),
        GpuError,
    >)
        requires
            wf(old(m)@),
            valid_stream(old(m)@, *self),
            valid_buffer(old(m)@, *dst),
            valid_buffer(old(m)@, *src),
        ensures
            wf(final(m)@),
            ({
                let v0 = old(m)@;
                if dst.size != src.size {
                    &&& r == Err::<(), GpuError>(GpuError::SizeMismatch)
                    &&& final(m)@ == set_current_t(v0, self.ctx)
                } else if !copy_allowed(v0, *self, *dst, *src) {
                    &&& r == Err::<(), GpuError>(GpuError::PeerAccessUnsupported)
                    &&& final(m)@ == set_current_t(v0, self.ctx)
                } else {
                    &&& r == Ok::<(), GpuError>(())
                    &&& final(m)@ == copy_t(v0, *self, *dst, *src)
                }
            }),
            final(m)@.bufs == old(m)@.bufs,
            r is Err ==> final(m)@.streams == old(m)@.streams,
    {
        self.ctx.set_current(m);
        if dst.size != src.size {
            return Err(GpuError::SizeMismatch);
        }
        let dst_ok = dst.address_space != AddressSpace::Device || dst.ctx.device_id
            == self.ctx.device_id || pair_list_contains(
            &m.enabled,
            self.ctx.device_id,
            dst.ctx.device_id,
        );
        let src_ok = src.address_space != AddressSpace::Device || src.ctx.device_id
            == self.ctx.device_id || pair_list_contains(
            &m.enabled,
            self.ctx.device_id,
            src.ctx.device_id,
        );
        if !dst_ok || !src_ok {
            return Err(GpuError::PeerAccessUnsupported);
        }
        let ctx_id = m.streams[self.id].ctx_id;
        let mut pending = clone_ops(&m.streams[self.id].pending);
        pending.push(QueueOp::Copy { dst: dst.id, src: src.id, size: src.size });
        m.streams.set(self.id, StreamState { ctx_id, pending });
        proof {
            assert(streams_view(m.streams@) =~~= copy_t(old(m)@, *self, *dst, *src).streams);
            assert(m@ =~~= copy_t(old(m)@, *self, *dst, *src));
        }
        Ok(())
    }

    /// Block the calling host thread until every operation previously
    /// enqueued on this stream has completed: the queue's entries
    /// execute in issue order and the queue empties. Other streams are
    /// unaffected; this is the only host-blocking operation.
    pub fn synchronize(&self, m: &mut Machine)
        requires
            wf(old(m)@),
            valid_stream(old(m)@, *self),
        ensures
            wf(final(m)@),
            final(m)@ == sync_t(old(m)@, *self),
            final(m)@.streams[self.id as int].pending.len() == 0,
    {
        self.ctx.set_current(m);
        let ops = clone_ops(&m.streams[self.id].pending);
        replay_ops(&mut m.bufs, &ops);
        let ctx_id = m.streams[self.id].ctx_id;
        m.streams.set(self.id, StreamState { ctx_id, pending: Vec::new() });
        proof {
            crate::model::lemma_replay_keeps_shape(old(m)@.bufs, ops@);
            assert(streams_view(m.streams@) =~~= sync_t(old(m)@, *self).streams);
            assert(m@ =~~= sync_t(old(m)@, *self));
        }
    }

    /// Record `event` on this stream: the event now stands for the
    /// completion of everything enqueued on this stream up to this
    /// point, overwriting any previous record.
    pub fn record_event(&self, m: &mut Machine, event: &Event)
        requires
            wf(old(m)@),
            valid_stream(old(m)@, *self),
            valid_event(old(m)@, *event),
        ensures
            wf(final(m)@),
            final(m)@ == record_t(old(m)@, *self, *event),
            final(m)@.events[event.id as int].recorded_on == Some(self.id),
    {
        self.ctx.set_current(m);
        let ev = m.events[event.id];
        m.events.set(event.id, EventState { ctx_id: ev.ctx_id, recorded_on: Some(self.id) });
        let ctx_id = m.streams[self.id].ctx_id;
        let mut pending = clone_ops(&m.streams[self.id].pending);
        pending.push(QueueOp::Record { event: event.id });
        m.streams.set(self.id, StreamState { ctx_id, pending });
        proof {
            assert(streams_view(m.streams@) =~~= record_t(old(m)@, *self, *event).streams);
            assert(m@ =~~= record_t(old(m)@, *self, *event));
        }
    }

    /// Enqueue a wait for `event` on this stream: entries enqueued
    /// after it do not execute until the most recent record on the
    /// event has completed. The host returns at once; only the
    /// device-side queues are ordered. The model satisfies the record
    /// by draining the recording stream's queue here — it cannot run
    /// that queue partway, so entries issued after the record drain
    /// with it, of which nothing was promised before that stream's
    /// own drain anyway. A wait on a never-recorded event completes
    /// at once.
    pub fn wait_for_event(&self, m: &mut Machine, event: &Event)
        requires
            wf(old(m)@),
            valid_stream(old(m)@, *self),
            valid_event(old(m)@, *event),
        ensures
            wf(final(m)@),
            final(m)@ == wait_t(old(m)@, *self, *event),
    {
        self.ctx.set_current(m);
        match m.events[event.id].recorded_on {
            Some(recorder) => {
                let ops = clone_ops(&m.streams[recorder].pending);
                replay_ops(&mut m.bufs, &ops);
                let rec_ctx = m.streams[recorder].ctx_id;
                m.streams.set(recorder, StreamState { ctx_id: rec_ctx, pending: Vec::new() });
                proof {
                    crate::model::lemma_replay_keeps_shape(old(m)@.bufs, ops@);
                }
            },
            None => {},
        }
        let ctx_id = m.streams[self.id].ctx_id;
        let mut pending = clone_ops(&m.streams[self.id].pending);
        pending.push(QueueOp::Wait { event: event.id });
        m.streams.set(self.id, StreamState { ctx_id, pending });
        proof {
            assert(streams_view(m.streams@) =~~= wait_t(old(m)@, *self, *event).streams);
            assert(bufs_view(m.bufs@) =~~= wait_t(old(m)@, *self, *event).bufs);
            assert(m@ =~~= wait_t(old(m)@, *self, *event));
        }
    }
}

} // verus!
