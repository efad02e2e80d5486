//! Context operations: creation (with one-time driver bring-up),
//! making a context current, creating streams and events under it, and
//! the directional peer-access pair.

use vstd::prelude::*;

use crate::error::GpuError;
use crate::machine::{cu_init, pair_list_contains, streams_view, Machine, StreamState};
use crate::model::{
    ctx_new_handle, ctx_new_t, enable_peer_t, event_new_handle, event_new_t, init_t,
    set_current_t, stream_new_handle, stream_new_t, valid_ctx, valid_event, valid_stream, wf,
};
use crate::model::EventState;
use crate::types::{Context, Event, Stream};

verus! {

impl Context {
    /// Create an execution context bound to device `device_id`,
    /// performing global driver bring-up first (idempotent). Fails
    /// with `DeviceNotFound` exactly when `device_id` is out of range;
    /// in that case bring-up has still happened and nothing else
    /// changed.
    pub fn new(m: &mut Machine, device_id: i32) -> (r: Result<Context, GpuError>)
        requires
            wf(old(m)@),
        ensures
            wf(final(m)@),
            final(m)@.initialized,
            ({
                let v0 = old(m)@;
                if device_id < 0 || v0.devices.len() <= device_id as int {
                    &&& r == Err::<Context, GpuError>(GpuError::DeviceNotFound)
                    &&& final(m)@ == init_t(v0)
                } else {
                    &&& r == Ok::<Context, GpuError>(ctx_new_handle(v0, device_id))
                    &&& final(m)@ == ctx_new_t(v0, device_id)
                }
            }),
            r matches Ok(c) ==> valid_ctx(final(m)@, c) && c.device_id == device_id,
    {
        cu_init(m);
        if device_id < 0 || m.devices.len() <= device_id as usize {
            return Err(GpuError::DeviceNotFound);
        }
        let id = m.ctx_devices.len();
        m.ctx_devices.push(device_id);
        let c = Context { device_id, id };
        proof {
            assert(m.ctx_devices.len() == m.ctx_devices@.len());
            assert(m@ =~~= ctx_new_t(old(m)@, device_id));
        }
        Ok(c)
    }

    /// Mark this context as the one current on the calling thread.
    /// Idempotent and cheap; every driver-facing operation performs it
    /// first, so that interleaved operations against different
    /// contexts on one thread cannot target the wrong device.
    pub fn set_current(&self, m: &mut Machine)
        requires
            wf(old(m)@),
            valid_ctx(old(m)@, *self),
        ensures
            wf(final(m)@),
            final(m)@ == set_current_t(old(m)@, *self),
            final(m)@.current == Some(self.id),
    {
        m.current = Some(self.id);
        proof {
            assert(m@ =~~= set_current_t(old(m)@, *self));
        }
    }

    /// Create an asynchronous command queue bound to this context.
    pub fn create_stream(&self, m: &mut Machine) -> (r: Stream)
        requires
            wf(old(m)@),
            valid_ctx(old(m)@, *self),
        ensures
            wf(final(m)@),
            r == stream_new_handle(old(m)@, *self),
            final(m)@ == stream_new_t(old(m)@, *self),
            valid_stream(final(m)@, r),
            r.ctx == *self,
    {
        self.set_current(m);
        let id = m.streams.len();
        m.streams.push(StreamState { ctx_id: self.id, pending: Vec::new() });
        proof {
            assert(m.streams.len() == m.streams@.len());
            assert(streams_view(m.streams@) =~~= stream_new_t(old(m)@, *self).streams);
            assert(m@ =~~= stream_new_t(old(m)@, *self));
        }
        Stream { ctx: *self, id }
    }

    /// Create a synchronization event bound to this context. It starts
    /// unrecorded; each later record overwrites the previous one.
    pub fn create_event(&self, m: &mut Machine) -> (r: Event)
        requires
            wf(old(m)@),
            valid_ctx(old(m)@, *self),
        ensures
            wf(final(m)@),
            r == event_new_handle(old(m)@, *self),
            final(m)@ == event_new_t(old(m)@, *self),
            valid_event(final(m)@, r),
            r.ctx == *self,
    {
        self.set_current(m);
        let id = m.events.len();
        m.events.push(EventState { ctx_id: self.id, recorded_on: None });
        proof {
            assert(m.events.len() == m.events@.len());
            assert(m@ =~~= event_new_t(old(m)@, *self));
        }
        Event { ctx: *self, id }
    }

    /// Whether the hardware lets this context's device address
    /// `other`'s device memory directly. Directional; a re-check is
    /// free of side effects.
    pub fn can_access_peer(&self, m: &Machine, other: &Context) -> (r: bool)
        ensures
            r == m@.accessible.contains((self.device_id, other.device_id)),
    {
        pair_list_contains(&m.accessible, self.device_id, other.device_id)
    }

    /// Enable one-directional peer access: afterwards, device buffers
    /// owned by `other`'s device are directly addressable from
    /// operations issued under this context. Fails with
    /// `PeerAccessUnsupported`, leaving the prior peer-access state
    /// unchanged, exactly when the hardware does not connect the pair.
    /// Enabling is idempotent per ordered pair, and never enables the
    /// opposite direction.
    pub fn enable_peer_access(&self, m: &mut Machine, other: &Context) -> (r: Result<
        (),
        GpuError,
    >)
        requires
            wf(old(m)@),
            valid_ctx(old(m)@, *self),
            valid_ctx(old(m)@, *other),
        ensures
            wf(final(m)@),
            ({
                let v0 = old(m)@;
                if !v0.accessible.contains((self.device_id, other.device_id)) {
                    &&& r == Err::<(), GpuError>(GpuError::PeerAccessUnsupported)
                    &&& final(m)@ == set_current_t(v0, *self)
                    &&& final(m)@.enabled == v0.enabled
                } else {
                    &&& r == Ok::<(), GpuError>(())
                    &&& final(m)@ == enable_peer_t(v0, *self, *other)
                    &&& final(m)@.enabled.contains((self.device_id, other.device_id))
                }
            }),
    {
        self.set_current(m);
        if !pair_list_contains(&m.accessible, self.device_id, other.device_id) {
            return Err(GpuError::PeerAccessUnsupported);
        }
        if !pair_list_contains(&m.enabled, self.device_id, other.device_id) {
            m.enabled.push((self.device_id, other.device_id));
        }
        proof {
            assert(m.enabled.len() == m.enabled@.len());
            assert(m@ =~~= enable_peer_t(old(m)@, *self, *other));
            if !old(m)@.enabled.contains((self.device_id, other.device_id)) {
                assert(m.enabled@[m.enabled@.len() - 1] == (self.device_id, other.device_id));
            }
        }
        Ok(())
    }
}

} // verus!
