use gpu_streams::model::QueueOp;
use gpu_streams::{cu_init, AddressSpace, Context, GpuError, Machine};

fn two_device_machine() -> Machine {
    Machine::new(&vec![1 << 21, 1 << 21], 1 << 21, 1 << 21, Vec::new())
}

#[test]
fn init_is_idempotent() {
    let mut m = two_device_machine();
    assert!(!m.initialized);
    cu_init(&mut m);
    assert!(m.initialized);
    cu_init(&mut m);
    assert!(m.initialized);
}

#[test]
fn context_creation_initializes_driver() {
    let mut m = two_device_machine();
    let c = Context::new(&mut m, 1).unwrap();
    assert!(m.initialized);
    assert_eq!(c.device_id, 1);
}

#[test]
fn context_for_missing_device_fails() {
    let mut m = two_device_machine();
    assert_eq!(Context::new(&mut m, 2), Err(GpuError::DeviceNotFound));
    assert_eq!(Context::new(&mut m, -1), Err(GpuError::DeviceNotFound));
    // bring-up still happened, and no context was created
    assert!(m.initialized);
    assert_eq!(m.ctx_devices.len(), 0);
}

#[test]
fn allocate_then_free_leaves_no_allocation() {
    let mut m = two_device_machine();
    let c = Context::new(&mut m, 0).unwrap();
    let s = c.create_stream(&mut m);
    for space in [
        AddressSpace::Device,
        AddressSpace::PinnedHost,
        AddressSpace::PlainHost,
    ] {
        let b = s.create_buffer_async(&mut m, 4096, space).unwrap();
        assert_eq!(b.size, 4096);
        assert_eq!(b.address_space, space);
        s.free_buffer_sync(&mut m, &b);
    }
    // every pool is exactly as before and no slot is live
    assert_eq!(m.devices[0].used, 0);
    assert_eq!(m.pinned.used, 0);
    assert_eq!(m.plain.used, 0);
    assert!(m.bufs.iter().all(|slot| slot.is_none()));
}

#[test]
fn allocate_zero_size_is_invalid() {
    let mut m = two_device_machine();
    let c = Context::new(&mut m, 0).unwrap();
    let s = c.create_stream(&mut m);
    for space in [
        AddressSpace::Device,
        AddressSpace::PinnedHost,
        AddressSpace::PlainHost,
    ] {
        assert_eq!(
            s.create_buffer_async(&mut m, 0, space),
            Err(GpuError::InvalidSize)
        );
    }
}

#[test]
fn allocate_past_capacity_is_out_of_memory() {
    let mut m = Machine::new(&vec![1024], 512, 256, Vec::new());
    let c = Context::new(&mut m, 0).unwrap();
    let s = c.create_stream(&mut m);
    assert_eq!(
        s.create_buffer_async(&mut m, 2048, AddressSpace::Device),
        Err(GpuError::OutOfMemory)
    );
    assert_eq!(
        s.create_buffer_async(&mut m, 513, AddressSpace::PinnedHost),
        Err(GpuError::OutOfMemory)
    );
    assert_eq!(
        s.create_buffer_async(&mut m, 257, AddressSpace::PlainHost),
        Err(GpuError::OutOfMemory)
    );
    // the pool fills up across allocations, and freeing gives the room back
    let a = s.create_buffer_async(&mut m, 600, AddressSpace::Device).unwrap();
    assert_eq!(
        s.create_buffer_async(&mut m, 600, AddressSpace::Device),
        Err(GpuError::OutOfMemory)
    );
    s.free_buffer_sync(&mut m, &a);
    let b = s.create_buffer_async(&mut m, 600, AddressSpace::Device);
    assert!(b.is_ok());
}

#[test]
fn size_mismatch_copy_enqueues_nothing() {
    let mut m = two_device_machine();
    let c = Context::new(&mut m, 0).unwrap();
    let s = c.create_stream(&mut m);
    let a = s.create_buffer_async(&mut m, 64, AddressSpace::PlainHost).unwrap();
    let b = s.create_buffer_async(&mut m, 32, AddressSpace::PinnedHost).unwrap();
    m.write_buffer(&a, &vec![7u8; 64]);
    assert_eq!(s.memcpy_async(&mut m, &b, &a), Err(GpuError::SizeMismatch));
    assert!(m.streams[s.id].pending.is_empty());
    // a subsequent synchronize completes unaffected and b is untouched
    s.synchronize(&mut m);
    assert!(m.streams[s.id].pending.is_empty());
    assert_eq!(m.read_buffer(&b), vec![0u8; 32]);
}

#[test]
fn round_trip_preserves_pattern() {
    let mut m = two_device_machine();
    let c = Context::new(&mut m, 0).unwrap();
    let s = c.create_stream(&mut m);
    let n = 4096;
    let host_src = s.create_buffer_async(&mut m, n, AddressSpace::PinnedHost).unwrap();
    let dev = s.create_buffer_async(&mut m, n, AddressSpace::Device).unwrap();
    let host_dst = s.create_buffer_async(&mut m, n, AddressSpace::PlainHost).unwrap();
    let pattern: Vec<u8> = (0..n).map(|i| (i * 31 % 251) as u8).collect();
    m.write_buffer(&host_src, &pattern);
    s.memcpy_async(&mut m, &dev, &host_src).unwrap();
    s.memcpy_async(&mut m, &host_dst, &dev).unwrap();
    s.synchronize(&mut m);
    assert_eq!(m.read_buffer(&host_dst), pattern);
}

#[test]
fn event_orders_two_streams() {
    let mut m = two_device_machine();
    let ca = Context::new(&mut m, 0).unwrap();
    let cb = Context::new(&mut m, 1).unwrap();
    let sa = ca.create_stream(&mut m);
    let sb = cb.create_stream(&mut m);
    let e = ca.create_event(&mut m);
    let n = 256;
    let xsrc = sa.create_buffer_async(&mut m, n, AddressSpace::PlainHost).unwrap();
    let xdst = sa.create_buffer_async(&mut m, n, AddressSpace::PinnedHost).unwrap();
    let ydst = sb.create_buffer_async(&mut m, n, AddressSpace::PlainHost).unwrap();
    for trial in 0..1000u32 {
        let pattern: Vec<u8> = (0..n).map(|i| (i as u32 + trial) as u8).collect();
        m.write_buffer(&xsrc, &pattern);
        sa.memcpy_async(&mut m, &xdst, &xsrc).unwrap();
        sa.record_event(&mut m, &e);
        sb.wait_for_event(&mut m, &e);
        sb.memcpy_async(&mut m, &ydst, &xdst).unwrap();
        sa.synchronize(&mut m);
        sb.synchronize(&mut m);
        assert_eq!(m.read_buffer(&ydst), pattern);
    }
}

#[test]
fn unlinked_streams_complete_independently() {
    let mut m = Machine::new(&vec![4 << 20, 4 << 20], 8 << 20, 8 << 20, Vec::new());
    let c0 = Context::new(&mut m, 0).unwrap();
    let c1 = Context::new(&mut m, 1).unwrap();
    let s0 = c0.create_stream(&mut m);
    let s1 = c1.create_stream(&mut m);
    let mib = 1 << 20;
    let src0 = s0.create_buffer_async(&mut m, mib, AddressSpace::PlainHost).unwrap();
    let dev0 = s0.create_buffer_async(&mut m, mib, AddressSpace::Device).unwrap();
    let dst0 = s0.create_buffer_async(&mut m, mib, AddressSpace::PinnedHost).unwrap();
    let src1 = s1.create_buffer_async(&mut m, mib, AddressSpace::PlainHost).unwrap();
    let dev1 = s1.create_buffer_async(&mut m, mib, AddressSpace::Device).unwrap();
    let dst1 = s1.create_buffer_async(&mut m, mib, AddressSpace::PinnedHost).unwrap();
    let p0: Vec<u8> = (0..mib).map(|i| (i % 199) as u8).collect();
    let p1: Vec<u8> = (0..mib).map(|i| (i % 83) as u8).collect();
    m.write_buffer(&src0, &p0);
    m.write_buffer(&src1, &p1);
    s0.memcpy_async(&mut m, &dev0, &src0).unwrap();
    s1.memcpy_async(&mut m, &dev1, &src1).unwrap();
    s0.memcpy_async(&mut m, &dst0, &dev0).unwrap();
    s1.memcpy_async(&mut m, &dst1, &dev1).unwrap();
    s0.synchronize(&mut m);
    assert_eq!(m.read_buffer(&dst0), p0);
    assert!(m.streams[s0.id].pending.is_empty());
    s1.synchronize(&mut m);
    assert_eq!(m.read_buffer(&dst1), p1);
    assert!(m.streams[s1.id].pending.is_empty());
}

#[test]
fn peer_access_refused_when_not_accessible() {
    let mut m = two_device_machine();
    let c0 = Context::new(&mut m, 0).unwrap();
    let c1 = Context::new(&mut m, 1).unwrap();
    assert!(!c0.can_access_peer(&m, &c1));
    assert_eq!(
        c0.enable_peer_access(&mut m, &c1),
        Err(GpuError::PeerAccessUnsupported)
    );
    // prior peer-access state is unchanged
    assert_eq!(m.enabled.len(), 0);
}

#[test]
fn peer_access_is_directional_and_idempotent() {
    let mut m = Machine::new(&vec![1024, 1024], 1024, 1024, vec![(0, 1)]);
    let c0 = Context::new(&mut m, 0).unwrap();
    let c1 = Context::new(&mut m, 1).unwrap();
    assert!(c0.can_access_peer(&m, &c1));
    assert!(!c1.can_access_peer(&m, &c0));
    c0.enable_peer_access(&mut m, &c1).unwrap();
    c0.enable_peer_access(&mut m, &c1).unwrap();
    assert_eq!(m.enabled.len(), 1);
    assert_eq!(
        c1.enable_peer_access(&mut m, &c0),
        Err(GpuError::PeerAccessUnsupported)
    );
}

#[test]
fn cross_device_copy_needs_enabled_peer_access() {
    let mut m = Machine::new(&vec![1024, 1024], 1024, 1024, vec![(0, 1)]);
    let c0 = Context::new(&mut m, 0).unwrap();
    let c1 = Context::new(&mut m, 1).unwrap();
    let s0 = c0.create_stream(&mut m);
    let s1 = c1.create_stream(&mut m);
    let d0 = s0.create_buffer_async(&mut m, 64, AddressSpace::Device).unwrap();
    let d1 = s1.create_buffer_async(&mut m, 64, AddressSpace::Device).unwrap();
    assert_eq!(
        s0.memcpy_async(&mut m, &d0, &d1),
        Err(GpuError::PeerAccessUnsupported)
    );
    c0.enable_peer_access(&mut m, &c1).unwrap();
    s0.memcpy_async(&mut m, &d0, &d1).unwrap();
    // the other direction was never enabled
    assert_eq!(
        s1.memcpy_async(&mut m, &d1, &d0),
        Err(GpuError::PeerAccessUnsupported)
    );
}

#[test]
fn operations_make_their_context_current() {
    let mut m = two_device_machine();
    let c0 = Context::new(&mut m, 0).unwrap();
    let c1 = Context::new(&mut m, 1).unwrap();
    let s0 = c0.create_stream(&mut m);
    assert_eq!(m.current, Some(c0.id));
    let s1 = c1.create_stream(&mut m);
    assert_eq!(m.current, Some(c1.id));
    let b = s0.create_buffer_async(&mut m, 16, AddressSpace::Device).unwrap();
    assert_eq!(m.current, Some(c0.id));
    s1.synchronize(&mut m);
    assert_eq!(m.current, Some(c1.id));
    s0.free_buffer_sync(&mut m, &b);
    assert_eq!(m.current, Some(c0.id));
}

#[test]
fn fresh_allocation_is_zero_filled() {
    let mut m = two_device_machine();
    let c = Context::new(&mut m, 0).unwrap();
    let s = c.create_stream(&mut m);
    let b = s.create_buffer_async(&mut m, 128, AddressSpace::PlainHost).unwrap();
    assert_eq!(m.read_buffer(&b), vec![0u8; 128]);
}

#[test]
fn stream_queue_keeps_issue_order() {
    let mut m = two_device_machine();
    let c = Context::new(&mut m, 0).unwrap();
    let s = c.create_stream(&mut m);
    let s2 = c.create_stream(&mut m);
    let e = c.create_event(&mut m);
    let a = s.create_buffer_async(&mut m, 8, AddressSpace::PlainHost).unwrap();
    let b = s.create_buffer_async(&mut m, 8, AddressSpace::PinnedHost).unwrap();
    s.memcpy_async(&mut m, &b, &a).unwrap();
    s.memcpy_async(&mut m, &a, &b).unwrap();
    s.record_event(&mut m, &e);
    assert_eq!(
        m.streams[s.id].pending,
        vec![
            QueueOp::Copy { dst: b.id, src: a.id, size: 8 },
            QueueOp::Copy { dst: a.id, src: b.id, size: 8 },
            QueueOp::Record { event: e.id },
        ]
    );
    // the wait satisfies the record by draining the recording stream
    s2.wait_for_event(&mut m, &e);
    assert!(m.streams[s.id].pending.is_empty());
    assert_eq!(m.streams[s2.id].pending, vec![QueueOp::Wait { event: e.id }]);
    s2.synchronize(&mut m);
    assert!(m.streams[s2.id].pending.is_empty());
}

#[test]
fn copy_is_visible_only_after_the_drain() {
    let mut m = two_device_machine();
    let c = Context::new(&mut m, 0).unwrap();
    let s = c.create_stream(&mut m);
    let a = s.create_buffer_async(&mut m, 16, AddressSpace::PlainHost).unwrap();
    let b = s.create_buffer_async(&mut m, 16, AddressSpace::PinnedHost).unwrap();
    let pattern = vec![42u8; 16];
    m.write_buffer(&a, &pattern);
    s.memcpy_async(&mut m, &b, &a).unwrap();
    // the copy is enqueued but has not executed yet
    assert_eq!(m.read_buffer(&b), vec![0u8; 16]);
    s.synchronize(&mut m);
    assert_eq!(m.read_buffer(&b), pattern);
}

#[test]
fn record_marks_event() {
    let mut m = two_device_machine();
    let c = Context::new(&mut m, 0).unwrap();
    let s = c.create_stream(&mut m);
    let e = c.create_event(&mut m);
    assert!(m.events[e.id].recorded_on.is_none());
    s.record_event(&mut m, &e);
    assert_eq!(m.events[e.id].recorded_on, Some(s.id));
}

#[test]
fn error_descriptions_name_each_failure() {
    assert_eq!(GpuError::InitializationFailed.describe(), "initialization failed");
    assert_eq!(GpuError::DeviceNotFound.describe(), "device not found");
    assert_eq!(GpuError::ContextCreationFailed.describe(), "context creation failed");
    assert_eq!(GpuError::OutOfMemory.describe(), "out of memory");
    assert_eq!(GpuError::InvalidSize.describe(), "invalid size");
    assert_eq!(GpuError::SizeMismatch.describe(), "size mismatch");
    assert_eq!(GpuError::PeerAccessUnsupported.describe(), "peer access unsupported");
    assert_eq!(GpuError::QueueOperationFailed.describe(), "queue operation failed");
}
