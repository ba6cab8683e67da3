//! Ring-buffer behavior: overflow on the slot past the depth, empty reads,
//! and cursor movement.

use rdma_core::ctrl::pop_ctrl_desc;
use rdma_core::ctrl::push_ctrl_desc;
use rdma_core::ctrl::CtrlDescriptor;
use rdma_core::ring::Ring;
use rdma_core::types::DeviceError;
use rdma_core::types::RdmaDeviceNetwork;

fn sample_ctrl(op_id: u32) -> CtrlDescriptor {
    CtrlDescriptor::SetNetworkParam {
        op_id,
        network: RdmaDeviceNetwork::new(0x0a00_0001, 0xffff_ff00, 0x0a00_0002, 0x1122_3344_5566),
    }
}

#[test]
fn push_depth_plus_one_overflows() {
    // A depth-D ring accepts exactly D one-slot descriptors; the (D+1)th
    // push reports Overflow and stores nothing.
    let depth = 4;
    let mut ring = Ring::new(depth, 32);
    for i in 0..depth {
        assert!(push_ctrl_desc(&mut ring, &sample_ctrl(i as u32)).is_ok());
    }
    assert_eq!(ring.len(), depth);
    assert_eq!(ring.free_slots(), 0);
    let r = push_ctrl_desc(&mut ring, &sample_ctrl(99));
    assert!(matches!(r, Err(DeviceError::Overflow)));
    // Nothing was stored by the failed push.
    assert_eq!(ring.len(), depth);
}

#[test]
fn pop_empty_reports_nothing_available() {
    let mut ring = Ring::new(4, 32);
    let r = pop_ctrl_desc(&mut ring);
    assert!(matches!(r, Err(DeviceError::NotAvailable)));
}

#[test]
fn ring_is_first_in_first_out() {
    let mut ring = Ring::new(8, 32);
    for i in 0..5u32 {
        push_ctrl_desc(&mut ring, &sample_ctrl(i)).unwrap();
    }
    for i in 0..5u32 {
        let got = pop_ctrl_desc(&mut ring).unwrap();
        let CtrlDescriptor::SetNetworkParam { op_id, .. } = got;
        assert_eq!(op_id, i);
    }
    assert!(matches!(pop_ctrl_desc(&mut ring), Err(DeviceError::NotAvailable)));
}

#[test]
fn cursors_wrap_within_depth() {
    let mut ring = Ring::new(4, 32);
    assert_eq!(ring.consumer_index(), 0);
    assert_eq!(ring.producer_index(), 0);
    for round in 0..10u32 {
        push_ctrl_desc(&mut ring, &sample_ctrl(round)).unwrap();
        assert_eq!(ring.producer_index(), ((round as usize) + 1) % 4);
        pop_ctrl_desc(&mut ring).unwrap();
        assert_eq!(ring.consumer_index(), ((round as usize) + 1) % 4);
    }
}

#[test]
fn raw_slot_push_and_pop_round_trip() {
    let mut ring = Ring::new(2, 32);
    let mut slot = vec![0u8; 32];
    slot[0] = 0xAB;
    slot[31] = 0xCD;
    ring.push_slot(slot.clone()).unwrap();
    let got = ring.pop_slot().unwrap();
    assert_eq!(got, slot);
}
