//! Descriptor codec behavior: 3- and 4-slot round trips through the ring,
//! exact byte layout spot checks, and hard decode errors.

use rdma_core::ctrl::parse_ctrl_desc;
use rdma_core::ctrl::parse_ctrl_resp;
use rdma_core::ctrl::serialize_ctrl_desc;
use rdma_core::ctrl::serialize_ctrl_resp;
use rdma_core::ctrl::CtrlDescriptor;
use rdma_core::ctrl::CtrlRespDescriptor;
use rdma_core::desc::parse_work_desc;
use rdma_core::desc::pop_work_desc;
use rdma_core::desc::push_work_desc;
use rdma_core::desc::serialize_work_desc;
use rdma_core::desc::DescSge;
use rdma_core::desc::WorkDescCommon;
use rdma_core::desc::WorkDescriptor;
use rdma_core::desc::WorkKind;
use rdma_core::ring::Ring;
use rdma_core::types::DeviceError;
use rdma_core::types::Key;
use rdma_core::types::MemAccessTypeFlag;
use rdma_core::types::Msn;
use rdma_core::types::Pmtu;
use rdma_core::types::Psn;
use rdma_core::types::QpType;
use rdma_core::types::Qpn;
use rdma_core::types::RdmaDeviceNetwork;

fn sge(addr: u64, len: u32, key: u32) -> DescSge {
    DescSge { addr, len, key: Key::new(key) }
}

fn sample_desc(sge3: Option<DescSge>) -> WorkDescriptor {
    WorkDescriptor {
        kind: WorkKind::Write,
        common: WorkDescCommon {
            total_len: 1536,
            raddr: 0xdead_beef_0000_1234,
            rkey: Key::new(0x0102_0304),
            dqp_ip: 0x0a00_0003,
            dqpn: Qpn::new(0x00ab_cdef),
            mac_addr: 0x1122_3344_5566,
            pmtu: Pmtu::Mtu1024,
            flags: MemAccessTypeFlag::new(0x07),
            qp_type: QpType::Rc,
            psn: Psn::new(0x00fe_dcba),
            msn: Msn::new(0x4321),
        },
        is_first: true,
        is_last: false,
        sge0: sge(0x1000, 512, 0x1234),
        sge1: Some(sge(0x2000, 512, 0x5678)),
        sge2: Some(sge(0x3000, 512, 0x9abc)),
        sge3,
    }
}

#[test]
fn three_slot_descriptor_round_trips() {
    // Every field of a 3-slot descriptor is reproduced identically.
    let d = sample_desc(None);
    let bytes = serialize_work_desc(&d);
    assert_eq!(bytes.len(), 96);
    let got = parse_work_desc(&bytes).expect("a serialized descriptor parses");
    assert_eq!(got, d);
}

#[test]
fn four_slot_descriptor_round_trips() {
    // Every field of a 4-slot descriptor is reproduced identically.
    let d = sample_desc(Some(sge(0x4000, 4096, 0xd00d)));
    let bytes = serialize_work_desc(&d);
    assert_eq!(bytes.len(), 128);
    let got = parse_work_desc(&bytes).expect("a serialized descriptor parses");
    assert_eq!(got, d);
}

#[test]
fn descriptor_layout_spot_checks() {
    let d = sample_desc(None);
    let bytes = serialize_work_desc(&d);
    assert_eq!(bytes[0], 0); // write kind
    assert_eq!(bytes[1], 3); // slot count, self-describing
    assert_eq!(bytes[2], 3); // scatter-gather entries
    assert_eq!(bytes[3], 0x07); // access flags
    assert_eq!(bytes[6], 1); // first, not last
    assert_eq!(&bytes[8..10], &[0x21, 0x43]); // msn, little endian
    assert_eq!(&bytes[10..14], &[0xba, 0xdc, 0xfe, 0x00]); // psn
    assert_eq!(&bytes[32..40], &[0x66, 0x55, 0x44, 0x33, 0x22, 0x11, 0, 0]); // mac
}

#[test]
fn descriptor_round_trips_through_ring() {
    let mut ring = Ring::new(16, 32);
    let d3 = sample_desc(None);
    let d4 = sample_desc(Some(sge(0x4000, 64, 0xd00d)));
    push_work_desc(&mut ring, &d3).unwrap();
    push_work_desc(&mut ring, &d4).unwrap();
    assert_eq!(ring.len(), 7);
    assert_eq!(pop_work_desc(&mut ring).unwrap(), d3);
    assert_eq!(pop_work_desc(&mut ring).unwrap(), d4);
    assert!(matches!(pop_work_desc(&mut ring), Err(DeviceError::NotAvailable)));
}

#[test]
fn multi_slot_push_is_atomic_on_overflow() {
    // A 3-slot descriptor must not be written partially: with 2 free slots
    // the push overflows and the ring is unchanged.
    let mut ring = Ring::new(4, 32);
    ring.push_slot(vec![0u8; 32]).unwrap();
    ring.push_slot(vec![0u8; 32]).unwrap();
    let d = sample_desc(None);
    assert!(matches!(push_work_desc(&mut ring, &d), Err(DeviceError::Overflow)));
    assert_eq!(ring.len(), 2);
}

#[test]
fn bad_slot_count_is_a_hard_decode_error() {
    let mut ring = Ring::new(4, 32);
    let mut slot = vec![0u8; 32];
    slot[1] = 7; // not a valid slot count
    ring.push_slot(slot).unwrap();
    assert!(matches!(pop_work_desc(&mut ring), Err(DeviceError::ParseDesc)));
}

#[test]
fn garbage_slots_fail_to_parse() {
    let mut ring = Ring::new(8, 32);
    let mut slot = vec![0u8; 32];
    slot[0] = 0xff; // invalid kind
    slot[1] = 3;
    ring.push_slot(slot).unwrap();
    ring.push_slot(vec![1u8; 32]).unwrap();
    ring.push_slot(vec![2u8; 32]).unwrap();
    assert!(matches!(pop_work_desc(&mut ring), Err(DeviceError::ParseDesc)));
}

#[test]
fn ctrl_descriptor_round_trips() {
    let c = CtrlDescriptor::SetNetworkParam {
        op_id: 7,
        network: RdmaDeviceNetwork::new(0x0a00_0001, 0xffff_ff00, 0x0a00_0002, 0xaabb_ccdd_eeff),
    };
    let bytes = serialize_ctrl_desc(&c);
    assert_eq!(bytes.len(), 32);
    assert_eq!(&bytes[4..8], &[7, 0, 0, 0]);
    assert_eq!(parse_ctrl_desc(&bytes), Some(c));
}

#[test]
fn ctrl_response_round_trips() {
    for flag in [false, true] {
        let c = CtrlRespDescriptor { op_id: 0x0102_0304, is_success: flag };
        let bytes = serialize_ctrl_resp(&c);
        assert_eq!(bytes.len(), 32);
        assert_eq!(parse_ctrl_resp(&bytes), Some(c));
    }
}

#[test]
fn truncated_ctrl_slot_fails_to_parse() {
    let short = vec![0u8; 16];
    assert_eq!(parse_ctrl_desc(&short), None);
    assert_eq!(parse_ctrl_resp(&short), None);
}
