//! Driver-core behavior: initialization, submissions, identifiers, error
//! paths, the pollers, and the backend helpers.

use crossbeam_queue::SegQueue;
use rdma_core::ctrl::CtrlDescriptor;
use rdma_core::ctrl::CtrlRespDescriptor;
use rdma_core::desc::WorkKind;
use rdma_core::device::calculate_packet_cnt;
use rdma_core::device::Device;
use rdma_core::device::QpContext;
use rdma_core::emulated::emulated_phys_addr_of;
use rdma_core::emulated::ring_addr_csr_writes;
use rdma_core::emulated::software_phys_addr_of;
use rdma_core::op_ctx::CtxStatus;
use rdma_core::op_ctx::OpCtx;
use rdma_core::retry::RetryRecord;
use rdma_core::software::pop_host_desc;
use rdma_core::types::DeviceError;
use rdma_core::types::Error;
use rdma_core::types::Key;
use rdma_core::types::MemAccessTypeFlag;
use rdma_core::types::Msn;
use rdma_core::types::Pmtu;
use rdma_core::types::Psn;
use rdma_core::types::QpType;
use rdma_core::types::Qpn;
use rdma_core::types::RdmaDeviceNetwork;
use rdma_core::types::Sge;

fn network() -> RdmaDeviceNetwork {
    RdmaDeviceNetwork::new(0x0a00_0001, 0xffff_ff00, 0x0a00_0002, 0x1122_3344_5566)
}

fn qp(qpn: u32) -> QpContext {
    QpContext {
        qpn: Qpn::new(qpn),
        pmtu: Pmtu::Mtu1024,
        qp_type: QpType::Rc,
        dqp_ip: 0x0a00_0003,
        dqp_mac_addr: 0xaabb_ccdd_eeff,
        sending_psn: Psn::default(),
    }
}

fn sge(addr: u64, len: u32) -> Sge {
    Sge::new(addr, len, Key::new(0x1234))
}

#[test]
fn new_device_submits_network_parameters() {
    // A fresh device has the SetNetworkParam command pending on the
    // control-submit ring under operation id 0.
    let mut dev = Device::new_software(&network()).unwrap();
    let desc = dev.device_pop_ctrl().unwrap();
    let CtrlDescriptor::SetNetworkParam { op_id, network: n } = desc;
    assert_eq!(op_id, 0);
    assert_eq!(n, network());
    assert!(matches!(dev.device_pop_ctrl(), Err(DeviceError::NotAvailable)));
    let mut hw = Device::new_hardware(&network()).unwrap();
    assert!(hw.device_pop_ctrl().is_ok());
}

#[test]
fn ctrl_completion_resolves_the_waiting_context() {
    let mut dev = Device::new_software(&network()).unwrap();
    let _ = dev.device_pop_ctrl().unwrap();
    dev.device_push_ctrl_resp(&CtrlRespDescriptor { op_id: 0, is_success: true }).unwrap();
    let resp = dev.poll_ctrl_completion().unwrap();
    assert_eq!(resp.op_id, 0);
    assert!(resp.is_success);
    // The context is now terminal: a second resolution attempt is a no-op.
    assert!(!dev.handle_ctrl_response(&resp));
    // A completion naming an unknown id resolves nothing.
    assert!(!dev.handle_ctrl_response(&CtrlRespDescriptor { op_id: 42, is_success: true }));
}

#[test]
fn set_network_assigns_fresh_operation_ids() {
    let mut dev = Device::new_software(&network()).unwrap();
    let id1 = dev.set_network(&network()).unwrap();
    let id2 = dev.set_network(&network()).unwrap();
    assert_eq!(id1, 1);
    assert_eq!(id2, 2);
    // Reusing an outstanding id is refused.
    let desc = CtrlDescriptor::SetNetworkParam { op_id: 1, network: network() };
    assert!(matches!(dev.do_ctrl_op(1, desc), Err(Error::OpIdUsed(1))));
}

#[test]
fn duplicate_op_id_leaves_the_prior_context_untouched() {
    let mut dev = Device::new_software(&network()).unwrap();
    let _ = dev.device_pop_ctrl().unwrap();
    // Resolve the init command's context.
    dev.device_push_ctrl_resp(&CtrlRespDescriptor { op_id: 0, is_success: true }).unwrap();
    let resp = dev.poll_ctrl_completion().unwrap();
    // A duplicate submission under id 0 is refused without re-registering:
    // the resolved context keeps its result.
    let desc = CtrlDescriptor::SetNetworkParam { op_id: 0, network: network() };
    assert!(matches!(dev.do_ctrl_op(0, desc), Err(Error::OpIdUsed(0))));
    assert!(!dev.handle_ctrl_response(&resp));
    assert!(dev.set_network_result(0).is_ok());
    // Nothing was pushed by the refused call.
    assert!(matches!(dev.device_pop_ctrl(), Err(DeviceError::NotAvailable)));
}

#[test]
fn full_ctrl_ring_leaves_the_operation_unsubmitted() {
    let mut dev = Device::new_software(&network()).unwrap();
    // The init command holds one slot; 127 more commands fill the ring.
    for _ in 0..127 {
        dev.set_network(&network()).unwrap();
    }
    let r = dev.set_network(&network());
    assert!(matches!(r, Err(Error::DeviceBusy)));
    // The refused operation left nothing registered: after a slot frees up,
    // the same id is usable again.
    let _ = dev.device_pop_ctrl().unwrap();
    let desc = CtrlDescriptor::SetNetworkParam { op_id: 128, network: network() };
    assert!(dev.do_ctrl_op(128, desc).is_ok());
}

#[test]
fn set_network_result_follows_the_completion_outcome() {
    let mut dev = Device::new_software(&network()).unwrap();
    // Unresolved: the init command's context is still running.
    assert!(matches!(dev.set_network_result(0), Err(Error::SetNetworkParamFailed)));
    // Unknown id.
    assert!(matches!(dev.set_network_result(9), Err(Error::SetNetworkParamFailed)));
    // Device reports failure.
    dev.device_push_ctrl_resp(&CtrlRespDescriptor { op_id: 0, is_success: false }).unwrap();
    let _ = dev.poll_ctrl_completion().unwrap();
    assert!(matches!(dev.set_network_result(0), Err(Error::SetNetworkParamFailed)));
    // Device reports success on a later command.
    let id = dev.set_network(&network()).unwrap();
    dev.device_push_ctrl_resp(&CtrlRespDescriptor { op_id: id, is_success: true }).unwrap();
    let _ = dev.poll_ctrl_completion().unwrap();
    let _ = dev.device_pop_ctrl().unwrap();
    assert!(dev.set_network_result(id).is_ok());
}

#[test]
fn write_frames_the_descriptor_and_advances_counters() {
    let mut dev = Device::new_software(&network()).unwrap();
    dev.register_qp(qp(5));
    let ctx = dev
        .write(
            &Qpn::new(5),
            0x8000,
            Key::new(0x77),
            MemAccessTypeFlag::new(1),
            sge(0x1000, 512),
            Some(sge(0x2000, 512)),
            None,
            None,
        )
        .unwrap();
    assert!(matches!(ctx.status(), CtxStatus::Running));
    let d = dev.device_pop_work().unwrap();
    assert!(matches!(d.kind, WorkKind::Write));
    assert_eq!(d.common.total_len, 1024);
    assert_eq!(d.common.raddr, 0x8000);
    assert_eq!(d.common.msn, Msn::new(0));
    assert_eq!(d.common.psn, Psn::new(0));
    assert_eq!(d.common.dqpn, Qpn::new(5));
    assert_eq!(d.common.mac_addr, 0xaabb_ccdd_eeff);
    assert_eq!(d.sge0.addr, 0x1000);
    assert_eq!(d.sge1.unwrap().addr, 0x2000);
    assert!(d.sge2.is_none() && d.sge3.is_none());

    // The second write gets the next message sequence number, and its packet
    // sequence number starts where the first transfer's packets ended:
    // 1024 bytes at offset 0 with a 1024-byte MTU is one packet.
    let _ = dev
        .write(
            &Qpn::new(5),
            0x8000,
            Key::new(0x77),
            MemAccessTypeFlag::new(1),
            sge(0x1000, 512),
            None,
            None,
            None,
        )
        .unwrap();
    let d2 = dev.device_pop_work().unwrap();
    assert_eq!(d2.common.msn, Msn::new(1));
    assert_eq!(d2.common.psn, Psn::new(1));
}

#[test]
fn write_to_unknown_queue_pair_is_invalid_qpn() {
    let mut dev = Device::new_software(&network()).unwrap();
    let r = dev.write(
        &Qpn::new(5),
        0,
        Key::default(),
        MemAccessTypeFlag::default(),
        sge(0, 4),
        None,
        None,
        None,
    );
    assert!(matches!(r, Err(Error::InvalidQpn)));
}

#[test]
fn full_work_ring_reports_device_busy() {
    let mut dev = Device::new_software(&network()).unwrap();
    dev.register_qp(qp(5));
    // Each descriptor takes 3 slots of the 128-slot ring: 42 fit.
    for _ in 0..42 {
        dev.write(
            &Qpn::new(5),
            0,
            Key::default(),
            MemAccessTypeFlag::default(),
            sge(0, 4),
            None,
            None,
            None,
        )
        .unwrap();
    }
    let r = dev.write(
        &Qpn::new(5),
        0,
        Key::default(),
        MemAccessTypeFlag::default(),
        sge(0, 4),
        None,
        None,
        None,
    );
    assert!(matches!(r, Err(Error::DeviceBusy)));
}

#[test]
fn reused_message_sequence_number_is_create_op_ctx_failed() {
    // After the 16-bit counter wraps, the identity of the still-outstanding
    // first write is assigned again; the context table refuses it.
    let mut dev = Device::new_software(&network()).unwrap();
    dev.register_qp(qp(5));
    for _ in 0..0x1_0000u32 {
        dev.write(
            &Qpn::new(5),
            0,
            Key::default(),
            MemAccessTypeFlag::default(),
            sge(0, 4),
            None,
            None,
            None,
        )
        .unwrap();
        let _ = dev.device_pop_work().unwrap();
    }
    let r = dev.write(
        &Qpn::new(5),
        0,
        Key::default(),
        MemAccessTypeFlag::default(),
        sge(0, 4),
        None,
        None,
        None,
    );
    assert!(matches!(r, Err(Error::CreateOpCtxFailed)));
}

#[test]
fn read_claims_one_packet_sequence_number() {
    let mut dev = Device::new_software(&network()).unwrap();
    dev.register_qp(qp(5));
    let _ = dev
        .read(Qpn::new(5), 0x9000, Key::new(0x88), MemAccessTypeFlag::default(), sge(0x1000, 64))
        .unwrap();
    let d = dev.device_pop_work().unwrap();
    assert!(matches!(d.kind, WorkKind::Read));
    assert_eq!(d.common.total_len, 64);
    assert_eq!(d.common.psn, Psn::new(0));
    let _ = dev
        .read(Qpn::new(5), 0x9000, Key::new(0x88), MemAccessTypeFlag::default(), sge(0x1000, 64))
        .unwrap();
    let d2 = dev.device_pop_work().unwrap();
    assert_eq!(d2.common.psn, Psn::new(1));
}

#[test]
fn packet_count_splits_at_mtu_boundaries() {
    // 1024-byte MTU, transfer starting 512 bytes into an MTU window: the
    // first packet carries 512 bytes, the remaining 1536 take two more.
    assert_eq!(calculate_packet_cnt(Pmtu::Mtu1024, 512, 2048), 3);
    assert_eq!(calculate_packet_cnt(Pmtu::Mtu1024, 0, 1024), 1);
    assert_eq!(calculate_packet_cnt(Pmtu::Mtu1024, 0, 1025), 2);
    assert_eq!(calculate_packet_cnt(Pmtu::Mtu256, 0, 0), 1);
}

#[test]
fn monitor_resends_flow_through_the_work_ring() {
    let mut dev = Device::new_software(&network()).unwrap();
    dev.register_qp(qp(5));
    dev.write(
        &Qpn::new(5),
        0,
        Key::default(),
        MemAccessTypeFlag::default(),
        sge(0x1000, 512),
        None,
        None,
        None,
    )
    .unwrap();
    let original = dev.device_pop_work().unwrap();
    let resends = vec![RetryRecord::new(original, Qpn::new(5), Msn::new(0))];
    dev.resend_work_descs(&resends);
    // The resend retransmits the exact original descriptor, PSN included.
    let resent = dev.device_pop_work().unwrap();
    assert_eq!(resent, original);
}

#[test]
fn work_completions_round_trip_through_the_complete_ring() {
    let mut dev = Device::new_software(&network()).unwrap();
    dev.register_qp(qp(5));
    dev.write(
        &Qpn::new(5),
        0,
        Key::default(),
        MemAccessTypeFlag::default(),
        sge(0x1000, 512),
        None,
        None,
        None,
    )
    .unwrap();
    let d = dev.device_pop_work().unwrap();
    assert!(matches!(dev.poll_work_completion(), Err(DeviceError::NotAvailable)));
    dev.device_push_work_completion(&d).unwrap();
    assert_eq!(dev.poll_work_completion().unwrap(), d);
}

#[test]
fn operation_context_resolves_exactly_once() {
    let mut ctx: OpCtx<bool> = OpCtx::new_running();
    assert!(matches!(ctx.status(), CtxStatus::Running));
    assert_eq!(ctx.terminal_result(), None);
    assert!(ctx.set_result(true));
    assert!(!ctx.set_error("late timeout"));
    assert!(matches!(ctx.status(), CtxStatus::Succeeded(true)));
    assert_eq!(ctx.terminal_result(), Some(Some(true)));

    let mut failed: OpCtx<bool> = OpCtx::new_running();
    assert!(failed.set_error("boom"));
    assert!(!failed.set_result(false));
    assert_eq!(failed.terminal_result(), Some(None));
}

#[test]
fn csr_writes_split_ring_addresses_into_halves() {
    let writes = ring_addr_csr_writes(
        0x0000_0001_2345_6789,
        0x2000,
        0xffff_ffff_ffff_ffff,
        0,
    );
    assert_eq!(writes.len(), 8);
    assert_eq!(writes[0], (0, 0x2345_6789));
    assert_eq!(writes[1], (1, 0x0000_0001));
    assert_eq!(writes[2], (2, 0x2000));
    assert_eq!(writes[3], (3, 0));
    assert_eq!(writes[4], (4, 0xffff_ffff));
    assert_eq!(writes[5], (5, 0xffff_ffff));
    assert_eq!(writes[6], (6, 0));
    assert_eq!(writes[7], (7, 0));
}

#[test]
fn address_translation_of_the_backends() {
    assert_eq!(emulated_phys_addr_of(0x9000, 0x8000), Ok(0x1000));
    assert!(matches!(
        emulated_phys_addr_of(0x7000, 0x8000),
        Err(DeviceError::NotAvailable)
    ));
    assert_eq!(software_phys_addr_of(0x1234), 0x1234);
}

#[test]
fn software_backend_queue_delivers_completions() {
    let q = SegQueue::new();
    assert!(matches!(pop_host_desc(&q), Err(DeviceError::NotAvailable)));
    let mut dev = Device::new_software(&network()).unwrap();
    dev.register_qp(qp(5));
    dev.write(
        &Qpn::new(5),
        0,
        Key::default(),
        MemAccessTypeFlag::default(),
        sge(0x1000, 512),
        None,
        None,
        None,
    )
    .unwrap();
    let d = dev.device_pop_work().unwrap();
    q.push(d);
    assert_eq!(pop_host_desc(&q).unwrap(), d);
}
