//! Retry monitor behavior: duplicate tracking, cancels, disabled mode, and
//! the full retransmit-then-fail schedule against a logical clock.

use rdma_core::assoc::AssocMap;
use rdma_core::desc::DescSge;
use rdma_core::desc::WorkDescCommon;
use rdma_core::desc::WorkDescriptor;
use rdma_core::desc::WorkKind;
use rdma_core::device::op_key;
use rdma_core::device::resolve_exhausted;
use rdma_core::op_ctx::CtxStatus;
use rdma_core::op_ctx::OpCtx;
use rdma_core::op_ctx::WriteOpCtx;
use rdma_core::retry::RetryCancel;
use rdma_core::retry::RetryConfig;
use rdma_core::retry::RetryEvent;
use rdma_core::retry::RetryMonitorContext;
use rdma_core::retry::RetryRecord;
use rdma_core::types::Key;
use rdma_core::types::MemAccessTypeFlag;
use rdma_core::types::Msn;
use rdma_core::types::Pmtu;
use rdma_core::types::Psn;
use rdma_core::types::QpType;
use rdma_core::types::Qpn;

fn sample_desc() -> WorkDescriptor {
    WorkDescriptor {
        kind: WorkKind::Write,
        common: WorkDescCommon {
            total_len: 512,
            raddr: 0,
            rkey: Key::default(),
            dqp_ip: 0,
            dqpn: Qpn::default(),
            mac_addr: 0,
            pmtu: Pmtu::Mtu1024,
            flags: MemAccessTypeFlag::default(),
            qp_type: QpType::Rc,
            psn: Psn::default(),
            msn: Msn::default(),
        },
        is_first: true,
        is_last: true,
        sge0: DescSge { addr: 0x1000, len: 512, key: Key::new(0x1234) },
        sge1: None,
        sge2: None,
        sge3: None,
    }
}

fn record(qpn: u32, msn: u16) -> RetryRecord {
    RetryRecord::new(sample_desc(), Qpn::new(qpn), Msn::new(msn))
}

#[test]
fn duplicate_retry_overwrites_tracking() {
    // A second Retry for the same identity overwrites rather than
    // duplicates: exactly one context per identity.
    let mut monitor = RetryMonitorContext::new(RetryConfig::new(true, 3, 1000, 10));
    monitor.handle_retry(record(1, 2), 0);
    monitor.handle_retry(record(1, 2), 500);
    assert_eq!(monitor.tracked_count(), 1);
    // The overwrite rearmed the deadline: no resend fires at the original
    // deadline.
    let out = monitor.check_timeout(1000);
    assert_eq!(out.resends.len(), 0);
    let out = monitor.check_timeout(1500);
    assert_eq!(out.resends.len(), 1);
}

#[test]
fn cancel_of_untracked_identity_is_a_no_op() {
    let mut monitor = RetryMonitorContext::new(RetryConfig::new(true, 3, 1000, 10));
    monitor.handle_retry(record(1, 2), 0);
    monitor.handle_cancel(&RetryCancel { qpn: Qpn::new(9), msn: Msn::new(9) });
    assert_eq!(monitor.tracked_count(), 1);
    assert!(monitor.is_tracked(Qpn::new(1), Msn::new(2)));
}

#[test]
fn cancel_before_deadline_stops_resends() {
    // A Cancel strictly before the next deadline removes tracking; no
    // further resend occurs for that identity.
    let mut monitor = RetryMonitorContext::new(RetryConfig::new(true, 3, 1000, 10));
    monitor.handle_retry(record(1, 2), 0);
    monitor.handle_cancel(&RetryCancel { qpn: Qpn::new(1), msn: Msn::new(2) });
    assert!(!monitor.is_tracked(Qpn::new(1), Msn::new(2)));
    for t in [1000u64, 2000, 3000, 10_000] {
        let out = monitor.check_timeout(t);
        assert_eq!(out.resends.len(), 0);
        assert_eq!(out.failures.len(), 0);
    }
}

#[test]
fn disabled_monitor_never_tracks_resends_or_fails() {
    // With is_enable = false every event is discarded silently: no tracking,
    // no resend, no failure, whatever arrives.
    let mut monitor = RetryMonitorContext::new(RetryConfig::new(false, 3, 1000, 10));
    monitor.process_event(RetryEvent::Retry(record(1, 2)), 0);
    monitor.process_event(
        RetryEvent::Cancel(RetryCancel { qpn: Qpn::new(1), msn: Msn::new(2) }),
        0,
    );
    assert_eq!(monitor.tracked_count(), 0);
    let mut t = 0u64;
    while t <= 5000 {
        let out = monitor.check_timeout(t);
        assert_eq!(out.resends.len(), 0);
        assert_eq!(out.failures.len(), 0);
        t += 10;
    }
}

#[test]
fn test_retry_monitor() {
    // max_retry = 3, retry_timeout = 1000 ms, checking_interval = 10 ms. A
    // Retry at t = 0 is resent once by t = 1000, twice by t = 2000, three
    // times by t = 3000; by t = 4000 tracking is gone and the waiting
    // operation context is Failed.
    let config = RetryConfig::new(true, 3, 1000, 10);
    let mut monitor = RetryMonitorContext::new(config);
    let mut user_op_ctx_map: AssocMap<WriteOpCtx> = AssocMap::new();
    let _ = user_op_ctx_map.insert(op_key(Qpn::default(), Msn::default()), OpCtx::new_running());

    monitor.process_event(RetryEvent::Retry(record(0, 0)), 0);
    assert_eq!(monitor.tracked_count(), 1);

    let mut resends = 0usize;
    let mut t = 10u64;
    while t <= 4000 {
        let out = monitor.check_timeout(t);
        resends += out.resends.len();
        for r in &out.resends {
            assert_eq!(r.descriptor, sample_desc());
            assert_eq!(r.qpn, Qpn::default());
            assert_eq!(r.msn, Msn::default());
        }
        resolve_exhausted(&mut user_op_ctx_map, &out.failures);
        match t {
            1000 => assert_eq!(resends, 1),
            2000 => assert_eq!(resends, 2),
            3000 => assert_eq!(resends, 3),
            _ => {},
        }
        t += 10;
    }
    assert_eq!(resends, 3);
    assert_eq!(monitor.tracked_count(), 0);
    let ctx = user_op_ctx_map.get(op_key(Qpn::default(), Msn::default())).unwrap();
    match ctx.status() {
        CtxStatus::Failed(reason) => assert_eq!(*reason, "exceed max retry count"),
        _ => panic!("the context must have failed by retry exhaustion"),
    }
}

#[test]
fn event_batches_apply_in_send_order() {
    // A drained batch folds left to right: a Retry, its Cancel, then a Retry
    // for another identity leaves exactly the latter tracked.
    let mut monitor = RetryMonitorContext::new(RetryConfig::new(true, 3, 1000, 10));
    let batch = vec![
        RetryEvent::Retry(record(1, 1)),
        RetryEvent::Cancel(RetryCancel { qpn: Qpn::new(1), msn: Msn::new(1) }),
        RetryEvent::Retry(record(2, 2)),
    ];
    monitor.process_events(batch, 0);
    assert_eq!(monitor.tracked_count(), 1);
    assert!(!monitor.is_tracked(Qpn::new(1), Msn::new(1)));
    assert!(monitor.is_tracked(Qpn::new(2), Msn::new(2)));
    // The reverse order keeps both: the Cancel precedes its Retry.
    let mut monitor = RetryMonitorContext::new(RetryConfig::new(true, 3, 1000, 10));
    let batch = vec![
        RetryEvent::Cancel(RetryCancel { qpn: Qpn::new(1), msn: Msn::new(1) }),
        RetryEvent::Retry(record(1, 1)),
        RetryEvent::Retry(record(2, 2)),
    ];
    monitor.process_events(batch, 0);
    assert_eq!(monitor.tracked_count(), 2);
    assert!(monitor.is_tracked(Qpn::new(1), Msn::new(1)));
}

#[test]
fn events_flow_through_the_channel() {
    // Events drained from the real channel reach the tracked set.
    let (sender, receiver) = flume::unbounded();
    let mut monitor = RetryMonitorContext::new(RetryConfig::new(true, 3, 60_000, 10));
    sender.send(RetryEvent::Retry(record(3, 4))).unwrap();
    let out = monitor.monitor_tick(&receiver);
    // The deadline is a minute away: nothing fires yet.
    assert_eq!(out.resends.len(), 0);
    assert_eq!(out.failures.len(), 0);
    assert!(monitor.is_tracked(Qpn::new(3), Msn::new(4)));
    // A Cancel through the channel removes tracking.
    sender
        .send(RetryEvent::Cancel(RetryCancel { qpn: Qpn::new(3), msn: Msn::new(4) }))
        .unwrap();
    let _ = monitor.monitor_tick(&receiver);
    assert!(!monitor.is_tracked(Qpn::new(3), Msn::new(4)));
}

#[test]
fn resolve_exhausted_skips_missing_and_terminal_contexts() {
    let mut map: AssocMap<WriteOpCtx> = AssocMap::new();
    let mut done: WriteOpCtx = OpCtx::new_running();
    let _ = done.set_result(());
    let _ = map.insert(op_key(Qpn::new(1), Msn::new(1)), done);
    let _ = map.insert(op_key(Qpn::new(2), Msn::new(2)), OpCtx::new_running());
    let failures = vec![
        (Qpn::new(1), Msn::new(1)),
        (Qpn::new(2), Msn::new(2)),
        (Qpn::new(9), Msn::new(9)),
    ];
    assert!(map.contains_key(op_key(Qpn::new(2), Msn::new(2))));
    assert!(!map.contains_key(op_key(Qpn::new(9), Msn::new(9))));
    assert_eq!(map.len(), 2);
    resolve_exhausted(&mut map, &failures);
    // The already-resolved context keeps its result.
    assert!(matches!(
        map.get(op_key(Qpn::new(1), Msn::new(1))).unwrap().status(),
        CtxStatus::Succeeded(())
    ));
    // The waiting context failed with the canonical reason.
    assert!(matches!(
        map.get(op_key(Qpn::new(2), Msn::new(2))).unwrap().status(),
        CtxStatus::Failed(_)
    ));
    // The identity with no context is skipped.
    assert!(map.get(op_key(Qpn::new(9), Msn::new(9))).is_none());
}

#[test]
fn resend_budget_consumed_even_without_cancel_or_success() {
    // Budget is monotonically non-increasing; after the last unit is used
    // the identity fails exactly once and is removed.
    let mut monitor = RetryMonitorContext::new(RetryConfig::new(true, 1, 100, 10));
    monitor.handle_retry(record(5, 6), 0);
    let out = monitor.check_timeout(100);
    assert_eq!(out.resends.len(), 1);
    assert_eq!(out.failures.len(), 0);
    let out = monitor.check_timeout(200);
    assert_eq!(out.resends.len(), 0);
    assert_eq!(out.failures.len(), 1);
    assert_eq!(out.failures[0], (Qpn::new(5), Msn::new(6)));
    assert_eq!(monitor.tracked_count(), 0);
    // Once removed, later scans do nothing.
    let out = monitor.check_timeout(300);
    assert_eq!(out.failures.len(), 0);
}
