//! The driver core: per-device state and the submission paths.
//!
//! A `Device` owns the four descriptor rings (control submit and complete,
//! work submit and complete), the queue-pair table, the per-operation context
//! tables and the id counters. Callers submit work through `write` and
//! `read`; the backend drains the submit rings and fills the complete rings;
//! pollers resolve the waiting operation contexts. Which physical backend
//! drains the rings — real hardware, a network emulation, or in-process
//! software — is the embedder's concern; this state machine is oblivious to
//! it.

use vstd::prelude::*;

use crate::assoc::AssocMap;
use crate::ctrl::pop_ctrl_desc;
use crate::ctrl::pop_ctrl_resp;
use crate::ctrl::push_ctrl_desc;
use crate::ctrl::push_ctrl_resp;
use crate::ctrl::spec_serialize_ctrl_desc;
use crate::ctrl::spec_serialize_ctrl_resp;
use crate::ctrl::spec_parse_ctrl_desc;
use crate::ctrl::spec_parse_ctrl_resp;
use crate::ctrl::CtrlDescriptor;
use crate::ctrl::CtrlRespDescriptor;
use crate::desc::pop_work_desc;
use crate::desc::push_work_desc;
use crate::desc::spec_desc_slots;
use crate::desc::DescSge;
use crate::desc::WorkDescCommon;
use crate::desc::WorkDescriptor;
use crate::desc::WorkKind;
use crate::op_ctx::CtrlOpCtx;
use crate::op_ctx::ReadOpCtx;
use crate::op_ctx::WriteOpCtx;
use crate::retry::RetryRecord;
use crate::ring::Ring;
use crate::ring::RING_DEPTH;
use crate::ring::RING_SLOT_SIZE;
use crate::types::DeviceError;
use crate::types::Error;
use crate::types::Key;
use crate::types::MemAccessTypeFlag;
use crate::types::Msn;
use crate::types::Pmtu;
use crate::types::Psn;
use crate::types::QpType;
use crate::types::Qpn;
use crate::types::RdmaDeviceNetwork;
use crate::types::Sge;
use crate::types::spec_pmtu_value;

verus! {

/// Per-queue-pair connection state the submission paths read.
#[derive(Clone, Copy, Debug, PartialEq, Eq, Structural)]
pub struct QpContext {
    pub qpn: Qpn,
    pub pmtu: Pmtu,
    pub qp_type: QpType,
    pub dqp_ip: u32,
    pub dqp_mac_addr: u64,
    pub sending_psn: Psn,
}

impl QpContext {
    /// Validity: the 24-bit and 48-bit fields fit their width.
    pub open spec fn wf(self) -> bool {
        &&& self.qpn.wf()
        &&& self.sending_psn.wf()
        &&& self.dqp_mac_addr < 0x1_0000_0000_0000
    }
}

/// Length contributed by an optional scatter-gather entry.
pub open spec fn spec_opt_sge_len(s: Option<Sge>) -> int {
    match s {
        Some(x) => x.len as int,
        None => 0,
    }
}

/// Total transfer length of up to four scatter-gather entries.
pub open spec fn spec_total_len(sge0: Sge, sge1: Option<Sge>, sge2: Option<Sge>, sge3: Option<
    Sge,
>) -> int {
    sge0.len + spec_opt_sge_len(sge1) + spec_opt_sge_len(sge2) + spec_opt_sge_len(sge3)
}

/// How many packets a transfer splits into: the first packet carries at most
/// up to the next MTU boundary after `raddr`, each further packet a full MTU.
pub open spec fn spec_packet_cnt(pmtu: Pmtu, raddr: u64, total_len: u32) -> int {
    let p = spec_pmtu_value(pmtu) as int;
    let first_max = p - (raddr as int % p);
    let first = if total_len as int <= first_max {
        total_len as int
    } else {
        first_max
    };
    1 + ((total_len - first) + p - 1) / p
}

/// Computes the packet count of a transfer.
pub fn calculate_packet_cnt(pmtu: Pmtu, raddr: u64, total_len: u32) -> (r: u32)
    ensures
        r == spec_packet_cnt(pmtu, raddr, total_len),
        1 <= r <= 0x100_0001,
{
    let p: u64 = pmtu.value();
    let first_max: u64 = p - raddr % p;
    let first: u64 = if (total_len as u64) <= first_max {
        total_len as u64
    } else {
        first_max
    };
    let rest: u64 = total_len as u64 - first;
    let cnt: u64 = 1 + (rest + p - 1) / p;
    proof {
        assert(rest <= u32::MAX);
        assert((rest + p - 1) / (p as int) <= 0x100_0000) by (nonlinear_arith)
            requires
                256 <= p <= 4096,
                rest <= u32::MAX,
        ;
        assert((rest + p - 1) / (p as int) >= 0);
    }
    cnt as u32
}

/// Compacts optional scatter-gather entries so the present ones stand first,
/// in order, with no holes.
pub open spec fn spec_compact_sges(a: Option<Sge>, b: Option<Sge>, c: Option<Sge>) -> (
    Option<Sge>,
    Option<Sge>,
    Option<Sge>,
) {
    match (a, b, c) {
        (Option::None, Option::None, Option::None) => (None, None, None),
        (Option::Some(x), Option::None, Option::None) => (Some(x), None, None),
        (Option::None, Option::Some(y), Option::None) => (Some(y), None, None),
        (Option::None, Option::None, Option::Some(z)) => (Some(z), None, None),
        (Option::Some(x), Option::Some(y), Option::None) => (Some(x), Some(y), None),
        (Option::Some(x), Option::None, Option::Some(z)) => (Some(x), Some(z), None),
        (Option::None, Option::Some(y), Option::Some(z)) => (Some(y), Some(z), None),
        (Option::Some(x), Option::Some(y), Option::Some(z)) => (Some(x), Some(y), Some(z)),
    }
}

/// Compacts optional scatter-gather entries (present ones first, no holes).
fn compact_sges(a: Option<Sge>, b: Option<Sge>, c: Option<Sge>) -> (r: (
    Option<Sge>,
    Option<Sge>,
    Option<Sge>,
))
    ensures
        r == spec_compact_sges(a, b, c),
        r.2 is Some ==> r.1 is Some,
        r.1 is Some ==> r.0 is Some,
{
    match (a, b, c) {
        (Option::None, Option::None, Option::None) => (None, None, None),
        (Option::Some(x), Option::None, Option::None) => (Some(x), None, None),
        (Option::None, Option::Some(y), Option::None) => (Some(y), None, None),
        (Option::None, Option::None, Option::Some(z)) => (Some(z), None, None),
        (Option::Some(x), Option::Some(y), Option::None) => (Some(x), Some(y), None),
        (Option::Some(x), Option::None, Option::Some(z)) => (Some(x), Some(z), None),
        (Option::None, Option::Some(y), Option::Some(z)) => (Some(y), Some(z), None),
        (Option::Some(x), Option::Some(y), Option::Some(z)) => (Some(x), Some(y), Some(z)),
    }
}

/// A caller-facing scatter-gather entry in descriptor form.
pub open spec fn spec_desc_sge(s: Sge) -> DescSge {
    DescSge { addr: s.addr, len: s.len, key: s.key }
}

/// An optional caller-facing scatter-gather entry in descriptor form.
pub open spec fn spec_opt_desc_sge(s: Option<Sge>) -> Option<DescSge> {
    match s {
        Some(x) => Some(spec_desc_sge(x)),
        None => None,
    }
}

/// Converts an optional scatter-gather entry to descriptor form.
fn opt_desc_sge(s: Option<Sge>) -> (r: Option<DescSge>)
    ensures
        r == spec_opt_desc_sge(s),
{
    match s {
        Some(x) => Some(DescSge::from(x)),
        None => None,
    }
}

/// The work descriptor a `write` or `read` call builds: common fields from
/// the queue pair and the arguments, compacted scatter-gather entries.
pub open spec fn spec_work_desc(
    kind: WorkKind,
    qp: QpContext,
    msn: Msn,
    psn: Psn,
    raddr: u64,
    rkey: Key,
    flags: MemAccessTypeFlag,
    total_len: u32,
    sge0: Sge,
    sge1: Option<Sge>,
    sge2: Option<Sge>,
    sge3: Option<Sge>,
) -> WorkDescriptor {
    let c = spec_compact_sges(sge1, sge2, sge3);
    WorkDescriptor {
        kind,
        common: WorkDescCommon {
            total_len,
            raddr,
            rkey,
            dqp_ip: qp.dqp_ip,
            dqpn: qp.qpn,
            mac_addr: qp.dqp_mac_addr,
            pmtu: qp.pmtu,
            flags,
            qp_type: qp.qp_type,
            psn,
            msn,
        },
        is_first: true,
        is_last: true,
        sge0: spec_desc_sge(sge0),
        sge1: spec_opt_desc_sge(c.0),
        sge2: spec_opt_desc_sge(c.1),
        sge3: spec_opt_desc_sge(c.2),
    }
}

/// The driver core's state.
pub struct Device {
    qp_table: AssocMap<QpContext>,
    write_op_ctx_map: AssocMap<WriteOpCtx>,
    read_op_ctx_map: AssocMap<ReadOpCtx>,
    ctrl_op_ctx_map: AssocMap<CtrlOpCtx>,
    next_ctrl_op_id: u32,
    next_msn: u16,
    to_card_ctrl_rb: Ring,
    to_host_ctrl_rb: Ring,
    to_card_work_rb: Ring,
    to_host_work_rb: Ring,
    local_network: RdmaDeviceNetwork,
}

impl Device {
    /// The queue pair registered under number `k`, if any.
    pub closed spec fn spec_qp(&self, k: u64) -> Option<QpContext> {
        self.qp_table.spec_get(k)
    }

    /// The write operation context stored under message sequence number `m`.
    pub closed spec fn spec_write_ctx(&self, m: u64) -> Option<WriteOpCtx> {
        self.write_op_ctx_map.spec_get(m)
    }

    /// The read operation context stored under message sequence number `m`.
    pub closed spec fn spec_read_ctx(&self, m: u64) -> Option<ReadOpCtx> {
        self.read_op_ctx_map.spec_get(m)
    }

    /// The control operation context stored under operation id `k`.
    pub closed spec fn spec_ctrl_ctx(&self, k: u64) -> Option<CtrlOpCtx> {
        self.ctrl_op_ctx_map.spec_get(k)
    }

    /// The next message sequence number to assign.
    pub closed spec fn spec_next_msn(&self) -> u16 {
        self.next_msn
    }

    /// The next control operation id to assign.
    pub closed spec fn spec_next_ctrl_op_id(&self) -> u32 {
        self.next_ctrl_op_id
    }

    /// The control-submit ring's pending slots.
    pub closed spec fn spec_ctrl_sq(&self) -> Seq<Seq<u8>> {
        self.to_card_ctrl_rb@
    }

    /// The control-complete ring's pending slots.
    pub closed spec fn spec_ctrl_cq(&self) -> Seq<Seq<u8>> {
        self.to_host_ctrl_rb@
    }

    /// The work-submit ring's pending slots.
    pub closed spec fn spec_work_sq(&self) -> Seq<Seq<u8>> {
        self.to_card_work_rb@
    }

    /// The work-complete ring's pending slots.
    pub closed spec fn spec_work_cq(&self) -> Seq<Seq<u8>> {
        self.to_host_work_rb@
    }

    /// The local network parameters the device was created with.
    pub closed spec fn spec_network(&self) -> RdmaDeviceNetwork {
        self.local_network
    }

    /// Structural invariant: the tables have unique keys and well-formed
    /// queue pairs, and all four rings are well-formed with the configured
    /// depth and slot size.
    pub closed spec fn wf(&self) -> bool {
        &&& self.qp_table.wf()
        &&& self.write_op_ctx_map.wf()
        &&& self.read_op_ctx_map.wf()
        &&& self.ctrl_op_ctx_map.wf()
        &&& forall|k: u64|
            (#[trigger] self.qp_table.spec_get(k)) matches Some(qp) ==> qp.wf() && qp.qpn.val == k
        &&& self.to_card_ctrl_rb.wf() && self.to_card_ctrl_rb.spec_slot_size() == RING_SLOT_SIZE
            && self.to_card_ctrl_rb.spec_depth() == RING_DEPTH
        &&& self.to_host_ctrl_rb.wf() && self.to_host_ctrl_rb.spec_slot_size() == RING_SLOT_SIZE
            && self.to_host_ctrl_rb.spec_depth() == RING_DEPTH
        &&& self.to_card_work_rb.wf() && self.to_card_work_rb.spec_slot_size() == RING_SLOT_SIZE
            && self.to_card_work_rb.spec_depth() == RING_DEPTH
        &&& self.to_host_work_rb.wf() && self.to_host_work_rb.spec_slot_size() == RING_SLOT_SIZE
            && self.to_host_work_rb.spec_depth() == RING_DEPTH
        &&& self.local_network.wf()
    }

    /// Creates a device core for a real-hardware backend: fresh tables and
    /// rings, and the network-parameter command already submitted on the
    /// control ring under operation id 0. The backend that moves ring
    /// contents to the hardware is wired up by the embedder.
    pub fn new_hardware(network: &RdmaDeviceNetwork) -> (r: Result<Device, Error>)
        requires
            network.wf(),
        ensures
            r matches Ok(d) ==> d.wf() && fresh_device_post(d, *network),
            r is Ok,
    {
        Device::new_core(network)
    }

    /// Creates a device core for an in-process software backend: identical
    /// core state; the software packet engine that drains the rings is wired
    /// up by the embedder.
    pub fn new_software(network: &RdmaDeviceNetwork) -> (r: Result<Device, Error>)
        requires
            network.wf(),
        ensures
            r matches Ok(d) ==> d.wf() && fresh_device_post(d, *network),
            r is Ok,
    {
        Device::new_core(network)
    }

    /// Builds the fresh core state and runs initialization.
    fn new_core(network: &RdmaDeviceNetwork) -> (r: Result<Device, Error>)
        requires
            network.wf(),
        ensures
            r matches Ok(d) ==> d.wf() && fresh_device_post(d, *network),
            r is Ok,
    {
        let mut d = Device {
            qp_table: AssocMap::new(),
            write_op_ctx_map: AssocMap::new(),
            read_op_ctx_map: AssocMap::new(),
            ctrl_op_ctx_map: AssocMap::new(),
            next_ctrl_op_id: 0,
            next_msn: 0,
            to_card_ctrl_rb: Ring::new(RING_DEPTH, RING_SLOT_SIZE),
            to_host_ctrl_rb: Ring::new(RING_DEPTH, RING_SLOT_SIZE),
            to_card_work_rb: Ring::new(RING_DEPTH, RING_SLOT_SIZE),
            to_host_work_rb: Ring::new(RING_DEPTH, RING_SLOT_SIZE),
            local_network: *network,
        };
        match d.init() {
            Ok(()) => Ok(d),
            Err(e) => Err(e),
        }
    }

    /// Submits the stored network parameters to the device; completion
    /// arrives later on the control-complete ring.
    fn init(&mut self) -> (r: Result<(), Error>)
        requires
            old(self).wf(),
            old(self).spec_next_ctrl_op_id() == 0,
            old(self).spec_ctrl_ctx(0) is None,
            old(self).spec_ctrl_sq().len() == 0,
        ensures
            final(self).wf(),
            r is Ok,
            final(self).spec_next_ctrl_op_id() == 1,
            final(self).spec_ctrl_ctx(0) matches Some(c) && c.is_running(),
            final(self).spec_ctrl_sq() =~= Seq::<Seq<u8>>::empty().push(
                spec_serialize_ctrl_desc(
                    CtrlDescriptor::SetNetworkParam {
                        op_id: 0,
                        network: old(self).spec_network(),
                    },
                ),
            ),
            final(self).spec_network() == old(self).spec_network(),
            final(self).spec_next_msn() == old(self).spec_next_msn(),
            final(self).spec_work_sq() == old(self).spec_work_sq(),
            final(self).spec_work_cq() == old(self).spec_work_cq(),
            final(self).spec_ctrl_cq() == old(self).spec_ctrl_cq(),
            forall|k: u64| k != 0 ==> final(self).spec_ctrl_ctx(k) == old(self).spec_ctrl_ctx(k),
            forall|k: u64| final(self).spec_qp(k) == old(self).spec_qp(k),
            forall|m: u64| final(self).spec_write_ctx(m) == old(self).spec_write_ctx(m),
            forall|m: u64| final(self).spec_read_ctx(m) == old(self).spec_read_ctx(m),
    {
        let network = self.local_network;
        match self.set_network(&network) {
            Ok(_) => Ok(()),
            Err(e) => Err(e),
        }
    }

    /// Submits a network-parameter command under a fresh operation id, which
    /// it returns; the device's answer is read back by `poll_ctrl_completion`
    /// and resolves the control operation context created here, and
    /// `set_network_result` then maps that outcome to the caller's result.
    pub fn set_network(&mut self, network: &RdmaDeviceNetwork) -> (r: Result<u32, Error>)
        requires
            old(self).wf(),
            network.wf(),
        ensures
            final(self).wf(),
            final(self).spec_next_ctrl_op_id() == ((old(self).spec_next_ctrl_op_id() + 1)
                % 0x1_0000_0000) as u32,
            old(self).spec_ctrl_ctx(old(self).spec_next_ctrl_op_id() as u64) is Some ==> r == Err::<
                u32,
                Error,
            >(Error::OpIdUsed(old(self).spec_next_ctrl_op_id())) && final(self).spec_ctrl_sq()
                == old(self).spec_ctrl_sq() && final(self).spec_ctrl_ctx(
                old(self).spec_next_ctrl_op_id() as u64,
            ) == old(self).spec_ctrl_ctx(old(self).spec_next_ctrl_op_id() as u64),
            old(self).spec_ctrl_ctx(old(self).spec_next_ctrl_op_id() as u64) is None && old(self).spec_ctrl_sq().len() == RING_DEPTH ==> r == Err::<u32, Error>(Error::DeviceBusy) && final(self).spec_ctrl_sq() == old(self).spec_ctrl_sq() && final(self).spec_ctrl_ctx(
                old(self).spec_next_ctrl_op_id() as u64,
            ) is None,
            old(self).spec_ctrl_ctx(old(self).spec_next_ctrl_op_id() as u64) is None && old(self).spec_ctrl_sq().len() < RING_DEPTH ==> r == Ok::<u32, Error>(
                old(self).spec_next_ctrl_op_id(),
            ) && final(self).spec_ctrl_sq() =~= old(self).spec_ctrl_sq().push(
                spec_serialize_ctrl_desc(
                    CtrlDescriptor::SetNetworkParam {
                        op_id: old(self).spec_next_ctrl_op_id(),
                        network: *network,
                    },
                ),
            ) && (final(self).spec_ctrl_ctx(old(self).spec_next_ctrl_op_id() as u64) matches Some(c) && c.is_running()),
            forall|k: u64|
                k != old(self).spec_next_ctrl_op_id() as u64 ==> final(self).spec_ctrl_ctx(k)
                    == old(self).spec_ctrl_ctx(k),
            device_rest_unchanged_ctrl(*old(self), *final(self)),
    {
        let op_id = self.get_ctrl_op_id();
        let desc = CtrlDescriptor::SetNetworkParam { op_id, network: *network };
        match self.do_ctrl_op(op_id, desc) {
            Ok(_) => Ok(op_id),
            Err(e) => Err(e),
        }
    }

    /// Maps a network-parameter command's completion outcome to the caller's
    /// result, once the completion poller has run: `Ok` exactly when the
    /// context under `op_id` resolved with the device's success flag set; a
    /// missing, unresolved or unsuccessful context is
    /// `SetNetworkParamFailed`.
    pub fn set_network_result(&self, op_id: u32) -> (r: Result<(), Error>)
        requires
            self.wf(),
        ensures
            r == (if spec_network_confirmed(self.spec_ctrl_ctx(op_id as u64)) {
                Ok::<(), Error>(())
            } else {
                Err::<(), Error>(Error::SetNetworkParamFailed)
            }),
    {
        match self.ctrl_op_ctx_map.get(op_id as u64) {
            Some(ctx) => match *ctx.status() {
                crate::op_ctx::CtxStatus::Succeeded(flag) => if flag {
                    Ok(())
                } else {
                    Err(Error::SetNetworkParamFailed)
                },
                _ => Err(Error::SetNetworkParamFailed),
            },
            None => Err(Error::SetNetworkParamFailed),
        }
    }

    /// Registers a control operation context under `id` and submits the
    /// command. An id already outstanding is reported as `OpIdUsed` with the
    /// table untouched — the prior context keeps whatever state it reached. A
    /// full control ring is reported as `DeviceBusy` with the operation
    /// considered not submitted: nothing stays registered and the id can be
    /// reused.
    pub fn do_ctrl_op(&mut self, id: u32, desc: CtrlDescriptor) -> (r: Result<CtrlOpCtx, Error>)
        requires
            old(self).wf(),
            desc.wf(),
        ensures
            final(self).wf(),
            forall|k: u64|
                k != id as u64 ==> final(self).spec_ctrl_ctx(k) == old(self).spec_ctrl_ctx(k),
            old(self).spec_ctrl_ctx(id as u64) is Some ==> r == Err::<CtrlOpCtx, Error>(
                Error::OpIdUsed(id),
            ) && final(self).spec_ctrl_sq() == old(self).spec_ctrl_sq() && final(self).spec_ctrl_ctx(id as u64) == old(self).spec_ctrl_ctx(id as u64),
            old(self).spec_ctrl_ctx(id as u64) is None && old(self).spec_ctrl_sq().len()
                == RING_DEPTH ==> r == Err::<CtrlOpCtx, Error>(Error::DeviceBusy) && final(self).spec_ctrl_sq() == old(self).spec_ctrl_sq() && final(self).spec_ctrl_ctx(id as u64) is None,
            old(self).spec_ctrl_ctx(id as u64) is None && old(self).spec_ctrl_sq().len()
                < RING_DEPTH ==> (r matches Ok(c) && c.is_running() && final(self).spec_ctrl_sq()
                =~= old(self).spec_ctrl_sq().push(spec_serialize_ctrl_desc(desc)) && (final(self).spec_ctrl_ctx(id as u64) matches Some(c2) && c2.is_running())),
            final(self).spec_next_ctrl_op_id() == old(self).spec_next_ctrl_op_id(),
            device_rest_unchanged_ctrl(*old(self), *final(self)),
    {
        if self.ctrl_op_ctx_map.contains_key(id as u64) {
            return Err(Error::OpIdUsed(id));
        }
        let ctrl_ctx = CtrlOpCtx::new_running();
        let _ = self.ctrl_op_ctx_map.insert(id as u64, ctrl_ctx);
        match push_ctrl_desc(&mut self.to_card_ctrl_rb, &desc) {
            Ok(()) => Ok(ctrl_ctx),
            Err(_) => {
                let _ = self.ctrl_op_ctx_map.remove(id as u64);
                Err(Error::DeviceBusy)
            },
        }
    }

    /// Hands out the next control operation id, advancing the counter with
    /// wrap-around.
    pub fn get_ctrl_op_id(&mut self) -> (r: u32)
        ensures
            r == old(self).spec_next_ctrl_op_id(),
            final(self).spec_next_ctrl_op_id() == ((old(self).spec_next_ctrl_op_id() + 1)
                % 0x1_0000_0000) as u32,
            counters_only_op_id(*old(self), *final(self)),
    {
        let r = self.next_ctrl_op_id;
        self.next_ctrl_op_id = if r == 0xFFFF_FFFF {
            0
        } else {
            r + 1
        };
        r
    }

    /// Hands out the next message sequence number, advancing the counter with
    /// wrap-around.
    pub fn get_msn(&mut self) -> (r: Msn)
        ensures
            r.val == old(self).spec_next_msn(),
            final(self).spec_next_msn() == ((old(self).spec_next_msn() + 1) % 0x1_0000) as u16,
            counters_only_msn(*old(self), *final(self)),
    {
        let r = self.next_msn;
        self.next_msn = if r == 0xFFFF {
            0
        } else {
            r + 1
        };
        Msn { val: r }
    }

    /// Registers (or replaces) a queue pair in the table, reporting whether
    /// one was there.
    pub fn register_qp(&mut self, qp: QpContext) -> (had: bool)
        requires
            old(self).wf(),
            qp.wf(),
        ensures
            final(self).wf(),
            had == (old(self).spec_qp(qp.qpn.val as u64) is Some),
            final(self).spec_qp(qp.qpn.val as u64) == Some(qp),
            forall|k: u64| k != qp.qpn.val as u64 ==> final(self).spec_qp(k) == old(self).spec_qp(k),
            qp_table_only(*old(self), *final(self)),
    {
        self.qp_table.insert(qp.qpn.val as u64, qp)
    }

    /// Submits one work descriptor on the work-submit ring, as the first
    /// submission and every monitor resend do. A full ring is reported as
    /// `DeviceBusy`, the operation then considered not submitted.
    pub fn send_work_desc(&mut self, desc: &WorkDescriptor) -> (r: Result<(), Error>)
        requires
            old(self).wf(),
            desc.wf(),
        ensures
            final(self).wf(),
            RING_DEPTH - old(self).spec_work_sq().len() < desc.spec_slot_cnt() ==> r == Err::<
                (),
                Error,
            >(Error::DeviceBusy) && final(self).spec_work_sq() == old(self).spec_work_sq(),
            RING_DEPTH - old(self).spec_work_sq().len() >= desc.spec_slot_cnt() ==> r == Ok::<
                (),
                Error,
            >(()) && final(self).spec_work_sq() =~= old(self).spec_work_sq() + spec_desc_slots(
                *desc,
            ),
            device_rest_unchanged_work(*old(self), *final(self)),
            forall|m: u64| final(self).spec_write_ctx(m) == old(self).spec_write_ctx(m),
            forall|m: u64| final(self).spec_read_ctx(m) == old(self).spec_read_ctx(m),
    {
        match push_work_desc(&mut self.to_card_work_rb, desc) {
            Ok(()) => Ok(()),
            Err(_) => Err(Error::DeviceBusy),
        }
    }
    /// Submits a WRITE work request to the destination queue pair: assigns a
    /// message sequence number, claims the packet sequence numbers the
    /// transfer needs, frames the descriptor onto the work-submit ring as one
    /// atomic unit, and registers a `Running` operation context under the
    /// assigned message sequence number. An unregistered queue pair is
    /// `InvalidQpn`; a full ring is `DeviceBusy`; a message sequence number
    /// still outstanding is `CreateOpCtxFailed`.
    pub fn write(
        &mut self,
        dqpn: &Qpn,
        raddr: u64,
        rkey: Key,
        flags: MemAccessTypeFlag,
        sge0: Sge,
        sge1: Option<Sge>,
        sge2: Option<Sge>,
        sge3: Option<Sge>,
    ) -> (r: Result<WriteOpCtx, Error>)
        requires
            old(self).wf(),
            spec_total_len(sge0, sge1, sge2, sge3) <= u32::MAX,
        ensures
            final(self).wf(),
            write_post(
                *old(self),
                *final(self),
                *dqpn,
                raddr,
                rkey,
                flags,
                sge0,
                sge1,
                sge2,
                sge3,
                r,
            ),
    {
        let msn = self.get_msn();
        let qp = match self.qp_table.get(dqpn.val as u64) {
            Some(qp) => qp,
            None => {
                return Err(Error::InvalidQpn);
            },
        };
        let total_len = sge0.len + opt_sge_len(&sge1) + opt_sge_len(&sge2) + opt_sge_len(&sge3);
        let packet_cnt = calculate_packet_cnt(qp.pmtu, raddr, total_len);
        let first_psn = qp.sending_psn;
        let qp2 = QpContext { sending_psn: first_psn.wrapping_add(packet_cnt), ..qp };
        let _ = self.register_qp(qp2);
        let c = compact_sges(sge1, sge2, sge3);
        let desc = WorkDescriptor {
            kind: WorkKind::Write,
            common: WorkDescCommon {
                total_len,
                raddr,
                rkey,
                dqp_ip: qp.dqp_ip,
                dqpn: qp.qpn,
                mac_addr: qp.dqp_mac_addr,
                pmtu: qp.pmtu,
                flags,
                qp_type: qp.qp_type,
                psn: first_psn,
                msn,
            },
            is_first: true,
            is_last: true,
            sge0: DescSge::from(sge0),
            sge1: opt_desc_sge(c.0),
            sge2: opt_desc_sge(c.1),
            sge3: opt_desc_sge(c.2),
        };
        match self.send_work_desc(&desc) {
            Ok(()) => {},
            Err(_) => {
                return Err(Error::DeviceBusy);
            },
        }
        let ctx = WriteOpCtx::new_running();
        let had = self.write_op_ctx_map.insert(msn.val as u64, ctx);
        if had {
            return Err(Error::CreateOpCtxFailed);
        }
        Ok(ctx)
    }

    /// Submits a READ work request to the destination queue pair: one
    /// scatter-gather entry, one packet sequence number claimed, the
    /// descriptor framed onto the work-submit ring, and a `Running` operation
    /// context registered under the assigned message sequence number.
    pub fn read(&mut self, dqpn: Qpn, raddr: u64, rkey: Key, flags: MemAccessTypeFlag, sge: Sge)
        -> (r: Result<ReadOpCtx, Error>)
        requires
            old(self).wf(),
        ensures
            final(self).wf(),
            read_post(*old(self), *final(self), dqpn, raddr, rkey, flags, sge, r),
    {
        let msn = self.get_msn();
        let qp = match self.qp_table.get(dqpn.val as u64) {
            Some(qp) => qp,
            None => {
                return Err(Error::InvalidQpn);
            },
        };
        let total_len = sge.len;
        let first_psn = qp.sending_psn;
        let qp2 = QpContext { sending_psn: first_psn.wrapping_add(1), ..qp };
        let _ = self.register_qp(qp2);
        let desc = WorkDescriptor {
            kind: WorkKind::Read,
            common: WorkDescCommon {
                total_len,
                raddr,
                rkey,
                dqp_ip: qp.dqp_ip,
                dqpn: qp.qpn,
                mac_addr: qp.dqp_mac_addr,
                pmtu: qp.pmtu,
                flags,
                qp_type: qp.qp_type,
                psn: first_psn,
                msn,
            },
            is_first: true,
            is_last: true,
            sge0: DescSge::from(sge),
            sge1: None,
            sge2: None,
            sge3: None,
        };
        match self.send_work_desc(&desc) {
            Ok(()) => {},
            Err(_) => {
                return Err(Error::DeviceBusy);
            },
        }
        let ctx = ReadOpCtx::new_running();
        let had = self.read_op_ctx_map.insert(msn.val as u64, ctx);
        if had {
            return Err(Error::CreateOpCtxFailed);
        }
        Ok(ctx)
    }

    /// Device-side endpoint: consumes the oldest control command from the
    /// control-submit ring.
    pub fn device_pop_ctrl(&mut self) -> (r: Result<CtrlDescriptor, DeviceError>)
        requires
            old(self).wf(),
        ensures
            final(self).wf(),
            old(self).spec_ctrl_sq().len() == 0 ==> r == Err::<CtrlDescriptor, DeviceError>(
                DeviceError::NotAvailable,
            ) && final(self).spec_ctrl_sq() == old(self).spec_ctrl_sq(),
            old(self).spec_ctrl_sq().len() > 0 ==> final(self).spec_ctrl_sq() =~= old(self).spec_ctrl_sq().skip(1) && r == (match spec_parse_ctrl_desc(old(self).spec_ctrl_sq()[0]) {
                Some(c) => Ok::<CtrlDescriptor, DeviceError>(c),
                None => Err::<CtrlDescriptor, DeviceError>(DeviceError::ParseDesc),
            }),
            forall|k: u64| final(self).spec_ctrl_ctx(k) == old(self).spec_ctrl_ctx(k),
            device_rest_unchanged_ctrl(*old(self), *final(self)),
            final(self).spec_next_ctrl_op_id() == old(self).spec_next_ctrl_op_id(),
    {
        pop_ctrl_desc(&mut self.to_card_ctrl_rb)
    }

    /// Device-side endpoint: publishes one control completion on the
    /// control-complete ring.
    pub fn device_push_ctrl_resp(&mut self, resp: &CtrlRespDescriptor) -> (r: Result<
        (),
        DeviceError,
    >)
        requires
            old(self).wf(),
        ensures
            final(self).wf(),
            old(self).spec_ctrl_cq().len() == RING_DEPTH ==> r == Err::<(), DeviceError>(
                DeviceError::Overflow,
            ) && final(self).spec_ctrl_cq() == old(self).spec_ctrl_cq(),
            old(self).spec_ctrl_cq().len() < RING_DEPTH ==> r == Ok::<(), DeviceError>(()) && final(self).spec_ctrl_cq() =~= old(self).spec_ctrl_cq().push(spec_serialize_ctrl_resp(*resp)),
            ctrl_cq_only(*old(self), *final(self)),
    {
        push_ctrl_resp(&mut self.to_host_ctrl_rb, resp)
    }

    /// Device-side endpoint: consumes the oldest work descriptor from the
    /// work-submit ring by two-phase decode.
    pub fn device_pop_work(&mut self) -> (r: Result<WorkDescriptor, DeviceError>)
        requires
            old(self).wf(),
        ensures
            final(self).wf(),
            old(self).spec_work_sq().len() == 0 ==> r == Err::<WorkDescriptor, DeviceError>(
                DeviceError::NotAvailable,
            ) && final(self).spec_work_sq() == old(self).spec_work_sq(),
            r matches Ok(d) ==> d.wf(),
            forall|d: WorkDescriptor|
                #![trigger spec_desc_slots(d)]
                d.wf() && d.spec_slot_cnt() <= old(self).spec_work_sq().len() && old(self).spec_work_sq().subrange(0, d.spec_slot_cnt()) == spec_desc_slots(d) ==> r == Ok::<
                    WorkDescriptor,
                    DeviceError,
                >(d) && final(self).spec_work_sq() =~= old(self).spec_work_sq().skip(
                    d.spec_slot_cnt(),
                ),
            device_rest_unchanged_work(*old(self), *final(self)),
            forall|m: u64| final(self).spec_write_ctx(m) == old(self).spec_write_ctx(m),
            forall|m: u64| final(self).spec_read_ctx(m) == old(self).spec_read_ctx(m),
    {
        pop_work_desc(&mut self.to_card_work_rb)
    }

    /// Device-side endpoint: publishes one completed work descriptor on the
    /// work-complete ring as one atomic unit.
    pub fn device_push_work_completion(&mut self, desc: &WorkDescriptor) -> (r: Result<
        (),
        DeviceError,
    >)
        requires
            old(self).wf(),
            desc.wf(),
        ensures
            final(self).wf(),
            RING_DEPTH - old(self).spec_work_cq().len() < desc.spec_slot_cnt() ==> r == Err::<
                (),
                DeviceError,
            >(DeviceError::Overflow) && final(self).spec_work_cq() == old(self).spec_work_cq(),
            RING_DEPTH - old(self).spec_work_cq().len() >= desc.spec_slot_cnt() ==> r == Ok::<
                (),
                DeviceError,
            >(()) && final(self).spec_work_cq() =~= old(self).spec_work_cq() + spec_desc_slots(
                *desc,
            ),
            work_cq_only(*old(self), *final(self)),
    {
        push_work_desc(&mut self.to_host_work_rb, desc)
    }

    /// Driver-side poller: consumes the oldest completed work descriptor from
    /// the work-complete ring by two-phase decode.
    pub fn poll_work_completion(&mut self) -> (r: Result<WorkDescriptor, DeviceError>)
        requires
            old(self).wf(),
        ensures
            final(self).wf(),
            old(self).spec_work_cq().len() == 0 ==> r == Err::<WorkDescriptor, DeviceError>(
                DeviceError::NotAvailable,
            ) && final(self).spec_work_cq() == old(self).spec_work_cq(),
            r matches Ok(d) ==> d.wf(),
            forall|d: WorkDescriptor|
                #![trigger spec_desc_slots(d)]
                d.wf() && d.spec_slot_cnt() <= old(self).spec_work_cq().len() && old(self).spec_work_cq().subrange(0, d.spec_slot_cnt()) == spec_desc_slots(d) ==> r == Ok::<
                    WorkDescriptor,
                    DeviceError,
                >(d) && final(self).spec_work_cq() =~= old(self).spec_work_cq().skip(
                    d.spec_slot_cnt(),
                ),
            work_cq_only(*old(self), *final(self)),
    {
        pop_work_desc(&mut self.to_host_work_rb)
    }

    /// Resolves the control operation context a completion names: a `Running`
    /// context under the completion's operation id becomes `Succeeded` with
    /// the device's success flag; a missing or already-resolved context
    /// leaves everything as it was, reported by the return value.
    pub fn handle_ctrl_response(&mut self, resp: &CtrlRespDescriptor) -> (resolved: bool)
        requires
            old(self).wf(),
        ensures
            final(self).wf(),
            old(self).spec_ctrl_ctx(resp.op_id as u64) is None ==> !resolved && final(self).spec_ctrl_ctx(resp.op_id as u64) is None,
            old(self).spec_ctrl_ctx(resp.op_id as u64) matches Some(c) ==> (final(self).spec_ctrl_ctx(resp.op_id as u64) matches Some(c2) && c2.spec_status() == (
            if c.is_running() {
                crate::op_ctx::CtxStatus::Succeeded(resp.is_success)
            } else {
                c.spec_status()
            }) && resolved == c.is_running()),
            forall|k: u64|
                k != resp.op_id as u64 ==> final(self).spec_ctrl_ctx(k) == old(self).spec_ctrl_ctx(
                    k,
                ),
            device_rest_unchanged_ctrl(*old(self), *final(self)),
            final(self).spec_ctrl_sq() == old(self).spec_ctrl_sq(),
            final(self).spec_next_ctrl_op_id() == old(self).spec_next_ctrl_op_id(),
    {
        match self.ctrl_op_ctx_map.get(resp.op_id as u64) {
            Some(ctx) => {
                let mut ctx2 = ctx;
                let resolved = ctx2.set_result(resp.is_success);
                let _ = self.ctrl_op_ctx_map.insert(resp.op_id as u64, ctx2);
                resolved
            },
            None => false,
        }
    }

    /// Driver-side poller: reads the oldest control completion from the
    /// control-complete ring and resolves the operation context it names.
    pub fn poll_ctrl_completion(&mut self) -> (r: Result<CtrlRespDescriptor, DeviceError>)
        requires
            old(self).wf(),
        ensures
            final(self).wf(),
            old(self).spec_ctrl_cq().len() == 0 ==> r == Err::<CtrlRespDescriptor, DeviceError>(
                DeviceError::NotAvailable,
            ),
            old(self).spec_ctrl_cq().len() > 0 ==> final(self).spec_ctrl_cq() =~= old(self).spec_ctrl_cq().skip(1) && r == (match spec_parse_ctrl_resp(old(self).spec_ctrl_cq()[0]) {
                Some(c) => Ok::<CtrlRespDescriptor, DeviceError>(c),
                None => Err::<CtrlRespDescriptor, DeviceError>(DeviceError::ParseDesc),
            }),
            r matches Ok(resp) ==> (old(self).spec_ctrl_ctx(resp.op_id as u64) matches Some(c)
                ==> (final(self).spec_ctrl_ctx(resp.op_id as u64) matches Some(c2)
                && c2.spec_status() == (if c.is_running() {
                crate::op_ctx::CtxStatus::Succeeded(resp.is_success)
            } else {
                c.spec_status()
            }))),
            r is Err ==> forall|k: u64|
                final(self).spec_ctrl_ctx(k) == old(self).spec_ctrl_ctx(k),
    {
        let resp = match pop_ctrl_resp(&mut self.to_host_ctrl_rb) {
            Ok(resp) => resp,
            Err(e) => {
                return Err(e);
            },
        };
        let _ = self.handle_ctrl_response(&resp);
        Ok(resp)
    }

    /// Retransmits each monitor-selected descriptor through the work-submit
    /// ring, exactly as the first submission did. A descriptor the ring
    /// cannot take, or one whose fields do not fit their width, is skipped —
    /// a resend failure never stops the monitor, and the budget for it was
    /// already consumed.
    pub fn resend_work_descs(&mut self, resends: &Vec<RetryRecord>)
        requires
            old(self).wf(),
        ensures
            final(self).wf(),
            final(self).spec_work_sq() == spec_resend_all(
                old(self).spec_work_sq(),
                resends@,
            ),
            device_rest_unchanged_work(*old(self), *final(self)),
            forall|m: u64| final(self).spec_write_ctx(m) == old(self).spec_write_ctx(m),
            forall|m: u64| final(self).spec_read_ctx(m) == old(self).spec_read_ctx(m),
    {
        let n = resends.len();
        let mut i: usize = 0;
        while i < n
            invariant
                i <= n,
                n == resends@.len(),
                self.wf(),
                self.spec_work_sq() == spec_resend_all(
                    old(self).spec_work_sq(),
                    resends@.take(i as int),
                ),
                device_rest_unchanged_work(*old(self), *self),
                forall|m: u64| self.spec_write_ctx(m) == old(self).spec_write_ctx(m),
                forall|m: u64| self.spec_read_ctx(m) == old(self).spec_read_ctx(m),
            decreases n - i,
        {
            let record = resends[i];
            proof {
                assert(resends@.take(i + 1) =~= resends@.take(i as int).push(resends@[i as int]));
                lemma_resend_snoc(old(self).spec_work_sq(), resends@.take(i as int), resends@[
                    i as int
                ]);
            }
            if record.descriptor.check_wf() {
                let _ = self.send_work_desc(&record.descriptor);
            }
            i = i + 1;
        }
        proof {
            assert(resends@.take(n as int) =~= resends@);
        }
    }
}

/// The work-submit ring after retransmitting a batch in order: each
/// well-formed descriptor that fits is appended as one unit, the rest are
/// skipped.
pub open spec fn spec_resend_all(ring: Seq<Seq<u8>>, rs: Seq<RetryRecord>) -> Seq<Seq<u8>>
    decreases rs.len(),
{
    if rs.len() == 0 {
        ring
    } else {
        spec_resend_all(spec_resend_one(ring, rs[0]), rs.skip(1))
    }
}

/// The work-submit ring after one retransmission attempt.
pub open spec fn spec_resend_one(ring: Seq<Seq<u8>>, r: RetryRecord) -> Seq<Seq<u8>> {
    if r.descriptor.wf() && RING_DEPTH - ring.len() >= r.descriptor.spec_slot_cnt() {
        ring + spec_desc_slots(r.descriptor)
    } else {
        ring
    }
}

/// Retransmission of a batch distributes over appending one record.
proof fn lemma_resend_snoc(ring: Seq<Seq<u8>>, rs: Seq<RetryRecord>, r: RetryRecord)
    ensures
        spec_resend_all(ring, rs.push(r)) == spec_resend_one(spec_resend_all(ring, rs), r),
    decreases rs.len(),
{
    if rs.len() == 0 {
        assert(rs.push(r)[0] == r);
        assert(rs.push(r).skip(1) =~= Seq::<RetryRecord>::empty());
        assert(spec_resend_all(ring, rs) == ring);
        assert(spec_resend_all(ring, rs.push(r)) == spec_resend_all(
            spec_resend_one(ring, r),
            rs.push(r).skip(1),
        ));
        assert(spec_resend_all(spec_resend_one(ring, r), rs.push(r).skip(1)) == spec_resend_one(
            ring,
            r,
        ));
    } else {
        assert(rs.push(r)[0] == rs[0]);
        assert(rs.push(r).skip(1) =~= rs.skip(1).push(r));
        lemma_resend_snoc(spec_resend_one(ring, rs[0]), rs.skip(1), r);
        assert(spec_resend_all(ring, rs.push(r)) == spec_resend_all(
            spec_resend_one(ring, rs[0]),
            rs.skip(1).push(r),
        ));
        assert(spec_resend_all(ring, rs) == spec_resend_all(
            spec_resend_one(ring, rs[0]),
            rs.skip(1),
        ));
    }
}

/// Whether a control operation context has resolved with the device's
/// success flag set.
pub open spec fn spec_network_confirmed(c: Option<CtrlOpCtx>) -> bool {
    match c {
        Some(ctx) => ctx.spec_status() == crate::op_ctx::CtxStatus::Succeeded(true),
        None => false,
    }
}

/// The canonical reason the retry monitor resolves an operation as failed.
pub open spec fn spec_exhaust_reason() -> &'static str {
    "exceed max retry count"
}

/// The key an operation context is shared under: queue pair number and
/// message sequence number, packed.
pub open spec fn spec_op_key(qpn: Qpn, msn: Msn) -> u64 {
    (qpn.val * 0x1_0000 + msn.val) as u64
}

/// Packs an operation identity into its table key.
pub fn op_key(qpn: Qpn, msn: Msn) -> (r: u64)
    ensures
        r == spec_op_key(qpn, msn),
{
    (qpn.val as u64) * 0x1_0000 + (msn.val as u64)
}

/// Whether some failure in the batch names the key.
pub open spec fn spec_key_in_failures(fails: Seq<(Qpn, Msn)>, k: u64) -> bool {
    exists|j: int| 0 <= j < fails.len() && spec_op_key((#[trigger] fails[j]).0, fails[j].1) == k
}

/// The status an operation context has after the monitor resolves its
/// identity as exhausted: a running context fails with the canonical reason;
/// a context already resolved elsewhere is left alone.
pub open spec fn spec_exhausted_status(s: crate::op_ctx::CtxStatus<()>) -> crate::op_ctx::CtxStatus<
    (),
> {
    if s is Running {
        crate::op_ctx::CtxStatus::Failed(spec_exhaust_reason())
    } else {
        s
    }
}

/// Resolves every operation context whose identity the monitor reported as
/// having exceeded its retry budget: a waiting (`Running`) context becomes
/// `Failed` with reason "exceed max retry count"; an identity with no waiting
/// context — already resolved elsewhere — is skipped; every other context is
/// untouched.
pub fn resolve_exhausted(map: &mut AssocMap<WriteOpCtx>, failures: &Vec<(Qpn, Msn)>)
    requires
        old(map).wf(),
    ensures
        final(map).wf(),
        forall|k: u64|
            #![trigger final(map).spec_get(k)]
            match old(map).spec_get(k) {
                Option::None => final(map).spec_get(k) is None,
                Option::Some(c) => final(map).spec_get(k) matches Some(c2) && c2.spec_status()
                    == (if spec_key_in_failures(failures@, k) {
                    spec_exhausted_status(c.spec_status())
                } else {
                    c.spec_status()
                }),
            },
{
    let n = failures.len();
    let mut i: usize = 0;
    while i < n
        invariant
            i <= n,
            n == failures@.len(),
            map.wf(),
            forall|k: u64|
                #![trigger map.spec_get(k)]
                match old(map).spec_get(k) {
                    Option::None => map.spec_get(k) is None,
                    Option::Some(c) => map.spec_get(k) matches Some(c2) && c2.spec_status() == (
                    if spec_key_in_failures(failures@.take(i as int), k) {
                        spec_exhausted_status(c.spec_status())
                    } else {
                        c.spec_status()
                    }),
                },
        decreases n - i,
    {
        let (qpn, msn) = failures[i];
        let k = op_key(qpn, msn);
        proof {
            assert forall|k2: u64|
                spec_key_in_failures(failures@.take(i + 1), k2) <==> (spec_key_in_failures(
                    failures@.take(i as int),
                    k2,
                ) || k2 == spec_op_key(failures@[i as int].0, failures@[i as int].1)) by {
                if spec_key_in_failures(failures@.take(i + 1), k2) {
                    let j = choose|j: int|
                        0 <= j < failures@.take(i + 1).len() && spec_op_key(
                            (#[trigger] failures@.take(i + 1)[j]).0,
                            failures@.take(i + 1)[j].1,
                        ) == k2;
                    if j < i {
                        assert(failures@.take(i as int)[j] == failures@.take(i + 1)[j]);
                    } else {
                        assert(failures@.take(i + 1)[j] == failures@[i as int]);
                    }
                }
                if spec_key_in_failures(failures@.take(i as int), k2) {
                    let j = choose|j: int|
                        0 <= j < failures@.take(i as int).len() && spec_op_key(
                            (#[trigger] failures@.take(i as int)[j]).0,
                            failures@.take(i as int)[j].1,
                        ) == k2;
                    assert(failures@.take(i + 1)[j] == failures@.take(i as int)[j]);
                }
                if k2 == spec_op_key(failures@[i as int].0, failures@[i as int].1) {
                    assert(failures@.take(i + 1)[i as int] == failures@[i as int]);
                }
            }
        }
        match map.get(k) {
            Some(ctx) => {
                let mut ctx2 = ctx;
                let _ = ctx2.set_error("exceed max retry count");
                let _ = map.insert(k, ctx2);
            },
            None => {},
        }
        i = i + 1;
    }
    proof {
        assert(failures@.take(n as int) =~= failures@);
    }
}

/// Everything but the control-complete ring is unchanged.
pub open spec fn ctrl_cq_only(pre: Device, post: Device) -> bool {
    &&& post.spec_network() == pre.spec_network()
    &&& post.spec_next_msn() == pre.spec_next_msn()
    &&& post.spec_next_ctrl_op_id() == pre.spec_next_ctrl_op_id()
    &&& post.spec_ctrl_sq() == pre.spec_ctrl_sq()
    &&& post.spec_work_sq() == pre.spec_work_sq()
    &&& post.spec_work_cq() == pre.spec_work_cq()
    &&& forall|k: u64| post.spec_qp(k) == pre.spec_qp(k)
    &&& forall|m: u64| post.spec_write_ctx(m) == pre.spec_write_ctx(m)
    &&& forall|m: u64| post.spec_read_ctx(m) == pre.spec_read_ctx(m)
    &&& forall|k: u64| post.spec_ctrl_ctx(k) == pre.spec_ctrl_ctx(k)
}

/// Everything but the work-complete ring is unchanged.
pub open spec fn work_cq_only(pre: Device, post: Device) -> bool {
    &&& post.spec_network() == pre.spec_network()
    &&& post.spec_next_msn() == pre.spec_next_msn()
    &&& post.spec_next_ctrl_op_id() == pre.spec_next_ctrl_op_id()
    &&& post.spec_ctrl_sq() == pre.spec_ctrl_sq()
    &&& post.spec_ctrl_cq() == pre.spec_ctrl_cq()
    &&& post.spec_work_sq() == pre.spec_work_sq()
    &&& forall|k: u64| post.spec_qp(k) == pre.spec_qp(k)
    &&& forall|m: u64| post.spec_write_ctx(m) == pre.spec_write_ctx(m)
    &&& forall|m: u64| post.spec_read_ctx(m) == pre.spec_read_ctx(m)
    &&& forall|k: u64| post.spec_ctrl_ctx(k) == pre.spec_ctrl_ctx(k)
}

/// What `write` does, in full: the message sequence number advances; on an
/// unregistered queue pair everything else is untouched and `InvalidQpn`
/// comes back; otherwise the queue pair's sending counter is advanced by the
/// packet count, and the descriptor lands on the work-submit ring with a
/// fresh `Running` context registered, unless the ring is full (`DeviceBusy`)
/// or the message sequence number is still outstanding
/// (`CreateOpCtxFailed`).
pub open spec fn write_post(
    pre: Device,
    post: Device,
    dqpn: Qpn,
    raddr: u64,
    rkey: Key,
    flags: MemAccessTypeFlag,
    sge0: Sge,
    sge1: Option<Sge>,
    sge2: Option<Sge>,
    sge3: Option<Sge>,
    r: Result<WriteOpCtx, Error>,
) -> bool {
    let msn = Msn { val: pre.spec_next_msn() };
    let total_len = spec_total_len(sge0, sge1, sge2, sge3) as u32;
    &&& post.spec_next_msn() == ((pre.spec_next_msn() + 1) % 0x1_0000) as u16
    &&& post.spec_network() == pre.spec_network()
    &&& post.spec_next_ctrl_op_id() == pre.spec_next_ctrl_op_id()
    &&& post.spec_ctrl_sq() == pre.spec_ctrl_sq()
    &&& post.spec_ctrl_cq() == pre.spec_ctrl_cq()
    &&& post.spec_work_cq() == pre.spec_work_cq()
    &&& (forall|k: u64| post.spec_ctrl_ctx(k) == pre.spec_ctrl_ctx(k))
    &&& (forall|m: u64| post.spec_read_ctx(m) == pre.spec_read_ctx(m))
    &&& match pre.spec_qp(dqpn.val as u64) {
        None => {
            &&& r == Err::<WriteOpCtx, Error>(Error::InvalidQpn)
            &&& (forall|k: u64| post.spec_qp(k) == pre.spec_qp(k))
            &&& post.spec_work_sq() == pre.spec_work_sq()
            &&& (forall|m: u64| post.spec_write_ctx(m) == pre.spec_write_ctx(m))
        },
        Some(qp) => {
            let cnt = spec_packet_cnt(qp.pmtu, raddr, total_len);
            let d = spec_work_desc(
                WorkKind::Write,
                qp,
                msn,
                qp.sending_psn,
                raddr,
                rkey,
                flags,
                total_len,
                sge0,
                sge1,
                sge2,
                sge3,
            );
            &&& (post.spec_qp(dqpn.val as u64) matches Some(qp2) && qp2 == QpContext {
                sending_psn: Psn { val: ((qp.sending_psn.val + cnt) % 0x100_0000) as u32 },
                ..qp
            })
            &&& (forall|k: u64| k != dqpn.val as u64 ==> post.spec_qp(k) == pre.spec_qp(k))
            &&& if RING_DEPTH - pre.spec_work_sq().len() < d.spec_slot_cnt() {
                &&& r == Err::<WriteOpCtx, Error>(Error::DeviceBusy)
                &&& post.spec_work_sq() == pre.spec_work_sq()
                &&& (forall|m: u64| post.spec_write_ctx(m) == pre.spec_write_ctx(m))
            } else {
                &&& post.spec_work_sq() == pre.spec_work_sq() + spec_desc_slots(d)
                &&& (post.spec_write_ctx(msn.val as u64) matches Some(c) && c.is_running())
                &&& (forall|m: u64|
                    m != msn.val as u64 ==> post.spec_write_ctx(m) == pre.spec_write_ctx(m))
                &&& if pre.spec_write_ctx(msn.val as u64) is Some {
                    r == Err::<WriteOpCtx, Error>(Error::CreateOpCtxFailed)
                } else {
                    r matches Ok(c) && c.is_running()
                }
            }
        },
    }
}

/// What `read` does, in full: like `write`, with a single scatter-gather
/// entry, one packet sequence number claimed, and the context registered in
/// the read table.
pub open spec fn read_post(
    pre: Device,
    post: Device,
    dqpn: Qpn,
    raddr: u64,
    rkey: Key,
    flags: MemAccessTypeFlag,
    sge: Sge,
    r: Result<ReadOpCtx, Error>,
) -> bool {
    let msn = Msn { val: pre.spec_next_msn() };
    &&& post.spec_next_msn() == ((pre.spec_next_msn() + 1) % 0x1_0000) as u16
    &&& post.spec_network() == pre.spec_network()
    &&& post.spec_next_ctrl_op_id() == pre.spec_next_ctrl_op_id()
    &&& post.spec_ctrl_sq() == pre.spec_ctrl_sq()
    &&& post.spec_ctrl_cq() == pre.spec_ctrl_cq()
    &&& post.spec_work_cq() == pre.spec_work_cq()
    &&& (forall|k: u64| post.spec_ctrl_ctx(k) == pre.spec_ctrl_ctx(k))
    &&& (forall|m: u64| post.spec_write_ctx(m) == pre.spec_write_ctx(m))
    &&& match pre.spec_qp(dqpn.val as u64) {
        None => {
            &&& r == Err::<ReadOpCtx, Error>(Error::InvalidQpn)
            &&& (forall|k: u64| post.spec_qp(k) == pre.spec_qp(k))
            &&& post.spec_work_sq() == pre.spec_work_sq()
            &&& (forall|m: u64| post.spec_read_ctx(m) == pre.spec_read_ctx(m))
        },
        Some(qp) => {
            let d = spec_work_desc(
                WorkKind::Read,
                qp,
                msn,
                qp.sending_psn,
                raddr,
                rkey,
                flags,
                sge.len,
                sge,
                None,
                None,
                None,
            );
            &&& (post.spec_qp(dqpn.val as u64) matches Some(qp2) && qp2 == QpContext {
                sending_psn: Psn { val: ((qp.sending_psn.val + 1) % 0x100_0000) as u32 },
                ..qp
            })
            &&& (forall|k: u64| k != dqpn.val as u64 ==> post.spec_qp(k) == pre.spec_qp(k))
            &&& if RING_DEPTH - pre.spec_work_sq().len() < d.spec_slot_cnt() {
                &&& r == Err::<ReadOpCtx, Error>(Error::DeviceBusy)
                &&& post.spec_work_sq() == pre.spec_work_sq()
                &&& (forall|m: u64| post.spec_read_ctx(m) == pre.spec_read_ctx(m))
            } else {
                &&& post.spec_work_sq() == pre.spec_work_sq() + spec_desc_slots(d)
                &&& (post.spec_read_ctx(msn.val as u64) matches Some(c) && c.is_running())
                &&& (forall|m: u64|
                    m != msn.val as u64 ==> post.spec_read_ctx(m) == pre.spec_read_ctx(m))
                &&& if pre.spec_read_ctx(msn.val as u64) is Some {
                    r == Err::<ReadOpCtx, Error>(Error::CreateOpCtxFailed)
                } else {
                    r matches Ok(c) && c.is_running()
                }
            }
        },
    }
}

/// Length contributed by an optional scatter-gather entry.
fn opt_sge_len(s: &Option<Sge>) -> (r: u32)
    ensures
        r as int == spec_opt_sge_len(*s),
{
    match s {
        Some(x) => x.len,
        None => 0,
    }
}

/// Everything but the control-submit ring and the control context table is
/// unchanged.
pub open spec fn device_rest_unchanged_ctrl(pre: Device, post: Device) -> bool {
    &&& post.spec_network() == pre.spec_network()
    &&& post.spec_next_msn() == pre.spec_next_msn()
    &&& post.spec_work_sq() == pre.spec_work_sq()
    &&& post.spec_work_cq() == pre.spec_work_cq()
    &&& post.spec_ctrl_cq() == pre.spec_ctrl_cq()
    &&& forall|k: u64| post.spec_qp(k) == pre.spec_qp(k)
    &&& forall|m: u64| post.spec_write_ctx(m) == pre.spec_write_ctx(m)
    &&& forall|m: u64| post.spec_read_ctx(m) == pre.spec_read_ctx(m)
}

/// Everything but the work-submit ring (and possibly the operation context
/// tables) is unchanged.
pub open spec fn device_rest_unchanged_work(pre: Device, post: Device) -> bool {
    &&& post.spec_network() == pre.spec_network()
    &&& post.spec_next_msn() == pre.spec_next_msn()
    &&& post.spec_next_ctrl_op_id() == pre.spec_next_ctrl_op_id()
    &&& post.spec_ctrl_sq() == pre.spec_ctrl_sq()
    &&& post.spec_ctrl_cq() == pre.spec_ctrl_cq()
    &&& post.spec_work_cq() == pre.spec_work_cq()
    &&& forall|k: u64| post.spec_qp(k) == pre.spec_qp(k)
    &&& forall|k: u64| post.spec_ctrl_ctx(k) == pre.spec_ctrl_ctx(k)
}

/// Only the control-operation-id counter changed.
pub open spec fn counters_only_op_id(pre: Device, post: Device) -> bool {
    &&& post.spec_network() == pre.spec_network()
    &&& post.spec_next_msn() == pre.spec_next_msn()
    &&& post.spec_ctrl_sq() == pre.spec_ctrl_sq()
    &&& post.spec_ctrl_cq() == pre.spec_ctrl_cq()
    &&& post.spec_work_sq() == pre.spec_work_sq()
    &&& post.spec_work_cq() == pre.spec_work_cq()
    &&& forall|k: u64| post.spec_qp(k) == pre.spec_qp(k)
    &&& forall|m: u64| post.spec_write_ctx(m) == pre.spec_write_ctx(m)
    &&& forall|m: u64| post.spec_read_ctx(m) == pre.spec_read_ctx(m)
    &&& forall|k: u64| post.spec_ctrl_ctx(k) == pre.spec_ctrl_ctx(k)
    &&& post.wf() == pre.wf()
}

/// Only the message-sequence-number counter changed.
pub open spec fn counters_only_msn(pre: Device, post: Device) -> bool {
    &&& post.spec_network() == pre.spec_network()
    &&& post.spec_next_ctrl_op_id() == pre.spec_next_ctrl_op_id()
    &&& post.spec_ctrl_sq() == pre.spec_ctrl_sq()
    &&& post.spec_ctrl_cq() == pre.spec_ctrl_cq()
    &&& post.spec_work_sq() == pre.spec_work_sq()
    &&& post.spec_work_cq() == pre.spec_work_cq()
    &&& forall|k: u64| post.spec_qp(k) == pre.spec_qp(k)
    &&& forall|m: u64| post.spec_write_ctx(m) == pre.spec_write_ctx(m)
    &&& forall|m: u64| post.spec_read_ctx(m) == pre.spec_read_ctx(m)
    &&& forall|k: u64| post.spec_ctrl_ctx(k) == pre.spec_ctrl_ctx(k)
    &&& post.wf() == pre.wf()
}

/// Only the queue-pair table changed.
pub open spec fn qp_table_only(pre: Device, post: Device) -> bool {
    &&& post.spec_network() == pre.spec_network()
    &&& post.spec_next_msn() == pre.spec_next_msn()
    &&& post.spec_next_ctrl_op_id() == pre.spec_next_ctrl_op_id()
    &&& post.spec_ctrl_sq() == pre.spec_ctrl_sq()
    &&& post.spec_ctrl_cq() == pre.spec_ctrl_cq()
    &&& post.spec_work_sq() == pre.spec_work_sq()
    &&& post.spec_work_cq() == pre.spec_work_cq()
    &&& forall|m: u64| post.spec_write_ctx(m) == pre.spec_write_ctx(m)
    &&& forall|m: u64| post.spec_read_ctx(m) == pre.spec_read_ctx(m)
    &&& forall|k: u64| post.spec_ctrl_ctx(k) == pre.spec_ctrl_ctx(k)
}

/// A freshly created device: empty tables, counters past the initialization
/// command, the network-parameter command pending on the control-submit ring.
pub open spec fn fresh_device_post(d: Device, network: RdmaDeviceNetwork) -> bool {
    &&& d.spec_network() == network
    &&& d.spec_next_msn() == 0
    &&& d.spec_next_ctrl_op_id() == 1
    &&& d.spec_ctrl_ctx(0) matches Some(c) && c.is_running()
    &&& forall|k: u64| k != 0 ==> d.spec_ctrl_ctx(k) is None
    &&& forall|k: u64| d.spec_qp(k) is None
    &&& forall|m: u64| d.spec_write_ctx(m) is None
    &&& forall|m: u64| d.spec_read_ctx(m) is None
    &&& d.spec_ctrl_sq() == Seq::<Seq<u8>>::empty().push(
        spec_serialize_ctrl_desc(CtrlDescriptor::SetNetworkParam { op_id: 0, network }),
    )
    &&& d.spec_ctrl_cq().len() == 0
    &&& d.spec_work_sq().len() == 0
    &&& d.spec_work_cq().len() == 0
}

} // verus!
