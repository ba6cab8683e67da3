//! Control descriptors and their one-slot codec.
//!
//! A control descriptor carries a control-plane command to the device in
//! exactly one ring slot, identified by a driver-assigned 32-bit operation
//! id; the device answers on the completion ring with a one-slot response
//! naming the same id and whether the command succeeded.

use vstd::bytes::lemma_auto_spec_u32_to_from_le_bytes;
use vstd::bytes::lemma_auto_spec_u64_to_from_le_bytes;
use vstd::bytes::spec_u32_to_le_bytes;
use vstd::bytes::spec_u32_from_le_bytes;
use vstd::bytes::spec_u64_to_le_bytes;
use vstd::bytes::spec_u64_from_le_bytes;
use vstd::bytes::u32_to_le_bytes;
use vstd::bytes::u32_from_le_bytes;
use vstd::bytes::u64_to_le_bytes;
use vstd::bytes::u64_from_le_bytes;
use vstd::prelude::*;
use vstd::slice::slice_subrange;

use crate::desc::all_zero_range;
use crate::desc::zero_bytes;
use crate::ring::Ring;
use crate::types::DeviceError;
use crate::types::RdmaDeviceNetwork;

verus! {

/// A control-plane command, serialized to exactly one slot.
#[derive(Clone, Copy, Debug, PartialEq, Eq, Structural)]
pub enum CtrlDescriptor {
    /// Writes the local network parameters to the device.
    SetNetworkParam { op_id: u32, network: RdmaDeviceNetwork },
}

impl CtrlDescriptor {
    /// The operation id the command is tracked under.
    pub open spec fn spec_op_id(self) -> u32 {
        match self {
            CtrlDescriptor::SetNetworkParam { op_id, .. } => op_id,
        }
    }

    /// Validity: the 48-bit fields fit their width.
    pub open spec fn wf(self) -> bool {
        match self {
            CtrlDescriptor::SetNetworkParam { network, .. } => network.wf(),
        }
    }
}

/// A control-plane completion read back from the device.
#[derive(Clone, Copy, Debug, PartialEq, Eq, Structural)]
pub struct CtrlRespDescriptor {
    pub op_id: u32,
    pub is_success: bool,
}

/// The serialized one-slot form of a control command.
pub open spec fn spec_serialize_ctrl_desc(c: CtrlDescriptor) -> Seq<u8> {
    match c {
        CtrlDescriptor::SetNetworkParam { op_id, network } => seq![0u8, 0u8, 0u8, 0u8]
            + spec_u32_to_le_bytes(op_id) + spec_u32_to_le_bytes(network.gateway)
            + spec_u32_to_le_bytes(network.netmask) + spec_u32_to_le_bytes(network.ipaddr)
            + spec_u64_to_le_bytes(network.macaddr) + zero_bytes(4),
    }
}

/// Whether a slot is a valid serialized control command.
pub open spec fn spec_ctrl_desc_valid(b: Seq<u8>) -> bool {
    &&& b.len() == 32
    &&& b[0] == 0 && b[1] == 0 && b[2] == 0 && b[3] == 0
    &&& spec_u64_from_le_bytes(b.subrange(20, 28)) < 0x1_0000_0000_0000
    &&& b.subrange(28, 32) == zero_bytes(4)
}

/// The control command a valid slot denotes.
pub open spec fn spec_ctrl_desc_of(b: Seq<u8>) -> CtrlDescriptor {
    CtrlDescriptor::SetNetworkParam {
        op_id: spec_u32_from_le_bytes(b.subrange(4, 8)),
        network: RdmaDeviceNetwork {
            gateway: spec_u32_from_le_bytes(b.subrange(8, 12)),
            netmask: spec_u32_from_le_bytes(b.subrange(12, 16)),
            ipaddr: spec_u32_from_le_bytes(b.subrange(16, 20)),
            macaddr: spec_u64_from_le_bytes(b.subrange(20, 28)),
        },
    }
}

/// Total parse of one slot into a control command.
pub open spec fn spec_parse_ctrl_desc(b: Seq<u8>) -> Option<CtrlDescriptor> {
    if spec_ctrl_desc_valid(b) {
        Some(spec_ctrl_desc_of(b))
    } else {
        None
    }
}

/// Serializes a control command to its slot form.
pub fn serialize_ctrl_desc(c: &CtrlDescriptor) -> (r: Vec<u8>)
    ensures
        r@ == spec_serialize_ctrl_desc(*c),
        r@.len() == 32,
{
    proof {
        lemma_auto_spec_u32_to_from_le_bytes();
        lemma_auto_spec_u64_to_from_le_bytes();
    }
    match c {
        CtrlDescriptor::SetNetworkParam { op_id, network } => {
            let mut buf: Vec<u8> = Vec::new();
            buf.push(0u8);
            buf.push(0u8);
            buf.push(0u8);
            buf.push(0u8);
            let mut piece = u32_to_le_bytes(*op_id);
            buf.append(&mut piece);
            let mut piece = u32_to_le_bytes(network.gateway);
            buf.append(&mut piece);
            let mut piece = u32_to_le_bytes(network.netmask);
            buf.append(&mut piece);
            let mut piece = u32_to_le_bytes(network.ipaddr);
            buf.append(&mut piece);
            let mut piece = u64_to_le_bytes(network.macaddr);
            buf.append(&mut piece);
            buf.push(0u8);
            buf.push(0u8);
            buf.push(0u8);
            buf.push(0u8);
            assert(buf@ =~= spec_serialize_ctrl_desc(*c));
            buf
        },
    }
}

/// Parses one slot into a control command; `None` exactly where the slot is
/// not a valid serialized command.
pub fn parse_ctrl_desc(b: &Vec<u8>) -> (r: Option<CtrlDescriptor>)
    ensures
        r == spec_parse_ctrl_desc(b@),
        r matches Some(c) ==> c.wf(),
{
    if b.len() != 32 {
        return None;
    }
    if !(b[0] == 0 && b[1] == 0 && b[2] == 0 && b[3] == 0) {
        return None;
    }
    let mac = u64_from_le_bytes(slice_subrange(b.as_slice(), 20, 28));
    if mac >= 0x1_0000_0000_0000 {
        return None;
    }
    if !all_zero_range(b, 28, 32) {
        return None;
    }
    let op_id = u32_from_le_bytes(slice_subrange(b.as_slice(), 4, 8));
    let gateway = u32_from_le_bytes(slice_subrange(b.as_slice(), 8, 12));
    let netmask = u32_from_le_bytes(slice_subrange(b.as_slice(), 12, 16));
    let ipaddr = u32_from_le_bytes(slice_subrange(b.as_slice(), 16, 20));
    Some(
        CtrlDescriptor::SetNetworkParam {
            op_id,
            network: RdmaDeviceNetwork { gateway, netmask, ipaddr, macaddr: mac },
        },
    )
}

/// Law: a control command written to its slot form and read back reproduces
/// every field identically.
pub proof fn lemma_ctrl_desc_round_trip(c: CtrlDescriptor)
    requires
        c.wf(),
    ensures
        spec_parse_ctrl_desc(spec_serialize_ctrl_desc(c)) == Some(c),
{
    lemma_auto_spec_u32_to_from_le_bytes();
    lemma_auto_spec_u64_to_from_le_bytes();
    let b = spec_serialize_ctrl_desc(c);
    match c {
        CtrlDescriptor::SetNetworkParam { op_id, network } => {
            assert(b.subrange(4, 8) =~= spec_u32_to_le_bytes(op_id));
            assert(b.subrange(8, 12) =~= spec_u32_to_le_bytes(network.gateway));
            assert(b.subrange(12, 16) =~= spec_u32_to_le_bytes(network.netmask));
            assert(b.subrange(16, 20) =~= spec_u32_to_le_bytes(network.ipaddr));
            assert(b.subrange(20, 28) =~= spec_u64_to_le_bytes(network.macaddr));
            assert(b.subrange(28, 32) =~= zero_bytes(4));
            assert(spec_ctrl_desc_valid(b));
            assert(spec_ctrl_desc_of(b) == c);
        },
    }
}

/// The serialized one-slot form of a control completion.
pub open spec fn spec_serialize_ctrl_resp(c: CtrlRespDescriptor) -> Seq<u8> {
    seq![
        0u8,
        if c.is_success {
            1u8
        } else {
            0u8
        },
        0u8,
        0u8,
    ] + spec_u32_to_le_bytes(c.op_id) + zero_bytes(24)
}

/// Whether a slot is a valid serialized control completion.
pub open spec fn spec_ctrl_resp_valid(b: Seq<u8>) -> bool {
    &&& b.len() == 32
    &&& b[0] == 0
    &&& (b[1] == 0 || b[1] == 1)
    &&& b[2] == 0 && b[3] == 0
    &&& b.subrange(8, 32) == zero_bytes(24)
}

/// The control completion a valid slot denotes.
pub open spec fn spec_ctrl_resp_of(b: Seq<u8>) -> CtrlRespDescriptor {
    CtrlRespDescriptor { op_id: spec_u32_from_le_bytes(b.subrange(4, 8)), is_success: b[1] == 1 }
}

/// Total parse of one slot into a control completion.
pub open spec fn spec_parse_ctrl_resp(b: Seq<u8>) -> Option<CtrlRespDescriptor> {
    if spec_ctrl_resp_valid(b) {
        Some(spec_ctrl_resp_of(b))
    } else {
        None
    }
}

/// Serializes a control completion to its slot form.
pub fn serialize_ctrl_resp(c: &CtrlRespDescriptor) -> (r: Vec<u8>)
    ensures
        r@ == spec_serialize_ctrl_resp(*c),
        r@.len() == 32,
{
    proof {
        lemma_auto_spec_u32_to_from_le_bytes();
    }
    let mut buf: Vec<u8> = Vec::new();
    buf.push(0u8);
    buf.push(
        if c.is_success {
            1u8
        } else {
            0u8
        },
    );
    buf.push(0u8);
    buf.push(0u8);
    let mut piece = u32_to_le_bytes(c.op_id);
    buf.append(&mut piece);
    let mut i: usize = 0;
    while i < 24
        invariant
            i <= 24,
            buf@ =~= spec_serialize_ctrl_resp(*c).subrange(0, 8 + i as int),
            buf@.len() == 8 + i,
        decreases 24 - i,
    {
        proof {
            lemma_auto_spec_u32_to_from_le_bytes();
            assert(spec_serialize_ctrl_resp(*c).subrange(0, 8 + (i + 1) as int) =~= spec_serialize_ctrl_resp(
                *c,
            ).subrange(0, 8 + i as int).push(0u8));
        }
        buf.push(0u8);
        i = i + 1;
    }
    proof {
        lemma_auto_spec_u32_to_from_le_bytes();
        assert(buf@ =~= spec_serialize_ctrl_resp(*c));
    }
    buf
}

/// Parses one slot into a control completion; `None` exactly where the slot
/// is not a valid serialized completion.
pub fn parse_ctrl_resp(b: &Vec<u8>) -> (r: Option<CtrlRespDescriptor>)
    ensures
        r == spec_parse_ctrl_resp(b@),
{
    if b.len() != 32 {
        return None;
    }
    if !(b[0] == 0 && (b[1] == 0 || b[1] == 1) && b[2] == 0 && b[3] == 0) {
        return None;
    }
    if !all_zero_range(b, 8, 32) {
        return None;
    }
    let op_id = u32_from_le_bytes(slice_subrange(b.as_slice(), 4, 8));
    Some(CtrlRespDescriptor { op_id, is_success: b[1] == 1 })
}

/// Law: a control completion written to its slot form and read back
/// reproduces both fields.
pub proof fn lemma_ctrl_resp_round_trip(c: CtrlRespDescriptor)
    ensures
        spec_parse_ctrl_resp(spec_serialize_ctrl_resp(c)) == Some(c),
{
    lemma_auto_spec_u32_to_from_le_bytes();
    let b = spec_serialize_ctrl_resp(c);
    assert(b.subrange(4, 8) =~= spec_u32_to_le_bytes(c.op_id));
    assert(b.subrange(8, 32) =~= zero_bytes(24));
    assert(spec_ctrl_resp_valid(b));
    assert(spec_ctrl_resp_of(b) == c);
}

/// Writes one control command into a submission ring, or reports `Overflow`
/// without storing anything when the ring is full.
pub fn push_ctrl_desc(ring: &mut Ring, c: &CtrlDescriptor) -> (r: Result<(), DeviceError>)
    requires
        old(ring).wf(),
        old(ring).spec_slot_size() == 32,
        c.wf(),
    ensures
        final(ring).wf(),
        final(ring).spec_depth() == old(ring).spec_depth(),
        final(ring).spec_slot_size() == old(ring).spec_slot_size(),
        old(ring)@.len() == old(ring).spec_depth() ==> r == Err::<(), DeviceError>(
            DeviceError::Overflow,
        ) && final(ring)@ == old(ring)@,
        old(ring)@.len() < old(ring).spec_depth() ==> r == Ok::<(), DeviceError>(()) && final(ring)@ =~= old(ring)@.push(spec_serialize_ctrl_desc(*c)),
{
    let slot = serialize_ctrl_desc(c);
    ring.push_slot(slot)
}

/// Reads and consumes one control command from a submission ring: the oldest
/// slot, parsed; `NotAvailable` on an empty ring, `ParseDesc` when the slot
/// does not parse.
pub fn pop_ctrl_desc(ring: &mut Ring) -> (r: Result<CtrlDescriptor, DeviceError>)
    requires
        old(ring).wf(),
        old(ring).spec_slot_size() == 32,
    ensures
        final(ring).wf(),
        final(ring).spec_depth() == old(ring).spec_depth(),
        final(ring).spec_slot_size() == old(ring).spec_slot_size(),
        old(ring)@.len() == 0 ==> r == Err::<CtrlDescriptor, DeviceError>(
            DeviceError::NotAvailable,
        ) && final(ring)@ == old(ring)@,
        old(ring)@.len() > 0 ==> final(ring)@ =~= old(ring)@.skip(1) && r == (
        match spec_parse_ctrl_desc(old(ring)@[0]) {
            Some(c) => Ok::<CtrlDescriptor, DeviceError>(c),
            None => Err::<CtrlDescriptor, DeviceError>(DeviceError::ParseDesc),
        }),
        r matches Ok(c) ==> c.wf(),
{
    let slot = match ring.pop_slot() {
        Ok(s) => s,
        Err(e) => {
            return Err(e);
        },
    };
    match parse_ctrl_desc(&slot) {
        Some(c) => Ok(c),
        None => Err(DeviceError::ParseDesc),
    }
}

/// Writes one control completion into a completion ring, or reports
/// `Overflow` without storing anything when the ring is full.
pub fn push_ctrl_resp(ring: &mut Ring, c: &CtrlRespDescriptor) -> (r: Result<(), DeviceError>)
    requires
        old(ring).wf(),
        old(ring).spec_slot_size() == 32,
    ensures
        final(ring).wf(),
        final(ring).spec_depth() == old(ring).spec_depth(),
        final(ring).spec_slot_size() == old(ring).spec_slot_size(),
        old(ring)@.len() == old(ring).spec_depth() ==> r == Err::<(), DeviceError>(
            DeviceError::Overflow,
        ) && final(ring)@ == old(ring)@,
        old(ring)@.len() < old(ring).spec_depth() ==> r == Ok::<(), DeviceError>(()) && final(ring)@ =~= old(ring)@.push(spec_serialize_ctrl_resp(*c)),
{
    let slot = serialize_ctrl_resp(c);
    ring.push_slot(slot)
}

/// Reads and consumes one control completion from a completion ring.
pub fn pop_ctrl_resp(ring: &mut Ring) -> (r: Result<CtrlRespDescriptor, DeviceError>)
    requires
        old(ring).wf(),
        old(ring).spec_slot_size() == 32,
    ensures
        final(ring).wf(),
        final(ring).spec_depth() == old(ring).spec_depth(),
        final(ring).spec_slot_size() == old(ring).spec_slot_size(),
        old(ring)@.len() == 0 ==> r == Err::<CtrlRespDescriptor, DeviceError>(
            DeviceError::NotAvailable,
        ) && final(ring)@ == old(ring)@,
        old(ring)@.len() > 0 ==> final(ring)@ =~= old(ring)@.skip(1) && r == (
        match spec_parse_ctrl_resp(old(ring)@[0]) {
            Some(c) => Ok::<CtrlRespDescriptor, DeviceError>(c),
            None => Err::<CtrlRespDescriptor, DeviceError>(DeviceError::ParseDesc),
        }),
{
    let slot = match ring.pop_slot() {
        Ok(s) => s,
        Err(e) => {
            return Err(e);
        },
    };
    match parse_ctrl_resp(&slot) {
        Some(c) => Ok(c),
        None => Err(DeviceError::ParseDesc),
    }
}

} // verus!
