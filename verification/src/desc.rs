//! Work descriptors and their slot codec.
//!
//! A work descriptor is immutable once built and serializes to 3 or 4
//! fixed-size ring slots, self-describing its own slot count; the layout is a
//! fixed sub-field order, little-endian throughout. The reader is a two-phase
//! decoder: a first slot yields a resumable partial state, which absorbs
//! further slots until a complete descriptor emerges or a hard decode error
//! occurs.

use vstd::bytes::lemma_auto_spec_u16_to_from_le_bytes;
use vstd::bytes::lemma_auto_spec_u32_to_from_le_bytes;
use vstd::bytes::lemma_auto_spec_u64_to_from_le_bytes;
use vstd::bytes::spec_u16_to_le_bytes;
use vstd::bytes::spec_u16_from_le_bytes;
use vstd::bytes::spec_u32_to_le_bytes;
use vstd::bytes::spec_u32_from_le_bytes;
use vstd::bytes::spec_u64_to_le_bytes;
use vstd::bytes::spec_u64_from_le_bytes;
use vstd::bytes::u16_to_le_bytes;
use vstd::bytes::u16_from_le_bytes;
use vstd::bytes::u32_to_le_bytes;
use vstd::bytes::u32_from_le_bytes;
use vstd::bytes::u64_to_le_bytes;
use vstd::bytes::u64_from_le_bytes;
use vstd::prelude::*;
use vstd::slice::slice_subrange;

use crate::ring::Ring;
use crate::types::DeviceError;
use crate::types::Key;
use crate::types::MemAccessTypeFlag;
use crate::types::Msn;
use crate::types::Pmtu;
use crate::types::Psn;
use crate::types::QpType;
use crate::types::Qpn;
use crate::types::Sge;

verus! {

/// The network operation a work descriptor requests.
#[derive(Clone, Copy, Debug, PartialEq, Eq, Structural)]
pub enum WorkKind {
    Write,
    Read,
}

/// A scatter-gather entry as it stands inside a descriptor.
#[derive(Clone, Copy, Debug, PartialEq, Eq, Structural)]
pub struct DescSge {
    pub addr: u64,
    pub len: u32,
    pub key: Key,
}

impl From<Sge> for DescSge {
    /// Carries a caller-facing scatter-gather entry into descriptor form,
    /// field for field.
    fn from(sge: Sge) -> (r: DescSge) {
        DescSge { addr: sge.addr, len: sge.len, key: sge.key }
    }
}

impl vstd::std_specs::convert::FromSpecImpl<Sge> for DescSge {
    open spec fn obeys_from_spec() -> bool {
        true
    }

    open spec fn from_spec(sge: Sge) -> DescSge {
        DescSge { addr: sge.addr, len: sge.len, key: sge.key }
    }
}

/// Fields common to every work descriptor, addressing one queue pair.
#[derive(Clone, Copy, Debug, PartialEq, Eq, Structural)]
pub struct WorkDescCommon {
    pub total_len: u32,
    pub raddr: u64,
    pub rkey: Key,
    pub dqp_ip: u32,
    pub dqpn: Qpn,
    pub mac_addr: u64,
    pub pmtu: Pmtu,
    pub flags: MemAccessTypeFlag,
    pub qp_type: QpType,
    pub psn: Psn,
    pub msn: Msn,
}

/// One network operation addressed to a queue pair; immutable once built.
/// Serializes to 3 slots, or 4 when a fourth scatter-gather entry is present.
#[derive(Clone, Copy, Debug, PartialEq, Eq, Structural)]
pub struct WorkDescriptor {
    pub kind: WorkKind,
    pub common: WorkDescCommon,
    pub is_first: bool,
    pub is_last: bool,
    pub sge0: DescSge,
    pub sge1: Option<DescSge>,
    pub sge2: Option<DescSge>,
    pub sge3: Option<DescSge>,
}

impl WorkDescriptor {
    /// Validity: the 24-bit and 48-bit fields fit their width, and the
    /// scatter-gather entries are filled without holes.
    pub open spec fn wf(self) -> bool {
        &&& self.common.dqpn.wf()
        &&& self.common.psn.wf()
        &&& self.common.mac_addr < 0x1_0000_0000_0000
        &&& self.sge2 is Some ==> self.sge1 is Some
        &&& self.sge3 is Some ==> self.sge2 is Some
    }

    /// How many slots this descriptor serializes to.
    pub open spec fn spec_slot_cnt(self) -> int {
        if self.sge3 is Some {
            4
        } else {
            3
        }
    }

    /// Reports how many slots this descriptor serializes to: 3, or 4 when a
    /// fourth scatter-gather entry is present.
    pub fn slot_cnt(&self) -> (r: usize)
        ensures
            r == self.spec_slot_cnt(),
    {
        if self.sge3.is_some() {
            4
        } else {
            3
        }
    }

    /// Decides validity at run time, for descriptors of unknown origin.
    pub fn check_wf(&self) -> (r: bool)
        ensures
            r == self.wf(),
    {
        self.common.dqpn.val < 0x100_0000 && self.common.psn.val < 0x100_0000
            && self.common.mac_addr < 0x1_0000_0000_0000 && (!self.sge2.is_some()
            || self.sge1.is_some()) && (!self.sge3.is_some() || self.sge2.is_some())
    }

    /// Number of scatter-gather entries carried.
    pub open spec fn spec_num_sge(self) -> int {
        if self.sge3 is Some {
            4
        } else if self.sge2 is Some {
            3
        } else if self.sge1 is Some {
            2
        } else {
            1
        }
    }
}

/// A sequence of `n` zero bytes, used as padding.
pub open spec fn zero_bytes(n: int) -> Seq<u8> {
    Seq::new(n as nat, |i: int| 0u8)
}

/// Byte code of a work kind.
pub open spec fn spec_kind_byte(k: WorkKind) -> u8 {
    match k {
        WorkKind::Write => 0,
        WorkKind::Read => 1,
    }
}

/// Byte code of a queue pair service type.
pub open spec fn spec_qp_type_byte(t: QpType) -> u8 {
    match t {
        QpType::Rc => 0,
        QpType::Uc => 1,
        QpType::Ud => 2,
    }
}

/// Byte code of a path MTU.
pub open spec fn spec_pmtu_byte(p: Pmtu) -> u8 {
    match p {
        Pmtu::Mtu256 => 0,
        Pmtu::Mtu512 => 1,
        Pmtu::Mtu1024 => 2,
        Pmtu::Mtu2048 => 3,
        Pmtu::Mtu4096 => 4,
    }
}

/// Byte packing the first/last position flags: bit 0 is first, bit 1 is last.
pub open spec fn spec_pos_byte(is_first: bool, is_last: bool) -> u8 {
    ((if is_first {
        1int
    } else {
        0int
    }) + (if is_last {
        2int
    } else {
        0int
    })) as u8
}

/// The 16 serialized bytes of one scatter-gather entry.
pub open spec fn spec_sge_bytes(s: DescSge) -> Seq<u8> {
    spec_u64_to_le_bytes(s.addr) + spec_u32_to_le_bytes(s.len) + spec_u32_to_le_bytes(s.key.val)
}

/// The 16 serialized bytes of an optional scatter-gather entry; an absent
/// entry is all zeros.
pub open spec fn spec_opt_sge_bytes(s: Option<DescSge>) -> Seq<u8> {
    match s {
        Some(x) => spec_sge_bytes(x),
        None => zero_bytes(16),
    }
}

/// First slot: the descriptor's self-description and the common scalar
/// fields.
pub open spec fn spec_slot0_bytes(d: WorkDescriptor) -> Seq<u8> {
    seq![
        spec_kind_byte(d.kind),
        d.spec_slot_cnt() as u8,
        d.spec_num_sge() as u8,
        d.common.flags.bits,
        spec_qp_type_byte(d.common.qp_type),
        spec_pmtu_byte(d.common.pmtu),
        spec_pos_byte(d.is_first, d.is_last),
        0u8,
    ] + spec_u16_to_le_bytes(d.common.msn.val) + spec_u32_to_le_bytes(d.common.psn.val)
        + spec_u32_to_le_bytes(d.common.rkey.val) + spec_u32_to_le_bytes(d.common.total_len)
        + spec_u32_to_le_bytes(d.common.dqp_ip) + spec_u32_to_le_bytes(d.common.dqpn.val)
        + zero_bytes(2)
}

/// Second slot: MAC address, remote address, first scatter-gather entry.
pub open spec fn spec_slot1_bytes(d: WorkDescriptor) -> Seq<u8> {
    spec_u64_to_le_bytes(d.common.mac_addr) + spec_u64_to_le_bytes(d.common.raddr)
        + spec_sge_bytes(d.sge0)
}

/// Third slot: the second and third scatter-gather entries.
pub open spec fn spec_slot2_bytes(d: WorkDescriptor) -> Seq<u8> {
    spec_opt_sge_bytes(d.sge1) + spec_opt_sge_bytes(d.sge2)
}

/// Fourth slot, present only for four-slot descriptors: the fourth
/// scatter-gather entry and padding.
pub open spec fn spec_slot3_bytes(d: WorkDescriptor) -> Seq<u8> {
    spec_opt_sge_bytes(d.sge3) + zero_bytes(16)
}

/// The serialized descriptor as a flat byte string, slot after slot.
pub open spec fn spec_serialize_work_desc(d: WorkDescriptor) -> Seq<u8> {
    if d.sge3 is Some {
        spec_slot0_bytes(d) + spec_slot1_bytes(d) + spec_slot2_bytes(d) + spec_slot3_bytes(d)
    } else {
        spec_slot0_bytes(d) + spec_slot1_bytes(d) + spec_slot2_bytes(d)
    }
}

/// The serialized descriptor as ring slots.
pub open spec fn spec_desc_slots(d: WorkDescriptor) -> Seq<Seq<u8>> {
    if d.sge3 is Some {
        seq![spec_slot0_bytes(d), spec_slot1_bytes(d), spec_slot2_bytes(d), spec_slot3_bytes(d)]
    } else {
        seq![spec_slot0_bytes(d), spec_slot1_bytes(d), spec_slot2_bytes(d)]
    }
}

/// Restates the lengths of the little-endian byte strings, so that offsets
/// into a serialized descriptor come out as literals.
pub proof fn lemma_le_bytes_lens()
    ensures
        forall|x: u16| (#[trigger] spec_u16_to_le_bytes(x)).len() == 2,
        forall|x: u32| (#[trigger] spec_u32_to_le_bytes(x)).len() == 4,
        forall|x: u64| (#[trigger] spec_u64_to_le_bytes(x)).len() == 8,
{
    lemma_auto_spec_u16_to_from_le_bytes();
    lemma_auto_spec_u32_to_from_le_bytes();
    lemma_auto_spec_u64_to_from_le_bytes();
}

/// Every slot of a serialized descriptor is one ring slot wide, and the flat
/// form is their concatenation.
pub proof fn lemma_desc_slots_len(d: WorkDescriptor)
    ensures
        spec_slot0_bytes(d).len() == 32,
        spec_slot1_bytes(d).len() == 32,
        spec_slot2_bytes(d).len() == 32,
        spec_slot3_bytes(d).len() == 32,
        spec_serialize_work_desc(d).len() == 32 * d.spec_slot_cnt(),
        spec_desc_slots(d).len() == d.spec_slot_cnt(),
{
    lemma_le_bytes_lens();
}

/// Serializes a work descriptor to its flat byte form.
#[verifier::rlimit(60)]
pub fn serialize_work_desc(d: &WorkDescriptor) -> (r: Vec<u8>)
    ensures
        r@ == spec_serialize_work_desc(*d),
        r@.len() == 32 * d.spec_slot_cnt(),
{
    proof {
        lemma_desc_slots_len(*d);
    }
    let mut buf: Vec<u8> = Vec::new();
    buf.push(match d.kind {
        WorkKind::Write => 0,
        WorkKind::Read => 1,
    });
    buf.push(d.slot_cnt() as u8);
    buf.push(
        if d.sge3.is_some() {
            4
        } else if d.sge2.is_some() {
            3
        } else if d.sge1.is_some() {
            2
        } else {
            1
        },
    );
    buf.push(d.common.flags.bits);
    buf.push(match d.common.qp_type {
        QpType::Rc => 0,
        QpType::Uc => 1,
        QpType::Ud => 2,
    });
    buf.push(match d.common.pmtu {
        Pmtu::Mtu256 => 0,
        Pmtu::Mtu512 => 1,
        Pmtu::Mtu1024 => 2,
        Pmtu::Mtu2048 => 3,
        Pmtu::Mtu4096 => 4,
    });
    let pos: u8 = (if d.is_first {
        1u8
    } else {
        0u8
    }) + (if d.is_last {
        2u8
    } else {
        0u8
    });
    buf.push(pos);
    buf.push(0u8);
    let mut piece = u16_to_le_bytes(d.common.msn.val);
    buf.append(&mut piece);
    let mut piece = u32_to_le_bytes(d.common.psn.val);
    buf.append(&mut piece);
    let mut piece = u32_to_le_bytes(d.common.rkey.val);
    buf.append(&mut piece);
    let mut piece = u32_to_le_bytes(d.common.total_len);
    buf.append(&mut piece);
    let mut piece = u32_to_le_bytes(d.common.dqp_ip);
    buf.append(&mut piece);
    let mut piece = u32_to_le_bytes(d.common.dqpn.val);
    buf.append(&mut piece);
    buf.push(0u8);
    buf.push(0u8);
    assert(buf@ =~= spec_slot0_bytes(*d));
    let mut piece = u64_to_le_bytes(d.common.mac_addr);
    buf.append(&mut piece);
    let mut piece = u64_to_le_bytes(d.common.raddr);
    buf.append(&mut piece);
    append_sge(&mut buf, &d.sge0);
    assert(buf@ =~= spec_slot0_bytes(*d) + spec_slot1_bytes(*d));
    append_opt_sge(&mut buf, &d.sge1);
    append_opt_sge(&mut buf, &d.sge2);
    assert(buf@ =~= spec_slot0_bytes(*d) + spec_slot1_bytes(*d) + spec_slot2_bytes(*d));
    if d.sge3.is_some() {
        append_opt_sge(&mut buf, &d.sge3);
        append_zero16(&mut buf);
        assert(buf@ =~= spec_serialize_work_desc(*d));
    }
    buf
}

/// Appends 16 zero padding bytes.
fn append_zero16(buf: &mut Vec<u8>)
    ensures
        final(buf)@ == old(buf)@ + zero_bytes(16),
{
    let mut i: usize = 0;
    while i < 16
        invariant
            i <= 16,
            buf@ =~= old(buf)@ + zero_bytes(i as int),
        decreases 16 - i,
    {
        buf.push(0u8);
        assert((old(buf)@ + zero_bytes(i as int)).push(0u8) =~= old(buf)@ + zero_bytes(i + 1));
        i = i + 1;
    }
    assert(buf@ =~= old(buf)@ + zero_bytes(16));
}

/// Appends the 16 bytes of a scatter-gather entry.
fn append_sge(buf: &mut Vec<u8>, s: &DescSge)
    ensures
        final(buf)@ == old(buf)@ + spec_sge_bytes(*s),
{
    let mut piece = u64_to_le_bytes(s.addr);
    buf.append(&mut piece);
    let mut piece = u32_to_le_bytes(s.len);
    buf.append(&mut piece);
    let mut piece = u32_to_le_bytes(s.key.val);
    buf.append(&mut piece);
    assert(buf@ =~= old(buf)@ + spec_sge_bytes(*s));
}

/// Appends the 16 bytes of an optional scatter-gather entry (zeros when
/// absent).
fn append_opt_sge(buf: &mut Vec<u8>, s: &Option<DescSge>)
    ensures
        final(buf)@ == old(buf)@ + spec_opt_sge_bytes(*s),
{
    match s {
        Some(x) => append_sge(buf, x),
        None => append_zero16(buf),
    }
}

/// Whether a flat byte string is a valid serialized work descriptor.
pub open spec fn spec_work_desc_valid(b: Seq<u8>) -> bool {
    &&& b.len() >= 96
    &&& (b[1] == 3 || b[1] == 4)
    &&& b.len() == 32 * (b[1] as int)
    &&& (b[0] == 0 || b[0] == 1)
    &&& 1 <= b[2] <= 4
    &&& ((b[2] == 4) <==> (b[1] == 4))
    &&& b[4] <= 2
    &&& b[5] <= 4
    &&& b[6] <= 3
    &&& b[7] == 0
    &&& spec_u32_from_le_bytes(b.subrange(10, 14)) < 0x100_0000
    &&& spec_u32_from_le_bytes(b.subrange(26, 30)) < 0x100_0000
    &&& b[30] == 0 && b[31] == 0
    &&& spec_u64_from_le_bytes(b.subrange(32, 40)) < 0x1_0000_0000_0000
    &&& (b[2] < 2 ==> b.subrange(64, 80) == zero_bytes(16))
    &&& (b[2] < 3 ==> b.subrange(80, 96) == zero_bytes(16))
    &&& (b[1] == 4 ==> b.subrange(112, 128) == zero_bytes(16))
}

/// The scatter-gather entry held in a 16-byte window.
pub open spec fn spec_parse_sge(s: Seq<u8>) -> DescSge {
    DescSge {
        addr: spec_u64_from_le_bytes(s.subrange(0, 8)),
        len: spec_u32_from_le_bytes(s.subrange(8, 12)),
        key: Key { val: spec_u32_from_le_bytes(s.subrange(12, 16)) },
    }
}

/// The descriptor a valid flat byte string denotes.
pub open spec fn spec_work_desc_of(b: Seq<u8>) -> WorkDescriptor {
    WorkDescriptor {
        kind: if b[0] == 0 {
            WorkKind::Write
        } else {
            WorkKind::Read
        },
        common: WorkDescCommon {
            total_len: spec_u32_from_le_bytes(b.subrange(18, 22)),
            raddr: spec_u64_from_le_bytes(b.subrange(40, 48)),
            rkey: Key { val: spec_u32_from_le_bytes(b.subrange(14, 18)) },
            dqp_ip: spec_u32_from_le_bytes(b.subrange(22, 26)),
            dqpn: Qpn { val: spec_u32_from_le_bytes(b.subrange(26, 30)) },
            mac_addr: spec_u64_from_le_bytes(b.subrange(32, 40)),
            pmtu: if b[5] == 0 {
                Pmtu::Mtu256
            } else if b[5] == 1 {
                Pmtu::Mtu512
            } else if b[5] == 2 {
                Pmtu::Mtu1024
            } else if b[5] == 3 {
                Pmtu::Mtu2048
            } else {
                Pmtu::Mtu4096
            },
            flags: MemAccessTypeFlag { bits: b[3] },
            qp_type: if b[4] == 0 {
                QpType::Rc
            } else if b[4] == 1 {
                QpType::Uc
            } else {
                QpType::Ud
            },
            psn: Psn { val: spec_u32_from_le_bytes(b.subrange(10, 14)) },
            msn: Msn { val: spec_u16_from_le_bytes(b.subrange(8, 10)) },
        },
        is_first: b[6] == 1 || b[6] == 3,
        is_last: b[6] == 2 || b[6] == 3,
        sge0: spec_parse_sge(b.subrange(48, 64)),
        sge1: if b[2] >= 2 {
            Some(spec_parse_sge(b.subrange(64, 80)))
        } else {
            None
        },
        sge2: if b[2] >= 3 {
            Some(spec_parse_sge(b.subrange(80, 96)))
        } else {
            None
        },
        sge3: if b[2] == 4 {
            Some(spec_parse_sge(b.subrange(96, 112)))
        } else {
            None
        },
    }
}

/// Total parse of a flat byte string into a work descriptor.
pub open spec fn spec_parse_work_desc(b: Seq<u8>) -> Option<WorkDescriptor> {
    if spec_work_desc_valid(b) {
        Some(spec_work_desc_of(b))
    } else {
        None
    }
}

/// Reads the 16-byte scatter-gather window starting at `off`.
fn parse_sge_at(b: &Vec<u8>, off: usize) -> (r: DescSge)
    requires
        off + 16 <= b@.len(),
        b@.len() <= usize::MAX,
    ensures
        r == spec_parse_sge(b@.subrange(off as int, off + 16)),
{
    let addr = u64_from_le_bytes(slice_subrange(b.as_slice(), off, off + 8));
    let len = u32_from_le_bytes(slice_subrange(b.as_slice(), off + 8, off + 12));
    let key = u32_from_le_bytes(slice_subrange(b.as_slice(), off + 12, off + 16));
    proof {
        let w = b@.subrange(off as int, off + 16);
        assert(b@.subrange(off as int, off + 8) =~= w.subrange(0, 8));
        assert(b@.subrange(off + 8, off + 12) =~= w.subrange(8, 12));
        assert(b@.subrange(off + 12, off + 16) =~= w.subrange(12, 16));
    }
    DescSge { addr, len, key: Key { val: key } }
}

/// Parses a flat byte string into a work descriptor; returns `None` exactly
/// where the string is not a valid serialized descriptor.
pub fn parse_work_desc(b: &Vec<u8>) -> (r: Option<WorkDescriptor>)
    ensures
        r == spec_parse_work_desc(b@),
        r matches Some(d) ==> d.wf(),
{
    if b.len() < 96 {
        return None;
    }
    let slot_cnt = b[1];
    if !(slot_cnt == 3 || slot_cnt == 4) {
        return None;
    }
    if b.len() != 32 * (slot_cnt as usize) {
        return None;
    }
    if !(b[0] == 0 || b[0] == 1) {
        return None;
    }
    let num_sge = b[2];
    if !(1 <= num_sge && num_sge <= 4) {
        return None;
    }
    if (num_sge == 4) != (slot_cnt == 4) {
        return None;
    }
    if !(b[4] <= 2 && b[5] <= 4 && b[6] <= 3 && b[7] == 0) {
        return None;
    }
    let psn_raw = u32_from_le_bytes(slice_subrange(b.as_slice(), 10, 14));
    if psn_raw >= 0x100_0000 {
        return None;
    }
    let dqpn_raw = u32_from_le_bytes(slice_subrange(b.as_slice(), 26, 30));
    if dqpn_raw >= 0x100_0000 {
        return None;
    }
    if !(b[30] == 0 && b[31] == 0) {
        return None;
    }
    let mac = u64_from_le_bytes(slice_subrange(b.as_slice(), 32, 40));
    if mac >= 0x1_0000_0000_0000 {
        return None;
    }
    if num_sge < 2 && !all_zero_range(b, 64, 80) {
        return None;
    }
    if num_sge < 3 && !all_zero_range(b, 80, 96) {
        return None;
    }
    if slot_cnt == 4 && !all_zero_range(b, 112, 128) {
        return None;
    }
    let msn = u16_from_le_bytes(slice_subrange(b.as_slice(), 8, 10));
    let rkey = u32_from_le_bytes(slice_subrange(b.as_slice(), 14, 18));
    let total_len = u32_from_le_bytes(slice_subrange(b.as_slice(), 18, 22));
    let dqp_ip = u32_from_le_bytes(slice_subrange(b.as_slice(), 22, 26));
    let raddr = u64_from_le_bytes(slice_subrange(b.as_slice(), 40, 48));
    let d = WorkDescriptor {
        kind: if b[0] == 0 {
            WorkKind::Write
        } else {
            WorkKind::Read
        },
        common: WorkDescCommon {
            total_len,
            raddr,
            rkey: Key { val: rkey },
            dqp_ip,
            dqpn: Qpn { val: dqpn_raw },
            mac_addr: mac,
            pmtu: if b[5] == 0 {
                Pmtu::Mtu256
            } else if b[5] == 1 {
                Pmtu::Mtu512
            } else if b[5] == 2 {
                Pmtu::Mtu1024
            } else if b[5] == 3 {
                Pmtu::Mtu2048
            } else {
                Pmtu::Mtu4096
            },
            flags: MemAccessTypeFlag { bits: b[3] },
            qp_type: if b[4] == 0 {
                QpType::Rc
            } else if b[4] == 1 {
                QpType::Uc
            } else {
                QpType::Ud
            },
            psn: Psn { val: psn_raw },
            msn: Msn { val: msn },
        },
        is_first: b[6] == 1 || b[6] == 3,
        is_last: b[6] == 2 || b[6] == 3,
        sge0: parse_sge_at(b, 48),
        sge1: if num_sge >= 2 {
            Some(parse_sge_at(b, 64))
        } else {
            None
        },
        sge2: if num_sge >= 3 {
            Some(parse_sge_at(b, 80))
        } else {
            None
        },
        sge3: if num_sge == 4 {
            Some(parse_sge_at(b, 96))
        } else {
            None
        },
    };
    Some(d)
}

/// True when the bytes in `off .. end` are all zero.
pub(crate) fn all_zero_range(b: &Vec<u8>, off: usize, end: usize) -> (r: bool)
    requires
        off <= end,
        end <= b@.len(),
        b@.len() <= usize::MAX,
    ensures
        r == (b@.subrange(off as int, end as int) == zero_bytes(end - off)),
{
    let mut i: usize = 0;
    let mut ok = true;
    let n = end - off;
    while i < n
        invariant
            i <= n,
            n == end - off,
            off + n <= b@.len(),
            b@.len() <= usize::MAX,
            ok == (forall|j: int| 0 <= j < i ==> #[trigger] b@[off + j] == 0u8),
        decreases n - i,
    {
        if b[off + i] != 0 {
            ok = false;
        }
        i = i + 1;
    }
    proof {
        if ok {
            assert forall|j: int| 0 <= j < n implies b@.subrange(off as int, end as int)[j]
                == zero_bytes(n as int)[j] by {
                assert(b@[off + j] == 0u8);
            }
            assert(b@.subrange(off as int, end as int) =~= zero_bytes(n as int));
        } else {
            assert(b@.subrange(off as int, end as int) != zero_bytes(n as int)) by {
                let j = choose|j: int| 0 <= j < n && #[trigger] b@[off + j] != 0u8;
                assert(b@.subrange(off as int, end as int)[j] != zero_bytes(n as int)[j]);
            }
        }
    }
    ok
}

/// Law: writing a descriptor and reading the bytes back reproduces every
/// field identically, for 3- and 4-slot descriptors alike.
pub proof fn lemma_work_desc_round_trip(d: WorkDescriptor)
    requires
        d.wf(),
    ensures
        spec_parse_work_desc(spec_serialize_work_desc(d)) == Some(d),
{
    lemma_le_bytes_lens();
    lemma_desc_slots_len(d);
    lemma_auto_spec_u16_to_from_le_bytes();
    lemma_auto_spec_u32_to_from_le_bytes();
    lemma_auto_spec_u64_to_from_le_bytes();
    let b = spec_serialize_work_desc(d);
    assert(b.subrange(8, 10) =~= spec_u16_to_le_bytes(d.common.msn.val));
    assert(b.subrange(10, 14) =~= spec_u32_to_le_bytes(d.common.psn.val));
    assert(b.subrange(14, 18) =~= spec_u32_to_le_bytes(d.common.rkey.val));
    assert(b.subrange(18, 22) =~= spec_u32_to_le_bytes(d.common.total_len));
    assert(b.subrange(22, 26) =~= spec_u32_to_le_bytes(d.common.dqp_ip));
    assert(b.subrange(26, 30) =~= spec_u32_to_le_bytes(d.common.dqpn.val));
    assert(b.subrange(32, 40) =~= spec_u64_to_le_bytes(d.common.mac_addr));
    assert(b.subrange(40, 48) =~= spec_u64_to_le_bytes(d.common.raddr));
    assert(b.subrange(48, 64) =~= spec_sge_bytes(d.sge0));
    assert(b.subrange(64, 80) =~= spec_opt_sge_bytes(d.sge1));
    assert(b.subrange(80, 96) =~= spec_opt_sge_bytes(d.sge2));
    lemma_sge_window(b, 48, d.sge0);
    if d.sge3 is Some {
        assert(b.subrange(96, 112) =~= spec_opt_sge_bytes(d.sge3));
        assert(b.subrange(112, 128) =~= zero_bytes(16));
    }
    if d.sge1 is Some {
        lemma_sge_window(b, 64, d.sge1->Some_0);
    }
    if d.sge2 is Some {
        lemma_sge_window(b, 80, d.sge2->Some_0);
    }
    if d.sge3 is Some {
        lemma_sge_window(b, 96, d.sge3->Some_0);
    }
    assert(spec_work_desc_valid(b));
    assert(spec_work_desc_of(b) == d);
}

/// Resumable state of a partly decoded work descriptor: the slots read so
/// far, and how many the descriptor announced.
pub struct PartialWorkDesc {
    bytes: Vec<u8>,
    want: u8,
}

impl PartialWorkDesc {
    /// The bytes absorbed so far.
    pub closed spec fn spec_bytes(&self) -> Seq<u8> {
        self.bytes@
    }

    /// The announced slot count.
    pub closed spec fn spec_want(&self) -> int {
        self.want as int
    }

    /// A partial decode always holds at least the first slot and fewer than
    /// the announced number of slots, in whole slots.
    pub closed spec fn wf(&self) -> bool {
        &&& self.want == 3 || self.want == 4
        &&& self.bytes@.len() == 32 || self.bytes@.len() == 64 || self.bytes@.len() == 96
        &&& self.bytes@.len() < 32 * self.want
        &&& self.bytes@[1] == self.want
    }
}

/// Outcome of feeding one more slot to a partial decode: a complete
/// descriptor, or a state to resume from.
pub enum WorkDescDecodeStep {
    Complete(WorkDescriptor),
    Partial(PartialWorkDesc),
}

/// Starts decoding a work descriptor from its first slot; a slot that does
/// not announce a valid slot count is a hard decode error.
pub fn work_desc_decode_first(slot: Vec<u8>) -> (r: Result<PartialWorkDesc, DeviceError>)
    requires
        slot@.len() == 32,
    ensures
        r matches Ok(p) ==> (slot@[1] == 3 || slot@[1] == 4) && p.wf() && p.spec_bytes() == slot@
            && p.spec_want() == slot@[1],
        r is Err ==> !(slot@[1] == 3 || slot@[1] == 4) && r == Err::<PartialWorkDesc, DeviceError>(
            DeviceError::ParseDesc,
        ),
{
    let want = slot[1];
    if want == 3 || want == 4 {
        Ok(PartialWorkDesc { bytes: slot, want })
    } else {
        Err(DeviceError::ParseDesc)
    }
}

/// Absorbs the next slot into a partial decode, yielding the complete
/// descriptor once all announced slots are in, a resumable state while slots
/// are missing, or a hard decode error when the assembled bytes do not parse.
pub fn work_desc_decode_next(p: PartialWorkDesc, mut slot: Vec<u8>) -> (r: Result<
    WorkDescDecodeStep,
    DeviceError,
>)
    requires
        p.wf(),
        slot@.len() == 32,
    ensures
        p.spec_bytes().len() + 32 < 32 * p.spec_want() ==> (r matches Ok(s) && s matches
            WorkDescDecodeStep::Partial(q) && q.wf() && q.spec_bytes() == p.spec_bytes() + slot@
            && q.spec_want() == p.spec_want()),
        p.spec_bytes().len() + 32 == 32 * p.spec_want() ==> r == (match spec_parse_work_desc(
            p.spec_bytes() + slot@,
        ) {
            Some(d) => Ok::<WorkDescDecodeStep, DeviceError>(WorkDescDecodeStep::Complete(d)),
            None => Err::<WorkDescDecodeStep, DeviceError>(DeviceError::ParseDesc),
        }),
        r matches Ok(WorkDescDecodeStep::Complete(d)) ==> d.wf(),
{
    let mut bytes = p.bytes;
    bytes.append(&mut slot);
    if bytes.len() == 32 * (p.want as usize) {
        match parse_work_desc(&bytes) {
            Some(d) => Ok(WorkDescDecodeStep::Complete(d)),
            None => Err(DeviceError::ParseDesc),
        }
    } else {
        Ok(WorkDescDecodeStep::Partial(PartialWorkDesc { bytes, want: p.want }))
    }
}

/// Writes a whole descriptor into a ring as one atomic unit: all of its slots
/// are stored, or none is and `Overflow` is reported. The payload of every
/// slot is in place before the slot after it is published.
pub fn push_work_desc(ring: &mut Ring, d: &WorkDescriptor) -> (r: Result<(), DeviceError>)
    requires
        old(ring).wf(),
        old(ring).spec_slot_size() == 32,
        d.wf(),
    ensures
        final(ring).wf(),
        final(ring).spec_depth() == old(ring).spec_depth(),
        final(ring).spec_slot_size() == old(ring).spec_slot_size(),
        old(ring).spec_depth() - old(ring)@.len() < d.spec_slot_cnt() ==> r == Err::<
            (),
            DeviceError,
        >(DeviceError::Overflow) && final(ring)@ == old(ring)@,
        old(ring).spec_depth() - old(ring)@.len() >= d.spec_slot_cnt() ==> r == Ok::<
            (),
            DeviceError,
        >(()) && final(ring)@ =~= old(ring)@ + spec_desc_slots(*d),
{
    proof {
        lemma_desc_slots_len(*d);
    }
    let cnt = d.slot_cnt();
    if ring.free_slots() < cnt {
        return Err(DeviceError::Overflow);
    }
    let flat = serialize_work_desc(d);
    let s0 = vstd::slice::slice_to_vec(slice_subrange(flat.as_slice(), 0, 32));
    let s1 = vstd::slice::slice_to_vec(slice_subrange(flat.as_slice(), 32, 64));
    let s2 = vstd::slice::slice_to_vec(slice_subrange(flat.as_slice(), 64, 96));
    proof {
        assert(s0@ =~= spec_slot0_bytes(*d));
        assert(s1@ =~= spec_slot1_bytes(*d));
        assert(s2@ =~= spec_slot2_bytes(*d));
    }
    let _ = ring.push_slot(s0);
    let _ = ring.push_slot(s1);
    let _ = ring.push_slot(s2);
    if cnt == 4 {
        let s3 = vstd::slice::slice_to_vec(slice_subrange(flat.as_slice(), 96, 128));
        proof {
            assert(s3@ =~= spec_slot3_bytes(*d));
        }
        let _ = ring.push_slot(s3);
        assert(ring@ =~= old(ring)@ + spec_desc_slots(*d));
    } else {
        assert(ring@ =~= old(ring)@ + spec_desc_slots(*d));
    }
    Ok(())
}

/// Reads one whole descriptor from a ring by two-phase decode, consuming
/// slots until a complete value emerges. An empty ring reports
/// `NotAvailable`; slots that do not assemble into a valid descriptor report
/// `ParseDesc`. Whenever the ring starts with the slots of a well-formed
/// descriptor, exactly that descriptor comes back and exactly its slots are
/// consumed.
pub fn pop_work_desc(ring: &mut Ring) -> (r: Result<WorkDescriptor, DeviceError>)
    requires
        old(ring).wf(),
        old(ring).spec_slot_size() == 32,
    ensures
        final(ring).wf(),
        final(ring).spec_depth() == old(ring).spec_depth(),
        final(ring).spec_slot_size() == old(ring).spec_slot_size(),
        old(ring)@.len() == 0 ==> r == Err::<WorkDescriptor, DeviceError>(
            DeviceError::NotAvailable,
        ) && final(ring)@ == old(ring)@,
        r matches Ok(d) ==> d.wf(),
        forall|d: WorkDescriptor|
            #![trigger spec_desc_slots(d)]
            d.wf() && d.spec_slot_cnt() <= old(ring)@.len() && old(ring)@.subrange(
                0,
                d.spec_slot_cnt(),
            ) == spec_desc_slots(d) ==> r == Ok::<WorkDescriptor, DeviceError>(d) && final(ring)@
                =~= old(ring)@.skip(d.spec_slot_cnt()),
{
    let s0 = match ring.pop_slot() {
        Ok(s) => s,
        Err(e) => {
            return Err(e);
        },
    };
    let p0 = match work_desc_decode_first(s0) {
        Ok(p) => p,
        Err(e) => {
            proof {
                assert forall|d: WorkDescriptor|
                    d.wf() && d.spec_slot_cnt() <= old(ring)@.len() && old(ring)@.subrange(
                        0,
                        d.spec_slot_cnt(),
                    ) == spec_desc_slots(d) implies false by {
                    lemma_desc_slots_len(d);
                    lemma_le_bytes_lens();
                    assert(old(ring)@[0] == spec_slot0_bytes(d));
                    assert(spec_slot0_bytes(d)[1] == d.spec_slot_cnt() as u8);
                }
            }
            return Err(e);
        },
    };
    let s1 = match ring.pop_slot() {
        Ok(s) => s,
        Err(e) => {
            proof {
                lemma_no_partial_desc(old(ring)@, 1);
            }
            return Err(e);
        },
    };
    let p1 = match work_desc_decode_next(p0, s1) {
        Ok(WorkDescDecodeStep::Partial(p)) => p,
        Ok(WorkDescDecodeStep::Complete(_)) => {
            return Err(DeviceError::ParseDesc);
        },
        Err(e) => {
            return Err(e);
        },
    };
    let s2 = match ring.pop_slot() {
        Ok(s) => s,
        Err(e) => {
            proof {
                lemma_no_partial_desc(old(ring)@, 2);
            }
            return Err(e);
        },
    };
    match work_desc_decode_next(p1, s2) {
        Ok(WorkDescDecodeStep::Complete(d)) => {
            proof {
                lemma_pop_matches(old(ring)@, 3, d);
                assert(ring@ =~= old(ring)@.skip(3));
            }
            Ok(d)
        },
        Ok(WorkDescDecodeStep::Partial(p2)) => {
            let s3 = match ring.pop_slot() {
                Ok(s) => s,
                Err(e) => {
                    proof {
                        assert forall|d: WorkDescriptor|
                            #![trigger spec_desc_slots(d)]
                            !(d.wf() && d.spec_slot_cnt() <= old(ring)@.len() && old(
                                ring,
                            )@.subrange(0, d.spec_slot_cnt()) == spec_desc_slots(d)) by {
                            if d.wf() && d.spec_slot_cnt() <= old(ring)@.len() && old(
                                ring,
                            )@.subrange(0, d.spec_slot_cnt()) == spec_desc_slots(d) {
                                lemma_desc_slots_len(d);
                                lemma_le_bytes_lens();
                                assert(old(ring)@[0] == spec_slot0_bytes(d));
                                assert(spec_slot0_bytes(d)[1] == d.spec_slot_cnt() as u8);
                            }
                        }
                    }
                    return Err(e);
                },
            };
            match work_desc_decode_next(p2, s3) {
                Ok(WorkDescDecodeStep::Complete(d)) => {
                    proof {
                        lemma_pop_matches(old(ring)@, 4, d);
                        assert(ring@ =~= old(ring)@.skip(4));
                    }
                    Ok(d)
                },
                Ok(WorkDescDecodeStep::Partial(_)) => {
                    return Err(DeviceError::ParseDesc);
                },
                Err(e) => {
                    proof {
                        lemma_pop_mismatch(old(ring)@, 4);
                    }
                    return Err(e);
                },
            }
        },
        Err(e) => {
            proof {
                lemma_pop_mismatch(old(ring)@, 3);
            }
            return Err(e);
        },
    }
}

/// No well-formed descriptor's slots can be a prefix of a ring view shorter
/// than three slots.
proof fn lemma_no_partial_desc(s: Seq<Seq<u8>>, len: int)
    requires
        s.len() == len,
        len < 3,
    ensures
        forall|d: WorkDescriptor|
            #![trigger spec_desc_slots(d)]
            !(d.wf() && d.spec_slot_cnt() <= s.len() && s.subrange(0, d.spec_slot_cnt())
                == spec_desc_slots(d)),
{
}

/// When the assembled bytes of the first `cnt` slots parse to `d0`, any
/// well-formed descriptor whose slots prefix the ring is `d0` itself.
proof fn lemma_pop_matches(s: Seq<Seq<u8>>, cnt: int, d0: WorkDescriptor)
    requires
        cnt == 3 || cnt == 4,
        s.len() >= cnt,
        cnt == 3 ==> spec_parse_work_desc(s[0] + s[1] + s[2]) == Some(d0),
        cnt == 4 ==> spec_parse_work_desc(s[0] + s[1] + s[2] + s[3]) == Some(d0),
        s[0].len() == 32,
        s[0][1] == cnt,
    ensures
        forall|d: WorkDescriptor|
            #![trigger spec_desc_slots(d)]
            d.wf() && d.spec_slot_cnt() <= s.len() && s.subrange(0, d.spec_slot_cnt())
                == spec_desc_slots(d) ==> d == d0 && d.spec_slot_cnt() == cnt,
{
    assert forall|d: WorkDescriptor|
        d.wf() && d.spec_slot_cnt() <= s.len() && s.subrange(0, d.spec_slot_cnt())
            == spec_desc_slots(d) implies d == d0 && d.spec_slot_cnt() == cnt by {
        lemma_desc_slots_len(d);
        lemma_le_bytes_lens();
        assert(s[0] == spec_slot0_bytes(d));
        assert(spec_slot0_bytes(d)[1] == d.spec_slot_cnt() as u8);
        assert(d.spec_slot_cnt() == cnt);
        if cnt == 3 {
            assert(s[0] + s[1] + s[2] =~= spec_serialize_work_desc(d));
        } else {
            assert(s[0] + s[1] + s[2] + s[3] =~= spec_serialize_work_desc(d));
        }
        lemma_work_desc_round_trip(d);
    }
}

/// When the assembled bytes of the first `cnt` slots fail to parse, no
/// well-formed descriptor's slots prefix the ring.
proof fn lemma_pop_mismatch(s: Seq<Seq<u8>>, cnt: int)
    requires
        cnt == 3 || cnt == 4,
        s.len() >= cnt,
        cnt == 3 ==> spec_parse_work_desc(s[0] + s[1] + s[2]) is None,
        cnt == 4 ==> spec_parse_work_desc(s[0] + s[1] + s[2] + s[3]) is None,
        s[0].len() == 32,
        s[0][1] == cnt,
    ensures
        forall|d: WorkDescriptor|
            #![trigger spec_desc_slots(d)]
            !(d.wf() && d.spec_slot_cnt() <= s.len() && s.subrange(0, d.spec_slot_cnt())
                == spec_desc_slots(d)),
{
    assert forall|d: WorkDescriptor|
        !(d.wf() && d.spec_slot_cnt() <= s.len() && s.subrange(0, d.spec_slot_cnt())
            == spec_desc_slots(d)) by {
        if d.wf() && d.spec_slot_cnt() <= s.len() && s.subrange(0, d.spec_slot_cnt())
            == spec_desc_slots(d) {
            lemma_desc_slots_len(d);
            lemma_le_bytes_lens();
            assert(s[0] == spec_slot0_bytes(d));
            assert(spec_slot0_bytes(d)[1] == d.spec_slot_cnt() as u8);
            assert(d.spec_slot_cnt() == cnt);
            if cnt == 3 {
                assert(s[0] + s[1] + s[2] =~= spec_serialize_work_desc(d));
            } else {
                assert(s[0] + s[1] + s[2] + s[3] =~= spec_serialize_work_desc(d));
            }
            lemma_work_desc_round_trip(d);
        }
    }
}

/// A 16-byte window holding the bytes of a scatter-gather entry parses back
/// to that entry.
proof fn lemma_sge_window(b: Seq<u8>, off: int, s: DescSge)
    requires
        0 <= off,
        off + 16 <= b.len(),
        b.subrange(off, off + 16) == spec_sge_bytes(s),
    ensures
        spec_parse_sge(b.subrange(off, off + 16)) == s,
{
    lemma_le_bytes_lens();
    lemma_auto_spec_u32_to_from_le_bytes();
    lemma_auto_spec_u64_to_from_le_bytes();
    let w = b.subrange(off, off + 16);
    assert(w.subrange(0, 8) =~= spec_u64_to_le_bytes(s.addr));
    assert(w.subrange(8, 12) =~= spec_u32_to_le_bytes(s.len));
    assert(w.subrange(12, 16) =~= spec_u32_to_le_bytes(s.key.val));
}

} // verus!
