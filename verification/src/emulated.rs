//! Initialization arithmetic for backends that publish the rings' physical
//! base addresses through control/status registers: the emulated backend
//! sends these register writes over its network link, the hardware backend
//! over its own out-of-band channel. Each ring base address is split into a
//! low and a high 32-bit half and written once during initialization, never
//! renegotiated afterward.

use vstd::prelude::*;

use crate::types::DeviceError;

verus! {

/// Register holding the low half of the control-submit ring's base address.
pub const CSR_ADDR_CMD_REQ_QUEUE_ADDR_LOW: u32 = 0;

/// Register holding the high half of the control-submit ring's base address.
pub const CSR_ADDR_CMD_REQ_QUEUE_ADDR_HIGH: u32 = 1;

/// Register holding the low half of the control-complete ring's base address.
pub const CSR_ADDR_CMD_RESP_QUEUE_ADDR_LOW: u32 = 2;

/// Register holding the high half of the control-complete ring's base
/// address.
pub const CSR_ADDR_CMD_RESP_QUEUE_ADDR_HIGH: u32 = 3;

/// Register holding the low half of the work-submit ring's base address.
pub const CSR_ADDR_SEND_QUEUE_ADDR_LOW: u32 = 4;

/// Register holding the high half of the work-submit ring's base address.
pub const CSR_ADDR_SEND_QUEUE_ADDR_HIGH: u32 = 5;

/// Register holding the low half of the work-complete ring's base address.
pub const CSR_ADDR_META_REPORT_QUEUE_ADDR_LOW: u32 = 6;

/// Register holding the high half of the work-complete ring's base address.
pub const CSR_ADDR_META_REPORT_QUEUE_ADDR_HIGH: u32 = 7;

/// The low 32 bits of a physical address.
pub open spec fn spec_low32(x: u64) -> u32 {
    (x & 0xFFFF_FFFF) as u32
}

/// The high 32 bits of a physical address.
pub open spec fn spec_high32(x: u64) -> u32 {
    (x >> 32) as u32
}

/// The register writes that communicate the four rings' physical base
/// addresses to the device, in initialization order: each address split into
/// its low and high halves.
pub open spec fn spec_ring_addr_csr_writes(
    ctrl_submit_pa: u64,
    ctrl_complete_pa: u64,
    work_submit_pa: u64,
    work_complete_pa: u64,
) -> Seq<(u32, u32)> {
    seq![
        (CSR_ADDR_CMD_REQ_QUEUE_ADDR_LOW, spec_low32(ctrl_submit_pa)),
        (CSR_ADDR_CMD_REQ_QUEUE_ADDR_HIGH, spec_high32(ctrl_submit_pa)),
        (CSR_ADDR_CMD_RESP_QUEUE_ADDR_LOW, spec_low32(ctrl_complete_pa)),
        (CSR_ADDR_CMD_RESP_QUEUE_ADDR_HIGH, spec_high32(ctrl_complete_pa)),
        (CSR_ADDR_SEND_QUEUE_ADDR_LOW, spec_low32(work_submit_pa)),
        (CSR_ADDR_SEND_QUEUE_ADDR_HIGH, spec_high32(work_submit_pa)),
        (CSR_ADDR_META_REPORT_QUEUE_ADDR_LOW, spec_low32(work_complete_pa)),
        (CSR_ADDR_META_REPORT_QUEUE_ADDR_HIGH, spec_high32(work_complete_pa)),
    ]
}

/// Computes the initialization register writes for the four ring base
/// addresses. The caller performs each write through its register channel.
pub fn ring_addr_csr_writes(
    ctrl_submit_pa: u64,
    ctrl_complete_pa: u64,
    work_submit_pa: u64,
    work_complete_pa: u64,
) -> (r: Vec<(u32, u32)>)
    ensures
        r@ == spec_ring_addr_csr_writes(
            ctrl_submit_pa,
            ctrl_complete_pa,
            work_submit_pa,
            work_complete_pa,
        ),
{
    let mut r: Vec<(u32, u32)> = Vec::new();
    r.push((CSR_ADDR_CMD_REQ_QUEUE_ADDR_LOW, low32(ctrl_submit_pa)));
    r.push((CSR_ADDR_CMD_REQ_QUEUE_ADDR_HIGH, high32(ctrl_submit_pa)));
    r.push((CSR_ADDR_CMD_RESP_QUEUE_ADDR_LOW, low32(ctrl_complete_pa)));
    r.push((CSR_ADDR_CMD_RESP_QUEUE_ADDR_HIGH, high32(ctrl_complete_pa)));
    r.push((CSR_ADDR_SEND_QUEUE_ADDR_LOW, low32(work_submit_pa)));
    r.push((CSR_ADDR_SEND_QUEUE_ADDR_HIGH, high32(work_submit_pa)));
    r.push((CSR_ADDR_META_REPORT_QUEUE_ADDR_LOW, low32(work_complete_pa)));
    r.push((CSR_ADDR_META_REPORT_QUEUE_ADDR_HIGH, high32(work_complete_pa)));
    proof {
        assert(r@ =~= spec_ring_addr_csr_writes(
            ctrl_submit_pa,
            ctrl_complete_pa,
            work_submit_pa,
            work_complete_pa,
        ));
    }
    r
}

/// The low 32 bits of a physical address.
pub fn low32(x: u64) -> (r: u32)
    ensures
        r == spec_low32(x),
{
    (x & 0xFFFF_FFFF) as u32
}

/// The high 32 bits of a physical address.
pub fn high32(x: u64) -> (r: u32)
    ensures
        r == spec_high32(x),
{
    (x >> 32) as u32
}

/// Translates a heap virtual address to the device-visible address of the
/// emulated backend, whose shared region starts at `heap_start`. An address
/// below the region has no translation.
pub fn emulated_phys_addr_of(virt_addr: u64, heap_start: u64) -> (r: Result<u64, DeviceError>)
    ensures
        virt_addr >= heap_start ==> r == Ok::<u64, DeviceError>((virt_addr - heap_start) as u64),
        virt_addr < heap_start ==> r == Err::<u64, DeviceError>(DeviceError::NotAvailable),
{
    if virt_addr >= heap_start {
        Ok(virt_addr - heap_start)
    } else {
        Err(DeviceError::NotAvailable)
    }
}

/// Translates a virtual address for the in-process software backend, whose
/// device addresses are the host's own.
pub fn software_phys_addr_of(virt_addr: u64) -> (r: u64)
    ensures
        r == virt_addr,
{
    virt_addr
}

} // verus!
