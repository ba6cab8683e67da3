//! Plain value types shared by the transport and retry subsystem: queue-pair
//! numbers, sequence numbers, protection keys, path-MTU, network parameters,
//! scatter-gather entries and the error taxonomy.

use vstd::prelude::*;

verus! {

/// Queue pair number: a 24-bit connection endpoint identifier.
#[derive(Clone, Copy, Debug, PartialEq, Eq, Structural)]
pub struct Qpn {
    pub val: u32,
}

impl Qpn {
    /// True when the stored value fits in 24 bits.
    pub open spec fn wf(self) -> bool {
        self.val < 0x100_0000
    }

    /// Builds a queue pair number, keeping the low 24 bits of `val`.
    pub fn new(val: u32) -> (r: Qpn)
        ensures
            r.val == val % 0x100_0000,
            r.wf(),
    {
        Qpn { val: val % 0x100_0000 }
    }
}

impl Default for Qpn {
    fn default() -> (r: Qpn)
        ensures
            r.val == 0,
            r.wf(),
    {
        Qpn { val: 0 }
    }
}

/// Message sequence number: identifies one logical operation on the device.
#[derive(Clone, Copy, Debug, PartialEq, Eq, Structural)]
pub struct Msn {
    pub val: u16,
}

impl Msn {
    /// Builds a message sequence number.
    pub fn new(val: u16) -> (r: Msn)
        ensures
            r.val == val,
    {
        Msn { val }
    }
}

impl Default for Msn {
    fn default() -> (r: Msn)
        ensures
            r.val == 0,
    {
        Msn { val: 0 }
    }
}

/// Packet sequence number: a 24-bit per-packet counter within a connection.
#[derive(Clone, Copy, Debug, PartialEq, Eq, Structural)]
pub struct Psn {
    pub val: u32,
}

impl Psn {
    /// True when the stored value fits in 24 bits.
    pub open spec fn wf(self) -> bool {
        self.val < 0x100_0000
    }

    /// Builds a packet sequence number, keeping the low 24 bits of `val`.
    pub fn new(val: u32) -> (r: Psn)
        ensures
            r.val == val % 0x100_0000,
            r.wf(),
    {
        Psn { val: val % 0x100_0000 }
    }

    /// Advances the counter by `n`, wrapping within the 24-bit space.
    pub fn wrapping_add(self, n: u32) -> (r: Psn)
        requires
            self.wf(),
        ensures
            r.val == (self.val + n) % 0x100_0000,
            r.wf(),
    {
        let sum: u64 = self.val as u64 + n as u64;
        Psn { val: (sum % 0x100_0000) as u32 }
    }
}

impl Default for Psn {
    fn default() -> (r: Psn)
        ensures
            r.val == 0,
            r.wf(),
    {
        Psn { val: 0 }
    }
}

/// Memory protection key presented with a remote address.
#[derive(Clone, Copy, Debug, PartialEq, Eq, Structural)]
pub struct Key {
    pub val: u32,
}

impl Key {
    /// Builds a protection key.
    pub fn new(val: u32) -> (r: Key)
        ensures
            r.val == val,
    {
        Key { val }
    }
}

impl Default for Key {
    fn default() -> (r: Key)
        ensures
            r.val == 0,
    {
        Key { val: 0 }
    }
}

/// Path maximum transmission unit: bounds one packet's payload.
#[derive(Clone, Copy, Debug, PartialEq, Eq, Structural)]
pub enum Pmtu {
    Mtu256,
    Mtu512,
    Mtu1024,
    Mtu2048,
    Mtu4096,
}

/// The byte value of a path MTU.
pub open spec fn spec_pmtu_value(p: Pmtu) -> u64 {
    match p {
        Pmtu::Mtu256 => 256,
        Pmtu::Mtu512 => 512,
        Pmtu::Mtu1024 => 1024,
        Pmtu::Mtu2048 => 2048,
        Pmtu::Mtu4096 => 4096,
    }
}

impl Pmtu {
    /// Returns the MTU in bytes; always a power of two in `256 ..= 4096`.
    pub fn value(self) -> (r: u64)
        ensures
            r == spec_pmtu_value(self),
            256 <= r <= 4096,
    {
        match self {
            Pmtu::Mtu256 => 256,
            Pmtu::Mtu512 => 512,
            Pmtu::Mtu1024 => 1024,
            Pmtu::Mtu2048 => 2048,
            Pmtu::Mtu4096 => 4096,
        }
    }
}

/// Service type of a queue pair.
#[derive(Clone, Copy, Debug, PartialEq, Eq, Structural)]
pub enum QpType {
    Rc,
    Uc,
    Ud,
}

/// Memory access flags carried by a work request, as a bit set.
#[derive(Clone, Copy, Debug, PartialEq, Eq, Structural)]
pub struct MemAccessTypeFlag {
    pub bits: u8,
}

impl MemAccessTypeFlag {
    /// Builds a flag set from raw bits.
    pub fn new(bits: u8) -> (r: MemAccessTypeFlag)
        ensures
            r.bits == bits,
    {
        MemAccessTypeFlag { bits }
    }
}

impl Default for MemAccessTypeFlag {
    fn default() -> (r: MemAccessTypeFlag)
        ensures
            r.bits == 0,
    {
        MemAccessTypeFlag { bits: 0 }
    }
}

/// Local network parameters written to the device during initialization.
/// Addresses are IPv4 values held as host-order integers; the MAC address
/// occupies the low 48 bits of `macaddr`.
#[derive(Clone, Copy, Debug, PartialEq, Eq, Structural)]
pub struct RdmaDeviceNetwork {
    pub gateway: u32,
    pub netmask: u32,
    pub ipaddr: u32,
    pub macaddr: u64,
}

impl RdmaDeviceNetwork {
    /// True when the MAC address fits in 48 bits.
    pub open spec fn wf(self) -> bool {
        self.macaddr < 0x1_0000_0000_0000
    }

    /// Builds a network parameter block.
    pub fn new(gateway: u32, netmask: u32, ipaddr: u32, macaddr: u64) -> (r: RdmaDeviceNetwork)
        requires
            macaddr < 0x1_0000_0000_0000,
        ensures
            r == (RdmaDeviceNetwork { gateway, netmask, ipaddr, macaddr }),
            r.wf(),
    {
        RdmaDeviceNetwork { gateway, netmask, ipaddr, macaddr }
    }
}

/// A scatter-gather entry: one contiguous local buffer of a work request.
#[derive(Clone, Copy, Debug, PartialEq, Eq, Structural)]
pub struct Sge {
    pub addr: u64,
    pub len: u32,
    pub key: Key,
}

impl Sge {
    /// Builds a scatter-gather entry.
    pub fn new(addr: u64, len: u32, key: Key) -> (r: Sge)
        ensures
            r == (Sge { addr, len, key }),
    {
        Sge { addr, len, key }
    }
}

/// Failures reported by a device transport endpoint.
#[derive(Clone, Copy, Debug, PartialEq, Eq, Structural)]
pub enum DeviceError {
    /// A ring was full on write; nothing was stored.
    Overflow,
    /// Nothing was available to read.
    NotAvailable,
    /// A descriptor failed to decode from its slots.
    ParseDesc,
    /// A guarded structure was left inconsistent by a prior failure.
    LockPoisoned,
}

/// Failures surfaced synchronously by driver calls.
#[derive(Clone, Copy, Debug, PartialEq, Eq, Structural)]
pub enum Error {
    /// A transport endpoint reported a failure.
    Device(DeviceError),
    /// The destination queue pair number is not registered.
    InvalidQpn,
    /// The device could not accept the descriptor; the ring was full.
    DeviceBusy,
    /// The control operation id is already outstanding.
    OpIdUsed(u32),
    /// The retry monitor's event channel is closed.
    ResourceNoAvailable,
    /// An operation context already exists for this identity.
    CreateOpCtxFailed,
    /// The device rejected the network parameters.
    SetNetworkParamFailed,
}

} // verus!
