//! A reliable, connection-oriented transfer core for an RDMA-style user-space
//! driver: fixed-capacity descriptor rings with multi-slot framing, one-shot
//! operation contexts, and a timeout-driven retry engine, all with
//! machine-checked contracts. Callers submit work requests and later observe
//! reliable completion even when individual descriptors are lost: the retry
//! monitor retransmits on timeout up to a configured budget, then resolves
//! the waiting context as permanently failed.

pub mod assoc;
pub mod ctrl;
pub mod desc;
pub mod device;
pub mod emulated;
pub mod op_ctx;
pub mod retry;
pub mod ring;
pub mod software;
pub mod types;

pub use device::Device;
pub use device::QpContext;
pub use retry::RetryConfig;
pub use retry::RetryCancel;
pub use retry::RetryEvent;
pub use retry::RetryMonitorContext;
pub use retry::RetryRecord;
pub use types::Error;
pub use types::Key;
pub use types::Msn;
pub use types::Psn;
pub use types::Qpn;
pub use types::Sge;
