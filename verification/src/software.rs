//! The in-process software backend's host-bound path. Instead of a
//! device-shared ring, the software packet engine hands completed work
//! descriptors over a lock-free queue; the driver-side endpoint drains it.

use vstd::prelude::*;

use crate::desc::WorkDescriptor;
use crate::types::DeviceError;

verus! {

/// The lock-free queue type the software backend delivers completions on;
/// values of it are opaque here.
#[verifier::external_type_specification]
#[verifier::external_body]
#[verifier::reject_recursive_types(T)]
pub struct ExSegQueue<T>(crossbeam_queue::SegQueue<T>);

/// Relies on crossbeam_queue::SegQueue::pop: takes the oldest queued element,
/// or nothing when the queue is momentarily empty. What it returns depends on
/// the other threads, so nothing is assumed of it.
#[verifier::external_body]
fn pop_host_queue(q: &crossbeam_queue::SegQueue<WorkDescriptor>) -> Option<WorkDescriptor> {
    q.pop()
}

/// Driver-side endpoint of the software backend's completion path: the oldest
/// completed work descriptor, or `NotAvailable` when nothing has arrived.
pub fn pop_host_desc(q: &crossbeam_queue::SegQueue<WorkDescriptor>) -> (r: Result<
    WorkDescriptor,
    DeviceError,
>)
    ensures
        r is Err ==> r == Err::<WorkDescriptor, DeviceError>(DeviceError::NotAvailable),
{
    match pop_host_queue(q) {
        Some(d) => Ok(d),
        None => Err(DeviceError::NotAvailable),
    }
}

} // verus!
