//! A driver-layer backend that presents a modern, explicit GPU interface
//! (multiple queues, recorded command buffers, explicit fences and
//! semaphores) on top of a legacy graphics API that offers exactly one
//! global, implicitly-stateful rendering context.
//!
//! The crate is the coordination layer of that bridge, verified:
//! the shared-context registry with its one-open-logical-device invariant,
//! the thread-bound ownership wrapper, the device-open protocol, the
//! memory-type mapping, and the command recording / submission state
//! machine.  Every native call is performed by the embedding program; the
//! library makes the decisions and states them in contracts.

pub mod command;
pub mod device;
pub mod error;
pub mod info;
pub mod memory;
pub mod native;
pub mod physical;
pub mod queue;
pub mod share;

use vstd::prelude::*;

verus! {

/// Marker type naming this backend; it only selects the family of types
/// implemented here.
#[derive(Copy, Clone, Debug, PartialEq, Eq, Structural)]
pub struct Backend;

} // verus!
