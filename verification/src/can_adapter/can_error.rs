//! Faults of the transport itself.

use vstd::prelude::*;

verus! {

/// A fault that a transport reports out of band.
#[derive(Debug, Clone, Copy, PartialEq, Eq, Structural)]
pub enum CanError {
    /// An error of the bus or of the adapter, with its code.
    Can(u64),
}

} // verus!
