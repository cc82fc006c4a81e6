//! The transport side: wire frames, transport faults, timestamps and the mock
//! transport.

pub mod can_error;
pub mod can_frame;
pub mod mock_can;
pub mod timestamped;

use crate::can_adapter::can_error::CanError;
use crate::can_adapter::can_frame::CanFrame;
use crate::can_adapter::timestamped::Timestamped;
use vstd::prelude::*;

verus! {

/// A received wire frame with the instant of its receipt.
pub type TCanFrame = Timestamped<CanFrame>;

/// A transport fault with the instant at which it was observed.
pub type TCanError = Timestamped<CanError>;

} // verus!
