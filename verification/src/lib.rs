//! A network layer for CAN buses.
//!
//! Raw frames are decoded into typed, named values by a static description of
//! the network's messages and types; values that span several frames are
//! reassembled by a get-response transfer; typed values are encoded back into
//! the bits that go on the wire. Every function here is verified against its
//! contract. Where the crate calls `bitvec`, `rand` or the standard library
//! beyond what `vstd` specifies, the call stands in a small function whose
//! contract is taken on trust and says so.
//!
//! Decimal signals carry a physical quantity `offset + scale * steps`. The
//! crate works on the whole number `steps`; the arithmetic on real numbers
//! stays with the caller.

pub mod bit_buffer;
pub mod bits;
pub mod can_adapter;
pub mod config;
pub mod deserialize;
pub mod errors;
pub mod frame;
pub mod handler;
