//! One frame as it travels on the bus.

use vstd::prelude::*;

use crate::config::MessageId;

verus! {

/// One wire frame: an identifier that is either standard or extended, the
/// remote-request flag, the data length code and up to eight bytes of payload,
/// carried as one 64-bit word. A frame does not change once it is made.
#[derive(Debug, Clone, Copy, PartialEq, Eq, Structural)]
pub struct CanFrame {
    pub id: u32,
    pub ide: bool,
    pub rtr: bool,
    pub dlc: u8,
    pub data: u64,
}

impl CanFrame {
    /// Whether the data length code is one that a frame can carry.
    pub open spec fn wf(self) -> bool {
        self.dlc <= 8
    }

    /// A frame of the given parts. The data length code counts bytes and is at
    /// most 8.
    pub fn new(id: u32, ide: bool, rtr: bool, dlc: u8, data: u64) -> (frame: CanFrame)
        requires
            dlc <= 8,
        ensures
            frame == (CanFrame { id, ide, rtr, dlc, data }),
            frame.wf(),
    {
        CanFrame { id, ide, rtr, dlc, data }
    }

    /// The identifier with its kind.
    pub fn get_message_id(&self) -> (id: MessageId)
        ensures
            id == if self.ide {
                MessageId::ExtendedId(self.id)
            } else {
                MessageId::StandardId(self.id)
            },
    {
        if self.ide {
            MessageId::ExtendedId(self.id)
        } else {
            MessageId::StandardId(self.id)
        }
    }

    pub fn get_id(&self) -> (id: u32)
        ensures
            id == self.id,
    {
        self.id
    }

    pub fn get_ide_flag(&self) -> (ide: bool)
        ensures
            ide == self.ide,
    {
        self.ide
    }

    pub fn get_rtr_flag(&self) -> (rtr: bool)
        ensures
            rtr == self.rtr,
    {
        self.rtr
    }

    pub fn get_dlc(&self) -> (dlc: u8)
        ensures
            dlc == self.dlc,
    {
        self.dlc
    }

    pub fn get_data_u64(&self) -> (data: u64)
        ensures
            data == self.data,
    {
        self.data
    }
}

} // verus!
