//! Handling of messages that always fit one frame.

use vstd::prelude::*;

use crate::can_adapter::timestamped::Timestamped;
use crate::can_adapter::TCanFrame;
use crate::config::MessageRef;
use crate::deserialize::decoded_message;
use crate::deserialize::FrameDeserializer;
use crate::errors::Error;
use crate::frame::attribute_views;
use crate::frame::TFrame;

verus! {

/// Decodes the frames of one message, each on its own.
pub struct CommandRespFrameHandler {
    pub frame_deserializer: FrameDeserializer,
}

impl CommandRespFrameHandler {
    /// The handler of a message.
    pub fn create(message_config: &MessageRef) -> (handler: CommandRespFrameHandler)
        ensures
            handler.frame_deserializer.message == *message_config,
    {
        Self { frame_deserializer: FrameDeserializer::new(message_config) }
    }

    /// Decodes one received frame and hands it out with the instant of its
    /// receipt. A payload that does not decode is reported with the decoder's
    /// error.
    pub fn handle(&self, can_frame: &TCanFrame) -> (handled: Result<TFrame, Error>)
        ensures
            handled is Ok <==> decoded_message(
                *self.frame_deserializer.message,
                can_frame.value.data,
            ) is Some,
            handled is Ok ==> {
                &&& handled->Ok_0.timestamp == can_frame.timestamp
                &&& handled->Ok_0.value.config == self.frame_deserializer.message
                &&& handled->Ok_0.value.data == can_frame.value.data
                &&& Some(attribute_views(handled->Ok_0.value.value.attributes@)) == decoded_message(
                    *self.frame_deserializer.message,
                    can_frame.value.data,
                )
            },
            handled is Err ==> handled->Err_0 == Error::UnknownEnumValue,
    {
        match self.frame_deserializer.deserialize(can_frame.value().get_data_u64()) {
            Ok(frame) => Ok(Timestamped::new(*can_frame.timestamp(), frame)),
            Err(error) => Err(error),
        }
    }
}

} // verus!
