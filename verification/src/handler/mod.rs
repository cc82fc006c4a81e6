//! Handlers of decoded frames, one per kind of message.

pub mod command_resp_frame_handler;
pub mod get_resp_frame_handler;
pub mod get_resp_message;
pub mod interleaving;
