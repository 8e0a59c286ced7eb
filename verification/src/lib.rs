//! Host-side controller logic for a quadcopter that speaks a textual
//! command/response protocol over UDP.
//!
//! This crate holds the verified core: encoding typed flight commands into
//! the ASCII wire strings the vehicle expects, the request/response exchange
//! discipline of the command channel, and the decoding of reply and telemetry
//! datagrams into text. The sockets themselves are a caller's concern: the
//! caller transmits the bytes this crate produces and hands back the bytes it
//! received.
mod command;
mod channel;

pub use command::TelloCommand;
pub use command::get_tello_command_data;
pub use command::command_text;
pub use command::spec_command_text;
pub use command::spec_encoding;
pub use command::spec_keyword;
pub use command::spec_args;
pub use command::spec_decimal;
pub use command::spec_digit;
pub use command::space_free;
pub use command::lemma_encoding_injective;
pub use channel::CommunicationError;
pub use channel::CommandExchange;
pub use channel::decode_datagram;
pub use channel::lemma_text_round_trip;
pub use channel::lemma_reply_truncation;
pub use channel::COMMAND_REPLY_CAPACITY;
pub use channel::TELEMETRY_CAPACITY;
