//! The request/response discipline of the command channel and the decoding
//! of received datagrams.
//!
//! A caller owns the sockets; this module owns everything that can be stated
//! and proved about the exchange: which bytes go out for a command, how a
//! received datagram is turned into text, and the strict
//! transmit-then-receive ordering of one exchange ([`CommandExchange`]).
//! Telemetry datagrams go through the same decoding ([`decode_datagram`])
//! with a larger buffer.
use vstd::prelude::*;
use vstd::slice::slice_subrange;
use vstd::utf8::decode_utf8;
use vstd::utf8::encode_utf8;
use vstd::utf8::is_char_boundary;
use vstd::utf8::length_of_first_scalar;
use vstd::utf8::pop_first_scalar;
use vstd::utf8::valid_first_scalar;
use vstd::utf8::valid_utf8;
use crate::command::TelloCommand;
use crate::command::get_tello_command_data;
use crate::command::spec_encoding;

verus! {

/// Capacity in bytes of the receive buffer for command replies. Replies are
/// short acknowledgement strings; a longer datagram is truncated to this
/// many bytes before decoding.
pub const COMMAND_REPLY_CAPACITY: usize = 10;

/// Capacity in bytes of the receive buffer for telemetry datagrams, sized
/// for one full state line.
pub const TELEMETRY_CAPACITY: usize = 150;

/// Everything that can go wrong while talking to the vehicle. No variant is
/// retried: each failure is reported to the immediate caller.
#[derive(Clone, Copy, Debug, PartialEq, Eq, Structural)]
pub enum CommunicationError {
    /// A local socket could not be bound; fatal at initialization.
    BindError,
    /// An outbound datagram could not be sent.
    TransmitError,
    /// A blocking receive failed.
    ReceiveError,
    /// The received bytes are not valid text; the payload is discarded.
    DecodeError,
}

/// Relies on `str::from_utf8`: returns the bytes reinterpreted as text
/// exactly when they are a valid UTF-8 encoding, and fails otherwise.
#[verifier::external_body]
fn bytes_to_text(data: &[u8]) -> (r: Option<String>)
    ensures
        match r {
            Some(s) => valid_utf8(data@) && s@ == decode_utf8(data@),
            None => !valid_utf8(data@),
        },
{
    match std::str::from_utf8(data) {
        Ok(s) => Some(s.to_string()),
        Err(_) => None,
    }
}

/// Decode the first `received` bytes of a receive buffer as text.
///
/// This is the whole compute step of a receive: the datagram's payload is
/// the prefix of the buffer that the socket filled, and it decodes to text
/// exactly when that prefix is valid UTF-8. A payload longer than the buffer
/// was already cut off by the socket, so truncation shows up here only as
/// the prefix in question.
pub fn decode_datagram(buf: &[u8], received: usize) -> (r: Result<String, CommunicationError>)
    requires
        received <= buf@.len(),
    ensures
        match r {
            Ok(s) => valid_utf8(buf@.subrange(0, received as int)) && s@ == decode_utf8(
                buf@.subrange(0, received as int),
            ),
            Err(e) => e == CommunicationError::DecodeError && !valid_utf8(
                buf@.subrange(0, received as int),
            ),
        },
{
    let payload: &[u8] = slice_subrange(buf, 0, received);
    match bytes_to_text(payload) {
        Some(s) => Ok(s),
        None => Err(CommunicationError::DecodeError),
    }
}

/// Any text survives the trip onto the wire and back unchanged: its encoded
/// bytes are valid, and decoding them yields exactly the original text. In
/// particular a datagram whose payload fits the receive buffer is returned
/// by a receive exactly as it was sent.
pub proof fn lemma_text_round_trip(t: Seq<char>)
    ensures
        valid_utf8(encode_utf8(t)),
        decode_utf8(encode_utf8(t)) == t,
{
    vstd::utf8::encode_utf8_valid_utf8(t);
    vstd::utf8::encode_utf8_decode_utf8(t);
}

/// A valid prefix of a valid encoding can only end on a character boundary.
proof fn lemma_valid_prefix_is_boundary(bytes: Seq<u8>, n: int)
    requires
        valid_utf8(bytes),
        0 <= n <= bytes.len(),
        valid_utf8(bytes.subrange(0, n)),
    ensures
        is_char_boundary(bytes, n),
    decreases bytes.len(),
{
    if n > 0 {
        let prefix = bytes.subrange(0, n);
        assert(valid_first_scalar(prefix));
        assert(valid_first_scalar(bytes));
        assert(prefix[0] == bytes[0]);
        let w = length_of_first_scalar(bytes);
        assert(length_of_first_scalar(prefix) == w);
        assert(n >= w);
        assert(forall|i: int| 0 <= i < n ==> prefix[i] == bytes[i]);
        assert(pop_first_scalar(prefix) =~= pop_first_scalar(bytes).subrange(0, n - w));
        lemma_valid_prefix_is_boundary(pop_first_scalar(bytes), n - w);
    }
}

/// What truncating a reply to the first `n` bytes does to its text: cutting
/// on a character boundary leaves a valid prefix whose decoding, together
/// with the decoding of the cut-off rest, is the original text; cutting
/// inside a character's encoding leaves bytes that are not valid text, so
/// decoding them fails.
pub proof fn lemma_reply_truncation(t: Seq<char>, n: int)
    requires
        0 <= n <= encode_utf8(t).len(),
    ensures
        is_char_boundary(encode_utf8(t), n) ==> valid_utf8(encode_utf8(t).subrange(0, n))
            && decode_utf8(encode_utf8(t).subrange(0, n)) + decode_utf8(
            encode_utf8(t).subrange(n, encode_utf8(t).len() as int),
        ) == t,
        !is_char_boundary(encode_utf8(t), n) ==> !valid_utf8(encode_utf8(t).subrange(0, n)),
{
    let bytes = encode_utf8(t);
    lemma_text_round_trip(t);
    if is_char_boundary(bytes, n) {
        vstd::utf8::valid_utf8_split(bytes, n);
        vstd::utf8::decode_utf8_split(bytes, n);
    } else {
        if valid_utf8(bytes.subrange(0, n)) {
            lemma_valid_prefix_is_boundary(bytes, n);
        }
    }
}

enum ExchangePhase {
    Idle,
    AwaitingReply,
}

/// The two-state discipline of the command channel: one exchange is one
/// transmit immediately followed by one blocking receive, never interleaved
/// with another exchange.
///
/// [`CommandExchange::begin`] encodes a command and moves to the
/// awaiting-reply state; [`CommandExchange::complete`] consumes the received
/// reply and moves back to idle. The contracts admit no second `begin`
/// before the first exchange's `complete`, and no `complete` without a
/// preceding `begin`: at most one command is ever in flight.
pub struct CommandExchange {
    phase: ExchangePhase,
}

impl CommandExchange {
    /// True while a transmitted command still awaits its reply.
    pub closed spec fn in_flight(self) -> bool {
        self.phase is AwaitingReply
    }

    /// A fresh exchange with no command in flight.
    pub fn new() -> (r: CommandExchange)
        ensures
            !r.in_flight(),
    {
        CommandExchange { phase: ExchangePhase::Idle }
    }

    /// Open an exchange: encode `command` into the datagram to transmit.
    ///
    /// The caller must transmit the returned bytes and then hand the reply
    /// to [`CommandExchange::complete`] before beginning another exchange.
    pub fn begin(&mut self, command: &TelloCommand) -> (r: Vec<u8>)
        requires
            !old(self).in_flight(),
        ensures
            final(self).in_flight(),
            r@ == spec_encoding(*command),
    {
        self.phase = ExchangePhase::AwaitingReply;
        get_tello_command_data(command)
    }

    /// Close an exchange: decode the first `received` bytes of the reply
    /// buffer as the response text.
    pub fn complete(&mut self, buf: &[u8], received: usize) -> (r: Result<
        String,
        CommunicationError,
    >)
        requires
            old(self).in_flight(),
            received <= buf@.len(),
        ensures
            !final(self).in_flight(),
            match r {
                Ok(s) => valid_utf8(buf@.subrange(0, received as int)) && s@ == decode_utf8(
                    buf@.subrange(0, received as int),
                ),
                Err(e) => e == CommunicationError::DecodeError && !valid_utf8(
                    buf@.subrange(0, received as int),
                ),
            },
    {
        self.phase = ExchangePhase::Idle;
        decode_datagram(buf, received)
    }
}

} // verus!
