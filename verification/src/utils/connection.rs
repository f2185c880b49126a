//! One connection, as a state machine.
//!
//! The machine does no reading, no decoding and no writing. It names the next
//! thing to do as an [`Action`]; whoever owns the socket does it and reports
//! what came of it as an [`Event`]; [`Connection::step`] then gives the next
//! state and the next action. One request is served by the round `Peek`,
//! `ReadLength`, `ReadHeader`, `DecodeHeader`, `ReadPayload`, `DecodePayload`,
//! `Exchange`, `Send`, after which the connection awaits the next frame.

use crate::utils::protocol::{
    check_header, check_payload, header_accepted, payload_accepted, read_header, read_length, read_payload,
    text_accepted, Header, Payload, Point, ProtocolError, ReturnMessage,
};
use crate::utils::watertank::WaterTank;
use vstd::prelude::*;
use vstd::utf8::{decode_utf8, valid_utf8};

verus! {

/// How far the reading of a header has come.
#[derive(Debug, PartialEq, Eq)]
pub enum HeaderStep {
    /// The length byte is being read.
    Length,
    /// The header of `length` bytes is being read.
    Bytes { length: u8 },
    /// The header's text is being decoded.
    Decode,
}

/// How far the reading of a payload has come.
#[derive(Debug, PartialEq, Eq)]
pub enum PayloadStep {
    /// The payload that `header` announced is being read.
    Bytes { header: Header },
    /// The payload's text is being decoded.
    Decode,
}

/// How far the answer to a request has come.
#[derive(Debug, PartialEq, Eq)]
pub enum ResponseStep {
    /// The command is being offered to the simulation and the latest
    /// snapshot taken.
    Exchange,
    /// The report is being written.
    Send,
}

/// Where a connection stands.
#[derive(Debug, PartialEq, Eq)]
pub enum Connection {
    /// Between two requests: it is not yet known whether the peer sent
    /// anything more.
    AwaitFrame,
    /// Reading the header of a request.
    ReadHeader(HeaderStep),
    /// Reading the payload of a request.
    ReadPayload(PayloadStep),
    /// Answering a request, after which the next one is awaited.
    RespondAndLoop(ResponseStep),
    /// Over. The socket is released and nothing more is done.
    Closed,
}

/// What the owner of the socket is to do next.
#[derive(Debug, PartialEq, Eq)]
pub enum Action {
    /// See, without consuming anything, whether a byte can be read.
    Peek,
    /// Read exactly one byte, the length of the header.
    ReadLength,
    /// Read exactly `length` bytes, the header.
    ReadHeader { length: usize },
    /// Decode `text` as a [`Header`].
    DecodeHeader { text: String },
    /// Read exactly `length` bytes, the payload.
    ReadPayload { length: usize },
    /// Decode `text` as a [`Point`].
    DecodePayload { text: String },
    /// Offer `command` to the simulation, without waiting and whether or not
    /// it is taken; then take the latest snapshot of the tank.
    Exchange { command: Payload },
    /// Encode `message`, end it with the delimiter and write it.
    Send { message: ReturnMessage },
    /// Release the socket.
    Close { reason: ProtocolError },
}

/// What came of the last action.
#[derive(Debug, PartialEq, Eq)]
pub enum Event {
    /// `Peek` found `available` bytes; none means that the peer has closed.
    Peeked { available: usize },
    /// A read received `bytes`: all that were asked for, or fewer where the
    /// peer closed before they had come.
    BytesRead { bytes: Vec<u8> },
    /// Decoding the header's text gave `header`, `None` where it failed.
    HeaderDecoded { header: Option<Header> },
    /// Decoding the payload's text gave `point`, `None` where it failed.
    PayloadDecoded { point: Option<Point> },
    /// `Exchange` found `tank` to be the latest snapshot. `published` tells
    /// whether the simulation's queue took the command.
    Snapshot { tank: WaterTank, published: bool },
    /// `Send` wrote the whole response (`done`), or could not.
    Written { done: bool },
}

/// The connection ends for `reason`.
pub open spec fn closes(post: Connection, action: Action, reason: ProtocolError) -> bool {
    post == Connection::Closed && action == (Action::Close { reason })
}

/// The rules of a connection: in state `pre`, `event` leads to state `post`
/// and asks for `action`. An event that does not answer what the state asked
/// for ends the connection, and so does every event after its end.
pub open spec fn transition(pre: Connection, event: Event, post: Connection, action: Action) -> bool {
    match (pre, event) {
        (Connection::AwaitFrame, Event::Peeked { available }) => {
            if available == 0 {
                closes(post, action, ProtocolError::ConnectionClosed)
            } else {
                post == Connection::ReadHeader(HeaderStep::Length) && action == Action::ReadLength
            }
        },
        (Connection::ReadHeader(HeaderStep::Length), Event::BytesRead { bytes }) => {
            if bytes@.len() == 1 {
                &&& post == Connection::ReadHeader(HeaderStep::Bytes { length: bytes@[0] })
                &&& action == (Action::ReadHeader { length: bytes@[0] as usize })
            } else {
                closes(post, action, ProtocolError::MalformedFrame)
            }
        },
        (Connection::ReadHeader(HeaderStep::Bytes { length }), Event::BytesRead { bytes }) => {
            if text_accepted(length as int, bytes@) {
                &&& post == Connection::ReadHeader(HeaderStep::Decode)
                &&& action matches Action::DecodeHeader { text }
                &&& text@ == decode_utf8(bytes@)
            } else {
                closes(post, action, ProtocolError::MalformedFrame)
            }
        },
        (Connection::ReadHeader(HeaderStep::Decode), Event::HeaderDecoded { header }) => {
            if header_accepted(header) {
                &&& post == Connection::ReadPayload(PayloadStep::Bytes { header: header->0 })
                &&& action == (Action::ReadPayload { length: header->0.len as usize })
            } else {
                closes(post, action, ProtocolError::MalformedFrame)
            }
        },
        (Connection::ReadPayload(PayloadStep::Bytes { header }), Event::BytesRead { bytes }) => {
            if text_accepted(header.len as int, bytes@) {
                &&& post == Connection::ReadPayload(PayloadStep::Decode)
                &&& action matches Action::DecodePayload { text }
                &&& text@ == decode_utf8(bytes@)
            } else {
                closes(post, action, ProtocolError::MalformedFrame)
            }
        },
        (Connection::ReadPayload(PayloadStep::Decode), Event::PayloadDecoded { point }) => {
            if payload_accepted(point) {
                &&& post == Connection::RespondAndLoop(ResponseStep::Exchange)
                &&& action == (Action::Exchange {
                    command: Payload { outflow: point->0.x as u16, setpoint: point->0.y as u16 },
                })
            } else {
                closes(post, action, ProtocolError::MalformedFrame)
            }
        },
        (Connection::RespondAndLoop(ResponseStep::Exchange), Event::Snapshot { tank, published }) => {
            &&& post == Connection::RespondAndLoop(ResponseStep::Send)
            &&& action matches Action::Send { message }
            &&& message.reports(tank)
        },
        (Connection::RespondAndLoop(ResponseStep::Send), Event::Written { done }) => {
            if done {
                post == Connection::AwaitFrame && action == Action::Peek
            } else {
                closes(post, action, ProtocolError::ConnectionClosed)
            }
        },
        _ => closes(post, action, ProtocolError::OutOfTurn),
    }
}

impl Connection {
    /// A connection that has just been accepted: it awaits its first frame,
    /// and the first thing to do is to peek.
    pub fn accept() -> (start: (Connection, Action))
        ensures
            start.0 == Connection::AwaitFrame,
            start.1 == Action::Peek,
    {
        (Connection::AwaitFrame, Action::Peek)
    }

    /// Whether the connection is over.
    pub fn is_closed(&self) -> (closed: bool)
        ensures
            closed == (*self == Connection::Closed),
    {
        match self {
            Connection::Closed => true,
            _ => false,
        }
    }

    /// Takes `event` and gives the next state and the next action, by the
    /// rules of [`transition`].
    pub fn step(self, event: Event) -> (next: (Connection, Action))
        ensures
            transition(self, event, next.0, next.1),
    {
        match self {
            Connection::AwaitFrame => match event {
                Event::Peeked { available } => {
                    if available == 0 {
                        close(ProtocolError::ConnectionClosed)
                    } else {
                        (Connection::ReadHeader(HeaderStep::Length), Action::ReadLength)
                    }
                },
                _ => close(ProtocolError::OutOfTurn),
            },
            Connection::ReadHeader(HeaderStep::Length) => match event {
                Event::BytesRead { bytes } => match read_length(bytes.as_slice()) {
                    Ok(length) => (
                        Connection::ReadHeader(HeaderStep::Bytes { length }),
                        Action::ReadHeader { length: length as usize },
                    ),
                    Err(reason) => close(reason),
                },
                _ => close(ProtocolError::OutOfTurn),
            },
            Connection::ReadHeader(HeaderStep::Bytes { length }) => match event {
                Event::BytesRead { bytes } => match read_header(length, bytes.as_slice()) {
                    Ok(text) => (Connection::ReadHeader(HeaderStep::Decode), Action::DecodeHeader { text }),
                    Err(reason) => close(reason),
                },
                _ => close(ProtocolError::OutOfTurn),
            },
            Connection::ReadHeader(HeaderStep::Decode) => match event {
                Event::HeaderDecoded { header } => match check_header(header) {
                    Ok(header) => {
                        let length = header.len as usize;
                        (Connection::ReadPayload(PayloadStep::Bytes { header }), Action::ReadPayload { length })
                    },
                    Err(reason) => close(reason),
                },
                _ => close(ProtocolError::OutOfTurn),
            },
            Connection::ReadPayload(PayloadStep::Bytes { header }) => match event {
                Event::BytesRead { bytes } => match read_payload(&header, bytes.as_slice()) {
                    Ok(text) => (Connection::ReadPayload(PayloadStep::Decode), Action::DecodePayload { text }),
                    Err(reason) => close(reason),
                },
                _ => close(ProtocolError::OutOfTurn),
            },
            Connection::ReadPayload(PayloadStep::Decode) => match event {
                Event::PayloadDecoded { point } => match check_payload(point) {
                    Ok(command) => (
                        Connection::RespondAndLoop(ResponseStep::Exchange),
                        Action::Exchange { command },
                    ),
                    Err(reason) => close(reason),
                },
                _ => close(ProtocolError::OutOfTurn),
            },
            Connection::RespondAndLoop(ResponseStep::Exchange) => match event {
                Event::Snapshot { tank, published: _ } => {
                    let message = ReturnMessage::report(&tank);
                    (Connection::RespondAndLoop(ResponseStep::Send), Action::Send { message })
                },
                _ => close(ProtocolError::OutOfTurn),
            },
            Connection::RespondAndLoop(ResponseStep::Send) => match event {
                Event::Written { done } => {
                    if done {
                        (Connection::AwaitFrame, Action::Peek)
                    } else {
                        close(ProtocolError::ConnectionClosed)
                    }
                },
                _ => close(ProtocolError::OutOfTurn),
            },
            Connection::Closed => close(ProtocolError::OutOfTurn),
        }
    }
}

/// The socket is released exactly when the connection is over: a step ends
/// in `Closed` if and only if it asks to close.
pub proof fn lemma_closed_iff_close(pre: Connection, event: Event, post: Connection, action: Action)
    requires
        transition(pre, event, post, action),
    ensures
        post == Connection::Closed <==> action is Close,
{
}

/// A closed connection stays closed, whatever it is told.
pub proof fn lemma_closed_is_final(event: Event, post: Connection, action: Action)
    requires
        transition(Connection::Closed, event, post, action),
    ensures
        closes(post, action, ProtocolError::OutOfTurn),
{
}

/// A header that stops short of the length that was announced ends the
/// connection as malformed.
pub proof fn lemma_short_header_closes(length: u8, bytes: Vec<u8>, post: Connection, action: Action)
    requires
        bytes@.len() != length,
        transition(
            Connection::ReadHeader(HeaderStep::Bytes { length }),
            Event::BytesRead { bytes },
            post,
            action,
        ),
    ensures
        closes(post, action, ProtocolError::MalformedFrame),
{
}

/// A payload that stops short of the length that its header declared, as when
/// the peer closes in the middle of it, ends the connection as malformed.
pub proof fn lemma_short_payload_closes(header: Header, bytes: Vec<u8>, post: Connection, action: Action)
    requires
        bytes@.len() != header.len,
        transition(
            Connection::ReadPayload(PayloadStep::Bytes { header }),
            Event::BytesRead { bytes },
            post,
            action,
        ),
    ensures
        closes(post, action, ProtocolError::MalformedFrame),
{
}

/// A well-formed request is served in eight steps: header and payload are
/// handed out for decoding as the text that their bytes encode, the command
/// is handed out for the simulation, the report of the snapshot that came
/// back is sent, and the connection awaits the next frame. Whether the queue
/// took the command makes no difference.
pub proof fn lemma_request_is_served(
    available: usize,
    length_byte: Vec<u8>,
    header_bytes: Vec<u8>,
    header: Header,
    payload_bytes: Vec<u8>,
    point: Point,
    tank: WaterTank,
    published: bool,
    states: Seq<Connection>,
    actions: Seq<Action>,
)
    requires
        available > 0,
        length_byte@.len() == 1,
        length_byte@[0] == header_bytes@.len(),
        valid_utf8(header_bytes@),
        header.len == payload_bytes@.len(),
        valid_utf8(payload_bytes@),
        0 <= point.x <= 65535,
        0 <= point.y <= 65535,
        states.len() == 8,
        actions.len() == 8,
        transition(Connection::AwaitFrame, Event::Peeked { available }, states[0], actions[0]),
        transition(states[0], Event::BytesRead { bytes: length_byte }, states[1], actions[1]),
        transition(states[1], Event::BytesRead { bytes: header_bytes }, states[2], actions[2]),
        transition(states[2], Event::HeaderDecoded { header: Some(header) }, states[3], actions[3]),
        transition(states[3], Event::BytesRead { bytes: payload_bytes }, states[4], actions[4]),
        transition(states[4], Event::PayloadDecoded { point: Some(point) }, states[5], actions[5]),
        transition(states[5], Event::Snapshot { tank, published }, states[6], actions[6]),
        transition(states[6], Event::Written { done: true }, states[7], actions[7]),
    ensures
        actions[0] == Action::ReadLength,
        actions[1] == (Action::ReadHeader { length: header_bytes@.len() as usize }),
        actions[2] matches Action::DecodeHeader { text } && text@ == decode_utf8(header_bytes@),
        actions[3] == (Action::ReadPayload { length: payload_bytes@.len() as usize }),
        actions[4] matches Action::DecodePayload { text } && text@ == decode_utf8(payload_bytes@),
        actions[5] == (Action::Exchange {
            command: Payload { outflow: point.x as u16, setpoint: point.y as u16 },
        }),
        actions[6] matches Action::Send { message } && message.reports(tank),
        states[7] == Connection::AwaitFrame,
        actions[7] == Action::Peek,
{
}

/// The end of a connection for `reason`.
fn close(reason: ProtocolError) -> (end: (Connection, Action))
    ensures
        closes(end.0, end.1, reason),
{
    (Connection::Closed, Action::Close { reason })
}

} // verus!
