//! The wire protocol: the messages, the scaling between physical values and
//! 16-bit wire values, and the rules by which a request is accepted.
//!
//! A request is one length byte, a header of that many bytes, and a payload of
//! as many bytes as the header declares. Header and payload are structured
//! text in UTF-8. This module takes the bytes to text and judges the decoded
//! values; decoding the text into a [`Header`] or a [`Point`] is left to the
//! caller, and so is encoding a [`ReturnMessage`].

use crate::utils::rounding::{div_round, lemma_round_div_nearest, lemma_round_div_unique, round_div};
use crate::utils::watertank::WaterTank;
use vstd::prelude::*;
use vstd::string::StringSliceAdditionalSpecFns;
use vstd::utf8::{decode_utf8, encode_utf8_decode_utf8, valid_utf8};

verus! {

/// The wire value that stands for the full scale of a physical quantity.
pub const FULL_SCALE: u16 = 65535;

/// The byte that ends a response on the wire: a line feed.
pub const RESPONSE_DELIMITER: u8 = 10;

/// The tag that every response carries.
pub const RESPONSE_TAG: &'static str = "input-register";

/// A command to the simulation: the outflow and the level set point, both as
/// wire values.
#[derive(Debug, Copy, Clone, PartialEq, Eq, Structural)]
pub struct Payload {
    pub outflow: u16,
    pub setpoint: u16,
}

/// The header of a request. `len` is the number of bytes of the payload that
/// follows; `msg_type` is carried and not acted upon.
#[derive(Debug, PartialEq, Eq)]
pub struct Header {
    pub len: i32,
    pub msg_type: String,
}

/// The payload of a request as it is written on the wire: `x` is the outflow
/// command, `y` the set point.
#[derive(Debug, Copy, Clone, PartialEq, Eq, Structural)]
pub struct Point {
    pub x: i32,
    pub y: i32,
}

/// The response to a request: the tank's level and inflow as wire values.
#[derive(Debug, PartialEq, Eq)]
pub struct ReturnMessage {
    pub msg_type: String,
    pub address: i32,
    pub tank_level: u16,
    pub tank_inflow: u16,
}

/// Why a connection ends.
#[derive(Debug, Copy, Clone, PartialEq, Eq, Structural)]
pub enum ProtocolError {
    /// The peer closed the connection. This is the ordinary end.
    ConnectionClosed,
    /// Header or payload could not be decoded, fewer bytes arrived than were
    /// declared, or a decoded value lies outside its range.
    MalformedFrame,
    /// The connection was told of something that it had not asked for.
    OutOfTurn,
}

/// The wire value of `value` on a scale from zero to `max`:
/// `value / max * 65535` rounded to the nearest integer, and held to the
/// range of the wire: zero for what lies at or below zero, full scale for what
/// lies at or above `max`.
pub open spec fn normalized(max: int, value: int) -> int {
    if value <= 0 {
        0
    } else if value >= max {
        FULL_SCALE as int
    } else {
        round_div(value * FULL_SCALE, max)
    }
}

/// The physical value of the wire value `wire` on a scale from zero to `max`:
/// `wire / 65535 * max`, rounded to the nearest integer.
pub open spec fn scaled(max: int, wire: int) -> int {
    round_div(wire * max, FULL_SCALE as int)
}

/// A wire value lies in the range of the wire, and on a positive scale it is
/// the rounded quotient held to that range.
pub proof fn lemma_normalized_is_clamped(max: int, value: int)
    ensures
        0 <= normalized(max, value) <= FULL_SCALE,
        max > 0 ==> normalized(max, value) == {
            let exact = round_div(value * FULL_SCALE, max);
            if exact < 0 {
                0
            } else if exact > FULL_SCALE {
                FULL_SCALE as int
            } else {
                exact
            }
        },
{
    if max > 0 {
        let n = value * FULL_SCALE;
        let q = round_div(n, max);
        lemma_round_div_nearest(n, max);
        if value <= 0 {
            assert(q <= 0) by (nonlinear_arith)
                requires
                    max > 0,
                    n <= 0,
                    -max <= 2 * (n - q * max),
            ;
        } else if value >= max {
            assert(q >= 65535) by (nonlinear_arith)
                requires
                    max > 0,
                    n >= 65535 * max,
                    2 * (n - q * max) < max,
            ;
        } else {
            assert(0 <= q <= 65535) by (nonlinear_arith)
                requires
                    max > 0,
                    0 <= n <= 65535 * max,
                    -max <= 2 * (n - q * max) < max,
            ;
        }
    }
}

/// A physical value taken from the wire lies on its scale.
pub proof fn lemma_scaled_in_range(max: int, wire: int)
    requires
        0 <= max,
        0 <= wire <= FULL_SCALE,
    ensures
        0 <= scaled(max, wire) <= max,
{
    let n = wire * max;
    lemma_round_div_nearest(n, 65535);
    assert(0 <= n <= 65535 * max) by (nonlinear_arith)
        requires
            n == wire * max,
            0 <= max,
            0 <= wire <= 65535,
    ;
}

/// The ends of a scale and the ends of the wire stand for each other: the
/// largest physical value is sent as 65535 and zero as 0, and 65535 and 0 are
/// read back as the largest value and as zero.
pub proof fn lemma_scale_ends(max: int)
    requires
        max > 0,
    ensures
        normalized(max, max) == FULL_SCALE,
        normalized(max, 0) == 0,
        scaled(max, FULL_SCALE as int) == max,
        scaled(max, 0) == 0,
{
    lemma_round_div_unique(FULL_SCALE * max, FULL_SCALE as int, max);
    lemma_round_div_unique(0 * max, FULL_SCALE as int, 0);
}

/// A physical value that is sent and read back comes out within half a step
/// of the wire, which is `max / 65535`, and half a unit of rounding.
pub proof fn lemma_physical_round_trip(max: int, value: int)
    requires
        max > 0,
        0 <= value <= max,
    ensures
        ({
            let back = scaled(max, normalized(max, value));
            -(max + FULL_SCALE) <= 2 * FULL_SCALE * (back - value) <= max + FULL_SCALE
        }),
{
    let wire = normalized(max, value);
    let back = scaled(max, wire);
    assert(-max <= 2 * (value * 65535 - wire * max) <= max) by {
        if 0 < value < max {
            lemma_round_div_nearest(value * FULL_SCALE, max);
        } else if value == max {
            assert(max * 65535 == 65535 * max) by (nonlinear_arith);
        }
    }
    lemma_round_div_nearest(wire * max, FULL_SCALE as int);
    assert(2 * 65535 * (back - value) == 2 * (back * 65535 - wire * max) + 2 * (wire * max - value * 65535))
        by (nonlinear_arith);
}

/// On a scale of at least 65535 units no wire value is lost: read as a
/// physical value and sent again, it comes out as it was.
pub proof fn lemma_wire_round_trip(max: int, wire: int)
    requires
        max >= FULL_SCALE,
        0 <= wire <= FULL_SCALE,
    ensures
        normalized(max, scaled(max, wire)) == wire,
{
    let value = scaled(max, wire);
    lemma_round_div_nearest(wire * max, FULL_SCALE as int);
    if value <= 0 {
        assert(wire == 0) by (nonlinear_arith)
            requires
                max >= 65535,
                0 <= wire,
                value <= 0,
                2 * (wire * max - value * 65535) < 65535,
        ;
    } else if value >= max {
        assert(wire >= 65535) by (nonlinear_arith)
            requires
                max >= 65535,
                wire <= 65535,
                value >= max,
                -65535 <= 2 * (wire * max - value * 65535),
        ;
    } else {
        assert(-max <= 2 * (value * 65535 - wire * max) < max) by (nonlinear_arith)
            requires
                max >= 65535,
                0 <= wire <= 65535,
                0 < value < max,
                -65535 <= 2 * (wire * max - value * 65535) < 65535,
        ;
        lemma_round_div_unique(value * FULL_SCALE, max, wire);
    }
}

/// Scales `value`, which lies on a scale from zero to `max`, to the wire.
/// The lower end of every scale is zero: `_min` is taken and not used.
pub fn convert_f32_to_mobdus_u16(_min: i64, max: i64, value: i64) -> (wire: u16)
    ensures
        wire == normalized(max as int, value as int),
{
    if value <= 0 {
        0
    } else if value >= max {
        FULL_SCALE
    } else {
        let exact: i128 = div_round(value as i128 * 65535, max as i128);
        proof {
            lemma_normalized_is_clamped(max as int, value as int);
        }
        exact as u16
    }
}

/// Scales the wire value `wire` to a scale from zero to `max`.
pub fn convert_u16_to_physical(max: i64, wire: u16) -> (value: i64)
    ensures
        value == scaled(max as int, wire as int),
        0 <= max ==> 0 <= value <= max,
{
    assert(-0x8000_0000_0000_0000 * 65535 <= wire * max <= 0x7fff_ffff_ffff_ffff * 65535) by (nonlinear_arith)
        requires
            0 <= wire <= 65535,
            -0x8000_0000_0000_0000 <= max <= 0x7fff_ffff_ffff_ffff,
    ;
    let exact: i128 = div_round(wire as i128 * max as i128, 65535);
    proof {
        lemma_round_div_nearest(wire * max, 65535);
        if 0 <= max {
            lemma_scaled_in_range(max as int, wire as int);
        }
    }
    exact as i64
}

/// `std::str::from_utf8`: `bytes` taken as text where they are well-formed
/// UTF-8, and `None` where they are not. The text consists of the very bytes
/// that were given.
#[verifier::external_body]
fn utf8_text(bytes: &[u8]) -> (text: Option<&str>)
    ensures
        text is Some <==> valid_utf8(bytes@),
        text matches Some(given) ==> given.spec_bytes() == bytes@,
{
    match std::str::from_utf8(bytes) {
        Ok(text) => Some(text),
        Err(_) => None,
    }
}

/// Whether `bytes` are a whole part of a frame: as many bytes as were
/// announced, and well-formed UTF-8.
pub open spec fn text_accepted(announced: int, bytes: Seq<u8>) -> bool {
    bytes.len() == announced && valid_utf8(bytes)
}

/// Whether a decoded header can be followed: the payload length that it
/// declares is not negative.
pub open spec fn header_accepted(decoded: Option<Header>) -> bool {
    decoded matches Some(header) && header.len >= 0
}

/// Whether a decoded payload is a command: both values are 16-bit
/// magnitudes.
pub open spec fn payload_accepted(decoded: Option<Point>) -> bool {
    decoded matches Some(point) && 0 <= point.x <= FULL_SCALE && 0 <= point.y <= FULL_SCALE
}

/// The text of a part of a frame of which `announced` bytes were to come and
/// `bytes` came.
fn read_text(announced: usize, bytes: &[u8]) -> (result: Result<String, ProtocolError>)
    ensures
        text_accepted(announced as int, bytes@) ==> (result matches Ok(text) && text@ == decode_utf8(bytes@)),
        !text_accepted(announced as int, bytes@) ==> result == Err::<String, ProtocolError>(
            ProtocolError::MalformedFrame,
        ),
{
    if bytes.len() != announced {
        return Err(ProtocolError::MalformedFrame);
    }
    match utf8_text(bytes) {
        Some(text) => {
            proof {
                encode_utf8_decode_utf8(text@);
            }
            Ok(text.to_owned())
        },
        None => Err(ProtocolError::MalformedFrame),
    }
}

/// Reads the length of the header from `bytes`, the bytes that came when one
/// was asked for. Anything but one byte is a malformed frame.
pub fn read_length(bytes: &[u8]) -> (result: Result<u8, ProtocolError>)
    ensures
        bytes@.len() == 1 ==> result == Ok::<u8, ProtocolError>(bytes@[0]),
        bytes@.len() != 1 ==> result == Err::<u8, ProtocolError>(ProtocolError::MalformedFrame),
{
    if bytes.len() == 1 {
        Ok(bytes[0])
    } else {
        Err(ProtocolError::MalformedFrame)
    }
}

/// Reads the text of a header from `bytes`, the bytes that came after the
/// length byte `len`. Fewer or more bytes than `len`, or bytes that are no
/// UTF-8 text, are a malformed frame. The text is still to be decoded.
pub fn read_header(len: u8, bytes: &[u8]) -> (result: Result<String, ProtocolError>)
    ensures
        text_accepted(len as int, bytes@) ==> (result matches Ok(text) && text@ == decode_utf8(bytes@)),
        !text_accepted(len as int, bytes@) ==> result == Err::<String, ProtocolError>(
            ProtocolError::MalformedFrame,
        ),
{
    read_text(len as usize, bytes)
}

/// Reads the text of a payload from `bytes`, the bytes that came after
/// `header`. Fewer or more bytes than the header declares, or bytes that are
/// no UTF-8 text, are a malformed frame. The text is still to be decoded.
pub fn read_payload(header: &Header, bytes: &[u8]) -> (result: Result<String, ProtocolError>)
    ensures
        text_accepted(header.len as int, bytes@) ==> (result matches Ok(text) && text@ == decode_utf8(bytes@)),
        !text_accepted(header.len as int, bytes@) ==> result == Err::<String, ProtocolError>(
            ProtocolError::MalformedFrame,
        ),
{
    if header.len < 0 {
        return Err(ProtocolError::MalformedFrame);
    }
    read_text(header.len as usize, bytes)
}

/// Judges what decoding the text of a header gave: `None` where it failed.
/// A header is followed where it was decoded and declares a payload of zero
/// or more bytes; else the frame is malformed.
pub fn check_header(decoded: Option<Header>) -> (result: Result<Header, ProtocolError>)
    ensures
        header_accepted(decoded) ==> result == Ok::<Header, ProtocolError>(decoded->0),
        !header_accepted(decoded) ==> result == Err::<Header, ProtocolError>(ProtocolError::MalformedFrame),
{
    match decoded {
        Some(header) => {
            if header.len >= 0 {
                Ok(header)
            } else {
                Err(ProtocolError::MalformedFrame)
            }
        },
        None => Err(ProtocolError::MalformedFrame),
    }
}

/// Judges what decoding the text of a payload gave, `None` where it failed,
/// and turns it into a command: `x` is the outflow and `y` the set point. A
/// payload that was not decoded, or with a value outside 0 to 65535, is a
/// malformed frame.
pub fn check_payload(decoded: Option<Point>) -> (result: Result<Payload, ProtocolError>)
    ensures
        payload_accepted(decoded) ==> result == Ok::<Payload, ProtocolError>(
            Payload { outflow: decoded->0.x as u16, setpoint: decoded->0.y as u16 },
        ),
        !payload_accepted(decoded) ==> result == Err::<Payload, ProtocolError>(ProtocolError::MalformedFrame),
{
    match decoded {
        Some(point) => {
            if 0 <= point.x && point.x <= 65535 && 0 <= point.y && point.y <= 65535 {
                Ok(Payload { outflow: point.x as u16, setpoint: point.y as u16 })
            } else {
                Err(ProtocolError::MalformedFrame)
            }
        },
        None => Err(ProtocolError::MalformedFrame),
    }
}

impl ReturnMessage {
    /// Whether this message is the report of `tank`: the fixed tag, address
    /// zero, and the level and the inflow scaled to the wire, the level against
    /// the tank's height and the inflow against the largest inflow.
    pub open spec fn reports(&self, tank: WaterTank) -> bool {
        &&& self.msg_type@ == RESPONSE_TAG@
        &&& self.address == 0
        &&& self.tank_level == normalized(tank.height as int, tank.level as int)
        &&& self.tank_inflow == normalized(tank.max_inflow as int, tank.inflow as int)
    }

    /// The report of `tank`.
    pub fn report(tank: &WaterTank) -> (message: ReturnMessage)
        ensures
            message.reports(*tank),
    {
        ReturnMessage {
            msg_type: RESPONSE_TAG.to_owned(),
            address: 0,
            tank_level: convert_f32_to_mobdus_u16(0, tank.height, tank.level),
            tank_inflow: convert_f32_to_mobdus_u16(0, tank.max_inflow, tank.inflow),
        }
    }
}

/// Ends an encoded response with the delimiter, ready to be sent.
pub fn frame_response(encoded: Vec<u8>) -> (framed: Vec<u8>)
    ensures
        framed@ == encoded@.push(RESPONSE_DELIMITER),
{
    let mut framed = encoded;
    framed.push(RESPONSE_DELIMITER);
    framed
}

} // verus!
