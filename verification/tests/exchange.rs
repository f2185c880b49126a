use serde_json::Value;
use watertank_simulation_server::utils::connection::{Action, Connection, Event};
use watertank_simulation_server::utils::protocol::{
    frame_response, Header, Payload, Point, ProtocolError, ReturnMessage,
};
use watertank_simulation_server::utils::watertank::WaterTank;

fn tank() -> WaterTank {
    WaterTank {
        level: 1_000_000,
        inflow_mean: 20_000_000,
        inflow_stddev: 3_000_000,
        inflow: 20_000_000,
        max_inflow: 40_000_000,
        areal: 1_000_000,
        height: 2_000_000,
        outflow: 20_000_000,
        max_outflow: 40_000_000,
        set_level: 1_000_000,
    }
}

/// What a peer has sent and what it has been sent, in place of a socket.
struct Peer {
    sent: Vec<u8>,
    read: usize,
    received: Vec<u8>,
}

impl Peer {
    fn sending(sent: Vec<u8>) -> Peer {
        Peer { sent, read: 0, received: Vec::new() }
    }

    fn peek(&self) -> usize {
        if self.read < self.sent.len() {
            1
        } else {
            0
        }
    }

    fn read(&mut self, length: usize) -> Vec<u8> {
        let end = usize::min(self.read + length, self.sent.len());
        let bytes = self.sent[self.read..end].to_vec();
        self.read = end;
        bytes
    }
}

fn decode_header(text: &str) -> Option<Header> {
    let value: Value = serde_json::from_str(text).ok()?;
    let len = i32::try_from(value.get("len")?.as_i64()?).ok()?;
    let msg_type = value.get("msg_type")?.as_str()?.to_owned();
    Some(Header { len, msg_type })
}

fn decode_point(text: &str) -> Option<Point> {
    let value: Value = serde_json::from_str(text).ok()?;
    let x = i32::try_from(value.get("x")?.as_i64()?).ok()?;
    let y = i32::try_from(value.get("y")?.as_i64()?).ok()?;
    Some(Point { x, y })
}

fn encode(message: &ReturnMessage) -> Vec<u8> {
    format!(
        "{{\"msg_type\":\"{}\",\"address\":{},\"tank_level\":{},\"tank_inflow\":{}}}",
        message.msg_type, message.address, message.tank_level, message.tank_inflow
    )
    .into_bytes()
}

/// Serves `peer` until the connection closes, answering every request with
/// the report of `snapshot`. Gives the commands that were handed out and the
/// reason of the end.
fn serve(peer: &mut Peer, snapshot: WaterTank) -> (Vec<Payload>, ProtocolError) {
    let mut commands = Vec::new();
    let (mut connection, mut action) = Connection::accept();
    loop {
        let event = match action {
            Action::Peek => Event::Peeked { available: peer.peek() },
            Action::ReadLength => Event::BytesRead { bytes: peer.read(1) },
            Action::ReadHeader { length } => Event::BytesRead { bytes: peer.read(length) },
            Action::DecodeHeader { text } => Event::HeaderDecoded { header: decode_header(&text) },
            Action::ReadPayload { length } => Event::BytesRead { bytes: peer.read(length) },
            Action::DecodePayload { text } => Event::PayloadDecoded { point: decode_point(&text) },
            Action::Exchange { command } => {
                commands.push(command);
                Event::Snapshot { tank: snapshot, published: true }
            },
            Action::Send { message } => {
                peer.received.extend(frame_response(encode(&message)));
                Event::Written { done: true }
            },
            Action::Close { reason } => {
                assert!(connection.is_closed());
                return (commands, reason);
            },
        };
        (connection, action) = connection.step(event);
    }
}

fn request(header: &str, payload: &str) -> Vec<u8> {
    let mut frame = vec![header.len() as u8];
    frame.extend(header.as_bytes());
    frame.extend(payload.as_bytes());
    frame
}

#[test]
fn request_on_the_wire_is_answered_with_one_line() {
    let mut peer = Peer::sending(request("{\"len\":17,\"msg_type\":\"holding-register\"}", "{\"x\":32767,\"y\":0}"));
    let (commands, reason) = serve(&mut peer, tank());
    assert_eq!(commands, vec![Payload { outflow: 32767, setpoint: 0 }]);
    assert_eq!(reason, ProtocolError::ConnectionClosed);
    assert_eq!(
        peer.received,
        b"{\"msg_type\":\"input-register\",\"address\":0,\"tank_level\":32768,\"tank_inflow\":32768}\n".to_vec()
    );
}

#[test]
fn requests_on_one_connection_are_answered_in_turn() {
    let mut sent = request("{\"len\":13,\"msg_type\":\"a\"}", "{\"x\":1,\"y\":2}");
    sent.extend(request("{\"msg_type\":\"\",\"len\":21}", "{\"y\":65535,\"x\":65535}"));
    sent.extend(request("{\"len\":16,\"msg_type\":\"c\"}", "{ \"x\":0, \"y\":0 }"));
    let mut peer = Peer::sending(sent);
    let (commands, reason) = serve(&mut peer, tank());
    assert_eq!(
        commands,
        vec![
            Payload { outflow: 1, setpoint: 2 },
            Payload { outflow: 65535, setpoint: 65535 },
            Payload { outflow: 0, setpoint: 0 }
        ]
    );
    assert_eq!(reason, ProtocolError::ConnectionClosed);
    let line = b"{\"msg_type\":\"input-register\",\"address\":0,\"tank_level\":32768,\"tank_inflow\":32768}\n";
    assert_eq!(peer.received, [line.as_slice(), line.as_slice(), line.as_slice()].concat());
}

#[test]
fn peer_that_sends_nothing_is_sent_nothing() {
    let mut peer = Peer::sending(Vec::new());
    let (commands, reason) = serve(&mut peer, tank());
    assert!(commands.is_empty());
    assert_eq!(reason, ProtocolError::ConnectionClosed);
    assert!(peer.received.is_empty());
}

#[test]
fn payload_cut_short_on_the_wire_is_not_answered() {
    let mut sent = request("{\"len\":17,\"msg_type\":\"holding-register\"}", "{\"x\":32767,\"y\":0}");
    sent.truncate(sent.len() - 4);
    let mut peer = Peer::sending(sent);
    let (commands, reason) = serve(&mut peer, tank());
    assert!(commands.is_empty());
    assert_eq!(reason, ProtocolError::MalformedFrame);
    assert!(peer.received.is_empty());
}

#[test]
fn header_cut_short_on_the_wire_is_not_answered() {
    let mut sent = request("{\"len\":17,\"msg_type\":\"holding-register\"}", "");
    sent.truncate(20);
    let mut peer = Peer::sending(sent);
    let (commands, reason) = serve(&mut peer, tank());
    assert!(commands.is_empty());
    assert_eq!(reason, ProtocolError::MalformedFrame);
    assert!(peer.received.is_empty());
}

#[test]
fn header_that_declares_too_little_breaks_the_next_frame() {
    // The header declares 10 bytes of a payload of 17.
    let mut peer = Peer::sending(request("{\"len\":10,\"msg_type\":\"holding-register\"}", "{\"x\":32767,\"y\":0}"));
    let (commands, reason) = serve(&mut peer, tank());
    assert!(commands.is_empty());
    assert_eq!(reason, ProtocolError::MalformedFrame);
    assert!(peer.received.is_empty());
}

#[test]
fn second_request_that_is_malformed_ends_the_connection_after_the_first_answer() {
    let mut sent = request("{\"len\":13,\"msg_type\":\"a\"}", "{\"x\":1,\"y\":2}");
    sent.extend(request("{\"len\":17,\"msg_type\":\"b\"}", "{\"x\":70000,\"y\":0}"));
    sent.extend(request("{\"len\":13,\"msg_type\":\"c\"}", "{\"x\":3,\"y\":4}"));
    let mut peer = Peer::sending(sent);
    let (commands, reason) = serve(&mut peer, tank());
    assert_eq!(commands, vec![Payload { outflow: 1, setpoint: 2 }]);
    assert_eq!(reason, ProtocolError::MalformedFrame);
    assert_eq!(
        peer.received,
        b"{\"msg_type\":\"input-register\",\"address\":0,\"tank_level\":32768,\"tank_inflow\":32768}\n".to_vec()
    );
}

#[test]
fn header_that_is_no_structured_text_is_not_answered() {
    let mut peer = Peer::sending(request("len=17;msg_type=holding-register", "{\"x\":32767,\"y\":0}"));
    let (commands, reason) = serve(&mut peer, tank());
    assert!(commands.is_empty());
    assert_eq!(reason, ProtocolError::MalformedFrame);
    assert!(peer.received.is_empty());
}

#[test]
fn header_that_is_no_text_is_not_answered() {
    let mut sent = request("{\"len\":17,\"msg_type\":\"holding-register\"}", "{\"x\":32767,\"y\":0}");
    sent[30] = 0xfe;
    let mut peer = Peer::sending(sent);
    let (commands, reason) = serve(&mut peer, tank());
    assert!(commands.is_empty());
    assert_eq!(reason, ProtocolError::MalformedFrame);
    assert!(peer.received.is_empty());
}
