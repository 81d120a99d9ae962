use std::sync::Arc;
use vstd::prelude::*;

verus! {

/// Handle of a connection that the network thread serves.
#[derive(Clone, Copy, Debug, PartialEq, Eq, Structural)]
pub struct Socket {
    socket: usize,
}

/// Handle of the stream behind a connection, plain or encrypted.
#[derive(Clone, Copy, Debug, PartialEq, Eq, Structural)]
pub enum Stream {
    Raw(usize),
    Tls(usize),
}

/// A WebSocket control message.
#[derive(Debug)]
pub enum WSControlType {
    /// Status code and reason of a close.
    Close(u16, String),
    Ping(Vec<u8>),
    Pong(Vec<u8>),
}

/// What a `WSControlType` stands for.
pub enum ControlView {
    Close(u16, Seq<char>),
    Ping(Seq<u8>),
    Pong(Seq<u8>),
}

impl View for WSControlType {
    type V = ControlView;

    open spec fn view(&self) -> ControlView {
        match *self {
            WSControlType::Close(state, reason) => ControlView::Close(state, reason@),
            WSControlType::Ping(data) => ControlView::Ping(data@),
            WSControlType::Pong(data) => ControlView::Pong(data@),
        }
    }
}

/// Work for the network thread that opens a listener or a connection.
pub enum NetRequest<C, L> {
    /// Listen as `config` says, and report to `listener`.
    Bind { config: C, listener: L },
    /// Connect as `config` says, and report to `listener`.
    Connect { config: C, listener: L },
}

/// Work for the network thread on one connection.
pub enum SocketCommand {
    /// Write the bytes to the connection.
    Send { socket: usize, data: Arc<Vec<u8>> },
    /// Close the connection.
    Close { socket: usize, force: bool },
}

/// What a `SocketCommand` stands for.
pub enum CommandView {
    Send { socket: usize, data: Seq<u8> },
    Close { socket: usize, force: bool },
}

impl View for SocketCommand {
    type V = CommandView;

    open spec fn view(&self) -> CommandView {
        match *self {
            SocketCommand::Send { socket, data } => CommandView::Send { socket, data: data@ },
            SocketCommand::Close { socket, force } => CommandView::Close { socket, force },
        }
    }
}

/// Opcode of a binary frame.
pub const BINARY: u8 = 2;

/// Opcode of a close frame.
pub const CLOSE: u8 = 8;

/// Opcode of a ping frame.
pub const PING: u8 = 9;

/// Opcode of a pong frame.
pub const PONG: u8 = 10;

/// The longest payload that a control frame carries.
pub const CONTROL_LIMIT: usize = 125;

/// The length field of an unmasked frame header: the length itself up to
/// 125, else the mark 126 and two bytes, or the mark 127 and eight bytes, most
/// significant byte first.
pub open spec fn length_field(n: nat) -> Seq<u8> {
    if n <= 125 {
        seq![n as u8]
    } else if n <= 65535 {
        seq![126u8, (n / 0x100) as u8, (n % 0x100) as u8]
    } else {
        seq![
            127u8,
            (n / 0x100_0000_0000_0000 % 0x100) as u8,
            (n / 0x1_0000_0000_0000 % 0x100) as u8,
            (n / 0x100_0000_0000 % 0x100) as u8,
            (n / 0x1_0000_0000 % 0x100) as u8,
            (n / 0x100_0000 % 0x100) as u8,
            (n / 0x1_0000 % 0x100) as u8,
            (n / 0x100 % 0x100) as u8,
            (n % 0x100) as u8,
        ]
    }
}

/// A final, unmasked WebSocket frame: the opcode with the final bit set, the
/// length field, the payload.
pub open spec fn frame(opcode: u8, payload: Seq<u8>) -> Seq<u8> {
    seq![(0x80 + opcode) as u8] + length_field(payload.len()) + payload
}

/// The opcode of the frame that carries a control message.
pub open spec fn control_opcode(msg: ControlView) -> u8 {
    match msg {
        ControlView::Close(_, _) => CLOSE,
        ControlView::Ping(_) => PING,
        ControlView::Pong(_) => PONG,
    }
}

/// The payload of the frame that carries a control message. That of a close is
/// the status code, most significant byte first, and the reason in UTF-8.
pub open spec fn control_payload(msg: ControlView) -> Seq<u8> {
    match msg {
        ControlView::Close(state, reason) => seq![(state / 0x100) as u8, (state % 0x100) as u8]
            + vstd::utf8::encode_utf8(reason),
        ControlView::Ping(data) => data,
        ControlView::Pong(data) => data,
    }
}

/// `send_dataframe` of `websocket::sender::Sender`, made without masking, on
/// a binary message: the bytes it writes are the unmasked binary frame of the
/// payload.
#[verifier::external_body]
fn frame_binary(payload: &Vec<u8>) -> (framed: Vec<u8>)
    ensures
        framed@ == frame(BINARY, payload@),
{
    let mut out = std::io::Cursor::new(Vec::new());
    let message = websocket::OwnedMessage::Binary(payload.clone());
    let mut sender = websocket::sender::Sender::new(false);
    let _ = websocket::ws::Sender::send_dataframe(&mut sender, &mut out, &message);
    out.into_inner()
}

/// `send_message` of `websocket::sender::Sender`, made without masking, on a
/// control message: the bytes it writes are the unmasked frame of the
/// message. It refuses a payload of more than 125 bytes, which `requires`
/// leaves out.
#[verifier::external_body]
fn frame_control(msg: &WSControlType) -> (framed: Vec<u8>)
    requires
        control_payload(msg@).len() <= CONTROL_LIMIT,
    ensures
        framed@ == frame(control_opcode(msg@), control_payload(msg@)),
{
    let message = match msg {
        WSControlType::Close(state, reason) => websocket::OwnedMessage::Close(
            Some(websocket::message::CloseData::new(*state, reason.clone())),
        ),
        WSControlType::Ping(data) => websocket::OwnedMessage::Ping(data.clone()),
        WSControlType::Pong(data) => websocket::OwnedMessage::Pong(data.clone()),
    };
    let mut out = std::io::Cursor::new(Vec::new());
    let mut sender = websocket::sender::Sender::new(false);
    websocket::ws::Sender::send_message(&mut sender, &mut out, &message).expect("control frame");
    out.into_inner()
}

impl WSControlType {
    /// Whether the message fits into one control frame.
    pub fn fits_control_frame(&self) -> (fits: bool)
        ensures
            fits == (control_payload(self@).len() <= CONTROL_LIMIT),
    {
        match self {
            WSControlType::Close(_, reason) => reason.as_str().as_bytes().len() <= CONTROL_LIMIT
                - 2,
            WSControlType::Ping(data) => data.len() <= CONTROL_LIMIT,
            WSControlType::Pong(data) => data.len() <= CONTROL_LIMIT,
        }
    }
}

/// The side of the network layer that the logic thread talks to. Each call
/// says what the network thread is to do.
pub struct NetManager {}

impl NetManager {
    pub fn new() -> Self {
        NetManager {  }
    }

    /// Asks for a listener.
    pub fn bind<C, L>(&self, config: C, func: L) -> (request: NetRequest<C, L>)
        ensures
            request == (NetRequest::Bind { config, listener: func }),
    {
        NetRequest::Bind { config, listener: func }
    }

    /// Asks for a connection to a peer.
    pub fn connect<C, L>(&self, config: C, func: L) -> (request: NetRequest<C, L>)
        ensures
            request == (NetRequest::Connect { config, listener: func }),
    {
        NetRequest::Connect { config, listener: func }
    }
}

impl Socket {
    /// The handle with the given number.
    pub fn new(socket: usize) -> (handle: Self)
        ensures
            handle.id() == socket,
    {
        Socket { socket }
    }

    /// The number of the connection.
    pub closed spec fn id(&self) -> usize {
        self.socket
    }

    /// The number of the connection.
    #[verifier::when_used_as_spec(id)]
    pub fn get_id(&self) -> (id: usize)
        ensures
            id == self.id(),
    {
        self.socket
    }

    /// Sends the bytes as one binary WebSocket frame.
    pub fn send(&self, buf: Arc<Vec<u8>>) -> (command: SocketCommand)
        ensures
            command@ == (CommandView::Send { socket: self.id(), data: frame(BINARY, buf@) }),
    {
        let framed = frame_binary(&buf);
        SocketCommand::Send { socket: self.socket, data: Arc::new(framed) }
    }

    /// Sends the bytes as they are.
    pub fn send_bin(&self, buf: Arc<Vec<u8>>) -> (command: SocketCommand)
        ensures
            command@ == (CommandView::Send { socket: self.id(), data: buf@ }),
    {
        SocketCommand::Send { socket: self.socket, data: buf }
    }

    /// Sends a control message. A ping or a pong goes out as its frame; a
    /// close goes out as no frame: the connection is closed by force.
    pub fn send_control(&self, msg: WSControlType) -> (command: SocketCommand)
        requires
            control_payload(msg@).len() <= CONTROL_LIMIT,
        ensures
            command@ == match msg@ {
                ControlView::Close(_, _) => CommandView::Close { socket: self.id(), force: true },
                _ => CommandView::Send {
                    socket: self.id(),
                    data: frame(control_opcode(msg@), control_payload(msg@)),
                },
            },
    {
        match msg {
            WSControlType::Close(_, _) => SocketCommand::Close { socket: self.socket, force: true },
            _ => SocketCommand::Send { socket: self.socket, data: Arc::new(frame_control(&msg)) },
        }
    }

    /// Closes the connection.
    pub fn close(&self, force: bool) -> (command: SocketCommand)
        ensures
            command@ == (CommandView::Close { socket: self.id(), force }),
    {
        SocketCommand::Close { socket: self.socket, force }
    }
}

} // verus!
