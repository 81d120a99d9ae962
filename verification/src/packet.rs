use vstd::prelude::*;

verus! {

/// Quality of service of a message.
#[derive(Clone, Copy, Debug, PartialEq, Eq, Structural)]
pub enum QoS {
    AtMostOnce,
    AtLeastOnce,
    ExactlyOnce,
}

/// What the broker answers to a connect.
#[derive(Clone, Copy, Debug, PartialEq, Eq, Structural)]
pub enum ConnectReturnCode {
    Accepted,
    RefusedProtocolVersion,
    RefusedIdentifierRejected,
    ServerUnavailable,
    BadUsernamePassword,
    NotAuthorized,
}

/// The message that the broker publishes for a client whose connection drops.
#[derive(Debug)]
pub struct LastWill {
    pub topic: String,
    pub message: String,
    pub qos: QoS,
    pub retain: bool,
}

/// What a `LastWill` stands for.
pub struct LastWillView {
    pub topic: Seq<char>,
    pub message: Seq<char>,
    pub qos: QoS,
    pub retain: bool,
}

impl View for LastWill {
    type V = LastWillView;

    open spec fn view(&self) -> LastWillView {
        LastWillView {
            topic: self.topic@,
            message: self.message@,
            qos: self.qos,
            retain: self.retain,
        }
    }
}

/// The view of an optional last will.
pub open spec fn will_view(will: Option<LastWill>) -> Option<LastWillView> {
    match will {
        Some(w) => Some(w@),
        None => None,
    }
}

/// The topics of a subscribe, each name by its characters.
pub open spec fn subscription_view(topics: Seq<(String, QoS)>) -> Seq<(Seq<char>, QoS)> {
    topics.map_values(|t: (String, QoS)| (t.0@, t.1))
}

/// The topics of an unsubscribe, each name by its characters.
pub open spec fn names_view(topics: Seq<String>) -> Seq<Seq<char>> {
    topics.map_values(|t: String| t@)
}

/// A control packet as the codec hands it in.
#[derive(Debug)]
#[allow(inconsistent_fields)]
pub enum Packet {
    Connect,
    Connack { code: ConnectReturnCode },
    Subscribe { id: u16, topics: Vec<(String, QoS)> },
    Suback { id: u16 },
    Unsubscribe { id: u16, topics: Vec<String> },
    Unsuback { id: u16 },
    Publish { topic: String, payload: Vec<u8>, retain: bool, qos: QoS },
    Puback { id: u16 },
    Pubrec { id: u16 },
    Pubrel { id: u16 },
    Pubcomp { id: u16 },
    Pingreq,
    Pingresp,
    Disconnect,
}

/// What a `Packet` stands for.
#[allow(inconsistent_fields)]
pub enum PacketView {
    Connect,
    Connack { code: ConnectReturnCode },
    Subscribe { id: u16, topics: Seq<(Seq<char>, QoS)> },
    Suback { id: u16 },
    Unsubscribe { id: u16, topics: Seq<Seq<char>> },
    Unsuback { id: u16 },
    Publish { topic: Seq<char>, payload: Seq<u8>, retain: bool, qos: QoS },
    Puback { id: u16 },
    Pubrec { id: u16 },
    Pubrel { id: u16 },
    Pubcomp { id: u16 },
    Pingreq,
    Pingresp,
    Disconnect,
}

impl View for Packet {
    type V = PacketView;

    open spec fn view(&self) -> PacketView {
        match *self {
            Packet::Connect => PacketView::Connect,
            Packet::Connack { code } => PacketView::Connack { code },
            Packet::Subscribe { id, topics } => PacketView::Subscribe {
                id,
                topics: subscription_view(topics@),
            },
            Packet::Suback { id } => PacketView::Suback { id },
            Packet::Unsubscribe { id, topics } => PacketView::Unsubscribe {
                id,
                topics: names_view(topics@),
            },
            Packet::Unsuback { id } => PacketView::Unsuback { id },
            Packet::Publish { topic, payload, retain, qos } => PacketView::Publish {
                topic: topic@,
                payload: payload@,
                retain,
                qos,
            },
            Packet::Puback { id } => PacketView::Puback { id },
            Packet::Pubrec { id } => PacketView::Pubrec { id },
            Packet::Pubrel { id } => PacketView::Pubrel { id },
            Packet::Pubcomp { id } => PacketView::Pubcomp { id },
            Packet::Pingreq => PacketView::Pingreq,
            Packet::Pingresp => PacketView::Pingresp,
            Packet::Disconnect => PacketView::Disconnect,
        }
    }
}

/// Work that is bound for the transport: what the client sends once a
/// transport is there.
#[derive(Debug)]
#[allow(inconsistent_fields)]
pub enum Action {
    /// Send CONNECT, then start to receive.
    Connect { keep_alive: u16, will: Option<LastWill> },
    /// Send SUBSCRIBE under the packet identifier `id`.
    Subscribe { id: u16, topics: Vec<(String, QoS)> },
    /// Send UNSUBSCRIBE under the packet identifier `id`.
    Unsubscribe { id: u16, topics: Vec<String> },
    /// Send PUBLISH.
    Publish { retain: bool, qos: QoS, topic: String, payload: Vec<u8> },
    /// Send DISCONNECT.
    Disconnect,
}

/// What an `Action` stands for.
#[allow(inconsistent_fields)]
pub enum ActionView {
    Connect { keep_alive: u16, will: Option<LastWillView> },
    Subscribe { id: u16, topics: Seq<(Seq<char>, QoS)> },
    Unsubscribe { id: u16, topics: Seq<Seq<char>> },
    Publish { retain: bool, qos: QoS, topic: Seq<char>, payload: Seq<u8> },
    Disconnect,
}

impl View for Action {
    type V = ActionView;

    open spec fn view(&self) -> ActionView {
        match *self {
            Action::Connect { keep_alive, will } => ActionView::Connect {
                keep_alive,
                will: will_view(will),
            },
            Action::Subscribe { id, topics } => ActionView::Subscribe {
                id,
                topics: subscription_view(topics@),
            },
            Action::Unsubscribe { id, topics } => ActionView::Unsubscribe {
                id,
                topics: names_view(topics@),
            },
            Action::Publish { retain, qos, topic, payload } => ActionView::Publish {
                retain,
                qos,
                topic: topic@,
                payload: payload@,
            },
            Action::Disconnect => ActionView::Disconnect,
        }
    }
}

impl Action {
    /// Whether carrying out the action starts the receive loop: the connect
    /// does, after its packet has gone out.
    pub fn starts_receiving(&self) -> (starts: bool)
        ensures
            starts == (self@ is Connect),
    {
        match self {
            Action::Connect { .. } => true,
            _ => false,
        }
    }
}

/// The views of a row of actions, in their order.
pub open spec fn actions_view(actions: Seq<Action>) -> Seq<ActionView> {
    actions.map_values(|a: Action| a@)
}

/// What the connect callback is told for a return code: success for
/// `Accepted`, the code itself for every refusal.
pub open spec fn connack_outcome(code: ConnectReturnCode) -> Result<(), ConnectReturnCode> {
    if code == ConnectReturnCode::Accepted {
        Ok(())
    } else {
        Err(code)
    }
}

impl ConnectReturnCode {
    /// What the connect callback is told for this code.
    pub fn outcome(self) -> (told: Result<(), ConnectReturnCode>)
        ensures
            told == connack_outcome(self),
    {
        match self {
            ConnectReturnCode::Accepted => Ok(()),
            refused => Err(refused),
        }
    }

    /// The text that goes with a refusal where it is reported as an error;
    /// none for `Accepted`.
    pub fn message(self) -> (text: Option<&'static str>)
        ensures
            text.is_some() == (self != ConnectReturnCode::Accepted),
            text matches Some(t) ==> t@ == refusal_text(self),
    {
        match self {
            ConnectReturnCode::Accepted => None,
            ConnectReturnCode::RefusedProtocolVersion => Some(
                "Packet::Connack, RefusedProtocolVersion",
            ),
            ConnectReturnCode::RefusedIdentifierRejected => Some(
                "Packet::Connack, RefusedIdentifierRejected",
            ),
            ConnectReturnCode::ServerUnavailable => Some("Packet::Connack, ServerUnavailable"),
            ConnectReturnCode::BadUsernamePassword => Some("Packet::Connack, BadUsernamePassword"),
            ConnectReturnCode::NotAuthorized => Some("Packet::Connack, NotAuthorized"),
        }
    }
}

/// The text that goes with a refusal.
pub open spec fn refusal_text(code: ConnectReturnCode) -> Seq<char> {
    match code {
        ConnectReturnCode::Accepted => Seq::empty(),
        ConnectReturnCode::RefusedProtocolVersion => "Packet::Connack, RefusedProtocolVersion"@,
        ConnectReturnCode::RefusedIdentifierRejected =>
            "Packet::Connack, RefusedIdentifierRejected"@,
        ConnectReturnCode::ServerUnavailable => "Packet::Connack, ServerUnavailable"@,
        ConnectReturnCode::BadUsernamePassword => "Packet::Connack, BadUsernamePassword"@,
        ConnectReturnCode::NotAuthorized => "Packet::Connack, NotAuthorized"@,
    }
}

} // verus!
