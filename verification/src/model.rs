use vstd::prelude::*;
use crate::correlation::{subscribe_key, unsubscribe_key, CorrelationView};
use crate::error::ClientError;
use crate::keepalive::{keep_alive_timer, TimerRequest};
use crate::net::{Socket, Stream};
use crate::packet::{connack_outcome, ActionView, ConnectReturnCode, LastWillView, PacketView, QoS};
use crate::registry::RegistryView;
use crate::topic::{any_wildcard, topic_levels};

verus! {

/// The names of the topics of a subscribe.
pub open spec fn subscribed_names(topics: Seq<(Seq<char>, QoS)>) -> Seq<Seq<char>> {
    topics.map_values(|t: (Seq<char>, QoS)| t.0)
}

/// The topics as they go on the wire: each at most once, whatever was asked
/// for.
pub open spec fn at_most_once(names: Seq<Seq<char>>) -> Seq<(Seq<char>, QoS)> {
    names.map_values(|name: Seq<char>| (name, QoS::AtMostOnce))
}

/// An action together with the transport on which it is due now.
pub struct DispatchView {
    pub socket: Socket,
    pub stream: Stream,
    pub action: ActionView,
}

/// What is due after a packet came in, or after receiving failed.
pub enum ReactionView<H, C> {
    /// Receiving failed: the receive loop ends.
    Stopped,
    /// Nothing is due but to receive again.
    Idle,
    /// The connect callback, if one waits, is told the outcome.
    Connected { callback: Option<C>, outcome: Result<(), ConnectReturnCode> },
    /// The callback, if one waits, is told of success.
    Acknowledged { callback: Option<C> },
    /// Each handler is called with the payload.
    Deliver { handlers: Seq<H>, payload: Seq<u8> },
}

/// The state of a client: what a `ClientNodeImpl` stands for.
pub struct ClientView<H, C> {
    /// The socket and stream in use, once `set_stream` gave them.
    pub transport: Option<(Socket, Stream)>,
    /// The keep-alive interval in seconds; 0 for none.
    pub keep_alive: u16,
    /// Told once of the broker's answer to the connect.
    pub connect_callback: Option<C>,
    /// Kept for the close of the connection.
    pub close_callback: Option<C>,
    /// The identifier counters and the completions that wait.
    pub correlation: CorrelationView<C>,
    /// The attributes by name.
    pub attributes: Map<Seq<char>, Seq<u8>>,
    /// The topic handlers.
    pub topics: RegistryView<H>,
    /// The actions that wait for a transport, oldest first.
    pub pending_actions: Seq<ActionView>,
}

impl<H, C> ClientView<H, C> {
    /// The state of a new client: no transport, nothing stored.
    pub open spec fn empty() -> Self {
        ClientView {
            transport: None,
            keep_alive: 0,
            connect_callback: None,
            close_callback: None,
            correlation: CorrelationView::empty(),
            attributes: Map::empty(),
            topics: RegistryView::empty(),
            pending_actions: Seq::empty(),
        }
    }

    /// The registry is well formed, and no action waits while a transport is
    /// there.
    pub open spec fn wf(self) -> bool {
        &&& self.topics.wf()
        &&& self.transport is Some ==> self.pending_actions.len() == 0
    }

    /// The state after an action was handed in: it waits at the end of the
    /// queue while there is no transport; with a transport nothing changes.
    pub open spec fn defer(self, action: ActionView) -> Self {
        if self.transport is None {
            ClientView { pending_actions: self.pending_actions.push(action), ..self }
        } else {
            self
        }
    }

    /// What is due at once for an action that is handed in: the action on the
    /// transport, if there is one.
    pub open spec fn immediate(self, action: ActionView) -> Option<DispatchView> {
        match self.transport {
            Some((socket, stream)) => Some(DispatchView { socket, stream, action }),
            None => None,
        }
    }

    /// The state after a row of actions was handed in, one after the other.
    pub open spec fn defer_all(self, actions: Seq<ActionView>) -> Self
        decreases actions.len(),
    {
        if actions.len() == 0 {
            self
        } else {
            self.defer(actions[0]).defer_all(actions.skip(1))
        }
    }

    /// The actions that `set_stream` replays, in their order: all that wait.
    pub open spec fn replayed(self) -> Seq<ActionView> {
        self.pending_actions
    }

    /// The timer that is due when a transport is attached or the keep-alive
    /// timer has fired.
    pub open spec fn timer(self) -> Option<TimerRequest> {
        keep_alive_timer(self.keep_alive)
    }

    /// The state after `set_stream`: the transport is there and nothing waits.
    pub open spec fn set_stream(self, socket: Socket, stream: Stream) -> Self {
        ClientView { transport: Some((socket, stream)), pending_actions: Seq::empty(), ..self }
    }

    /// The state after `connect`.
    pub open spec fn connect(
        self,
        keep_alive: u16,
        will: Option<LastWillView>,
        close_func: Option<C>,
        connect_func: Option<C>,
    ) -> Self {
        ClientView {
            keep_alive,
            close_callback: close_func,
            connect_callback: connect_func,
            ..self
        }.defer(ActionView::Connect { keep_alive, will })
    }

    /// The action that a subscribe to these topics hands in.
    pub open spec fn subscribe_action(self, topics: Seq<(Seq<char>, QoS)>) -> ActionView {
        ActionView::Subscribe {
            id: self.correlation.next_subscribe_id,
            topics: at_most_once(subscribed_names(topics)),
        }
    }

    /// The state after `subscribe`: unchanged where a topic meets an
    /// objection; else the callback waits under the odd key of the identifier
    /// taken, and the action is handed in.
    pub open spec fn subscribe(self, topics: Seq<(Seq<char>, QoS)>, callback: Option<C>) -> Self {
        if self.topics.first_objection(subscribed_names(topics)) is Some {
            self
        } else {
            ClientView {
                correlation: self.correlation.store(
                    subscribe_key(self.correlation.next_subscribe_id),
                    callback,
                ).reserve_subscribe(),
                ..self
            }.defer(self.subscribe_action(topics))
        }
    }

    /// The action that an unsubscribe from these topics hands in.
    pub open spec fn unsubscribe_action(self, topics: Seq<Seq<char>>) -> ActionView {
        ActionView::Unsubscribe { id: self.correlation.next_unsubscribe_id, topics }
    }

    /// The state after `unsubscribe`: unchanged where a topic meets an
    /// objection; else the callback waits under the even key of the
    /// identifier taken, and the action is handed in.
    pub open spec fn unsubscribe(self, topics: Seq<Seq<char>>, callback: Option<C>) -> Self {
        if self.topics.first_objection(topics) is Some {
            self
        } else {
            ClientView {
                correlation: self.correlation.store(
                    unsubscribe_key(self.correlation.next_unsubscribe_id),
                    callback,
                ).reserve_unsubscribe(),
                ..self
            }.defer(self.unsubscribe_action(topics))
        }
    }

    /// The state after `publish`: unchanged where the topic is refused, else
    /// the action is handed in.
    pub open spec fn publish(self, retain: bool, topic: Seq<char>, payload: Seq<u8>) -> Self {
        if publish_objection(topic) is Some {
            self
        } else {
            self.defer(publish_action(retain, topic, payload))
        }
    }

    /// The state after `disconnect`: that of a new client.
    pub open spec fn disconnect(self) -> Self {
        Self::empty()
    }

    /// The state after `set_topic_handler`.
    pub open spec fn set_topic_handler(self, name: Seq<char>, handler: H) -> Self {
        ClientView { topics: self.topics.register(name, handler), ..self }
    }

    /// The state after `remove_topic_handler`.
    pub open spec fn remove_topic_handler(self, name: Seq<char>) -> Self {
        ClientView { topics: self.topics.unregister(name), ..self }
    }

    /// The state after `add_attribute`: a name that has a value keeps it.
    pub open spec fn add_attribute(self, name: Seq<char>, value: Seq<u8>) -> Self {
        if self.attributes.contains_key(name) {
            self
        } else {
            ClientView { attributes: self.attributes.insert(name, value), ..self }
        }
    }

    /// The state after `remove_attribute`.
    pub open spec fn remove_attribute(self, name: Seq<char>) -> Self {
        ClientView { attributes: self.attributes.remove(name), ..self }
    }

    /// What `get_attribute` finds under a name.
    pub open spec fn get_attribute(self, name: Seq<char>) -> Option<Seq<u8>> {
        if self.attributes.contains_key(name) {
            Some(self.attributes[name])
        } else {
            None
        }
    }

    /// The state after a packet came in (`None`: receiving failed).
    pub open spec fn received(self, packet: Option<PacketView>) -> Self {
        match packet {
            Some(PacketView::Connack { code }) => ClientView { connect_callback: None, ..self },
            Some(PacketView::Suback { id }) => ClientView {
                correlation: self.correlation.resolve(subscribe_key(id)),
                ..self
            },
            Some(PacketView::Unsuback { id }) => ClientView {
                correlation: self.correlation.resolve(unsubscribe_key(id)),
                ..self
            },
            _ => self,
        }
    }

    /// What is due after a packet came in (`None`: receiving failed). A
    /// packet that a client never receives is a `ProtocolViolation`.
    pub open spec fn reaction(self, packet: Option<PacketView>) -> Result<
        ReactionView<H, C>,
        ClientError,
    > {
        match packet {
            None => Ok(ReactionView::Stopped),
            Some(PacketView::Connack { code }) => Ok(
                ReactionView::Connected {
                    callback: self.connect_callback,
                    outcome: connack_outcome(code),
                },
            ),
            Some(PacketView::Suback { id }) => Ok(
                ReactionView::Acknowledged {
                    callback: self.correlation.waiting(subscribe_key(id)),
                },
            ),
            Some(PacketView::Unsuback { id }) => Ok(
                ReactionView::Acknowledged {
                    callback: self.correlation.waiting(unsubscribe_key(id)),
                },
            ),
            Some(PacketView::Publish { topic, payload, retain, qos }) => Ok(
                ReactionView::Deliver { handlers: self.topics.deliveries(topic), payload },
            ),
            Some(PacketView::Pingresp) => Ok(ReactionView::Idle),
            Some(_) => Err(ClientError::ProtocolViolation),
        }
    }
}

/// Why a topic cannot be published to: it is no topic path, or it holds a
/// wildcard. `None` where it can.
pub open spec fn publish_objection(topic: Seq<char>) -> Option<ClientError> {
    match topic_levels(topic) {
        None => Some(ClientError::InvalidTopic),
        Some(levels) => if any_wildcard(levels) {
            Some(ClientError::InvalidPublishTopic)
        } else {
            None
        },
    }
}

/// The action that a publish hands in: at most once, whatever was asked for.
pub open spec fn publish_action(retain: bool, topic: Seq<char>, payload: Seq<u8>) -> ActionView {
    ActionView::Publish { retain, qos: QoS::AtMostOnce, topic, payload }
}

} // verus!
