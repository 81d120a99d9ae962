use std::collections::VecDeque;
use std::sync::Arc;
use vstd::prelude::*;
use crate::correlation::CorrelationTable;
use crate::error::ClientError;
use crate::keepalive::{arm, TimerRequest};
use crate::model::{
    at_most_once, publish_action, publish_objection, subscribed_names, ClientView, DispatchView,
    ReactionView,
};
use crate::names::{as_map, lemma_project, lemma_put, lemma_take, project, NameMap};
use crate::net::{Socket, Stream};
use crate::packet::{
    actions_view, names_view, subscription_view, will_view, Action, ActionView, ConnectReturnCode,
    LastWill, Packet, PacketView, QoS,
};
use crate::registry::TopicRegistry;
use crate::shared::{share, values_behind};
use crate::topic::{is_topic_contains_wildcards, topic_levels};

verus! {

/// An action together with the transport on which it is due now.
#[derive(Debug)]
pub struct Dispatch {
    pub socket: Socket,
    pub stream: Stream,
    pub action: Action,
}

impl View for Dispatch {
    type V = DispatchView;

    open spec fn view(&self) -> DispatchView {
        DispatchView { socket: self.socket, stream: self.stream, action: self.action@ }
    }
}

/// The view of what may be due now.
pub open spec fn dispatch_view(now: Option<Dispatch>) -> Option<DispatchView> {
    match now {
        Some(dispatch) => Some(dispatch@),
        None => None,
    }
}

/// What `set_stream` leaves to do: the actions that waited, oldest first, on
/// the transport just attached, and then the keep-alive timer.
pub struct Attached {
    pub replay: Vec<Action>,
    pub timer: Option<TimerRequest>,
}

/// What is due after a packet came in, or after receiving failed.
pub enum Reaction<H, C> {
    /// Receiving failed: the receive loop ends.
    Stopped,
    /// Nothing is due but to receive again.
    Idle,
    /// The connect callback, if one waits, is told the outcome.
    Connected { callback: Option<C>, outcome: Result<(), ConnectReturnCode> },
    /// The callback, if one waits, is told of success.
    Acknowledged { callback: Option<C> },
    /// Each handler is called with the payload.
    Deliver { handlers: Vec<Arc<H>>, payload: Vec<u8> },
}

impl<H, C> View for Reaction<H, C> {
    type V = ReactionView<H, C>;

    open spec fn view(&self) -> ReactionView<H, C> {
        match *self {
            Reaction::Stopped => ReactionView::Stopped,
            Reaction::Idle => ReactionView::Idle,
            Reaction::Connected { callback, outcome } => ReactionView::Connected {
                callback,
                outcome,
            },
            Reaction::Acknowledged { callback } => ReactionView::Acknowledged { callback },
            Reaction::Deliver { handlers, payload } => ReactionView::Deliver {
                handlers: values_behind(handlers@),
                payload: payload@,
            },
        }
    }
}

impl<H, C> Reaction<H, C> {
    /// Whether the receive loop goes on after this: it ends only where
    /// receiving failed.
    pub fn receives_again(&self) -> (again: bool)
        ensures
            again == !(self@ is Stopped),
    {
        match self {
            Reaction::Stopped => false,
            _ => true,
        }
    }
}

/// The view of what `handle_recv` returns.
pub open spec fn reaction_view<H, C>(handled: Result<Reaction<H, C>, ClientError>) -> Result<
    ReactionView<H, C>,
    ClientError,
> {
    match handled {
        Ok(reaction) => Ok(reaction@),
        Err(e) => Err(e),
    }
}

/// The view of a packet that may have come in.
pub open spec fn packet_view(packet: Option<Packet>) -> Option<PacketView> {
    match packet {
        Some(p) => Some(p@),
        None => None,
    }
}

/// The state of a client.
pub struct ClientNodeImpl<H, C> {
    transport: Option<(Socket, Stream)>,
    connect_func: Option<C>,
    close_func: Option<C>,
    sub_map: CorrelationTable<C>,
    attributes: NameMap<Arc<Vec<u8>>>,
    topics: TopicRegistry<H>,
    socket_handlers: VecDeque<Action>,
    keep_alive: u16,
}

impl<H, C> View for ClientNodeImpl<H, C> {
    type V = ClientView<H, C>;

    closed spec fn view(&self) -> ClientView<H, C> {
        ClientView {
            transport: self.transport,
            keep_alive: self.keep_alive,
            connect_callback: self.connect_func,
            close_callback: self.close_func,
            correlation: self.sub_map@,
            attributes: as_map(project(self.attributes@, |value: Arc<Vec<u8>>| value@)),
            topics: self.topics@,
            pending_actions: actions_view(self.socket_handlers@),
        }
    }
}

impl<H, C> ClientNodeImpl<H, C> {
    /// The parts of the state are well formed.
    pub closed spec fn parts_wf(&self) -> bool {
        self.topics.wf() && self.attributes.wf()
    }

    /// The state is well formed, and so is its view.
    pub open spec fn wf(&self) -> bool {
        self.parts_wf() && self@.wf()
    }

    /// The state of a new client.
    pub fn new() -> (node: Self)
        ensures
            node.wf(),
            node@ == ClientView::<H, C>::empty(),
    {
        let node = ClientNodeImpl {
            transport: None,
            connect_func: None,
            close_func: None,
            sub_map: CorrelationTable::new(),
            attributes: NameMap::new(),
            topics: TopicRegistry::new(),
            socket_handlers: VecDeque::new(),
            keep_alive: 0,
        };
        assert(node@.attributes =~= Map::empty());
        assert(node@.pending_actions =~= Seq::empty());
        node
    }
}

/// Hands in an action. Without a transport it waits at the end of the queue,
/// and nothing is due; with one it is due now, on that transport.
pub fn handle_slot<H, C>(node: &mut ClientNodeImpl<H, C>, action: Action) -> (now: Option<Dispatch>)
    requires
        old(node).wf(),
    ensures
        final(node).wf(),
        final(node)@ == old(node)@.defer(action@),
        dispatch_view(now) == old(node)@.immediate(action@),
{
    match node.transport {
        None => {
            let ghost before = node.socket_handlers@;
            node.socket_handlers.push_back(action);
            assert(actions_view(before.push(action)) =~= actions_view(before).push(action@));
            None
        },
        Some((socket, stream)) => Some(Dispatch { socket, stream, action }),
    }
}

/// Whether a topic may be published to. Fails with `InvalidTopic` where the
/// name is no topic path, with `InvalidPublishTopic` where it holds a
/// wildcard.
pub fn check_publish_topic(topic: &String) -> (objection: Option<ClientError>)
    ensures
        objection == publish_objection(topic@),
{
    match is_topic_contains_wildcards(topic.as_str()) {
        Err(e) => Some(e),
        Ok(wildcards) => if wildcards {
            Some(ClientError::InvalidPublishTopic)
        } else {
            None
        },
    }
}

/// Takes in the broker's answer to the connect: the connect callback is taken
/// out, whatever the answer, and is to be told the outcome.
pub fn recv_connect_ack<H, C>(node: &mut ClientNodeImpl<H, C>, code: ConnectReturnCode) -> (due:
    Reaction<H, C>)
    requires
        old(node).wf(),
    ensures
        final(node).wf(),
        final(node)@ == old(node)@.received(Some(PacketView::Connack { code })),
        Ok::<ReactionView<H, C>, ClientError>(due@) == old(node)@.reaction(
            Some(PacketView::Connack { code }),
        ),
{
    let callback = node.connect_func.take();
    Reaction::Connected { callback, outcome: code.outcome() }
}

/// Takes in the acknowledgement of a subscribe: what waits under the odd key
/// of the identifier is taken out, and the callback, if there is one, is to
/// be told of success. An identifier under which nothing waits changes
/// nothing.
pub fn recv_sub_ack<H, C>(node: &mut ClientNodeImpl<H, C>, id: u16) -> (due: Reaction<H, C>)
    requires
        old(node).wf(),
    ensures
        final(node).wf(),
        final(node)@ == old(node)@.received(Some(PacketView::Suback { id })),
        Ok::<ReactionView<H, C>, ClientError>(due@) == old(node)@.reaction(
            Some(PacketView::Suback { id }),
        ),
{
    let key: usize = 2 * (id as usize) + 1;
    Reaction::Acknowledged { callback: node.sub_map.resolve(key) }
}

/// Takes in the acknowledgement of an unsubscribe: what waits under the even
/// key of the identifier is taken out, and the callback, if there is one, is
/// to be told of success.
pub fn recv_unsub_ack<H, C>(node: &mut ClientNodeImpl<H, C>, id: u16) -> (due: Reaction<H, C>)
    requires
        old(node).wf(),
    ensures
        final(node).wf(),
        final(node)@ == old(node)@.received(Some(PacketView::Unsuback { id })),
        Ok::<ReactionView<H, C>, ClientError>(due@) == old(node)@.reaction(
            Some(PacketView::Unsuback { id }),
        ),
{
    let key: usize = 2 * (id as usize);
    Reaction::Acknowledged { callback: node.sub_map.resolve(key) }
}

/// The handlers that a message on a topic goes to: the one under the exact
/// name, then those of the patterns that match, in the order in which the
/// patterns came in.
pub fn recv_publish<H, C>(node: &ClientNodeImpl<H, C>, topic: &String) -> (handlers: Vec<Arc<H>>)
    requires
        node.wf(),
    ensures
        values_behind(handlers@) == node@.topics.deliveries(topic@),
{
    node.topics.dispatch(topic)
}

/// Takes in what the receive loop yields: a packet, or `None` where receiving
/// failed. Says what is due, or fails with `ProtocolViolation` on a packet
/// that a client never receives; after that failure the loop ends.
pub fn handle_recv<H, C>(node: &mut ClientNodeImpl<H, C>, packet: Option<Packet>) -> (handled:
    Result<Reaction<H, C>, ClientError>)
    requires
        old(node).wf(),
    ensures
        final(node).wf(),
        final(node)@ == old(node)@.received(packet_view(packet)),
        reaction_view(handled) == old(node)@.reaction(packet_view(packet)),
{
    match packet {
        None => Ok(Reaction::Stopped),
        Some(Packet::Connack { code }) => Ok(recv_connect_ack(node, code)),
        Some(Packet::Suback { id }) => Ok(recv_sub_ack(node, id)),
        Some(Packet::Unsuback { id }) => Ok(recv_unsub_ack(node, id)),
        Some(Packet::Publish { topic, payload, retain: _, qos: _ }) => {
            let handlers = recv_publish(node, &topic);
            Ok(Reaction::Deliver { handlers, payload })
        },
        Some(Packet::Pingresp) => Ok(Reaction::Idle),
        Some(_) => Err(ClientError::ProtocolViolation),
    }
}

/// A client: its state, and the operations on it.
pub struct ClientNode<H, C>(pub ClientNodeImpl<H, C>);

impl<H, C> View for ClientNode<H, C> {
    type V = ClientView<H, C>;

    open spec fn view(&self) -> ClientView<H, C> {
        self.0@
    }
}

impl<H, C> ClientNode<H, C> {
    /// The state is well formed.
    pub open spec fn wf(&self) -> bool {
        self.0.wf()
    }

    /// A client without transport, handlers, attributes or waiting actions.
    pub fn new() -> (client: Self)
        ensures
            client.wf(),
            client@ == ClientView::<H, C>::empty(),
    {
        ClientNode(ClientNodeImpl::new())
    }

    /// Whether a transport is attached.
    pub fn is_attached(&self) -> (attached: bool)
        ensures
            attached == self@.transport.is_some(),
    {
        self.0.transport.is_some()
    }

    /// The socket in use.
    pub fn get_socket(&self) -> (socket: Socket)
        requires
            self@.transport is Some,
        ensures
            self@.transport matches Some((used, _)) && socket == used,
    {
        let (socket, _) = self.0.transport.unwrap();
        socket
    }

    /// The stream whose timers serve this client: the one in use.
    pub fn get_timers(&self) -> (stream: Stream)
        requires
            self@.transport is Some,
        ensures
            self@.transport matches Some((_, used)) && stream == used,
    {
        let (_, stream) = self.0.transport.unwrap();
        stream
    }

    /// The keep-alive timer to set: none for the interval 0. When it fires,
    /// `keep_alive_fired` says what is due.
    pub fn ping(&self) -> (timer: Option<TimerRequest>)
        ensures
            timer == self@.timer(),
    {
        arm(self.0.keep_alive)
    }

    /// What is due when the keep-alive timer has fired: a ping request on the
    /// transport, past the queue, and the timer again.
    pub fn keep_alive_fired(&self) -> (due: (Packet, Option<TimerRequest>))
        ensures
            due.0@ == PacketView::Pingreq,
            due.1 == self@.timer(),
    {
        (Packet::Pingreq, self.ping())
    }

    /// Attaches a transport. The actions that waited are to be replayed on it,
    /// oldest first, and then the keep-alive timer is to be set.
    pub fn set_stream(&mut self, socket: Socket, stream: Stream) -> (attached: Attached)
        requires
            old(self).wf(),
        ensures
            final(self).wf(),
            final(self)@ == old(self)@.set_stream(socket, stream),
            actions_view(attached.replay@) == old(self)@.replayed(),
            attached.timer == old(self)@.timer(),
    {
        let ghost waiting = self.0.socket_handlers@;
        let mut replay: Vec<Action> = Vec::new();
        while self.0.socket_handlers.len() > 0
            invariant
                replay@ + self.0.socket_handlers@ == waiting,
                self.0.parts_wf(),
                self.0.topics == old(self).0.topics,
                self.0.attributes == old(self).0.attributes,
                self.0.sub_map == old(self).0.sub_map,
                self.0.keep_alive == old(self).0.keep_alive,
                self.0.connect_func == old(self).0.connect_func,
                self.0.close_func == old(self).0.close_func,
            decreases self.0.socket_handlers@.len(),
        {
            match self.0.socket_handlers.pop_front() {
                Some(action) => {
                    replay.push(action);
                    assert(replay@ + self.0.socket_handlers@ =~= waiting);
                },
                None => {},
            }
        }
        assert(replay@ =~= waiting);
        self.0.transport = Some((socket, stream));
        assert(self@.pending_actions =~= Seq::empty());
        proof {
            old(self).0.topics.lemma_view_wf();
        }
        Attached { replay, timer: arm(self.0.keep_alive) }
    }

    /// Stores the interval and the two callbacks, and hands in the connect.
    pub fn connect(
        &mut self,
        keep_alive: u16,
        will: Option<LastWill>,
        close_func: Option<C>,
        connect_func: Option<C>,
    ) -> (now: Option<Dispatch>)
        requires
            old(self).wf(),
        ensures
            final(self).wf(),
            final(self)@ == old(self)@.connect(keep_alive, will_view(will), close_func, connect_func),
            dispatch_view(now) == old(self)@.immediate(
                ActionView::Connect { keep_alive, will: will_view(will) },
            ),
    {
        self.0.close_func = close_func;
        self.0.connect_func = connect_func;
        self.0.keep_alive = keep_alive;
        handle_slot(&mut self.0, Action::Connect { keep_alive, will })
    }

    /// Subscribes to topics that have handlers. Fails, with nothing changed
    /// and nothing to send, with the objection to the first topic that meets
    /// one: `InvalidTopic` for a name that is no filter, `UnknownTopic` for
    /// one without a handler. Else the callback waits for the acknowledgement
    /// and the subscribe is handed in, each topic at most once.
    pub fn subscribe(&mut self, topics: Vec<(String, QoS)>, resp_func: Option<C>) -> (now: Result<
        Option<Dispatch>,
        ClientError,
    >)
        requires
            old(self).wf(),
        ensures
            final(self).wf(),
            final(self)@ == old(self)@.subscribe(subscription_view(topics@), resp_func),
            match now {
                Ok(dispatch) => old(self)@.topics.first_objection(
                    subscribed_names(subscription_view(topics@)),
                ) is None && dispatch_view(dispatch) == old(self)@.immediate(
                    old(self)@.subscribe_action(subscription_view(topics@)),
                ),
                Err(e) => old(self)@.topics.first_objection(
                    subscribed_names(subscription_view(topics@)),
                ) == Some(e),
            },
    {
        let ghost asked = subscription_view(topics@);
        let mut names: Vec<String> = Vec::new();
        let mut downgraded: Vec<(String, QoS)> = Vec::new();
        let mut i: usize = 0;
        while i < topics.len()
            invariant
                i <= topics.len(),
                asked == subscription_view(topics@),
                names_view(names@) == subscribed_names(asked).take(i as int),
                subscription_view(downgraded@) == at_most_once(subscribed_names(asked)).take(
                    i as int,
                ),
            decreases topics.len() - i,
        {
            let ghost before = names@;
            let ghost lowered = downgraded@;
            names.push(topics[i].0.clone());
            downgraded.push((topics[i].0.clone(), QoS::AtMostOnce));
            assert(names_view(names@) =~= names_view(before).push(topics[i as int].0@));
            assert(subscription_view(downgraded@) =~= subscription_view(lowered).push(
                (topics[i as int].0@, QoS::AtMostOnce),
            ));
            assert(subscribed_names(asked).take(i + 1) =~= subscribed_names(asked).take(
                i as int,
            ).push(topics[i as int].0@));
            assert(at_most_once(subscribed_names(asked)).take(i + 1) =~= at_most_once(
                subscribed_names(asked),
            ).take(i as int).push((topics[i as int].0@, QoS::AtMostOnce)));
            i += 1;
        }
        assert(subscribed_names(asked).take(topics.len() as int) =~= subscribed_names(asked));
        assert(at_most_once(subscribed_names(asked)).take(topics.len() as int) =~= at_most_once(
            subscribed_names(asked),
        ));
        if let Some(e) = self.0.topics.check_all(&names) {
            return Err(e);
        }
        let (id, key) = self.0.sub_map.reserve_subscribe();
        self.0.sub_map.store(key, resp_func);
        assert(self.0.sub_map@ =~= old(self)@.correlation.store(key, resp_func).reserve_subscribe());
        Ok(handle_slot(&mut self.0, Action::Subscribe { id, topics: downgraded }))
    }

    /// Unsubscribes from topics that have handlers. Fails as `subscribe`
    /// does. Else the callback waits for the acknowledgement and the
    /// unsubscribe is handed in.
    pub fn unsubscribe(&mut self, topics: Vec<String>, resp_func: Option<C>) -> (now: Result<
        Option<Dispatch>,
        ClientError,
    >)
        requires
            old(self).wf(),
        ensures
            final(self).wf(),
            final(self)@ == old(self)@.unsubscribe(names_view(topics@), resp_func),
            match now {
                Ok(dispatch) => old(self)@.topics.first_objection(names_view(topics@)) is None
                    && dispatch_view(dispatch) == old(self)@.immediate(
                    old(self)@.unsubscribe_action(names_view(topics@)),
                ),
                Err(e) => old(self)@.topics.first_objection(names_view(topics@)) == Some(e),
            },
    {
        if let Some(e) = self.0.topics.check_all(&topics) {
            return Err(e);
        }
        let (id, key) = self.0.sub_map.reserve_unsubscribe();
        self.0.sub_map.store(key, resp_func);
        assert(self.0.sub_map@ =~= old(self)@.correlation.store(key, resp_func).reserve_unsubscribe());
        Ok(handle_slot(&mut self.0, Action::Unsubscribe { id, topics }))
    }

    /// Hands in the disconnect and then puts the client back into the state
    /// of a new one: what is due now goes out, what waited is dropped.
    pub fn disconnect(&mut self) -> (now: Option<Dispatch>)
        requires
            old(self).wf(),
        ensures
            final(self).wf(),
            final(self)@ == old(self)@.disconnect(),
            dispatch_view(now) == old(self)@.immediate(ActionView::Disconnect),
    {
        let now = handle_slot(&mut self.0, Action::Disconnect);
        self.0 = ClientNodeImpl::new();
        now
    }

    /// Publishes a payload to a topic, at most once whatever `_qos` asks for.
    /// Fails, with nothing changed and nothing to send, with `InvalidTopic`
    /// where the name is no topic path and with `InvalidPublishTopic` where it
    /// holds a wildcard.
    pub fn publish(&mut self, retain: bool, _qos: QoS, topic: String, payload: Vec<u8>) -> (now:
        Result<Option<Dispatch>, ClientError>)
        requires
            old(self).wf(),
        ensures
            final(self).wf(),
            final(self)@ == old(self)@.publish(retain, topic@, payload@),
            match now {
                Ok(dispatch) => publish_objection(topic@) is None && dispatch_view(dispatch)
                    == old(self)@.immediate(publish_action(retain, topic@, payload@)),
                Err(e) => publish_objection(topic@) == Some(e),
            },
    {
        if let Some(e) = check_publish_topic(&topic) {
            return Err(e);
        }
        Ok(
            handle_slot(
                &mut self.0,
                Action::Publish { retain, qos: QoS::AtMostOnce, topic, payload },
            ),
        )
    }

    /// Puts a handler under a topic name, in place of the one that the name
    /// had. Fails with `InvalidTopic`, and changes nothing, exactly where the
    /// name is no topic filter.
    pub fn set_topic_handler(&mut self, name: String, handler: H) -> (done: Result<
        (),
        ClientError,
    >)
        requires
            old(self).wf(),
        ensures
            final(self).wf(),
            final(self)@ == old(self)@.set_topic_handler(name@, handler),
            done == if topic_levels(name@) is Some {
                Ok::<(), ClientError>(())
            } else {
                Err(ClientError::InvalidTopic)
            },
    {
        let done = self.0.topics.register(name, handler);
        proof {
            self.0.topics.lemma_view_wf();
        }
        done
    }

    /// Takes out the handler under a topic name; a name without one changes
    /// nothing. Fails with `InvalidTopic` exactly where the name is no topic
    /// filter.
    pub fn remove_topic_handler(&mut self, name: &String) -> (done: Result<(), ClientError>)
        requires
            old(self).wf(),
        ensures
            final(self).wf(),
            final(self)@ == old(self)@.remove_topic_handler(name@),
            done == if topic_levels(name@) is Some {
                Ok::<(), ClientError>(())
            } else {
                Err(ClientError::InvalidTopic)
            },
    {
        let done = self.0.topics.unregister(name);
        proof {
            self.0.topics.lemma_view_wf();
        }
        done
    }

    /// Gives a name a value, unless it has one: the first value stays.
    pub fn add_attribute(&mut self, name: String, value: Vec<u8>)
        requires
            old(self).wf(),
        ensures
            final(self).wf(),
            final(self)@ == old(self)@.add_attribute(name@, value@),
    {
        proof {
            lemma_project(self.0.attributes@, |value: Arc<Vec<u8>>| value@);
        }
        let has_attr = self.0.attributes.contains_key(&name);
        if !has_attr {
            let shared = Arc::new(value);
            proof {
                lemma_put(project(self.0.attributes@, |value: Arc<Vec<u8>>| value@), name@, value@);
            }
            self.0.attributes.insert(name, shared);
            assert(self@.attributes =~= old(self)@.attributes.insert(name@, value@));
        }
    }

    /// Takes the value of a name away.
    pub fn remove_attribute(&mut self, name: &String)
        requires
            old(self).wf(),
        ensures
            final(self).wf(),
            final(self)@ == old(self)@.remove_attribute(name@),
    {
        proof {
            lemma_project(self.0.attributes@, |value: Arc<Vec<u8>>| value@);
            lemma_take(project(self.0.attributes@, |value: Arc<Vec<u8>>| value@), name@);
        }
        self.0.attributes.remove(name);
        assert(self@.attributes =~= old(self)@.attributes.remove(name@));
    }

    /// The value of a name, if it has one.
    pub fn get_attribute(&self, name: &String) -> (value: Option<Arc<Vec<u8>>>)
        requires
            self.wf(),
        ensures
            match value {
                Some(v) => self@.get_attribute(name@) == Some(v@),
                None => self@.get_attribute(name@) is None,
            },
    {
        proof {
            lemma_project(self.0.attributes@, |value: Arc<Vec<u8>>| value@);
        }
        match self.0.attributes.get(name) {
            None => None,
            Some(v) => Some(share(v)),
        }
    }
}

} // verus!
