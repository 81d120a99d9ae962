use vstd::prelude::*;
use crate::correlation::{next_id, subscribe_key, unsubscribe_key, CorrelationView};
use crate::error::ClientError;
use crate::model::{
    publish_action, publish_objection, subscribed_names, ClientView, ReactionView,
};
use crate::names::{lemma_put, value_of};
use crate::net::{Socket, Stream};
use crate::packet::{ActionView, PacketView, QoS};
use crate::registry::{filter_admits, matching, RegistryView};
use crate::topic::{any_wildcard, topic_levels};

verus! {

/// A handler set for a name without a wildcard gets each message published
/// to that name exactly once, ahead of the handlers of the patterns that
/// match; a message to any other name goes where it went before.
pub proof fn law_exact_handler<H, C>(
    state: ClientView<H, C>,
    name: Seq<char>,
    handler: H,
    other: Seq<char>,
    payload: Seq<u8>,
    retain: bool,
    qos: QoS,
)
    requires
        state.wf(),
        topic_levels(name) matches Some(levels) && !any_wildcard(levels),
        other != name,
    ensures
        state.set_topic_handler(name, handler).wf(),
        state.set_topic_handler(name, handler).reaction(
            Some(PacketView::Publish { topic: name, payload, retain, qos }),
        ) == Ok::<ReactionView<H, C>, ClientError>(
            ReactionView::Deliver {
                handlers: seq![handler] + matching(
                    state.topics.patterns,
                    topic_levels(name).unwrap(),
                ),
                payload,
            },
        ),
        state.set_topic_handler(name, handler).reaction(
            Some(PacketView::Publish { topic: other, payload, retain, qos }),
        ) == state.reaction(Some(PacketView::Publish { topic: other, payload, retain, qos })),
{
    lemma_register_wf(state.topics, name, handler);
    lemma_put(state.topics.exact, name, handler);
    assert(value_of(state.set_topic_handler(name, handler).topics.exact, other) == value_of(
        state.topics.exact,
        other,
    ));
}

/// Putting a handler under a name keeps a registry well formed.
pub proof fn lemma_register_wf<H>(registry: RegistryView<H>, name: Seq<char>, handler: H)
    requires
        registry.wf(),
    ensures
        registry.register(name, handler).wf(),
{
    lemma_put(registry.exact, name, handler);
    lemma_put(registry.patterns, name, handler);
    let after = registry.register(name, handler);
    assert forall|i: int| 0 <= i < after.exact.len() implies (topic_levels(
        (#[trigger] after.exact[i]).0,
    ) matches Some(levels) && !any_wildcard(levels)) by {
        if after.exact[i].0 != name {
            assert(after.exact[i] == registry.exact[i]);
        }
    }
    assert forall|i: int| 0 <= i < after.patterns.len() implies (topic_levels(
        (#[trigger] after.patterns[i]).0,
    ) matches Some(levels) && any_wildcard(levels)) by {
        if after.patterns[i].0 != name {
            assert(after.patterns[i] == registry.patterns[i]);
        }
    }
}

/// The handlers that a message goes to by pattern are those of the patterns
/// that match its topic, each once and in the order of the patterns, and no
/// others.
pub proof fn law_pattern_handlers<H>(patterns: Seq<(Seq<char>, H)>, topic: Seq<char>)
    requires
        topic_levels(topic) is Some,
    ensures
        matching(patterns, topic_levels(topic).unwrap()) == patterns.filter(
            |entry: (Seq<char>, H)| filter_admits(entry.0, topic_levels(topic).unwrap()),
        ).map_values(|entry: (Seq<char>, H)| entry.1),
    decreases patterns.len(),
{
    let levels = topic_levels(topic).unwrap();
    let admits = |entry: (Seq<char>, H)| filter_admits(entry.0, levels);
    let handler = |entry: (Seq<char>, H)| entry.1;
    reveal(Seq::filter);
    if patterns.len() > 0 {
        law_pattern_handlers(patterns.drop_last(), topic);
    }
    assert(matching(patterns, levels) =~= patterns.filter(admits).map_values(handler));
}

/// The handler of a pattern that matches the topic is among those that the
/// message goes to.
pub proof fn law_matching_pattern_is_served<H>(
    patterns: Seq<(Seq<char>, H)>,
    topic: Seq<char>,
    i: int,
) -> (j: int)
    requires
        topic_levels(topic) is Some,
        0 <= i < patterns.len(),
        filter_admits(patterns[i].0, topic_levels(topic).unwrap()),
    ensures
        0 <= j < matching(patterns, topic_levels(topic).unwrap()).len(),
        matching(patterns, topic_levels(topic).unwrap())[j] == patterns[i].1,
    decreases patterns.len(),
{
    let levels = topic_levels(topic).unwrap();
    let before = matching(patterns.drop_last(), levels);
    if i == patterns.len() - 1 {
        before.len() as int
    } else {
        law_matching_pattern_is_served(patterns.drop_last(), topic, i)
    }
}

/// Each handler that a message goes to by pattern is that of a pattern that
/// matches the topic.
pub proof fn law_served_pattern_matches<H>(
    patterns: Seq<(Seq<char>, H)>,
    topic: Seq<char>,
    j: int,
) -> (i: int)
    requires
        topic_levels(topic) is Some,
        0 <= j < matching(patterns, topic_levels(topic).unwrap()).len(),
    ensures
        0 <= i < patterns.len(),
        filter_admits(patterns[i].0, topic_levels(topic).unwrap()),
        patterns[i].1 == matching(patterns, topic_levels(topic).unwrap())[j],
    decreases patterns.len(),
{
    let levels = topic_levels(topic).unwrap();
    let before = matching(patterns.drop_last(), levels);
    if j < before.len() {
        law_served_pattern_matches(patterns.drop_last(), topic, j)
    } else {
        patterns.len() - 1
    }
}

/// A message goes to the handler under its exact name, if there is one, and
/// then to the handler of every pattern that matches its topic, and of no
/// other.
pub proof fn law_wildcard_dispatch<H, C>(state: ClientView<H, C>, topic: Seq<char>)
    requires
        topic_levels(topic) is Some,
    ensures
        state.topics.deliveries(topic) == (match value_of(state.topics.exact, topic) {
            Some(handler) => seq![handler],
            None => Seq::empty(),
        }) + state.topics.patterns.filter(
            |entry: (Seq<char>, H)| filter_admits(entry.0, topic_levels(topic).unwrap()),
        ).map_values(|entry: (Seq<char>, H)| entry.1),
{
    law_pattern_handlers(state.topics.patterns, topic);
}

/// A subscribe that names a topic without a handler, among names that are
/// all filters, fails with `UnknownTopic` and leaves the client as it was:
/// nothing waits to be sent.
pub proof fn law_subscribe_unknown_topic<H, C>(
    state: ClientView<H, C>,
    topics: Seq<(Seq<char>, QoS)>,
    callback: Option<C>,
    unknown: int,
)
    requires
        forall|i: int| 0 <= i < topics.len() ==> topic_levels((#[trigger] topics[i]).0) is Some,
        0 <= unknown < topics.len(),
        state.topics.objection(topics[unknown].0) == Some(ClientError::UnknownTopic),
    ensures
        state.topics.first_objection(subscribed_names(topics)) == Some(ClientError::UnknownTopic),
        state.subscribe(topics, callback) == state,
{
    lemma_first_objection(state.topics, subscribed_names(topics), unknown);
}

/// Among names that are all filters, one that has no handler makes the first
/// objection `UnknownTopic`.
pub proof fn lemma_first_objection<H>(registry: RegistryView<H>, names: Seq<Seq<char>>, unknown: int)
    requires
        forall|i: int| 0 <= i < names.len() ==> topic_levels(#[trigger] names[i]) is Some,
        0 <= unknown < names.len(),
        registry.objection(names[unknown]) == Some(ClientError::UnknownTopic),
    ensures
        registry.first_objection(names) == Some(ClientError::UnknownTopic),
    decreases names.len(),
{
    if registry.objection(names[0]) is None {
        let rest = names.skip(1);
        assert forall|i: int| 0 <= i < rest.len() implies topic_levels(#[trigger] rest[i]) is Some by {
            assert(rest[i] == names[i + 1]);
        }
        assert(rest[unknown - 1] == names[unknown]);
        lemma_first_objection(registry, rest, unknown - 1);
    }
}

/// The table after `n` subscribe identifiers were taken.
pub open spec fn reserve_subscribes<C>(table: CorrelationView<C>, n: nat) -> CorrelationView<C>
    decreases n,
{
    if n == 0 {
        table
    } else {
        reserve_subscribes(table, (n - 1) as nat).reserve_subscribe()
    }
}

/// The identifier counts up by one with each subscribe, modulo 65536.
pub proof fn law_subscribe_identifier_counts<C>(table: CorrelationView<C>, n: nat)
    ensures
        reserve_subscribes(table, n).next_subscribe_id == (table.next_subscribe_id + n) % 65536,
    decreases n,
{
    if n > 0 {
        law_subscribe_identifier_counts(table, (n - 1) as nat);
    }
}

/// Two subscribes in a row get different identifiers, and the 65536th
/// subscribe after one gets its identifier again.
pub proof fn law_subscribe_identifiers_wrap<C>(table: CorrelationView<C>)
    ensures
        table.reserve_subscribe().next_subscribe_id != table.next_subscribe_id,
        forall|n: nat|
            0 < n < 65536 ==> (#[trigger] reserve_subscribes(table, n)).next_subscribe_id
                != table.next_subscribe_id,
        reserve_subscribes(table, 65536).next_subscribe_id == table.next_subscribe_id,
{
    assert forall|n: nat| 0 < n < 65536 implies (#[trigger] reserve_subscribes(
        table,
        n,
    )).next_subscribe_id != table.next_subscribe_id by {
        law_subscribe_identifier_counts(table, n);
    }
    law_subscribe_identifier_counts(table, 65536);
}

/// The key of a subscribe is odd, that of an unsubscribe even: the two never
/// meet in the table, and two identifiers of one kind never share a key.
pub proof fn law_keys_apart(a: u16, b: u16)
    ensures
        subscribe_key(a) % 2 == 1,
        unsubscribe_key(b) % 2 == 0,
        subscribe_key(a) != unsubscribe_key(b),
        a != b ==> subscribe_key(a) != subscribe_key(b) && unsubscribe_key(a) != unsubscribe_key(b),
{
}

/// The acknowledgement of a subscribe finds the callback that the subscribe
/// left, and finds it once: a second acknowledgement under the same
/// identifier finds nothing. An unsubscribe acknowledgement under that
/// identifier does not take it.
pub proof fn law_acknowledgement_resolves_once<H, C>(
    state: ClientView<H, C>,
    topics: Seq<(Seq<char>, QoS)>,
    callback: Option<C>,
)
    requires
        state.topics.first_objection(subscribed_names(topics)) is None,
    ensures
        ({
            let id = state.correlation.next_subscribe_id;
            let asked = state.subscribe(topics, callback);
            let acknowledged = asked.received(Some(PacketView::Suback { id }));
            &&& asked.reaction(Some(PacketView::Suback { id })) == Ok::<
                ReactionView<H, C>,
                ClientError,
            >(ReactionView::Acknowledged { callback })
            &&& acknowledged.reaction(Some(PacketView::Suback { id })) == Ok::<
                ReactionView<H, C>,
                ClientError,
            >(ReactionView::Acknowledged { callback: None })
            &&& asked.received(Some(PacketView::Unsuback { id })).reaction(
                Some(PacketView::Suback { id }),
            ) == asked.reaction(Some(PacketView::Suback { id }))
        }),
{
    let id = state.correlation.next_subscribe_id;
    law_keys_apart(id, id);
}

/// Two subscribes in a row that both go through carry different packet
/// identifiers.
pub proof fn law_consecutive_subscribes<H, C>(
    state: ClientView<H, C>,
    first: Seq<(Seq<char>, QoS)>,
    first_callback: Option<C>,
    second: Seq<(Seq<char>, QoS)>,
    second_callback: Option<C>,
)
    requires
        state.topics.first_objection(subscribed_names(first)) is None,
    ensures
        state.subscribe(first, first_callback).topics == state.topics,
        state.subscribe_action(first) matches ActionView::Subscribe { id: one, .. }
            && state.subscribe(first, first_callback).subscribe_action(second)
            matches ActionView::Subscribe { id: other, .. } && one != other && other == next_id(one),
{
}

/// Actions that are handed in while there is no transport wait in the order
/// in which they came, behind those that waited already, and `set_stream`
/// replays them all in that order and leaves none waiting.
pub proof fn law_replay_in_order<H, C>(
    state: ClientView<H, C>,
    actions: Seq<ActionView>,
    socket: Socket,
    stream: Stream,
)
    requires
        state.transport is None,
    ensures
        state.defer_all(actions).replayed() == state.pending_actions + actions,
        state.defer_all(actions) == (ClientView {
            pending_actions: state.pending_actions + actions,
            ..state
        }),
        state.defer_all(actions).set_stream(socket, stream).pending_actions.len() == 0,
    decreases actions.len(),
{
    if actions.len() == 0 {
        assert(state.pending_actions + actions =~= state.pending_actions);
    } else {
        law_replay_in_order(state.defer(actions[0]), actions.skip(1), socket, stream);
        assert(state.pending_actions.push(actions[0]) + actions.skip(1) =~= state.pending_actions
            + actions);
    }
}

/// Two publishes that are made while there is no transport are replayed in
/// the order of the calls, behind what waited before them.
pub proof fn law_publishes_replay_in_order<H, C>(
    state: ClientView<H, C>,
    first: (bool, Seq<char>, Seq<u8>),
    second: (bool, Seq<char>, Seq<u8>),
)
    requires
        state.transport is None,
        publish_objection(first.1) is None,
        publish_objection(second.1) is None,
    ensures
        state.publish(first.0, first.1, first.2).publish(second.0, second.1, second.2).replayed()
            == state.replayed().push(publish_action(first.0, first.1, first.2)).push(
            publish_action(second.0, second.1, second.2),
        ),
{
}

/// After a disconnect and a new `set_stream` the client has no handlers and
/// no attributes, both counters are 0, and nothing waits or is replayed.
pub proof fn law_disconnect_resets<H, C>(state: ClientView<H, C>, socket: Socket, stream: Stream)
    ensures
        state.disconnect().replayed().len() == 0,
        state.disconnect().set_stream(socket, stream) == (ClientView {
            transport: Some((socket, stream)),
            ..ClientView::<H, C>::empty()
        }),
        state.disconnect().set_stream(socket, stream).topics == RegistryView::<H>::empty(),
        state.disconnect().set_stream(socket, stream).attributes == Map::<
            Seq<char>,
            Seq<u8>,
        >::empty(),
        state.disconnect().set_stream(socket, stream).correlation.next_subscribe_id == 0,
        state.disconnect().set_stream(socket, stream).correlation.next_unsubscribe_id == 0,
        state.disconnect().set_stream(socket, stream).wf(),
{
}

/// The first value given to an attribute stays: a second `add_attribute`
/// under the same name changes nothing.
pub proof fn law_first_attribute_wins<H, C>(
    state: ClientView<H, C>,
    name: Seq<char>,
    first: Seq<u8>,
    second: Seq<u8>,
)
    ensures
        state.add_attribute(name, first).add_attribute(name, second) == state.add_attribute(
            name,
            first,
        ),
        !state.attributes.contains_key(name) ==> state.add_attribute(name, first).add_attribute(
            name,
            second,
        ).get_attribute(name) == Some(first),
{
}

} // verus!
