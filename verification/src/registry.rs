use std::sync::Arc;
use vstd::prelude::*;
use crate::error::ClientError;
use crate::packet::names_view;
use crate::names::{
    has_name, lemma_project, lemma_put, lemma_take, names_distinct, project, put, take, value_of,
    NameMap,
};
use crate::shared::{share, values_behind};
use crate::topic::{any_wildcard, filter_matches, topic_levels, LevelView, TopicFilter};

verus! {

/// Whether the filter with the given name matches a topic with the given
/// levels.
pub open spec fn filter_admits(name: Seq<char>, topic: Seq<LevelView>) -> bool {
    topic_levels(name) matches Some(filter) && filter_matches(filter, topic)
}

/// The handlers of the patterns that match a topic, in the order of the
/// patterns.
pub open spec fn matching<H>(patterns: Seq<(Seq<char>, H)>, topic: Seq<LevelView>) -> Seq<H>
    decreases patterns.len(),
{
    if patterns.len() == 0 {
        Seq::empty()
    } else {
        let before = matching(patterns.drop_last(), topic);
        if filter_admits(patterns.last().0, topic) {
            before.push(patterns.last().1)
        } else {
            before
        }
    }
}

/// What a `TopicRegistry` stands for: the handlers under exact names and those
/// under patterns, each in the order in which its name came in.
pub struct RegistryView<H> {
    pub exact: Seq<(Seq<char>, H)>,
    pub patterns: Seq<(Seq<char>, H)>,
}

impl<H> RegistryView<H> {
    /// The registry without handlers.
    pub open spec fn empty() -> Self {
        RegistryView { exact: Seq::empty(), patterns: Seq::empty() }
    }

    /// No name occurs twice; the exact names are filters without a wildcard,
    /// the patterns are filters with one.
    pub open spec fn wf(self) -> bool {
        &&& names_distinct(self.exact)
        &&& names_distinct(self.patterns)
        &&& forall|i: int|
            0 <= i < self.exact.len() ==> (topic_levels((#[trigger] self.exact[i]).0)
                matches Some(levels) && !any_wildcard(levels))
        &&& forall|i: int|
            0 <= i < self.patterns.len() ==> (topic_levels((#[trigger] self.patterns[i]).0)
                matches Some(levels) && any_wildcard(levels))
    }

    /// The registry after a handler was put under a name: among the patterns
    /// where the name holds a wildcard, among the exact names where it holds
    /// none, nowhere where it is no filter.
    pub open spec fn register(self, name: Seq<char>, handler: H) -> Self {
        match topic_levels(name) {
            None => self,
            Some(levels) => if any_wildcard(levels) {
                RegistryView { patterns: put(self.patterns, name, handler), ..self }
            } else {
                RegistryView { exact: put(self.exact, name, handler), ..self }
            },
        }
    }

    /// The registry after the handler under a name was taken out.
    pub open spec fn unregister(self, name: Seq<char>) -> Self {
        match topic_levels(name) {
            None => self,
            Some(levels) => if any_wildcard(levels) {
                RegistryView { patterns: take(self.patterns, name), ..self }
            } else {
                RegistryView { exact: take(self.exact, name), ..self }
            },
        }
    }

    /// Why a name cannot be subscribed to: it is no filter, or it has no
    /// handler. `None` where it can.
    pub open spec fn objection(self, name: Seq<char>) -> Option<ClientError> {
        match topic_levels(name) {
            None => Some(ClientError::InvalidTopic),
            Some(levels) => if has_name(
                if any_wildcard(levels) {
                    self.patterns
                } else {
                    self.exact
                },
                name,
            ) {
                None
            } else {
                Some(ClientError::UnknownTopic)
            },
        }
    }

    /// The objection to the first name of the row that meets one.
    pub open spec fn first_objection(self, names: Seq<Seq<char>>) -> Option<ClientError>
        decreases names.len(),
    {
        if names.len() == 0 {
            None
        } else if self.objection(names[0]) is Some {
            self.objection(names[0])
        } else {
            self.first_objection(names.skip(1))
        }
    }

    /// The handlers that a message on a topic goes to: the one under the
    /// topic's exact name, if there is one, then those of all the patterns
    /// that match. None at all where the topic's name is no topic path.
    pub open spec fn deliveries(self, topic: Seq<char>) -> Seq<H> {
        match topic_levels(topic) {
            None => Seq::empty(),
            Some(levels) => (match value_of(self.exact, topic) {
                Some(handler) => seq![handler],
                None => Seq::empty(),
            }) + matching(self.patterns, levels),
        }
    }
}

struct TopicData<H> {
    topic: TopicFilter,
    func: Arc<H>,
}

/// The handlers of a client, by topic name. Names without a wildcard and
/// patterns are kept apart.
pub struct TopicRegistry<H> {
    exact: NameMap<TopicData<H>>,
    patterns: NameMap<TopicData<H>>,
}

impl<H> View for TopicRegistry<H> {
    type V = RegistryView<H>;

    closed spec fn view(&self) -> RegistryView<H> {
        RegistryView {
            exact: project(self.exact@, |data: TopicData<H>| *data.func),
            patterns: project(self.patterns@, |data: TopicData<H>| *data.func),
        }
    }
}

impl<H> TopicRegistry<H> {
    spec fn filters_kept(entries: Seq<(Seq<char>, TopicData<H>)>, wildcards: bool) -> bool {
        forall|i: int|
            0 <= i < entries.len() ==> {
                let filter = (#[trigger] entries[i]).1.topic;
                filter.wf() && filter@.path == entries[i].0 && filter@.wildcards == wildcards
            }
    }

    /// The registry holds, with each name, the filter that the name parses
    /// to, and its view is well formed.
    pub closed spec fn wf(&self) -> bool {
        &&& self.exact.wf()
        &&& self.patterns.wf()
        &&& Self::filters_kept(self.exact@, false)
        &&& Self::filters_kept(self.patterns@, true)
    }

    /// A well-formed registry has a well-formed view.
    pub proof fn lemma_view_wf(&self)
        requires
            self.wf(),
        ensures
            self@.wf(),
    {
        lemma_project(self.exact@, |data: TopicData<H>| *data.func);
        lemma_project(self.patterns@, |data: TopicData<H>| *data.func);
        assert forall|i: int| 0 <= i < self@.exact.len() implies (topic_levels(
            (#[trigger] self@.exact[i]).0,
        ) matches Some(levels) && !any_wildcard(levels)) by {
            assert(self.exact@[i].1.topic.wf());
        }
        assert forall|i: int| 0 <= i < self@.patterns.len() implies (topic_levels(
            (#[trigger] self@.patterns[i]).0,
        ) matches Some(levels) && any_wildcard(levels)) by {
            assert(self.patterns@[i].1.topic.wf());
        }
    }

    /// A registry without handlers.
    pub fn new() -> (registry: Self)
        ensures
            registry.wf(),
            registry@ == RegistryView::<H>::empty(),
    {
        let registry = TopicRegistry { exact: NameMap::new(), patterns: NameMap::new() };
        assert(registry@.exact =~= Seq::empty() && registry@.patterns =~= Seq::empty());
        registry
    }

    /// Puts a handler under a name, in place of the one that the name had.
    /// Fails with `InvalidTopic`, and changes nothing, exactly where the name
    /// is no topic filter.
    pub fn register(&mut self, name: String, handler: H) -> (done: Result<(), ClientError>)
        requires
            old(self).wf(),
        ensures
            final(self).wf(),
            final(self)@ == old(self)@.register(name@, handler),
            done == if topic_levels(name@) is Some {
                Ok::<(), ClientError>(())
            } else {
                Err(ClientError::InvalidTopic)
            },
    {
        let topic = match TopicFilter::from_str(name.as_str()) {
            Ok(topic) => topic,
            Err(e) => {
                return Err(e);
            },
        };
        proof {
            lemma_project(self.exact@, |data: TopicData<H>| *data.func);
            lemma_project(self.patterns@, |data: TopicData<H>| *data.func);
        }
        let wildcards = topic.has_wildcards();
        let data = TopicData { topic, func: Arc::new(handler) };
        proof {
            lemma_put(self.exact@, name@, data);
            lemma_put(self.patterns@, name@, data);
        }
        if wildcards {
            self.patterns.insert(name, data);
        } else {
            self.exact.insert(name, data);
        }
        Ok(())
    }

    /// Takes out the handler under a name; a name without one changes
    /// nothing. Fails with `InvalidTopic` exactly where the name is no topic
    /// filter.
    pub fn unregister(&mut self, name: &String) -> (done: Result<(), ClientError>)
        requires
            old(self).wf(),
        ensures
            final(self).wf(),
            final(self)@ == old(self)@.unregister(name@),
            done == if topic_levels(name@) is Some {
                Ok::<(), ClientError>(())
            } else {
                Err(ClientError::InvalidTopic)
            },
    {
        let topic = match TopicFilter::from_str(name.as_str()) {
            Ok(topic) => topic,
            Err(e) => {
                return Err(e);
            },
        };
        proof {
            lemma_project(self.exact@, |data: TopicData<H>| *data.func);
            lemma_project(self.patterns@, |data: TopicData<H>| *data.func);
            lemma_take(self.exact@, name@);
            lemma_take(self.patterns@, name@);
        }
        if topic.has_wildcards() {
            self.patterns.remove(name);
        } else {
            self.exact.remove(name);
        }
        Ok(())
    }

    /// Says why a name cannot be subscribed to, if it cannot.
    pub fn check(&self, name: &String) -> (objection: Option<ClientError>)
        requires
            self.wf(),
        ensures
            objection == self@.objection(name@),
    {
        proof {
            lemma_project(self.exact@, |data: TopicData<H>| *data.func);
            lemma_project(self.patterns@, |data: TopicData<H>| *data.func);
        }
        match TopicFilter::from_str(name.as_str()) {
            Err(e) => Some(e),
            Ok(topic) => {
                let known = if topic.has_wildcards() {
                    self.patterns.contains_key(name)
                } else {
                    self.exact.contains_key(name)
                };
                if known {
                    None
                } else {
                    Some(ClientError::UnknownTopic)
                }
            },
        }
    }

    /// Says why the names cannot all be subscribed to, if they cannot: the
    /// objection to the first name that meets one.
    pub fn check_all(&self, names: &Vec<String>) -> (objection: Option<ClientError>)
        requires
            self.wf(),
        ensures
            objection == self@.first_objection(names_view(names@)),
    {
        let ghost all = names_view(names@);
        let mut i: usize = 0;
        assert(all.skip(0) =~= all);
        while i < names.len()
            invariant
                self.wf(),
                all == names_view(names@),
                i <= names.len(),
                self@.first_objection(all) == self@.first_objection(all.skip(i as int)),
            decreases names.len() - i,
        {
            assert(all.skip(i as int)[0] == names[i as int]@);
            assert(all.skip(i as int).skip(1) =~= all.skip(i + 1));
            let objection = self.check(&names[i]);
            if objection.is_some() {
                return objection;
            }
            i += 1;
        }
        None
    }

    /// The handlers that a message on a topic goes to.
    pub fn dispatch(&self, topic: &String) -> (handlers: Vec<Arc<H>>)
        requires
            self.wf(),
        ensures
            values_behind(handlers@) == self@.deliveries(topic@),
    {
        let mut handlers: Vec<Arc<H>> = Vec::new();
        let published = match TopicFilter::from_str(topic.as_str()) {
            Ok(published) => published,
            Err(_) => {
                assert(values_behind(handlers@) =~= Seq::empty());
                return handlers;
            },
        };
        proof {
            lemma_project(self.exact@, |data: TopicData<H>| *data.func);
            lemma_project(self.patterns@, |data: TopicData<H>| *data.func);
        }
        if let Some(data) = self.exact.get(topic) {
            handlers.push(share(&data.func));
        }
        let ghost first = values_behind(handlers@);
        assert(first =~= match value_of(self@.exact, topic@) {
            Some(handler) => seq![handler],
            None => Seq::empty(),
        });
        let n = self.patterns.len();
        let mut i: usize = 0;
        assert(self@.patterns.take(0) =~= Seq::empty());
        while i < n
            invariant
                self.wf(),
                n == self.patterns@.len(),
                n == self@.patterns.len(),
                i <= n,
                values_behind(handlers@) == first + matching(
                    self@.patterns.take(i as int),
                    published@.levels,
                ),
            decreases n - i,
        {
            let data = self.patterns.value_at(i);
            let ghost grown = self@.patterns.take(i + 1);
            assert(grown.drop_last() =~= self@.patterns.take(i as int));
            assert(grown.last() == self@.patterns[i as int]);
            assert(data.topic.wf() && data.topic@.path == self@.patterns[i as int].0);
            if data.topic.is_match(&published) {
                let ghost before = values_behind(handlers@);
                handlers.push(share(&data.func));
                assert(values_behind(handlers@) =~= before.push(*data.func));
            }
            i += 1;
        }
        assert(self@.patterns.take(n as int) =~= self@.patterns);
        handlers
    }

    /// Takes every handler out.
    pub fn clear(&mut self)
        ensures
            final(self).wf(),
            final(self)@ == RegistryView::<H>::empty(),
    {
        self.exact.clear();
        self.patterns.clear();
        assert(self@.exact =~= Seq::empty() && self@.patterns =~= Seq::empty());
    }
}

} // verus!
