use vstd::prelude::*;
use crate::error::ClientError;

verus! {

/// One level of a topic path, between two `/`.
pub enum TopicLevel {
    /// Plain text.
    Normal(String),
    /// Text that starts with `$`.
    System(String),
    /// Nothing between two separators.
    Blank,
    /// `+`
    SingleWildcard,
    /// `#`
    MultiWildcard,
}

/// What a `TopicLevel` stands for.
pub enum LevelView {
    Normal(Seq<char>),
    System(Seq<char>),
    Blank,
    SingleWildcard,
    MultiWildcard,
}

impl View for TopicLevel {
    type V = LevelView;

    open spec fn view(&self) -> LevelView {
        match *self {
            TopicLevel::Normal(s) => LevelView::Normal(s@),
            TopicLevel::System(s) => LevelView::System(s@),
            TopicLevel::Blank => LevelView::Blank,
            TopicLevel::SingleWildcard => LevelView::SingleWildcard,
            TopicLevel::MultiWildcard => LevelView::MultiWildcard,
        }
    }
}

/// The views of a row of levels.
pub open spec fn levels_view(levels: Seq<TopicLevel>) -> Seq<LevelView> {
    levels.map_values(|l: TopicLevel| l@)
}

/// The levels that `mqtt3::TopicPath::from_str` finds in a path, or `None`
/// where it refuses the path.
pub uninterp spec fn topic_levels(path: Seq<char>) -> Option<Seq<LevelView>>;

/// Whether one of the levels is `+` or `#`.
pub open spec fn any_wildcard(levels: Seq<LevelView>) -> bool {
    exists|i: int|
        0 <= i < levels.len() && (#[trigger] levels[i] is SingleWildcard
            || levels[i] is MultiWildcard)
}

/// Whether a filter level admits a topic level: `+` admits every level, any
/// other level only itself.
pub open spec fn level_matches(filter: LevelView, topic: LevelView) -> bool {
    filter is SingleWildcard || filter == topic
}

/// MQTT wildcard matching of a filter against a topic, level by level.
///
/// `+` stands for exactly one level. `#` stands for all the levels that
/// remain, none included, and only as the last level of the filter: elsewhere
/// the filter matches nothing.
pub open spec fn filter_matches(filter: Seq<LevelView>, topic: Seq<LevelView>) -> bool
    decreases filter.len(),
{
    if filter.len() == 0 {
        topic.len() == 0
    } else if filter[0] is MultiWildcard {
        filter.len() == 1
    } else {
        topic.len() > 0 && level_matches(filter[0], topic[0]) && filter_matches(
            filter.skip(1),
            topic.skip(1),
        )
    }
}

/// A topic path together with its levels.
pub struct TopicFilter {
    path: String,
    wildcards: bool,
    levels: Vec<TopicLevel>,
}

/// What a `TopicFilter` stands for.
pub struct FilterView {
    pub path: Seq<char>,
    pub wildcards: bool,
    pub levels: Seq<LevelView>,
}

impl View for TopicFilter {
    type V = FilterView;

    closed spec fn view(&self) -> FilterView {
        FilterView {
            path: self.path@,
            wildcards: self.wildcards,
            levels: levels_view(self.levels@),
        }
    }
}

/// `mqtt3::TopicPath::from_str`, with the path it returns taken apart into
/// plain values. The call succeeds exactly on the paths that have levels; the
/// result then holds the path as given, these levels, and a flag that says
/// whether one of them is a wildcard.
#[verifier::external_body]
fn parse_path(path: &str) -> (parsed: Option<TopicFilter>)
    ensures
        parsed.is_some() == topic_levels(path@).is_some(),
        parsed matches Some(f) ==> f@.path == path@ && topic_levels(path@) == Some(f@.levels)
            && f@.wildcards == any_wildcard(f@.levels),
{
    match mqtt3::TopicPath::from_str(path) {
        Err(_) => None,
        Ok(found) => {
            let (path, wildcards) = (found.path.clone(), found.wildcards);
            let levels = found.into_iter().map(|level| match level {
                mqtt3::Topic::Normal(text) => TopicLevel::Normal(text),
                mqtt3::Topic::System(text) => TopicLevel::System(text),
                mqtt3::Topic::Blank => TopicLevel::Blank,
                mqtt3::Topic::SingleWildcard => TopicLevel::SingleWildcard,
                mqtt3::Topic::MultiWildcard => TopicLevel::MultiWildcard,
            }).collect();
            Some(TopicFilter { path, wildcards, levels })
        },
    }
}

fn same_level(a: &TopicLevel, b: &TopicLevel) -> (same: bool)
    ensures
        same == (a@ == b@),
{
    match (a, b) {
        (TopicLevel::Normal(s), TopicLevel::Normal(t)) => *s == *t,
        (TopicLevel::System(s), TopicLevel::System(t)) => *s == *t,
        (TopicLevel::Blank, TopicLevel::Blank) => true,
        (TopicLevel::SingleWildcard, TopicLevel::SingleWildcard) => true,
        (TopicLevel::MultiWildcard, TopicLevel::MultiWildcard) => true,
        _ => false,
    }
}

impl TopicFilter {
    /// The filter is what parsing its path gives.
    pub open spec fn wf(&self) -> bool {
        &&& topic_levels(self@.path) == Some(self@.levels)
        &&& self@.wildcards == any_wildcard(self@.levels)
    }

    /// Parses a path. Fails with `InvalidTopic` exactly where the path has no
    /// levels.
    pub fn from_str(path: &str) -> (parsed: Result<TopicFilter, ClientError>)
        ensures
            parsed.is_ok() == topic_levels(path@).is_some(),
            parsed matches Ok(f) ==> f.wf() && f@.path == path@,
            parsed matches Err(e) ==> e == ClientError::InvalidTopic,
    {
        match parse_path(path) {
            Some(f) => Ok(f),
            None => Err(ClientError::InvalidTopic),
        }
    }

    /// The path as it was given.
    pub fn path(&self) -> (path: &String)
        ensures
            path@ == self@.path,
    {
        &self.path
    }

    /// Whether one of the levels is a wildcard.
    pub fn has_wildcards(&self) -> (wildcards: bool)
        ensures
            wildcards == self@.wildcards,
    {
        self.wildcards
    }

    /// The levels of the path.
    pub fn levels(&self) -> (levels: &Vec<TopicLevel>)
        ensures
            levels_view(levels@) == self@.levels,
    {
        &self.levels
    }

    /// Whether this filter matches `topic` under MQTT wildcard rules.
    pub fn is_match(&self, topic: &TopicFilter) -> (matched: bool)
        ensures
            matched == filter_matches(self@.levels, topic@.levels),
    {
        levels_match(&self.levels, &topic.levels)
    }
}

/// Whether the levels of a filter match the levels of a topic under MQTT
/// wildcard rules.
pub fn levels_match(filter: &Vec<TopicLevel>, topic: &Vec<TopicLevel>) -> (matched: bool)
    ensures
        matched == filter_matches(levels_view(filter@), levels_view(topic@)),
{
    let ghost f = levels_view(filter@);
    let ghost t = levels_view(topic@);
    let n = filter.len();
    let m = topic.len();
    let mut i: usize = 0;
    assert(f.skip(0) == f && t.skip(0) == t);
    while i < n
        invariant
            f == levels_view(filter@),
            t == levels_view(topic@),
            n == filter.len(),
            m == topic.len(),
            i <= n,
            i <= m,
            filter_matches(f, t) == filter_matches(f.skip(i as int), t.skip(i as int)),
        decreases n - i,
    {
        assert(f.skip(i as int).len() == n - i && f.skip(i as int)[0] == filter[i as int]@);
        match &filter[i] {
            TopicLevel::MultiWildcard => {
                return i + 1 == n;
            },
            level => {
                if i >= m {
                    return false;
                }
                assert(t.skip(i as int)[0] == topic[i as int]@);
                let admitted = match level {
                    TopicLevel::SingleWildcard => true,
                    other => same_level(other, &topic[i]),
                };
                if !admitted {
                    return false;
                }
                assert(f.skip(i as int).skip(1) == f.skip(i + 1));
                assert(t.skip(i as int).skip(1) == t.skip(i + 1));
            },
        }
        i += 1;
    }
    assert(f.skip(n as int).len() == 0);
    i == m
}

/// Whether a topic name holds a wildcard. Fails with `InvalidTopic` exactly
/// where the name has no levels.
pub fn is_topic_contains_wildcards(name: &str) -> (found: Result<bool, ClientError>)
    ensures
        match found {
            Ok(wildcards) => topic_levels(name@) matches Some(levels) && wildcards
                == any_wildcard(levels),
            Err(e) => e == ClientError::InvalidTopic && topic_levels(name@) is None,
        },
{
    match TopicFilter::from_str(name) {
        Ok(f) => Ok(f.has_wildcards()),
        Err(e) => Err(e),
    }
}

} // verus!
