use mqtt_client::error::ClientError;
use mqtt_client::topic::{is_topic_contains_wildcards, TopicFilter};

fn filter(path: &str) -> TopicFilter {
    TopicFilter::from_str(path).unwrap()
}

#[test]
fn plain_names_hold_no_wildcard() {
    assert_eq!(is_topic_contains_wildcards("a/b/c"), Ok(false));
    assert_eq!(is_topic_contains_wildcards("/a/b/c"), Ok(false));
    assert_eq!(is_topic_contains_wildcards(""), Ok(false));
}

#[test]
fn wildcard_levels_are_found() {
    assert_eq!(is_topic_contains_wildcards("a/+/c"), Ok(true));
    assert_eq!(is_topic_contains_wildcards("a/b/#"), Ok(true));
    assert_eq!(is_topic_contains_wildcards("#"), Ok(true));
}

#[test]
fn wildcard_inside_a_level_is_refused() {
    assert_eq!(is_topic_contains_wildcards("+wrong"), Err(ClientError::InvalidTopic));
    assert_eq!(is_topic_contains_wildcards("wro#ng"), Err(ClientError::InvalidTopic));
    assert_eq!(is_topic_contains_wildcards("w/r/o/n/g+"), Err(ClientError::InvalidTopic));
    assert!(TopicFilter::from_str("a/b+").is_err());
}

#[test]
fn parsed_filter_keeps_its_path() {
    let f = filter("sensors/+/temp");
    assert_eq!(f.path().as_str(), "sensors/+/temp");
    assert!(f.has_wildcards());
    assert!(!filter("sensors/12/temp").has_wildcards());
}

#[test]
fn single_wildcard_stands_for_one_level() {
    let f = filter("sensors/+/temp");
    assert!(f.is_match(&filter("sensors/12/temp")));
    assert!(f.is_match(&filter("sensors//temp")));
    assert!(!f.is_match(&filter("sensors/12/humidity")));
    assert!(!f.is_match(&filter("sensors/12/13/temp")));
    assert!(!f.is_match(&filter("sensors/temp")));
    assert!(!f.is_match(&filter("sensors/12")));
}

#[test]
fn multi_wildcard_stands_for_the_rest() {
    let f = filter("a/#");
    assert!(f.is_match(&filter("a/b")));
    assert!(f.is_match(&filter("a/b/c/d")));
    assert!(f.is_match(&filter("a")));
    assert!(!f.is_match(&filter("b/c")));
    assert!(filter("#").is_match(&filter("x/y")));
}

#[test]
fn multi_wildcard_before_the_end_matches_nothing() {
    let f = filter("a/#/c");
    assert!(!f.is_match(&filter("a/b/c")));
    assert!(!f.is_match(&filter("a/c")));
}

#[test]
fn exact_filter_matches_only_itself() {
    let f = filter("a/b");
    assert!(f.is_match(&filter("a/b")));
    assert!(!f.is_match(&filter("a/b/c")));
    assert!(!f.is_match(&filter("a")));
    assert!(!f.is_match(&filter("a/c")));
    assert!(!filter("$SYS/a").is_match(&filter("SYS/a")));
}
