use mqtt_client::error::ClientError;
use mqtt_client::registry::TopicRegistry;

fn name(text: &str) -> String {
    String::from(text)
}

fn served(registry: &TopicRegistry<u32>, topic: &str) -> Vec<u32> {
    registry.dispatch(&name(topic)).iter().map(|handler| **handler).collect()
}

#[test]
fn register_refuses_what_is_no_filter() {
    let mut registry: TopicRegistry<u32> = TopicRegistry::new();
    assert_eq!(registry.register(name("a/b+"), 1), Err(ClientError::InvalidTopic));
    assert_eq!(registry.register(name("a#"), 1), Err(ClientError::InvalidTopic));
    assert_eq!(registry.register(name("a/b"), 1), Ok(()));
    assert_eq!(registry.register(name("a/+"), 2), Ok(()));
}

#[test]
fn exact_name_serves_only_itself() {
    let mut registry: TopicRegistry<u32> = TopicRegistry::new();
    registry.register(name("a/b"), 1).unwrap();
    assert_eq!(served(&registry, "a/b"), vec![1]);
    assert_eq!(served(&registry, "a/c"), Vec::<u32>::new());
    assert_eq!(served(&registry, "a"), Vec::<u32>::new());
    assert_eq!(served(&registry, "a/b/c"), Vec::<u32>::new());
}

#[test]
fn every_matching_pattern_is_served_and_no_other() {
    let mut registry: TopicRegistry<u32> = TopicRegistry::new();
    registry.register(name("a/+/c"), 1).unwrap();
    registry.register(name("a/#"), 2).unwrap();
    registry.register(name("b/+/c"), 3).unwrap();
    registry.register(name("+/b/c"), 4).unwrap();
    registry.register(name("a/b/c"), 5).unwrap();
    assert_eq!(served(&registry, "a/b/c"), vec![5, 1, 2, 4]);
    assert_eq!(served(&registry, "a/x/c"), vec![1, 2]);
    assert_eq!(served(&registry, "b/b/c"), vec![3, 4]);
    assert_eq!(served(&registry, "c/c/c"), Vec::<u32>::new());
}

#[test]
fn a_topic_that_is_no_path_is_served_by_nobody() {
    let mut registry: TopicRegistry<u32> = TopicRegistry::new();
    registry.register(name("#"), 1).unwrap();
    assert_eq!(served(&registry, "a+"), Vec::<u32>::new());
    assert_eq!(served(&registry, "a"), vec![1]);
}

#[test]
fn register_replaces_the_handler_of_a_name() {
    let mut registry: TopicRegistry<u32> = TopicRegistry::new();
    registry.register(name("a/+"), 1).unwrap();
    registry.register(name("x/+"), 2).unwrap();
    registry.register(name("a/+"), 3).unwrap();
    assert_eq!(served(&registry, "a/b"), vec![3]);
    registry.register(name("q"), 4).unwrap();
    registry.register(name("q"), 5).unwrap();
    assert_eq!(served(&registry, "q"), vec![5]);
}

#[test]
fn unregister_takes_the_handler_out() {
    let mut registry: TopicRegistry<u32> = TopicRegistry::new();
    registry.register(name("a/+"), 1).unwrap();
    registry.register(name("a/b"), 2).unwrap();
    assert_eq!(registry.unregister(&name("a/+")), Ok(()));
    assert_eq!(served(&registry, "a/b"), vec![2]);
    assert_eq!(registry.unregister(&name("a/b")), Ok(()));
    assert_eq!(served(&registry, "a/b"), Vec::<u32>::new());
    assert_eq!(registry.unregister(&name("a/b")), Ok(()));
    assert_eq!(registry.unregister(&name("a/b#")), Err(ClientError::InvalidTopic));
}

#[test]
fn check_tells_the_objection() {
    let mut registry: TopicRegistry<u32> = TopicRegistry::new();
    registry.register(name("a/+"), 1).unwrap();
    registry.register(name("a/b"), 2).unwrap();
    assert_eq!(registry.check(&name("a/+")), None);
    assert_eq!(registry.check(&name("a/b")), None);
    assert_eq!(registry.check(&name("a/c")), Some(ClientError::UnknownTopic));
    assert_eq!(registry.check(&name("a/#")), Some(ClientError::UnknownTopic));
    assert_eq!(registry.check(&name("a/c+")), Some(ClientError::InvalidTopic));
}

#[test]
fn check_all_tells_the_first_objection() {
    let mut registry: TopicRegistry<u32> = TopicRegistry::new();
    registry.register(name("a/+"), 1).unwrap();
    registry.register(name("a/b"), 2).unwrap();
    assert_eq!(registry.check_all(&vec![]), None);
    assert_eq!(registry.check_all(&vec![name("a/+"), name("a/b")]), None);
    assert_eq!(
        registry.check_all(&vec![name("a/+"), name("x"), name("y+")]),
        Some(ClientError::UnknownTopic)
    );
    assert_eq!(
        registry.check_all(&vec![name("y+"), name("x")]),
        Some(ClientError::InvalidTopic)
    );
}

#[test]
fn clear_takes_every_handler_out() {
    let mut registry: TopicRegistry<u32> = TopicRegistry::new();
    registry.register(name("a/+"), 1).unwrap();
    registry.register(name("a/b"), 2).unwrap();
    registry.clear();
    assert_eq!(served(&registry, "a/b"), Vec::<u32>::new());
    assert_eq!(registry.check(&name("a/b")), Some(ClientError::UnknownTopic));
}
