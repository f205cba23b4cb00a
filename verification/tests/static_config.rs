use iceoryx2_forwarding::publisher_mode::PublisherMode;
use iceoryx2_forwarding::service_name::ServiceName;
use iceoryx2_forwarding::static_config::{
    ForwardingTargets, ForwardingTargetsError, MessageTypeDetails, PublishSubscribeDefaults,
    StaticConfig, MAX_FORWARDING_TARGETS_PER_SERVICE,
};

fn names(list: &[&str]) -> Vec<ServiceName> {
    list.iter().map(|n| ServiceName::new(n)).collect()
}

#[test]
fn new_forwarding_targets_is_empty() {
    let targets = ForwardingTargets::new();
    assert_eq!(targets.len(), 0);
    assert!(targets.is_empty());
    assert!(targets.get(0).is_none());
    let default = ForwardingTargets::default();
    assert!(default.is_empty());
}

#[test]
fn from_slice_keeps_insertion_order() {
    let list = names(&["a", "b", "c"]);
    let targets = ForwardingTargets::from_slice(&list).unwrap();
    assert_eq!(targets.len(), 3);
    assert!(!targets.is_empty());
    assert_eq!(targets.get(0).unwrap().as_str(), "a");
    assert_eq!(targets.get(1).unwrap().as_str(), "b");
    assert_eq!(targets.get(2).unwrap().as_str(), "c");
    assert!(targets.get(3).is_none());
    assert_eq!(targets.position(&ServiceName::new("c")), Some(2));
    assert_eq!(targets.position(&ServiceName::new("a")), Some(0));
    assert_eq!(targets.position(&ServiceName::new("d")), None);
    assert!(targets.contains(&ServiceName::new("b")));
    assert!(!targets.contains(&ServiceName::new("x")));
}

#[test]
fn from_slice_rejects_more_than_capacity() {
    let list = names(&["a", "b", "c", "d", "e", "f", "g", "h", "i"]);
    assert_eq!(list.len(), MAX_FORWARDING_TARGETS_PER_SERVICE + 1);
    assert_eq!(
        ForwardingTargets::from_slice(&list).err(),
        Some(ForwardingTargetsError::ExceedsCapacity)
    );
    let full = names(&["a", "b", "c", "d", "e", "f", "g", "h"]);
    assert_eq!(ForwardingTargets::from_slice(&full).unwrap().len(), 8);
}

#[test]
fn from_slice_rejects_duplicates() {
    let list = names(&["a", "b", "a"]);
    assert_eq!(
        ForwardingTargets::from_slice(&list).err(),
        Some(ForwardingTargetsError::DuplicateEntry)
    );
}

#[test]
fn capacity_is_checked_before_duplicates() {
    let list = names(&["a", "a", "a", "a", "a", "a", "a", "a", "a"]);
    assert_eq!(
        ForwardingTargets::from_slice(&list).err(),
        Some(ForwardingTargetsError::ExceedsCapacity)
    );
}

#[test]
fn iter_yields_names_in_order() {
    let list = names(&["x", "y"]);
    let targets = ForwardingTargets::from_slice(&list).unwrap();
    let mut iter = targets.iter();
    assert_eq!(iter.next().unwrap().as_str(), "x");
    assert_eq!(iter.next().unwrap().as_str(), "y");
    assert!(iter.next().is_none());
    assert!(iter.next().is_none());
}

#[test]
fn rebuilding_from_own_names_gives_same_list() {
    let list = names(&["p", "q", "r"]);
    let targets = ForwardingTargets::from_slice(&list).unwrap();
    let mut again: Vec<ServiceName> = Vec::new();
    let mut iter = targets.iter();
    while let Some(name) = iter.next() {
        again.push(name.clone());
    }
    let rebuilt = ForwardingTargets::from_slice(&again).unwrap();
    assert_eq!(rebuilt.len(), targets.len());
    for i in 0..targets.len() {
        assert_eq!(rebuilt.get(i), targets.get(i));
    }
}

#[test]
fn forwarding_targets_error_messages() {
    assert_eq!(
        ForwardingTargetsError::ExceedsCapacity.message(),
        "ForwardingTargetsError::ExceedsCapacity"
    );
    assert_eq!(
        ForwardingTargetsError::DuplicateEntry.message(),
        "ForwardingTargetsError::DuplicateEntry"
    );
}

fn defaults() -> PublishSubscribeDefaults {
    PublishSubscribeDefaults {
        max_subscribers: 8,
        max_publishers: 2,
        max_nodes: 20,
        publisher_history_size: 3,
        subscriber_max_buffer_size: 4,
        subscriber_max_borrowed_samples: 5,
        enable_safe_overflow: true,
    }
}

#[test]
fn static_config_starts_from_defaults() {
    let config = StaticConfig::new(&defaults());
    assert_eq!(config.max_subscribers(), 8);
    assert_eq!(config.max_publishers(), 2);
    assert_eq!(config.max_nodes(), 20);
    assert_eq!(config.history_size(), 3);
    assert_eq!(config.subscriber_max_buffer_size(), 4);
    assert_eq!(config.subscriber_max_borrowed_samples(), 5);
    assert!(config.has_safe_overflow());
    assert_eq!(config.publisher_mode(), PublisherMode::Mixed);
    assert!(config.forwards_into().is_empty());
    assert!(config.accepts_forwarders_from().is_empty());
    assert_eq!(*config.message_type_details(), MessageTypeDetails::default());
}

#[test]
fn required_samples_per_data_segment() {
    let config = StaticConfig::new(&defaults());
    // 8 * (4 + 5) + 3 + 2
    assert_eq!(config.required_amount_of_samples_per_data_segment(2), 77);
    let mut none = defaults();
    none.max_subscribers = 0;
    let config = StaticConfig::new(&none);
    assert_eq!(config.required_amount_of_samples_per_data_segment(6), 9);
}
