use iceoryx2_forwarding::publisher_mode::PublisherMode;

#[test]
fn default_publisher_mode_is_mixed() {
    assert_eq!(PublisherMode::default(), PublisherMode::Mixed);
}

#[test]
fn publisher_mode_names() {
    assert_eq!(PublisherMode::Mixed.name(), "Mixed");
    assert_eq!(PublisherMode::NativeOnly.name(), "NativeOnly");
    assert_eq!(PublisherMode::ForwarderOnly.name(), "ForwarderOnly");
}

#[test]
fn publisher_mode_name_round_trip() {
    for mode in [PublisherMode::Mixed, PublisherMode::NativeOnly, PublisherMode::ForwarderOnly] {
        assert_eq!(PublisherMode::from_name(mode.name()), Some(mode));
    }
}

#[test]
fn unknown_publisher_mode_name_is_rejected() {
    assert_eq!(PublisherMode::from_name("mixed"), None);
    assert_eq!(PublisherMode::from_name(""), None);
    assert_eq!(PublisherMode::from_name("Native"), None);
}
