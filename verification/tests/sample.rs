use core::cell::RefCell;
use iceoryx2_forwarding::c_api::{
    iox2_forward_error_e, iox2_forward_error_string, iox2_sample_drop,
    iox2_sample_drop_and_forward_to, iox2_sample_forward_to, iox2_sample_header,
    iox2_sample_payload, iox2_sample_user_header, result_code, IOX2_OK,
};
use iceoryx2_forwarding::completion_channel::{CompletionChannel, PushAnswer};
use iceoryx2_forwarding::completion_entry::{CompletionEntry, CompletionEntryTag};
use iceoryx2_forwarding::sample::{ChunkDetails, ForwardError, Header, Sample, UniquePublisherId};
use iceoryx2_forwarding::service_name::ServiceName;
use iceoryx2_forwarding::static_config::ForwardingTargets;

const OFFSET: u64 = 4096;

fn make() -> Sample<u64, u8> {
    let list = vec![ServiceName::new("tgt/a"), ServiceName::new("tgt/b"), ServiceName::new("tgt/c")];
    let targets = ForwardingTargets::from_slice(&list).unwrap();
    Sample::new(
        42,
        7,
        Header { publisher_id: UniquePublisherId { value: 99 }, number_of_elements: 1 },
        ChunkDetails { origin: 99, offset: OFFSET },
        targets,
    )
}

#[test]
fn sample_accessors() {
    let s = make();
    assert_eq!(*s.payload(), 42);
    assert_eq!(*s, 42);
    assert_eq!(*s.user_header(), 7);
    assert_eq!(s.header().number_of_elements, 1);
    assert_eq!(s.origin(), UniquePublisherId { value: 99 });
    assert_eq!(s.forwarding_history(), 0);
}

#[test]
fn forward_to_pushes_entry_with_target_index() {
    let mut s = make();
    let pushed = RefCell::new(Vec::new());
    let mut channel = CompletionChannel::new(|e| {
        pushed.borrow_mut().push(e);
        PushAnswer::Accepted
    });
    let r = s.forward_to(&ServiceName::new("tgt/c"), &mut channel);
    assert_eq!(r, Ok(()));
    assert_eq!(
        pushed.borrow().as_slice(),
        &[CompletionEntry { tag: CompletionEntryTag::Forward, target_index: 2, offset: OFFSET }]
    );
    assert_eq!(s.forwarding_history(), 1 << 2);
}

#[test]
fn forward_to_same_target_twice_is_refused() {
    let mut s = make();
    let target = ServiceName::new("tgt/a");
    let pushed = RefCell::new(Vec::new());
    let mut channel = CompletionChannel::new(|e| {
        pushed.borrow_mut().push(e);
        PushAnswer::Accepted
    });
    assert_eq!(s.forward_to(&target, &mut channel), Ok(()));
    let r = s.forward_to(&target, &mut channel);
    assert_eq!(r, Err(ForwardError::AlreadyForwarded));
    assert_eq!(pushed.borrow().len(), 1);
    assert_eq!(s.forwarding_history(), 1);
    // Other targets stay open.
    assert_eq!(s.forward_to(&ServiceName::new("tgt/b"), &mut channel), Ok(()));
    assert_eq!(pushed.borrow().len(), 2);
}

#[test]
fn forward_to_undeclared_target_is_refused() {
    let mut s = make();
    let pushed = RefCell::new(Vec::new());
    let mut channel = CompletionChannel::new(|e| {
        pushed.borrow_mut().push(e);
        PushAnswer::Accepted
    });
    let r = s.forward_to(&ServiceName::new("elsewhere"), &mut channel);
    assert_eq!(r, Err(ForwardError::TargetNotDeclared));
    assert!(pushed.borrow().is_empty());
    assert_eq!(s.forwarding_history(), 0);
}

#[test]
fn refused_push_can_be_retried() {
    let mut s = make();
    let target = ServiceName::new("tgt/b");
    let mut full = CompletionChannel::new(|_| PushAnswer::QueueFull);
    assert_eq!(s.forward_to(&target, &mut full), Err(ForwardError::CompletionQueueFull));
    assert_eq!(s.forwarding_history(), 0);
    let mut ok = CompletionChannel::new(|_| PushAnswer::Accepted);
    assert_eq!(s.forward_to(&target, &mut ok), Ok(()));
    assert_eq!(s.forwarding_history(), 1 << 1);
}

#[test]
fn forward_to_gone_publisher_is_unavailable() {
    let mut s = make();
    let target = ServiceName::new("tgt/b");
    let mut gone = CompletionChannel::new(|_| PushAnswer::PublisherGone);
    assert_eq!(s.forward_to(&target, &mut gone), Err(ForwardError::PublisherUnavailable));
    assert_eq!(s.forwarding_history(), 0);
}

#[test]
fn drop_and_forward_pushes_one_fused_entry() {
    let s = make();
    let pushed = RefCell::new(Vec::new());
    let mut channel = CompletionChannel::new(|e| {
        pushed.borrow_mut().push(e);
        PushAnswer::Accepted
    });
    let r = s.drop_and_forward_to(&ServiceName::new("tgt/b"), &mut channel);
    assert_eq!(r, Ok(()));
    assert_eq!(
        pushed.borrow().as_slice(),
        &[CompletionEntry { tag: CompletionEntryTag::DropAndForward, target_index: 1, offset: OFFSET }]
    );
}

#[test]
fn drop_and_forward_releases_when_queue_full() {
    let s = make();
    let pushed = RefCell::new(Vec::new());
    let mut channel = CompletionChannel::new(|e: CompletionEntry| {
        pushed.borrow_mut().push(e);
        if e.tag == CompletionEntryTag::Drop { PushAnswer::Accepted } else { PushAnswer::QueueFull }
    });
    let r = s.drop_and_forward_to(&ServiceName::new("tgt/a"), &mut channel);
    assert_eq!(r, Err(ForwardError::CompletionQueueFull));
    assert_eq!(
        pushed.borrow().as_slice(),
        &[
            CompletionEntry { tag: CompletionEntryTag::DropAndForward, target_index: 0, offset: OFFSET },
            CompletionEntry { tag: CompletionEntryTag::Drop, target_index: 0, offset: OFFSET },
        ]
    );
}

#[test]
fn drop_and_forward_to_gone_publisher_releases_plainly() {
    let s = make();
    let pushed = RefCell::new(Vec::new());
    let mut channel = CompletionChannel::new(|e| {
        pushed.borrow_mut().push(e);
        PushAnswer::PublisherGone
    });
    let r = s.drop_and_forward_to(&ServiceName::new("tgt/a"), &mut channel);
    assert_eq!(r, Err(ForwardError::PublisherUnavailable));
    assert_eq!(pushed.borrow().len(), 2);
    assert_eq!(pushed.borrow()[1].tag, CompletionEntryTag::Drop);
}

#[test]
fn drop_and_forward_after_forward_releases_plainly() {
    let mut s = make();
    let target = ServiceName::new("tgt/c");
    let pushed = RefCell::new(Vec::new());
    let mut channel = CompletionChannel::new(|e| {
        pushed.borrow_mut().push(e);
        PushAnswer::Accepted
    });
    assert_eq!(s.forward_to(&target, &mut channel), Ok(()));
    pushed.borrow_mut().clear();
    let r = s.drop_and_forward_to(&target, &mut channel);
    assert_eq!(r, Err(ForwardError::AlreadyForwarded));
    assert_eq!(
        pushed.borrow().as_slice(),
        &[CompletionEntry { tag: CompletionEntryTag::Drop, target_index: 0, offset: OFFSET }]
    );
}

#[test]
fn drop_and_forward_to_undeclared_target_releases_plainly() {
    let s = make();
    let pushed = RefCell::new(Vec::new());
    let mut channel = CompletionChannel::new(|e| {
        pushed.borrow_mut().push(e);
        PushAnswer::Accepted
    });
    let r = s.drop_and_forward_to(&ServiceName::new("nowhere"), &mut channel);
    assert_eq!(r, Err(ForwardError::TargetNotDeclared));
    assert_eq!(pushed.borrow().len(), 1);
    assert_eq!(pushed.borrow()[0].tag, CompletionEntryTag::Drop);
}

#[test]
fn release_pushes_drop_entry() {
    let s = make();
    let pushed = RefCell::new(Vec::new());
    let mut channel = CompletionChannel::new(|e| {
        pushed.borrow_mut().push(e);
        PushAnswer::QueueFull
    });
    assert_eq!(s.release(&mut channel), PushAnswer::QueueFull);
    assert_eq!(
        pushed.borrow().as_slice(),
        &[CompletionEntry { tag: CompletionEntryTag::Drop, target_index: 0, offset: OFFSET }]
    );
}

#[test]
fn declared_targets_of_a_sample() {
    let s = make();
    assert_eq!(s.forwards_into().len(), 3);
    assert_eq!(s.forwards_into().position(&ServiceName::new("tgt/b")), Some(1));
}

#[test]
fn forward_error_messages() {
    assert_eq!(ForwardError::TargetNotDeclared.message(), "ForwardError::TargetNotDeclared");
    assert_eq!(ForwardError::AlreadyForwarded.message(), "ForwardError::AlreadyForwarded");
    assert_eq!(ForwardError::CompletionQueueFull.message(), "ForwardError::CompletionQueueFull");
    assert_eq!(ForwardError::PublisherUnavailable.message(), "ForwardError::PublisherUnavailable");
}

#[test]
fn c_error_codes_follow_ok() {
    assert_eq!(IOX2_OK, 0);
    assert_eq!(iox2_forward_error_e::from(ForwardError::TargetNotDeclared).code(), 1);
    assert_eq!(iox2_forward_error_e::from(ForwardError::AlreadyForwarded).code(), 2);
    assert_eq!(iox2_forward_error_e::from(ForwardError::CompletionQueueFull).code(), 3);
    assert_eq!(iox2_forward_error_e::from(ForwardError::PublisherUnavailable).code(), 4);
    assert_eq!(result_code(Ok(())), IOX2_OK);
    assert_eq!(result_code(Err(ForwardError::AlreadyForwarded)), 2);
}

#[test]
fn c_error_strings() {
    assert_eq!(iox2_forward_error_string(iox2_forward_error_e::TARGET_NOT_DECLARED), "target not declared");
    assert_eq!(iox2_forward_error_string(iox2_forward_error_e::ALREADY_FORWARDED), "already forwarded");
    assert_eq!(iox2_forward_error_string(iox2_forward_error_e::COMPLETION_QUEUE_FULL), "completion queue full");
    assert_eq!(iox2_forward_error_string(iox2_forward_error_e::PUBLISHER_UNAVAILABLE), "publisher unavailable");
}

#[test]
fn c_sample_calls() {
    let mut s = make();
    assert_eq!(iox2_sample_header(&s).number_of_elements, 1);
    assert_eq!(*iox2_sample_user_header(&s), 7);
    let (payload, elements) = iox2_sample_payload(&s);
    assert_eq!((*payload, elements), (42, 1));
    let target = ServiceName::new("tgt/a");
    let mut ok = CompletionChannel::new(|_| PushAnswer::Accepted);
    assert_eq!(iox2_sample_forward_to(&mut s, &target, &mut ok), IOX2_OK);
    assert_eq!(iox2_sample_forward_to(&mut s, &target, &mut ok), 2);
    let mut full = CompletionChannel::new(|_| PushAnswer::QueueFull);
    assert_eq!(iox2_sample_forward_to(&mut s, &ServiceName::new("tgt/b"), &mut full), 3);
    let mut gone = CompletionChannel::new(|_| PushAnswer::PublisherGone);
    assert_eq!(iox2_sample_forward_to(&mut s, &ServiceName::new("tgt/b"), &mut gone), 4);
    assert_eq!(iox2_sample_drop_and_forward_to(s, &target, &mut ok), 2);
    assert_eq!(iox2_sample_drop_and_forward_to(make(), &ServiceName::new("zzz"), &mut ok), 1);
    let released = RefCell::new(Vec::new());
    let mut channel = CompletionChannel::new(|e| {
        released.borrow_mut().push(e);
        PushAnswer::Accepted
    });
    iox2_sample_drop(make(), &mut channel);
    assert_eq!(released.borrow().len(), 1);
    assert_eq!(released.borrow()[0].tag, CompletionEntryTag::Drop);
}
