//! A received sample and the forwarding requests its subscriber can make:
//! `forward_to` (forward, keep the borrow) and `drop_and_forward_to`
//! (forward and release the borrow in one entry).
//!
//! A request travels to the publisher as a [`CompletionEntry`] handed to the
//! subscriber's completion channel; the channel answers whether it took the
//! entry. A sample handle forwards to each target at most once: a bitmap on
//! the handle records the targets it has been forwarded to, and a bit is set
//! only once the channel took the entry, so a refused push can be retried.
use vstd::prelude::*;
use crate::completion_channel::{CompletionChannel, PushAnswer};
use crate::completion_entry::{CompletionEntry, CompletionEntryTag};
use crate::segment_state::{has_forwarded, target_mask, lemma_set_target_bit};
use crate::service_name::ServiceName;
use crate::static_config::{ForwardingTargets, all_distinct, MAX_FORWARDING_TARGETS_PER_SERVICE};

verus! {

/// Why a forwarding request was not delivered.
#[derive(Debug, Clone, Copy, PartialEq, Eq, Structural, Hash)]
pub enum ForwardError {
    /// The target is not in the source service's `forwards_into` list.
    TargetNotDeclared,
    /// This sample handle has already been forwarded to the target.
    AlreadyForwarded,
    /// The completion channel to the publisher is full; retry later.
    CompletionQueueFull,
    /// The connection back to the publisher is no longer valid.
    PublisherUnavailable,
}

impl ForwardError {
    /// The text the error is shown as: its type and variant name.
    pub fn message(&self) -> (text: &'static str)
        ensures
            text@ == match *self {
                ForwardError::TargetNotDeclared => "ForwardError::TargetNotDeclared"@,
                ForwardError::AlreadyForwarded => "ForwardError::AlreadyForwarded"@,
                ForwardError::CompletionQueueFull => "ForwardError::CompletionQueueFull"@,
                ForwardError::PublisherUnavailable => "ForwardError::PublisherUnavailable"@,
            },
    {
        match self {
            ForwardError::TargetNotDeclared => "ForwardError::TargetNotDeclared",
            ForwardError::AlreadyForwarded => "ForwardError::AlreadyForwarded",
            ForwardError::CompletionQueueFull => "ForwardError::CompletionQueueFull",
            ForwardError::PublisherUnavailable => "ForwardError::PublisherUnavailable",
        }
    }
}

/// The identity of the publisher a sample came from.
#[derive(Debug, Clone, Copy, PartialEq, Eq, Structural, Hash)]
pub struct UniquePublisherId {
    pub value: u128,
}

/// The header the publisher wrote in front of the payload.
#[derive(Debug, Clone, Copy, PartialEq, Eq, Structural, Hash)]
pub struct Header {
    pub publisher_id: UniquePublisherId,
    pub number_of_elements: u64,
}

/// Where a sample's bucket lives and who sent it.
#[derive(Debug, Clone, Copy, PartialEq, Eq, Structural, Hash)]
pub struct ChunkDetails {
    /// The publisher that sent the sample.
    pub origin: u128,
    /// The offset of the bucket in the publisher's data segment.
    pub offset: u64,
}

/// The index of `target` in `targets`: its position, for a list in which no
/// name occurs twice.
pub open spec fn target_index_of(targets: Seq<Seq<char>>, target: Seq<char>) -> int {
    choose|i: int| 0 <= i < targets.len() && targets[i] == target
}

/// The target index a request to `target` goes to, or why it is refused,
/// given the declared targets and the handle's forwarding history.
pub open spec fn forward_decision(targets: Seq<Seq<char>>, history: u64, target: Seq<char>) -> Result<
    u8,
    ForwardError,
> {
    if !targets.contains(target) {
        Err(ForwardError::TargetNotDeclared)
    } else if has_forwarded(history, target_index_of(targets, target) as u8) {
        Err(ForwardError::AlreadyForwarded)
    } else {
        Ok(target_index_of(targets, target) as u8)
    }
}

/// The target index of a declared target is its position in the list.
pub proof fn lemma_target_index_is_position(targets: Seq<Seq<char>>, position: int)
    requires
        all_distinct(targets),
        0 <= position < targets.len(),
    ensures
        target_index_of(targets, targets[position]) == position,
{
    let c = target_index_of(targets, targets[position]);
    assert(0 <= c < targets.len() && targets[c] == targets[position]);
    if c < position {
        assert(targets[c] != targets[position]);
    } else if c > position {
        assert(targets[position] != targets[c]);
    }
}

/// The verdict on a request: a declared target is accepted with its position
/// in the list as target index exactly when bit `position` of the history is
/// clear, and refused as already forwarded when that bit is set; only a
/// target missing from the list is refused as not declared.
pub proof fn lemma_forward_decision_by_position(
    targets: Seq<Seq<char>>,
    history: u64,
    position: int,
    target: Seq<char>,
)
    requires
        all_distinct(targets),
        targets.len() <= MAX_FORWARDING_TARGETS_PER_SERVICE,
        0 <= position < targets.len(),
    ensures
        history & (1u64 << (position as u64)) == 0 ==> forward_decision(targets, history, targets[position])
            == Ok::<u8, ForwardError>(position as u8),
        history & (1u64 << (position as u64)) != 0 ==> forward_decision(
            targets,
            history,
            targets[position],
        ) == Err::<u8, ForwardError>(ForwardError::AlreadyForwarded),
        (forward_decision(targets, history, target) == Err::<u8, ForwardError>(ForwardError::TargetNotDeclared))
            <==> !targets.contains(target),
{
    lemma_target_index_is_position(targets, position);
    assert(targets.contains(targets[position]));
    assert((position as u8) as u64 == position as u64);
}

/// A sample handle is forwarded to each target at most once: once the
/// channel took a request for a target, the next request to it is refused
/// with `AlreadyForwarded`; a request the channel refused changes nothing,
/// so it can be retried.
pub proof fn lemma_forward_at_most_once(
    targets: Seq<Seq<char>>,
    history: u64,
    target: Seq<char>,
    answer: PushAnswer,
)
    requires
        all_distinct(targets),
        targets.len() <= MAX_FORWARDING_TARGETS_PER_SERVICE,
        forward_decision(targets, history, target) is Ok,
    ensures
        forward_decision(
            targets,
            history_after(history, forward_decision(targets, history, target)->Ok_0, PushAnswer::Accepted),
            target,
        ) == Err::<u8, ForwardError>(ForwardError::AlreadyForwarded),
        answer != PushAnswer::Accepted ==> forward_decision(
            targets,
            history_after(history, forward_decision(targets, history, target)->Ok_0, answer),
            target,
        ) == forward_decision(targets, history, target),
{
    let index = forward_decision(targets, history, target)->Ok_0;
    let c = target_index_of(targets, target);
    assert(0 <= c < targets.len() && targets[c] == target);
    lemma_set_target_bit(history, index, index);
}

/// Forwarding a sample handle to one target leaves the verdict on every
/// other target as it was.
pub proof fn lemma_forward_independent_per_target(
    targets: Seq<Seq<char>>,
    history: u64,
    target: Seq<char>,
    other: Seq<char>,
)
    requires
        all_distinct(targets),
        targets.len() <= MAX_FORWARDING_TARGETS_PER_SERVICE,
        forward_decision(targets, history, target) is Ok,
        other != target,
    ensures
        forward_decision(
            targets,
            history_after(history, forward_decision(targets, history, target)->Ok_0, PushAnswer::Accepted),
            other,
        ) == forward_decision(targets, history, other),
{
    let index = forward_decision(targets, history, target)->Ok_0;
    let c = target_index_of(targets, target);
    assert(0 <= c < targets.len() && targets[c] == target);
    if targets.contains(other) {
        let d = target_index_of(targets, other);
        assert(0 <= d < targets.len() && targets[d] == other);
        assert(d != c);
        lemma_set_target_bit(history, index, d as u8);
    }
}

/// The entry of a forwarding request.
pub open spec fn request_entry(tag: CompletionEntryTag, target_index: u8, offset: u64) -> CompletionEntry {
    CompletionEntry { tag, target_index, offset }
}

/// The entry that releases the borrow on the bucket at `offset`.
pub open spec fn release_entry(offset: u64) -> CompletionEntry {
    CompletionEntry { tag: CompletionEntryTag::Drop, target_index: 0, offset }
}

/// What a forwarding request returns once the channel gave `answer` to its
/// entry.
pub open spec fn answer_outcome(answer: PushAnswer) -> Result<(), ForwardError> {
    match answer {
        PushAnswer::Accepted => Ok(()),
        PushAnswer::QueueFull => Err(ForwardError::CompletionQueueFull),
        PushAnswer::PublisherGone => Err(ForwardError::PublisherUnavailable),
    }
}

/// The forwarding history after the channel gave `answer` to a request for
/// `target_index`: the target is recorded only when the entry was accepted.
pub open spec fn history_after(history: u64, target_index: u8, answer: PushAnswer) -> u64 {
    if answer == PushAnswer::Accepted {
        history | target_mask(target_index)
    } else {
        history
    }
}

/// The entries a fused request hands to the channel when the channel gave
/// `answer` to its `DropAndForward` entry `request`: that entry alone when it
/// was accepted, otherwise that entry and then the plain release.
pub open spec fn drop_and_forward_entries(request: CompletionEntry, answer: PushAnswer) -> Seq<CompletionEntry> {
    if answer == PushAnswer::Accepted {
        seq![request]
    } else {
        seq![request, release_entry(request.offset)]
    }
}

/// A request succeeds only when the channel accepted its entry; a full queue
/// and a lost publisher each give their own error. The history gains
/// exactly bit `target_index` when the entry was accepted and is untouched
/// otherwise. The entries carry what they were made from.
pub proof fn lemma_answer_effects(history: u64, target_index: u8, other: u8, answer: PushAnswer, offset: u64)
    requires
        target_index < 64,
        other < 64,
    ensures
        (answer_outcome(answer) is Ok) <==> answer == PushAnswer::Accepted,
        answer == PushAnswer::QueueFull ==> answer_outcome(answer) == Err::<(), ForwardError>(
            ForwardError::CompletionQueueFull,
        ),
        answer == PushAnswer::PublisherGone ==> answer_outcome(answer) == Err::<(), ForwardError>(
            ForwardError::PublisherUnavailable,
        ),
        answer == PushAnswer::Accepted ==> (history_after(history, target_index, answer) >> (target_index as u64))
            & 1 == 1,
        answer == PushAnswer::Accepted && other != target_index ==> (history_after(history, target_index, answer)
            >> (other as u64)) & 1 == (history >> (other as u64)) & 1,
        answer != PushAnswer::Accepted ==> history_after(history, target_index, answer) == history,
        request_entry(CompletionEntryTag::Forward, target_index, offset).tag == CompletionEntryTag::Forward,
        request_entry(CompletionEntryTag::Forward, target_index, offset).target_index == target_index,
        request_entry(CompletionEntryTag::Forward, target_index, offset).offset == offset,
        release_entry(offset).tag == CompletionEntryTag::Drop,
        release_entry(offset).offset == offset,
{
    let t = target_index as u64;
    let o = other as u64;
    assert(((history | (1u64 << t)) >> t) & 1 == 1) by (bit_vector)
        requires
            t < 64;
    assert(o != t ==> ((history | (1u64 << t)) >> o) & 1 == (history >> o) & 1) by (bit_vector)
        requires
            t < 64,
            o < 64;
}

/// How many of `entries` release the borrow, when `first_accepted` tells
/// whether the channel accepted the first of them: an accepted
/// `DropAndForward` releases, and so does every `Drop`.
pub open spec fn releases(entries: Seq<CompletionEntry>, first_accepted: bool) -> int
    decreases entries.len(),
{
    if entries.len() == 0 {
        0
    } else {
        let first = entries[0];
        let here: int = if first.tag == CompletionEntryTag::Drop || (first_accepted && first.tag
            == CompletionEntryTag::DropAndForward) {
            1
        } else {
            0
        };
        here + releases(entries.subrange(1, entries.len() as int), false)
    }
}

/// A fused request releases the borrow exactly once, whatever the channel
/// answers: by its accepted `DropAndForward` entry, or else by exactly one
/// plain `Drop`; and a refused request releases it by its one `Drop`.
pub proof fn lemma_released_exactly_once(target_index: u8, offset: u64, answer: PushAnswer)
    ensures
        releases(
            drop_and_forward_entries(
                request_entry(CompletionEntryTag::DropAndForward, target_index, offset),
                answer,
            ),
            answer == PushAnswer::Accepted,
        ) == 1,
        releases(seq![release_entry(offset)], false) == 1,
{
    let request = request_entry(CompletionEntryTag::DropAndForward, target_index, offset);
    let entries = drop_and_forward_entries(request, answer);
    let single = seq![release_entry(offset)];
    assert(releases(Seq::<CompletionEntry>::empty(), false) == 0);
    assert(single.subrange(1, 1) =~= Seq::<CompletionEntry>::empty());
    assert(releases(single, false) == 1);
    if answer == PushAnswer::Accepted {
        assert(entries.subrange(1, 1) =~= Seq::<CompletionEntry>::empty());
    } else {
        assert(entries.subrange(1, 2) =~= single);
    }
}

/// A sample a subscriber received: its payload and headers, where its bucket
/// lives, the targets its service may forward into, and the targets this
/// handle has already been forwarded to.
///
/// The borrow on the bucket is released only by [`Sample::release`] or
/// [`Sample::drop_and_forward_to`], each of which consumes the sample. The
/// type has no `Drop` impl: a sample that is simply dropped releases
/// nothing, so every sample must end in one of those two calls.
#[derive(Debug)]
pub struct Sample<Payload, UserHeader> {
    payload: Payload,
    user_header: UserHeader,
    header: Header,
    details: ChunkDetails,
    forwards_into: ForwardingTargets,
    forwarding_history: u64,
}

impl<Payload, UserHeader> Sample<Payload, UserHeader> {
    /// The payload.
    pub closed spec fn spec_payload(&self) -> Payload {
        self.payload
    }

    /// The user header.
    pub closed spec fn spec_user_header(&self) -> UserHeader {
        self.user_header
    }

    /// The header.
    pub closed spec fn spec_header(&self) -> Header {
        self.header
    }

    /// Where the bucket lives and who sent it.
    pub closed spec fn spec_details(&self) -> ChunkDetails {
        self.details
    }

    /// The targets the sample's service may forward into.
    pub closed spec fn spec_forwards_into(&self) -> Seq<Seq<char>> {
        self.forwards_into@
    }

    /// The bitmap of the targets this handle has been forwarded to.
    pub closed spec fn spec_history(&self) -> u64 {
        self.forwarding_history
    }

    /// A freshly received sample, forwarded to no target yet.
    pub fn new(
        payload: Payload,
        user_header: UserHeader,
        header: Header,
        details: ChunkDetails,
        forwards_into: ForwardingTargets,
    ) -> (sample: Self)
        ensures
            sample.spec_payload() == payload,
            sample.spec_user_header() == user_header,
            sample.spec_header() == header,
            sample.spec_details() == details,
            sample.spec_forwards_into() == forwards_into@,
            sample.spec_history() == 0,
            sample.spec_forwards_into().len() <= MAX_FORWARDING_TARGETS_PER_SERVICE,
            all_distinct(sample.spec_forwards_into()),
    {
        let declared = forwards_into.len();
        assert(declared <= MAX_FORWARDING_TARGETS_PER_SERVICE);
        Sample { payload, user_header, header, details, forwards_into, forwarding_history: 0 }
    }

    /// The payload.
    pub fn payload(&self) -> (payload: &Payload)
        ensures
            *payload == self.spec_payload(),
    {
        &self.payload
    }

    /// The user header.
    pub fn user_header(&self) -> (user_header: &UserHeader)
        ensures
            *user_header == self.spec_user_header(),
    {
        &self.user_header
    }

    /// The header.
    pub fn header(&self) -> (header: &Header)
        ensures
            *header == self.spec_header(),
    {
        &self.header
    }

    /// The publisher the sample came from.
    pub fn origin(&self) -> (origin: UniquePublisherId)
        ensures
            origin == (UniquePublisherId { value: self.spec_details().origin }),
    {
        UniquePublisherId { value: self.details.origin }
    }

    /// The bitmap of the targets this handle has been forwarded to.
    pub fn forwarding_history(&self) -> (history: u64)
        ensures
            history == self.spec_history(),
    {
        self.forwarding_history
    }

    /// The position of `target` in the declared `forwards_into` list.
    fn resolve_target_index(&self, target: &ServiceName) -> (index: Result<u8, ForwardError>)
        ensures
            !self.spec_forwards_into().contains(target@) ==> index == Err::<u8, ForwardError>(
                ForwardError::TargetNotDeclared,
            ),
            self.spec_forwards_into().contains(target@) ==> index == Ok::<u8, ForwardError>(
                target_index_of(self.spec_forwards_into(), target@) as u8,
            ),
            index is Ok ==> index->Ok_0 < MAX_FORWARDING_TARGETS_PER_SERVICE,
    {
        match self.forwards_into.position(target) {
            Some(i) => {
                proof { lemma_target_index_is_position(self.forwards_into@, i as int); }
                Ok(i as u8)
            },
            None => Err(ForwardError::TargetNotDeclared),
        }
    }

    /// The verdict on a request to `target`: the target index, or why it is
    /// refused.
    fn decide(&self, target: &ServiceName) -> (decision: Result<u8, ForwardError>)
        ensures
            decision == forward_decision(self.spec_forwards_into(), self.spec_history(), target@),
            decision is Ok ==> decision->Ok_0 < MAX_FORWARDING_TARGETS_PER_SERVICE,
    {
        let target_index = match self.resolve_target_index(target) {
            Ok(i) => i,
            Err(e) => return Err(e),
        };
        let mask = 1u64 << (target_index as u64);
        if self.forwarding_history & mask != 0 {
            return Err(ForwardError::AlreadyForwarded);
        }
        Ok(target_index)
    }

    /// The targets the sample's service may forward into.
    pub fn forwards_into(&self) -> (targets: &ForwardingTargets)
        ensures
            targets@ == self.spec_forwards_into(),
            targets@.len() <= MAX_FORWARDING_TARGETS_PER_SERVICE,
            all_distinct(targets@),
    {
        let declared = self.forwards_into.len();
        assert(declared <= MAX_FORWARDING_TARGETS_PER_SERVICE);
        &self.forwards_into
    }

    /// Forwards the sample onto `target` without releasing the borrow.
    ///
    /// `target` must be declared in `forwards_into` and this handle must not
    /// have been forwarded to it yet; otherwise nothing is handed to the
    /// channel and the error says which. Else exactly one `Forward` entry
    /// with the target's index and the bucket's offset is handed to the
    /// channel. If the channel accepts it, the target is recorded in the
    /// handle's history, so a further request to it is refused; if the queue
    /// is full the result is [`ForwardError::CompletionQueueFull`], if the
    /// publisher is gone it is [`ForwardError::PublisherUnavailable`], and in
    /// both cases the history is unchanged, so the request can be retried.
    pub fn forward_to<F: Fn(CompletionEntry) -> PushAnswer>(
        &mut self,
        target: &ServiceName,
        channel: &mut CompletionChannel<F>,
    ) -> (result: Result<(), ForwardError>)
        requires
            old(channel).accepts_any_entry(),
        ensures
            final(self).spec_payload() == old(self).spec_payload(),
            final(self).spec_user_header() == old(self).spec_user_header(),
            final(self).spec_header() == old(self).spec_header(),
            final(self).spec_details() == old(self).spec_details(),
            final(self).spec_forwards_into() == old(self).spec_forwards_into(),
            old(self).spec_forwards_into().len() <= MAX_FORWARDING_TARGETS_PER_SERVICE,
            all_distinct(old(self).spec_forwards_into()),
            final(channel).spec_deliver() == old(channel).spec_deliver(),
            match forward_decision(old(self).spec_forwards_into(), old(self).spec_history(), target@) {
                Err(e) => {
                    &&& result == Err::<(), ForwardError>(e)
                    &&& final(self).spec_history() == old(self).spec_history()
                    &&& final(channel).sent() == old(channel).sent()
                },
                Ok(index) => exists|answer: PushAnswer|
                    #![trigger old(channel).may_answer(request_entry(CompletionEntryTag::Forward, index, old(self).spec_details().offset), answer)]
                    {
                        &&& old(channel).may_answer(
                            request_entry(CompletionEntryTag::Forward, index, old(self).spec_details().offset),
                            answer,
                        )
                        &&& final(channel).sent() == old(channel).sent().push(
                            request_entry(CompletionEntryTag::Forward, index, old(self).spec_details().offset),
                        )
                        &&& result == answer_outcome(answer)
                        &&& final(self).spec_history() == history_after(old(self).spec_history(), index, answer)
                    },
            },
            result is Ok ==> forward_decision(final(self).spec_forwards_into(), final(self).spec_history(), target@)
                == Err::<u8, ForwardError>(ForwardError::AlreadyForwarded),
    {
        let declared = self.forwards_into.len();
        assert(declared <= MAX_FORWARDING_TARGETS_PER_SERVICE);
        let target_index = match self.decide(target) {
            Ok(i) => i,
            Err(e) => return Err(e),
        };
        let entry = CompletionEntry { tag: CompletionEntryTag::Forward, target_index, offset: self.details.offset };
        assert(entry == request_entry(CompletionEntryTag::Forward, target_index, self.details.offset));
        let answer = channel.push(entry);
        match answer {
            PushAnswer::Accepted => {},
            PushAnswer::QueueFull => {
                return Err(ForwardError::CompletionQueueFull);
            },
            PushAnswer::PublisherGone => {
                return Err(ForwardError::PublisherUnavailable);
            },
        }
        let ghost before = self.forwarding_history;
        let mask = 1u64 << (target_index as u64);
        self.forwarding_history = self.forwarding_history | mask;
        proof {
            lemma_forward_at_most_once(self.forwards_into@, before, target@, answer);
        }
        Ok(())
    }

    /// Releases the borrow on the bucket: hands one `Drop` entry for the
    /// bucket's offset to the channel and returns the channel's answer.
    pub fn release<F: Fn(CompletionEntry) -> PushAnswer>(self, channel: &mut CompletionChannel<F>) -> (answer:
        PushAnswer)
        requires
            old(channel).accepts_any_entry(),
        ensures
            final(channel).spec_deliver() == old(channel).spec_deliver(),
            final(channel).sent() == old(channel).sent().push(release_entry(self.spec_details().offset)),
            old(channel).may_answer(release_entry(self.spec_details().offset), answer),
    {
        channel.push(CompletionEntry { tag: CompletionEntryTag::Drop, target_index: 0, offset: self.details.offset })
    }

    /// Releases the borrow on the bucket and forwards it onto `target` in one
    /// entry. The sample is consumed whatever happens, and the borrow is
    /// released exactly once.
    ///
    /// When the request is refused (target not declared, or already
    /// forwarded), only one plain `Drop` entry is handed to the channel and
    /// the error says why. Otherwise one `DropAndForward` entry is handed to
    /// the channel; if the channel accepts it, that one entry is all the
    /// publisher sees. If not, the result is
    /// [`ForwardError::CompletionQueueFull`] or
    /// [`ForwardError::PublisherUnavailable`] and one plain `Drop` entry
    /// follows.
    pub fn drop_and_forward_to<F: Fn(CompletionEntry) -> PushAnswer>(
        self,
        target: &ServiceName,
        channel: &mut CompletionChannel<F>,
    ) -> (result: Result<(), ForwardError>)
        requires
            old(channel).accepts_any_entry(),
        ensures
            self.spec_forwards_into().len() <= MAX_FORWARDING_TARGETS_PER_SERVICE,
            all_distinct(self.spec_forwards_into()),
            final(channel).spec_deliver() == old(channel).spec_deliver(),
            match forward_decision(self.spec_forwards_into(), self.spec_history(), target@) {
                Err(e) => {
                    &&& result == Err::<(), ForwardError>(e)
                    &&& final(channel).sent() == old(channel).sent().push(release_entry(self.spec_details().offset))
                },
                Ok(index) => exists|answer: PushAnswer|
                    #![trigger old(channel).may_answer(request_entry(CompletionEntryTag::DropAndForward, index, self.spec_details().offset), answer)]
                    {
                        &&& old(channel).may_answer(
                            request_entry(CompletionEntryTag::DropAndForward, index, self.spec_details().offset),
                            answer,
                        )
                        &&& result == answer_outcome(answer)
                        &&& final(channel).sent() == old(channel).sent() + drop_and_forward_entries(
                            request_entry(CompletionEntryTag::DropAndForward, index, self.spec_details().offset),
                            answer,
                        )
                    },
            },
    {
        let declared = self.forwards_into.len();
        assert(declared <= MAX_FORWARDING_TARGETS_PER_SERVICE);
        let offset = self.details.offset;
        let release = CompletionEntry { tag: CompletionEntryTag::Drop, target_index: 0, offset };
        assert(release == release_entry(offset));
        let target_index = match self.decide(target) {
            Ok(i) => i,
            Err(e) => {
                let _ = channel.push(release);
                return Err(e);
            },
        };
        let entry = CompletionEntry { tag: CompletionEntryTag::DropAndForward, target_index, offset };
        assert(entry == request_entry(CompletionEntryTag::DropAndForward, target_index, offset));
        let ghost sent_before = channel.sent();
        let answer = channel.push(entry);
        match answer {
            PushAnswer::Accepted => {
                assert(channel.sent() =~= sent_before + drop_and_forward_entries(entry, answer));
                Ok(())
            },
            PushAnswer::QueueFull => {
                let _ = channel.push(release);
                assert(channel.sent() =~= sent_before + drop_and_forward_entries(entry, answer));
                Err(ForwardError::CompletionQueueFull)
            },
            PushAnswer::PublisherGone => {
                let _ = channel.push(release);
                assert(channel.sent() =~= sent_before + drop_and_forward_entries(entry, answer));
                Err(ForwardError::PublisherUnavailable)
            },
        }
    }
}

impl<Payload, UserHeader> core::ops::Deref for Sample<Payload, UserHeader> {
    type Target = Payload;

    fn deref(&self) -> (payload: &Payload)
        ensures
            *payload == self.spec_payload(),
    {
        &self.payload
    }
}

} // verus!
