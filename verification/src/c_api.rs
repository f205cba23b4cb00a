//! The result codes and error strings of the C binding of sample
//! forwarding, and the calls of that binding on a sample.
use vstd::prelude::*;
use crate::completion_channel::{CompletionChannel, PushAnswer};
use crate::completion_entry::{CompletionEntry, CompletionEntryTag};
use crate::sample::{
    ForwardError, Header, Sample, answer_outcome, drop_and_forward_entries, forward_decision,
    history_after, release_entry, request_entry,
};
use crate::static_config::{MAX_FORWARDING_TARGETS_PER_SERVICE, all_distinct};
use crate::service_name::ServiceName;

verus! {

/// The result code of a call that succeeded.
pub const IOX2_OK: i32 = 0;

/// The C mirror of [`ForwardError`].
#[derive(Debug, Clone, Copy, PartialEq, Eq, Structural, Hash)]
pub enum iox2_forward_error_e {
    /// The named target service is not in the source service's
    /// `forwards_into` list.
    TARGET_NOT_DECLARED,
    /// The sample has already been forwarded to that target.
    ALREADY_FORWARDED,
    /// The publisher's completion queue is full; retry later.
    COMPLETION_QUEUE_FULL,
    /// The connection back to the publisher is no longer valid.
    PUBLISHER_UNAVAILABLE,
}

/// The C error that mirrors `error`.
pub open spec fn spec_c_error(error: ForwardError) -> iox2_forward_error_e {
    match error {
        ForwardError::TargetNotDeclared => iox2_forward_error_e::TARGET_NOT_DECLARED,
        ForwardError::AlreadyForwarded => iox2_forward_error_e::ALREADY_FORWARDED,
        ForwardError::CompletionQueueFull => iox2_forward_error_e::COMPLETION_QUEUE_FULL,
        ForwardError::PublisherUnavailable => iox2_forward_error_e::PUBLISHER_UNAVAILABLE,
    }
}

/// The integer a C caller sees for `error`: the codes follow [`IOX2_OK`] in
/// the order of the variants.
pub open spec fn spec_error_code(error: iox2_forward_error_e) -> int {
    match error {
        iox2_forward_error_e::TARGET_NOT_DECLARED => IOX2_OK + 1,
        iox2_forward_error_e::ALREADY_FORWARDED => IOX2_OK + 2,
        iox2_forward_error_e::COMPLETION_QUEUE_FULL => IOX2_OK + 3,
        iox2_forward_error_e::PUBLISHER_UNAVAILABLE => IOX2_OK + 4,
    }
}

/// The result code of a forwarding call that returned `result`.
pub open spec fn spec_result_code(result: Result<(), ForwardError>) -> int {
    match result {
        Ok(()) => IOX2_OK as int,
        Err(e) => spec_error_code(spec_c_error(e)),
    }
}

/// The text of each C error.
pub open spec fn spec_error_string(error: iox2_forward_error_e) -> Seq<char> {
    match error {
        iox2_forward_error_e::TARGET_NOT_DECLARED => "target not declared"@,
        iox2_forward_error_e::ALREADY_FORWARDED => "already forwarded"@,
        iox2_forward_error_e::COMPLETION_QUEUE_FULL => "completion queue full"@,
        iox2_forward_error_e::PUBLISHER_UNAVAILABLE => "publisher unavailable"@,
    }
}

impl From<ForwardError> for iox2_forward_error_e {
    fn from(value: ForwardError) -> (error: Self) {
        match value {
            ForwardError::TargetNotDeclared => iox2_forward_error_e::TARGET_NOT_DECLARED,
            ForwardError::AlreadyForwarded => iox2_forward_error_e::ALREADY_FORWARDED,
            ForwardError::CompletionQueueFull => iox2_forward_error_e::COMPLETION_QUEUE_FULL,
            ForwardError::PublisherUnavailable => iox2_forward_error_e::PUBLISHER_UNAVAILABLE,
        }
    }
}

impl vstd::std_specs::convert::FromSpecImpl<ForwardError> for iox2_forward_error_e {
    open spec fn obeys_from_spec() -> bool {
        true
    }

    open spec fn from_spec(v: ForwardError) -> iox2_forward_error_e {
        spec_c_error(v)
    }
}

impl iox2_forward_error_e {
    /// The integer a C caller sees for this error.
    pub fn code(self) -> (code: i32)
        ensures
            code == spec_error_code(self),
    {
        match self {
            iox2_forward_error_e::TARGET_NOT_DECLARED => IOX2_OK + 1,
            iox2_forward_error_e::ALREADY_FORWARDED => IOX2_OK + 2,
            iox2_forward_error_e::COMPLETION_QUEUE_FULL => IOX2_OK + 3,
            iox2_forward_error_e::PUBLISHER_UNAVAILABLE => IOX2_OK + 4,
        }
    }
}

/// The text of a C error.
pub fn iox2_forward_error_string(value: iox2_forward_error_e) -> (text: &'static str)
    ensures
        text@ == spec_error_string(value),
{
    match value {
        iox2_forward_error_e::TARGET_NOT_DECLARED => "target not declared",
        iox2_forward_error_e::ALREADY_FORWARDED => "already forwarded",
        iox2_forward_error_e::COMPLETION_QUEUE_FULL => "completion queue full",
        iox2_forward_error_e::PUBLISHER_UNAVAILABLE => "publisher unavailable",
    }
}

/// The result code of a forwarding call that returned `result`.
pub fn result_code(result: Result<(), ForwardError>) -> (code: i32)
    ensures
        code == spec_result_code(result),
{
    match result {
        Ok(()) => IOX2_OK,
        Err(e) => iox2_forward_error_e::from(e).code(),
    }
}

/// The header of the sample.
pub fn iox2_sample_header<Payload, UserHeader>(sample: &Sample<Payload, UserHeader>) -> (header: Header)
    ensures
        header == sample.spec_header(),
{
    *sample.header()
}

/// The user header of the sample.
pub fn iox2_sample_user_header<Payload, UserHeader>(sample: &Sample<Payload, UserHeader>) -> (user_header:
    &UserHeader)
    ensures
        *user_header == sample.spec_user_header(),
{
    sample.user_header()
}

/// The payload of the sample and the number of its elements.
pub fn iox2_sample_payload<Payload, UserHeader>(sample: &Sample<Payload, UserHeader>) -> (payload: (
    &Payload,
    u64,
))
    ensures
        *payload.0 == sample.spec_payload(),
        payload.1 == sample.spec_header().number_of_elements,
{
    (sample.payload(), sample.header().number_of_elements)
}

/// Forwards the sample onto `target` without consuming it, and returns the
/// result code of [`Sample::forward_to`].
pub fn iox2_sample_forward_to<Payload, UserHeader, F: Fn(CompletionEntry) -> PushAnswer>(
    sample: &mut Sample<Payload, UserHeader>,
    target: &ServiceName,
    channel: &mut CompletionChannel<F>,
) -> (code: i32)
    requires
        old(channel).accepts_any_entry(),
    ensures
        final(sample).spec_payload() == old(sample).spec_payload(),
        final(sample).spec_user_header() == old(sample).spec_user_header(),
        final(sample).spec_header() == old(sample).spec_header(),
        final(sample).spec_details() == old(sample).spec_details(),
        final(sample).spec_forwards_into() == old(sample).spec_forwards_into(),
        old(sample).spec_forwards_into().len() <= MAX_FORWARDING_TARGETS_PER_SERVICE,
        all_distinct(old(sample).spec_forwards_into()),
        final(channel).spec_deliver() == old(channel).spec_deliver(),
        match forward_decision(old(sample).spec_forwards_into(), old(sample).spec_history(), target@) {
            Err(e) => {
                &&& code == spec_error_code(spec_c_error(e))
                &&& final(sample).spec_history() == old(sample).spec_history()
                &&& final(channel).sent() == old(channel).sent()
            },
            Ok(index) => exists|answer: PushAnswer|
                #![trigger old(channel).may_answer(request_entry(CompletionEntryTag::Forward, index, old(sample).spec_details().offset), answer)]
                {
                    &&& old(channel).may_answer(
                        request_entry(CompletionEntryTag::Forward, index, old(sample).spec_details().offset),
                        answer,
                    )
                    &&& final(channel).sent() == old(channel).sent().push(
                        request_entry(CompletionEntryTag::Forward, index, old(sample).spec_details().offset),
                    )
                    &&& code == spec_result_code(answer_outcome(answer))
                    &&& final(sample).spec_history() == history_after(old(sample).spec_history(), index, answer)
                },
        },
        code == IOX2_OK ==> forward_decision(final(sample).spec_forwards_into(), final(sample).spec_history(), target@)
            == Err::<u8, ForwardError>(ForwardError::AlreadyForwarded),
{
    let result = sample.forward_to(target, channel);
    result_code(result)
}

/// Consumes the sample, releasing its borrow and forwarding it onto
/// `target`, and returns the result code of
/// [`Sample::drop_and_forward_to`].
pub fn iox2_sample_drop_and_forward_to<Payload, UserHeader, F: Fn(CompletionEntry) -> PushAnswer>(
    sample: Sample<Payload, UserHeader>,
    target: &ServiceName,
    channel: &mut CompletionChannel<F>,
) -> (code: i32)
    requires
        old(channel).accepts_any_entry(),
    ensures
        sample.spec_forwards_into().len() <= MAX_FORWARDING_TARGETS_PER_SERVICE,
        all_distinct(sample.spec_forwards_into()),
        final(channel).spec_deliver() == old(channel).spec_deliver(),
        match forward_decision(sample.spec_forwards_into(), sample.spec_history(), target@) {
            Err(e) => {
                &&& code == spec_error_code(spec_c_error(e))
                &&& final(channel).sent() == old(channel).sent().push(release_entry(sample.spec_details().offset))
            },
            Ok(index) => exists|answer: PushAnswer|
                #![trigger old(channel).may_answer(request_entry(CompletionEntryTag::DropAndForward, index, sample.spec_details().offset), answer)]
                {
                    &&& old(channel).may_answer(
                        request_entry(CompletionEntryTag::DropAndForward, index, sample.spec_details().offset),
                        answer,
                    )
                    &&& code == spec_result_code(answer_outcome(answer))
                    &&& final(channel).sent() == old(channel).sent() + drop_and_forward_entries(
                        request_entry(CompletionEntryTag::DropAndForward, index, sample.spec_details().offset),
                        answer,
                    )
                },
        },
{
    let result = sample.drop_and_forward_to(target, channel);
    result_code(result)
}

/// Consumes the sample and releases its borrow with one `Drop` entry.
pub fn iox2_sample_drop<Payload, UserHeader, F: Fn(CompletionEntry) -> PushAnswer>(
    sample: Sample<Payload, UserHeader>,
    channel: &mut CompletionChannel<F>,
)
    requires
        old(channel).accepts_any_entry(),
    ensures
        final(channel).spec_deliver() == old(channel).spec_deliver(),
        final(channel).sent() == old(channel).sent().push(release_entry(sample.spec_details().offset)),
{
    let _ = sample.release(channel);
}

} // verus!
