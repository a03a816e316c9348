//! One submission of an intent: the request, built once, and the delivery that carries it.

use vstd::prelude::*;

use crate::delivery::{
    initial, run, step, step_spec, submit, DeliveryConfig, DeliveryEvent, DeliveryEventView,
    DeliveryState, DeliveryStateView, Signature, TxSendMethod,
};
use crate::intent::{built, IntentPayloadView, IntentRequest, IntentRequestView};

verus! {

/// A submission under way. The request is fixed when the submission begins; only the
/// delivery moves.
#[derive(Debug, PartialEq, Eq)]
pub struct Submission {
    pub request: IntentRequest,
    pub delivery: DeliveryState,
}

/// What a [`Submission`] stands for.
pub struct SubmissionView {
    pub request: IntentRequestView,
    pub delivery: DeliveryStateView,
}

impl View for Submission {
    type V = SubmissionView;

    open spec fn view(&self) -> SubmissionView {
        SubmissionView { request: self.request@, delivery: self.delivery@ }
    }
}

/// The submission after `event`.
pub open spec fn advance_spec(
    budget: u8,
    submission: SubmissionView,
    event: DeliveryEventView,
) -> SubmissionView {
    SubmissionView {
        request: submission.request,
        delivery: step_spec(budget, submission.delivery, event),
    }
}

/// The submission that `events`, taken in order, lead to.
pub open spec fn course(
    budget: u8,
    submission: SubmissionView,
    events: Seq<DeliveryEventView>,
) -> SubmissionView
    decreases events.len(),
{
    if events.len() == 0 {
        submission
    } else {
        course(budget, advance_spec(budget, submission, events[0]), events.drop_first())
    }
}

/// What a submission has come to: nothing while it is under way, then the transaction
/// identifier or the message of the failure.
pub open spec fn outcome_spec(delivery: DeliveryStateView) -> Option<Result<Signature, Seq<char>>> {
    match delivery {
        DeliveryStateView::Terminal { outcome: Ok(signature) } => Some(Ok(signature)),
        DeliveryStateView::Terminal { outcome: Err(failure) } => Some(Err(failure.message())),
        _ => None,
    }
}

impl Submission {
    /// Begins the submission of a request on the transport that the caller prefers.
    pub fn begin(request: IntentRequest, tx_send_method: TxSendMethod) -> (r: Submission)
        ensures
            r@ == (SubmissionView { request: request@, delivery: initial(tx_send_method) }),
    {
        Submission { request, delivery: submit(tx_send_method) }
    }

    /// Takes the submission one step further. The request stays as it was built.
    pub fn advance(self, config: &DeliveryConfig, event: DeliveryEvent) -> (next: Submission)
        ensures
            next@ == advance_spec(config.retry_budget, self@, event@),
    {
        Submission { request: self.request, delivery: step(config, self.delivery, event) }
    }

    /// What the submission has come to.
    pub fn outcome(&self) -> (r: Option<Result<Signature, String>>)
        ensures
            match r {
                Some(Ok(signature)) => outcome_spec(self@.delivery) == Some(
                    Ok::<Signature, Seq<char>>(signature),
                ),
                Some(Err(message)) => outcome_spec(self@.delivery) == Some(
                    Err::<Signature, Seq<char>>(message@),
                ),
                None => outcome_spec(self@.delivery).is_none(),
            },
    {
        match &self.delivery {
            DeliveryState::Terminal { outcome: Ok(signature) } => Some(Ok(*signature)),
            DeliveryState::Terminal { outcome: Err(failure) } => Some(Err(failure.describe())),
            _ => None,
        }
    }
}

/// Building is repeatable. Two records that the builder makes of the same inputs at
/// the same time are the same record, field by field.
pub proof fn lemma_payload_is_idempotent(
    intent_id: Seq<char>,
    user_in: Seq<u8>,
    user_out: Seq<char>,
    token_in: Seq<u8>,
    amount_in: u64,
    token_out: Seq<char>,
    amount_out: Seq<char>,
    timeout_duration: u64,
    single_domain: bool,
    now: u64,
    first: IntentPayloadView,
    second: IntentPayloadView,
)
    requires
        first == built(
            intent_id,
            user_in,
            user_out,
            token_in,
            amount_in,
            token_out,
            amount_out,
            timeout_duration,
            single_domain,
            now,
        ),
        second == built(
            intent_id,
            user_in,
            user_out,
            token_in,
            amount_in,
            token_out,
            amount_out,
            timeout_duration,
            single_domain,
            now,
        ),
    ensures
        first == second,
{
}

/// The deadline is stable. Whatever happens during a submission, and however many
/// attempts it takes, the request is the one that the submission began with: the
/// deadline in its record is the one fixed when the record was built.
pub proof fn lemma_deadline_is_stable(
    budget: u8,
    submission: SubmissionView,
    events: Seq<DeliveryEventView>,
)
    ensures
        course(budget, submission, events).request == submission.request,
        course(budget, submission, events).request.payload.timeout_timestamp_in_sec
            == submission.request.payload.timeout_timestamp_in_sec,
        course(budget, submission, events).delivery == run(budget, submission.delivery, events),
    decreases events.len(),
{
    if events.len() > 0 {
        lemma_deadline_is_stable(
            budget,
            advance_spec(budget, submission, events[0]),
            events.drop_first(),
        );
    }
}

} // verus!
