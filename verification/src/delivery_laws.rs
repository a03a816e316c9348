//! What holds of every course that a delivery can take.

use vstd::prelude::*;

use crate::delivery::{
    attempt_instructions_spec, initial, run, step_spec, DeliveryEventView, DeliveryStateView,
    TxSendMethod,
};
use crate::instruction::{transfer_instruction, InstructionView};
use crate::failure::{is_ambiguous, FailureView};

verus! {

/// The event ends an attempt on `path` in `state`.
pub open spec fn ends_attempt(
    path: TxSendMethod,
    state: DeliveryStateView,
    event: DeliveryEventView,
) -> bool {
    state matches DeliveryStateView::Attempting { path: p, .. } && p == path && !(event is Resumed)
}

/// How many attempts on `path` the events end, taken in order from `state`.
pub open spec fn attempts_on(
    path: TxSendMethod,
    budget: u8,
    state: DeliveryStateView,
    events: Seq<DeliveryEventView>,
) -> nat
    decreases events.len(),
{
    if events.len() == 0 {
        0
    } else {
        let rest = attempts_on(
            path,
            budget,
            step_spec(budget, state, events[0]),
            events.drop_first(),
        );
        if ends_attempt(path, state, events[0]) {
            rest + 1
        } else {
            rest
        }
    }
}

/// How often the events, taken in order from `state`, make the delivery escalate.
pub open spec fn escalations(
    budget: u8,
    state: DeliveryStateView,
    events: Seq<DeliveryEventView>,
) -> nat
    decreases events.len(),
{
    if events.len() == 0 {
        0
    } else {
        let next = step_spec(budget, state, events[0]);
        let rest = escalations(budget, next, events.drop_first());
        if !(state is Escalating) && next is Escalating {
            rest + 1
        } else {
            rest
        }
    }
}

/// Direct attempts that a well-formed state still allows.
pub open spec fn direct_left(budget: u8, state: DeliveryStateView) -> nat {
    match state {
        DeliveryStateView::Attempting { path: TxSendMethod::RPC, attempt } => (budget - attempt
            + 1) as nat,
        DeliveryStateView::Attempting { path: TxSendMethod::JITO, attempt } => budget as nat,
        DeliveryStateView::Waiting { next } => (budget - next + 1) as nat,
        DeliveryStateView::Escalating => budget as nat,
        DeliveryStateView::Terminal { outcome } => 0,
    }
}

/// Relay attempts that a well-formed state still allows.
pub open spec fn relay_left(budget: u8, state: DeliveryStateView) -> nat {
    match state {
        DeliveryStateView::Attempting { path: TxSendMethod::JITO, attempt } => (budget - attempt
            + 1) as nat,
        _ => 0,
    }
}

/// Escalations that a state still allows.
pub open spec fn escalations_left(state: DeliveryStateView) -> nat {
    match state {
        DeliveryStateView::Attempting { path: TxSendMethod::JITO, attempt } => 1,
        _ => 0,
    }
}

/// A step keeps a state well formed: no attempt number ever leaves the budget.
pub proof fn lemma_step_keeps_wf(budget: u8, state: DeliveryStateView, event: DeliveryEventView)
    requires
        budget >= 1,
        state.wf(budget),
    ensures
        step_spec(budget, state, event).wf(budget),
{
}

/// Every state that a delivery reaches is well formed.
pub proof fn lemma_run_keeps_wf(
    budget: u8,
    state: DeliveryStateView,
    events: Seq<DeliveryEventView>,
)
    requires
        budget >= 1,
        state.wf(budget),
    ensures
        run(budget, state, events).wf(budget),
    decreases events.len(),
{
    if events.len() > 0 {
        lemma_step_keeps_wf(budget, state, events[0]);
        lemma_run_keeps_wf(budget, step_spec(budget, state, events[0]), events.drop_first());
    }
}

/// From a well-formed state, whatever happens, neither transport makes more attempts
/// than the state still allows, and the delivery escalates no more often than the state
/// still allows.
pub proof fn lemma_attempts_bounded(
    budget: u8,
    state: DeliveryStateView,
    events: Seq<DeliveryEventView>,
)
    requires
        budget >= 1,
        state.wf(budget),
    ensures
        attempts_on(TxSendMethod::RPC, budget, state, events) <= direct_left(budget, state),
        attempts_on(TxSendMethod::JITO, budget, state, events) <= relay_left(budget, state),
        escalations(budget, state, events) <= escalations_left(state),
    decreases events.len(),
{
    if events.len() > 0 {
        let next = step_spec(budget, state, events[0]);
        lemma_step_keeps_wf(budget, state, events[0]);
        lemma_attempts_bounded(budget, next, events.drop_first());
    }
}

/// The retry ceiling. Whatever happens, a delivery makes at most `budget` attempts on
/// direct broadcast and at most `budget` on the relay, and it escalates at most once.
/// A delivery that starts on direct broadcast never uses the relay and never escalates.
pub proof fn lemma_retry_ceiling(
    budget: u8,
    method: TxSendMethod,
    events: Seq<DeliveryEventView>,
)
    requires
        budget >= 1,
    ensures
        attempts_on(TxSendMethod::RPC, budget, initial(method), events) <= budget,
        attempts_on(TxSendMethod::JITO, budget, initial(method), events) <= budget,
        escalations(budget, initial(method), events) <= 1,
        method == TxSendMethod::RPC ==> attempts_on(
            TxSendMethod::JITO,
            budget,
            initial(method),
            events,
        ) == 0 && escalations(budget, initial(method), events) == 0,
{
    lemma_attempts_bounded(budget, initial(method), events);
}

/// A delivery that is over stays as it is, and no further attempt is made.
pub proof fn lemma_terminal_absorbs(
    budget: u8,
    state: DeliveryStateView,
    events: Seq<DeliveryEventView>,
)
    requires
        state.is_terminal(),
    ensures
        run(budget, state, events) == state,
        attempts_on(TxSendMethod::RPC, budget, state, events) == 0,
        attempts_on(TxSendMethod::JITO, budget, state, events) == 0,
        escalations(budget, state, events) == 0,
    decreases events.len(),
{
    if events.len() > 0 {
        lemma_terminal_absorbs(budget, state, events.drop_first());
    }
}

/// The fatal short circuit. A direct attempt that fails with a message that does not
/// report an ambiguous outcome ends the delivery at once, whatever is left of the
/// budget: whatever is reported afterwards, the outcome stands and no attempt follows.
pub proof fn lemma_fatal_short_circuit(
    budget: u8,
    attempt: u8,
    message: Seq<char>,
    later: Seq<DeliveryEventView>,
)
    requires
        !is_ambiguous(message),
    ensures
        ({
            let state = DeliveryStateView::Attempting { path: TxSendMethod::RPC, attempt };
            let ended = step_spec(budget, state, DeliveryEventView::Failed(message));
            &&& ended == DeliveryStateView::Terminal {
                outcome: Err(
                    FailureView::Fatal(
                        "Transaction failed due to a non-retryable error: "@ + message,
                    ),
                ),
            }
            &&& run(budget, ended, later) == ended
            &&& attempts_on(TxSendMethod::RPC, budget, ended, later) == 0
            &&& attempts_on(TxSendMethod::JITO, budget, ended, later) == 0
        }),
{
    let state = DeliveryStateView::Attempting { path: TxSendMethod::RPC, attempt };
    let ended = step_spec(budget, state, DeliveryEventView::Failed(message));
    lemma_terminal_absorbs(budget, ended, later);
}

/// The relay escalates exactly when its budget is spent: a failure of relay attempt
/// `attempt` leads to the escalation if `attempt` is the last that the budget allows,
/// and to the next relay attempt otherwise.
pub proof fn lemma_relay_failure(budget: u8, attempt: u8, message: Seq<char>)
    requires
        1 <= attempt <= budget,
    ensures
        ({
            let state = DeliveryStateView::Attempting { path: TxSendMethod::JITO, attempt };
            let next = step_spec(budget, state, DeliveryEventView::Failed(message));
            &&& attempt == budget ==> next == DeliveryStateView::Escalating
            &&& attempt < budget ==> next == DeliveryStateView::Attempting {
                path: TxSendMethod::JITO,
                attempt: (attempt + 1) as u8,
            }
        }),
{
}

/// Every attempt carries the caller's instructions as they were handed in: direct
/// broadcast sends them alone, the relay sends them after the one instruction that
/// pays the tip.
pub proof fn lemma_instructions_are_kept(
    tip_address: Seq<u8>,
    tip_amount: u64,
    fee_payer: Seq<u8>,
    instructions: Seq<InstructionView>,
)
    ensures
        attempt_instructions_spec(
            tip_address,
            tip_amount,
            fee_payer,
            TxSendMethod::RPC,
            instructions,
        ) == instructions,
        ({
            let tipped = attempt_instructions_spec(
                tip_address,
                tip_amount,
                fee_payer,
                TxSendMethod::JITO,
                instructions,
            );
            &&& tipped.len() == instructions.len() + 1
            &&& tipped[0] == transfer_instruction(fee_payer, tip_address, tip_amount)
            &&& tipped.subrange(1, tipped.len() as int) == instructions
        }),
{
    let tipped = attempt_instructions_spec(
        tip_address,
        tip_amount,
        fee_payer,
        TxSendMethod::JITO,
        instructions,
    );
    assert(tipped.subrange(1, tipped.len() as int) =~= instructions);
}

/// The event is an answer to what the state asks the caller to do: the end of an
/// attempt while one is to be made, and `Resumed` after a backoff or an escalation.
pub open spec fn answers(state: DeliveryStateView, event: DeliveryEventView) -> bool {
    match state {
        DeliveryStateView::Attempting { path, attempt } => !(event is Resumed),
        DeliveryStateView::Waiting { next } => event is Resumed,
        DeliveryStateView::Escalating => event is Resumed,
        DeliveryStateView::Terminal { outcome } => true,
    }
}

/// Every event, taken in order from `state`, answers the state that it meets.
pub open spec fn responsive(
    budget: u8,
    state: DeliveryStateView,
    events: Seq<DeliveryEventView>,
) -> bool
    decreases events.len(),
{
    events.len() == 0 || (answers(state, events[0]) && responsive(
        budget,
        step_spec(budget, state, events[0]),
        events.drop_first(),
    ))
}

/// Answers that a well-formed state can take at most before the delivery is over.
pub open spec fn steps_left(budget: u8, state: DeliveryStateView) -> nat {
    match state {
        DeliveryStateView::Attempting { path: TxSendMethod::RPC, attempt } => (2 * (budget
            - attempt) + 1) as nat,
        DeliveryStateView::Attempting { path: TxSendMethod::JITO, attempt } => (3 * budget
            - attempt + 1) as nat,
        DeliveryStateView::Waiting { next } => (2 * (budget - next) + 2) as nat,
        DeliveryStateView::Escalating => (2 * budget) as nat,
        DeliveryStateView::Terminal { outcome } => 0,
    }
}

/// A delivery whose caller answers ends: once a well-formed state has been given as
/// many answers as it can take, the delivery is over.
pub proof fn lemma_delivery_ends_from(
    budget: u8,
    state: DeliveryStateView,
    events: Seq<DeliveryEventView>,
)
    requires
        budget >= 1,
        state.wf(budget),
        responsive(budget, state, events),
        events.len() >= steps_left(budget, state),
    ensures
        run(budget, state, events).is_terminal(),
    decreases events.len(),
{
    if state.is_terminal() {
        lemma_terminal_absorbs(budget, state, events);
    } else {
        let next = step_spec(budget, state, events[0]);
        lemma_step_keeps_wf(budget, state, events[0]);
        lemma_delivery_ends_from(budget, next, events.drop_first());
    }
}

/// Delivery is bounded. A delivery whose caller answers is over after at most three
/// answers for each attempt that one transport may make: after at most twice the budget
/// when it starts on direct broadcast.
pub proof fn lemma_delivery_ends(
    budget: u8,
    method: TxSendMethod,
    events: Seq<DeliveryEventView>,
)
    requires
        budget >= 1,
        responsive(budget, initial(method), events),
        events.len() >= 3 * budget || (method == TxSendMethod::RPC && events.len() >= 2 * budget),
    ensures
        run(budget, initial(method), events).is_terminal(),
{
    lemma_delivery_ends_from(budget, initial(method), events);
}

/// Every event of `events` reports a failed attempt.
pub open spec fn all_failed(events: Seq<DeliveryEventView>) -> bool {
    forall|i: int| 0 <= i < events.len() ==> #[trigger] events[i] is Failed
}

/// Failures of all the relay attempts that are left lead to the escalation.
proof fn lemma_relay_exhaustion_from(
    budget: u8,
    attempt: u8,
    failures: Seq<DeliveryEventView>,
)
    requires
        1 <= attempt <= budget,
        all_failed(failures),
        failures.len() == budget - attempt + 1,
    ensures
        ({
            let state = DeliveryStateView::Attempting { path: TxSendMethod::JITO, attempt };
            &&& run(budget, state, failures) == DeliveryStateView::Escalating
            &&& attempts_on(TxSendMethod::JITO, budget, state, failures) == failures.len()
            &&& attempts_on(TxSendMethod::RPC, budget, state, failures) == 0
            &&& escalations(budget, state, failures) == 1
        }),
    decreases failures.len(),
{
    let state = DeliveryStateView::Attempting { path: TxSendMethod::JITO, attempt };
    assert(failures[0] is Failed);
    let next = step_spec(budget, state, failures[0]);
    let rest = failures.drop_first();
    assert(all_failed(rest)) by {
        assert forall|i: int| 0 <= i < rest.len() implies #[trigger] rest[i] is Failed by {
            assert(rest[i] == failures[i + 1]);
        }
    }
    if attempt < budget {
        lemma_relay_exhaustion_from(budget, (attempt + 1) as u8, rest);
    } else {
        assert(rest.len() == 0);
        assert(run(budget, next, rest) == next);
        assert(attempts_on(TxSendMethod::JITO, budget, next, rest) == 0);
        assert(attempts_on(TxSendMethod::RPC, budget, next, rest) == 0);
        assert(escalations(budget, next, rest) == 0);
    }
}

/// The events of `first`, then those of `second`, lead where `second` leads from the
/// state that `first` leads to.
pub proof fn lemma_run_concat(
    budget: u8,
    state: DeliveryStateView,
    first: Seq<DeliveryEventView>,
    second: Seq<DeliveryEventView>,
)
    ensures
        run(budget, state, first + second) == run(budget, run(budget, state, first), second),
    decreases first.len(),
{
    if first.len() == 0 {
        assert(first + second =~= second);
    } else {
        assert((first + second)[0] == first[0]);
        assert((first + second).drop_first() =~= first.drop_first() + second);
        lemma_run_concat(
            budget,
            step_spec(budget, state, first[0]),
            first.drop_first(),
            second,
        );
    }
}

/// Escalation hands the delivery to direct broadcast with a budget of its own. When
/// every relay attempt that the budget allows has failed, the relay has made exactly
/// that many attempts, direct broadcast none, and the delivery has escalated once; when
/// the escalation has been taken note of, the delivery goes on exactly as one that
/// started on direct broadcast.
pub proof fn lemma_exhausted_relay_falls_back(
    budget: u8,
    failures: Seq<DeliveryEventView>,
    later: Seq<DeliveryEventView>,
)
    requires
        budget >= 1,
        all_failed(failures),
        failures.len() == budget,
    ensures
        run(budget, initial(TxSendMethod::JITO), failures) == DeliveryStateView::Escalating,
        attempts_on(TxSendMethod::JITO, budget, initial(TxSendMethod::JITO), failures) == budget,
        attempts_on(TxSendMethod::RPC, budget, initial(TxSendMethod::JITO), failures) == 0,
        escalations(budget, initial(TxSendMethod::JITO), failures) == 1,
        run(
            budget,
            initial(TxSendMethod::JITO),
            failures + seq![DeliveryEventView::Resumed] + later,
        ) == run(budget, initial(TxSendMethod::RPC), later),
{
    lemma_relay_exhaustion_from(budget, 1, failures);
    let resumed = seq![DeliveryEventView::Resumed];
    lemma_run_concat(budget, initial(TxSendMethod::JITO), failures + resumed, later);
    lemma_run_concat(budget, initial(TxSendMethod::JITO), failures, resumed);
    assert(resumed.drop_first() =~= Seq::<DeliveryEventView>::empty());
    assert(run(budget, DeliveryStateView::Escalating, resumed) == run(
        budget,
        initial(TxSendMethod::RPC),
        resumed.drop_first(),
    ));
}

} // verus!
