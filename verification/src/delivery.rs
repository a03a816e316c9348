//! Delivery of one transaction: two transports, a bounded number of attempts on each,
//! and one escalation from the relay to direct broadcast.
//!
//! The caller performs what a state asks for (see [`DeliveryState::action`]) and hands
//! what happened to [`step`]. No state is kept beyond the value that `step` returns.

use vstd::prelude::*;

use crate::address::Address;
use crate::failure::{is_ambiguous, prefixed, reports_ambiguity, Failure, FailureView};
use crate::instruction::{
    copy_instructions, system_transfer, transfer_instruction, views, Instruction, InstructionView,
};

verus! {

/// Attempts that each transport may make.
pub const RETRIES: u8 = 5;

/// Units of the native coin that a relayed transaction pays the relay.
pub const JITO_TIP_AMOUNT: u64 = 10000;

/// Seconds to wait after an ambiguous broadcast before the next one.
pub const BACKOFF_SECS: u64 = 1;

/// The relay's endpoint.
pub const JITO_BLOCK_ENGINE_URL: &'static str = "https://mainnet.block-engine.jito.wtf";

/// Bytes of the address that the relay's tip is paid to.
pub open spec fn jito_address_bytes() -> Seq<u8> {
    seq![
        120u8, 82u8, 28u8, 177u8, 121u8, 206u8, 187u8, 133u8, 137u8, 181u8, 86u8, 162u8, 213u8,
        236u8, 148u8, 210u8, 73u8, 134u8, 130u8, 253u8, 249u8, 187u8, 42u8, 245u8, 173u8, 100u8,
        228u8, 145u8, 204u8, 65u8, 83u8, 218u8,
    ]
}

/// The address that the relay's tip is paid to.
pub fn jito_address() -> (r: Address)
    ensures
        r@ == jito_address_bytes(),
{
    let r = Address {
        bytes: [
            120, 82, 28, 177, 121, 206, 187, 133, 137, 181, 86, 162, 213, 236, 148, 210, 73, 134,
            130, 253, 249, 187, 42, 245, 173, 100, 228, 145, 204, 65, 83, 218,
        ],
    };
    assert(r@ =~= jito_address_bytes());
    r
}

/// The transport that a caller prefers: the relay (`JITO`), which is the default, or
/// direct broadcast (`RPC`).
#[derive(Debug, Clone, Copy, PartialEq, Eq, Structural)]
pub enum TxSendMethod {
    JITO,
    RPC,
}

impl Default for TxSendMethod {
    fn default() -> (r: TxSendMethod)
        ensures
            r == TxSendMethod::JITO,
    {
        TxSendMethod::JITO
    }
}

/// The transport that a text names, if it names one.
pub open spec fn method_named(text: Seq<char>) -> Option<TxSendMethod> {
    if text == "jito"@ {
        Some(TxSendMethod::JITO)
    } else if text == "rpc"@ {
        Some(TxSendMethod::RPC)
    } else {
        None
    }
}

impl TxSendMethod {
    /// The name of the transport.
    pub open spec fn name_spec(self) -> Seq<char> {
        match self {
            TxSendMethod::JITO => "jito"@,
            TxSendMethod::RPC => "rpc"@,
        }
    }

    /// The name of the transport, as it is written on a command line.
    pub fn name(&self) -> (r: &'static str)
        ensures
            r@ == self.name_spec(),
    {
        match self {
            TxSendMethod::JITO => "jito",
            TxSendMethod::RPC => "rpc",
        }
    }

    /// Reads the name of a transport.
    pub fn parse(text: &str) -> (r: Option<TxSendMethod>)
        ensures
            r == method_named(text@),
    {
        let given = String::from_str(text);
        if given == String::from_str("jito") {
            Some(TxSendMethod::JITO)
        } else if given == String::from_str("rpc") {
            Some(TxSendMethod::RPC)
        } else {
            None
        }
    }
}

/// The identifier of a transaction.
#[derive(Debug, Clone, Copy, PartialEq, Eq)]
pub struct Signature {
    pub bytes: [u8; 64],
}

/// The fixed values of delivery: how often a transport may try, how long direct
/// broadcast waits between tries, whether a broadcast skips the node's own simulation,
/// and what the relay is paid and where.
#[derive(Debug, Clone, PartialEq, Eq)]
pub struct DeliveryConfig {
    pub retry_budget: u8,
    pub backoff_secs: u64,
    pub skip_preflight: bool,
    pub tip_amount: u64,
    pub tip_address: Address,
    pub relay_endpoint: String,
}

impl DeliveryConfig {
    /// A configuration allows each transport at least one attempt.
    pub open spec fn wf(&self) -> bool {
        self.retry_budget >= 1
    }

    /// The values that the client runs with on the main network.
    pub fn mainnet() -> (r: DeliveryConfig)
        ensures
            r.wf(),
            r.retry_budget == RETRIES,
            r.backoff_secs == BACKOFF_SECS,
            r.skip_preflight,
            r.tip_amount == JITO_TIP_AMOUNT,
            r.tip_address@ == jito_address_bytes(),
            r.relay_endpoint@ == JITO_BLOCK_ENGINE_URL@,
    {
        DeliveryConfig {
            retry_budget: RETRIES,
            backoff_secs: BACKOFF_SECS,
            skip_preflight: true,
            tip_amount: JITO_TIP_AMOUNT,
            tip_address: jito_address(),
            relay_endpoint: String::from_str(JITO_BLOCK_ENGINE_URL),
        }
    }
}

/// Where a delivery stands.
#[derive(Debug, PartialEq, Eq)]
pub enum DeliveryState {
    /// Attempt number `attempt` on `path` is to be made, or is under way.
    Attempting { path: TxSendMethod, attempt: u8 },
    /// A broadcast ended ambiguously; after the backoff, direct attempt `next` follows.
    Waiting { next: u8 },
    /// The relay's budget is spent; direct broadcast takes over with a budget of its own.
    Escalating,
    /// The delivery is over.
    Terminal { outcome: Result<Signature, Failure> },
}

/// What a [`DeliveryState`] stands for.
pub enum DeliveryStateView {
    Attempting { path: TxSendMethod, attempt: u8 },
    Waiting { next: u8 },
    Escalating,
    Terminal { outcome: Result<Signature, FailureView> },
}

impl View for DeliveryState {
    type V = DeliveryStateView;

    open spec fn view(&self) -> DeliveryStateView {
        match self {
            DeliveryState::Attempting { path, attempt } => DeliveryStateView::Attempting {
                path: *path,
                attempt: *attempt,
            },
            DeliveryState::Waiting { next } => DeliveryStateView::Waiting { next: *next },
            DeliveryState::Escalating => DeliveryStateView::Escalating,
            DeliveryState::Terminal { outcome } => DeliveryStateView::Terminal {
                outcome: match outcome {
                    Ok(signature) => Ok(*signature),
                    Err(failure) => Err(failure@),
                },
            },
        }
    }
}

impl Clone for DeliveryState {
    fn clone(&self) -> (r: DeliveryState)
        ensures
            r@ == self@,
    {
        match self {
            DeliveryState::Attempting { path, attempt } => DeliveryState::Attempting {
                path: *path,
                attempt: *attempt,
            },
            DeliveryState::Waiting { next } => DeliveryState::Waiting { next: *next },
            DeliveryState::Escalating => DeliveryState::Escalating,
            DeliveryState::Terminal { outcome: Ok(signature) } => DeliveryState::Terminal {
                outcome: Ok(*signature),
            },
            DeliveryState::Terminal { outcome: Err(failure) } => DeliveryState::Terminal {
                outcome: Err(failure.clone()),
            },
        }
    }
}

/// What the caller reports back.
#[derive(Debug, Clone, PartialEq, Eq)]
pub enum DeliveryEvent {
    /// The attempt ended with these transaction identifiers: the one of a confirmed
    /// broadcast, or those of a landed bundle.
    Landed(Vec<Signature>),
    /// The transport failed with this message: the broadcast was refused or could not
    /// be confirmed, or the relay could not be reached, refused the subscription or the
    /// bundle, or fell silent.
    Failed(String),
    /// No recency anchor could be fetched for the attempt.
    AnchorUnavailable(String),
    /// The backoff is over, or the escalation has been taken note of.
    Resumed,
}

/// What a [`DeliveryEvent`] stands for.
pub enum DeliveryEventView {
    Landed(Seq<Signature>),
    Failed(Seq<char>),
    AnchorUnavailable(Seq<char>),
    Resumed,
}

impl View for DeliveryEvent {
    type V = DeliveryEventView;

    open spec fn view(&self) -> DeliveryEventView {
        match self {
            DeliveryEvent::Landed(signatures) => DeliveryEventView::Landed(signatures@),
            DeliveryEvent::Failed(m) => DeliveryEventView::Failed(m@),
            DeliveryEvent::AnchorUnavailable(m) => DeliveryEventView::AnchorUnavailable(m@),
            DeliveryEvent::Resumed => DeliveryEventView::Resumed,
        }
    }
}

/// The part of an attempt that can fail.
#[derive(Debug, Clone, Copy, PartialEq, Eq, Structural)]
pub enum Stage {
    /// Reaching the relay.
    Connect,
    /// Subscribing to the relay's bundle results.
    Subscribe,
    /// Fetching the recency anchor.
    Anchor,
    /// Sending the transaction or the bundle, and waiting for its result.
    Send,
}

/// The event that reports a failure at `stage`: a missing recency anchor is reported
/// as such, every other failure as a failure of the transport.
pub open spec fn failure_at_spec(stage: Stage, message: Seq<char>) -> DeliveryEventView {
    match stage {
        Stage::Anchor => DeliveryEventView::AnchorUnavailable(message),
        _ => DeliveryEventView::Failed(message),
    }
}

impl DeliveryEvent {
    /// The event that reports a failure at `stage` of an attempt.
    pub fn failure_at(stage: Stage, message: String) -> (event: DeliveryEvent)
        ensures
            event@ == failure_at_spec(stage, message@),
    {
        match stage {
            Stage::Anchor => DeliveryEvent::AnchorUnavailable(message),
            _ => DeliveryEvent::Failed(message),
        }
    }
}

/// What the caller is to do in a state.
#[derive(Debug, Clone, Copy, PartialEq, Eq, Structural)]
pub enum Action {
    /// Make one attempt on the transport and report how it ended. An attempt fetches
    /// a recency anchor of its own, signs the instructions of [`attempt_instructions`]
    /// with it, and sends them: on direct broadcast as one transaction whose
    /// confirmation is awaited, on the relay over a connection and a subscription of
    /// its own as a bundle of that one transaction whose result is awaited.
    Attempt(TxSendMethod),
    /// Sleep for so many seconds and report `Resumed`.
    Sleep(u64),
    /// Note that direct broadcast takes over and report `Resumed`.
    Escalate,
    /// Nothing: the outcome is in the state.
    Finish,
}

impl DeliveryStateView {
    /// A state is well formed when its attempt number lies within the budget.
    pub open spec fn wf(self, budget: u8) -> bool {
        match self {
            DeliveryStateView::Attempting { path, attempt } => 1 <= attempt <= budget,
            DeliveryStateView::Waiting { next } => 2 <= next <= budget,
            DeliveryStateView::Escalating => true,
            DeliveryStateView::Terminal { outcome } => true,
        }
    }

    /// The delivery is over.
    pub open spec fn is_terminal(self) -> bool {
        self is Terminal
    }
}

/// The class of a transport failure with the given message: on direct broadcast it is
/// ambiguous where the message says so and fatal otherwise; on the relay every failure
/// is transient.
pub open spec fn classify_spec(path: TxSendMethod, message: Seq<char>) -> FailureView {
    match path {
        TxSendMethod::RPC => if is_ambiguous(message) {
            FailureView::AmbiguousConfirmation(message)
        } else {
            FailureView::Fatal(message)
        },
        TxSendMethod::JITO => FailureView::RelayTransient(message),
    }
}

/// The state that a delivery on `method` starts in.
pub open spec fn initial(method: TxSendMethod) -> DeliveryStateView {
    DeliveryStateView::Attempting { path: method, attempt: 1 }
}

/// The end of an attempt that landed: the first identifier, or a fatal failure where
/// there is none.
pub open spec fn landed(signatures: Seq<Signature>) -> DeliveryStateView {
    if signatures.len() > 0 {
        DeliveryStateView::Terminal { outcome: Ok(signatures[0]) }
    } else {
        DeliveryStateView::Terminal {
            outcome: Err(FailureView::Fatal("No signature found"@)),
        }
    }
}

/// The state after direct attempt `attempt` ended with `event`.
pub open spec fn direct_step(budget: u8, attempt: u8, event: DeliveryEventView) -> DeliveryStateView {
    match event {
        DeliveryEventView::Landed(signatures) => landed(signatures),
        DeliveryEventView::AnchorUnavailable(m) => DeliveryStateView::Terminal {
            outcome: Err(FailureView::Fatal("Failed to fetch blockhash: "@ + m)),
        },
        DeliveryEventView::Failed(m) => match classify_spec(TxSendMethod::RPC, m) {
            FailureView::AmbiguousConfirmation(_) => if attempt >= budget {
                DeliveryStateView::Terminal {
                    outcome: Err(
                        FailureView::AmbiguousConfirmation("Failed to send transaction: "@ + m),
                    ),
                }
            } else {
                DeliveryStateView::Waiting { next: (attempt + 1) as u8 }
            },
            _ => DeliveryStateView::Terminal {
                outcome: Err(
                    FailureView::Fatal("Transaction failed due to a non-retryable error: "@ + m),
                ),
            },
        },
        DeliveryEventView::Resumed => DeliveryStateView::Attempting {
            path: TxSendMethod::RPC,
            attempt,
        },
    }
}

/// The state after relay attempt `attempt` ended with `event`.
pub open spec fn relay_step(budget: u8, attempt: u8, event: DeliveryEventView) -> DeliveryStateView {
    match event {
        DeliveryEventView::Landed(signatures) => landed(signatures),
        DeliveryEventView::AnchorUnavailable(m) => DeliveryStateView::Terminal {
            outcome: Err(FailureView::Fatal(m)),
        },
        DeliveryEventView::Failed(m) => if attempt >= budget {
            DeliveryStateView::Escalating
        } else {
            DeliveryStateView::Attempting { path: TxSendMethod::JITO, attempt: (attempt + 1) as u8 }
        },
        DeliveryEventView::Resumed => DeliveryStateView::Attempting {
            path: TxSendMethod::JITO,
            attempt,
        },
    }
}

/// The state after `event` in `state`. A state takes no notice of an event that it does
/// not wait for.
pub open spec fn step_spec(budget: u8, state: DeliveryStateView, event: DeliveryEventView) -> DeliveryStateView {
    match state {
        DeliveryStateView::Attempting { path: TxSendMethod::RPC, attempt } => direct_step(
            budget,
            attempt,
            event,
        ),
        DeliveryStateView::Attempting { path: TxSendMethod::JITO, attempt } => relay_step(
            budget,
            attempt,
            event,
        ),
        DeliveryStateView::Waiting { next } => if event is Resumed {
            DeliveryStateView::Attempting { path: TxSendMethod::RPC, attempt: next }
        } else {
            state
        },
        DeliveryStateView::Escalating => if event is Resumed {
            initial(TxSendMethod::RPC)
        } else {
            state
        },
        DeliveryStateView::Terminal { outcome } => state,
    }
}

/// The state that `events`, taken in order, lead to from `state`.
pub open spec fn run(budget: u8, state: DeliveryStateView, events: Seq<DeliveryEventView>) -> DeliveryStateView
    decreases events.len(),
{
    if events.len() == 0 {
        state
    } else {
        run(budget, step_spec(budget, state, events[0]), events.drop_first())
    }
}

/// The views of a record of events, in order.
pub open spec fn event_views(events: Seq<DeliveryEvent>) -> Seq<DeliveryEventView> {
    events.map_values(|event: DeliveryEvent| event@)
}

/// What the caller is to do in `state`.
pub open spec fn action_spec(backoff_secs: u64, state: DeliveryStateView) -> Action {
    match state {
        DeliveryStateView::Attempting { path, attempt } => Action::Attempt(path),
        DeliveryStateView::Waiting { next } => Action::Sleep(backoff_secs),
        DeliveryStateView::Escalating => Action::Escalate,
        DeliveryStateView::Terminal { outcome } => Action::Finish,
    }
}

/// The instructions of one attempt on `path`: on the relay the tip to the relay and then
/// the caller's instructions, on direct broadcast the caller's instructions alone.
pub open spec fn attempt_instructions_spec(
    tip_address: Seq<u8>,
    tip_amount: u64,
    fee_payer: Seq<u8>,
    path: TxSendMethod,
    instructions: Seq<InstructionView>,
) -> Seq<InstructionView> {
    match path {
        TxSendMethod::JITO => seq![transfer_instruction(fee_payer, tip_address, tip_amount)]
            + instructions,
        TxSendMethod::RPC => instructions,
    }
}

/// Classifies a transport failure by the transport it came from and by its message.
pub fn classify(path: TxSendMethod, message: String) -> (failure: Failure)
    ensures
        failure@ == classify_spec(path, message@),
{
    match path {
        TxSendMethod::RPC => {
            if reports_ambiguity(message.as_str()) {
                Failure::AmbiguousConfirmation(message)
            } else {
                Failure::Fatal(message)
            }
        },
        TxSendMethod::JITO => Failure::RelayTransient(message),
    }
}

/// Ends an attempt that landed.
fn finish_landed(signatures: Vec<Signature>) -> (next: DeliveryState)
    ensures
        next@ == landed(signatures@),
{
    if signatures.len() > 0 {
        DeliveryState::Terminal { outcome: Ok(signatures[0]) }
    } else {
        DeliveryState::Terminal {
            outcome: Err(Failure::Fatal(String::from_str("No signature found"))),
        }
    }
}

/// Starts a delivery on the transport that the caller prefers. The transport named
/// owns the attempts from here on; nothing is retried at this level.
pub fn submit(tx_send_method: TxSendMethod) -> (state: DeliveryState)
    ensures
        state@ == initial(tx_send_method),
{
    DeliveryState::Attempting { path: tx_send_method, attempt: 1 }
}

/// Decides how direct broadcast goes on after attempt `attempt` ended with `event`:
/// it ends with the identifier, waits and tries again after an ambiguous failure while
/// the budget lasts, and ends with a failure on anything else.
pub fn submit_default(config: &DeliveryConfig, attempt: u8, event: DeliveryEvent) -> (next:
    DeliveryState)
    ensures
        next@ == direct_step(config.retry_budget, attempt, event@),
{
    match event {
        DeliveryEvent::Landed(signatures) => finish_landed(signatures),
        DeliveryEvent::AnchorUnavailable(m) => DeliveryState::Terminal {
            outcome: Err(Failure::Fatal(prefixed("Failed to fetch blockhash: ", m.as_str()))),
        },
        DeliveryEvent::Failed(m) => match classify(TxSendMethod::RPC, m) {
            Failure::AmbiguousConfirmation(m) => {
                if attempt >= config.retry_budget {
                    DeliveryState::Terminal {
                        outcome: Err(
                            Failure::AmbiguousConfirmation(
                                prefixed("Failed to send transaction: ", m.as_str()),
                            ),
                        ),
                    }
                } else {
                    DeliveryState::Waiting { next: attempt + 1 }
                }
            },
            other => {
                let m = other.describe();
                DeliveryState::Terminal {
                    outcome: Err(
                        Failure::Fatal(
                            prefixed(
                                "Transaction failed due to a non-retryable error: ",
                                m.as_str(),
                            ),
                        ),
                    ),
                }
            },
        },
        DeliveryEvent::Resumed => DeliveryState::Attempting { path: TxSendMethod::RPC, attempt },
    }
}

/// Decides how the relay path goes on after attempt `attempt` ended with `event`: it
/// ends with the identifier, tries again after a relay failure while the budget lasts,
/// and hands over to direct broadcast once the budget is spent.
pub fn submit_jito(config: &DeliveryConfig, attempt: u8, event: DeliveryEvent) -> (next:
    DeliveryState)
    ensures
        next@ == relay_step(config.retry_budget, attempt, event@),
{
    match event {
        DeliveryEvent::Landed(signatures) => finish_landed(signatures),
        DeliveryEvent::AnchorUnavailable(m) => DeliveryState::Terminal {
            outcome: Err(Failure::Fatal(m)),
        },
        DeliveryEvent::Failed(m) => {
            if attempt >= config.retry_budget {
                DeliveryState::Escalating
            } else {
                DeliveryState::Attempting { path: TxSendMethod::JITO, attempt: attempt + 1 }
            }
        },
        DeliveryEvent::Resumed => DeliveryState::Attempting { path: TxSendMethod::JITO, attempt },
    }
}

/// Takes a delivery from one state to the next on an event.
pub fn step(config: &DeliveryConfig, state: DeliveryState, event: DeliveryEvent) -> (next:
    DeliveryState)
    ensures
        next@ == step_spec(config.retry_budget, state@, event@),
{
    match state {
        DeliveryState::Attempting { path: TxSendMethod::RPC, attempt } => submit_default(
            config,
            attempt,
            event,
        ),
        DeliveryState::Attempting { path: TxSendMethod::JITO, attempt } => submit_jito(
            config,
            attempt,
            event,
        ),
        DeliveryState::Waiting { next } => match event {
            DeliveryEvent::Resumed => DeliveryState::Attempting {
                path: TxSendMethod::RPC,
                attempt: next,
            },
            _ => DeliveryState::Waiting { next },
        },
        DeliveryState::Escalating => match event {
            DeliveryEvent::Resumed => submit(TxSendMethod::RPC),
            _ => DeliveryState::Escalating,
        },
        DeliveryState::Terminal { outcome } => DeliveryState::Terminal { outcome },
    }
}

/// Takes a delivery through a record of events, in order.
pub fn replay(config: &DeliveryConfig, state: DeliveryState, events: Vec<DeliveryEvent>) -> (last:
    DeliveryState)
    ensures
        last@ == run(config.retry_budget, state@, event_views(events@)),
{
    let ghost wanted = run(config.retry_budget, state@, event_views(events@));
    let mut state = state;
    let mut events = events;
    while events.len() > 0
        invariant
            run(config.retry_budget, state@, event_views(events@)) == wanted,
        decreases events.len(),
    {
        let ghost before = event_views(events@);
        let event = events.remove(0);
        assert(before[0] == event@);
        assert(before.drop_first() =~= event_views(events@));
        state = step(config, state, event);
    }
    state
}

impl DeliveryState {
    /// What the caller is to do now.
    pub fn action(&self, config: &DeliveryConfig) -> (r: Action)
        ensures
            r == action_spec(config.backoff_secs, self@),
    {
        match self {
            DeliveryState::Attempting { path, attempt } => Action::Attempt(*path),
            DeliveryState::Waiting { next } => Action::Sleep(config.backoff_secs),
            DeliveryState::Escalating => Action::Escalate,
            DeliveryState::Terminal { outcome } => Action::Finish,
        }
    }
}

/// The instructions that one attempt on `path` puts into its transaction.
pub fn attempt_instructions(
    config: &DeliveryConfig,
    fee_payer: &Address,
    path: TxSendMethod,
    instructions: &Vec<Instruction>,
) -> (r: Vec<Instruction>)
    ensures
        views(r@) == attempt_instructions_spec(
            config.tip_address@,
            config.tip_amount,
            fee_payer@,
            path,
            views(instructions@),
        ),
{
    match path {
        TxSendMethod::RPC => copy_instructions(instructions),
        TxSendMethod::JITO => {
            let mut all: Vec<Instruction> = Vec::new();
            all.push(system_transfer(fee_payer, &config.tip_address, config.tip_amount));
            let mut i: usize = 0;
            while i < instructions.len()
                invariant
                    i <= instructions.len(),
                    all.len() == i + 1,
                    all[0]@ == transfer_instruction(
                        fee_payer@,
                        config.tip_address@,
                        config.tip_amount,
                    ),
                    forall|j: int| 0 <= j < i ==> all[j + 1]@ == instructions[j]@,
                decreases instructions.len() - i,
            {
                all.push(instructions[i].clone());
                i += 1;
            }
            assert(views(all@) =~= seq![
                transfer_instruction(fee_payer@, config.tip_address@, config.tip_amount),
            ] + views(instructions@));
            all
        },
    }
}

} // verus!
