//! Classified failures and the text that classifies them.

use vstd::prelude::*;

verus! {

/// Why a submission did not yield a transaction identifier. Each variant carries the
/// whole message that the caller is shown.
#[derive(Debug, PartialEq, Eq)]
pub enum Failure {
    /// The broadcast layer could not tell whether the transaction landed, and the
    /// retry budget is spent.
    AmbiguousConfirmation(String),
    /// The relay refused, failed or fell silent.
    RelayTransient(String),
    /// Any other network or program error: retrying cannot help.
    Fatal(String),
    /// The submission could not be prepared at all.
    Precondition(String),
}

/// What a [`Failure`] stands for.
pub enum FailureView {
    AmbiguousConfirmation(Seq<char>),
    RelayTransient(Seq<char>),
    Fatal(Seq<char>),
    Precondition(Seq<char>),
}

impl View for Failure {
    type V = FailureView;

    open spec fn view(&self) -> FailureView {
        match self {
            Failure::AmbiguousConfirmation(m) => FailureView::AmbiguousConfirmation(m@),
            Failure::RelayTransient(m) => FailureView::RelayTransient(m@),
            Failure::Fatal(m) => FailureView::Fatal(m@),
            Failure::Precondition(m) => FailureView::Precondition(m@),
        }
    }
}

impl FailureView {
    /// The message that the failure carries.
    pub open spec fn message(self) -> Seq<char> {
        match self {
            FailureView::AmbiguousConfirmation(m) => m,
            FailureView::RelayTransient(m) => m,
            FailureView::Fatal(m) => m,
            FailureView::Precondition(m) => m,
        }
    }
}

/// `needle` occurs in `text` as a run of consecutive characters.
pub open spec fn occurs_in(needle: Seq<char>, text: Seq<char>) -> bool {
    exists|i: int|
        0 <= i && i + needle.len() <= text.len() && #[trigger] text.subrange(
            i,
            i + needle.len(),
        ) == needle
}

/// The words by which the broadcast layer says that it cannot tell whether a
/// transaction landed.
pub open spec fn ambiguity_marker() -> Seq<char> {
    "unable to confirm transaction"@
}

/// A transport message reports an ambiguous outcome: the transaction may or may not
/// have landed.
pub open spec fn is_ambiguous(message: Seq<char>) -> bool {
    occurs_in(ambiguity_marker(), message)
}

/// The hint that a failed submission is reported with.
pub open spec fn hint() -> Seq<char> {
    "Transaction failed ** Remember you need to create a token_account for Escrow Program first **: "@
}

/// Calls `str::contains` with a string pattern, which holds exactly when the pattern
/// matches a sub-slice of the text.
#[verifier::external_body]
fn text_contains(text: &str, needle: &str) -> (r: bool)
    ensures
        r == occurs_in(needle@, text@),
{
    text.contains(needle)
}

/// Tells whether a transport message reports an ambiguous outcome.
pub fn reports_ambiguity(message: &str) -> (r: bool)
    ensures
        r == is_ambiguous(message@),
{
    text_contains(message, "unable to confirm transaction")
}

/// Puts `prefix` before `detail`.
pub fn prefixed(prefix: &str, detail: &str) -> (r: String)
    ensures
        r@ == prefix@ + detail@,
{
    String::from_str(prefix).concat(detail)
}

/// The failure of a submission whose program could not be looked up.
pub fn program_unavailable(detail: &str) -> (failure: Failure)
    ensures
        failure@ == FailureView::Precondition("Failed to get program: "@ + detail@),
{
    Failure::Precondition(prefixed("Failed to get program: ", detail))
}

/// The report of a failed submission: the hint, then the description of the failure.
pub fn failure_report(description: &str) -> (r: String)
    ensures
        r@ == hint() + description@,
{
    prefixed(
        "Transaction failed ** Remember you need to create a token_account for Escrow Program first **: ",
        description,
    )
}

impl Clone for Failure {
    fn clone(&self) -> (r: Failure)
        ensures
            r@ == self@,
    {
        match self {
            Failure::AmbiguousConfirmation(m) => Failure::AmbiguousConfirmation(m.clone()),
            Failure::RelayTransient(m) => Failure::RelayTransient(m.clone()),
            Failure::Fatal(m) => Failure::Fatal(m.clone()),
            Failure::Precondition(m) => Failure::Precondition(m.clone()),
        }
    }
}

impl Failure {
    /// The message that the failure carries, as the caller is shown it.
    pub fn describe(&self) -> (r: String)
        ensures
            r@ == self@.message(),
    {
        match self {
            Failure::AmbiguousConfirmation(m) => m.clone(),
            Failure::RelayTransient(m) => m.clone(),
            Failure::Fatal(m) => m.clone(),
            Failure::Precondition(m) => m.clone(),
        }
    }

    /// The report of a failed submission: the hint, then the failure's own message,
    /// whatever its class.
    pub fn report(&self) -> (r: String)
        ensures
            r@ == hint() + self@.message(),
    {
        let detail = self.describe();
        failure_report(detail.as_str())
    }
}

} // verus!
