//! The data of a quote query and of its answer.

use vstd::prelude::*;

verus! {

/// A request for quotes on one swap.
#[derive(Debug, Clone, PartialEq, Eq)]
pub struct Query {
    pub src_chain: String,
    pub dst_chain: String,
    pub token_in: String,
    pub token_out: String,
    pub amount: String,
    pub src_address: String,
    pub dst_address: String,
}

/// Why a query brought no quotes.
#[derive(Debug, Clone, PartialEq, Eq)]
pub enum QueryError {
    /// The request or the reading of its answer failed.
    HttpError(String),
    /// The service answered with an error of its own.
    AuctioneerError(String),
}

/// An amount of a token that is offered.
#[derive(Debug, Clone, PartialEq, Eq)]
pub struct MeanQuote {
    pub token: String,
    pub amount: String,
}

/// The offer of one solver.
#[derive(Debug, Clone, PartialEq, Eq)]
pub struct Quote {
    pub solver_id: String,
    pub quote: MeanQuote,
}

/// The answer to a query: the mean of the offers, and each of them.
#[derive(Debug, Clone, PartialEq, Eq)]
pub struct QuoteResponse {
    pub mean_output: MeanQuote,
    pub outputs: Vec<Quote>,
}

} // verus!
