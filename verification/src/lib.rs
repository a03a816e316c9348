//! Intent submission and transaction delivery.
//!
//! The crate holds the decisions of a client that submits swap intents to a
//! ledger: which instructions a submission consists of, what the intent record
//! says, and how delivery attempts are retried, escalated and ended. Network
//! work is left to the caller, which performs the action that a state asks for
//! and reports what happened.
//!
//! - [`intent`] builds the request of a submission: the record and the accounts.
//! - [`wsol`] tops up the wrapped form of the native coin where an intent pays in it.
//! - [`delivery`] carries a transaction to the ledger, over the relay or by direct
//!   broadcast; [`delivery_laws`] states what holds of every delivery.
//! - [`submission`] joins a request and its delivery.
//! - [`failure`] classifies what goes wrong.
//! - [`address`] and [`instruction`] hold addresses and instructions as plain data.
//! - [`intent_id`] draws identifiers, [`ethereum`] prepares the escrow call on
//!   Ethereum, and [`quotes`] holds the data of the quote service.

pub mod address;
pub mod delivery;
pub mod delivery_laws;
pub mod ethereum;
pub mod failure;
pub mod instruction;
pub mod intent;
pub mod intent_id;
pub mod quotes;
pub mod submission;
mod text;
pub mod wsol;

pub use address::Address;
