//! Keeping the wrapped form of the native coin topped up.
//!
//! An intent that pays in the native coin pays from the payer's wrapped-native token
//! account. Before such an intent is submitted, that account must hold the amount.

use vstd::prelude::*;

use crate::address::{
    associated_token_address, derive_associated_token_address, native_mint_bytes, Address,
};
use crate::failure::{prefixed, Failure, FailureView};
use crate::instruction::{
    sync_native_instruction, system_transfer, token_sync_native, transfer_instruction, views,
    Instruction, InstructionView,
};

verus! {

/// What the ledger says of the payer's wrapped-native account.
#[derive(Debug, Clone, PartialEq, Eq)]
pub enum BalanceReading {
    /// There is no such account.
    Missing,
    /// The account exists, and this is its recorded amount as the ledger writes it.
    Amount(String),
    /// The account exists, but its balance could not be read.
    Unreadable(String),
}

/// What a [`BalanceReading`] stands for.
pub enum BalanceReadingView {
    Missing,
    Amount(Seq<char>),
    Unreadable(Seq<char>),
}

impl View for BalanceReading {
    type V = BalanceReadingView;

    open spec fn view(&self) -> BalanceReadingView {
        match self {
            BalanceReading::Missing => BalanceReadingView::Missing,
            BalanceReading::Amount(text) => BalanceReadingView::Amount(text@),
            BalanceReading::Unreadable(m) => BalanceReadingView::Unreadable(m@),
        }
    }
}

/// The text consists of decimal digits, at least one.
pub open spec fn is_decimal(digits: Seq<char>) -> bool {
    &&& digits.len() > 0
    &&& forall|i: int| 0 <= i < digits.len() ==> '0' <= #[trigger] digits[i] <= '9'
}

/// The number that decimal digits denote.
pub open spec fn decimal_value(digits: Seq<char>) -> nat
    decreases digits.len(),
{
    if digits.len() == 0 {
        0
    } else {
        (decimal_value(digits.drop_last()) * 10 + (digits.last() as u32 - '0' as u32)) as nat
    }
}

/// The number that a text denotes when read as an unsigned 64-bit integer: decimal
/// digits, which a plus sign may precede, whose value fits into 64 bits.
pub open spec fn parsed_amount(text: Seq<char>) -> Option<u64> {
    let digits = if text.len() > 0 && text[0] == '+' {
        text.drop_first()
    } else {
        text
    };
    if is_decimal(digits) && decimal_value(digits) <= u64::MAX {
        Some(decimal_value(digits) as u64)
    } else {
        None
    }
}

/// The balance that a reading stands for: zero for a missing account and for an amount
/// that is no number, and none where the balance could not be read.
pub open spec fn balance_of(reading: BalanceReadingView) -> Option<u64> {
    match reading {
        BalanceReadingView::Missing => Some(0u64),
        BalanceReadingView::Amount(text) => match parsed_amount(text) {
            Some(amount) => Some(amount),
            None => Some(0u64),
        },
        BalanceReadingView::Unreadable(m) => None,
    }
}

/// The instructions that raise a balance of `balance` to `required`: none where the
/// balance suffices, else a transfer of exactly what is short and a synchronisation of
/// the recorded balance.
pub open spec fn top_up_spec(
    fee_payer: Seq<u8>,
    account: Seq<u8>,
    balance: u64,
    required: u64,
) -> Seq<InstructionView> {
    if balance >= required {
        Seq::empty()
    } else {
        seq![
            transfer_instruction(fee_payer, account, (required - balance) as u64),
            sync_native_instruction(account),
        ]
    }
}

/// Calls `str::parse::<u64>`, which reads decimal digits after an optional plus sign and
/// refuses an empty text, any other character and a value beyond 64 bits.
#[verifier::external_body]
fn parse_amount(text: &str) -> (r: Option<u64>)
    ensures
        r == parsed_amount(text@),
{
    text.parse::<u64>().ok()
}

/// The payer's wrapped-native token account.
pub fn wsol_account(fee_payer: &Address) -> (r: Address)
    ensures
        r@ == associated_token_address(fee_payer@, native_mint_bytes()),
{
    derive_associated_token_address(fee_payer, &Address::native_mint())
}

/// The balance that a reading stands for, or the failure to read it.
pub fn current_balance(reading: BalanceReading) -> (r: Result<u64, Failure>)
    ensures
        match r {
            Ok(balance) => balance_of(reading@) == Some(balance),
            Err(failure) => reading@ matches BalanceReadingView::Unreadable(m) && failure@
                == FailureView::Fatal("Failed to fetch WSOL balance: "@ + m),
        },
{
    match reading {
        BalanceReading::Missing => Ok(0),
        BalanceReading::Amount(text) => match parse_amount(text.as_str()) {
            Some(amount) => Ok(amount),
            None => Ok(0),
        },
        BalanceReading::Unreadable(m) => Err(
            Failure::Fatal(prefixed("Failed to fetch WSOL balance: ", m.as_str())),
        ),
    }
}

/// The instructions that raise the balance of `account` from `balance` to `required`.
/// They belong into one transaction.
pub fn top_up_instructions(
    fee_payer: &Address,
    account: &Address,
    balance: u64,
    required: u64,
) -> (r: Vec<Instruction>)
    ensures
        views(r@) == top_up_spec(fee_payer@, account@, balance, required),
        balance >= required ==> r@.len() == 0,
        balance < required ==> r@.len() == 2 && r@[0]@ == transfer_instruction(
            fee_payer@,
            account@,
            (required - balance) as u64,
        ) && r@[1]@ == sync_native_instruction(account@),
{
    let mut plan: Vec<Instruction> = Vec::new();
    if balance < required {
        let shortfall: u64 = required - balance;
        plan.push(system_transfer(fee_payer, account, shortfall));
        match token_sync_native(account) {
            Some(sync) => {
                plan.push(sync);
            },
            None => {
                assert(false);
            },
        }
    }
    assert(views(plan@) =~= top_up_spec(fee_payer@, account@, balance, required));
    plan
}

/// Sees to it that the payer's wrapped-native account holds `amount_in`: given what
/// the ledger says of the account, yields the instructions that top it up, none if it
/// holds enough, or the failure to read the balance.
pub fn ensure_wsol_balance_blocking(
    fee_payer: &Address,
    amount_in: u64,
    reading: BalanceReading,
) -> (r: Result<Vec<Instruction>, Failure>)
    ensures
        match r {
            Ok(plan) => balance_of(reading@) matches Some(balance) && views(plan@) == top_up_spec(
                fee_payer@,
                associated_token_address(fee_payer@, native_mint_bytes()),
                balance,
                amount_in,
            ),
            Err(failure) => reading@ matches BalanceReadingView::Unreadable(m) && failure@
                == FailureView::Fatal("Failed to fetch WSOL balance: "@ + m),
        },
        match balance_of(reading@) {
            Some(balance) => if balance >= amount_in {
                r.is_ok() && r.unwrap()@.len() == 0
            } else {
                r.is_ok() && r.unwrap()@.len() == 2 && r.unwrap()@[0]@ == transfer_instruction(
                    fee_payer@,
                    associated_token_address(fee_payer@, native_mint_bytes()),
                    (amount_in - balance) as u64,
                ) && r.unwrap()@[1]@ == sync_native_instruction(
                    associated_token_address(fee_payer@, native_mint_bytes()),
                )
            },
            None => r.is_err(),
        },
{
    let account = wsol_account(fee_payer);
    match current_balance(reading) {
        Ok(balance) => Ok(top_up_instructions(fee_payer, &account, balance, amount_in)),
        Err(failure) => Err(failure),
    }
}

} // verus!
