//! The intent of a swap that is escrowed on Ethereum.

use vstd::prelude::*;

use crate::failure::prefixed;
use crate::text::push_char;

verus! {

/// The arguments of the escrow contract's call, in the contract's order.
#[derive(Debug, Clone, PartialEq, Eq)]
pub struct EthereumIntent {
    pub token_in: [u8; 20],
    pub amount_in: u64,
    pub src_user: [u8; 20],
    pub token_out: String,
    pub amount_out: u64,
    pub dst_user: String,
    pub winner_solver: String,
    pub timeout: u64,
}

/// What an [`EthereumIntent`] stands for.
pub struct EthereumIntentView {
    pub token_in: Seq<u8>,
    pub amount_in: u64,
    pub src_user: Seq<u8>,
    pub token_out: Seq<char>,
    pub amount_out: u64,
    pub dst_user: Seq<char>,
    pub winner_solver: Seq<char>,
    pub timeout: u64,
}

impl View for EthereumIntent {
    type V = EthereumIntentView;

    open spec fn view(&self) -> EthereumIntentView {
        EthereumIntentView {
            token_in: self.token_in@,
            amount_in: self.amount_in,
            src_user: self.src_user@,
            token_out: self.token_out@,
            amount_out: self.amount_out,
            dst_user: self.dst_user@,
            winner_solver: self.winner_solver@,
            timeout: self.timeout,
        }
    }
}

/// The lower-case hexadecimal digit of a number below 16.
pub open spec fn hex_digit_spec(n: u8) -> char {
    if n < 10 {
        ((48 + n) as u8) as char
    } else {
        ((87 + n) as u8) as char
    }
}

/// The bytes in lower-case hexadecimal, two digits each.
pub open spec fn lower_hex(bytes: Seq<u8>) -> Seq<char>
    decreases bytes.len(),
{
    if bytes.len() == 0 {
        Seq::empty()
    } else {
        lower_hex(bytes.drop_last()).push(hex_digit_spec(bytes.last() / 16)).push(
            hex_digit_spec(bytes.last() % 16),
        )
    }
}

/// The party that a swap pays out to: the sender's own address, written as `0x` and forty
/// hexadecimal digits, where the swap stays on Ethereum, and else what the caller names.
pub open spec fn destination_spec(
    single_domain: bool,
    src_user: Seq<u8>,
    dst_user: Seq<char>,
) -> Seq<char> {
    if single_domain {
        "0x"@ + lower_hex(src_user)
    } else {
        dst_user
    }
}

/// The hint that a failed escrow call is reported with.
pub open spec fn approval_hint() -> Seq<char> {
    "Transaction failed ** Remember you need to approve <TOKEN_IN> to Escrow SC 0x64E78873057769a5fd9A2278E6820666ec7e87f9 **: "@
}

fn hex_digit(n: u8) -> (c: char)
    requires
        n < 16,
    ensures
        c == hex_digit_spec(n),
{
    if n < 10 {
        (48 + n) as char
    } else {
        (87 + n) as char
    }
}

/// Writes an address as `0x` and its bytes in lower-case hexadecimal.
pub fn address_text(address: &[u8; 20]) -> (r: String)
    ensures
        r@ == "0x"@ + lower_hex(address@),
{
    let mut out = String::from_str("0x");
    let mut i: usize = 0;
    assert(address@.take(0) =~= Seq::<u8>::empty());
    while i < 20
        invariant
            i <= 20,
            out@ == "0x"@ + lower_hex(address@.take(i as int)),
        decreases 20 - i,
    {
        let b: u8 = address[i];
        proof {
            let upto = address@.take(i + 1);
            assert(upto.drop_last() =~= address@.take(i as int));
            assert(("0x"@ + lower_hex(address@.take(i as int))).push(hex_digit_spec(b / 16)).push(
                hex_digit_spec(b % 16),
            ) =~= "0x"@ + lower_hex(upto));
        }
        push_char(&mut out, hex_digit(b / 16));
        push_char(&mut out, hex_digit(b % 16));
        i += 1;
    }
    assert(address@.take(20) =~= address@);
    out
}

/// Puts together the arguments of the escrow contract's call. No solver has won yet.
pub fn escrow_and_store_intent_ethereum(
    src_user: [u8; 20],
    token_in: [u8; 20],
    amount_in: u64,
    token_out: String,
    amount_out: u64,
    dst_user: String,
    single_domain: bool,
    timeout: u64,
) -> (intent: EthereumIntent)
    ensures
        intent@ == (EthereumIntentView {
            token_in: token_in@,
            amount_in,
            src_user: src_user@,
            token_out: token_out@,
            amount_out,
            dst_user: destination_spec(single_domain, src_user@, dst_user@),
            winner_solver: Seq::empty(),
            timeout,
        }),
{
    let dst_user = if single_domain {
        address_text(&src_user)
    } else {
        dst_user
    };
    EthereumIntent {
        token_in,
        amount_in,
        src_user,
        token_out,
        amount_out,
        dst_user,
        winner_solver: String::new(),
        timeout,
    }
}

/// The report of a failed escrow call: the hint, then what went wrong.
pub fn approval_report(detail: &str) -> (r: String)
    ensures
        r@ == approval_hint() + detail@,
{
    prefixed(
        "Transaction failed ** Remember you need to approve <TOKEN_IN> to Escrow SC 0x64E78873057769a5fd9A2278E6820666ec7e87f9 **: ",
        detail,
    )
}

} // verus!
