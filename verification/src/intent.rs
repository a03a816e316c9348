//! The intent record and the accounts that its submission names.

use vstd::prelude::*;
use vstd::utf8::encode_utf8;

use crate::address::{
    associated_token_address, associated_token_program_bytes, base58_text,
    derive_associated_token_address, find_program_address, native_mint_bytes, program_address,
    seed_bytes, system_program_bytes, token_program_bytes, Address,
};
use crate::failure::{Failure, FailureView};

verus! {

/// The record of a swap request as the escrow program stores it.
#[derive(Debug, Clone, PartialEq, Eq)]
pub struct IntentPayload {
    pub intent_id: String,
    pub user_in: Address,
    pub user_out: String,
    pub token_in: Address,
    pub amount_in: u64,
    pub token_out: String,
    pub amount_out: String,
    pub timeout_timestamp_in_sec: u64,
    pub single_domain: bool,
}

/// What an [`IntentPayload`] stands for.
pub struct IntentPayloadView {
    pub intent_id: Seq<char>,
    pub user_in: Seq<u8>,
    pub user_out: Seq<char>,
    pub token_in: Seq<u8>,
    pub amount_in: u64,
    pub token_out: Seq<char>,
    pub amount_out: Seq<char>,
    pub timeout_timestamp_in_sec: u64,
    pub single_domain: bool,
}

impl View for IntentPayload {
    type V = IntentPayloadView;

    open spec fn view(&self) -> IntentPayloadView {
        IntentPayloadView {
            intent_id: self.intent_id@,
            user_in: self.user_in@,
            user_out: self.user_out@,
            token_in: self.token_in@,
            amount_in: self.amount_in,
            token_out: self.token_out@,
            amount_out: self.amount_out@,
            timeout_timestamp_in_sec: self.timeout_timestamp_in_sec,
            single_domain: self.single_domain,
        }
    }
}

/// The accounts that the escrow instruction names.
#[derive(Debug, Clone, Copy, PartialEq, Eq)]
pub struct EscrowAccounts {
    pub user: Address,
    pub user_token_account: Address,
    pub auctioneer_state: Address,
    pub token_mint: Address,
    pub escrow_token_account: Address,
    pub intent: Address,
    pub token_program: Address,
    pub associated_token_program: Address,
    pub system_program: Address,
}

/// What an [`EscrowAccounts`] stands for.
pub struct EscrowAccountsView {
    pub user: Seq<u8>,
    pub user_token_account: Seq<u8>,
    pub auctioneer_state: Seq<u8>,
    pub token_mint: Seq<u8>,
    pub escrow_token_account: Seq<u8>,
    pub intent: Seq<u8>,
    pub token_program: Seq<u8>,
    pub associated_token_program: Seq<u8>,
    pub system_program: Seq<u8>,
}

impl View for EscrowAccounts {
    type V = EscrowAccountsView;

    open spec fn view(&self) -> EscrowAccountsView {
        EscrowAccountsView {
            user: self.user@,
            user_token_account: self.user_token_account@,
            auctioneer_state: self.auctioneer_state@,
            token_mint: self.token_mint@,
            escrow_token_account: self.escrow_token_account@,
            intent: self.intent@,
            token_program: self.token_program@,
            associated_token_program: self.associated_token_program@,
            system_program: self.system_program@,
        }
    }
}

/// All that one submission of an intent is made of.
#[derive(Debug, Clone, PartialEq, Eq)]
pub struct IntentRequest {
    /// The intent pays in the native coin, so the payer's wrapped-native account must
    /// hold the amount before the intent is submitted.
    pub wrap_native: bool,
    pub accounts: EscrowAccounts,
    pub payload: IntentPayload,
}

/// What an [`IntentRequest`] stands for.
pub struct IntentRequestView {
    pub wrap_native: bool,
    pub accounts: EscrowAccountsView,
    pub payload: IntentPayloadView,
}

impl View for IntentRequest {
    type V = IntentRequestView;

    open spec fn view(&self) -> IntentRequestView {
        IntentRequestView {
            wrap_native: self.wrap_native,
            accounts: self.accounts@,
            payload: self.payload@,
        }
    }
}

/// What the caller says of the swap it wants.
pub struct IntentTerms {
    pub intent_id: Seq<char>,
    pub src_user: Seq<u8>,
    pub amount_in: u64,
    pub token_in: Seq<u8>,
    pub token_out: Seq<char>,
    pub amount_out: Seq<char>,
    pub timeout_duration: u64,
    pub now: u64,
}

/// The namespace tag of intent records: the bytes of `intent`.
pub open spec fn intent_tag() -> Seq<u8> {
    seq![105u8, 110u8, 116u8, 101u8, 110u8, 116u8]
}

/// The seeds that the address of an intent's record is derived from.
pub open spec fn intent_seeds(intent_id: Seq<char>) -> Seq<Seq<u8>> {
    seq![intent_tag(), encode_utf8(intent_id)]
}

/// The seed of the auctioneer's state: the bytes of `auctioneer`.
pub open spec fn auctioneer_tag() -> Seq<u8> {
    seq![97u8, 117u8, 99u8, 116u8, 105u8, 111u8, 110u8, 101u8, 101u8, 114u8]
}

/// The token that an intent pays in: the wrapped form for the native coin, which the
/// system program's address stands for, and the token itself otherwise.
pub open spec fn normalized_token(token_in: Seq<u8>) -> Seq<u8> {
    if token_in == system_program_bytes() {
        native_mint_bytes()
    } else {
        token_in
    }
}

/// The record that the builder makes of its inputs. The deadline is the time of building
/// plus the duration asked for.
pub open spec fn built(
    intent_id: Seq<char>,
    user_in: Seq<u8>,
    user_out: Seq<char>,
    token_in: Seq<u8>,
    amount_in: u64,
    token_out: Seq<char>,
    amount_out: Seq<char>,
    timeout_duration: u64,
    single_domain: bool,
    now: u64,
) -> IntentPayloadView {
    IntentPayloadView {
        intent_id,
        user_in,
        user_out,
        token_in,
        amount_in,
        token_out,
        amount_out,
        timeout_timestamp_in_sec: (now + timeout_duration) as u64,
        single_domain,
    }
}

/// The record of an intent with the given terms, destination and domain.
pub open spec fn payload_spec(
    terms: IntentTerms,
    user_out: Seq<char>,
    single_domain: bool,
) -> IntentPayloadView {
    built(
        terms.intent_id,
        terms.src_user,
        user_out,
        normalized_token(terms.token_in),
        terms.amount_in,
        terms.token_out,
        terms.amount_out,
        terms.timeout_duration,
        single_domain,
        terms.now,
    )
}

/// The accounts of an escrow instruction, given the address of the intent's record.
pub open spec fn accounts_spec(
    src_user: Seq<u8>,
    auctioneer_state: Seq<u8>,
    token_in: Seq<u8>,
    intent: Seq<u8>,
) -> EscrowAccountsView {
    let mint = normalized_token(token_in);
    EscrowAccountsView {
        user: src_user,
        user_token_account: associated_token_address(src_user, mint),
        auctioneer_state,
        token_mint: mint,
        escrow_token_account: associated_token_address(auctioneer_state, mint),
        intent,
        token_program: token_program_bytes(),
        associated_token_program: associated_token_program_bytes(),
        system_program: system_program_bytes(),
    }
}

/// The request that a submission with the given terms consists of, where the address
/// of the intent's record can be derived.
pub open spec fn request_spec(
    terms: IntentTerms,
    auctioneer_state: Seq<u8>,
    program: Seq<u8>,
    user_out: Seq<char>,
    single_domain: bool,
) -> Option<IntentRequestView> {
    match program_address(intent_seeds(terms.intent_id), program) {
        Some(intent) => Some(
            IntentRequestView {
                wrap_native: terms.token_in == system_program_bytes(),
                accounts: accounts_spec(terms.src_user, auctioneer_state, terms.token_in, intent),
                payload: payload_spec(terms, user_out, single_domain),
            },
        ),
        None => None,
    }
}

/// The failure of a submission whose intent record has no address.
pub open spec fn no_record_address() -> FailureView {
    FailureView::Precondition("Unable to find a viable program address bump seed"@)
}

impl IntentPayload {
    /// Builds the record of an intent. The deadline is fixed here, once, as the current
    /// time plus the duration that the caller asks for.
    pub fn build(
        intent_id: String,
        user_in: Address,
        user_out: String,
        token_in: Address,
        amount_in: u64,
        token_out: String,
        amount_out: String,
        timeout_duration: u64,
        single_domain: bool,
        now: u64,
    ) -> (payload: IntentPayload)
        requires
            now + timeout_duration <= u64::MAX,
        ensures
            payload@ == built(
                intent_id@,
                user_in@,
                user_out@,
                token_in@,
                amount_in,
                token_out@,
                amount_out@,
                timeout_duration,
                single_domain,
                now,
            ),
    {
        IntentPayload {
            intent_id,
            user_in,
            user_out,
            token_in,
            amount_in,
            token_out,
            amount_out,
            timeout_timestamp_in_sec: now + timeout_duration,
            single_domain,
        }
    }
}

/// Tells whether an intent that pays in `token_in` pays in the native coin, so that the
/// payer's wrapped-native account has to be topped up before the intent is submitted.
pub fn needs_wrapping(token_in: &Address) -> (r: bool)
    ensures
        r == (token_in@ == system_program_bytes()),
{
    token_in.same_as(&Address::system_program())
}

/// The address of the record that the escrow program keeps for an intent.
pub fn intent_record_address(intent_id: &str, program: &Address) -> (r: Option<Address>)
    ensures
        r.is_some() == program_address(intent_seeds(intent_id@), program@).is_some(),
        r.is_some() ==> r.unwrap()@ == program_address(intent_seeds(intent_id@), program@).unwrap(),
{
    let mut tag: Vec<u8> = Vec::new();
    tag.push(105);
    tag.push(110);
    tag.push(116);
    tag.push(101);
    tag.push(110);
    tag.push(116);
    assert(tag@ =~= intent_tag());
    let mut seeds: Vec<Vec<u8>> = Vec::new();
    seeds.push(tag);
    seeds.push(intent_id.as_bytes_vec());
    assert(seed_bytes(seeds@) =~= intent_seeds(intent_id@));
    find_program_address(&seeds, program)
}

/// The address of the state that the escrow program keeps for its auctioneer.
pub fn auctioneer_state_address(program: &Address) -> (r: Option<Address>)
    ensures
        r.is_some() == program_address(seq![auctioneer_tag()], program@).is_some(),
        r.is_some() ==> r.unwrap()@ == program_address(seq![auctioneer_tag()], program@).unwrap(),
{
    let mut tag: Vec<u8> = Vec::new();
    tag.push(97);
    tag.push(117);
    tag.push(99);
    tag.push(116);
    tag.push(105);
    tag.push(111);
    tag.push(110);
    tag.push(101);
    tag.push(101);
    tag.push(114);
    assert(tag@ =~= auctioneer_tag());
    let mut seeds: Vec<Vec<u8>> = Vec::new();
    seeds.push(tag);
    assert(seed_bytes(seeds@) =~= seq![auctioneer_tag()]);
    find_program_address(&seeds, program)
}

/// Puts a request together from its parts.
fn assemble(
    src_user: &Address,
    auctioneer_state: &Address,
    program: &Address,
    intent_id: String,
    amount_in: u64,
    token_in: Address,
    user_out: String,
    token_out: String,
    amount_out: String,
    timeout_duration: u64,
    single_domain: bool,
    now: u64,
) -> (r: Result<IntentRequest, Failure>)
    requires
        now + timeout_duration <= u64::MAX,
    ensures
        ({
            let terms = IntentTerms {
                intent_id: intent_id@,
                src_user: src_user@,
                amount_in,
                token_in: token_in@,
                token_out: token_out@,
                amount_out: amount_out@,
                timeout_duration,
                now,
            };
            let wanted = request_spec(terms, auctioneer_state@, program@, user_out@, single_domain);
            match r {
                Ok(request) => wanted == Some(request@),
                Err(failure) => wanted.is_none() && failure@ == no_record_address(),
            }
        }),
{
    let intent = match intent_record_address(intent_id.as_str(), program) {
        Some(intent) => intent,
        None => {
            return Err(
                Failure::Precondition(
                    String::from_str("Unable to find a viable program address bump seed"),
                ),
            );
        },
    };
    let wrap_native = needs_wrapping(&token_in);
    let mint = if wrap_native {
        Address::native_mint()
    } else {
        token_in
    };
    let accounts = EscrowAccounts {
        user: *src_user,
        user_token_account: derive_associated_token_address(src_user, &mint),
        auctioneer_state: *auctioneer_state,
        token_mint: mint,
        escrow_token_account: derive_associated_token_address(auctioneer_state, &mint),
        intent,
        token_program: Address::token_program(),
        associated_token_program: Address::associated_token_program(),
        system_program: Address::system_program(),
    };
    let payload = IntentPayload::build(
        intent_id,
        *src_user,
        user_out,
        mint,
        amount_in,
        token_out,
        amount_out,
        timeout_duration,
        single_domain,
        now,
    );
    Ok(IntentRequest { wrap_native, accounts, payload })
}

/// Prepares the submission of an intent whose swap stays on this ledger. The swap is
/// paid out to the sender: the destination is the sender's own address in base58.
pub fn escrow_and_store_intent_solana(
    src_user: &Address,
    auctioneer_state: &Address,
    program: &Address,
    intent_id: String,
    amount_in: u64,
    token_in: Address,
    token_out: String,
    amount_out: String,
    timeout_duration: u64,
    now: u64,
) -> (r: Result<IntentRequest, Failure>)
    requires
        now + timeout_duration <= u64::MAX,
    ensures
        ({
            let terms = IntentTerms {
                intent_id: intent_id@,
                src_user: src_user@,
                amount_in,
                token_in: token_in@,
                token_out: token_out@,
                amount_out: amount_out@,
                timeout_duration,
                now,
            };
            let wanted = request_spec(
                terms,
                auctioneer_state@,
                program@,
                base58_text(src_user@),
                true,
            );
            match r {
                Ok(request) => wanted == Some(request@),
                Err(failure) => wanted.is_none() && failure@ == no_record_address(),
            }
        }),
{
    let user_out = src_user.to_base58();
    assemble(
        src_user,
        auctioneer_state,
        program,
        intent_id,
        amount_in,
        token_in,
        user_out,
        token_out,
        amount_out,
        timeout_duration,
        true,
        now,
    )
}

/// Prepares the submission of an intent whose swap ends on another ledger. The
/// destination is taken as the caller gives it.
pub fn escrow_and_store_intent_cross_chain_solana(
    src_user: &Address,
    auctioneer_state: &Address,
    program: &Address,
    intent_id: String,
    amount_in: u64,
    token_in: Address,
    dst_user: String,
    token_out: String,
    amount_out: String,
    timeout_duration: u64,
    now: u64,
) -> (r: Result<IntentRequest, Failure>)
    requires
        now + timeout_duration <= u64::MAX,
    ensures
        ({
            let terms = IntentTerms {
                intent_id: intent_id@,
                src_user: src_user@,
                amount_in,
                token_in: token_in@,
                token_out: token_out@,
                amount_out: amount_out@,
                timeout_duration,
                now,
            };
            let wanted = request_spec(terms, auctioneer_state@, program@, dst_user@, false);
            match r {
                Ok(request) => wanted == Some(request@),
                Err(failure) => wanted.is_none() && failure@ == no_record_address(),
            }
        }),
{
    assemble(
        src_user,
        auctioneer_state,
        program,
        intent_id,
        amount_in,
        token_in,
        dst_user,
        token_out,
        amount_out,
        timeout_duration,
        false,
        now,
    )
}

} // verus!
