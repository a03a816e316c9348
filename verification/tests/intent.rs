use intent_client::address::Address;
use intent_client::delivery::{
    jito_address, DeliveryConfig, DeliveryEvent, DeliveryState, Signature, TxSendMethod,
};
use intent_client::failure::Failure;
use intent_client::intent::{
    escrow_and_store_intent_cross_chain_solana, escrow_and_store_intent_solana,
    intent_record_address, needs_wrapping, IntentPayload, IntentRequest,
};
use intent_client::intent_id::generate_random_intent_id;
use intent_client::quotes::{MeanQuote, Query, QueryError, Quote, QuoteResponse};
use intent_client::submission::Submission;
use intent_client::wsol::wsol_account;

const USDC: [u8; 32] = [
    198, 250, 122, 243, 190, 219, 173, 58, 61, 101, 243, 106, 171, 201, 116, 49, 177, 187, 228,
    194, 210, 246, 224, 228, 124, 166, 2, 3, 69, 47, 93, 97,
];

fn usdc() -> Address {
    Address { bytes: USDC }
}

fn signer() -> Address {
    jito_address()
}

fn auctioneer() -> Address {
    Address { bytes: [9u8; 32] }
}

fn program() -> Address {
    Address::token_program()
}

fn single(token_in: Address, now: u64) -> Result<IntentRequest, Failure> {
    escrow_and_store_intent_solana(
        &signer(),
        &auctioneer(),
        &program(),
        "abc123".to_string(),
        1_000_000,
        token_in,
        "0xdAC17F958D2ee523a2206206994597C13D831ec7".to_string(),
        "123456789012345678901234567890".to_string(),
        600,
        now,
    )
}

#[test]
fn single_domain_intent_pays_out_to_the_signer() {
    let request = single(usdc(), 1_700_000_000).unwrap();
    assert_eq!(request.payload.user_out, "96gYZGLnJYVFmbjzopPSU6QiEV5fGqZNyN9nmNhvrZU5");
    assert_eq!(request.payload.user_out, signer().to_base58());
    assert!(request.payload.single_domain);
    assert_eq!(request.payload.user_in, signer());
}

#[test]
fn cross_domain_intent_keeps_the_destination_verbatim() {
    let destination = "0x71C7656EC7ab88b098defB751B7401B5f6d8976F";
    let request = escrow_and_store_intent_cross_chain_solana(
        &signer(),
        &auctioneer(),
        &program(),
        "abc123".to_string(),
        5,
        usdc(),
        destination.to_string(),
        "tok".to_string(),
        "7".to_string(),
        60,
        100,
    )
    .unwrap();
    assert_eq!(request.payload.user_out, destination);
    assert!(!request.payload.single_domain);
    assert_eq!(request.payload.timeout_timestamp_in_sec, 160);
    let odd = escrow_and_store_intent_cross_chain_solana(
        &signer(),
        &auctioneer(),
        &program(),
        "abc123".to_string(),
        5,
        usdc(),
        "  not an address \u{1F980} ".to_string(),
        "tok".to_string(),
        "7".to_string(),
        60,
        100,
    )
    .unwrap();
    assert_eq!(odd.payload.user_out, "  not an address \u{1F980} ");
}

#[test]
fn request_of_a_token_intent() {
    let request = single(usdc(), 1_700_000_000).unwrap();
    assert!(!request.wrap_native);
    assert_eq!(request.payload.intent_id, "abc123");
    assert_eq!(request.payload.token_in, usdc());
    assert_eq!(request.payload.amount_in, 1_000_000);
    assert_eq!(request.payload.token_out, "0xdAC17F958D2ee523a2206206994597C13D831ec7");
    assert_eq!(request.payload.amount_out, "123456789012345678901234567890");
    assert_eq!(request.payload.timeout_timestamp_in_sec, 1_700_000_600);
    assert_eq!(request.accounts.user, signer());
    assert_eq!(request.accounts.auctioneer_state, auctioneer());
    assert_eq!(request.accounts.token_mint, usdc());
    assert_eq!(
        request.accounts.user_token_account.to_base58(),
        "4iFASyH3cDw3VyRDjtkYVzV26zsiH2f7aAhG92CAU1Fa"
    );
    assert_ne!(request.accounts.escrow_token_account, request.accounts.user_token_account);
    assert_eq!(
        request.accounts.intent,
        intent_record_address("abc123", &program()).unwrap()
    );
    assert_eq!(request.accounts.token_program, Address::token_program());
    assert_eq!(request.accounts.associated_token_program, Address::associated_token_program());
    assert_eq!(request.accounts.system_program, Address::system_program());
}

#[test]
fn native_coin_is_paid_in_its_wrapped_form() {
    let request = single(Address::system_program(), 1_700_000_000).unwrap();
    assert!(request.wrap_native);
    assert_eq!(request.payload.token_in, Address::native_mint());
    assert_eq!(request.accounts.token_mint, Address::native_mint());
    assert_eq!(request.accounts.user_token_account, wsol_account(&signer()));
    let wrapped = single(Address::native_mint(), 1_700_000_000).unwrap();
    assert!(!wrapped.wrap_native);
    assert_eq!(wrapped.payload, request.payload);
}

#[test]
fn only_the_native_coin_needs_wrapping() {
    assert!(needs_wrapping(&Address::system_program()));
    assert!(!needs_wrapping(&Address::native_mint()));
    assert!(!needs_wrapping(&usdc()));
    let mut almost = Address::system_program();
    almost.bytes[31] = 1;
    assert!(!needs_wrapping(&almost));
}

#[test]
fn identifier_without_record_address_is_a_precondition_failure() {
    let result = escrow_and_store_intent_solana(
        &signer(),
        &auctioneer(),
        &program(),
        "a".repeat(33),
        1,
        usdc(),
        "t".to_string(),
        "1".to_string(),
        1,
        1,
    );
    assert_eq!(
        result,
        Err(Failure::Precondition(
            "Unable to find a viable program address bump seed".to_string()
        ))
    );
}

#[test]
fn building_twice_gives_the_same_payload() {
    let build = || {
        IntentPayload::build(
            "Zx81qP".to_string(),
            signer(),
            "dest".to_string(),
            usdc(),
            77,
            "out".to_string(),
            "1000000000000000000000".to_string(),
            30,
            false,
            1_000,
        )
    };
    let first = build();
    let second = build();
    assert_eq!(first, second);
    assert_eq!(first.timeout_timestamp_in_sec, 1_030);
    assert_eq!(single(usdc(), 5), single(usdc(), 5));
    assert_ne!(single(usdc(), 5), single(usdc(), 6));
}

#[test]
fn deadline_is_the_time_of_building_plus_the_duration() {
    let payload = IntentPayload::build(
        "id".to_string(),
        signer(),
        "d".to_string(),
        usdc(),
        1,
        "o".to_string(),
        "2".to_string(),
        0,
        true,
        u64::MAX,
    );
    assert_eq!(payload.timeout_timestamp_in_sec, u64::MAX);
    let payload = IntentPayload::build(
        "id".to_string(),
        signer(),
        "d".to_string(),
        usdc(),
        1,
        "o".to_string(),
        "2".to_string(),
        u64::MAX - 7,
        true,
        7,
    );
    assert_eq!(payload.timeout_timestamp_in_sec, u64::MAX);
}

#[test]
fn deadline_does_not_move_during_retries() {
    let config = DeliveryConfig::mainnet();
    let request = single(usdc(), 1_700_000_000).unwrap();
    let mut submission = Submission::begin(request.clone(), TxSendMethod::JITO);
    assert_eq!(submission.outcome(), None);
    let ambiguous = "unable to confirm transaction";
    let mut events = vec![DeliveryEvent::Failed("relay down".to_string()); 5];
    events.push(DeliveryEvent::Resumed);
    for _ in 0..4 {
        events.push(DeliveryEvent::Failed(ambiguous.to_string()));
        events.push(DeliveryEvent::Resumed);
    }
    events.push(DeliveryEvent::Failed(ambiguous.to_string()));
    for event in events {
        submission = submission.advance(&config, event);
        assert_eq!(submission.request, request);
        assert_eq!(submission.request.payload.timeout_timestamp_in_sec, 1_700_000_600);
    }
    assert_eq!(
        submission.outcome(),
        Some(Err("Failed to send transaction: unable to confirm transaction".to_string()))
    );
}

#[test]
fn submission_ends_with_the_identifier() {
    let config = DeliveryConfig::mainnet();
    let request = single(usdc(), 1).unwrap();
    let submission = Submission::begin(request, TxSendMethod::RPC);
    assert_eq!(
        submission.delivery,
        DeliveryState::Attempting { path: TxSendMethod::RPC, attempt: 1 }
    );
    let signature = Signature { bytes: [3u8; 64] };
    let submission = submission.advance(&config, DeliveryEvent::Landed(vec![signature]));
    assert_eq!(submission.outcome(), Some(Ok(signature)));
}

#[test]
fn random_identifier_has_six_letters_or_digits() {
    for _ in 0..200 {
        let id = generate_random_intent_id();
        assert_eq!(id.len(), 6);
        assert!(id.chars().all(|c| c.is_ascii_alphanumeric()));
    }
    let ids: Vec<String> = (0..50).map(|_| generate_random_intent_id()).collect();
    assert!(ids.iter().any(|id| *id != ids[0]));
}

#[test]
fn quote_data_holds_what_it_is_given() {
    let query = Query {
        src_chain: "solana".to_string(),
        dst_chain: "ethereum".to_string(),
        token_in: "a".to_string(),
        token_out: "b".to_string(),
        amount: "10".to_string(),
        src_address: "s".to_string(),
        dst_address: "d".to_string(),
    };
    assert_eq!(query.clone(), query);
    let mean = MeanQuote { token: "b".to_string(), amount: "9".to_string() };
    let response = QuoteResponse {
        mean_output: mean.clone(),
        outputs: vec![Quote { solver_id: "one".to_string(), quote: mean }],
    };
    assert_eq!(response.outputs[0].quote, response.mean_output);
    assert_ne!(
        QueryError::HttpError("x".to_string()),
        QueryError::AuctioneerError("x".to_string())
    );
}
