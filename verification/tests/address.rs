use intent_client::address::Address;
use intent_client::delivery::{jito_address, DeliveryConfig, JITO_BLOCK_ENGINE_URL, JITO_TIP_AMOUNT, RETRIES};
use intent_client::intent::{auctioneer_state_address, intent_record_address};
use intent_client::wsol::wsol_account;
use solana_program::pubkey::Pubkey;
use std::str::FromStr;

fn address_of(text: &str) -> Address {
    Address { bytes: Pubkey::from_str(text).unwrap().to_bytes() }
}

#[test]
fn well_known_addresses_match_their_base58_text() {
    assert_eq!(Address::system_program().to_base58(), "11111111111111111111111111111111");
    assert_eq!(Address::native_mint().to_base58(), "So11111111111111111111111111111111111111112");
    assert_eq!(Address::token_program().to_base58(), "TokenkegQfeZyiNwAJbNbGKPFXCWuBvf9Ss623VQ5DA");
    assert_eq!(
        Address::associated_token_program().to_base58(),
        "ATokenGPvbdGVxr1b2hvZbsiqW5xWH25efTNsLJA8knL"
    );
    assert_eq!(jito_address().to_base58(), "96gYZGLnJYVFmbjzopPSU6QiEV5fGqZNyN9nmNhvrZU5");
}

#[test]
fn well_known_addresses_match_the_programs() {
    assert_eq!(Address::token_program().bytes, spl_token::ID.to_bytes());
    assert_eq!(
        Address::associated_token_program().bytes,
        spl_associated_token_account::ID.to_bytes()
    );
    assert_eq!(Address::system_program().bytes, solana_program::system_program::ID.to_bytes());
    assert_eq!(Address::native_mint().bytes, spl_token::native_mint::ID.to_bytes());
}

#[test]
fn base58_of_counting_bytes() {
    let mut bytes = [0u8; 32];
    for (i, b) in bytes.iter_mut().enumerate() {
        *b = i as u8;
    }
    assert_eq!(Address { bytes }.to_base58(), "1thX6LZfHDZZKUs92febYZhYRcXddmzfzF2NvTkPNE");
}

#[test]
fn same_as_compares_every_byte() {
    let a = Address::native_mint();
    let mut b = a;
    assert!(a.same_as(&b));
    b.bytes[31] = 2;
    assert!(!a.same_as(&b));
    b = a;
    b.bytes[0] = 7;
    assert!(!a.same_as(&b));
    assert!(!Address::system_program().same_as(&Address::native_mint()));
}

#[test]
fn wsol_account_is_the_associated_token_account() {
    let payer = jito_address();
    let account = wsol_account(&payer);
    assert_eq!(account.to_base58(), "3Q1p6z1HBAxjP6EtDocdd5vVvncsy28MBjoU4i9DytBu");
    let expected = spl_associated_token_account::get_associated_token_address(
        &Pubkey::new_from_array(payer.bytes),
        &spl_token::native_mint::ID,
    );
    assert_eq!(account.bytes, expected.to_bytes());
    assert_ne!(account, payer);
}

#[test]
fn intent_record_address_is_derived_from_tag_and_identifier() {
    let program = Address::token_program();
    let found = intent_record_address("abc123", &program).unwrap();
    assert_eq!(found.to_base58(), "5sXn4gaV5fqFY933mHHFATNa8GDnYw5tHnMd1AfraS5S");
    let expected = Pubkey::find_program_address(
        &[b"intent", "abc123".as_bytes()],
        &Pubkey::new_from_array(program.bytes),
    )
    .0;
    assert_eq!(found.bytes, expected.to_bytes());
    let other = intent_record_address("abc124", &program).unwrap();
    assert_ne!(found, other);
}

#[test]
fn intent_record_address_needs_a_short_identifier() {
    let program = Address::token_program();
    let long = "a".repeat(33);
    assert_eq!(intent_record_address(&long, &program), None);
    let longest = "a".repeat(32);
    assert!(intent_record_address(&longest, &program).is_some());
}

#[test]
fn mainnet_configuration_holds_the_fixed_values() {
    let config = DeliveryConfig::mainnet();
    assert_eq!(config.retry_budget, 5);
    assert_eq!(RETRIES, 5);
    assert_eq!(config.backoff_secs, 1);
    assert!(config.skip_preflight);
    assert_eq!(config.tip_amount, 10000);
    assert_eq!(JITO_TIP_AMOUNT, 10000);
    assert_eq!(config.tip_address, address_of("96gYZGLnJYVFmbjzopPSU6QiEV5fGqZNyN9nmNhvrZU5"));
    assert_eq!(config.relay_endpoint, "https://mainnet.block-engine.jito.wtf");
    assert_eq!(JITO_BLOCK_ENGINE_URL, "https://mainnet.block-engine.jito.wtf");
}

#[test]
fn auctioneer_state_is_derived_from_its_tag() {
    let program = Address::token_program();
    let found = auctioneer_state_address(&program).unwrap();
    assert_eq!(found.to_base58(), "D7cuz19c4zDHSEd6G2BtMosuo4ZELDuA3J3oBg5cAkb9");
    let expected = Pubkey::find_program_address(
        &[b"auctioneer"],
        &Pubkey::new_from_array(program.bytes),
    )
    .0;
    assert_eq!(found.bytes, expected.to_bytes());
}

#[test]
fn base58_text_is_read_back() {
    assert_eq!(
        Address::from_base58("So11111111111111111111111111111111111111112"),
        Some(Address::native_mint())
    );
    assert_eq!(
        Address::from_base58("11111111111111111111111111111111"),
        Some(Address::system_program())
    );
    assert_eq!(Address::from_base58(""), None);
    assert_eq!(Address::from_base58("So1111111111111111111111111111111111111111"), None);
    assert_eq!(Address::from_base58("So1111111111111111111111111111111111111111O"), None);
    assert_eq!(Address::from_base58("So111111111111111111111111111111111111111122222"), None);
}
