use intent_client::ethereum::{
    address_text, approval_report, escrow_and_store_intent_ethereum, EthereumIntent,
};

const USDT: [u8; 20] = [
    0xda, 0xc1, 0x7f, 0x95, 0x8d, 0x2e, 0xe5, 0x23, 0xa2, 0x20, 0x62, 0x06, 0x99, 0x45, 0x97,
    0xc1, 0x3d, 0x83, 0x1e, 0xc7,
];

const SENDER: [u8; 20] = [
    0x00, 0x01, 0x0a, 0x0f, 0x10, 0x9f, 0xa0, 0xff, 0x71, 0xc7, 0x65, 0x6e, 0xc7, 0xab, 0x88,
    0xb0, 0x98, 0xde, 0xfb, 0x75,
];

#[test]
fn address_text_is_lower_case_hexadecimal() {
    assert_eq!(address_text(&USDT), "0xdac17f958d2ee523a2206206994597c13d831ec7");
    assert_eq!(address_text(&SENDER), "0x00010a0f109fa0ff71c7656ec7ab88b098defb75");
    assert_eq!(address_text(&[0u8; 20]), "0x0000000000000000000000000000000000000000");
    assert_eq!(address_text(&[255u8; 20]), "0xffffffffffffffffffffffffffffffffffffffff");
}

#[test]
fn single_domain_ethereum_intent_pays_out_to_the_sender() {
    let intent = escrow_and_store_intent_ethereum(
        SENDER,
        USDT,
        1_000,
        "0xA0b86991c6218b36c1d19D4a2e9Eb0cE3606eB48".to_string(),
        990,
        String::new(),
        true,
        3_600,
    );
    assert_eq!(
        intent,
        EthereumIntent {
            token_in: USDT,
            amount_in: 1_000,
            src_user: SENDER,
            token_out: "0xA0b86991c6218b36c1d19D4a2e9Eb0cE3606eB48".to_string(),
            amount_out: 990,
            dst_user: "0x00010a0f109fa0ff71c7656ec7ab88b098defb75".to_string(),
            winner_solver: String::new(),
            timeout: 3_600,
        }
    );
}

#[test]
fn cross_domain_ethereum_intent_keeps_the_destination() {
    let intent = escrow_and_store_intent_ethereum(
        SENDER,
        USDT,
        1,
        "So11111111111111111111111111111111111111112".to_string(),
        2,
        "96gYZGLnJYVFmbjzopPSU6QiEV5fGqZNyN9nmNhvrZU5".to_string(),
        false,
        3,
    );
    assert_eq!(intent.dst_user, "96gYZGLnJYVFmbjzopPSU6QiEV5fGqZNyN9nmNhvrZU5");
    assert_eq!(intent.winner_solver, "");
    assert_eq!((intent.amount_in, intent.amount_out, intent.timeout), (1, 2, 3));
}

#[test]
fn approval_report_puts_the_hint_first() {
    assert_eq!(
        approval_report("nonce too low"),
        "Transaction failed ** Remember you need to approve <TOKEN_IN> to Escrow SC 0x64E78873057769a5fd9A2278E6820666ec7e87f9 **: nonce too low"
    );
}
