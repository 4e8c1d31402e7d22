use paystell::address::Address;
use paystell::payment::contract::{ContractEnv, PaymentProcessingContract};
use paystell::payment::types::{MerchantCategory, PaymentOrder, PaymentQueryParams};

fn addr(s: &str) -> Address {
    Address::from_bytes(s.as_bytes().to_vec())
}

fn text(s: &str) -> Vec<u8> {
    s.as_bytes().to_vec()
}

struct Setup {
    env: ContractEnv,
    admin: Address,
    merchant: Address,
    payer: Address,
    token: Address,
}

fn setup_test_environment() -> Setup {
    let mut env = ContractEnv::new(0);
    let admin = addr("GADMIN");
    let merchant = addr("GMERCHANT");
    let payer = addr("GPAYER");
    let fee_collector = addr("GCOLLECTOR");
    let token = addr("CTOKEN");
    PaymentProcessingContract::set_admin(&mut env, admin.clone()).unwrap();
    PaymentProcessingContract::set_fee(&mut env, 5, fee_collector, token.clone()).unwrap();
    PaymentProcessingContract::register_merchant(
        &mut env,
        merchant.clone(),
        text("Test Merchant"),
        text("A test merchant"),
        text("contact@test.com"),
        MerchantCategory::Retail,
    )
    .unwrap();
    PaymentProcessingContract::add_supported_token(&mut env, merchant.clone(), token.clone()).unwrap();
    Setup { env, admin, merchant, payer, token }
}

fn pay(s: &mut Setup, amount: i64, nonce: u32, order_id: &str, token: &Address) {
    let order = PaymentOrder {
        merchant_address: s.merchant.clone(),
        amount,
        token: token.clone(),
        nonce,
        expiration: s.env.timestamp as u32 + 3600,
        order_id: text(order_id),
        fee_amount: 50,
    };
    PaymentProcessingContract::process_payment_with_signature(&mut s.env, s.payer.clone(), order, vec![0u8; 64], vec![0u8; 32]).unwrap();
}

#[test]
fn test_payment_history_recording() {
    let mut s = setup_test_environment();
    let token = s.token.clone();
    pay(&mut s, 1000, 1, "ORDER001", &token);
    let payment = PaymentProcessingContract::get_payment_by_order_id(&s.env, text("ORDER001")).unwrap();
    assert_eq!(payment.amount, 1000);
    assert_eq!(payment.merchant_address, s.merchant);
    assert_eq!(payment.payer_address, s.payer);
}

#[test]
fn test_merchant_payment_history_query() {
    let mut s = setup_test_environment();
    let token = s.token.clone();
    for i in 1..=5u32 {
        pay(&mut s, 1000 + (i as i64 * 100), i, &format!("ORDER{:03}", i), &token);
    }
    let history = PaymentProcessingContract::get_merchant_payment_history(&s.env, s.merchant.clone(), 10, 0).unwrap();
    assert_eq!(history.len(), 5);
    let page1 = PaymentProcessingContract::get_merchant_payment_history(&s.env, s.merchant.clone(), 2, 0).unwrap();
    assert_eq!(page1.len(), 2);
    let page2 = PaymentProcessingContract::get_merchant_payment_history(&s.env, s.merchant.clone(), 2, 2).unwrap();
    assert_eq!(page2.len(), 2);
}

#[test]
fn test_payer_payment_history_query() {
    let mut s = setup_test_environment();
    let token = s.token.clone();
    for i in 1..=3u32 {
        pay(&mut s, 2000 + (i as i64 * 100), i, &format!("ORDER{:03}", i), &token);
    }
    let history = PaymentProcessingContract::get_payer_payment_history(&s.env, s.payer.clone(), 10, 0).unwrap();
    assert_eq!(history.len(), 3);
    assert_eq!(history[0].amount, 2100);
    assert_eq!(history[1].amount, 2200);
    assert_eq!(history[2].amount, 2300);
}

#[test]
fn test_payment_query_with_filters() {
    let mut s = setup_test_environment();
    let token = s.token.clone();
    for i in 1..=5u32 {
        pay(&mut s, i as i64 * 1000, i, &format!("ORDER{:03}", i), &token);
    }
    let params = PaymentQueryParams {
        start_time: None,
        end_time: None,
        min_amount: Some(2000),
        max_amount: Some(4000),
        token: None,
        limit: 10,
        offset: 0,
    };
    let filtered = PaymentProcessingContract::query_payments(&s.env, params).unwrap();
    assert_eq!(filtered.len(), 3);
}

#[test]
fn test_merchant_payment_stats() {
    let mut s = setup_test_environment();
    let token = s.token.clone();
    let mut total_amount = 0i128;
    for i in 1..=5u32 {
        let amount = 1000 + (i * 100);
        total_amount += amount as i128;
        pay(&mut s, amount as i64, i, &format!("ORDER{:03}", i), &token);
    }
    let stats = PaymentProcessingContract::get_merchant_payment_stats(&s.env, s.merchant.clone()).unwrap();
    assert_eq!(stats.payment_count, 5);
    assert_eq!(stats.total_received, total_amount);
    assert_eq!(stats.merchant_address, s.merchant);
}

#[test]
fn test_payer_payment_stats() {
    let mut s = setup_test_environment();
    let token = s.token.clone();
    let mut total_spent = 0i128;
    for i in 1..=3u32 {
        let amount = 2000 + (i * 100);
        total_spent += amount as i128;
        pay(&mut s, amount as i64, i, &format!("ORDER{:03}", i), &token);
    }
    let stats = PaymentProcessingContract::get_payer_payment_stats(&s.env, s.payer.clone()).unwrap();
    assert_eq!(stats.payment_count, 3);
    assert_eq!(stats.total_spent, total_spent);
    assert_eq!(stats.payer_address, s.payer);
}

#[test]
fn test_global_payment_stats() {
    let mut s = setup_test_environment();
    let token = s.token.clone();
    for i in 1..=5u32 {
        pay(&mut s, 1000 + (i as i64 * 100), i, &format!("ORDER{:03}", i), &token);
    }
    let stats = PaymentProcessingContract::get_global_payment_stats(&s.env).unwrap();
    assert_eq!(stats.total_payments, 5);
    assert!(stats.total_volume > 0);
    assert!(stats.average_payment > 0);
}

#[test]
fn test_payments_by_time_range() {
    let mut s = setup_test_environment();
    let token = s.token.clone();
    let start_time = s.env.timestamp;
    for i in 1..=3u32 {
        s.env.timestamp = start_time + (i as u64 * 86400);
        pay(&mut s, 1000 + (i as i64 * 100), i, &format!("ORDER{:03}", i), &token);
    }
    let end_time = start_time + (4 * 86400);
    let buckets = PaymentProcessingContract::get_payments_by_time_range(&s.env, start_time, end_time).unwrap();
    assert!(buckets.len() > 0);
}

#[test]
fn test_payments_by_token() {
    let mut s = setup_test_environment();
    let token = s.token.clone();
    let token2 = addr("CTOKEN2");
    PaymentProcessingContract::add_supported_token(&mut s.env, s.merchant.clone(), token2.clone()).unwrap();
    for i in 1..=3u32 {
        pay(&mut s, 1000, i, &format!("ORDER1_{:03}", i), &token);
    }
    for i in 4..=5u32 {
        pay(&mut s, 2000, i, &format!("ORDER2_{:03}", i), &token2);
    }
    let token1_payments = PaymentProcessingContract::get_payments_by_token(&s.env, token.clone(), 10, 0).unwrap();
    assert_eq!(token1_payments.len(), 3);
    let token2_payments = PaymentProcessingContract::get_payments_by_token(&s.env, token2, 10, 0).unwrap();
    assert_eq!(token2_payments.len(), 2);
}

#[test]
fn test_archive_old_payments() {
    let mut s = setup_test_environment();
    let token = s.token.clone();
    let current_time = s.env.timestamp;
    pay(&mut s, 1000, 1, "ORDER001", &token);
    let cutoff_time = current_time + 86400;
    s.env.timestamp = cutoff_time + 100;
    PaymentProcessingContract::archive_old_payments(&mut s.env, s.admin.clone(), cutoff_time).unwrap();
    let payment = PaymentProcessingContract::get_payment_by_order_id(&s.env, text("ORDER001")).unwrap();
    assert_eq!(payment.amount, 1000);
}

#[test]
#[should_panic(expected = "InvalidAmount")]
fn test_invalid_pagination_limit() {
    let s = setup_test_environment();
    PaymentProcessingContract::get_merchant_payment_history(&s.env, s.merchant.clone(), 101, 0).unwrap();
}

#[test]
#[should_panic(expected = "InvalidAmount")]
fn test_invalid_pagination_zero_limit() {
    let s = setup_test_environment();
    PaymentProcessingContract::get_merchant_payment_history(&s.env, s.merchant.clone(), 0, 0).unwrap();
}
