use paystell::address::Address;
use paystell::payment::contract::{ContractEnv, PaymentProcessingContract};
use paystell::payment::error::PaymentError;
use paystell::payment::types::{
    BatchMerchantRegistration, BatchPayment, BatchTokenAddition, MerchantCategory, PaymentOrder, TokenTransfer,
};

fn addr(s: &str) -> Address {
    Address::from_bytes(s.as_bytes().to_vec())
}

fn text(s: &str) -> Vec<u8> {
    s.as_bytes().to_vec()
}

fn register(env: &mut ContractEnv, merchant: &Address) {
    PaymentProcessingContract::register_merchant(
        env,
        merchant.clone(),
        text("Test Merchant"),
        text("A test merchant"),
        text("contact@test.com"),
        MerchantCategory::Retail,
    )
    .unwrap();
}

fn received(transfers: &[TokenTransfer], who: &Address) -> i128 {
    transfers.iter().filter(|t| &t.to == who).map(|t| t.amount).sum()
}

fn paid(transfers: &[TokenTransfer], who: &Address) -> i128 {
    transfers.iter().filter(|t| &t.from == who).map(|t| t.amount).sum()
}

fn create_payment_order(env: &ContractEnv, merchant: &Address, amount: i64, token: &Address, expiration: u32) -> PaymentOrder {
    PaymentOrder {
        merchant_address: merchant.clone(),
        amount,
        token: token.clone(),
        nonce: env.timestamp as u32,
        expiration,
        order_id: text("TEST_ORDER_1"),
        fee_amount: 0,
    }
}

#[test]
fn test_fee_management() {
    let mut env = ContractEnv::new(0);
    let admin = addr("GADMIN");
    let fee_collector = addr("GCOLLECTOR");
    let fee_token = addr("CFEETOKEN");
    PaymentProcessingContract::set_admin(&mut env, admin.clone()).unwrap();
    PaymentProcessingContract::set_fee(&mut env, 5, fee_collector.clone(), fee_token.clone()).unwrap();
    let (rate, collector, token) = PaymentProcessingContract::get_fee_info(&env).unwrap();
    assert_eq!(rate, 5);
    assert_eq!(collector, fee_collector);
    assert_eq!(token, fee_token);
}

#[test]
#[should_panic]
fn test_set_fee_no_admin() {
    let mut env = ContractEnv::new(0);
    let fee_collector = addr("GCOLLECTOR");
    let fee_token = addr("CFEETOKEN");
    PaymentProcessingContract::set_fee(&mut env, 5, fee_collector, fee_token).unwrap();
}

#[test]
#[should_panic]
fn test_invalid_fee_rate() {
    let mut env = ContractEnv::new(0);
    let admin = addr("GADMIN");
    PaymentProcessingContract::set_admin(&mut env, admin).unwrap();
    PaymentProcessingContract::set_fee(&mut env, 11, addr("GCOLLECTOR"), addr("CFEETOKEN")).unwrap();
}

#[test]
fn test_payment_with_fees() {
    let mut env = ContractEnv::new(0);
    let merchant = addr("GMERCHANT");
    let admin = addr("GADMIN");
    let fee_collector = addr("GCOLLECTOR");
    let token = addr("CTOKEN");
    let payer = addr("GPAYER");
    let payment_amount = 1000_i128;
    register(&mut env, &merchant);
    PaymentProcessingContract::add_supported_token(&mut env, merchant.clone(), token.clone()).unwrap();
    PaymentProcessingContract::set_admin(&mut env, admin).unwrap();
    PaymentProcessingContract::set_fee(&mut env, 5, fee_collector.clone(), token.clone()).unwrap();
    let order = PaymentOrder {
        merchant_address: merchant.clone(),
        amount: payment_amount as i64,
        token: token.clone(),
        nonce: 12345u32,
        expiration: (env.timestamp + 1000) as u32,
        fee_amount: 0,
        order_id: text("TEST_ORDER_1"),
    };
    PaymentProcessingContract::process_payment_with_signature(&mut env, payer.clone(), order, vec![0u8; 64], vec![0u8; 32]).unwrap();
    let expected_fee = payment_amount * 5 / 100;
    let expected_merchant_amount = payment_amount - expected_fee;
    assert_eq!(received(&env.transfers, &merchant), expected_merchant_amount);
    assert_eq!(received(&env.transfers, &fee_collector), expected_fee);
    assert_eq!(payment_amount - paid(&env.transfers, &payer), 0);
}

#[test]
fn test_register_merchant() {
    let mut env = ContractEnv::new(0);
    let merchant = addr("GMERCHANT");
    register(&mut env, &merchant);
    assert_eq!(env.auths.len(), 1);
    assert_eq!(env.auths[0], merchant);
}

#[test]
fn test_add_supported_token() {
    let mut env = ContractEnv::new(0);
    let merchant = addr("GMERCHANT");
    let token = addr("CTOKEN");
    register(&mut env, &merchant);
    PaymentProcessingContract::add_supported_token(&mut env, merchant, token).unwrap();
}

#[test]
#[should_panic]
fn test_add_token_to_nonexistent_merchant() {
    let mut env = ContractEnv::new(0);
    PaymentProcessingContract::add_supported_token(&mut env, addr("GMERCHANT"), addr("CTOKEN")).unwrap();
}

#[test]
fn test_successful_payment_with_signature() {
    let mut env = ContractEnv::new(0);
    let merchant = addr("GMERCHANT");
    let admin = addr("GADMIN");
    let fee_collector = addr("GCOLLECTOR");
    let token = addr("CTOKEN");
    let payer = addr("GPAYER");
    let amount = 100_i128;
    register(&mut env, &merchant);
    PaymentProcessingContract::add_supported_token(&mut env, merchant.clone(), token.clone()).unwrap();
    PaymentProcessingContract::set_admin(&mut env, admin).unwrap();
    PaymentProcessingContract::set_fee(&mut env, 5, fee_collector.clone(), token.clone()).unwrap();
    let order = PaymentOrder {
        merchant_address: merchant.clone(),
        amount: amount as i64,
        token: token.clone(),
        nonce: 12345u32,
        expiration: (env.timestamp + 1000) as u32,
        order_id: text("TEST_ORDER_1"),
        fee_amount: 0,
    };
    PaymentProcessingContract::process_payment_with_signature(&mut env, payer.clone(), order, vec![0u8; 64], vec![0u8; 32]).unwrap();
    let expected_fee = amount * 5 / 100;
    let expected_merchant_amount = amount - expected_fee;
    assert_eq!(received(&env.transfers, &merchant), expected_merchant_amount);
    assert_eq!(received(&env.transfers, &fee_collector), expected_fee);
    assert_eq!(amount - paid(&env.transfers, &payer), 0);
}

#[test]
#[should_panic]
fn test_expired_order() {
    let mut env = ContractEnv::new(0);
    let merchant = addr("GMERCHANT");
    let token = addr("CTOKEN");
    register(&mut env, &merchant);
    PaymentProcessingContract::add_supported_token(&mut env, merchant.clone(), token.clone()).unwrap();
    let current_time = env.timestamp;
    let expired_time = (current_time - 1000) as u32;
    let order = create_payment_order(&env, &merchant, 100, &token, expired_time);
    PaymentProcessingContract::process_payment_with_signature(&mut env, addr("GPAYER"), order, vec![0u8; 64], vec![0u8; 32]).unwrap();
}

#[test]
#[should_panic]
fn test_duplicate_nonce() {
    let mut env = ContractEnv::new(0);
    let merchant = addr("GMERCHANT");
    let token = addr("CTOKEN");
    let payer = addr("GPAYER");
    let amount = 100_i128;
    register(&mut env, &merchant);
    PaymentProcessingContract::add_supported_token(&mut env, merchant.clone(), token.clone()).unwrap();
    let expiration = (env.timestamp + 1000) as u32;
    let order = create_payment_order(&env, &merchant, amount as i64, &token, expiration);
    PaymentProcessingContract::process_payment_with_signature(&mut env, payer.clone(), order.clone(), vec![0u8; 64], vec![0u8; 32]).unwrap();
    PaymentProcessingContract::process_payment_with_signature(&mut env, payer, order, vec![0u8; 64], vec![0u8; 32]).unwrap();
}

#[test]
#[should_panic]
fn test_unsupported_token() {
    let mut env = ContractEnv::new(0);
    let merchant = addr("GMERCHANT");
    let token = addr("CTOKEN");
    register(&mut env, &merchant);
    let expiration = (env.timestamp + 1000) as u32;
    let order = create_payment_order(&env, &merchant, 100, &token, expiration);
    PaymentProcessingContract::process_payment_with_signature(&mut env, addr("GPAYER"), order, vec![0u8; 64], vec![0u8; 32]).unwrap();
}

#[test]
fn test_batch_register_merchants() {
    let mut env = ContractEnv::new(0);
    let merchants = vec![addr("GM1"), addr("GM2"), addr("GM3")];
    let batch = BatchMerchantRegistration { merchants: merchants.clone() };
    PaymentProcessingContract::batch_register_merchants(&mut env, batch).unwrap();
    for merchant in merchants.iter() {
        let merchant_info = PaymentProcessingContract::get_merchant_info(&env, merchant.clone()).unwrap();
        assert!(merchant_info.active);
    }
}

#[test]
fn test_batch_add_tokens() {
    let mut env = ContractEnv::new(0);
    let merchant = addr("GMERCHANT");
    let tokens = vec![addr("CT1"), addr("CT2"), addr("CT3")];
    register(&mut env, &merchant);
    let batch = BatchTokenAddition { merchant: merchant.clone(), tokens: tokens.clone() };
    PaymentProcessingContract::batch_add_tokens(&mut env, batch).unwrap();
    for token in tokens.iter() {
        assert!(PaymentProcessingContract::is_token_supported(&env, merchant.clone(), token.clone()).unwrap());
    }
    assert_eq!(PaymentProcessingContract::get_merchant_token_count(&env, merchant).unwrap(), 3);
}

#[test]
fn test_batch_process_payments() {
    let mut env = ContractEnv::new(0);
    let merchant = addr("GMERCHANT");
    let token = addr("CTOKEN");
    let payer = addr("GPAYER");
    register(&mut env, &merchant);
    PaymentProcessingContract::add_supported_token(&mut env, merchant.clone(), token.clone()).unwrap();
    let make = |amount: i64, nonce: u32, id: &str| PaymentOrder {
        merchant_address: merchant.clone(),
        amount,
        token: token.clone(),
        nonce,
        expiration: 1000,
        order_id: text(id),
        fee_amount: 0,
    };
    let orders = vec![make(100, 1, "ORDER_1"), make(200, 2, "ORDER_2"), make(300, 3, "ORDER_3")];
    let batch = BatchPayment {
        payer: payer.clone(),
        orders: orders.clone(),
        signatures: vec![vec![4u8; 64], vec![5u8; 64], vec![6u8; 64]],
        merchant_public_key: vec![7u8; 32],
    };
    PaymentProcessingContract::batch_process_payments(&mut env, batch).unwrap();
    assert_eq!(received(&env.transfers, &merchant), 600);
    assert_eq!(600 - paid(&env.transfers, &payer), 0);
    for order in orders.iter() {
        let tracker = PaymentProcessingContract::get_nonce_tracker(&env, merchant.clone()).unwrap();
        assert!(tracker.is_some());
        assert!(tracker.unwrap().is_nonce_used(order.nonce));
    }
}

#[test]
fn test_gas_estimation() {
    let order = PaymentOrder {
        merchant_address: addr("GMERCHANT"),
        amount: 100,
        token: addr("CTOKEN"),
        nonce: 1,
        expiration: 1000,
        order_id: text("TEST_ORDER"),
        fee_amount: 0,
    };
    let estimate = PaymentProcessingContract::estimate_gas_for_payment(&order).unwrap();
    assert!(estimate.total_estimated > 0);
    assert!(estimate.base_gas > 0);
    assert!(estimate.per_item_gas > 0);
    let batch_estimate = PaymentProcessingContract::estimate_gas_for_batch_operation(&text("proc_pay"), 3).unwrap();
    assert!(batch_estimate.total_estimated > estimate.total_estimated);
}

#[test]
fn test_view_functions() {
    let mut env = ContractEnv::new(0);
    let merchant = addr("GMERCHANT");
    let token = addr("CTOKEN");
    register(&mut env, &merchant);
    PaymentProcessingContract::add_supported_token(&mut env, merchant.clone(), token.clone()).unwrap();
    let merchant_info = PaymentProcessingContract::get_merchant_info(&env, merchant.clone()).unwrap();
    assert!(merchant_info.active);
    assert_eq!(merchant_info.supported_tokens.len(), 1);
    let token_count = PaymentProcessingContract::get_merchant_token_count(&env, merchant.clone()).unwrap();
    assert_eq!(token_count, 1);
    assert!(PaymentProcessingContract::is_token_supported(&env, merchant.clone(), token).unwrap());
    let tracker = PaymentProcessingContract::get_nonce_tracker(&env, merchant).unwrap();
    assert!(tracker.is_none());
}

#[test]
fn test_merchant_activation_deactivation() {
    let mut env = ContractEnv::new(0);
    let merchant = addr("GMERCHANT");
    register(&mut env, &merchant);
    assert!(PaymentProcessingContract::get_merchant_info(&env, merchant.clone()).unwrap().active);
    PaymentProcessingContract::deactivate_merchant(&mut env, merchant.clone()).unwrap();
    assert!(!PaymentProcessingContract::get_merchant_info(&env, merchant.clone()).unwrap().active);
    PaymentProcessingContract::activate_merchant(&mut env, merchant.clone()).unwrap();
    assert!(PaymentProcessingContract::get_merchant_info(&env, merchant).unwrap().active);
}

#[test]
fn test_token_removal() {
    let mut env = ContractEnv::new(0);
    let merchant = addr("GMERCHANT");
    let token1 = addr("CT1");
    let token2 = addr("CT2");
    register(&mut env, &merchant);
    PaymentProcessingContract::add_supported_token(&mut env, merchant.clone(), token1.clone()).unwrap();
    PaymentProcessingContract::add_supported_token(&mut env, merchant.clone(), token2.clone()).unwrap();
    assert_eq!(PaymentProcessingContract::get_merchant_token_count(&env, merchant.clone()).unwrap(), 2);
    assert!(PaymentProcessingContract::is_token_supported(&env, merchant.clone(), token1.clone()).unwrap());
    assert!(PaymentProcessingContract::is_token_supported(&env, merchant.clone(), token2.clone()).unwrap());
    PaymentProcessingContract::remove_supported_token(&mut env, merchant.clone(), token1.clone()).unwrap();
    assert_eq!(PaymentProcessingContract::get_merchant_token_count(&env, merchant.clone()).unwrap(), 1);
    assert!(!PaymentProcessingContract::is_token_supported(&env, merchant.clone(), token1).unwrap());
    assert!(PaymentProcessingContract::is_token_supported(&env, merchant, token2).unwrap());
}

#[test]
fn test_nonce_bitmap_optimization() {
    let mut env = ContractEnv::new(0);
    let merchant = addr("GMERCHANT");
    let admin = addr("GADMIN");
    let token = addr("CTOKEN");
    let payer = addr("GPAYER");
    register(&mut env, &merchant);
    PaymentProcessingContract::add_supported_token(&mut env, merchant.clone(), token.clone()).unwrap();
    PaymentProcessingContract::set_admin(&mut env, admin.clone()).unwrap();
    PaymentProcessingContract::set_fee(&mut env, 0, admin, token.clone()).unwrap();
    for i in 1..=10u32 {
        let order = PaymentOrder {
            merchant_address: merchant.clone(),
            amount: 100,
            token: token.clone(),
            nonce: i,
            expiration: 1000,
            order_id: text("ORDER_TEST"),
            fee_amount: 0,
        };
        PaymentProcessingContract::process_payment_with_signature(&mut env, payer.clone(), order, vec![0u8; 64], vec![0u8; 32]).unwrap();
    }
    let tracker = PaymentProcessingContract::get_nonce_tracker(&env, merchant).unwrap();
    assert!(tracker.is_some());
    let tracker = tracker.unwrap();
    for i in 1..=10 {
        assert!(tracker.is_nonce_used(i));
    }
    assert!(!tracker.is_nonce_used(11));
}

#[test]
fn duplicate_nonce_is_refused_with_nonce_already_used() {
    let mut env = ContractEnv::new(0);
    let merchant = addr("GMERCHANT");
    let token = addr("CTOKEN");
    register(&mut env, &merchant);
    PaymentProcessingContract::add_supported_token(&mut env, merchant.clone(), token.clone()).unwrap();
    PaymentProcessingContract::set_admin(&mut env, addr("GADMIN")).unwrap();
    PaymentProcessingContract::set_fee(&mut env, 0, addr("GADMIN"), token.clone()).unwrap();
    let order = create_payment_order(&env, &merchant, 100, &token, 1000);
    PaymentProcessingContract::process_payment_with_signature(&mut env, addr("GPAYER"), order.clone(), vec![0u8; 64], vec![0u8; 32]).unwrap();
    let transfers = env.transfers.len();
    let r = PaymentProcessingContract::process_payment_with_signature(&mut env, addr("GPAYER"), order, vec![0u8; 64], vec![0u8; 32]);
    assert_eq!(r, Err(PaymentError::NonceAlreadyUsed));
    assert_eq!(env.transfers.len(), transfers);
}

#[test]
fn expired_order_is_refused() {
    let mut env = ContractEnv::new(5000);
    let merchant = addr("GMERCHANT");
    let token = addr("CTOKEN");
    register(&mut env, &merchant);
    PaymentProcessingContract::add_supported_token(&mut env, merchant.clone(), token.clone()).unwrap();
    let order = create_payment_order(&env, &merchant, 100, &token, 4000);
    assert_eq!(
        PaymentProcessingContract::process_payment_with_signature(&mut env, addr("GPAYER"), order, vec![0u8; 64], vec![0u8; 32]),
        Err(PaymentError::OrderExpired)
    );
}
