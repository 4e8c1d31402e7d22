use paystell::address::Address;
use paystell::payment::contract::{ContractEnv, PaymentProcessingContract};
use paystell::payment::error::PaymentError;
use paystell::payment::events::{Events, PaymentEvent};
use paystell::payment::helper::{validate_contact_info, validate_description, validate_name, validate_transaction_limit};
use paystell::payment::storage::Storage;
use paystell::payment::types::{
    BatchPayment, MerchantCategory, NonceTracker, PaymentOrder, PaymentQueryFilter, PaymentRecord,
    PaymentRecordStatus, PaymentStatus, ProfileUpdateData, RefundStatus, SortField, SortOrder,
};

fn addr(s: &str) -> Address {
    Address::from_bytes(s.as_bytes().to_vec())
}

fn text(s: &str) -> Vec<u8> {
    s.as_bytes().to_vec()
}

fn shop(now: u64, rate: u64) -> ContractEnv {
    let mut env = ContractEnv::new(now);
    PaymentProcessingContract::set_admin(&mut env, addr("GADMIN")).unwrap();
    PaymentProcessingContract::set_fee(&mut env, rate, addr("GCOLLECTOR"), addr("CTOKEN")).unwrap();
    PaymentProcessingContract::register_merchant(
        &mut env, addr("GMERCHANT"), text("Shop"), text("desc"), text("mail"), MerchantCategory::Retail,
    )
    .unwrap();
    PaymentProcessingContract::add_supported_token(&mut env, addr("GMERCHANT"), addr("CTOKEN")).unwrap();
    env
}

fn order(amount: i64, nonce: u32, id: &str) -> PaymentOrder {
    PaymentOrder {
        merchant_address: addr("GMERCHANT"),
        amount,
        token: addr("CTOKEN"),
        nonce,
        expiration: 1_000_000,
        order_id: text(id),
        fee_amount: 0,
    }
}

fn record(id: &str, amount: i128, paid_at: u64) -> PaymentRecord {
    PaymentRecord {
        order_id: text(id),
        merchant_address: addr("GMERCHANT"),
        payer_address: addr("GPAYER"),
        token: addr("CTOKEN"),
        amount,
        paid_at,
        refunded_amount: 0,
    }
}

#[test]
fn fee_is_rate_percent_rounded_toward_zero() {
    let mut env = shop(0, 10);
    PaymentProcessingContract::process_payment_with_signature(&mut env, addr("GPAYER"), order(99, 1, "A"), vec![0u8; 64], vec![0u8; 32]).unwrap();
    let n = env.transfers.len();
    assert_eq!(env.transfers[n - 2].amount, 90);
    assert_eq!(env.transfers[n - 1].amount, 9);
    assert_eq!(env.transfers[n - 1].to, addr("GCOLLECTOR"));
    assert_eq!(env.events.last().unwrap(), &PaymentEvent::FeeCollected(addr("GCOLLECTOR"), 9, text("A")));
    let storage = &env.storage;
    assert_eq!(storage.calculate_fee(1000), 100);
    assert_eq!(storage.calculate_fee(-155), -15);
}

#[test]
fn zero_fee_pays_merchant_in_full_without_fee_event() {
    let mut env = shop(0, 0);
    let events = env.events.len();
    PaymentProcessingContract::process_payment_with_signature(&mut env, addr("GPAYER"), order(500, 1, "A"), vec![0u8; 64], vec![0u8; 32]).unwrap();
    assert_eq!(env.transfers.last().unwrap().amount, 500);
    assert_eq!(env.events.len(), events);
}

#[test]
fn negative_fee_is_refused() {
    let mut env = shop(0, 10);
    assert_eq!(
        PaymentProcessingContract::process_payment_with_signature(&mut env, addr("GPAYER"), order(-150, 1, "A"), vec![0u8; 64], vec![0u8; 32]),
        Err(PaymentError::InvalidAmount)
    );
}

#[test]
fn payment_checks_in_order() {
    let mut env = shop(10, 5);
    let mut o = order(100, 1, "A");
    o.expiration = 9;
    assert_eq!(PaymentProcessingContract::process_payment_with_signature(&mut env, addr("GP"), o, vec![0u8; 64], vec![0u8; 32]), Err(PaymentError::OrderExpired));
    let mut o = order(100, 1, "A");
    o.merchant_address = addr("GNOBODY");
    assert_eq!(PaymentProcessingContract::process_payment_with_signature(&mut env, addr("GP"), o, vec![0u8; 64], vec![0u8; 32]), Err(PaymentError::MerchantNotFound));
    PaymentProcessingContract::set_merchant_limits(&mut env, addr("GMERCHANT"), 50).unwrap();
    assert_eq!(
        PaymentProcessingContract::process_payment_with_signature(&mut env, addr("GP"), order(100, 1, "A"), vec![0u8; 64], vec![0u8; 32]),
        Err(PaymentError::TransactionLimitExceeded)
    );
    PaymentProcessingContract::deactivate_merchant(&mut env, addr("GMERCHANT")).unwrap();
    assert_eq!(
        PaymentProcessingContract::process_payment_with_signature(&mut env, addr("GP"), order(10, 1, "A"), vec![0u8; 64], vec![0u8; 32]),
        Err(PaymentError::MerchantInactive)
    );
}

#[test]
fn payment_without_fee_settings_needs_admin() {
    let mut env = ContractEnv::new(0);
    PaymentProcessingContract::register_merchant(&mut env, addr("GMERCHANT"), text("S"), text(""), text(""), MerchantCategory::Other).unwrap();
    PaymentProcessingContract::add_supported_token(&mut env, addr("GMERCHANT"), addr("CTOKEN")).unwrap();
    assert_eq!(
        PaymentProcessingContract::process_payment_with_signature(&mut env, addr("GP"), order(10, 1, "A"), vec![0u8; 64], vec![0u8; 32]),
        Err(PaymentError::AdminNotFound)
    );
    assert_eq!(PaymentProcessingContract::get_fee_info(&env), Err(PaymentError::AdminNotFound));
}

#[test]
fn pause_refuses_operations_until_unpaused() {
    let mut env = shop(100, 5);
    PaymentProcessingContract::set_pause_admin(&mut env, addr("GADMIN"), addr("GPAUSER")).unwrap();
    assert_eq!(PaymentProcessingContract::pause(&mut env, addr("GADMIN")), Err(PaymentError::NotAuthorized));
    PaymentProcessingContract::pause(&mut env, addr("GPAUSER")).unwrap();
    assert!(PaymentProcessingContract::is_paused(&env));
    assert_eq!(PaymentProcessingContract::pause(&mut env, addr("GPAUSER")), Err(PaymentError::AlreadyPaused));
    assert_eq!(
        PaymentProcessingContract::process_payment_with_signature(&mut env, addr("GP"), order(10, 1, "A"), vec![0u8; 64], vec![0u8; 32]),
        Err(PaymentError::ContractPaused)
    );
    assert_eq!(
        PaymentProcessingContract::register_merchant(&mut env, addr("GM2"), text("S"), text(""), text(""), MerchantCategory::Other),
        Err(PaymentError::ContractPaused)
    );
    PaymentProcessingContract::unpause(&mut env, addr("GPAUSER")).unwrap();
    assert!(!PaymentProcessingContract::is_paused(&env));
    PaymentProcessingContract::process_payment_with_signature(&mut env, addr("GP"), order(10, 1, "A"), vec![0u8; 64], vec![0u8; 32]).unwrap();
}

#[test]
fn pause_for_duration_ends_after_the_duration() {
    let mut env = shop(100, 5);
    assert_eq!(PaymentProcessingContract::pause(&mut env, addr("GADMIN")), Err(PaymentError::AdminNotFound));
    PaymentProcessingContract::set_pause_admin(&mut env, addr("GADMIN"), addr("GADMIN")).unwrap();
    PaymentProcessingContract::pause_for_duration(&mut env, addr("GADMIN"), 50).unwrap();
    assert!(PaymentProcessingContract::is_paused(&env));
    env.timestamp = 150;
    assert!(PaymentProcessingContract::is_paused(&env));
    env.timestamp = 151;
    assert!(!PaymentProcessingContract::is_paused(&env));
}

#[test]
fn set_pause_admin_by_non_admin_changes_nothing() {
    let mut env = shop(0, 5);
    PaymentProcessingContract::set_pause_admin(&mut env, addr("GSTRANGER"), addr("GSTRANGER")).unwrap();
    assert_eq!(env.storage.pause_admin, None);
}

#[test]
fn refund_flow_pays_back_and_counts_refunded_amount() {
    let mut env = shop(1000, 0);
    PaymentProcessingContract::process_payment_with_signature(&mut env, addr("GPAYER"), order(300, 1, "A"), vec![0u8; 64], vec![0u8; 32]).unwrap();
    assert_eq!(
        PaymentProcessingContract::initiate_refund(&mut env, addr("GSTRANGER"), text("R1"), text("A"), 100, text("why")),
        Err(PaymentError::NotAuthorized)
    );
    assert_eq!(
        PaymentProcessingContract::initiate_refund(&mut env, addr("GPAYER"), text("R1"), text("A"), 301, text("why")),
        Err(PaymentError::ExceedsOriginalAmount)
    );
    PaymentProcessingContract::initiate_refund(&mut env, addr("GPAYER"), text("R1"), text("A"), 100, text("why")).unwrap();
    assert_eq!(PaymentProcessingContract::get_refund_status(&env, text("R1")), Ok(RefundStatus::Pending));
    assert_eq!(PaymentProcessingContract::execute_refund(&mut env, text("R1"), 1000), Err(PaymentError::InvalidRefundStatus));
    assert_eq!(PaymentProcessingContract::approve_refund(&mut env, addr("GPAYER"), text("R1")), Err(PaymentError::NotAuthorized));
    PaymentProcessingContract::approve_refund(&mut env, addr("GMERCHANT"), text("R1")).unwrap();
    assert_eq!(PaymentProcessingContract::approve_refund(&mut env, addr("GADMIN"), text("R1")), Err(PaymentError::InvalidRefundStatus));
    assert_eq!(PaymentProcessingContract::execute_refund(&mut env, text("R1"), 99), Err(PaymentError::InsufficientBalance));
    PaymentProcessingContract::execute_refund(&mut env, text("R1"), 100).unwrap();
    let t = env.transfers.last().unwrap();
    assert_eq!((t.from.clone(), t.to.clone(), t.amount), (addr("GMERCHANT"), addr("GPAYER"), 100));
    assert_eq!(PaymentProcessingContract::get_refund_status(&env, text("R1")), Ok(RefundStatus::Completed));
    let p = PaymentProcessingContract::get_payment_by_order_id(&env, text("A")).unwrap();
    assert_eq!(p.refunded_amount, 100);
    assert_eq!(p.get_status(), PaymentRecordStatus::PartiallyRefunded);
    assert_eq!(
        PaymentProcessingContract::initiate_refund(&mut env, addr("GMERCHANT"), text("R2"), text("A"), 201, text("x")),
        Err(PaymentError::ExceedsOriginalAmount)
    );
    PaymentProcessingContract::initiate_refund(&mut env, addr("GMERCHANT"), text("R2"), text("A"), 200, text("x")).unwrap();
    PaymentProcessingContract::reject_refund(&mut env, addr("GADMIN"), text("R2")).unwrap();
    assert_eq!(PaymentProcessingContract::get_refund_status(&env, text("R2")), Ok(RefundStatus::Rejected));
    assert_eq!(PaymentProcessingContract::get_refund_status(&env, text("R9")), Err(PaymentError::RefundNotFound));
}

#[test]
fn refund_window_is_thirty_days() {
    let mut env = shop(1000, 0);
    PaymentProcessingContract::process_payment_with_signature(&mut env, addr("GPAYER"), order(300, 1, "A"), vec![0u8; 64], vec![0u8; 32]).unwrap();
    env.timestamp = 1000 + 2_592_000;
    PaymentProcessingContract::initiate_refund(&mut env, addr("GPAYER"), text("R1"), text("A"), 1, text("")).unwrap();
    env.timestamp += 1;
    assert_eq!(
        PaymentProcessingContract::initiate_refund(&mut env, addr("GPAYER"), text("R2"), text("A"), 1, text("")),
        Err(PaymentError::RefundWindowExceeded)
    );
    assert_eq!(
        PaymentProcessingContract::initiate_refund(&mut env, addr("GPAYER"), text("R3"), text("Z"), 1, text("")),
        Err(PaymentError::PaymentNotFound)
    );
}

#[test]
fn multisig_payment_lifecycle() {
    let mut env = ContractEnv::new(10);
    let signers = vec![addr("GS1"), addr("GS2"), addr("GS3")];
    assert_eq!(
        PaymentProcessingContract::initiate_multisig_payment(&mut env, 0, addr("CT"), addr("GR"), signers.clone(), 2, 100),
        Err(PaymentError::InvalidAmount)
    );
    assert_eq!(
        PaymentProcessingContract::initiate_multisig_payment(&mut env, 5, addr("CT"), addr("GR"), vec![], 1, 100),
        Err(PaymentError::EmptySignersList)
    );
    assert_eq!(
        PaymentProcessingContract::initiate_multisig_payment(&mut env, 5, addr("CT"), addr("GR"), signers.clone(), 4, 100),
        Err(PaymentError::InvalidThreshold)
    );
    assert_eq!(
        PaymentProcessingContract::initiate_multisig_payment(&mut env, 5, addr("CT"), addr("GR"), signers.clone(), 2, 10),
        Err(PaymentError::PaymentExpired)
    );
    assert_eq!(
        PaymentProcessingContract::initiate_multisig_payment(&mut env, 5, addr("CT"), addr("GR"), vec![addr("GS1"), addr("GS1")], 1, 100),
        Err(PaymentError::DuplicateSigner)
    );
    let id = PaymentProcessingContract::initiate_multisig_payment(&mut env, 5, addr("CT"), addr("GR"), signers.clone(), 2, 100).unwrap();
    assert_eq!(id, 1);
    PaymentProcessingContract::add_signature(&mut env, id, addr("GS1")).unwrap();
    assert_eq!(PaymentProcessingContract::add_signature(&mut env, id, addr("GS1")), Err(PaymentError::AlreadySigned));
    assert_eq!(PaymentProcessingContract::add_signature(&mut env, id, addr("GX")), Err(PaymentError::NotASigner));
    assert_eq!(PaymentProcessingContract::execute_multisig_payment(&mut env, id, addr("GS1")), Err(PaymentError::ThresholdNotMet));
    PaymentProcessingContract::add_signature(&mut env, id, addr("GS2")).unwrap();
    assert_eq!(PaymentProcessingContract::execute_multisig_payment(&mut env, id, addr("GX")), Err(PaymentError::NotASigner));
    PaymentProcessingContract::execute_multisig_payment(&mut env, id, addr("GS3")).unwrap();
    let t = env.transfers.last().unwrap();
    assert_eq!((t.from.clone(), t.to.clone(), t.amount), (addr("GS3"), addr("GR"), 5));
    let rec = env.storage.get_payment_record(id).unwrap();
    assert_eq!(rec.status, PaymentStatus::Executed);
    assert_eq!(PaymentProcessingContract::execute_multisig_payment(&mut env, id, addr("GS3")), Err(PaymentError::PaymentNotFound));
    assert_eq!(PaymentProcessingContract::get_multisig_payment(&env, id).unwrap_err(), PaymentError::PaymentNotFound);
}

#[test]
fn multisig_cancel_and_batch_execute() {
    let mut env = ContractEnv::new(10);
    let signers = vec![addr("GS1"), addr("GS2")];
    let a = PaymentProcessingContract::initiate_multisig_payment(&mut env, 5, addr("CT"), addr("GR"), signers.clone(), 1, 100).unwrap();
    let b = PaymentProcessingContract::initiate_multisig_payment(&mut env, 7, addr("CT"), addr("GR"), signers.clone(), 1, 100).unwrap();
    let c = PaymentProcessingContract::initiate_multisig_payment(&mut env, 9, addr("CT"), addr("GR"), signers.clone(), 2, 100).unwrap();
    assert_eq!(PaymentProcessingContract::cancel_multisig_payment(&mut env, a, addr("GX"), text("no")), Err(PaymentError::NotASigner));
    PaymentProcessingContract::cancel_multisig_payment(&mut env, a, addr("GS2"), text("no")).unwrap();
    assert_eq!(env.storage.get_payment_record(a).unwrap().status, PaymentStatus::Cancelled);
    PaymentProcessingContract::add_signature(&mut env, b, addr("GS1")).unwrap();
    PaymentProcessingContract::add_signature(&mut env, c, addr("GS1")).unwrap();
    let done = PaymentProcessingContract::batch_execute_payments(&mut env, vec![a, b, c, 99], addr("GS1")).unwrap();
    assert_eq!(done, vec![b]);
}

#[test]
fn batch_payments_check_every_order_first() {
    let mut env = shop(0, 5);
    let batch = |orders: Vec<PaymentOrder>, sigs: usize| BatchPayment {
        payer: addr("GPAYER"),
        orders,
        signatures: vec![vec![0u8; 64]; sigs],
        merchant_public_key: vec![0u8; 32],
    };
    assert_eq!(
        PaymentProcessingContract::batch_process_payments(&mut env, batch(vec![order(1, 1, "A")], 2)),
        Err(PaymentError::InvalidSignature)
    );
    assert_eq!(
        PaymentProcessingContract::batch_process_payments(&mut env, batch(vec![order(1, 1, "A"), order(2, 1, "B")], 2)),
        Err(PaymentError::NonceAlreadyUsed)
    );
    assert!(env.transfers.is_empty());
    PaymentProcessingContract::deactivate_merchant(&mut env, addr("GMERCHANT")).unwrap();
    assert_eq!(
        PaymentProcessingContract::batch_process_payments(&mut env, batch(vec![order(1, 1, "A")], 1)),
        Err(PaymentError::MerchantNotFound)
    );
}

#[test]
fn batch_marks_at_most_a_thousand_nonces_per_merchant() {
    let mut env = shop(0, 5);
    let orders: Vec<PaymentOrder> = (0..1001u32).map(|n| order(1, n, "A")).collect();
    let b = BatchPayment { payer: addr("GPAYER"), orders, signatures: vec![vec![0u8; 64]; 1001], merchant_public_key: vec![] };
    PaymentProcessingContract::batch_process_payments(&mut env, b).unwrap();
    assert!(env.storage.is_nonce_used(&addr("GMERCHANT"), 999));
    assert!(!env.storage.is_nonce_used(&addr("GMERCHANT"), 1000));
    assert_eq!(env.transfers.len(), 1001);
    let tracker = PaymentProcessingContract::get_nonce_tracker(&env, addr("GMERCHANT")).unwrap().unwrap();
    assert_eq!(tracker.highest_nonce, 999);
}

#[test]
fn merchant_profile_rules() {
    let mut env = shop(5, 5);
    assert_eq!(
        PaymentProcessingContract::register_merchant(&mut env, addr("GMERCHANT"), text("S"), text(""), text(""), MerchantCategory::Other),
        Err(PaymentError::MerchantAlreadyExists)
    );
    assert_eq!(
        PaymentProcessingContract::register_merchant(&mut env, addr("GM2"), text(""), text(""), text(""), MerchantCategory::Other),
        Err(PaymentError::InvalidName)
    );
    assert_eq!(
        PaymentProcessingContract::register_merchant(&mut env, addr("GM2"), text("S"), vec![b'd'; 501], text(""), MerchantCategory::Other),
        Err(PaymentError::InvalidDescription)
    );
    assert_eq!(
        PaymentProcessingContract::register_merchant(&mut env, addr("GM2"), text("S"), text(""), vec![b'c'; 201], MerchantCategory::Other),
        Err(PaymentError::InvalidContactInfo)
    );
    let update = ProfileUpdateData {
        update_name: true,
        name: text("New name"),
        update_description: false,
        description: vec![b'x'; 900],
        update_contact_info: false,
        contact_info: text(""),
        update_category: true,
        category: MerchantCategory::Hospitality,
    };
    env.timestamp = 77;
    PaymentProcessingContract::update_merchant_profile(&mut env, addr("GMERCHANT"), update).unwrap();
    let m = PaymentProcessingContract::get_merchant_profile(&env, addr("GMERCHANT")).unwrap();
    assert_eq!(m.name, text("New name"));
    assert_eq!(m.description, text("desc"));
    assert_eq!(m.category, MerchantCategory::Hospitality);
    assert_eq!(m.last_activity_timestamp, 77);
    assert_eq!(m.registration_timestamp, 5);
    assert_eq!(
        PaymentProcessingContract::set_merchant_limits(&mut env, addr("GMERCHANT"), 0),
        Err(PaymentError::InvalidTransactionLimit)
    );
    PaymentProcessingContract::deactivate_merchant(&mut env, addr("GMERCHANT")).unwrap();
    assert_eq!(
        PaymentProcessingContract::set_merchant_limits(&mut env, addr("GMERCHANT"), 10),
        Err(PaymentError::MerchantInactive)
    );
}

#[test]
fn profile_validation_lengths() {
    assert!(validate_name(&vec![b'a'; 100]).is_ok());
    assert_eq!(validate_name(&vec![b'a'; 101]), Err(PaymentError::InvalidName));
    assert!(validate_description(&vec![b'a'; 500]).is_ok());
    assert!(validate_contact_info(&vec![b'a'; 200]).is_ok());
    assert_eq!(validate_transaction_limit(-1), Err(PaymentError::InvalidTransactionLimit));
    assert!(validate_transaction_limit(1).is_ok());
}

#[test]
fn gas_estimates_per_operation() {
    let e = PaymentProcessingContract::estimate_gas_for_batch_operation(&text("reg_mer"), 3).unwrap();
    assert_eq!((e.base_gas, e.per_item_gas, e.total_estimated), (20_000, 15_000, 65_000));
    let e = PaymentProcessingContract::estimate_gas_for_batch_operation(&text("add_tok"), 2).unwrap();
    assert_eq!(e.total_estimated, 36_000);
    let e = PaymentProcessingContract::estimate_gas_for_batch_operation(&text("other"), 1).unwrap();
    assert_eq!(e.per_item_gas, 10_000);
    let e = PaymentProcessingContract::estimate_gas_for_payment(&order(1, 1, "A")).unwrap();
    assert_eq!(e.total_estimated, 110_000);
}

#[test]
fn nonce_tracker_marks_single_bits() {
    let mut t = NonceTracker::new();
    t.mark_nonce_used(33);
    t.mark_nonce_used(5);
    assert!(t.is_nonce_used(33));
    assert!(t.is_nonce_used(5));
    assert!(!t.is_nonce_used(32));
    assert!(!t.is_nonce_used(1));
    assert_eq!(t.highest_nonce, 33);
}

#[test]
fn error_codes_round_trip() {
    for c in 1..=36u32 {
        assert_eq!(PaymentError::from_code(c).unwrap().code(), c);
    }
    assert_eq!(PaymentError::from_code(0), None);
    assert_eq!(PaymentError::from_code(37), None);
    assert_eq!(PaymentError::NonceAlreadyUsed.code(), 4);
}

#[test]
fn time_buckets_group_by_day() {
    let mut s = Storage::new();
    s.save_payment(&record("A", 10, 86_400 + 5));
    s.save_payment(&record("B", 20, 2 * 86_400 + 7));
    s.save_payment(&record("C", 30, 86_400 + 100));
    s.save_payment(&record("D", 40, 9 * 86_400));
    let b = s.get_payments_by_time_range(86_400, 3 * 86_400);
    assert_eq!(b.len(), 2);
    assert_eq!((b[0].bucket_timestamp, b[0].payment_count, b[0].total_volume), (86_400, 2, 40));
    assert_eq!((b[1].bucket_timestamp, b[1].payment_count, b[1].total_volume), (2 * 86_400, 1, 20));
}

#[test]
fn sort_is_stable_and_ordered() {
    let s = Storage::new();
    let recs = vec![record("A", 30, 1), record("B", 10, 2), record("C", 30, 3), record("D", 20, 4)];
    let asc = s.sort_payments(recs.clone(), &SortField::Amount, &SortOrder::Ascending);
    let ids: Vec<Vec<u8>> = asc.iter().map(|r| r.order_id.clone()).collect();
    assert_eq!(ids, vec![text("B"), text("D"), text("A"), text("C")]);
    let desc = s.sort_payments(recs, &SortField::Date, &SortOrder::Descending);
    let ids: Vec<Vec<u8>> = desc.iter().map(|r| r.order_id.clone()).collect();
    assert_eq!(ids, vec![text("D"), text("C"), text("B"), text("A")]);
}

#[test]
fn cursor_pagination_continues_after_cursor() {
    let s = Storage::new();
    let recs = vec![record("A", 1, 1), record("B", 1, 2), record("C", 1, 3), record("D", 1, 4), record("E", 1, 5)];
    let (page, next) = s.paginate_payments(recs.clone(), None, 2);
    assert_eq!(page.len(), 2);
    assert_eq!(next, Some(text("B")));
    let (page, next) = s.paginate_payments(recs.clone(), next, 2);
    assert_eq!(page[0].order_id, text("C"));
    assert_eq!(next, Some(text("D")));
    let (page, next) = s.paginate_payments(recs.clone(), next, 2);
    assert_eq!(page.len(), 1);
    assert_eq!(next, None);
    let (page, _) = s.paginate_payments(recs, Some(text("ZZ")), 1);
    assert_eq!(page[0].order_id, text("A"));
}

#[test]
fn stats_average_rounds_toward_zero() {
    let mut s = Storage::new();
    s.save_payment(&record("A", 10, 5));
    s.save_payment(&record("B", 11, 3));
    s.save_payment(&record("C", -30, 9));
    let g = s.get_global_stats().unwrap();
    assert_eq!(g.total_payments, 3);
    assert_eq!(g.total_volume, -9);
    assert_eq!(g.average_payment, -3);
    assert_eq!(g.first_payment_time, Some(3));
    assert_eq!(g.last_payment_time, Some(9));
    assert_eq!(g.unique_payers, 1);
    assert!(Storage::new().get_global_stats().is_none());
}

#[test]
fn archiving_takes_old_unarchived_payments() {
    let mut s = Storage::new();
    s.save_payment(&record("A", 1, 5));
    s.save_payment(&record("B", 1, 50));
    s.save_payment(&record("C", 1, 6));
    assert_eq!(s.compress_old_payments(10, 1), 1);
    assert!(s.get_archived_payment(&text("A")).is_some());
    assert!(s.get_archived_payment(&text("C")).is_none());
    assert_eq!(s.compress_old_payments(10, 100), 1);
    assert!(s.get_archived_payment(&text("C")).is_some());
    assert!(s.get_archived_payment(&text("B")).is_none());
    assert_eq!(s.compress_old_payments(10, 100), 0);
}

#[test]
fn archive_needs_admin_and_past_cutoff() {
    let mut env = shop(100, 5);
    assert_eq!(PaymentProcessingContract::archive_old_payments(&mut env, addr("GX"), 10), Err(PaymentError::NotAuthorized));
    assert_eq!(PaymentProcessingContract::archive_old_payments(&mut env, addr("GADMIN"), 100), Err(PaymentError::InvalidAmount));
    PaymentProcessingContract::archive_old_payments(&mut env, addr("GADMIN"), 99).unwrap();
}

#[test]
fn query_with_offset_skips_matching_records() {
    let mut env = shop(0, 5);
    for i in 1..=5u32 {
        PaymentProcessingContract::process_payment_with_signature(&mut env, addr("GP"), order(i as i64 * 10, i, &format!("O{}", i)), vec![0u8; 64], vec![0u8; 32]).unwrap();
    }
    let q = paystell::payment::types::PaymentQueryParams {
        start_time: None, end_time: None, min_amount: Some(20), max_amount: None, token: None, limit: 2, offset: 1,
    };
    let r = PaymentProcessingContract::query_payments(&env, q).unwrap();
    let amounts: Vec<i128> = r.iter().map(|p| p.amount).collect();
    assert_eq!(amounts, vec![30, 40]);
}

#[test]
fn filtered_queries_by_status() {
    let mut s = Storage::new();
    let mut r = record("A", 100, 5);
    r.refunded_amount = 100;
    s.save_payment(&r);
    s.save_payment(&record("B", 100, 6));
    let f = PaymentQueryFilter {
        date_start: None, date_end: None, amount_min: None, amount_max: None, token: None,
        status: PaymentRecordStatus::FullyRefunded,
    };
    let got = s.query_payments_with_filters(&vec![text("A"), text("B"), text("Z")], &f);
    assert_eq!(got.len(), 1);
    assert_eq!(got[0].order_id, text("A"));
}

#[test]
fn added_token_is_supported() {
    let mut env = shop(5, 5);
    assert_eq!(PaymentProcessingContract::is_token_supported(&env, addr("GMERCHANT"), addr("CNEW")), Ok(false));
    PaymentProcessingContract::add_supported_token(&mut env, addr("GMERCHANT"), addr("CNEW")).unwrap();
    assert_eq!(PaymentProcessingContract::is_token_supported(&env, addr("GMERCHANT"), addr("CNEW")), Ok(true));
    assert_eq!(PaymentProcessingContract::get_merchant_token_count(&env, addr("GMERCHANT")), Ok(2));
}

#[test]
fn second_signature_after_expiry_reports_expiry() {
    let mut env = ContractEnv::new(10);
    let id = PaymentProcessingContract::initiate_multisig_payment(&mut env, 5, addr("CT"), addr("GR"), vec![addr("GS1")], 1, 100)
        .unwrap();
    PaymentProcessingContract::add_signature(&mut env, id, addr("GS1")).unwrap();
    env.timestamp = 101;
    assert_eq!(PaymentProcessingContract::add_signature(&mut env, id, addr("GS1")), Err(PaymentError::PaymentExpired));
}

#[test]
fn payment_ids_are_not_reused_after_archiving() {
    let mut env = ContractEnv::new(10);
    let signers = vec![addr("GS1")];
    let a = PaymentProcessingContract::initiate_multisig_payment(&mut env, 5, addr("CT"), addr("GR"), signers.clone(), 1, 100).unwrap();
    PaymentProcessingContract::cancel_multisig_payment(&mut env, a, addr("GS1"), text("no")).unwrap();
    let b = PaymentProcessingContract::initiate_multisig_payment(&mut env, 5, addr("CT"), addr("GR"), signers, 1, 100).unwrap();
    assert_eq!((a, b), (1, 2));
    assert!(env.storage.get_payment_record(b).is_none());
}

#[test]
fn merchant_signatures_are_handed_to_the_host() {
    let mut env = shop(5, 5);
    let mut late = order(10, 7, "L");
    late.expiration = 1;
    assert_eq!(
        PaymentProcessingContract::process_payment_with_signature(&mut env, addr("GP"), late, vec![1u8; 64], vec![2u8; 32]),
        Err(PaymentError::OrderExpired)
    );
    assert!(env.signature_checks.is_empty());
    PaymentProcessingContract::process_payment_with_signature(&mut env, addr("GP"), order(10, 1, "A"), vec![1u8; 64], vec![2u8; 32])
        .unwrap();
    assert_eq!(env.signature_checks.len(), 1);
    let c = &env.signature_checks[0];
    assert_eq!((c.signature.clone(), c.merchant_public_key.clone(), c.order.nonce), (vec![1u8; 64], vec![2u8; 32], 1));
    let b = BatchPayment {
        payer: addr("GPAYER"),
        orders: vec![order(1, 2, "B"), order(2, 3, "C")],
        signatures: vec![vec![3u8; 64], vec![4u8; 64]],
        merchant_public_key: vec![2u8; 32],
    };
    PaymentProcessingContract::batch_process_payments(&mut env, b).unwrap();
    assert_eq!(env.signature_checks.len(), 3);
    assert_eq!(env.signature_checks[2].signature, vec![4u8; 64]);
    assert_eq!(env.signature_checks[2].order.nonce, 3);
}

#[test]
fn lifecycle_events_are_published() {
    let mut env = ContractEnv::new(42);
    let rec = record("O1", 500, 7);
    Events::emit_payment_record_created(&mut env, &rec);
    Events::emit_payment_status_updated(&mut env, &text("O1"), PaymentStatus::Pending, PaymentStatus::Executed, None);
    Events::emit_payment_completed(&mut env, &rec);
    Events::emit_payment_failed(&mut env, &text("O2"), &addr("GP"), &addr("GM"), text("boom"));
    Events::emit_payment_reconciliation(&mut env, vec![text("O1")], 2, 1);
    let topics: Vec<&str> = env.events.iter().map(|e| e.topic()).collect();
    assert_eq!(topics, vec!["pay_creat", "pay_stat", "pay_done", "pay_fail", "pay_recon"]);
    match &env.events[0] {
        PaymentEvent::PaymentRecordCreated(e) => assert_eq!((e.payment_id.clone(), e.amount, e.timestamp), (text("O1"), 500, 7)),
        _ => panic!("wrong event"),
    }
    match &env.events[2] {
        PaymentEvent::PaymentCompleted(e) => assert_eq!(e.timestamp, 42),
        _ => panic!("wrong event"),
    }
}
