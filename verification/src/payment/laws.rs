//! Properties of the payment-processing contract that span its entry points.
use vstd::prelude::*;
use super::contract::{
    ContractEnvModel, env_paused, spec_order_check, spec_payment_result, order_fee, order_transfers,
    spec_merchant_lookup, registered_merchant, merchant_saved, spec_execute, spec_execute_result,
    spec_cancel_result, payment_closed, closed_record, spec_execute_refund_result, spec_initiate_refund_result,
    MAX_REFUND_WINDOW, spec_batch_execute, with_token_added, with_signature, spec_add_signature_result,
    query_page, matching_records, params_match, spec_batch_payment_result, batch_first_error, batch_order_error,
    spec_update_profile_result, updated_profile, stored_merchant,
};
use super::history::{spec_merchant_stats, spec_global_stats, min_paid_at, max_paid_at};
use super::types::{PaymentQueryParamsModel, BatchPaymentModel, ProfileUpdateDataModel};
use crate::table::seq_to_map;
use super::error::{PaymentError, spec_payment_error_message};
use super::storage::{StorageModel, model_wf, spec_is_paused, spec_nonce_used, spec_fee, spec_fee_rate, MAX_FEE_RATE};
use super::types::{MerchantCategory, PaymentOrderModel, PaymentRecordModel, PaymentStatus};
use super::storage::{first_records, spec_page, ids_to_records, index_list};

verus! {

/// A processed order pays out exactly its amount: the merchant's share and
/// the fee add up to the order amount, and the fee is the stored rate's
/// share of it.
pub proof fn law_payment_splits_amount(e: ContractEnvModel, payer: Seq<u8>, order: PaymentOrderModel)
    requires
        model_wf(e.storage),
        spec_payment_result(e, order) is Ok,
    ensures
        order_fee(e.storage, order) == spec_fee(order.amount as int, spec_fee_rate(e.storage) as int),
        0 <= order_fee(e.storage, order) <= if order.amount >= 0 { order.amount as int } else { 0 },
        order_transfers(e.storage, payer, order)[0].amount + order_fee(e.storage, order) == order.amount,
        order_fee(e.storage, order) > 0 ==> order_transfers(e.storage, payer, order).len() == 2
            && order_transfers(e.storage, payer, order)[1].amount == order_fee(e.storage, order),
        order_fee(e.storage, order) <= 0 ==> order_transfers(e.storage, payer, order).len() == 1,
{
    let rate = spec_fee_rate(e.storage) as int;
    assert(rate <= MAX_FEE_RATE);
    if order.amount >= 0 {
        assert(order.amount * rate / 100 <= order.amount) by (nonlinear_arith)
            requires
                order.amount >= 0,
                0 <= rate <= 10,
        ;
    }
}

/// The fee never exceeds a tenth of a non-negative amount.
pub proof fn law_fee_at_most_a_tenth(s: StorageModel, amount: i64)
    requires
        model_wf(s),
        amount >= 0,
    ensures
        0 <= spec_fee(amount as int, spec_fee_rate(s) as int) <= amount / 10,
{
    let rate = spec_fee_rate(s) as int;
    assert(rate <= MAX_FEE_RATE);
    assert(0 <= amount * rate / 100 <= amount / 10) by (nonlinear_arith)
        requires
            amount >= 0,
            0 <= rate <= 10,
    ;
}

/// A nonce once used refuses every later order of the merchant that carries
/// it: the order checks fail (with `NonceAlreadyUsed` unless an earlier
/// check fails first).
pub proof fn law_used_nonce_refused(e: ContractEnvModel, order: PaymentOrderModel)
    requires
        spec_nonce_used(e.storage, order.merchant_address, order.nonce),
    ensures
        spec_order_check(e, order) is Err,
        spec_payment_result(e, order) is Err,
        !env_paused(e) && e.timestamp <= order.expiration && e.storage.merchants.contains_key(order.merchant_address)
            && e.storage.merchants[order.merchant_address].active
            && e.storage.merchants[order.merchant_address].supported_tokens.contains(order.token)
            && order.amount <= e.storage.merchants[order.merchant_address].max_transaction_limit
            ==> spec_order_check(e, order) == Err::<(), PaymentError>(PaymentError::NonceAlreadyUsed),
{
}

/// While the contract is paused, orders are refused with `ContractPaused`.
pub proof fn law_paused_refuses_orders(e: ContractEnvModel, order: PaymentOrderModel)
    requires
        env_paused(e),
    ensures
        spec_payment_result(e, order) == Err::<(), PaymentError>(PaymentError::ContractPaused),
{
}

/// A pause for `duration` seconds that starts at `now` covers every ledger
/// time from `now` to `now + duration`; after an unpause no time is paused.
pub proof fn law_pause_window(s: StorageModel, now: u64, duration: u64, t: u64)
    requires
        now + duration <= u64::MAX,
        now + duration > 0,
    ensures
        now <= t <= now + duration ==> spec_is_paused(StorageModel { paused_until: (now + duration) as u64, ..s }, t),
        !s.paused && t > now + duration ==> !spec_is_paused(StorageModel { paused_until: (now + duration) as u64, ..s }, t),
        !spec_is_paused(StorageModel { paused: false, paused_until: 0, ..s }, t),
{
}

/// A registered merchant is found with the profile it registered.
pub proof fn law_registered_merchant_found(
    e: ContractEnvModel,
    m: Seq<u8>,
    name: Seq<u8>,
    description: Seq<u8>,
    contact_info: Seq<u8>,
    category: MerchantCategory,
)
    ensures
        spec_merchant_lookup(
            ContractEnvModel {
                storage: merchant_saved(e.storage, m, registered_merchant(m, name, description, contact_info, category, e.timestamp)),
                ..e
            },
            m,
        ) == Ok::<_, PaymentError>(registered_merchant(m, name, description, contact_info, category, e.timestamp)),
{
}

/// A multi-signature payment executes only when it is pending, unexpired,
/// run by one of its signers, and carries at least the threshold of
/// signatures; it is then archived as executed and no longer pending, so a
/// second execution fails with `PaymentNotFound`.
pub proof fn law_multisig_executes_at_threshold(e: ContractEnvModel, id: u128, executor: Seq<u8>)
    requires
        spec_execute_result(e, id, executor) is Ok,
    ensures
        e.storage.multisig_payments.contains_key(id),
        e.storage.multisig_payments[id].status == PaymentStatus::Pending,
        e.timestamp <= e.storage.multisig_payments[id].expiry,
        e.storage.multisig_payments[id].signers.contains(executor),
        e.storage.multisig_payments[id].signatures.len() >= e.storage.multisig_payments[id].threshold,
        !spec_execute(e, id, executor).1.storage.multisig_payments.contains_key(id),
        spec_execute(e, id, executor).1.storage.payment_history[e.storage.multisig_payments[id].payment_id].status
            == PaymentStatus::Executed,
        spec_execute_result(spec_execute(e, id, executor).1, id, executor) == Err::<(), PaymentError>(PaymentError::PaymentNotFound),
{
}

/// A cancelled payment can no longer be executed: it fails with
/// `PaymentNotFound`.
pub proof fn law_cancelled_payment_not_executable(e: ContractEnvModel, id: u128, canceller: Seq<u8>, reason: Seq<u8>, executor: Seq<u8>)
    requires
        spec_cancel_result(e, id, canceller) is Ok,
    ensures
        spec_execute_result(
            ContractEnvModel {
                storage: payment_closed(
                    e.storage,
                    id,
                    closed_record(e.storage.multisig_payments[id], PaymentStatus::Cancelled, e.timestamp, canceller, Some(reason)),
                ),
                ..e
            },
            id,
            executor,
        ) == Err::<(), PaymentError>(PaymentError::PaymentNotFound),
{
}


/// An executed refund never takes a payment's refunded amount past the
/// amount paid.
pub proof fn law_refund_within_payment(e: ContractEnvModel, refund_id: Seq<u8>, balance: i128)
    requires
        spec_execute_refund_result(e, refund_id, balance) is Ok,
    ensures
        ({
            let q = e.storage.refunds[refund_id];
            let p = e.storage.payments[q.order_id];
            &&& p.refunded_amount + q.amount <= p.amount
            &&& q.amount <= balance
        }),
{
}

/// A refund request is accepted only from the payment's merchant or payer,
/// for at most the amount not yet refunded, and within 30 days of the
/// payment.
pub proof fn law_refund_request_bounds(e: ContractEnvModel, caller: Seq<u8>, order_id: Seq<u8>, amount: i128)
    requires
        spec_initiate_refund_result(e, caller, order_id, amount) is Ok,
    ensures
        ({
            let p = e.storage.payments[order_id];
            &&& caller == p.merchant_address || caller == p.payer_address
            &&& amount <= p.amount - p.refunded_amount
            &&& e.timestamp <= p.paid_at + MAX_REFUND_WINDOW
        }),
{
}


proof fn lemma_first_records_len(ids: Seq<Seq<u8>>, payments: Map<Seq<u8>, PaymentRecordModel>, limit: int)
    ensures
        first_records(ids, payments, limit).len() <= if limit < 0 { 0 } else { limit },
        first_records(ids, payments, limit).len() <= ids.len(),
    decreases ids.len(),
{
    if ids.len() > 0 && limit > 0 {
        lemma_first_records_len(ids.drop_first(), payments, if payments.contains_key(ids[0]) { limit - 1 } else { limit });
    }
}

/// A history page holds at most `limit` records (one when `limit` is zero),
/// and no more than there are ids past the offset.
pub proof fn law_page_size_bounded(ids: Seq<Seq<u8>>, payments: Map<Seq<u8>, PaymentRecordModel>, limit: u32, offset: u32)
    ensures
        spec_page(ids, payments, limit, offset).len() <= if limit == 0 { 1 } else { limit as int },
        spec_page(ids, payments, limit, offset).len() <= if offset < ids.len() { ids.len() - offset } else { 0 },
{
    let rest = if offset < ids.len() { ids.skip(offset as int) } else { Seq::empty() };
    lemma_first_records_len(rest, payments, if limit == 0 { 1 } else { limit as int });
}

/// A token a merchant has added is one it accepts.
pub proof fn law_added_token_supported(e: ContractEnvModel, merchant: Seq<u8>, token: Seq<u8>)
    requires
        !env_paused(e),
        e.storage.merchants.contains_key(merchant),
    ensures
        spec_merchant_lookup(with_token_added(e, merchant, token), merchant) matches Ok(m)
            && m.supported_tokens.contains(token),
{
    let m = with_token_added(e, merchant, token).storage.merchants[merchant];
    assert(m.supported_tokens[m.supported_tokens.len() - 1] == token);
}

/// A signer signs a payment once: after its signature is accepted, a second
/// signature of its on that payment is refused, with `AlreadySigned` unless
/// the payment has expired by then.
pub proof fn law_signer_signs_once(
    e: ContractEnvModel,
    id: u128,
    signer: Seq<u8>,
    sigs: Seq<(Seq<u8>, bool)>,
    later: u64,
)
    requires
        spec_add_signature_result(e, id, signer) is Ok,
        seq_to_map(sigs) == seq_to_map(e.storage.multisig_payments[id].signatures).insert(signer, true),
    ensures
        spec_add_signature_result(ContractEnvModel { timestamp: later, ..with_signature(e, id, signer, sigs) }, id, signer)
            == if later > e.storage.multisig_payments[id].expiry {
            Err::<(), PaymentError>(PaymentError::PaymentExpired)
        } else {
            Err::<(), PaymentError>(PaymentError::AlreadySigned)
        },
{
    assert(seq_to_map(sigs).contains_key(signer));
}

/// Payment ids are never reused: the id that a new multi-signature payment
/// gets, one past the payment counter, belongs to no pending and no archived
/// payment.
pub proof fn law_new_payment_id_unused(s: StorageModel)
    requires
        model_wf(s),
        s.payment_counter < u128::MAX,
    ensures
        !s.multisig_payments.contains_key((s.payment_counter + 1) as u128),
        !s.payment_history.contains_key((s.payment_counter + 1) as u128),
{
}


/// Every error has a message, and no two errors share one.
pub proof fn law_error_messages_distinct(e1: PaymentError, e2: PaymentError)
    ensures
        spec_payment_error_message(e1).len() > 0,
        e1 != e2 ==> spec_payment_error_message(e1) != spec_payment_error_message(e2),
{
    reveal_strlit("Not authorized");
    assert("Not authorized"@.len() == 14);
    assert("Not authorized"@[0] == 'N');
    reveal_strlit("Merchant not found or inactive");
    assert("Merchant not found or inactive"@.len() == 30);
    assert("Merchant not found or inactive"@[0] == 'M');
    reveal_strlit("Invalid merchant signature");
    assert("Invalid merchant signature"@.len() == 26);
    assert("Invalid merchant signature"@[0] == 'I');
    reveal_strlit("Payment nonce already used");
    assert("Payment nonce already used"@.len() == 26);
    assert("Payment nonce already used"@[0] == 'P');
    reveal_strlit("Invalid amount");
    assert("Invalid amount"@.len() == 14);
    assert("Invalid amount"@[0] == 'I');
    reveal_strlit("Payment order has expired");
    assert("Payment order has expired"@.len() == 25);
    assert("Payment order has expired"@[8] == 'o');
    reveal_strlit("Token not supported by merchant");
    assert("Token not supported by merchant"@.len() == 31);
    assert("Token not supported by merchant"@[0] == 'T');
    reveal_strlit("Invalid merchant name (must be 1-100 characters)");
    assert("Invalid merchant name (must be 1-100 characters)"@.len() == 48);
    reveal_strlit("Invalid description (max 500 characters)");
    assert("Invalid description (max 500 characters)"@.len() == 40);
    reveal_strlit("Invalid contact info (max 200 characters)");
    assert("Invalid contact info (max 200 characters)"@.len() == 41);
    assert("Invalid contact info (max 200 characters)"@[0] == 'I');
    reveal_strlit("Merchant already registered");
    assert("Merchant already registered"@.len() == 27);
    assert("Merchant already registered"@[0] == 'M');
    reveal_strlit("Transaction amount exceeds merchant limit");
    assert("Transaction amount exceeds merchant limit"@.len() == 41);
    assert("Transaction amount exceeds merchant limit"@[0] == 'T');
    reveal_strlit("Invalid transaction limit (must be positive)");
    assert("Invalid transaction limit (must be positive)"@.len() == 44);
    reveal_strlit("Merchant account is inactive");
    assert("Merchant account is inactive"@.len() == 28);
    assert("Merchant account is inactive"@[0] == 'M');
    reveal_strlit("Admin not found");
    assert("Admin not found"@.len() == 15);
    reveal_strlit("Contract is paused");
    assert("Contract is paused"@.len() == 18);
    assert("Contract is paused"@[0] == 'C');
    reveal_strlit("Contract is already paused");
    assert("Contract is already paused"@.len() == 26);
    assert("Contract is already paused"@[0] == 'C');
    reveal_strlit("Invalid fee rate");
    assert("Invalid fee rate"@.len() == 16);
    assert("Invalid fee rate"@[0] == 'I');
    reveal_strlit("Multi-signature payment not found");
    assert("Multi-signature payment not found"@.len() == 33);
    reveal_strlit("Invalid threshold value");
    assert("Invalid threshold value"@.len() == 23);
    reveal_strlit("Signature threshold not met");
    assert("Signature threshold not met"@.len() == 27);
    assert("Signature threshold not met"@[0] == 'S');
    reveal_strlit("Payment already executed");
    assert("Payment already executed"@.len() == 24);
    assert("Payment already executed"@[0] == 'P');
    reveal_strlit("Payment already cancelled");
    assert("Payment already cancelled"@.len() == 25);
    assert("Payment already cancelled"@[8] == 'a');
    reveal_strlit("Payment has expired");
    assert("Payment has expired"@.len() == 19);
    reveal_strlit("Already signed by this signer");
    assert("Already signed by this signer"@.len() == 29);
    reveal_strlit("Not a valid signer for this payment");
    assert("Not a valid signer for this payment"@.len() == 35);
    reveal_strlit("Invalid payment status");
    assert("Invalid payment status"@.len() == 22);
    assert("Invalid payment status"@[0] == 'I');
    reveal_strlit("Signers list cannot be empty");
    assert("Signers list cannot be empty"@.len() == 28);
    assert("Signers list cannot be empty"@[0] == 'S');
    reveal_strlit("Duplicate signer in list");
    assert("Duplicate signer in list"@.len() == 24);
    assert("Duplicate signer in list"@[0] == 'D');
    reveal_strlit("Invalid payment ID");
    assert("Invalid payment ID"@.len() == 18);
    assert("Invalid payment ID"@[0] == 'I');
    reveal_strlit("Refund not found");
    assert("Refund not found"@.len() == 16);
    assert("Refund not found"@[0] == 'R');
    reveal_strlit("Payment not refundable");
    assert("Payment not refundable"@.len() == 22);
    assert("Payment not refundable"@[0] == 'P');
    reveal_strlit("Refund window exceeded");
    assert("Refund window exceeded"@.len() == 22);
    assert("Refund window exceeded"@[0] == 'R');
    reveal_strlit("Refund exceeds original amount");
    assert("Refund exceeds original amount"@.len() == 30);
    assert("Refund exceeds original amount"@[0] == 'R');
    reveal_strlit("Invalid refund status transition");
    assert("Invalid refund status transition"@.len() == 32);
    reveal_strlit("Insufficient balance for refund");
    assert("Insufficient balance for refund"@.len() == 31);
    assert("Insufficient balance for refund"@[0] == 'I');
}


/// `a` is `b` with some elements left out, in the order of `b`.
pub open spec fn is_subsequence(a: Seq<u128>, b: Seq<u128>) -> bool
    decreases b.len(),
{
    if b.len() == 0 {
        a.len() == 0
    } else if a.len() > 0 && a.last() == b.last() {
        is_subsequence(a.drop_last(), b.drop_last()) || is_subsequence(a, b.drop_last())
    } else {
        is_subsequence(a, b.drop_last())
    }
}

/// A batch execution returns the ids it executed in the order they were
/// given, each once, and none of them is pending afterwards.
pub proof fn law_batch_execute_ids(e: ContractEnvModel, ids: Seq<u128>, executor: Seq<u8>)
    ensures
        ({
            let (done, e2) = spec_batch_execute(e, ids, executor);
            &&& is_subsequence(done, ids)
            &&& forall|i: int, j: int| 0 <= i < j < done.len() ==> done[i] != done[j]
            &&& forall|i: int| 0 <= i < done.len() ==> !e2.storage.multisig_payments.contains_key(#[trigger] done[i])
        }),
    decreases ids.len(),
{
    if ids.len() > 0 {
        law_batch_execute_ids(e, ids.drop_last(), executor);
        let (done, e1) = spec_batch_execute(e, ids.drop_last(), executor);
        let (r, e2) = spec_execute(e1, ids.last(), executor);
        if r is Ok {
            let d2 = done.push(ids.last());
            assert(d2.drop_last() =~= done);
            assert forall|i: int| 0 <= i < d2.len() implies !e2.storage.multisig_payments.contains_key(#[trigger] d2[i]) by {
                if i < done.len() {
                    assert(d2[i] == done[i]);
                }
            }
            assert forall|i: int, j: int| 0 <= i < j < d2.len() implies d2[i] != d2[j] by {
                if j == done.len() {
                    assert(d2[i] == done[i]);
                    assert(!e1.storage.multisig_payments.contains_key(done[i]));
                } else {
                    assert(d2[i] == done[i] && d2[j] == done[j]);
                }
            }
        }
    }
}


/// The records a query keeps are exactly the records of `recs` that pass
/// its filters.
proof fn lemma_matching_members(recs: Seq<PaymentRecordModel>, q: PaymentQueryParamsModel)
    ensures
        forall|x: PaymentRecordModel|
            #[trigger] matching_records(recs, q).contains(x) <==> (recs.contains(x) && params_match(x, q)),
    decreases recs.len(),
{
    if recs.len() > 0 {
        let d = recs.drop_last();
        lemma_matching_members(d, q);
        let m = matching_records(d, q);
        assert(recs =~= d.push(recs.last()));
        assert forall|x: PaymentRecordModel|
            #[trigger] matching_records(recs, q).contains(x) <==> (recs.contains(x) && params_match(x, q)) by {
            if recs.contains(x) {
                let i = choose|i: int| 0 <= i < recs.len() && recs[i] == x;
                if i < d.len() {
                    assert(d[i] == x);
                }
            }
            if d.contains(x) {
                let i = choose|i: int| 0 <= i < d.len() && d[i] == x;
                assert(recs[i] == x);
            }
            if params_match(recs.last(), q) {
                let m2 = m.push(recs.last());
                if m2.contains(x) {
                    let i = choose|i: int| 0 <= i < m2.len() && m2[i] == x;
                    if i < m.len() {
                        assert(m[i] == x);
                    }
                }
                if m.contains(x) {
                    let i = choose|i: int| 0 <= i < m.len() && m[i] == x;
                    assert(m2[i] == x);
                }
                assert(m2[m.len() as int] == recs.last());
            }
            assert(recs[recs.len() - 1] == recs.last());
        }
    }
}

/// A query returns only stored records that pass every filter it sets (paid
/// no earlier than its start and no later than its end, an amount within its
/// bounds, and made in its token), and, from the first match on, it leaves
/// out a passing record only when the page is full.
pub proof fn law_query_filters(recs: Seq<PaymentRecordModel>, q: PaymentQueryParamsModel)
    ensures
        forall|i: int| 0 <= i < query_page(recs, q).len() ==> {
            let r = #[trigger] query_page(recs, q)[i];
            &&& recs.contains(r)
            &&& q.start_time matches Some(t) ==> r.paid_at >= t
            &&& q.end_time matches Some(t) ==> r.paid_at <= t
            &&& q.min_amount matches Some(a) ==> r.amount >= a
            &&& q.max_amount matches Some(a) ==> r.amount <= a
            &&& q.token matches Some(t) ==> r.token == t
        },
        q.offset == 0 ==> forall|r: PaymentRecordModel|
            recs.contains(r)
                && (q.start_time matches Some(t) ==> r.paid_at >= t)
                && (q.end_time matches Some(t) ==> r.paid_at <= t)
                && (q.min_amount matches Some(a) ==> r.amount >= a)
                && (q.max_amount matches Some(a) ==> r.amount <= a)
                && (q.token matches Some(t) ==> r.token == t)
                ==> #[trigger] query_page(recs, q).contains(r) || query_page(recs, q).len() == q.limit,
{
    lemma_matching_members(recs, q);
    let m = matching_records(recs, q);
    let p = query_page(recs, q);
    assert forall|i: int| 0 <= i < p.len() implies {
        let r = #[trigger] p[i];
        &&& recs.contains(r)
        &&& params_match(r, q)
    } by {
        let start = if q.offset < m.len() { q.offset as int } else { m.len() as int };
        assert(p[i] == m[start + i]);
        assert(m.contains(m[start + i]));
    }
    if q.offset == 0 {
        assert forall|r: PaymentRecordModel|
            recs.contains(r) && params_match(r, q) && !(#[trigger] p.contains(r)) implies p.len() == q.limit by {
            assert(m.contains(r));
            let j = choose|j: int| 0 <= j < m.len() && m[j] == r;
            if q.limit < m.len() {
                assert(p.len() == q.limit);
            } else {
                assert(p =~= m);
                assert(p[j] == r);
            }
        }
    }
}

proof fn lemma_no_first_error(e: ContractEnvModel, orders: Seq<PaymentOrderModel>, n: int)
    requires
        batch_first_error(e, orders, n) is None,
    ensures
        forall|i: int| 0 <= i < n ==> (#[trigger] batch_order_error(e, orders, i)) is None,
    decreases n,
{
    if n > 0 {
        lemma_no_first_error(e, orders, n - 1);
    }
}

/// A batch of orders is paid only when the contract is not paused, there is
/// one signature per order, and every order is unexpired, for an active
/// stored merchant that accepts its token, with a nonce that the merchant has
/// not used and that no other order of the batch carries for that merchant.
pub proof fn law_batch_orders_all_valid(e: ContractEnvModel, b: BatchPaymentModel)
    requires
        spec_batch_payment_result(e, b) is Ok,
    ensures
        !spec_is_paused(e.storage, e.timestamp),
        b.signatures.len() == b.orders.len(),
        forall|i: int| 0 <= i < b.orders.len() ==> {
            let o = #[trigger] b.orders[i];
            &&& e.timestamp <= o.expiration
            &&& e.storage.merchants.contains_key(o.merchant_address)
            &&& e.storage.merchants[o.merchant_address].active
            &&& e.storage.merchants[o.merchant_address].supported_tokens.contains(o.token)
            &&& !spec_nonce_used(e.storage, o.merchant_address, o.nonce)
        },
        forall|i: int, j: int|
            0 <= i < j < b.orders.len() ==> !(#[trigger] b.orders[i].merchant_address == #[trigger] b.orders[j].merchant_address
                && b.orders[i].nonce == b.orders[j].nonce),
{
    lemma_no_first_error(e, b.orders, b.orders.len() as int);
    assert forall|i: int| 0 <= i < b.orders.len() implies {
        let o = #[trigger] b.orders[i];
        &&& e.timestamp <= o.expiration
        &&& e.storage.merchants.contains_key(o.merchant_address)
        &&& e.storage.merchants[o.merchant_address].active
        &&& e.storage.merchants[o.merchant_address].supported_tokens.contains(o.token)
        &&& !spec_nonce_used(e.storage, o.merchant_address, o.nonce)
    } by {
        assert(batch_order_error(e, b.orders, i) is None);
    }
    assert forall|i: int, j: int|
        0 <= i < j < b.orders.len() implies !(#[trigger] b.orders[i].merchant_address == #[trigger] b.orders[j].merchant_address
            && b.orders[i].nonce == b.orders[j].nonce) by {
        assert(batch_order_error(e, b.orders, j) is None);
        if b.orders[i].merchant_address == b.orders[j].merchant_address && b.orders[i].nonce == b.orders[j].nonce {
            assert(exists|k: int| 0 <= k < j && (#[trigger] b.orders[k]).merchant_address == b.orders[j].merchant_address
                && b.orders[k].nonce == b.orders[j].nonce);
        }
    }
}

/// A merchant's net amount received is what it received less what it
/// refunded, clamped to the range of `i128`.
pub proof fn law_merchant_net_is_received_less_refunded(m: StorageModel, merchant: Seq<u8>)
    ensures
        spec_merchant_stats(m, merchant) matches Some(s) ==> s.net_received == ({
            let d = s.total_received - s.total_refunded;
            if d > i128::MAX { i128::MAX } else if d < i128::MIN { i128::MIN } else { d as i128 }
        }),
        spec_merchant_stats(m, merchant) matches Some(s) ==> s.last_payment matches Some(l) && s.active_since <= l
            && s.merchant_address == merchant,
{
    let recs = ids_to_records(index_list(m.merchant_payment_indices, merchant), m.payments);
    if recs.len() > 0 {
        lemma_paid_at_bounds(recs);
        assert(recs[0].paid_at <= max_paid_at(recs));
    }
}

/// A profile update sets each field it selects to the value it carries and
/// leaves every other field of the merchant as it was, apart from the time
/// of its last activity.
pub proof fn law_profile_update_applies(e: ContractEnvModel, m: Seq<u8>, u: ProfileUpdateDataModel)
    requires
        spec_update_profile_result(e, m, u) is Ok,
    ensures
        ({
            let before = e.storage.merchants[m];
            let after = merchant_saved(e.storage, m, updated_profile(before, u, e.timestamp)).merchants[m];
            &&& after.name == if u.update_name { u.name } else { before.name }
            &&& after.description == if u.update_description { u.description } else { before.description }
            &&& after.contact_info == if u.update_contact_info { u.contact_info } else { before.contact_info }
            &&& after.category == if u.update_category { u.category } else { before.category }
            &&& after.wallet_address == before.wallet_address
            &&& after.active == before.active
            &&& after.supported_tokens == before.supported_tokens
            &&& after.max_transaction_limit == before.max_transaction_limit
            &&& after.registration_timestamp == before.registration_timestamp
            &&& after.last_activity_timestamp == e.timestamp
        }),
{
}


/// The earliest and latest payment times of a non-empty sequence are times
/// of its records, and every record lies between them.
proof fn lemma_paid_at_bounds(s: Seq<PaymentRecordModel>)
    requires
        s.len() > 0,
    ensures
        forall|i: int| 0 <= i < s.len() ==> min_paid_at(s) <= #[trigger] s[i].paid_at <= max_paid_at(s),
        exists|i: int| 0 <= i < s.len() && s[i].paid_at == min_paid_at(s),
        exists|i: int| 0 <= i < s.len() && s[i].paid_at == max_paid_at(s),
    decreases s.len(),
{
    if s.len() == 1 {
        assert(s[0].paid_at == min_paid_at(s));
    } else {
        let d = s.drop_last();
        lemma_paid_at_bounds(d);
        assert forall|i: int| 0 <= i < s.len() implies min_paid_at(s) <= #[trigger] s[i].paid_at <= max_paid_at(s) by {
            if i < d.len() {
                assert(s[i] == d[i]);
            }
        }
        let a = choose|i: int| 0 <= i < d.len() && d[i].paid_at == min_paid_at(d);
        let b = choose|i: int| 0 <= i < d.len() && d[i].paid_at == max_paid_at(d);
        assert(s[a] == d[a] && s[b] == d[b]);
        assert(s[s.len() - 1] == s.last());
    }
}

/// The global statistics count every record, their first and last payment
/// times are the earliest and the latest of the records, and the average is
/// the volume divided by the count, rounded toward zero.
pub proof fn law_global_stats(recs: Seq<PaymentRecordModel>)
    ensures
        recs.len() == 0 <==> spec_global_stats(recs) is None,
        spec_global_stats(recs) matches Some(st) ==> {
            &&& recs.len() <= u32::MAX ==> st.total_payments == recs.len()
            &&& st.first_payment_time matches Some(f) && st.last_payment_time matches Some(l)
                && f <= l
                && (forall|i: int| 0 <= i < recs.len() ==> f <= #[trigger] recs[i].paid_at <= l)
                && (exists|i: int| 0 <= i < recs.len() && recs[i].paid_at == f)
                && (exists|i: int| 0 <= i < recs.len() && recs[i].paid_at == l)
            &&& st.total_volume >= 0 ==> 0 <= st.average_payment * st.total_payments <= st.total_volume
                < (st.average_payment + 1) * st.total_payments
            &&& st.total_volume < 0 ==> (st.average_payment - 1) * st.total_payments < st.total_volume
                <= st.average_payment * st.total_payments <= 0
        },
{
    if recs.len() > 0 {
        lemma_paid_at_bounds(recs);
        assert(recs[0].paid_at <= max_paid_at(recs));
        let st = spec_global_stats(recs)->0;
        let v = st.total_volume as int;
        let c = st.total_payments as int;
        let a = st.average_payment as int;
        assert(c > 0);
        if v >= 0 {
            assert(a == v / c);
            assert(0 <= a * c <= v < (a + 1) * c) by (nonlinear_arith)
                requires
                    v >= 0,
                    c > 0,
                    a == v / c,
            ;
        } else {
            assert(a == -((-v) / c));
            assert((a - 1) * c < v <= a * c <= 0) by (nonlinear_arith)
                requires
                    v < 0,
                    c > 0,
                    a == -((-v) / c),
            ;
        }
    }
}

} // verus!
