//! The contract events that the payment-processing contract publishes.
use vstd::prelude::*;
use crate::address::Address;
use crate::table::Duplicate;
use super::types::{PaymentRecord, PaymentStatus};
use super::contract::{ContractEnv, ContractEnvModel};
use super::types::{LimitsUpdatedEvent, LimitsUpdatedEventModel, MerchantDeactivatedEvent, MerchantDeactivatedEventModel, MerchantRegisteredEvent, MerchantRegisteredEventModel, ProfileUpdatedEvent, ProfileUpdatedEventModel};

verus! {

broadcast use crate::table::lemma_bytes_deep_view;

/// The data of the event that a payment record was created.
#[derive(Clone, Debug, PartialEq)]
pub struct PaymentRecordCreatedEvent {
    pub payment_id: Vec<u8>,
    pub payer: Address,
    pub merchant: Address,
    pub amount: i128,
    pub token: Address,
    pub order_id: Vec<u8>,
    pub timestamp: u64,
}

/// The model of [`PaymentRecordCreatedEvent`].
pub struct PaymentRecordCreatedEventModel {
    pub payment_id: Seq<u8>,
    pub payer: Seq<u8>,
    pub merchant: Seq<u8>,
    pub amount: i128,
    pub token: Seq<u8>,
    pub order_id: Seq<u8>,
    pub timestamp: u64,
}

impl DeepView for PaymentRecordCreatedEvent {
    type V = PaymentRecordCreatedEventModel;

    open spec fn deep_view(&self) -> PaymentRecordCreatedEventModel {
        PaymentRecordCreatedEventModel {
            payment_id: self.payment_id.deep_view(),
            payer: self.payer.deep_view(),
            merchant: self.merchant.deep_view(),
            amount: self.amount,
            token: self.token.deep_view(),
            order_id: self.order_id.deep_view(),
            timestamp: self.timestamp,
        }
    }
}

impl View for PaymentRecordCreatedEvent {
    type V = PaymentRecordCreatedEventModel;

    open spec fn view(&self) -> PaymentRecordCreatedEventModel {
        PaymentRecordCreatedEventModel {
            payment_id: self.payment_id.deep_view(),
            payer: self.payer.deep_view(),
            merchant: self.merchant.deep_view(),
            amount: self.amount,
            token: self.token.deep_view(),
            order_id: self.order_id.deep_view(),
            timestamp: self.timestamp,
        }
    }
}

/// The data of the event that a payment changed status.
#[derive(Clone, Debug, PartialEq)]
pub struct PaymentStatusUpdatedEvent {
    pub payment_id: Vec<u8>,
    pub old_status: PaymentStatus,
    pub new_status: PaymentStatus,
    pub timestamp: u64,
    pub error_message: Option<Vec<u8>>,
}

/// The model of [`PaymentStatusUpdatedEvent`].
pub struct PaymentStatusUpdatedEventModel {
    pub payment_id: Seq<u8>,
    pub old_status: PaymentStatus,
    pub new_status: PaymentStatus,
    pub timestamp: u64,
    pub error_message: Option<Seq<u8>>,
}

impl DeepView for PaymentStatusUpdatedEvent {
    type V = PaymentStatusUpdatedEventModel;

    open spec fn deep_view(&self) -> PaymentStatusUpdatedEventModel {
        PaymentStatusUpdatedEventModel {
            payment_id: self.payment_id.deep_view(),
            old_status: self.old_status,
            new_status: self.new_status,
            timestamp: self.timestamp,
            error_message: self.error_message.deep_view(),
        }
    }
}

impl View for PaymentStatusUpdatedEvent {
    type V = PaymentStatusUpdatedEventModel;

    open spec fn view(&self) -> PaymentStatusUpdatedEventModel {
        PaymentStatusUpdatedEventModel {
            payment_id: self.payment_id.deep_view(),
            old_status: self.old_status,
            new_status: self.new_status,
            timestamp: self.timestamp,
            error_message: self.error_message.deep_view(),
        }
    }
}

/// The data of the event that a payment completed.
#[derive(Clone, Debug, PartialEq)]
pub struct PaymentCompletedEvent {
    pub payment_id: Vec<u8>,
    pub payer: Address,
    pub merchant: Address,
    pub amount: i128,
    pub token: Address,
    pub timestamp: u64,
}

/// The model of [`PaymentCompletedEvent`].
pub struct PaymentCompletedEventModel {
    pub payment_id: Seq<u8>,
    pub payer: Seq<u8>,
    pub merchant: Seq<u8>,
    pub amount: i128,
    pub token: Seq<u8>,
    pub timestamp: u64,
}

impl DeepView for PaymentCompletedEvent {
    type V = PaymentCompletedEventModel;

    open spec fn deep_view(&self) -> PaymentCompletedEventModel {
        PaymentCompletedEventModel {
            payment_id: self.payment_id.deep_view(),
            payer: self.payer.deep_view(),
            merchant: self.merchant.deep_view(),
            amount: self.amount,
            token: self.token.deep_view(),
            timestamp: self.timestamp,
        }
    }
}

impl View for PaymentCompletedEvent {
    type V = PaymentCompletedEventModel;

    open spec fn view(&self) -> PaymentCompletedEventModel {
        PaymentCompletedEventModel {
            payment_id: self.payment_id.deep_view(),
            payer: self.payer.deep_view(),
            merchant: self.merchant.deep_view(),
            amount: self.amount,
            token: self.token.deep_view(),
            timestamp: self.timestamp,
        }
    }
}

/// The data of the event that a payment failed.
#[derive(Clone, Debug, PartialEq)]
pub struct PaymentFailedEvent {
    pub payment_id: Vec<u8>,
    pub payer: Address,
    pub merchant: Address,
    pub error_message: Vec<u8>,
    pub timestamp: u64,
}

/// The model of [`PaymentFailedEvent`].
pub struct PaymentFailedEventModel {
    pub payment_id: Seq<u8>,
    pub payer: Seq<u8>,
    pub merchant: Seq<u8>,
    pub error_message: Seq<u8>,
    pub timestamp: u64,
}

impl DeepView for PaymentFailedEvent {
    type V = PaymentFailedEventModel;

    open spec fn deep_view(&self) -> PaymentFailedEventModel {
        PaymentFailedEventModel {
            payment_id: self.payment_id.deep_view(),
            payer: self.payer.deep_view(),
            merchant: self.merchant.deep_view(),
            error_message: self.error_message.deep_view(),
            timestamp: self.timestamp,
        }
    }
}

impl View for PaymentFailedEvent {
    type V = PaymentFailedEventModel;

    open spec fn view(&self) -> PaymentFailedEventModel {
        PaymentFailedEventModel {
            payment_id: self.payment_id.deep_view(),
            payer: self.payer.deep_view(),
            merchant: self.merchant.deep_view(),
            error_message: self.error_message.deep_view(),
            timestamp: self.timestamp,
        }
    }
}

/// The data of the event that payments were reconciled.
#[derive(Clone, Debug, PartialEq)]
pub struct PaymentReconciliationEvent {
    pub payment_ids: Vec<Vec<u8>>,
    pub inconsistencies_found: u32,
    pub inconsistencies_fixed: u32,
    pub timestamp: u64,
}

/// The model of [`PaymentReconciliationEvent`].
pub struct PaymentReconciliationEventModel {
    pub payment_ids: Seq<Seq<u8>>,
    pub inconsistencies_found: u32,
    pub inconsistencies_fixed: u32,
    pub timestamp: u64,
}

impl DeepView for PaymentReconciliationEvent {
    type V = PaymentReconciliationEventModel;

    open spec fn deep_view(&self) -> PaymentReconciliationEventModel {
        PaymentReconciliationEventModel {
            payment_ids: self.payment_ids.deep_view(),
            inconsistencies_found: self.inconsistencies_found,
            inconsistencies_fixed: self.inconsistencies_fixed,
            timestamp: self.timestamp,
        }
    }
}

impl View for PaymentReconciliationEvent {
    type V = PaymentReconciliationEventModel;

    open spec fn view(&self) -> PaymentReconciliationEventModel {
        PaymentReconciliationEventModel {
            payment_ids: self.payment_ids.deep_view(),
            inconsistencies_found: self.inconsistencies_found,
            inconsistencies_fixed: self.inconsistencies_fixed,
            timestamp: self.timestamp,
        }
    }
}

/// An event that the contract asks the host to publish.
#[derive(Clone, Debug, PartialEq)]
pub enum PaymentEvent {
    /// Topic `merchant_reg`.
    MerchantRegistered(MerchantRegisteredEvent),
    /// Topic `profile_upd`.
    ProfileUpdated(ProfileUpdatedEvent),
    /// Topic `merchant_deact`.
    MerchantDeactivated(MerchantDeactivatedEvent),
    /// Topic `limits_upd`.
    LimitsUpdated(LimitsUpdatedEvent),
    /// Topic `fee_collected`: collector, fee amount, order id.
    FeeCollected(Address, i128, Vec<u8>),
    /// Topic `fee_info_set`: rate, collector, token.
    FeeInfoSet(u64, Address, Address),
    /// Topics `contract_paused` and the admin; data: ledger time.
    ContractPaused(Address, u64),
    /// Topics `contract_unpaused` and the admin; data: ledger time.
    ContractUnpaused(Address, u64),
    /// Topic `refund_initiated`: refund id, order id, amount.
    RefundInitiated(Vec<u8>, Vec<u8>, i128),
    /// Topic `refund_approved`: refund id.
    RefundApproved(Vec<u8>),
    /// Topic `refund_rejected`: refund id.
    RefundRejected(Vec<u8>),
    /// Topic `refund_executed`: refund id, amount.
    RefundExecuted(Vec<u8>, i128),
    /// Topic `pay_creat`.
    PaymentRecordCreated(PaymentRecordCreatedEvent),
    /// Topic `pay_stat`.
    PaymentStatusUpdated(PaymentStatusUpdatedEvent),
    /// Topic `pay_done`.
    PaymentCompleted(PaymentCompletedEvent),
    /// Topic `pay_fail`.
    PaymentFailed(PaymentFailedEvent),
    /// Topic `pay_recon`.
    PaymentReconciliation(PaymentReconciliationEvent),
}

/// The model of [`PaymentEvent`].
pub enum PaymentEventModel {
    MerchantRegistered(MerchantRegisteredEventModel),
    ProfileUpdated(ProfileUpdatedEventModel),
    MerchantDeactivated(MerchantDeactivatedEventModel),
    LimitsUpdated(LimitsUpdatedEventModel),
    FeeCollected(Seq<u8>, i128, Seq<u8>),
    FeeInfoSet(u64, Seq<u8>, Seq<u8>),
    ContractPaused(Seq<u8>, u64),
    ContractUnpaused(Seq<u8>, u64),
    RefundInitiated(Seq<u8>, Seq<u8>, i128),
    RefundApproved(Seq<u8>),
    RefundRejected(Seq<u8>),
    RefundExecuted(Seq<u8>, i128),
    PaymentRecordCreated(PaymentRecordCreatedEventModel),
    PaymentStatusUpdated(PaymentStatusUpdatedEventModel),
    PaymentCompleted(PaymentCompletedEventModel),
    PaymentFailed(PaymentFailedEventModel),
    PaymentReconciliation(PaymentReconciliationEventModel),
}

impl DeepView for PaymentEvent {
    type V = PaymentEventModel;

    open spec fn deep_view(&self) -> PaymentEventModel {
        match self {
            PaymentEvent::MerchantRegistered(e) => PaymentEventModel::MerchantRegistered(e@),
            PaymentEvent::ProfileUpdated(e) => PaymentEventModel::ProfileUpdated(e@),
            PaymentEvent::MerchantDeactivated(e) => PaymentEventModel::MerchantDeactivated(e@),
            PaymentEvent::LimitsUpdated(e) => PaymentEventModel::LimitsUpdated(e@),
            PaymentEvent::FeeCollected(a, x, o) => PaymentEventModel::FeeCollected(a@, *x, o@),
            PaymentEvent::FeeInfoSet(r, a, b) => PaymentEventModel::FeeInfoSet(*r, a@, b@),
            PaymentEvent::ContractPaused(a, t) => PaymentEventModel::ContractPaused(a@, *t),
            PaymentEvent::ContractUnpaused(a, t) => PaymentEventModel::ContractUnpaused(a@, *t),
            PaymentEvent::RefundInitiated(r, o, x) => PaymentEventModel::RefundInitiated(r@, o@, *x),
            PaymentEvent::RefundApproved(r) => PaymentEventModel::RefundApproved(r@),
            PaymentEvent::RefundRejected(r) => PaymentEventModel::RefundRejected(r@),
            PaymentEvent::RefundExecuted(r, x) => PaymentEventModel::RefundExecuted(r@, *x),
            PaymentEvent::PaymentRecordCreated(e) => PaymentEventModel::PaymentRecordCreated(e@),
            PaymentEvent::PaymentStatusUpdated(e) => PaymentEventModel::PaymentStatusUpdated(e@),
            PaymentEvent::PaymentCompleted(e) => PaymentEventModel::PaymentCompleted(e@),
            PaymentEvent::PaymentFailed(e) => PaymentEventModel::PaymentFailed(e@),
            PaymentEvent::PaymentReconciliation(e) => PaymentEventModel::PaymentReconciliation(e@),
        }
    }
}

impl View for PaymentEvent {
    type V = PaymentEventModel;

    open spec fn view(&self) -> PaymentEventModel {
        self.deep_view()
    }
}

/// The topic symbol of each event.
pub open spec fn spec_event_topic(e: PaymentEventModel) -> Seq<char> {
    match e {
        PaymentEventModel::MerchantRegistered(_) => "merchant_reg"@,
        PaymentEventModel::ProfileUpdated(_) => "profile_upd"@,
        PaymentEventModel::MerchantDeactivated(_) => "merchant_deact"@,
        PaymentEventModel::LimitsUpdated(_) => "limits_upd"@,
        PaymentEventModel::FeeCollected(..) => "fee_collected"@,
        PaymentEventModel::FeeInfoSet(..) => "fee_info_set"@,
        PaymentEventModel::ContractPaused(..) => "contract_paused"@,
        PaymentEventModel::ContractUnpaused(..) => "contract_unpaused"@,
        PaymentEventModel::RefundInitiated(..) => "refund_initiated"@,
        PaymentEventModel::RefundApproved(..) => "refund_approved"@,
        PaymentEventModel::RefundRejected(..) => "refund_rejected"@,
        PaymentEventModel::RefundExecuted(..) => "refund_executed"@,
        PaymentEventModel::PaymentRecordCreated(_) => "pay_creat"@,
        PaymentEventModel::PaymentStatusUpdated(_) => "pay_stat"@,
        PaymentEventModel::PaymentCompleted(_) => "pay_done"@,
        PaymentEventModel::PaymentFailed(_) => "pay_fail"@,
        PaymentEventModel::PaymentReconciliation(_) => "pay_recon"@,
    }
}

impl PaymentEvent {
    /// The topic under which the event is published.
    pub fn topic(&self) -> (t: &'static str)
        ensures
            t@ == spec_event_topic(self@),
    {
        match self {
            PaymentEvent::MerchantRegistered(_) => merchant_registered_topic(),
            PaymentEvent::ProfileUpdated(_) => profile_updated_topic(),
            PaymentEvent::MerchantDeactivated(_) => merchant_deactivated_topic(),
            PaymentEvent::LimitsUpdated(_) => limits_updated_topic(),
            PaymentEvent::FeeCollected(..) => "fee_collected",
            PaymentEvent::FeeInfoSet(..) => "fee_info_set",
            PaymentEvent::ContractPaused(..) => "contract_paused",
            PaymentEvent::ContractUnpaused(..) => "contract_unpaused",
            PaymentEvent::RefundInitiated(..) => "refund_initiated",
            PaymentEvent::RefundApproved(..) => "refund_approved",
            PaymentEvent::RefundRejected(..) => "refund_rejected",
            PaymentEvent::RefundExecuted(..) => "refund_executed",
            PaymentEvent::PaymentRecordCreated(_) => "pay_creat",
            PaymentEvent::PaymentStatusUpdated(_) => "pay_stat",
            PaymentEvent::PaymentCompleted(_) => "pay_done",
            PaymentEvent::PaymentFailed(_) => "pay_fail",
            PaymentEvent::PaymentReconciliation(_) => "pay_recon",
        }
    }
}

/// The topic of merchant registrations.
pub fn merchant_registered_topic() -> (t: &'static str)
    ensures
        t@ == "merchant_reg"@,
{
    "merchant_reg"
}

/// The topic of profile updates.
pub fn profile_updated_topic() -> (t: &'static str)
    ensures
        t@ == "profile_upd"@,
{
    "profile_upd"
}

/// The topic of merchant deactivations.
pub fn merchant_deactivated_topic() -> (t: &'static str)
    ensures
        t@ == "merchant_deact"@,
{
    "merchant_deact"
}

/// The topic of transaction limit changes.
pub fn limits_updated_topic() -> (t: &'static str)
    ensures
        t@ == "limits_upd"@,
{
    "limits_upd"
}

/// Publishes the payment lifecycle events.
pub struct Events;

/// The environment after `ev` is added to the events to publish.
pub open spec fn with_event(e: ContractEnvModel, ev: PaymentEventModel) -> ContractEnvModel {
    ContractEnvModel { events: e.events.push(ev), ..e }
}

impl Events {
    /// Publishes `pay_creat` for a new payment record, identified by its
    /// order id and stamped with its payment time.
    pub fn emit_payment_record_created(env: &mut ContractEnv, record: &PaymentRecord)
        requires
            old(env).wf(),
        ensures
            final(env).wf(),
            final(env)@ == with_event(old(env)@, PaymentEventModel::PaymentRecordCreated(PaymentRecordCreatedEventModel {
                payment_id: record@.order_id,
                payer: record@.payer_address,
                merchant: record@.merchant_address,
                amount: record@.amount,
                token: record@.token,
                order_id: record@.order_id,
                timestamp: record@.paid_at,
            })),
    {
        env.push_event(PaymentEvent::PaymentRecordCreated(PaymentRecordCreatedEvent {
            payment_id: record.order_id.duplicate(),
            payer: record.payer_address.duplicate(),
            merchant: record.merchant_address.duplicate(),
            amount: record.amount,
            token: record.token.duplicate(),
            order_id: record.order_id.duplicate(),
            timestamp: record.paid_at,
        }));
    }

    /// Publishes `pay_stat` for a payment that moved from `old_status` to
    /// `new_status` at the ledger time.
    pub fn emit_payment_status_updated(
        env: &mut ContractEnv,
        payment_id: &Vec<u8>,
        old_status: PaymentStatus,
        new_status: PaymentStatus,
        error_message: Option<Vec<u8>>,
    )
        requires
            old(env).wf(),
        ensures
            final(env).wf(),
            final(env)@ == with_event(old(env)@, PaymentEventModel::PaymentStatusUpdated(PaymentStatusUpdatedEventModel {
                payment_id: payment_id@,
                old_status,
                new_status,
                timestamp: old(env)@.timestamp,
                error_message: error_message.deep_view(),
            })),
    {
        let timestamp = env.timestamp;
        env.push_event(PaymentEvent::PaymentStatusUpdated(PaymentStatusUpdatedEvent {
            payment_id: payment_id.duplicate(),
            old_status,
            new_status,
            timestamp,
            error_message,
        }));
    }

    /// Publishes `pay_done` for a completed payment at the ledger time.
    pub fn emit_payment_completed(env: &mut ContractEnv, record: &PaymentRecord)
        requires
            old(env).wf(),
        ensures
            final(env).wf(),
            final(env)@ == with_event(old(env)@, PaymentEventModel::PaymentCompleted(PaymentCompletedEventModel {
                payment_id: record@.order_id,
                payer: record@.payer_address,
                merchant: record@.merchant_address,
                amount: record@.amount,
                token: record@.token,
                timestamp: old(env)@.timestamp,
            })),
    {
        let timestamp = env.timestamp;
        env.push_event(PaymentEvent::PaymentCompleted(PaymentCompletedEvent {
            payment_id: record.order_id.duplicate(),
            payer: record.payer_address.duplicate(),
            merchant: record.merchant_address.duplicate(),
            amount: record.amount,
            token: record.token.duplicate(),
            timestamp,
        }));
    }

    /// Publishes `pay_fail` for a failed payment at the ledger time.
    pub fn emit_payment_failed(
        env: &mut ContractEnv,
        payment_id: &Vec<u8>,
        payer: &Address,
        merchant: &Address,
        error_message: Vec<u8>,
    )
        requires
            old(env).wf(),
        ensures
            final(env).wf(),
            final(env)@ == with_event(old(env)@, PaymentEventModel::PaymentFailed(PaymentFailedEventModel {
                payment_id: payment_id@,
                payer: payer@,
                merchant: merchant@,
                error_message: error_message@,
                timestamp: old(env)@.timestamp,
            })),
    {
        let timestamp = env.timestamp;
        env.push_event(PaymentEvent::PaymentFailed(PaymentFailedEvent {
            payment_id: payment_id.duplicate(),
            payer: payer.duplicate(),
            merchant: merchant.duplicate(),
            error_message,
            timestamp,
        }));
    }

    /// Publishes `pay_recon` for a reconciliation of `payment_ids` at the
    /// ledger time.
    pub fn emit_payment_reconciliation(
        env: &mut ContractEnv,
        payment_ids: Vec<Vec<u8>>,
        inconsistencies_found: u32,
        inconsistencies_fixed: u32,
    )
        requires
            old(env).wf(),
        ensures
            final(env).wf(),
            final(env)@ == with_event(old(env)@, PaymentEventModel::PaymentReconciliation(PaymentReconciliationEventModel {
                payment_ids: payment_ids.deep_view(),
                inconsistencies_found,
                inconsistencies_fixed,
                timestamp: old(env)@.timestamp,
            })),
    {
        let timestamp = env.timestamp;
        env.push_event(PaymentEvent::PaymentReconciliation(PaymentReconciliationEvent {
            payment_ids,
            inconsistencies_found,
            inconsistencies_fixed,
            timestamp,
        }));
    }
}

} // verus!
