//! Data types of the payment-processing contract.
use vstd::prelude::*;
use crate::address::Address;
use crate::address::list_contains;
use crate::table::{Duplicate, Table, seq_to_map};

verus! {

/// The business category of a merchant.
#[derive(Clone, Copy, Debug, PartialEq, Eq, Structural)]
pub enum MerchantCategory {
    Retail,
    ECommerce,
    Hospitality,
    Professional,
    Entertainment,
    Other,
}

impl DeepView for MerchantCategory {
    type V = MerchantCategory;

    open spec fn deep_view(&self) -> MerchantCategory {
        *self
    }
}

impl View for MerchantCategory {
    type V = MerchantCategory;

    open spec fn view(&self) -> MerchantCategory {
        *self
    }
}

impl Duplicate for MerchantCategory {
    fn duplicate(&self) -> (r: Self) {
        *self
    }
}

/// A registered merchant.
#[derive(Clone, Debug, PartialEq)]
pub struct Merchant {
    pub wallet_address: Address,
    pub active: bool,
    /// Tokens the merchant accepts, in the order they were added.
    pub supported_tokens: Vec<Address>,
    pub name: Vec<u8>,
    pub description: Vec<u8>,
    pub contact_info: Vec<u8>,
    pub registration_timestamp: u64,
    pub last_activity_timestamp: u64,
    pub category: MerchantCategory,
    pub max_transaction_limit: i128,
}

/// The model of [`Merchant`].
pub struct MerchantModel {
    pub wallet_address: Seq<u8>,
    pub active: bool,
    pub supported_tokens: Seq<Seq<u8>>,
    pub name: Seq<u8>,
    pub description: Seq<u8>,
    pub contact_info: Seq<u8>,
    pub registration_timestamp: u64,
    pub last_activity_timestamp: u64,
    pub category: MerchantCategory,
    pub max_transaction_limit: i128,
}

impl DeepView for Merchant {
    type V = MerchantModel;

    open spec fn deep_view(&self) -> MerchantModel {
        MerchantModel {
            wallet_address: self.wallet_address.deep_view(),
            active: self.active.deep_view(),
            supported_tokens: self.supported_tokens.deep_view(),
            name: self.name.deep_view(),
            description: self.description.deep_view(),
            contact_info: self.contact_info.deep_view(),
            registration_timestamp: self.registration_timestamp.deep_view(),
            last_activity_timestamp: self.last_activity_timestamp.deep_view(),
            category: self.category.deep_view(),
            max_transaction_limit: self.max_transaction_limit.deep_view(),
        }
    }
}

impl View for Merchant {
    type V = MerchantModel;

    open spec fn view(&self) -> MerchantModel {
        MerchantModel {
            wallet_address: self.wallet_address.deep_view(),
            active: self.active.deep_view(),
            supported_tokens: self.supported_tokens.deep_view(),
            name: self.name.deep_view(),
            description: self.description.deep_view(),
            contact_info: self.contact_info.deep_view(),
            registration_timestamp: self.registration_timestamp.deep_view(),
            last_activity_timestamp: self.last_activity_timestamp.deep_view(),
            category: self.category.deep_view(),
            max_transaction_limit: self.max_transaction_limit.deep_view(),
        }
    }
}

impl Duplicate for Merchant {
    fn duplicate(&self) -> (r: Self) {
        Merchant {
            wallet_address: self.wallet_address.duplicate(),
            active: self.active.duplicate(),
            supported_tokens: self.supported_tokens.duplicate(),
            name: self.name.duplicate(),
            description: self.description.duplicate(),
            contact_info: self.contact_info.duplicate(),
            registration_timestamp: self.registration_timestamp.duplicate(),
            last_activity_timestamp: self.last_activity_timestamp.duplicate(),
            category: self.category.duplicate(),
            max_transaction_limit: self.max_transaction_limit.duplicate(),
        }
    }
}

/// Which profile fields to change, and their new values.
#[derive(Clone, Debug, PartialEq)]
pub struct ProfileUpdateData {
    pub update_name: bool,
    pub name: Vec<u8>,
    pub update_description: bool,
    pub description: Vec<u8>,
    pub update_contact_info: bool,
    pub contact_info: Vec<u8>,
    pub update_category: bool,
    pub category: MerchantCategory,
}

/// The model of [`ProfileUpdateData`].
pub struct ProfileUpdateDataModel {
    pub update_name: bool,
    pub name: Seq<u8>,
    pub update_description: bool,
    pub description: Seq<u8>,
    pub update_contact_info: bool,
    pub contact_info: Seq<u8>,
    pub update_category: bool,
    pub category: MerchantCategory,
}

impl DeepView for ProfileUpdateData {
    type V = ProfileUpdateDataModel;

    open spec fn deep_view(&self) -> ProfileUpdateDataModel {
        ProfileUpdateDataModel {
            update_name: self.update_name.deep_view(),
            name: self.name.deep_view(),
            update_description: self.update_description.deep_view(),
            description: self.description.deep_view(),
            update_contact_info: self.update_contact_info.deep_view(),
            contact_info: self.contact_info.deep_view(),
            update_category: self.update_category.deep_view(),
            category: self.category.deep_view(),
        }
    }
}

impl View for ProfileUpdateData {
    type V = ProfileUpdateDataModel;

    open spec fn view(&self) -> ProfileUpdateDataModel {
        ProfileUpdateDataModel {
            update_name: self.update_name.deep_view(),
            name: self.name.deep_view(),
            update_description: self.update_description.deep_view(),
            description: self.description.deep_view(),
            update_contact_info: self.update_contact_info.deep_view(),
            contact_info: self.contact_info.deep_view(),
            update_category: self.update_category.deep_view(),
            category: self.category.deep_view(),
        }
    }
}

impl Duplicate for ProfileUpdateData {
    fn duplicate(&self) -> (r: Self) {
        ProfileUpdateData {
            update_name: self.update_name.duplicate(),
            name: self.name.duplicate(),
            update_description: self.update_description.duplicate(),
            description: self.description.duplicate(),
            update_contact_info: self.update_contact_info.duplicate(),
            contact_info: self.contact_info.duplicate(),
            update_category: self.update_category.duplicate(),
            category: self.category.duplicate(),
        }
    }
}

/// A payment order signed by a merchant.
#[derive(Clone, Debug, PartialEq)]
pub struct PaymentOrder {
    pub merchant_address: Address,
    pub amount: i64,
    pub token: Address,
    pub nonce: u32,
    /// Ledger time after which the order is refused.
    pub expiration: u32,
    pub order_id: Vec<u8>,
    pub fee_amount: i128,
}

/// The model of [`PaymentOrder`].
pub struct PaymentOrderModel {
    pub merchant_address: Seq<u8>,
    pub amount: i64,
    pub token: Seq<u8>,
    pub nonce: u32,
    pub expiration: u32,
    pub order_id: Seq<u8>,
    pub fee_amount: i128,
}

impl DeepView for PaymentOrder {
    type V = PaymentOrderModel;

    open spec fn deep_view(&self) -> PaymentOrderModel {
        PaymentOrderModel {
            merchant_address: self.merchant_address.deep_view(),
            amount: self.amount.deep_view(),
            token: self.token.deep_view(),
            nonce: self.nonce.deep_view(),
            expiration: self.expiration.deep_view(),
            order_id: self.order_id.deep_view(),
            fee_amount: self.fee_amount.deep_view(),
        }
    }
}

impl View for PaymentOrder {
    type V = PaymentOrderModel;

    open spec fn view(&self) -> PaymentOrderModel {
        PaymentOrderModel {
            merchant_address: self.merchant_address.deep_view(),
            amount: self.amount.deep_view(),
            token: self.token.deep_view(),
            nonce: self.nonce.deep_view(),
            expiration: self.expiration.deep_view(),
            order_id: self.order_id.deep_view(),
            fee_amount: self.fee_amount.deep_view(),
        }
    }
}

impl Duplicate for PaymentOrder {
    fn duplicate(&self) -> (r: Self) {
        PaymentOrder {
            merchant_address: self.merchant_address.duplicate(),
            amount: self.amount.duplicate(),
            token: self.token.duplicate(),
            nonce: self.nonce.duplicate(),
            expiration: self.expiration.duplicate(),
            order_id: self.order_id.duplicate(),
            fee_amount: self.fee_amount.duplicate(),
        }
    }
}

/// Merchants to register in one call.
#[derive(Clone, Debug, PartialEq)]
pub struct BatchMerchantRegistration {
    pub merchants: Vec<Address>,
}

/// The model of [`BatchMerchantRegistration`].
pub struct BatchMerchantRegistrationModel {
    pub merchants: Seq<Seq<u8>>,
}

impl DeepView for BatchMerchantRegistration {
    type V = BatchMerchantRegistrationModel;

    open spec fn deep_view(&self) -> BatchMerchantRegistrationModel {
        BatchMerchantRegistrationModel {
            merchants: self.merchants.deep_view(),
        }
    }
}

impl View for BatchMerchantRegistration {
    type V = BatchMerchantRegistrationModel;

    open spec fn view(&self) -> BatchMerchantRegistrationModel {
        BatchMerchantRegistrationModel {
            merchants: self.merchants.deep_view(),
        }
    }
}

impl Duplicate for BatchMerchantRegistration {
    fn duplicate(&self) -> (r: Self) {
        BatchMerchantRegistration {
            merchants: self.merchants.duplicate(),
        }
    }
}

/// Tokens to add to one merchant in one call.
#[derive(Clone, Debug, PartialEq)]
pub struct BatchTokenAddition {
    pub merchant: Address,
    pub tokens: Vec<Address>,
}

/// The model of [`BatchTokenAddition`].
pub struct BatchTokenAdditionModel {
    pub merchant: Seq<u8>,
    pub tokens: Seq<Seq<u8>>,
}

impl DeepView for BatchTokenAddition {
    type V = BatchTokenAdditionModel;

    open spec fn deep_view(&self) -> BatchTokenAdditionModel {
        BatchTokenAdditionModel {
            merchant: self.merchant.deep_view(),
            tokens: self.tokens.deep_view(),
        }
    }
}

impl View for BatchTokenAddition {
    type V = BatchTokenAdditionModel;

    open spec fn view(&self) -> BatchTokenAdditionModel {
        BatchTokenAdditionModel {
            merchant: self.merchant.deep_view(),
            tokens: self.tokens.deep_view(),
        }
    }
}

impl Duplicate for BatchTokenAddition {
    fn duplicate(&self) -> (r: Self) {
        BatchTokenAddition {
            merchant: self.merchant.duplicate(),
            tokens: self.tokens.duplicate(),
        }
    }
}

/// Orders that one payer pays in one call, with the merchant signature of each.
#[derive(Clone, Debug, PartialEq)]
pub struct BatchPayment {
    pub payer: Address,
    pub orders: Vec<PaymentOrder>,
    /// One 64-byte signature per order.
    pub signatures: Vec<Vec<u8>>,
    pub merchant_public_key: Vec<u8>,
}

/// The model of [`BatchPayment`].
pub struct BatchPaymentModel {
    pub payer: Seq<u8>,
    pub orders: Seq<PaymentOrderModel>,
    pub signatures: Seq<Seq<u8>>,
    pub merchant_public_key: Seq<u8>,
}

impl DeepView for BatchPayment {
    type V = BatchPaymentModel;

    open spec fn deep_view(&self) -> BatchPaymentModel {
        BatchPaymentModel {
            payer: self.payer.deep_view(),
            orders: self.orders.deep_view(),
            signatures: self.signatures.deep_view(),
            merchant_public_key: self.merchant_public_key.deep_view(),
        }
    }
}

impl View for BatchPayment {
    type V = BatchPaymentModel;

    open spec fn view(&self) -> BatchPaymentModel {
        BatchPaymentModel {
            payer: self.payer.deep_view(),
            orders: self.orders.deep_view(),
            signatures: self.signatures.deep_view(),
            merchant_public_key: self.merchant_public_key.deep_view(),
        }
    }
}

impl Duplicate for BatchPayment {
    fn duplicate(&self) -> (r: Self) {
        BatchPayment {
            payer: self.payer.duplicate(),
            orders: self.orders.duplicate(),
            signatures: self.signatures.duplicate(),
            merchant_public_key: self.merchant_public_key.duplicate(),
        }
    }
}

/// An estimate of the gas that an operation uses.
#[derive(Clone, Debug, PartialEq)]
pub struct GasEstimate {
    pub base_gas: u64,
    pub per_item_gas: u64,
    pub total_estimated: u64,
}

/// The model of [`GasEstimate`].
pub struct GasEstimateModel {
    pub base_gas: u64,
    pub per_item_gas: u64,
    pub total_estimated: u64,
}

impl DeepView for GasEstimate {
    type V = GasEstimateModel;

    open spec fn deep_view(&self) -> GasEstimateModel {
        GasEstimateModel {
            base_gas: self.base_gas.deep_view(),
            per_item_gas: self.per_item_gas.deep_view(),
            total_estimated: self.total_estimated.deep_view(),
        }
    }
}

impl View for GasEstimate {
    type V = GasEstimateModel;

    open spec fn view(&self) -> GasEstimateModel {
        GasEstimateModel {
            base_gas: self.base_gas.deep_view(),
            per_item_gas: self.per_item_gas.deep_view(),
            total_estimated: self.total_estimated.deep_view(),
        }
    }
}

impl Duplicate for GasEstimate {
    fn duplicate(&self) -> (r: Self) {
        GasEstimate {
            base_gas: self.base_gas.duplicate(),
            per_item_gas: self.per_item_gas.duplicate(),
            total_estimated: self.total_estimated.duplicate(),
        }
    }
}

/// The nonces that a merchant's orders have used, as a bitmap.
#[derive(Clone, Debug, PartialEq)]
pub struct NonceTracker {
    /// Word `w` holds the nonces `32 * w` to `32 * w + 31`, one bit each.
    pub nonce_bitmap: Table<u32, u32>,
    pub highest_nonce: u32,
}

/// The model of [`NonceTracker`].
pub struct NonceTrackerModel {
    pub nonce_bitmap: Seq<(u32, u32)>,
    pub highest_nonce: u32,
}

impl DeepView for NonceTracker {
    type V = NonceTrackerModel;

    open spec fn deep_view(&self) -> NonceTrackerModel {
        NonceTrackerModel {
            nonce_bitmap: self.nonce_bitmap.deep_view(),
            highest_nonce: self.highest_nonce.deep_view(),
        }
    }
}

impl View for NonceTracker {
    type V = NonceTrackerModel;

    open spec fn view(&self) -> NonceTrackerModel {
        NonceTrackerModel {
            nonce_bitmap: self.nonce_bitmap.deep_view(),
            highest_nonce: self.highest_nonce.deep_view(),
        }
    }
}

impl Duplicate for NonceTracker {
    fn duplicate(&self) -> (r: Self) {
        NonceTracker {
            nonce_bitmap: self.nonce_bitmap.duplicate(),
            highest_nonce: self.highest_nonce.duplicate(),
        }
    }
}

/// The fee that the contract takes from each payment.
#[derive(Clone, Debug, PartialEq)]
pub struct Fee {
    /// Percent of the payment amount.
    pub fee_rate: u64,
    pub fee_collector: Address,
    pub fee_token: Address,
}

/// The model of [`Fee`].
pub struct FeeModel {
    pub fee_rate: u64,
    pub fee_collector: Seq<u8>,
    pub fee_token: Seq<u8>,
}

impl DeepView for Fee {
    type V = FeeModel;

    open spec fn deep_view(&self) -> FeeModel {
        FeeModel {
            fee_rate: self.fee_rate.deep_view(),
            fee_collector: self.fee_collector.deep_view(),
            fee_token: self.fee_token.deep_view(),
        }
    }
}

impl View for Fee {
    type V = FeeModel;

    open spec fn view(&self) -> FeeModel {
        FeeModel {
            fee_rate: self.fee_rate.deep_view(),
            fee_collector: self.fee_collector.deep_view(),
            fee_token: self.fee_token.deep_view(),
        }
    }
}

impl Duplicate for Fee {
    fn duplicate(&self) -> (r: Self) {
        Fee {
            fee_rate: self.fee_rate.duplicate(),
            fee_collector: self.fee_collector.duplicate(),
            fee_token: self.fee_token.duplicate(),
        }
    }
}

/// The state of a multi-signature payment.
#[derive(Clone, Copy, Debug, PartialEq, Eq, Structural)]
pub enum PaymentStatus {
    Pending,
    Executed,
    Cancelled,
}

impl DeepView for PaymentStatus {
    type V = PaymentStatus;

    open spec fn deep_view(&self) -> PaymentStatus {
        *self
    }
}

impl View for PaymentStatus {
    type V = PaymentStatus;

    open spec fn view(&self) -> PaymentStatus {
        *self
    }
}

impl Duplicate for PaymentStatus {
    fn duplicate(&self) -> (r: Self) {
        *self
    }
}

/// A payment that needs a number of signers to approve it.
#[derive(Clone, Debug, PartialEq)]
pub struct MultiSigPayment {
    pub payment_id: u128,
    pub amount: i128,
    pub token: Address,
    pub recipient: Address,
    pub signers: Vec<Address>,
    pub threshold: u32,
    /// The signers who have signed.
    pub signatures: Table<Address, bool>,
    pub status: PaymentStatus,
    pub expiry: u64,
    pub created_at: u64,
    /// Why the payment was cancelled.
    pub reason: Option<Vec<u8>>,
}

/// The model of [`MultiSigPayment`].
pub struct MultiSigPaymentModel {
    pub payment_id: u128,
    pub amount: i128,
    pub token: Seq<u8>,
    pub recipient: Seq<u8>,
    pub signers: Seq<Seq<u8>>,
    pub threshold: u32,
    pub signatures: Seq<(Seq<u8>, bool)>,
    pub status: PaymentStatus,
    pub expiry: u64,
    pub created_at: u64,
    pub reason: Option<Seq<u8>>,
}

impl DeepView for MultiSigPayment {
    type V = MultiSigPaymentModel;

    open spec fn deep_view(&self) -> MultiSigPaymentModel {
        MultiSigPaymentModel {
            payment_id: self.payment_id.deep_view(),
            amount: self.amount.deep_view(),
            token: self.token.deep_view(),
            recipient: self.recipient.deep_view(),
            signers: self.signers.deep_view(),
            threshold: self.threshold.deep_view(),
            signatures: self.signatures.deep_view(),
            status: self.status.deep_view(),
            expiry: self.expiry.deep_view(),
            created_at: self.created_at.deep_view(),
            reason: self.reason.deep_view(),
        }
    }
}

impl View for MultiSigPayment {
    type V = MultiSigPaymentModel;

    open spec fn view(&self) -> MultiSigPaymentModel {
        MultiSigPaymentModel {
            payment_id: self.payment_id.deep_view(),
            amount: self.amount.deep_view(),
            token: self.token.deep_view(),
            recipient: self.recipient.deep_view(),
            signers: self.signers.deep_view(),
            threshold: self.threshold.deep_view(),
            signatures: self.signatures.deep_view(),
            status: self.status.deep_view(),
            expiry: self.expiry.deep_view(),
            created_at: self.created_at.deep_view(),
            reason: self.reason.deep_view(),
        }
    }
}

impl Duplicate for MultiSigPayment {
    fn duplicate(&self) -> (r: Self) {
        MultiSigPayment {
            payment_id: self.payment_id.duplicate(),
            amount: self.amount.duplicate(),
            token: self.token.duplicate(),
            recipient: self.recipient.duplicate(),
            signers: self.signers.duplicate(),
            threshold: self.threshold.duplicate(),
            signatures: self.signatures.duplicate(),
            status: self.status.duplicate(),
            expiry: self.expiry.duplicate(),
            created_at: self.created_at.duplicate(),
            reason: self.reason.duplicate(),
        }
    }
}

/// A payment made through a signed order.
#[derive(Clone, Debug, PartialEq)]
pub struct PaymentRecord {
    pub order_id: Vec<u8>,
    pub merchant_address: Address,
    pub payer_address: Address,
    pub token: Address,
    pub amount: i128,
    pub paid_at: u64,
    pub refunded_amount: i128,
}

/// The model of [`PaymentRecord`].
pub struct PaymentRecordModel {
    pub order_id: Seq<u8>,
    pub merchant_address: Seq<u8>,
    pub payer_address: Seq<u8>,
    pub token: Seq<u8>,
    pub amount: i128,
    pub paid_at: u64,
    pub refunded_amount: i128,
}

impl DeepView for PaymentRecord {
    type V = PaymentRecordModel;

    open spec fn deep_view(&self) -> PaymentRecordModel {
        PaymentRecordModel {
            order_id: self.order_id.deep_view(),
            merchant_address: self.merchant_address.deep_view(),
            payer_address: self.payer_address.deep_view(),
            token: self.token.deep_view(),
            amount: self.amount.deep_view(),
            paid_at: self.paid_at.deep_view(),
            refunded_amount: self.refunded_amount.deep_view(),
        }
    }
}

impl View for PaymentRecord {
    type V = PaymentRecordModel;

    open spec fn view(&self) -> PaymentRecordModel {
        PaymentRecordModel {
            order_id: self.order_id.deep_view(),
            merchant_address: self.merchant_address.deep_view(),
            payer_address: self.payer_address.deep_view(),
            token: self.token.deep_view(),
            amount: self.amount.deep_view(),
            paid_at: self.paid_at.deep_view(),
            refunded_amount: self.refunded_amount.deep_view(),
        }
    }
}

impl Duplicate for PaymentRecord {
    fn duplicate(&self) -> (r: Self) {
        PaymentRecord {
            order_id: self.order_id.duplicate(),
            merchant_address: self.merchant_address.duplicate(),
            payer_address: self.payer_address.duplicate(),
            token: self.token.duplicate(),
            amount: self.amount.duplicate(),
            paid_at: self.paid_at.duplicate(),
            refunded_amount: self.refunded_amount.duplicate(),
        }
    }
}

/// The archived record of an executed or cancelled multi-signature payment.
#[derive(Clone, Debug, PartialEq)]
pub struct MultiSigPaymentRecord {
    pub payment_id: u128,
    pub amount: i128,
    pub token: Address,
    pub recipient: Address,
    pub signers: Vec<Address>,
    pub threshold: u32,
    pub status: PaymentStatus,
    pub executed_at: u64,
    pub executor: Option<Address>,
    pub reason: Option<Vec<u8>>,
}

/// The model of [`MultiSigPaymentRecord`].
pub struct MultiSigPaymentRecordModel {
    pub payment_id: u128,
    pub amount: i128,
    pub token: Seq<u8>,
    pub recipient: Seq<u8>,
    pub signers: Seq<Seq<u8>>,
    pub threshold: u32,
    pub status: PaymentStatus,
    pub executed_at: u64,
    pub executor: Option<Seq<u8>>,
    pub reason: Option<Seq<u8>>,
}

impl DeepView for MultiSigPaymentRecord {
    type V = MultiSigPaymentRecordModel;

    open spec fn deep_view(&self) -> MultiSigPaymentRecordModel {
        MultiSigPaymentRecordModel {
            payment_id: self.payment_id.deep_view(),
            amount: self.amount.deep_view(),
            token: self.token.deep_view(),
            recipient: self.recipient.deep_view(),
            signers: self.signers.deep_view(),
            threshold: self.threshold.deep_view(),
            status: self.status.deep_view(),
            executed_at: self.executed_at.deep_view(),
            executor: self.executor.deep_view(),
            reason: self.reason.deep_view(),
        }
    }
}

impl View for MultiSigPaymentRecord {
    type V = MultiSigPaymentRecordModel;

    open spec fn view(&self) -> MultiSigPaymentRecordModel {
        MultiSigPaymentRecordModel {
            payment_id: self.payment_id.deep_view(),
            amount: self.amount.deep_view(),
            token: self.token.deep_view(),
            recipient: self.recipient.deep_view(),
            signers: self.signers.deep_view(),
            threshold: self.threshold.deep_view(),
            status: self.status.deep_view(),
            executed_at: self.executed_at.deep_view(),
            executor: self.executor.deep_view(),
            reason: self.reason.deep_view(),
        }
    }
}

impl Duplicate for MultiSigPaymentRecord {
    fn duplicate(&self) -> (r: Self) {
        MultiSigPaymentRecord {
            payment_id: self.payment_id.duplicate(),
            amount: self.amount.duplicate(),
            token: self.token.duplicate(),
            recipient: self.recipient.duplicate(),
            signers: self.signers.duplicate(),
            threshold: self.threshold.duplicate(),
            status: self.status.duplicate(),
            executed_at: self.executed_at.duplicate(),
            executor: self.executor.duplicate(),
            reason: self.reason.duplicate(),
        }
    }
}

/// Published when a merchant registers.
#[derive(Clone, Debug, PartialEq)]
pub struct MerchantRegisteredEvent {
    pub merchant: Address,
    pub name: Vec<u8>,
    pub category: MerchantCategory,
    pub timestamp: u64,
}

/// The model of [`MerchantRegisteredEvent`].
pub struct MerchantRegisteredEventModel {
    pub merchant: Seq<u8>,
    pub name: Seq<u8>,
    pub category: MerchantCategory,
    pub timestamp: u64,
}

impl DeepView for MerchantRegisteredEvent {
    type V = MerchantRegisteredEventModel;

    open spec fn deep_view(&self) -> MerchantRegisteredEventModel {
        MerchantRegisteredEventModel {
            merchant: self.merchant.deep_view(),
            name: self.name.deep_view(),
            category: self.category.deep_view(),
            timestamp: self.timestamp.deep_view(),
        }
    }
}

impl View for MerchantRegisteredEvent {
    type V = MerchantRegisteredEventModel;

    open spec fn view(&self) -> MerchantRegisteredEventModel {
        MerchantRegisteredEventModel {
            merchant: self.merchant.deep_view(),
            name: self.name.deep_view(),
            category: self.category.deep_view(),
            timestamp: self.timestamp.deep_view(),
        }
    }
}

impl Duplicate for MerchantRegisteredEvent {
    fn duplicate(&self) -> (r: Self) {
        MerchantRegisteredEvent {
            merchant: self.merchant.duplicate(),
            name: self.name.duplicate(),
            category: self.category.duplicate(),
            timestamp: self.timestamp.duplicate(),
        }
    }
}

/// Published when a merchant updates its profile.
#[derive(Clone, Debug, PartialEq)]
pub struct ProfileUpdatedEvent {
    pub merchant: Address,
    pub timestamp: u64,
}

/// The model of [`ProfileUpdatedEvent`].
pub struct ProfileUpdatedEventModel {
    pub merchant: Seq<u8>,
    pub timestamp: u64,
}

impl DeepView for ProfileUpdatedEvent {
    type V = ProfileUpdatedEventModel;

    open spec fn deep_view(&self) -> ProfileUpdatedEventModel {
        ProfileUpdatedEventModel {
            merchant: self.merchant.deep_view(),
            timestamp: self.timestamp.deep_view(),
        }
    }
}

impl View for ProfileUpdatedEvent {
    type V = ProfileUpdatedEventModel;

    open spec fn view(&self) -> ProfileUpdatedEventModel {
        ProfileUpdatedEventModel {
            merchant: self.merchant.deep_view(),
            timestamp: self.timestamp.deep_view(),
        }
    }
}

impl Duplicate for ProfileUpdatedEvent {
    fn duplicate(&self) -> (r: Self) {
        ProfileUpdatedEvent {
            merchant: self.merchant.duplicate(),
            timestamp: self.timestamp.duplicate(),
        }
    }
}

/// Published when a merchant deactivates its account.
#[derive(Clone, Debug, PartialEq)]
pub struct MerchantDeactivatedEvent {
    pub merchant: Address,
    pub timestamp: u64,
}

/// The model of [`MerchantDeactivatedEvent`].
pub struct MerchantDeactivatedEventModel {
    pub merchant: Seq<u8>,
    pub timestamp: u64,
}

impl DeepView for MerchantDeactivatedEvent {
    type V = MerchantDeactivatedEventModel;

    open spec fn deep_view(&self) -> MerchantDeactivatedEventModel {
        MerchantDeactivatedEventModel {
            merchant: self.merchant.deep_view(),
            timestamp: self.timestamp.deep_view(),
        }
    }
}

impl View for MerchantDeactivatedEvent {
    type V = MerchantDeactivatedEventModel;

    open spec fn view(&self) -> MerchantDeactivatedEventModel {
        MerchantDeactivatedEventModel {
            merchant: self.merchant.deep_view(),
            timestamp: self.timestamp.deep_view(),
        }
    }
}

impl Duplicate for MerchantDeactivatedEvent {
    fn duplicate(&self) -> (r: Self) {
        MerchantDeactivatedEvent {
            merchant: self.merchant.duplicate(),
            timestamp: self.timestamp.duplicate(),
        }
    }
}

/// Published when a merchant changes its transaction limit.
#[derive(Clone, Debug, PartialEq)]
pub struct LimitsUpdatedEvent {
    pub merchant: Address,
    pub max_transaction_limit: i128,
    pub timestamp: u64,
}

/// The model of [`LimitsUpdatedEvent`].
pub struct LimitsUpdatedEventModel {
    pub merchant: Seq<u8>,
    pub max_transaction_limit: i128,
    pub timestamp: u64,
}

impl DeepView for LimitsUpdatedEvent {
    type V = LimitsUpdatedEventModel;

    open spec fn deep_view(&self) -> LimitsUpdatedEventModel {
        LimitsUpdatedEventModel {
            merchant: self.merchant.deep_view(),
            max_transaction_limit: self.max_transaction_limit.deep_view(),
            timestamp: self.timestamp.deep_view(),
        }
    }
}

impl View for LimitsUpdatedEvent {
    type V = LimitsUpdatedEventModel;

    open spec fn view(&self) -> LimitsUpdatedEventModel {
        LimitsUpdatedEventModel {
            merchant: self.merchant.deep_view(),
            max_transaction_limit: self.max_transaction_limit.deep_view(),
            timestamp: self.timestamp.deep_view(),
        }
    }
}

impl Duplicate for LimitsUpdatedEvent {
    fn duplicate(&self) -> (r: Self) {
        LimitsUpdatedEvent {
            merchant: self.merchant.duplicate(),
            max_transaction_limit: self.max_transaction_limit.duplicate(),
            timestamp: self.timestamp.duplicate(),
        }
    }
}

/// The state of a refund request.
#[derive(Clone, Copy, Debug, PartialEq, Eq, Structural)]
pub enum RefundStatus {
    Pending,
    Approved,
    Rejected,
    Completed,
}

impl DeepView for RefundStatus {
    type V = RefundStatus;

    open spec fn deep_view(&self) -> RefundStatus {
        *self
    }
}

impl View for RefundStatus {
    type V = RefundStatus;

    open spec fn view(&self) -> RefundStatus {
        *self
    }
}

impl Duplicate for RefundStatus {
    fn duplicate(&self) -> (r: Self) {
        *self
    }
}

/// A request to refund (part of) a payment.
#[derive(Clone, Debug, PartialEq)]
pub struct RefundRequest {
    pub refund_id: Vec<u8>,
    pub order_id: Vec<u8>,
    pub merchant_address: Address,
    pub payer_address: Address,
    pub token: Address,
    pub amount: i128,
    pub reason: Vec<u8>,
    pub requested_at: u64,
    pub status: RefundStatus,
    pub approved_by: Option<Address>,
}

/// The model of [`RefundRequest`].
pub struct RefundRequestModel {
    pub refund_id: Seq<u8>,
    pub order_id: Seq<u8>,
    pub merchant_address: Seq<u8>,
    pub payer_address: Seq<u8>,
    pub token: Seq<u8>,
    pub amount: i128,
    pub reason: Seq<u8>,
    pub requested_at: u64,
    pub status: RefundStatus,
    pub approved_by: Option<Seq<u8>>,
}

impl DeepView for RefundRequest {
    type V = RefundRequestModel;

    open spec fn deep_view(&self) -> RefundRequestModel {
        RefundRequestModel {
            refund_id: self.refund_id.deep_view(),
            order_id: self.order_id.deep_view(),
            merchant_address: self.merchant_address.deep_view(),
            payer_address: self.payer_address.deep_view(),
            token: self.token.deep_view(),
            amount: self.amount.deep_view(),
            reason: self.reason.deep_view(),
            requested_at: self.requested_at.deep_view(),
            status: self.status.deep_view(),
            approved_by: self.approved_by.deep_view(),
        }
    }
}

impl View for RefundRequest {
    type V = RefundRequestModel;

    open spec fn view(&self) -> RefundRequestModel {
        RefundRequestModel {
            refund_id: self.refund_id.deep_view(),
            order_id: self.order_id.deep_view(),
            merchant_address: self.merchant_address.deep_view(),
            payer_address: self.payer_address.deep_view(),
            token: self.token.deep_view(),
            amount: self.amount.deep_view(),
            reason: self.reason.deep_view(),
            requested_at: self.requested_at.deep_view(),
            status: self.status.deep_view(),
            approved_by: self.approved_by.deep_view(),
        }
    }
}

impl Duplicate for RefundRequest {
    fn duplicate(&self) -> (r: Self) {
        RefundRequest {
            refund_id: self.refund_id.duplicate(),
            order_id: self.order_id.duplicate(),
            merchant_address: self.merchant_address.duplicate(),
            payer_address: self.payer_address.duplicate(),
            token: self.token.duplicate(),
            amount: self.amount.duplicate(),
            reason: self.reason.duplicate(),
            requested_at: self.requested_at.duplicate(),
            status: self.status.duplicate(),
            approved_by: self.approved_by.duplicate(),
        }
    }
}

/// Filters and paging for a query over all payments.
#[derive(Clone, Debug, PartialEq)]
pub struct PaymentQueryParams {
    pub start_time: Option<u64>,
    pub end_time: Option<u64>,
    pub min_amount: Option<i128>,
    pub max_amount: Option<i128>,
    pub token: Option<Address>,
    pub limit: u32,
    pub offset: u32,
}

/// The model of [`PaymentQueryParams`].
pub struct PaymentQueryParamsModel {
    pub start_time: Option<u64>,
    pub end_time: Option<u64>,
    pub min_amount: Option<i128>,
    pub max_amount: Option<i128>,
    pub token: Option<Seq<u8>>,
    pub limit: u32,
    pub offset: u32,
}

impl DeepView for PaymentQueryParams {
    type V = PaymentQueryParamsModel;

    open spec fn deep_view(&self) -> PaymentQueryParamsModel {
        PaymentQueryParamsModel {
            start_time: self.start_time.deep_view(),
            end_time: self.end_time.deep_view(),
            min_amount: self.min_amount.deep_view(),
            max_amount: self.max_amount.deep_view(),
            token: self.token.deep_view(),
            limit: self.limit.deep_view(),
            offset: self.offset.deep_view(),
        }
    }
}

impl View for PaymentQueryParams {
    type V = PaymentQueryParamsModel;

    open spec fn view(&self) -> PaymentQueryParamsModel {
        PaymentQueryParamsModel {
            start_time: self.start_time.deep_view(),
            end_time: self.end_time.deep_view(),
            min_amount: self.min_amount.deep_view(),
            max_amount: self.max_amount.deep_view(),
            token: self.token.deep_view(),
            limit: self.limit.deep_view(),
            offset: self.offset.deep_view(),
        }
    }
}

impl Duplicate for PaymentQueryParams {
    fn duplicate(&self) -> (r: Self) {
        PaymentQueryParams {
            start_time: self.start_time.duplicate(),
            end_time: self.end_time.duplicate(),
            min_amount: self.min_amount.duplicate(),
            max_amount: self.max_amount.duplicate(),
            token: self.token.duplicate(),
            limit: self.limit.duplicate(),
            offset: self.offset.duplicate(),
        }
    }
}

/// Statistics over all payments.
#[derive(Clone, Debug, PartialEq)]
pub struct PaymentStats {
    pub total_payments: u32,
    pub total_volume: i128,
    pub unique_payers: u32,
    pub average_payment: i128,
    pub first_payment_time: Option<u64>,
    pub last_payment_time: Option<u64>,
}

/// The model of [`PaymentStats`].
pub struct PaymentStatsModel {
    pub total_payments: u32,
    pub total_volume: i128,
    pub unique_payers: u32,
    pub average_payment: i128,
    pub first_payment_time: Option<u64>,
    pub last_payment_time: Option<u64>,
}

impl DeepView for PaymentStats {
    type V = PaymentStatsModel;

    open spec fn deep_view(&self) -> PaymentStatsModel {
        PaymentStatsModel {
            total_payments: self.total_payments.deep_view(),
            total_volume: self.total_volume.deep_view(),
            unique_payers: self.unique_payers.deep_view(),
            average_payment: self.average_payment.deep_view(),
            first_payment_time: self.first_payment_time.deep_view(),
            last_payment_time: self.last_payment_time.deep_view(),
        }
    }
}

impl View for PaymentStats {
    type V = PaymentStatsModel;

    open spec fn view(&self) -> PaymentStatsModel {
        PaymentStatsModel {
            total_payments: self.total_payments.deep_view(),
            total_volume: self.total_volume.deep_view(),
            unique_payers: self.unique_payers.deep_view(),
            average_payment: self.average_payment.deep_view(),
            first_payment_time: self.first_payment_time.deep_view(),
            last_payment_time: self.last_payment_time.deep_view(),
        }
    }
}

impl Duplicate for PaymentStats {
    fn duplicate(&self) -> (r: Self) {
        PaymentStats {
            total_payments: self.total_payments.duplicate(),
            total_volume: self.total_volume.duplicate(),
            unique_payers: self.unique_payers.duplicate(),
            average_payment: self.average_payment.duplicate(),
            first_payment_time: self.first_payment_time.duplicate(),
            last_payment_time: self.last_payment_time.duplicate(),
        }
    }
}

/// Statistics over the payments a merchant received.
#[derive(Clone, Debug, PartialEq)]
pub struct MerchantPaymentSummary {
    pub merchant_address: Address,
    pub total_received: i128,
    pub payment_count: u32,
    pub refund_count: u32,
    pub total_refunded: i128,
    pub net_received: i128,
    pub active_since: u64,
    pub last_payment: Option<u64>,
}

/// The model of [`MerchantPaymentSummary`].
pub struct MerchantPaymentSummaryModel {
    pub merchant_address: Seq<u8>,
    pub total_received: i128,
    pub payment_count: u32,
    pub refund_count: u32,
    pub total_refunded: i128,
    pub net_received: i128,
    pub active_since: u64,
    pub last_payment: Option<u64>,
}

impl DeepView for MerchantPaymentSummary {
    type V = MerchantPaymentSummaryModel;

    open spec fn deep_view(&self) -> MerchantPaymentSummaryModel {
        MerchantPaymentSummaryModel {
            merchant_address: self.merchant_address.deep_view(),
            total_received: self.total_received.deep_view(),
            payment_count: self.payment_count.deep_view(),
            refund_count: self.refund_count.deep_view(),
            total_refunded: self.total_refunded.deep_view(),
            net_received: self.net_received.deep_view(),
            active_since: self.active_since.deep_view(),
            last_payment: self.last_payment.deep_view(),
        }
    }
}

impl View for MerchantPaymentSummary {
    type V = MerchantPaymentSummaryModel;

    open spec fn view(&self) -> MerchantPaymentSummaryModel {
        MerchantPaymentSummaryModel {
            merchant_address: self.merchant_address.deep_view(),
            total_received: self.total_received.deep_view(),
            payment_count: self.payment_count.deep_view(),
            refund_count: self.refund_count.deep_view(),
            total_refunded: self.total_refunded.deep_view(),
            net_received: self.net_received.deep_view(),
            active_since: self.active_since.deep_view(),
            last_payment: self.last_payment.deep_view(),
        }
    }
}

impl Duplicate for MerchantPaymentSummary {
    fn duplicate(&self) -> (r: Self) {
        MerchantPaymentSummary {
            merchant_address: self.merchant_address.duplicate(),
            total_received: self.total_received.duplicate(),
            payment_count: self.payment_count.duplicate(),
            refund_count: self.refund_count.duplicate(),
            total_refunded: self.total_refunded.duplicate(),
            net_received: self.net_received.duplicate(),
            active_since: self.active_since.duplicate(),
            last_payment: self.last_payment.duplicate(),
        }
    }
}

/// Statistics over the payments a payer made.
#[derive(Clone, Debug, PartialEq)]
pub struct PayerPaymentSummary {
    pub payer_address: Address,
    pub total_spent: i128,
    pub payment_count: u32,
    pub unique_merchants: u32,
    pub first_payment: Option<u64>,
    pub last_payment: Option<u64>,
}

/// The model of [`PayerPaymentSummary`].
pub struct PayerPaymentSummaryModel {
    pub payer_address: Seq<u8>,
    pub total_spent: i128,
    pub payment_count: u32,
    pub unique_merchants: u32,
    pub first_payment: Option<u64>,
    pub last_payment: Option<u64>,
}

impl DeepView for PayerPaymentSummary {
    type V = PayerPaymentSummaryModel;

    open spec fn deep_view(&self) -> PayerPaymentSummaryModel {
        PayerPaymentSummaryModel {
            payer_address: self.payer_address.deep_view(),
            total_spent: self.total_spent.deep_view(),
            payment_count: self.payment_count.deep_view(),
            unique_merchants: self.unique_merchants.deep_view(),
            first_payment: self.first_payment.deep_view(),
            last_payment: self.last_payment.deep_view(),
        }
    }
}

impl View for PayerPaymentSummary {
    type V = PayerPaymentSummaryModel;

    open spec fn view(&self) -> PayerPaymentSummaryModel {
        PayerPaymentSummaryModel {
            payer_address: self.payer_address.deep_view(),
            total_spent: self.total_spent.deep_view(),
            payment_count: self.payment_count.deep_view(),
            unique_merchants: self.unique_merchants.deep_view(),
            first_payment: self.first_payment.deep_view(),
            last_payment: self.last_payment.deep_view(),
        }
    }
}

impl Duplicate for PayerPaymentSummary {
    fn duplicate(&self) -> (r: Self) {
        PayerPaymentSummary {
            payer_address: self.payer_address.duplicate(),
            total_spent: self.total_spent.duplicate(),
            payment_count: self.payment_count.duplicate(),
            unique_merchants: self.unique_merchants.duplicate(),
            first_payment: self.first_payment.duplicate(),
            last_payment: self.last_payment.duplicate(),
        }
    }
}

/// An entry of a payment index.
#[derive(Clone, Debug, PartialEq)]
pub struct PaymentIndexEntry {
    pub order_id: Vec<u8>,
    pub timestamp: u64,
    pub amount: i128,
}

/// The model of [`PaymentIndexEntry`].
pub struct PaymentIndexEntryModel {
    pub order_id: Seq<u8>,
    pub timestamp: u64,
    pub amount: i128,
}

impl DeepView for PaymentIndexEntry {
    type V = PaymentIndexEntryModel;

    open spec fn deep_view(&self) -> PaymentIndexEntryModel {
        PaymentIndexEntryModel {
            order_id: self.order_id.deep_view(),
            timestamp: self.timestamp.deep_view(),
            amount: self.amount.deep_view(),
        }
    }
}

impl View for PaymentIndexEntry {
    type V = PaymentIndexEntryModel;

    open spec fn view(&self) -> PaymentIndexEntryModel {
        PaymentIndexEntryModel {
            order_id: self.order_id.deep_view(),
            timestamp: self.timestamp.deep_view(),
            amount: self.amount.deep_view(),
        }
    }
}

impl Duplicate for PaymentIndexEntry {
    fn duplicate(&self) -> (r: Self) {
        PaymentIndexEntry {
            order_id: self.order_id.duplicate(),
            timestamp: self.timestamp.duplicate(),
            amount: self.amount.duplicate(),
        }
    }
}

/// The payments of one day.
#[derive(Clone, Debug, PartialEq)]
pub struct PaymentBucket {
    /// Start of the day.
    pub bucket_timestamp: u64,
    pub payment_count: u32,
    pub total_volume: i128,
}

/// The model of [`PaymentBucket`].
pub struct PaymentBucketModel {
    pub bucket_timestamp: u64,
    pub payment_count: u32,
    pub total_volume: i128,
}

impl DeepView for PaymentBucket {
    type V = PaymentBucketModel;

    open spec fn deep_view(&self) -> PaymentBucketModel {
        PaymentBucketModel {
            bucket_timestamp: self.bucket_timestamp.deep_view(),
            payment_count: self.payment_count.deep_view(),
            total_volume: self.total_volume.deep_view(),
        }
    }
}

impl View for PaymentBucket {
    type V = PaymentBucketModel;

    open spec fn view(&self) -> PaymentBucketModel {
        PaymentBucketModel {
            bucket_timestamp: self.bucket_timestamp.deep_view(),
            payment_count: self.payment_count.deep_view(),
            total_volume: self.total_volume.deep_view(),
        }
    }
}

impl Duplicate for PaymentBucket {
    fn duplicate(&self) -> (r: Self) {
        PaymentBucket {
            bucket_timestamp: self.bucket_timestamp.duplicate(),
            payment_count: self.payment_count.duplicate(),
            total_volume: self.total_volume.duplicate(),
        }
    }
}

/// The compact form of a payment record.
#[derive(Clone, Debug, PartialEq)]
pub struct CompressedPaymentRecord {
    pub order_id: Vec<u8>,
    pub merchant_address: Address,
    pub payer_address: Address,
    pub token: Address,
    pub amount: i128,
    pub paid_at: u64,
    /// 0: paid, 1: partially refunded, 2: fully refunded.
    pub status: u32,
}

/// The model of [`CompressedPaymentRecord`].
pub struct CompressedPaymentRecordModel {
    pub order_id: Seq<u8>,
    pub merchant_address: Seq<u8>,
    pub payer_address: Seq<u8>,
    pub token: Seq<u8>,
    pub amount: i128,
    pub paid_at: u64,
    pub status: u32,
}

impl DeepView for CompressedPaymentRecord {
    type V = CompressedPaymentRecordModel;

    open spec fn deep_view(&self) -> CompressedPaymentRecordModel {
        CompressedPaymentRecordModel {
            order_id: self.order_id.deep_view(),
            merchant_address: self.merchant_address.deep_view(),
            payer_address: self.payer_address.deep_view(),
            token: self.token.deep_view(),
            amount: self.amount.deep_view(),
            paid_at: self.paid_at.deep_view(),
            status: self.status.deep_view(),
        }
    }
}

impl View for CompressedPaymentRecord {
    type V = CompressedPaymentRecordModel;

    open spec fn view(&self) -> CompressedPaymentRecordModel {
        CompressedPaymentRecordModel {
            order_id: self.order_id.deep_view(),
            merchant_address: self.merchant_address.deep_view(),
            payer_address: self.payer_address.deep_view(),
            token: self.token.deep_view(),
            amount: self.amount.deep_view(),
            paid_at: self.paid_at.deep_view(),
            status: self.status.deep_view(),
        }
    }
}

impl Duplicate for CompressedPaymentRecord {
    fn duplicate(&self) -> (r: Self) {
        CompressedPaymentRecord {
            order_id: self.order_id.duplicate(),
            merchant_address: self.merchant_address.duplicate(),
            payer_address: self.payer_address.duplicate(),
            token: self.token.duplicate(),
            amount: self.amount.duplicate(),
            paid_at: self.paid_at.duplicate(),
            status: self.status.duplicate(),
        }
    }
}

/// The refund state of a payment, for filtering; `Any` matches every payment.
#[derive(Clone, Copy, Debug, PartialEq, Eq, Structural)]
pub enum PaymentRecordStatus {
    Any,
    Completed,
    PartiallyRefunded,
    FullyRefunded,
}

impl DeepView for PaymentRecordStatus {
    type V = PaymentRecordStatus;

    open spec fn deep_view(&self) -> PaymentRecordStatus {
        *self
    }
}

impl View for PaymentRecordStatus {
    type V = PaymentRecordStatus;

    open spec fn view(&self) -> PaymentRecordStatus {
        *self
    }
}

impl Duplicate for PaymentRecordStatus {
    fn duplicate(&self) -> (r: Self) {
        *self
    }
}

/// Filters for a payment history query.
#[derive(Clone, Debug, PartialEq)]
pub struct PaymentQueryFilter {
    pub date_start: Option<u64>,
    pub date_end: Option<u64>,
    pub amount_min: Option<i128>,
    pub amount_max: Option<i128>,
    pub token: Option<Address>,
    pub status: PaymentRecordStatus,
}

/// The model of [`PaymentQueryFilter`].
pub struct PaymentQueryFilterModel {
    pub date_start: Option<u64>,
    pub date_end: Option<u64>,
    pub amount_min: Option<i128>,
    pub amount_max: Option<i128>,
    pub token: Option<Seq<u8>>,
    pub status: PaymentRecordStatus,
}

impl DeepView for PaymentQueryFilter {
    type V = PaymentQueryFilterModel;

    open spec fn deep_view(&self) -> PaymentQueryFilterModel {
        PaymentQueryFilterModel {
            date_start: self.date_start.deep_view(),
            date_end: self.date_end.deep_view(),
            amount_min: self.amount_min.deep_view(),
            amount_max: self.amount_max.deep_view(),
            token: self.token.deep_view(),
            status: self.status.deep_view(),
        }
    }
}

impl View for PaymentQueryFilter {
    type V = PaymentQueryFilterModel;

    open spec fn view(&self) -> PaymentQueryFilterModel {
        PaymentQueryFilterModel {
            date_start: self.date_start.deep_view(),
            date_end: self.date_end.deep_view(),
            amount_min: self.amount_min.deep_view(),
            amount_max: self.amount_max.deep_view(),
            token: self.token.deep_view(),
            status: self.status.deep_view(),
        }
    }
}

impl Duplicate for PaymentQueryFilter {
    fn duplicate(&self) -> (r: Self) {
        PaymentQueryFilter {
            date_start: self.date_start.duplicate(),
            date_end: self.date_end.duplicate(),
            amount_min: self.amount_min.duplicate(),
            amount_max: self.amount_max.duplicate(),
            token: self.token.duplicate(),
            status: self.status.duplicate(),
        }
    }
}

/// The field by which payment records are sorted.
#[derive(Clone, Copy, Debug, PartialEq, Eq, Structural)]
pub enum SortField {
    Date,
    Amount,
}

impl DeepView for SortField {
    type V = SortField;

    open spec fn deep_view(&self) -> SortField {
        *self
    }
}

impl View for SortField {
    type V = SortField;

    open spec fn view(&self) -> SortField {
        *self
    }
}

impl Duplicate for SortField {
    fn duplicate(&self) -> (r: Self) {
        *self
    }
}

/// The direction of a sort.
#[derive(Clone, Copy, Debug, PartialEq, Eq, Structural)]
pub enum SortOrder {
    Ascending,
    Descending,
}

impl DeepView for SortOrder {
    type V = SortOrder;

    open spec fn deep_view(&self) -> SortOrder {
        *self
    }
}

impl View for SortOrder {
    type V = SortOrder;

    open spec fn view(&self) -> SortOrder {
        *self
    }
}

impl Duplicate for SortOrder {
    fn duplicate(&self) -> (r: Self) {
        *self
    }
}

/// A token transfer that the host carries out for the contract.
#[derive(Clone, Debug, PartialEq)]
pub struct TokenTransfer {
    pub token: Address,
    pub from: Address,
    pub to: Address,
    pub amount: i128,
}

/// The model of [`TokenTransfer`].
pub struct TokenTransferModel {
    pub token: Seq<u8>,
    pub from: Seq<u8>,
    pub to: Seq<u8>,
    pub amount: i128,
}

impl DeepView for TokenTransfer {
    type V = TokenTransferModel;

    open spec fn deep_view(&self) -> TokenTransferModel {
        TokenTransferModel {
            token: self.token.deep_view(),
            from: self.from.deep_view(),
            to: self.to.deep_view(),
            amount: self.amount.deep_view(),
        }
    }
}

impl View for TokenTransfer {
    type V = TokenTransferModel;

    open spec fn view(&self) -> TokenTransferModel {
        TokenTransferModel {
            token: self.token.deep_view(),
            from: self.from.deep_view(),
            to: self.to.deep_view(),
            amount: self.amount.deep_view(),
        }
    }
}

impl Duplicate for TokenTransfer {
    fn duplicate(&self) -> (r: Self) {
        TokenTransfer {
            token: self.token.duplicate(),
            from: self.from.duplicate(),
            to: self.to.duplicate(),
            amount: self.amount.duplicate(),
        }
    }
}

/// A merchant signature that the host must verify for the contract: the
/// ed25519 signature `signature` by `merchant_public_key` over the message
/// of `order`. The call fails when it does not verify.
#[derive(Clone, Debug, PartialEq)]
pub struct SignatureCheck {
    pub merchant_public_key: Vec<u8>,
    pub signature: Vec<u8>,
    pub order: PaymentOrder,
}

/// The model of [`SignatureCheck`].
pub struct SignatureCheckModel {
    pub merchant_public_key: Seq<u8>,
    pub signature: Seq<u8>,
    pub order: PaymentOrderModel,
}

impl DeepView for SignatureCheck {
    type V = SignatureCheckModel;

    open spec fn deep_view(&self) -> SignatureCheckModel {
        SignatureCheckModel {
            merchant_public_key: self.merchant_public_key.deep_view(),
            signature: self.signature.deep_view(),
            order: self.order.deep_view(),
        }
    }
}

impl View for SignatureCheck {
    type V = SignatureCheckModel;

    open spec fn view(&self) -> SignatureCheckModel {
        self.deep_view()
    }
}

// ---------------------------------------------------------------------------
// Merchants
// ---------------------------------------------------------------------------

/// `tokens` without the entries equal to `token`.
pub open spec fn tokens_without(tokens: Seq<Seq<u8>>, token: Seq<u8>) -> Seq<Seq<u8>> {
    tokens.filter(|t: Seq<u8>| t != token)
}

impl Merchant {
    /// Adds `token` to the supported tokens unless it is already there; tells
    /// whether it was added.
    pub fn add_token(&mut self, token: Address) -> (added: bool)
        ensures
            added == !old(self)@.supported_tokens.contains(token@),
            final(self)@ == (MerchantModel {
                supported_tokens: if added {
                    old(self)@.supported_tokens.push(token@)
                } else {
                    old(self)@.supported_tokens
                },
                ..old(self)@
            }),
    {
        if list_contains(&self.supported_tokens, &token) {
            return false;
        }
        let ghost pre = self.supported_tokens@;
        self.supported_tokens.push(token);
        proof {
            assert(self.supported_tokens.deep_view() =~= old(self)@.supported_tokens.push(token@)) by {
                assert forall|i: int| 0 <= i < pre.len() implies #[trigger] self.supported_tokens@[i] == pre[i] by {
                }
            }
        }
        true
    }

    /// Removes every occurrence of `token` from the supported tokens; tells
    /// whether it was there.
    pub fn remove_token(&mut self, token: Address) -> (found: bool)
        ensures
            found == old(self)@.supported_tokens.contains(token@),
            final(self)@ == (MerchantModel {
                supported_tokens: if found {
                    tokens_without(old(self)@.supported_tokens, token@)
                } else {
                    old(self)@.supported_tokens
                },
                ..old(self)@
            }),
    {
        let ghost tokens = self.supported_tokens.deep_view();
        let mut found = false;
        let mut new_tokens: Vec<Address> = Vec::new();
        let mut i: usize = 0;
        while i < self.supported_tokens.len()
            invariant
                i <= self.supported_tokens.len(),
                tokens == self.supported_tokens.deep_view(),
                new_tokens.deep_view() == tokens_without(tokens.take(i as int), token@),
                found == tokens.take(i as int).contains(token@),
            decreases self.supported_tokens.len() - i,
        {
            let t = self.supported_tokens[i].duplicate();
            proof {
                assert(tokens.take(i + 1).drop_last() =~= tokens.take(i as int));
                assert(tokens.take(i + 1).last() == t@);
                reveal(Seq::filter);
            }
            if !t.same_as(&token) {
                let ghost pre = new_tokens.deep_view();
                new_tokens.push(t);
                proof {
                    assert(new_tokens.deep_view() =~= pre.push(tokens[i as int]));
                }
            } else {
                found = true;
            }
            proof {
                if found {
                    if !tokens.take(i as int).contains(token@) {
                        assert(tokens.take(i + 1)[i as int] == token@);
                    }
                } else {
                    assert forall|j: int| 0 <= j < i + 1 implies #[trigger] tokens.take(i + 1)[j] != token@ by {
                        if j < i {
                            assert(tokens.take(i + 1)[j] == tokens.take(i as int)[j]);
                        }
                    }
                }
            }
            i += 1;
        }
        proof {
            assert(tokens.take(tokens.len() as int) =~= tokens);
        }
        if found {
            self.supported_tokens = new_tokens;
        }
        found
    }

    /// Tells whether the merchant accepts `token`.
    pub fn supports_token(&self, token: &Address) -> (b: bool)
        ensures
            b == self@.supported_tokens.contains(token@),
    {
        list_contains(&self.supported_tokens, token)
    }
}

// ---------------------------------------------------------------------------
// Nonce bitmaps
// ---------------------------------------------------------------------------

/// The bitmap word that holds `nonce`: word `nonce / 32`, zero if absent.
pub open spec fn nonce_word(bitmap: Seq<(u32, u32)>, nonce: u32) -> u32 {
    let m = seq_to_map(bitmap);
    if m.contains_key(nonce / 32) {
        m[nonce / 32]
    } else {
        0
    }
}

/// `nonce` is marked used in `bitmap`.
pub open spec fn nonce_used(bitmap: Seq<(u32, u32)>, nonce: u32) -> bool {
    nonce_word(bitmap, nonce) & (1u32 << (nonce % 32)) != 0
}

pub proof fn lemma_bit_set_after_or(w: u32, b: u32, c: u32)
    requires
        b < 32,
        c < 32,
    ensures
        ((w | (1u32 << b)) & (1u32 << c) != 0) == (b == c || w & (1u32 << c) != 0),
{
    assert(((w | (1u32 << b)) & (1u32 << c) != 0) == (b == c || w & (1u32 << c) != 0))
        by (bit_vector)
        requires
            b < 32,
            c < 32,
    ;
}

pub proof fn lemma_same_word_and_bit(m: u32, n: u32)
    requires
        m / 32 == n / 32,
        m % 32 == n % 32,
    ensures
        m == n,
{
    assert(m == n) by (bit_vector)
        requires
            m / 32 == n / 32,
            m % 32 == n % 32,
    ;
}

impl NonceTracker {
    /// A tracker with no nonce used.
    pub fn new() -> (t: NonceTracker)
        ensures
            t.nonce_bitmap.wf(),
            t@.nonce_bitmap == Seq::<(u32, u32)>::empty(),
            t@.highest_nonce == 0,
    {
        NonceTracker { nonce_bitmap: Table::new(), highest_nonce: 0 }
    }

    /// Tells whether `nonce` has been used.
    pub fn is_nonce_used(&self, nonce: u32) -> (b: bool)
        requires
            self.nonce_bitmap.wf(),
        ensures
            b == nonce_used(self@.nonce_bitmap, nonce),
    {
        let bitmap_index = nonce / 32;
        let bit_position = nonce % 32;
        let bitmap_word = match self.nonce_bitmap.get(&bitmap_index) {
            Some(w) => *w,
            None => 0,
        };
        (bitmap_word & (1u32 << bit_position)) != 0
    }

    /// Marks `nonce` as used and raises the highest nonce to it if it is
    /// higher.
    pub fn mark_nonce_used(&mut self, nonce: u32)
        requires
            old(self).nonce_bitmap.wf(),
        ensures
            final(self).nonce_bitmap.wf(),
            seq_to_map(final(self)@.nonce_bitmap) == seq_to_map(old(self)@.nonce_bitmap).insert(
                nonce / 32,
                nonce_word(old(self)@.nonce_bitmap, nonce) | (1u32 << (nonce % 32)),
            ),
            forall|m: u32|
                #![trigger nonce_used(final(self)@.nonce_bitmap, m)]
                nonce_used(final(self)@.nonce_bitmap, m) == (m == nonce || nonce_used(
                    old(self)@.nonce_bitmap,
                    m,
                )),
            final(self)@.highest_nonce == if nonce > old(self)@.highest_nonce {
                nonce
            } else {
                old(self)@.highest_nonce
            },
    {
        let bitmap_index = nonce / 32;
        let bit_position = nonce % 32;
        let current_word = match self.nonce_bitmap.get(&bitmap_index) {
            Some(w) => *w,
            None => 0,
        };
        if nonce > self.highest_nonce {
            self.highest_nonce = nonce;
        }
        let ghost before = old(self)@.nonce_bitmap;
        self.nonce_bitmap.set(bitmap_index, current_word | (1u32 << bit_position));
        proof {
            let after = self@.nonce_bitmap;
            assert(seq_to_map(after) == seq_to_map(before).insert(
                bitmap_index,
                current_word | (1u32 << bit_position),
            ));
            assert forall|m: u32|
                #![trigger nonce_used(after, m)]
                nonce_used(after, m) == (m == nonce || nonce_used(before, m)) by {
                if m / 32 == nonce / 32 {
                    lemma_bit_set_after_or(current_word, nonce % 32, m % 32);
                    if m % 32 == nonce % 32 {
                        lemma_same_word_and_bit(m, nonce);
                    }
                } else {
                    assert(nonce_word(after, m) == nonce_word(before, m));
                }
            }
        }
    }
}

// ---------------------------------------------------------------------------
// Payment records
// ---------------------------------------------------------------------------

/// The refund state of a payment record.
pub open spec fn spec_record_status(r: PaymentRecordModel) -> PaymentRecordStatus {
    if r.refunded_amount == 0 {
        PaymentRecordStatus::Completed
    } else if r.refunded_amount < r.amount {
        PaymentRecordStatus::PartiallyRefunded
    } else {
        PaymentRecordStatus::FullyRefunded
    }
}

impl PaymentRecord {
    /// Completed when nothing was refunded, partially refunded while the
    /// refunds stay below the amount, fully refunded otherwise.
    pub fn get_status(&self) -> (s: PaymentRecordStatus)
        ensures
            s == spec_record_status(self@),
    {
        if self.refunded_amount == 0 {
            PaymentRecordStatus::Completed
        } else if self.refunded_amount < self.amount {
            PaymentRecordStatus::PartiallyRefunded
        } else {
            PaymentRecordStatus::FullyRefunded
        }
    }
}

} // verus!
