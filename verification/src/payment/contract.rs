//! The entry points of the payment-processing contract.
//!
//! Each entry point runs on a [`ContractEnv`]: the stored state, the ledger
//! time, and the actions that the host carries out once the call returns:
//! the addresses whose authorization the call requires, the token transfers
//! and the events. A call that returns an error changes neither the state,
//! nor the transfers, nor the events.
use vstd::prelude::*;
use vstd::string::StringSliceAdditionalSpecFns;
use crate::address::{Address, list_contains};
use crate::table::{Duplicate, Table, text_of, bytes_equal, seq_to_map};
use super::error::PaymentError;
use super::events::{PaymentEvent, PaymentEventModel};
use super::helper::{
    validate_name, validate_description, validate_contact_info, validate_transaction_limit,
    valid_name, valid_description, valid_contact_info, DEFAULT_TRANSACTION_LIMIT,
};
use super::storage::{Storage, StorageModel, spec_is_paused, spec_fee_rate, spec_fee, spec_nonce_used, nonce_marked, index_appended, lemma_nonce_marked_trackers, MAX_FEE_RATE,
    spec_page, index_list, spec_require_admin};
use super::types::{
    Fee, FeeModel, LimitsUpdatedEvent, LimitsUpdatedEventModel, Merchant, MerchantCategory,
    MerchantDeactivatedEvent, MerchantDeactivatedEventModel, MerchantModel, MerchantRegisteredEvent,
    MerchantRegisteredEventModel, NonceTracker, ProfileUpdateData, ProfileUpdateDataModel,
    ProfileUpdatedEvent, ProfileUpdatedEventModel, TokenTransfer, TokenTransferModel, tokens_without,
    PaymentOrder, PaymentOrderModel, PaymentRecord, PaymentRecordModel, GasEstimate,
    BatchPayment, BatchPaymentModel, MultiSigPayment, MultiSigPaymentModel, MultiSigPaymentRecord,
    MultiSigPaymentRecordModel, PaymentStatus, RefundRequest, RefundRequestModel, RefundStatus,
    PaymentQueryParams, PaymentQueryParamsModel, MerchantPaymentSummary, PayerPaymentSummary, PaymentStats,
    PaymentBucket, SignatureCheck, SignatureCheckModel,
};
use super::history::{
    entry_records, spec_merchant_stats, spec_payer_stats, spec_global_stats, spec_time_buckets, archived_after,
};

verus! {

broadcast use crate::table::lemma_bytes_deep_view;

/// What a contract call runs on.
pub struct ContractEnv {
    /// The ledger time of the call.
    pub timestamp: u64,
    pub storage: Storage,
    /// The addresses whose authorization the call requires, in order.
    pub auths: Vec<Address>,
    /// The token transfers to carry out, in order.
    pub transfers: Vec<TokenTransfer>,
    /// The events to publish, in order.
    pub events: Vec<PaymentEvent>,
    /// The merchant signatures to verify, in order.
    pub signature_checks: Vec<SignatureCheck>,
}

/// The model of [`ContractEnv`].
pub struct ContractEnvModel {
    pub timestamp: u64,
    pub storage: StorageModel,
    pub auths: Seq<Seq<u8>>,
    pub transfers: Seq<TokenTransferModel>,
    pub events: Seq<PaymentEventModel>,
    pub signature_checks: Seq<SignatureCheckModel>,
}

impl View for ContractEnv {
    type V = ContractEnvModel;

    open spec fn view(&self) -> ContractEnvModel {
        ContractEnvModel {
            timestamp: self.timestamp,
            storage: self.storage@,
            auths: self.auths.deep_view(),
            transfers: self.transfers.deep_view(),
            events: self.events.deep_view(),
            signature_checks: self.signature_checks.deep_view(),
        }
    }
}

/// The environment after a call that only required the authorizations
/// `auths`.
pub open spec fn only_auths(e: ContractEnvModel, auths: Seq<Seq<u8>>) -> ContractEnvModel {
    ContractEnvModel { auths: e.auths + auths, ..e }
}

/// The environment after a call that stored `storage` and published `events`.
pub open spec fn with_effects(
    e: ContractEnvModel,
    auths: Seq<Seq<u8>>,
    storage: StorageModel,
    transfers: Seq<TokenTransferModel>,
    events: Seq<PaymentEventModel>,
) -> ContractEnvModel {
    ContractEnvModel {
        timestamp: e.timestamp,
        storage,
        auths: e.auths + auths,
        transfers: e.transfers + transfers,
        events: e.events + events,
        signature_checks: e.signature_checks,
    }
}

/// The environment after the host is asked to verify the signature `c`.
pub open spec fn with_check(e: ContractEnvModel, c: SignatureCheckModel) -> ContractEnvModel {
    ContractEnvModel { signature_checks: e.signature_checks.push(c), ..e }
}

/// The check of the merchant's signature on `order`.
pub open spec fn order_signature_check(key: Seq<u8>, signature: Seq<u8>, order: PaymentOrderModel) -> SignatureCheckModel {
    SignatureCheckModel { merchant_public_key: key, signature, order }
}

/// The model of a result.
pub open spec fn result_model<T: DeepView>(r: Result<T, PaymentError>) -> Result<T::V, PaymentError> {
    match r {
        Ok(t) => Ok(t.deep_view()),
        Err(e) => Err(e),
    }
}

/// The contract is paused at the environment's ledger time.
pub open spec fn env_paused(e: ContractEnvModel) -> bool {
    spec_is_paused(e.storage, e.timestamp)
}

/// The stored merchant `m`, if there is one.
pub open spec fn stored_merchant(e: ContractEnvModel, m: Seq<u8>) -> Option<MerchantModel> {
    if e.storage.merchants.contains_key(m) {
        Some(e.storage.merchants[m])
    } else {
        None
    }
}

/// The state after storing merchant `data` under `m`.
pub open spec fn merchant_saved(s: StorageModel, m: Seq<u8>, data: MerchantModel) -> StorageModel {
    StorageModel { merchants: s.merchants.insert(m, data), ..s }
}

impl ContractEnv {
    /// A fresh contract at ledger time `timestamp`.
    pub fn new(timestamp: u64) -> (e: ContractEnv)
        ensures
            e.wf(),
            e@.timestamp == timestamp,
            e@.storage == super::storage::empty_storage_model(),
            e@.auths == Seq::<Seq<u8>>::empty(),
            e@.transfers == Seq::<TokenTransferModel>::empty(),
            e@.events == Seq::<PaymentEventModel>::empty(),
            e@.signature_checks == Seq::<SignatureCheckModel>::empty(),
    {
        let e = ContractEnv {
            timestamp,
            storage: Storage::new(),
            auths: Vec::new(),
            transfers: Vec::new(),
            events: Vec::new(),
            signature_checks: Vec::new(),
        };
        proof {
            assert(e@.signature_checks =~= Seq::<SignatureCheckModel>::empty());
            assert(e@.auths =~= Seq::<Seq<u8>>::empty());
            assert(e@.transfers =~= Seq::<TokenTransferModel>::empty());
            assert(e@.events =~= Seq::<PaymentEventModel>::empty());
        }
        e
    }

    /// The stored state is well formed.
    pub open spec fn wf(&self) -> bool {
        self.storage.wf()
    }

    /// Records that the call requires `a` to authorize it.
    pub fn require_auth(&mut self, a: &Address)
        requires
            old(self).wf(),
        ensures
            final(self).wf(),
            final(self)@ == only_auths(old(self)@, seq![a@]),
            final(self).storage == old(self).storage,
    {
        let ghost pre = self.auths.deep_view();
        self.auths.push(a.duplicate());
        proof {
            assert(self.auths.deep_view() =~= pre + seq![a@]);
        }
    }

    /// Adds `t` to the transfers to carry out.
    fn push_transfer(&mut self, t: TokenTransfer)
        requires
            old(self).wf(),
        ensures
            final(self).wf(),
            final(self)@ == (ContractEnvModel { transfers: old(self)@.transfers.push(t@), ..old(self)@ }),
    {
        let ghost pre = self.transfers.deep_view();
        self.transfers.push(t);
        proof {
            assert(self.transfers.deep_view() =~= pre.push(t@));
        }
    }

    /// Adds `c` to the signatures to verify.
    fn push_signature_check(&mut self, c: SignatureCheck)
        requires
            old(self).wf(),
        ensures
            final(self).wf(),
            final(self)@ == (ContractEnvModel { signature_checks: old(self)@.signature_checks.push(c@), ..old(self)@ }),
    {
        let ghost pre = self.signature_checks.deep_view();
        self.signature_checks.push(c);
        proof {
            assert(self.signature_checks.deep_view() =~= pre.push(c@));
        }
    }

    /// Adds `ev` to the events to publish.
    pub(crate) fn push_event(&mut self, ev: PaymentEvent)
        requires
            old(self).wf(),
        ensures
            final(self).wf(),
            final(self)@ == (ContractEnvModel { events: old(self)@.events.push(ev@), ..old(self)@ }),
    {
        let ghost pre = self.events.deep_view();
        self.events.push(ev);
        proof {
            assert(self.events.deep_view() =~= pre.push(ev@));
        }
    }
}

/// The payment-processing contract.
pub struct PaymentProcessingContract;

// ===== Admin and fees =====

/// The fee model of the arguments of `set_fee`.
pub open spec fn fee_of(rate: u64, collector: Seq<u8>, token: Seq<u8>) -> FeeModel {
    FeeModel { fee_rate: rate, fee_collector: collector, fee_token: token }
}

/// The outcome of `get_fee_info`.
pub open spec fn spec_fee_info(s: StorageModel) -> Result<(u64, Seq<u8>, Seq<u8>), PaymentError> {
    match s.fee {
        Some(f) => Ok((f.fee_rate, f.fee_collector, f.fee_token)),
        None => Err(PaymentError::AdminNotFound),
    }
}

// ===== Merchants =====

/// The merchant that registration stores.
pub open spec fn registered_merchant(
    m: Seq<u8>,
    name: Seq<u8>,
    description: Seq<u8>,
    contact_info: Seq<u8>,
    category: MerchantCategory,
    now: u64,
) -> MerchantModel {
    MerchantModel {
        wallet_address: m,
        active: true,
        supported_tokens: Seq::empty(),
        name,
        description,
        contact_info,
        registration_timestamp: now,
        last_activity_timestamp: now,
        category,
        max_transaction_limit: DEFAULT_TRANSACTION_LIMIT,
    }
}

/// The outcome of `register_merchant`.
pub open spec fn spec_register_result(
    e: ContractEnvModel,
    m: Seq<u8>,
    name: Seq<u8>,
    description: Seq<u8>,
    contact_info: Seq<u8>,
) -> Result<(), PaymentError> {
    if env_paused(e) {
        Err(PaymentError::ContractPaused)
    } else if e.storage.merchants.contains_key(m) {
        Err(PaymentError::MerchantAlreadyExists)
    } else if !valid_name(name) {
        Err(PaymentError::InvalidName)
    } else if !valid_description(description) {
        Err(PaymentError::InvalidDescription)
    } else if !valid_contact_info(contact_info) {
        Err(PaymentError::InvalidContactInfo)
    } else {
        Ok(())
    }
}

/// The merchant after a profile update.
pub open spec fn updated_profile(old_m: MerchantModel, u: ProfileUpdateDataModel, now: u64) -> MerchantModel {
    MerchantModel {
        name: if u.update_name { u.name } else { old_m.name },
        description: if u.update_description { u.description } else { old_m.description },
        contact_info: if u.update_contact_info { u.contact_info } else { old_m.contact_info },
        category: if u.update_category { u.category } else { old_m.category },
        last_activity_timestamp: now,
        ..old_m
    }
}

/// The outcome of `update_merchant_profile`.
pub open spec fn spec_update_profile_result(e: ContractEnvModel, m: Seq<u8>, u: ProfileUpdateDataModel) -> Result<(), PaymentError> {
    match stored_merchant(e, m) {
        None => Err(PaymentError::MerchantNotFound),
        Some(md) => if !md.active {
            Err(PaymentError::MerchantInactive)
        } else if u.update_name && !valid_name(u.name) {
            Err(PaymentError::InvalidName)
        } else if u.update_description && !valid_description(u.description) {
            Err(PaymentError::InvalidDescription)
        } else if u.update_contact_info && !valid_contact_info(u.contact_info) {
            Err(PaymentError::InvalidContactInfo)
        } else {
            Ok(())
        },
    }
}

/// The outcome of `set_merchant_limits`.
pub open spec fn spec_set_limits_result(e: ContractEnvModel, m: Seq<u8>, limit: i128) -> Result<(), PaymentError> {
    match stored_merchant(e, m) {
        None => Err(PaymentError::MerchantNotFound),
        Some(md) => if !md.active {
            Err(PaymentError::MerchantInactive)
        } else if limit <= 0 {
            Err(PaymentError::InvalidTransactionLimit)
        } else {
            Ok(())
        },
    }
}

/// The result of a lookup of merchant `m`.
pub open spec fn spec_merchant_lookup(e: ContractEnvModel, m: Seq<u8>) -> Result<MerchantModel, PaymentError> {
    match stored_merchant(e, m) {
        Some(md) => Ok(md),
        None => Err(PaymentError::MerchantNotFound),
    }
}

impl PaymentProcessingContract {
    /// Whether the contract is paused at the ledger time.
    pub fn is_paused(env: &ContractEnv) -> (b: bool)
        ensures
            b == env_paused(env@),
    {
        env.storage.is_paused(env.timestamp)
    }

    /// Names the admin. An existing admin must authorize the change; the
    /// first admin authorizes itself.
    pub fn set_admin(env: &mut ContractEnv, admin: Address) -> (r: Result<(), PaymentError>)
        requires
            old(env).wf(),
        ensures
            final(env).wf(),
            r is Ok,
            final(env)@ == with_effects(
                old(env)@,
                seq![match old(env)@.storage.admin { Some(a) => a, None => admin@ }],
                StorageModel { admin: Some(admin@), ..old(env)@.storage },
                Seq::empty(),
                Seq::empty(),
            ),
    {
        match env.storage.get_admin() {
            Some(current) => env.require_auth(&current),
            None => env.require_auth(&admin),
        }
        env.storage.set_admin(&admin);
        proof {
            assert(env@.transfers =~= old(env)@.transfers + Seq::<TokenTransferModel>::empty());
            assert(env@.events =~= old(env)@.events + Seq::<PaymentEventModel>::empty());
        }
        Ok(())
    }

    /// Lets the admin set the fee: a rate of at most 10 percent, the address
    /// that collects fees and the token they are paid in.
    pub fn set_fee(env: &mut ContractEnv, fee_rate: u64, fee_collector: Address, fee_token: Address) -> (r: Result<(), PaymentError>)
        requires
            old(env).wf(),
        ensures
            final(env).wf(),
            r == match old(env)@.storage.admin {
                None => Err(PaymentError::AdminNotFound),
                Some(_) => if fee_rate > MAX_FEE_RATE { Err(PaymentError::InvalidFeeRate) } else { Ok(()) },
            },
            final(env)@ == match old(env)@.storage.admin {
                None => old(env)@,
                Some(a) => if r is Ok {
                    with_effects(
                        old(env)@,
                        seq![a],
                        StorageModel { fee: Some(fee_of(fee_rate, fee_collector@, fee_token@)), ..old(env)@.storage },
                        Seq::empty(),
                        seq![PaymentEventModel::FeeInfoSet(fee_rate, fee_collector@, fee_token@)],
                    )
                } else {
                    only_auths(old(env)@, seq![a])
                },
            },
    {
        let admin = match env.storage.get_admin() {
            Some(a) => a,
            None => {
                proof {
                    assert(env@ == old(env)@);
                }
                return Err(PaymentError::AdminNotFound);
            },
        };
        env.require_auth(&admin);
        let fee = Fee { fee_rate, fee_collector: fee_collector.duplicate(), fee_token: fee_token.duplicate() };
        match env.storage.set_fee_info(&fee, &admin) {
            Ok(()) => {},
            Err(e) => return Err(e),
        }
        env.push_event(PaymentEvent::FeeInfoSet(fee_rate, fee_collector, fee_token));
        proof {
            assert(env@.transfers =~= old(env)@.transfers + Seq::<TokenTransferModel>::empty());
            assert(env@.events =~= old(env)@.events + seq![PaymentEventModel::FeeInfoSet(fee_rate, fee@.fee_collector, fee@.fee_token)]);
        }
        Ok(())
    }

    /// The fee rate, collector and token; `AdminNotFound` when no fee is set.
    pub fn get_fee_info(env: &ContractEnv) -> (r: Result<(u64, Address, Address), PaymentError>)
        requires
            env.wf(),
        ensures
            match (r, spec_fee_info(env@.storage)) {
                (Ok((rate, c, t)), Ok((rate2, c2, t2))) => rate == rate2 && c@ == c2 && t@ == t2,
                (Err(e), Err(e2)) => e == e2,
                _ => false,
            },
    {
        let rate = env.storage.get_fee_rate();
        let collector = match env.storage.get_fee_collector() {
            Some(c) => c,
            None => return Err(PaymentError::AdminNotFound),
        };
        let token = match env.storage.get_fee_token() {
            Some(t) => t,
            None => return Err(PaymentError::InvalidToken),
        };
        Ok((rate, collector, token))
    }

    /// Registers a merchant with a profile, the default transaction limit and
    /// no tokens, and publishes `merchant_reg`.
    pub fn register_merchant(
        env: &mut ContractEnv,
        merchant_address: Address,
        name: Vec<u8>,
        description: Vec<u8>,
        contact_info: Vec<u8>,
        category: MerchantCategory,
    ) -> (r: Result<(), PaymentError>)
        requires
            old(env).wf(),
        ensures
            final(env).wf(),
            r == spec_register_result(old(env)@, merchant_address@, name@, description@, contact_info@),
            r is Ok ==> final(env)@ == with_effects(
                old(env)@,
                seq![merchant_address@],
                merchant_saved(
                    old(env)@.storage,
                    merchant_address@,
                    registered_merchant(merchant_address@, name@, description@, contact_info@, category, old(env)@.timestamp),
                ),
                Seq::empty(),
                seq![PaymentEventModel::MerchantRegistered(MerchantRegisteredEventModel {
                    merchant: merchant_address@,
                    name: name@,
                    category,
                    timestamp: old(env)@.timestamp,
                })],
            ),
            r is Err ==> final(env)@ == only_auths(
                old(env)@,
                if env_paused(old(env)@) { Seq::empty() } else { seq![merchant_address@] },
            ),
    {
        if Self::is_paused(env) {
            proof {
                assert(old(env)@.auths + Seq::<Seq<u8>>::empty() =~= old(env)@.auths);
            }
            return Err(PaymentError::ContractPaused);
        }
        env.require_auth(&merchant_address);
        if env.storage.merchant_exists(&merchant_address) {
            return Err(PaymentError::MerchantAlreadyExists);
        }
        match validate_name(&name) {
            Ok(()) => {},
            Err(e) => return Err(e),
        }
        match validate_description(&description) {
            Ok(()) => {},
            Err(e) => return Err(e),
        }
        match validate_contact_info(&contact_info) {
            Ok(()) => {},
            Err(e) => return Err(e),
        }
        let now = env.timestamp;
        let merchant = Merchant {
            wallet_address: merchant_address.duplicate(),
            active: true,
            supported_tokens: Vec::new(),
            name: name.duplicate(),
            description,
            contact_info,
            registration_timestamp: now,
            last_activity_timestamp: now,
            category,
            max_transaction_limit: DEFAULT_TRANSACTION_LIMIT,
        };
        proof {
            assert(merchant.supported_tokens.deep_view() =~= Seq::<Seq<u8>>::empty());
        }
        env.storage.save_merchant(&merchant_address, &merchant);
        let event = MerchantRegisteredEvent { merchant: merchant_address, name, category, timestamp: now };
        env.push_event(PaymentEvent::MerchantRegistered(event));
        proof {
            assert(env@.transfers =~= old(env)@.transfers + Seq::<TokenTransferModel>::empty());
            assert(env@.events =~= old(env)@.events + seq![PaymentEventModel::MerchantRegistered(event@)]);
        }
        Ok(())
    }
}


/// `tokens` after adding each of `added` that it does not hold yet, in order.
pub open spec fn tokens_added(tokens: Seq<Seq<u8>>, added: Seq<Seq<u8>>) -> Seq<Seq<u8>>
    decreases added.len(),
{
    if added.len() == 0 {
        tokens
    } else {
        let t = tokens_added(tokens, added.drop_last());
        if t.contains(added.last()) { t } else { t.push(added.last()) }
    }
}

/// The merchant that batch registration stores for `m`.
pub open spec fn batch_merchant(m: Seq<u8>, now: u64) -> MerchantModel {
    MerchantModel {
        wallet_address: m,
        active: true,
        supported_tokens: Seq::empty(),
        name: "Batch Merchant".spec_bytes(),
        description: "Batch registered merchant".spec_bytes(),
        contact_info: "N/A".spec_bytes(),
        registration_timestamp: now,
        last_activity_timestamp: now,
        category: MerchantCategory::Other,
        max_transaction_limit: BATCH_TRANSACTION_LIMIT,
    }
}

/// `merchants` after storing a batch merchant under each of `ms`, in order.
pub open spec fn batch_registered(merchants: Map<Seq<u8>, MerchantModel>, ms: Seq<Seq<u8>>, now: u64) -> Map<Seq<u8>, MerchantModel>
    decreases ms.len(),
{
    if ms.len() == 0 {
        merchants
    } else {
        batch_registered(merchants, ms.drop_last(), now).insert(ms.last(), batch_merchant(ms.last(), now))
    }
}

/// The transaction limit of a merchant registered in a batch.
pub const BATCH_TRANSACTION_LIMIT: i128 = 1_000_000;

/// The environment after `merchant` has added `token` to the tokens it
/// accepts: the token is appended to its list and the activity recorded.
pub open spec fn with_token_added(e: ContractEnvModel, merchant: Seq<u8>, token: Seq<u8>) -> ContractEnvModel {
    with_effects(
        e,
        seq![merchant],
        merchant_saved(e.storage, merchant, MerchantModel {
            supported_tokens: e.storage.merchants[merchant].supported_tokens.push(token),
            last_activity_timestamp: e.timestamp,
            ..e.storage.merchants[merchant]
        }),
        Seq::empty(),
        Seq::empty(),
    )
}

impl PaymentProcessingContract {
    /// Adds `token` to the tokens the merchant accepts (even when it is
    /// there already) and records the activity.
    pub fn add_supported_token(env: &mut ContractEnv, merchant: Address, token: Address) -> (r: Result<(), PaymentError>)
        requires
            old(env).wf(),
        ensures
            final(env).wf(),
            r == if env_paused(old(env)@) {
                Err(PaymentError::ContractPaused)
            } else if !old(env)@.storage.merchants.contains_key(merchant@) {
                Err(PaymentError::MerchantNotFound)
            } else {
                Ok(())
            },
            r is Ok ==> final(env)@ == with_token_added(old(env)@, merchant@, token@),
            r is Err ==> final(env)@ == only_auths(old(env)@, seq![merchant@]),
    {
        env.require_auth(&merchant);
        if Self::is_paused(env) {
            return Err(PaymentError::ContractPaused);
        }
        let mut data = match env.storage.get_merchant(&merchant) {
            Ok(m) => m,
            Err(e) => return Err(e),
        };
        let ghost pre = data.supported_tokens.deep_view();
        data.supported_tokens.push(token);
        data.last_activity_timestamp = env.timestamp;
        proof {
            assert(data.supported_tokens.deep_view() =~= pre.push(token@));
        }
        env.storage.save_merchant(&merchant, &data);
        proof {
            assert(env@.transfers =~= old(env)@.transfers + Seq::<TokenTransferModel>::empty());
            assert(env@.events =~= old(env)@.events + Seq::<PaymentEventModel>::empty());
        }
        Ok(())
    }

    /// Lets an active merchant update the fields of its profile that
    /// `update_data` selects; publishes `profile_upd`.
    pub fn update_merchant_profile(env: &mut ContractEnv, merchant: Address, update_data: ProfileUpdateData) -> (r: Result<(), PaymentError>)
        requires
            old(env).wf(),
        ensures
            final(env).wf(),
            r == spec_update_profile_result(old(env)@, merchant@, update_data@),
            r is Ok ==> final(env)@ == with_effects(
                old(env)@,
                seq![merchant@],
                merchant_saved(old(env)@.storage, merchant@, updated_profile(old(env)@.storage.merchants[merchant@], update_data@, old(env)@.timestamp)),
                Seq::empty(),
                seq![PaymentEventModel::ProfileUpdated(ProfileUpdatedEventModel { merchant: merchant@, timestamp: old(env)@.timestamp })],
            ),
            r is Err ==> final(env)@ == only_auths(old(env)@, seq![merchant@]),
    {
        env.require_auth(&merchant);
        let mut data = match env.storage.get_merchant(&merchant) {
            Ok(m) => m,
            Err(e) => return Err(e),
        };
        if !data.active {
            return Err(PaymentError::MerchantInactive);
        }
        let ProfileUpdateData { update_name, name, update_description, description, update_contact_info, contact_info, update_category, category } = update_data;
        if update_name {
            match validate_name(&name) {
                Ok(()) => {},
                Err(e) => return Err(e),
            }
        }
        if update_description {
            match validate_description(&description) {
                Ok(()) => {},
                Err(e) => return Err(e),
            }
        }
        if update_contact_info {
            match validate_contact_info(&contact_info) {
                Ok(()) => {},
                Err(e) => return Err(e),
            }
        }
        if update_name {
            data.name = name;
        }
        if update_description {
            data.description = description;
        }
        if update_contact_info {
            data.contact_info = contact_info;
        }
        if update_category {
            data.category = category;
        }
        let now = env.timestamp;
        data.last_activity_timestamp = now;
        env.storage.save_merchant(&merchant, &data);
        let event = ProfileUpdatedEvent { merchant, timestamp: now };
        env.push_event(PaymentEvent::ProfileUpdated(event));
        proof {
            assert(env@.transfers =~= old(env)@.transfers + Seq::<TokenTransferModel>::empty());
            assert(env@.events =~= old(env)@.events + seq![PaymentEventModel::ProfileUpdated(event@)]);
        }
        Ok(())
    }

    /// The merchant's stored record.
    pub fn get_merchant_profile(env: &ContractEnv, merchant: Address) -> (r: Result<Merchant, PaymentError>)
        requires
            env.wf(),
        ensures
            result_model(r) == spec_merchant_lookup(env@, merchant@),
    {
        env.storage.get_merchant(&merchant)
    }

    /// Lets an active merchant set a positive transaction limit; publishes
    /// `limits_upd`.
    pub fn set_merchant_limits(env: &mut ContractEnv, merchant: Address, max_transaction_limit: i128) -> (r: Result<(), PaymentError>)
        requires
            old(env).wf(),
        ensures
            final(env).wf(),
            r == spec_set_limits_result(old(env)@, merchant@, max_transaction_limit),
            r is Ok ==> final(env)@ == with_effects(
                old(env)@,
                seq![merchant@],
                merchant_saved(old(env)@.storage, merchant@, MerchantModel {
                    max_transaction_limit,
                    last_activity_timestamp: old(env)@.timestamp,
                    ..old(env)@.storage.merchants[merchant@]
                }),
                Seq::empty(),
                seq![PaymentEventModel::LimitsUpdated(LimitsUpdatedEventModel {
                    merchant: merchant@,
                    max_transaction_limit,
                    timestamp: old(env)@.timestamp,
                })],
            ),
            r is Err ==> final(env)@ == only_auths(old(env)@, seq![merchant@]),
    {
        env.require_auth(&merchant);
        let mut data = match env.storage.get_merchant(&merchant) {
            Ok(m) => m,
            Err(e) => return Err(e),
        };
        if !data.active {
            return Err(PaymentError::MerchantInactive);
        }
        match validate_transaction_limit(max_transaction_limit) {
            Ok(()) => {},
            Err(e) => return Err(e),
        }
        data.max_transaction_limit = max_transaction_limit;
        let now = env.timestamp;
        data.last_activity_timestamp = now;
        env.storage.save_merchant(&merchant, &data);
        let event = LimitsUpdatedEvent { merchant, max_transaction_limit, timestamp: now };
        env.push_event(PaymentEvent::LimitsUpdated(event));
        proof {
            assert(env@.transfers =~= old(env)@.transfers + Seq::<TokenTransferModel>::empty());
            assert(env@.events =~= old(env)@.events + seq![PaymentEventModel::LimitsUpdated(event@)]);
        }
        Ok(())
    }

    /// Marks the merchant inactive; publishes `merchant_deact`.
    pub fn deactivate_merchant(env: &mut ContractEnv, merchant: Address) -> (r: Result<(), PaymentError>)
        requires
            old(env).wf(),
        ensures
            final(env).wf(),
            r == if old(env)@.storage.merchants.contains_key(merchant@) { Ok(()) } else { Err(PaymentError::MerchantNotFound) },
            r is Ok ==> final(env)@ == with_effects(
                old(env)@,
                seq![merchant@],
                merchant_saved(old(env)@.storage, merchant@, MerchantModel {
                    active: false,
                    last_activity_timestamp: old(env)@.timestamp,
                    ..old(env)@.storage.merchants[merchant@]
                }),
                Seq::empty(),
                seq![PaymentEventModel::MerchantDeactivated(MerchantDeactivatedEventModel {
                    merchant: merchant@,
                    timestamp: old(env)@.timestamp,
                })],
            ),
            r is Err ==> final(env)@ == only_auths(old(env)@, seq![merchant@]),
    {
        env.require_auth(&merchant);
        let mut data = match env.storage.get_merchant(&merchant) {
            Ok(m) => m,
            Err(e) => return Err(e),
        };
        data.active = false;
        let now = env.timestamp;
        data.last_activity_timestamp = now;
        env.storage.save_merchant(&merchant, &data);
        let event = MerchantDeactivatedEvent { merchant, timestamp: now };
        env.push_event(PaymentEvent::MerchantDeactivated(event));
        proof {
            assert(env@.transfers =~= old(env)@.transfers + Seq::<TokenTransferModel>::empty());
            assert(env@.events =~= old(env)@.events + seq![PaymentEventModel::MerchantDeactivated(event@)]);
        }
        Ok(())
    }

    /// Marks the merchant active again.
    pub fn activate_merchant(env: &mut ContractEnv, merchant: Address) -> (r: Result<(), PaymentError>)
        requires
            old(env).wf(),
        ensures
            final(env).wf(),
            r == if old(env)@.storage.merchants.contains_key(merchant@) { Ok(()) } else { Err(PaymentError::MerchantNotFound) },
            r is Ok ==> final(env)@ == with_effects(
                old(env)@,
                seq![merchant@],
                merchant_saved(old(env)@.storage, merchant@, MerchantModel { active: true, ..old(env)@.storage.merchants[merchant@] }),
                Seq::empty(),
                Seq::empty(),
            ),
            r is Err ==> final(env)@ == only_auths(old(env)@, seq![merchant@]),
    {
        env.require_auth(&merchant);
        let mut data = match env.storage.get_merchant(&merchant) {
            Ok(m) => m,
            Err(e) => return Err(e),
        };
        data.active = true;
        env.storage.save_merchant(&merchant, &data);
        proof {
            assert(env@.transfers =~= old(env)@.transfers + Seq::<TokenTransferModel>::empty());
            assert(env@.events =~= old(env)@.events + Seq::<PaymentEventModel>::empty());
        }
        Ok(())
    }

    /// The merchant's stored record.
    pub fn get_merchant_info(env: &ContractEnv, merchant: Address) -> (r: Result<Merchant, PaymentError>)
        requires
            env.wf(),
        ensures
            result_model(r) == spec_merchant_lookup(env@, merchant@),
    {
        env.storage.get_merchant(&merchant)
    }

    /// The number of tokens the merchant accepts.
    pub fn get_merchant_token_count(env: &ContractEnv, merchant: Address) -> (r: Result<u32, PaymentError>)
        requires
            env.wf(),
        ensures
            r == match spec_merchant_lookup(env@, merchant@) {
                Ok(m) => Ok(m.supported_tokens.len() as u32),
                Err(e) => Err(e),
            },
    {
        let data = match env.storage.get_merchant(&merchant) {
            Ok(m) => m,
            Err(e) => return Err(e),
        };
        proof {
            assert(data.supported_tokens.deep_view().len() == data.supported_tokens@.len());
        }
        Ok(data.supported_tokens.len() as u32)
    }

    /// Whether the merchant accepts `token`.
    pub fn is_token_supported(env: &ContractEnv, merchant: Address, token: Address) -> (r: Result<bool, PaymentError>)
        requires
            env.wf(),
        ensures
            r == match spec_merchant_lookup(env@, merchant@) {
                Ok(m) => Ok(m.supported_tokens.contains(token@)),
                Err(e) => Err(e),
            },
    {
        let data = match env.storage.get_merchant(&merchant) {
            Ok(m) => m,
            Err(e) => return Err(e),
        };
        Ok(data.supports_token(&token))
    }

    /// The merchant's nonce tracker, if it has used a nonce.
    pub fn get_nonce_tracker(env: &ContractEnv, merchant: Address) -> (r: Result<Option<NonceTracker>, PaymentError>)
        requires
            env.wf(),
        ensures
            match r {
                Ok(Some(t)) => env@.storage.nonce_trackers.contains_key(merchant@) && t@ == env@.storage.nonce_trackers[merchant@],
                Ok(None) => !env@.storage.nonce_trackers.contains_key(merchant@),
                Err(_) => false,
            },
    {
        Ok(env.storage.get_nonce_tracker(&merchant))
    }

    /// Removes every occurrence of `token` from the tokens the merchant
    /// accepts; succeeds whether or not it was there.
    pub fn remove_supported_token(env: &mut ContractEnv, merchant: Address, token: Address) -> (r: Result<(), PaymentError>)
        requires
            old(env).wf(),
        ensures
            final(env).wf(),
            r == if env_paused(old(env)@) {
                Err(PaymentError::ContractPaused)
            } else if !old(env)@.storage.merchants.contains_key(merchant@) {
                Err(PaymentError::MerchantNotFound)
            } else {
                Ok(())
            },
            r is Ok ==> final(env)@ == with_effects(
                old(env)@,
                seq![merchant@],
                if old(env)@.storage.merchants[merchant@].supported_tokens.contains(token@) {
                    merchant_saved(old(env)@.storage, merchant@, MerchantModel {
                        supported_tokens: tokens_without(old(env)@.storage.merchants[merchant@].supported_tokens, token@),
                        ..old(env)@.storage.merchants[merchant@]
                    })
                } else {
                    old(env)@.storage
                },
                Seq::empty(),
                Seq::empty(),
            ),
            r is Err ==> final(env)@ == only_auths(old(env)@, seq![merchant@]),
    {
        env.require_auth(&merchant);
        if Self::is_paused(env) {
            return Err(PaymentError::ContractPaused);
        }
        let mut data = match env.storage.get_merchant(&merchant) {
            Ok(m) => m,
            Err(e) => return Err(e),
        };
        if data.remove_token(token) {
            env.storage.save_merchant(&merchant, &data);
        }
        proof {
            assert(env@.transfers =~= old(env)@.transfers + Seq::<TokenTransferModel>::empty());
            assert(env@.events =~= old(env)@.events + Seq::<PaymentEventModel>::empty());
        }
        Ok(())
    }

    /// Registers each merchant of the batch with default profile data,
    /// replacing any merchant stored under the same address; each must
    /// authorize the call.
    pub fn batch_register_merchants(env: &mut ContractEnv, batch: super::types::BatchMerchantRegistration) -> (r: Result<(), PaymentError>)
        requires
            old(env).wf(),
        ensures
            final(env).wf(),
            r == if env_paused(old(env)@) { Err(PaymentError::ContractPaused) } else { Ok(()) },
            r is Ok ==> final(env)@ == with_effects(
                old(env)@,
                batch@.merchants,
                StorageModel {
                    merchants: batch_registered(old(env)@.storage.merchants, batch@.merchants, old(env)@.timestamp),
                    ..old(env)@.storage
                },
                Seq::empty(),
                Seq::empty(),
            ),
            r is Err ==> final(env)@ == old(env)@,
    {
        if Self::is_paused(env) {
            return Err(PaymentError::ContractPaused);
        }
        let ghost ms = batch@.merchants;
        let ghost e0 = env@;
        let now = env.timestamp;
        let mut i: usize = 0;
        proof {
            assert(ms.take(0) =~= Seq::<Seq<u8>>::empty());
            assert(env@.auths =~= e0.auths + ms.take(0));
        }
        while i < batch.merchants.len()
            invariant
                i <= batch.merchants.len(),
                env.wf(),
                ms == batch.merchants.deep_view(),
                now == e0.timestamp,
                env@ == (ContractEnvModel {
                    auths: e0.auths + ms.take(i as int),
                    storage: StorageModel {
                        merchants: batch_registered(e0.storage.merchants, ms.take(i as int), now),
                        ..e0.storage
                    },
                    ..e0
                }),
            decreases batch.merchants.len() - i,
        {
            let a = &batch.merchants[i];
            proof {
                assert(ms.take(i + 1).drop_last() =~= ms.take(i as int));
                assert(ms.take(i + 1).last() == a@);
                assert(ms.take(i as int) + seq![a@] =~= ms.take(i + 1));
            }
            env.require_auth(a);
            let merchant = Merchant {
                wallet_address: a.duplicate(),
                active: true,
                supported_tokens: Vec::new(),
                name: text_of("Batch Merchant"),
                description: text_of("Batch registered merchant"),
                contact_info: text_of("N/A"),
                registration_timestamp: now,
                last_activity_timestamp: now,
                category: MerchantCategory::Other,
                max_transaction_limit: BATCH_TRANSACTION_LIMIT,
            };
            proof {
                assert(merchant.supported_tokens.deep_view() =~= Seq::<Seq<u8>>::empty());
                assert(merchant@ == batch_merchant(a@, now));
            }
            env.storage.save_merchant(a, &merchant);
            proof {
                assert((e0.auths + ms.take(i as int)) + seq![a@] =~= e0.auths + ms.take(i + 1));
            }
            i += 1;
        }
        proof {
            assert(ms.take(batch.merchants.len() as int) =~= ms);
            assert(env@.transfers =~= e0.transfers + Seq::<TokenTransferModel>::empty());
            assert(env@.events =~= e0.events + Seq::<PaymentEventModel>::empty());
        }
        Ok(())
    }

    /// Adds each token of the batch that the merchant does not accept yet.
    pub fn batch_add_tokens(env: &mut ContractEnv, batch: super::types::BatchTokenAddition) -> (r: Result<(), PaymentError>)
        requires
            old(env).wf(),
        ensures
            final(env).wf(),
            r == if env_paused(old(env)@) {
                Err(PaymentError::ContractPaused)
            } else if !old(env)@.storage.merchants.contains_key(batch@.merchant) {
                Err(PaymentError::MerchantNotFound)
            } else {
                Ok(())
            },
            r is Ok ==> final(env)@ == with_effects(
                old(env)@,
                seq![batch@.merchant],
                merchant_saved(old(env)@.storage, batch@.merchant, MerchantModel {
                    supported_tokens: tokens_added(old(env)@.storage.merchants[batch@.merchant].supported_tokens, batch@.tokens),
                    ..old(env)@.storage.merchants[batch@.merchant]
                }),
                Seq::empty(),
                Seq::empty(),
            ),
            r is Err ==> final(env)@ == only_auths(
                old(env)@,
                if env_paused(old(env)@) { Seq::empty() } else { seq![batch@.merchant] },
            ),
    {
        if Self::is_paused(env) {
            proof {
                assert(old(env)@.auths + Seq::<Seq<u8>>::empty() =~= old(env)@.auths);
            }
            return Err(PaymentError::ContractPaused);
        }
        env.require_auth(&batch.merchant);
        let mut data = match env.storage.get_merchant(&batch.merchant) {
            Ok(m) => m,
            Err(e) => return Err(e),
        };
        let ghost d0 = data@;
        let ghost toks = batch@.tokens;
        let mut i: usize = 0;
        proof {
            assert(toks.take(0) =~= Seq::<Seq<u8>>::empty());
        }
        while i < batch.tokens.len()
            invariant
                i <= batch.tokens.len(),
                toks == batch.tokens.deep_view(),
                data@ == (MerchantModel { supported_tokens: tokens_added(d0.supported_tokens, toks.take(i as int)), ..d0 }),
            decreases batch.tokens.len() - i,
        {
            proof {
                assert(toks.take(i + 1).drop_last() =~= toks.take(i as int));
                assert(toks.take(i + 1).last() == batch.tokens@[i as int]@);
            }
            let _ = data.add_token(batch.tokens[i].duplicate());
            i += 1;
        }
        proof {
            assert(toks.take(batch.tokens.len() as int) =~= toks);
        }
        env.storage.save_merchant(&batch.merchant, &data);
        proof {
            assert(env@.transfers =~= old(env)@.transfers + Seq::<TokenTransferModel>::empty());
            assert(env@.events =~= old(env)@.events + Seq::<PaymentEventModel>::empty());
        }
        Ok(())
    }
}


// ===== Signed payment orders =====

/// The checks on a payment order before its signature: the first that fails
/// gives the error.
pub open spec fn spec_order_check(e: ContractEnvModel, order: PaymentOrderModel) -> Result<(), PaymentError> {
    if env_paused(e) {
        Err(PaymentError::ContractPaused)
    } else if e.timestamp > order.expiration {
        Err(PaymentError::OrderExpired)
    } else {
        match stored_merchant(e, order.merchant_address) {
            None => Err(PaymentError::MerchantNotFound),
            Some(m) => if !m.active {
                Err(PaymentError::MerchantInactive)
            } else if !m.supported_tokens.contains(order.token) {
                Err(PaymentError::InvalidToken)
            } else if order.amount > m.max_transaction_limit {
                Err(PaymentError::TransactionLimitExceeded)
            } else if spec_nonce_used(e.storage, order.merchant_address, order.nonce) {
                Err(PaymentError::NonceAlreadyUsed)
            } else {
                Ok(())
            },
        }
    }
}

/// The fee charged on an order, at the stored rate.
pub open spec fn order_fee(s: StorageModel, order: PaymentOrderModel) -> int {
    spec_fee(order.amount as int, spec_fee_rate(s) as int)
}

/// The outcome of `process_payment_with_signature`.
pub open spec fn spec_payment_result(e: ContractEnvModel, order: PaymentOrderModel) -> Result<(), PaymentError> {
    match spec_order_check(e, order) {
        Err(x) => Err(x),
        Ok(()) => match e.storage.fee {
            None => Err(PaymentError::AdminNotFound),
            Some(f) => if order_fee(e.storage, order) < 0 {
                Err(PaymentError::InvalidAmount)
            } else {
                Ok(())
            },
        },
    }
}

/// The record that a processed order stores.
pub open spec fn order_record(payer: Seq<u8>, order: PaymentOrderModel, now: u64) -> PaymentRecordModel {
    PaymentRecordModel {
        order_id: order.order_id,
        merchant_address: order.merchant_address,
        payer_address: payer,
        token: order.token,
        amount: order.amount as i128,
        paid_at: now,
        refunded_amount: 0,
    }
}

/// The transfers of a processed order: the amount less the fee to the
/// merchant, then the fee to the collector when it is positive.
pub open spec fn order_transfers(s: StorageModel, payer: Seq<u8>, order: PaymentOrderModel) -> Seq<TokenTransferModel> {
    let fee = order_fee(s, order);
    let to_merchant = TokenTransferModel {
        token: order.token,
        from: payer,
        to: order.merchant_address,
        amount: (order.amount - fee) as i128,
    };
    if fee > 0 {
        seq![to_merchant, TokenTransferModel {
            token: s.fee->0.fee_token,
            from: payer,
            to: s.fee->0.fee_collector,
            amount: fee as i128,
        }]
    } else {
        seq![to_merchant]
    }
}

/// The events of a processed order.
pub open spec fn order_events(s: StorageModel, order: PaymentOrderModel) -> Seq<PaymentEventModel> {
    let fee = order_fee(s, order);
    if fee > 0 {
        seq![PaymentEventModel::FeeCollected(s.fee->0.fee_collector, fee as i128, order.order_id)]
    } else {
        Seq::empty()
    }
}

/// The state after a processed order, apart from the nonce trackers: the
/// merchant's activity, the payment record and its indices.
pub open spec fn order_stored(s: StorageModel, payer: Seq<u8>, order: PaymentOrderModel, now: u64) -> StorageModel {
    let rec = order_record(payer, order, now);
    StorageModel {
        merchants: s.merchants.insert(
            order.merchant_address,
            MerchantModel { last_activity_timestamp: now, ..s.merchants[order.merchant_address] },
        ),
        payments: s.payments.insert(order.order_id, rec),
        merchant_payment_indices: index_appended(s.merchant_payment_indices, order.merchant_address, order.order_id),
        payer_payment_indices: index_appended(s.payer_payment_indices, payer, order.order_id),
        token_payment_indices: index_appended(s.token_payment_indices, order.token, order.order_id),
        ..s
    }
}

impl PaymentProcessingContract {
    /// The checks on a payment order that come before its signature is
    /// verified: see [`spec_order_check`].
    pub fn validate_payment_order(env: &ContractEnv, order: &PaymentOrder) -> (r: Result<(), PaymentError>)
        requires
            env.wf(),
        ensures
            r == spec_order_check(env@, order@),
    {
        if Self::is_paused(env) {
            return Err(PaymentError::ContractPaused);
        }
        if env.timestamp > order.expiration as u64 {
            return Err(PaymentError::OrderExpired);
        }
        let merchant = match env.storage.get_merchant(&order.merchant_address) {
            Ok(m) => m,
            Err(e) => return Err(e),
        };
        if !merchant.active {
            return Err(PaymentError::MerchantInactive);
        }
        if !merchant.supports_token(&order.token) {
            return Err(PaymentError::InvalidToken);
        }
        if (order.amount as i128) > merchant.max_transaction_limit {
            return Err(PaymentError::TransactionLimitExceeded);
        }
        if env.storage.is_nonce_used(&order.merchant_address, order.nonce) {
            return Err(PaymentError::NonceAlreadyUsed);
        }
        Ok(())
    }

    /// Processes a payment order that the merchant signed: once the order
    /// passes its checks, the host is asked to verify `signature` by
    /// `merchant_public_key` over the order; the payer pays the amount less
    /// the fee to the merchant in the order's token and the fee to the
    /// collector in the fee token, the nonce is used up, and the payment is
    /// recorded and indexed.
    pub fn process_payment_with_signature(
        env: &mut ContractEnv,
        payer: Address,
        order: PaymentOrder,
        signature: Vec<u8>,
        merchant_public_key: Vec<u8>,
    ) -> (r: Result<(), PaymentError>)
        requires
            old(env).wf(),
        ensures
            final(env).wf(),
            r == spec_payment_result(old(env)@, order@),
            r is Ok ==> {
                &&& nonce_marked(old(env)@.storage, final(env)@.storage, order@.merchant_address, order@.nonce)
                &&& final(env)@ == with_check(with_effects(
                    old(env)@,
                    seq![payer@],
                    StorageModel {
                        nonce_trackers: final(env)@.storage.nonce_trackers,
                        ..order_stored(old(env)@.storage, payer@, order@, old(env)@.timestamp)
                    },
                    order_transfers(old(env)@.storage, payer@, order@),
                    order_events(old(env)@.storage, order@),
                ), order_signature_check(merchant_public_key@, signature@, order@))
            },
            r is Err ==> final(env)@ == if spec_order_check(old(env)@, order@) is Ok {
                with_check(only_auths(old(env)@, seq![payer@]), order_signature_check(merchant_public_key@, signature@, order@))
            } else {
                only_auths(old(env)@, if env_paused(old(env)@) { Seq::empty() } else { seq![payer@] })
            },
    {
        if Self::is_paused(env) {
            proof {
                assert(old(env)@.auths + Seq::<Seq<u8>>::empty() =~= old(env)@.auths);
            }
            return Err(PaymentError::ContractPaused);
        }
        env.require_auth(&payer);
        match Self::validate_payment_order(env, &order) {
            Ok(()) => {},
            Err(e) => return Err(e),
        }
        env.push_signature_check(SignatureCheck { merchant_public_key, signature, order: order.duplicate() });
        let mut merchant = match env.storage.get_merchant(&order.merchant_address) {
            Ok(m) => m,
            Err(e) => return Err(e),
        };
        let fee_collector = match env.storage.get_fee_collector() {
            Some(c) => c,
            None => return Err(PaymentError::AdminNotFound),
        };
        let fee_token = match env.storage.get_fee_token() {
            Some(t) => t,
            None => return Err(PaymentError::InvalidToken),
        };
        let amount = order.amount as i128;
        let fee_amount = env.storage.calculate_fee(amount);
        if fee_amount < 0 {
            return Err(PaymentError::InvalidAmount);
        }
        proof {
            assert(spec_fee_rate(env@.storage) <= 10);
            let rate = spec_fee_rate(env@.storage) as int;
            if amount >= 0 {
                assert(amount * rate / 100 <= amount) by (nonlinear_arith)
                    requires
                        amount >= 0,
                        0 <= rate <= 10,
                ;
            }
        }
        let merchant_amount = amount - fee_amount;
        let ghost e1 = env@;
        env.push_transfer(TokenTransfer {
            token: order.token.duplicate(),
            from: payer.duplicate(),
            to: order.merchant_address.duplicate(),
            amount: merchant_amount,
        });
        if fee_amount > 0 {
            env.push_transfer(TokenTransfer {
                token: fee_token,
                from: payer.duplicate(),
                to: fee_collector.duplicate(),
                amount: fee_amount,
            });
            env.push_event(PaymentEvent::FeeCollected(fee_collector, fee_amount, order.order_id.duplicate()));
        }
        proof {
            assert(env@.transfers =~= e1.transfers + order_transfers(old(env)@.storage, payer@, order@));
            assert(env@.events =~= e1.events + order_events(old(env)@.storage, order@));
        }
        let ghost s0 = env@.storage;
        env.storage.mark_nonce_used(&order.merchant_address, order.nonce);
        let ghost s1 = env@.storage;
        merchant.last_activity_timestamp = env.timestamp;
        env.storage.save_merchant(&order.merchant_address, &merchant);
        let record = PaymentRecord {
            order_id: order.order_id.duplicate(),
            merchant_address: order.merchant_address.duplicate(),
            payer_address: payer.duplicate(),
            token: order.token.duplicate(),
            amount,
            paid_at: env.timestamp,
            refunded_amount: 0,
        };
        env.storage.save_payment(&record);
        env.storage.index_payment(&record);
        proof {
            assert(record@ == order_record(payer@, order@, old(env)@.timestamp));
            assert(env@.storage.nonce_trackers == s1.nonce_trackers);
            lemma_nonce_marked_trackers(s0, s1, old(env)@.storage, env@.storage, order@.merchant_address, order@.nonce);
            assert(env@.storage == (StorageModel {
                nonce_trackers: env@.storage.nonce_trackers,
                ..order_stored(old(env)@.storage, payer@, order@, old(env)@.timestamp)
            }));
            assert(s0 == old(env)@.storage);
            assert(e1.transfers == old(env)@.transfers);
            assert(e1.events == old(env)@.events);
            assert(env@.auths == old(env)@.auths + seq![payer@]);
            assert(env@.timestamp == old(env)@.timestamp);
        }
        Ok(())
    }

    /// The cost estimate of processing one order.
    pub fn estimate_gas_for_payment(order: &PaymentOrder) -> (r: Result<GasEstimate, PaymentError>)
        ensures
            r == Ok::<GasEstimate, PaymentError>(GasEstimate { base_gas: 50_000, per_item_gas: 60_000, total_estimated: 110_000 }),
    {
        let base_gas: u64 = 50_000;
        let transfer_gas: u64 = 30_000;
        let storage_gas: u64 = 10_000;
        let signature_gas: u64 = 20_000;
        let total_estimated = base_gas + transfer_gas + storage_gas + signature_gas;
        Ok(GasEstimate { base_gas, per_item_gas: transfer_gas + storage_gas + signature_gas, total_estimated })
    }

    /// The cost estimate of a batch of `item_count` items of the operation
    /// named `operation_type` (`reg_mer`, `add_tok` or `proc_pay`; any other
    /// name costs as a generic operation).
    pub fn estimate_gas_for_batch_operation(operation_type: &Vec<u8>, item_count: u32) -> (r: Result<GasEstimate, PaymentError>)
        ensures
            r == Ok::<GasEstimate, PaymentError>(GasEstimate {
                base_gas: 20_000,
                per_item_gas: per_item_gas_of(operation_type@),
                total_estimated: (20_000 + per_item_gas_of(operation_type@) * item_count) as u64,
            }),
    {
        let base_gas: u64 = 20_000;
        let per_item_gas: u64 = if bytes_equal(operation_type, &text_of("reg_mer")) {
            15_000
        } else if bytes_equal(operation_type, &text_of("add_tok")) {
            8_000
        } else if bytes_equal(operation_type, &text_of("proc_pay")) {
            40_000
        } else {
            10_000
        };
        assert(per_item_gas * item_count <= 40_000 * u32::MAX) by (nonlinear_arith)
            requires
                per_item_gas <= 40_000,
        ;
        let total_estimated = base_gas + per_item_gas * (item_count as u64);
        Ok(GasEstimate { base_gas, per_item_gas, total_estimated })
    }
}

/// The cost per item of the batch operation named `op`.
pub open spec fn per_item_gas_of(op: Seq<u8>) -> u64 {
    if op == "reg_mer".spec_bytes() {
        15_000
    } else if op == "add_tok".spec_bytes() {
        8_000
    } else if op == "proc_pay".spec_bytes() {
        40_000
    } else {
        10_000
    }
}


// ===== Batches of payment orders =====

/// The most nonces of one merchant that a batch uses up.
pub const MAX_BATCH_NONCES: u32 = 1000;

/// The number of orders before position `i` that are for merchant `m`.
pub open spec fn orders_of_before(orders: Seq<PaymentOrderModel>, i: int, m: Seq<u8>) -> nat
    decreases i,
{
    if i <= 0 {
        0
    } else {
        orders_of_before(orders, i - 1, m) + if orders[i - 1].merchant_address == m { 1nat } else { 0nat }
    }
}

/// Why the order at position `i` of a batch is refused, if it is.
pub open spec fn batch_order_error(e: ContractEnvModel, orders: Seq<PaymentOrderModel>, i: int) -> Option<PaymentError> {
    let o = orders[i];
    if e.timestamp > o.expiration {
        Some(PaymentError::OrderExpired)
    } else {
        match stored_merchant(e, o.merchant_address) {
            None => Some(PaymentError::MerchantNotFound),
            Some(m) => if !m.active {
                Some(PaymentError::MerchantNotFound)
            } else if !m.supported_tokens.contains(o.token) {
                Some(PaymentError::InvalidToken)
            } else if spec_nonce_used(e.storage, o.merchant_address, o.nonce) {
                Some(PaymentError::NonceAlreadyUsed)
            } else if exists|j: int| 0 <= j < i && (#[trigger] orders[j]).merchant_address == o.merchant_address && orders[j].nonce == o.nonce {
                Some(PaymentError::NonceAlreadyUsed)
            } else {
                None
            },
        }
    }
}

/// The error of the first refused order among the first `n`.
pub open spec fn batch_first_error(e: ContractEnvModel, orders: Seq<PaymentOrderModel>, n: int) -> Option<PaymentError>
    decreases n,
{
    if n <= 0 {
        None
    } else {
        match batch_first_error(e, orders, n - 1) {
            Some(x) => Some(x),
            None => batch_order_error(e, orders, n - 1),
        }
    }
}

/// The outcome of `batch_process_payments`.
pub open spec fn spec_batch_payment_result(e: ContractEnvModel, b: BatchPaymentModel) -> Result<(), PaymentError> {
    if env_paused(e) {
        Err(PaymentError::ContractPaused)
    } else if b.signatures.len() != b.orders.len() {
        Err(PaymentError::InvalidSignature)
    } else {
        match batch_first_error(e, b.orders, b.orders.len() as int) {
            Some(x) => Err(x),
            None => Ok(()),
        }
    }
}

/// The transfers of a batch: each order's full amount from the payer to
/// its merchant, in order.
pub open spec fn batch_transfers(payer: Seq<u8>, orders: Seq<PaymentOrderModel>) -> Seq<TokenTransferModel> {
    orders.map_values(|o: PaymentOrderModel| TokenTransferModel {
        token: o.token,
        from: payer,
        to: o.merchant_address,
        amount: o.amount as i128,
    })
}

/// The signature checks of a batch: the merchant key's signature on each
/// order, in order.
pub open spec fn batch_signature_checks(b: BatchPaymentModel) -> Seq<SignatureCheckModel> {
    Seq::new(b.orders.len(), |i: int| order_signature_check(b.merchant_public_key, b.signatures[i], b.orders[i]))
}

/// The batch uses up `nonce` of merchant `m`: an order among the first `k`
/// carries it, and fewer than 1000 orders for `m` come before that order.
pub open spec fn batch_marks(orders: Seq<PaymentOrderModel>, k: int, m: Seq<u8>, nonce: u32) -> bool {
    exists|i: int|
        0 <= i < k && (#[trigger] orders[i]).merchant_address == m && orders[i].nonce == nonce
            && orders_of_before(orders, i, m) < MAX_BATCH_NONCES
}

/// The highest nonce that merchant `m`'s tracker records, if it has one.
pub open spec fn tracker_highest(s: StorageModel, m: Seq<u8>) -> Option<u32> {
    if s.nonce_trackers.contains_key(m) {
        Some(s.nonce_trackers[m].highest_nonce)
    } else {
        None
    }
}

/// The highest nonce recorded for merchant `m` after the first `k` orders of
/// a batch have used up theirs, starting from `start`: each order of `m`
/// that uses up its nonce raises it to that nonce when higher, and creates
/// the tracker when there was none.
pub open spec fn batch_highest(start: Option<u32>, orders: Seq<PaymentOrderModel>, k: int, m: Seq<u8>) -> Option<u32>
    decreases k,
{
    if k <= 0 {
        start
    } else {
        let prev = batch_highest(start, orders, k - 1, m);
        let o = orders[k - 1];
        if o.merchant_address == m && orders_of_before(orders, k - 1, m) < MAX_BATCH_NONCES {
            Some(match prev {
                Some(h) => if o.nonce > h { o.nonce } else { h },
                None => o.nonce,
            })
        } else {
            prev
        }
    }
}

proof fn lemma_first_error_stays(e: ContractEnvModel, orders: Seq<PaymentOrderModel>, k: int, n: int)
    requires
        0 <= k <= n,
        batch_first_error(e, orders, k) is Some,
    ensures
        batch_first_error(e, orders, n) == batch_first_error(e, orders, k),
    decreases n - k,
{
    if k < n {
        lemma_first_error_stays(e, orders, k, n - 1);
    }
}

impl PaymentProcessingContract {
    /// Why the order at position `i` of a batch is refused, if it is.
    fn check_batch_order(env: &ContractEnv, orders: &Vec<PaymentOrder>, i: usize) -> (r: Option<PaymentError>)
        requires
            env.wf(),
            i < orders.len(),
        ensures
            r == batch_order_error(env@, orders.deep_view(), i as int),
    {
        let ghost os = orders.deep_view();
        let o = &orders[i];
        proof {
            assert(os[i as int] == o@);
        }
        if env.timestamp > o.expiration as u64 {
            return Some(PaymentError::OrderExpired);
        }
        let merchant = match env.storage.get_merchant(&o.merchant_address) {
            Ok(m) => m,
            Err(_) => return Some(PaymentError::MerchantNotFound),
        };
        if !merchant.active {
            return Some(PaymentError::MerchantNotFound);
        }
        if !merchant.supports_token(&o.token) {
            return Some(PaymentError::InvalidToken);
        }
        if env.storage.is_nonce_used(&o.merchant_address, o.nonce) {
            return Some(PaymentError::NonceAlreadyUsed);
        }
        let mut j: usize = 0;
        let mut dup = false;
        while j < i && !dup
            invariant
                j <= i < orders.len(),
                os == orders.deep_view(),
                os[i as int] == o@,
                dup ==> exists|k: int| 0 <= k < i && (#[trigger] os[k]).merchant_address == o@.merchant_address && os[k].nonce == o@.nonce,
                !dup ==> forall|k: int| 0 <= k < j ==> !((#[trigger] os[k]).merchant_address == o@.merchant_address && os[k].nonce == o@.nonce),
            decreases i - j,
        {
            proof {
                assert(os[j as int] == orders@[j as int]@);
            }
            if orders[j].merchant_address.same_as(&o.merchant_address) && orders[j].nonce == o.nonce {
                dup = true;
            }
            j += 1;
        }
        if dup {
            return Some(PaymentError::NonceAlreadyUsed);
        }
        None
    }

    /// The number of orders before position `i` that are for the merchant of
    /// the order at `i`.
    fn count_orders_before(orders: &Vec<PaymentOrder>, i: usize) -> (n: u32)
        requires
            i < orders.len(),
            orders.len() <= u32::MAX,
        ensures
            n == orders_of_before(orders.deep_view(), i as int, orders.deep_view()[i as int].merchant_address),
    {
        let ghost os = orders.deep_view();
        let ghost m = os[i as int].merchant_address;
        proof {
            assert(os[i as int] == orders@[i as int]@);
        }
        let mut n: u32 = 0;
        let mut j: usize = 0;
        while j < i
            invariant
                j <= i < orders.len() <= u32::MAX,
                os == orders.deep_view(),
                m == orders@[i as int]@.merchant_address,
                n == orders_of_before(os, j as int, m),
                n <= j,
            decreases i - j,
        {
            proof {
                assert(os[j as int] == orders@[j as int]@);
            }
            if orders[j].merchant_address.same_as(&orders[i].merchant_address) {
                n += 1;
            }
            j += 1;
        }
        n
    }

    /// Processes a batch of orders that one payer pays without fees: every
    /// order is checked first, then each is paid in full to its merchant, and
    /// the nonces are used up (at most 1000 per merchant).
    pub fn batch_process_payments(env: &mut ContractEnv, batch: BatchPayment) -> (r: Result<(), PaymentError>)
        requires
            old(env).wf(),
            batch.orders.len() <= u32::MAX,
        ensures
            final(env).wf(),
            r == spec_batch_payment_result(old(env)@, batch@),
            r is Ok ==> {
                &&& forall|m: Seq<u8>, n: u32|
                    #![trigger spec_nonce_used(final(env)@.storage, m, n)]
                    spec_nonce_used(final(env)@.storage, m, n) == (batch_marks(batch@.orders, batch@.orders.len() as int, m, n)
                        || spec_nonce_used(old(env)@.storage, m, n))
                &&& forall|m: Seq<u8>|
                    #[trigger] tracker_highest(final(env)@.storage, m) == batch_highest(
                        tracker_highest(old(env)@.storage, m),
                        batch@.orders,
                        batch@.orders.len() as int,
                        m,
                    )
                &&& final(env)@ == (ContractEnvModel {
                    signature_checks: old(env)@.signature_checks + batch_signature_checks(batch@),
                    ..with_effects(
                        old(env)@,
                        seq![batch@.payer],
                        StorageModel { nonce_trackers: final(env)@.storage.nonce_trackers, ..old(env)@.storage },
                        batch_transfers(batch@.payer, batch@.orders),
                        Seq::empty(),
                    )
                })
            },
            r is Err ==> final(env)@ == only_auths(
                old(env)@,
                if env_paused(old(env)@) { Seq::empty() } else { seq![batch@.payer] },
            ),
    {
        if Self::is_paused(env) {
            proof {
                assert(old(env)@.auths + Seq::<Seq<u8>>::empty() =~= old(env)@.auths);
            }
            return Err(PaymentError::ContractPaused);
        }
        env.require_auth(&batch.payer);
        if batch.signatures.len() != batch.orders.len() {
            return Err(PaymentError::InvalidSignature);
        }
        let ghost os = batch.orders.deep_view();
        let ghost e1 = env@;
        let mut i: usize = 0;
        while i < batch.orders.len()
            invariant
                i <= batch.orders.len(),
                env.wf(),
                env@ == e1,
                os == batch.orders.deep_view(),
                e1 == only_auths(old(env)@, seq![batch@.payer]),
                batch.signatures.len() == batch.orders.len(),
                !env_paused(old(env)@),
                batch_first_error(old(env)@, os, i as int) is None,
            decreases batch.orders.len() - i,
        {
            let checked = Self::check_batch_order(env, &batch.orders, i);
            proof {
                assert(batch_order_error(env@, os, i as int) == batch_order_error(old(env)@, os, i as int));
            }
            match checked {
                Some(e) => {
                    proof {
                        lemma_first_error_stays(old(env)@, os, i + 1, os.len() as int);
                    }
                    return Err(e);
                },
                None => {},
            }
            i += 1;
        }
        let mut i: usize = 0;
        proof {
            assert(os.take(0) =~= Seq::<PaymentOrderModel>::empty());
            assert(env@.transfers =~= e1.transfers + batch_transfers(batch@.payer, os.take(0)));
            assert(env@.signature_checks =~= e1.signature_checks + batch_signature_checks(batch@).take(0));
        }
        while i < batch.orders.len()
            invariant
                i <= batch.orders.len(),
                batch.signatures.len() == batch.orders.len(),
                env.wf(),
                env@ == (ContractEnvModel { transfers: env@.transfers, signature_checks: env@.signature_checks, ..e1 }),
                os == batch.orders.deep_view(),
                env@.transfers == e1.transfers + batch_transfers(batch@.payer, os.take(i as int)),
                env@.signature_checks == e1.signature_checks + batch_signature_checks(batch@).take(i as int),
            decreases batch.orders.len() - i,
        {
            let o = &batch.orders[i];
            let ghost pre_checks = env@.signature_checks;
            env.push_signature_check(SignatureCheck {
                merchant_public_key: batch.merchant_public_key.duplicate(),
                signature: batch.signatures[i].duplicate(),
                order: o.duplicate(),
            });
            proof {
                assert(os[i as int] == o@);
                assert(batch@.signatures[i as int] == batch.signatures@[i as int]@);
                assert(batch_signature_checks(batch@).take(i + 1) =~= batch_signature_checks(batch@).take(i as int).push(
                    batch_signature_checks(batch@)[i as int]));
                assert(env@.signature_checks =~= e1.signature_checks + batch_signature_checks(batch@).take(i + 1));
            }
            let ghost pre = env@.transfers;
            env.push_transfer(TokenTransfer {
                token: o.token.duplicate(),
                from: batch.payer.duplicate(),
                to: o.merchant_address.duplicate(),
                amount: o.amount as i128,
            });
            proof {
                assert(os[i as int] == o@);
                assert(batch_transfers(batch@.payer, os.take(i + 1)) =~= batch_transfers(batch@.payer, os.take(i as int)).push(
                    TokenTransferModel { token: o@.token, from: batch@.payer, to: o@.merchant_address, amount: o@.amount as i128 }));
                assert(env@.transfers =~= e1.transfers + batch_transfers(batch@.payer, os.take(i + 1)));
            }
            i += 1;
        }
        proof {
            assert(os.take(os.len() as int) =~= os);
            assert(batch_signature_checks(batch@).take(os.len() as int) =~= batch_signature_checks(batch@));
        }
        let ghost e2 = env@;
        let mut i: usize = 0;
        while i < batch.orders.len()
            invariant
                i <= batch.orders.len() <= u32::MAX,
                env.wf(),
                os == batch.orders.deep_view(),
                env@ == (ContractEnvModel {
                    storage: StorageModel { nonce_trackers: env@.storage.nonce_trackers, ..e2.storage },
                    ..e2
                }),
                e2.storage == old(env)@.storage,
                forall|m: Seq<u8>, n: u32|
                    #![trigger spec_nonce_used(env@.storage, m, n)]
                    spec_nonce_used(env@.storage, m, n) == (batch_marks(os, i as int, m, n)
                        || spec_nonce_used(old(env)@.storage, m, n)),
                forall|m: Seq<u8>|
                    #[trigger] tracker_highest(env@.storage, m) == batch_highest(
                        tracker_highest(old(env)@.storage, m),
                        os,
                        i as int,
                        m,
                    ),
            decreases batch.orders.len() - i,
        {
            let o = &batch.orders[i];
            let before = Self::count_orders_before(&batch.orders, i);
            let ghost s0 = env@.storage;
            proof {
                assert(os[i as int] == o@);
            }
            if before < MAX_BATCH_NONCES {
                env.storage.mark_nonce_used(&o.merchant_address, o.nonce);
            }
            proof {
                assert forall|m: Seq<u8>, n: u32|
                    #![trigger spec_nonce_used(env@.storage, m, n)]
                    spec_nonce_used(env@.storage, m, n) == (batch_marks(os, i + 1, m, n)
                        || spec_nonce_used(old(env)@.storage, m, n)) by {
                    if batch_marks(os, i + 1, m, n) && !batch_marks(os, i as int, m, n) {
                        let k = choose|k: int|
                            0 <= k < i + 1 && (#[trigger] os[k]).merchant_address == m && os[k].nonce == n
                                && orders_of_before(os, k, m) < MAX_BATCH_NONCES;
                        assert(k == i);
                    }
                    if batch_marks(os, i as int, m, n) {
                        let k = choose|k: int|
                            0 <= k < i && (#[trigger] os[k]).merchant_address == m && os[k].nonce == n
                                && orders_of_before(os, k, m) < MAX_BATCH_NONCES;
                        assert(0 <= k < i + 1 && os[k].merchant_address == m && os[k].nonce == n);
                    }
                    if before < MAX_BATCH_NONCES && m == o@.merchant_address && n == o@.nonce {
                        assert(os[i as int].merchant_address == m && os[i as int].nonce == n);
                    }
                    assert(spec_nonce_used(s0, m, n) == (batch_marks(os, i as int, m, n) || spec_nonce_used(old(env)@.storage, m, n)));
                }
                assert forall|m: Seq<u8>|
                    #[trigger] tracker_highest(env@.storage, m) == batch_highest(
                        tracker_highest(old(env)@.storage, m),
                        os,
                        i + 1,
                        m,
                    ) by {
                    assert(tracker_highest(s0, m) == batch_highest(tracker_highest(old(env)@.storage, m), os, i as int, m));
                }
            }
            i += 1;
        }
        proof {
            assert(env@.events =~= old(env)@.events + Seq::<PaymentEventModel>::empty());
        }
        Ok(())
    }
}


// ===== Multi-signature payments =====

/// Some address occurs twice in `s`.
pub open spec fn has_duplicates(s: Seq<Seq<u8>>) -> bool {
    exists|i: int, j: int| 0 <= i < j < s.len() && #[trigger] s[i] == #[trigger] s[j]
}

/// The outcome of `initiate_multisig_payment`, apart from the payment id.
pub open spec fn spec_initiate_result(
    now: u64,
    amount: i128,
    signers: Seq<Seq<u8>>,
    threshold: u32,
    expiry: u64,
) -> Result<(), PaymentError> {
    if amount <= 0 {
        Err(PaymentError::InvalidAmount)
    } else if signers.len() == 0 {
        Err(PaymentError::EmptySignersList)
    } else if threshold == 0 || threshold > signers.len() {
        Err(PaymentError::InvalidThreshold)
    } else if expiry <= now {
        Err(PaymentError::PaymentExpired)
    } else if has_duplicates(signers) {
        Err(PaymentError::DuplicateSigner)
    } else {
        Ok(())
    }
}

/// The error for a stored payment that is no longer pending.
pub open spec fn status_error(p: MultiSigPaymentModel) -> Option<PaymentError> {
    match p.status {
        PaymentStatus::Pending => None,
        PaymentStatus::Executed => Some(PaymentError::AlreadyExecuted),
        PaymentStatus::Cancelled => Some(PaymentError::AlreadyCancelled),
    }
}

/// The outcome of `add_signature`.
pub open spec fn spec_add_signature_result(e: ContractEnvModel, id: u128, signer: Seq<u8>) -> Result<(), PaymentError> {
    if !e.storage.multisig_payments.contains_key(id) {
        Err(PaymentError::PaymentNotFound)
    } else {
        let p = e.storage.multisig_payments[id];
        if p.status != PaymentStatus::Pending {
            Err(PaymentError::InvalidStatus)
        } else if e.timestamp > p.expiry {
            Err(PaymentError::PaymentExpired)
        } else if !p.signers.contains(signer) {
            Err(PaymentError::NotASigner)
        } else if seq_to_map(p.signatures).contains_key(signer) {
            Err(PaymentError::AlreadySigned)
        } else {
            Ok(())
        }
    }
}

/// The environment after `signer`'s signature on payment `id` is accepted,
/// leaving the payment's signatures `sigs`.
pub open spec fn with_signature(e: ContractEnvModel, id: u128, signer: Seq<u8>, sigs: Seq<(Seq<u8>, bool)>) -> ContractEnvModel {
    with_effects(
        e,
        seq![signer],
        StorageModel {
            multisig_payments: e.storage.multisig_payments.insert(
                id,
                MultiSigPaymentModel { signatures: sigs, ..e.storage.multisig_payments[id] },
            ),
            ..e.storage
        },
        Seq::empty(),
        Seq::empty(),
    )
}

/// The outcome of executing payment `id` by `executor`.
pub open spec fn spec_execute_result(e: ContractEnvModel, id: u128, executor: Seq<u8>) -> Result<(), PaymentError> {
    if !e.storage.multisig_payments.contains_key(id) {
        Err(PaymentError::PaymentNotFound)
    } else {
        let p = e.storage.multisig_payments[id];
        if status_error(p) is Some {
            Err(status_error(p)->0)
        } else if e.timestamp > p.expiry {
            Err(PaymentError::PaymentExpired)
        } else if !p.signers.contains(executor) {
            Err(PaymentError::NotASigner)
        } else if p.signatures.len() < p.threshold {
            Err(PaymentError::ThresholdNotMet)
        } else {
            Ok(())
        }
    }
}

/// The archived record of a payment that `by` executed or cancelled.
pub open spec fn closed_record(
    p: MultiSigPaymentModel,
    status: PaymentStatus,
    now: u64,
    by: Seq<u8>,
    reason: Option<Seq<u8>>,
) -> MultiSigPaymentRecordModel {
    MultiSigPaymentRecordModel {
        payment_id: p.payment_id,
        amount: p.amount,
        token: p.token,
        recipient: p.recipient,
        signers: p.signers,
        threshold: p.threshold,
        status,
        executed_at: now,
        executor: Some(by),
        reason,
    }
}

/// The state after payment `id` is closed with `record`: archived and no
/// longer pending.
pub open spec fn payment_closed(s: StorageModel, id: u128, record: MultiSigPaymentRecordModel) -> StorageModel {
    StorageModel {
        payment_history: s.payment_history.insert(record.payment_id, record),
        multisig_payments: s.multisig_payments.remove(id),
        ..s
    }
}

/// Executing payment `id`: the outcome and the environment after it.
pub open spec fn spec_execute(e: ContractEnvModel, id: u128, executor: Seq<u8>) -> (Result<(), PaymentError>, ContractEnvModel) {
    let r = spec_execute_result(e, id, executor);
    if r is Ok {
        let p = e.storage.multisig_payments[id];
        (r, ContractEnvModel {
            storage: payment_closed(
                e.storage,
                id,
                closed_record(p, PaymentStatus::Executed, e.timestamp, executor, None),
            ),
            transfers: e.transfers.push(TokenTransferModel {
                token: p.token,
                from: executor,
                to: p.recipient,
                amount: p.amount,
            }),
            ..e
        })
    } else {
        (r, e)
    }
}

/// Executing the payments `ids` in order, skipping those that fail: the ids
/// executed and the environment after them.
pub open spec fn spec_batch_execute(e: ContractEnvModel, ids: Seq<u128>, executor: Seq<u8>) -> (Seq<u128>, ContractEnvModel)
    decreases ids.len(),
{
    if ids.len() == 0 {
        (Seq::empty(), e)
    } else {
        let (done, e1) = spec_batch_execute(e, ids.drop_last(), executor);
        let (r, e2) = spec_execute(e1, ids.last(), executor);
        (if r is Ok { done.push(ids.last()) } else { done }, e2)
    }
}

/// The outcome of `cancel_multisig_payment`.
pub open spec fn spec_cancel_result(e: ContractEnvModel, id: u128, canceller: Seq<u8>) -> Result<(), PaymentError> {
    if !e.storage.multisig_payments.contains_key(id) {
        Err(PaymentError::PaymentNotFound)
    } else {
        let p = e.storage.multisig_payments[id];
        if status_error(p) is Some {
            Err(status_error(p)->0)
        } else if !p.signers.contains(canceller) {
            Err(PaymentError::NotASigner)
        } else {
            Ok(())
        }
    }
}

/// Tells whether some address occurs twice in `signers`.
fn has_duplicate_signer(signers: &Vec<Address>) -> (b: bool)
    ensures
        b == has_duplicates(signers.deep_view()),
{
    let ghost s = signers.deep_view();
    let mut i: usize = 0;
    while i < signers.len()
        invariant
            i <= signers.len(),
            s == signers.deep_view(),
            forall|a: int, b: int| 0 <= a < i && a < b < s.len() ==> #[trigger] s[a] != #[trigger] s[b],
        decreases signers.len() - i,
    {
        let mut j: usize = i + 1;
        while j < signers.len()
            invariant
                i < j <= signers.len(),
                s == signers.deep_view(),
                forall|b: int| i < b < j ==> s[i as int] != #[trigger] s[b],
            decreases signers.len() - j,
        {
            proof {
                assert(s[i as int] == signers@[i as int]@ && s[j as int] == signers@[j as int]@);
            }
            if signers[i].same_as(&signers[j]) {
                proof {
                    assert(0 <= i < j < s.len() && s[i as int] == s[j as int]);
                }
                return true;
            }
            j += 1;
        }
        i += 1;
    }
    false
}

impl PaymentProcessingContract {
    /// Creates a pending payment of `amount` of `token` to `recipient` that
    /// `threshold` of `signers` must sign before `expiry`; returns its id.
    pub fn initiate_multisig_payment(
        env: &mut ContractEnv,
        amount: i128,
        token: Address,
        recipient: Address,
        signers: Vec<Address>,
        threshold: u32,
        expiry: u64,
    ) -> (r: Result<u128, PaymentError>)
        requires
            old(env).wf(),
            old(env)@.storage.payment_counter < u128::MAX,
        ensures
            final(env).wf(),
            match r {
                Ok(id) => spec_initiate_result(old(env)@.timestamp, amount, signers.deep_view(), threshold, expiry) is Ok
                    && id == old(env)@.storage.payment_counter + 1,
                Err(e) => spec_initiate_result(old(env)@.timestamp, amount, signers.deep_view(), threshold, expiry) == Err::<(), PaymentError>(e),
            },
            r is Ok ==> final(env)@ == (ContractEnvModel {
                storage: StorageModel {
                    payment_counter: r->Ok_0,
                    multisig_payments: old(env)@.storage.multisig_payments.insert(r->Ok_0, MultiSigPaymentModel {
                        payment_id: r->Ok_0,
                        amount,
                        token: token@,
                        recipient: recipient@,
                        signers: signers.deep_view(),
                        threshold,
                        signatures: Seq::empty(),
                        status: PaymentStatus::Pending,
                        expiry,
                        created_at: old(env)@.timestamp,
                        reason: None,
                    }),
                    ..old(env)@.storage
                },
                ..old(env)@
            }),
            r is Err ==> final(env)@ == old(env)@,
    {
        if amount <= 0 {
            return Err(PaymentError::InvalidAmount);
        }
        if signers.len() == 0 {
            return Err(PaymentError::EmptySignersList);
        }
        proof {
            assert(signers.deep_view().len() == signers@.len());
        }
        if threshold == 0 || threshold as usize > signers.len() {
            return Err(PaymentError::InvalidThreshold);
        }
        if expiry <= env.timestamp {
            return Err(PaymentError::PaymentExpired);
        }
        if has_duplicate_signer(&signers) {
            return Err(PaymentError::DuplicateSigner);
        }
        let payment_id = env.storage.get_next_payment_id();
        let payment = MultiSigPayment {
            payment_id,
            amount,
            token,
            recipient,
            signers,
            threshold,
            signatures: Table::new(),
            status: PaymentStatus::Pending,
            expiry,
            created_at: env.timestamp,
            reason: None,
        };
        env.storage.save_multisig_payment(&payment);
        Ok(payment_id)
    }

    /// Records `signer`'s signature on a pending payment.
    pub fn add_signature(env: &mut ContractEnv, payment_id: u128, signer: Address) -> (r: Result<(), PaymentError>)
        requires
            old(env).wf(),
        ensures
            final(env).wf(),
            r == spec_add_signature_result(old(env)@, payment_id, signer@),
            r is Ok ==> {
                let p = old(env)@.storage.multisig_payments[payment_id];
                let sigs = final(env)@.storage.multisig_payments[payment_id].signatures;
                &&& seq_to_map(sigs) == seq_to_map(p.signatures).insert(signer@, true)
                &&& final(env)@ == with_signature(old(env)@, payment_id, signer@, sigs)
            },
            r is Err ==> final(env)@ == only_auths(old(env)@, seq![signer@]),
    {
        env.require_auth(&signer);
        let mut payment = match env.storage.get_multisig_payment(payment_id) {
            Ok(p) => p,
            Err(e) => return Err(e),
        };
        if payment.status != PaymentStatus::Pending {
            return Err(PaymentError::InvalidStatus);
        }
        if env.timestamp > payment.expiry {
            return Err(PaymentError::PaymentExpired);
        }
        if !list_contains(&payment.signers, &signer) {
            return Err(PaymentError::NotASigner);
        }
        if payment.signatures.contains_key(&signer) {
            return Err(PaymentError::AlreadySigned);
        }
        let ghost p0 = payment@;
        payment.signatures.set(signer, true);
        proof {
            assert(payment@ == MultiSigPaymentModel { signatures: payment@.signatures, ..p0 });
        }
        env.storage.save_multisig_payment(&payment);
        proof {
            assert(env@.transfers =~= old(env)@.transfers + Seq::<TokenTransferModel>::empty());
            assert(env@.events =~= old(env)@.events + Seq::<PaymentEventModel>::empty());
        }
        Ok(())
    }

    /// Archives an executed payment and drops it from the pending ones.
    fn complete_payment(env: &mut ContractEnv, payment: &MultiSigPayment, executor: &Address)
        requires
            old(env).wf(),
            payment.payment_id <= old(env)@.storage.payment_counter,
        ensures
            final(env).wf(),
            final(env)@ == (ContractEnvModel {
                storage: payment_closed(
                    old(env)@.storage,
                    payment.payment_id,
                    closed_record(payment@, PaymentStatus::Executed, old(env)@.timestamp, executor@, None),
                ),
                ..old(env)@
            }),
    {
        let record = MultiSigPaymentRecord {
            payment_id: payment.payment_id,
            amount: payment.amount,
            token: payment.token.duplicate(),
            recipient: payment.recipient.duplicate(),
            signers: payment.signers.duplicate(),
            threshold: payment.threshold,
            status: PaymentStatus::Executed,
            executed_at: env.timestamp,
            executor: Some(executor.duplicate()),
            reason: None,
        };
        env.storage.archive_payment(&record);
        env.storage.remove_multisig_payment(payment.payment_id);
    }

    /// Executes a pending payment that has enough signatures: `executor`, one
    /// of its signers, pays the amount to the recipient.
    fn execute_single_payment(env: &mut ContractEnv, payment_id: u128, executor: &Address) -> (r: Result<(), PaymentError>)
        requires
            old(env).wf(),
        ensures
            final(env).wf(),
            (r, final(env)@) == spec_execute(old(env)@, payment_id, executor@),
    {
        let mut payment = match env.storage.get_multisig_payment(payment_id) {
            Ok(p) => p,
            Err(e) => return Err(e),
        };
        match payment.status {
            PaymentStatus::Pending => {},
            PaymentStatus::Executed => return Err(PaymentError::AlreadyExecuted),
            PaymentStatus::Cancelled => return Err(PaymentError::AlreadyCancelled),
        }
        if env.timestamp > payment.expiry {
            return Err(PaymentError::PaymentExpired);
        }
        if !list_contains(&payment.signers, executor) {
            return Err(PaymentError::NotASigner);
        }
        if (payment.signatures.len() as u64) < (payment.threshold as u64) {
            return Err(PaymentError::ThresholdNotMet);
        }
        let ghost p0 = payment@;
        env.push_transfer(TokenTransfer {
            token: payment.token.duplicate(),
            from: executor.duplicate(),
            to: payment.recipient.duplicate(),
            amount: payment.amount,
        });
        payment.status = PaymentStatus::Executed;
        Self::complete_payment(env, &payment, executor);
        Ok(())
    }

    /// Executes a pending payment that has enough signatures; `executor`
    /// must be one of its signers and authorize the call.
    pub fn execute_multisig_payment(env: &mut ContractEnv, payment_id: u128, executor: Address) -> (r: Result<(), PaymentError>)
        requires
            old(env).wf(),
        ensures
            final(env).wf(),
            (r, final(env)@) == spec_execute(only_auths(old(env)@, seq![executor@]), payment_id, executor@),
    {
        env.require_auth(&executor);
        Self::execute_single_payment(env, payment_id, &executor)
    }

    /// Cancels a pending payment; `canceller` must be one of its signers.
    /// The payment is archived as cancelled with the reason.
    pub fn cancel_multisig_payment(env: &mut ContractEnv, payment_id: u128, canceller: Address, reason: Vec<u8>) -> (r: Result<(), PaymentError>)
        requires
            old(env).wf(),
        ensures
            final(env).wf(),
            r == spec_cancel_result(old(env)@, payment_id, canceller@),
            r is Ok ==> final(env)@ == with_effects(
                old(env)@,
                seq![canceller@],
                payment_closed(
                    old(env)@.storage,
                    payment_id,
                    closed_record(
                        old(env)@.storage.multisig_payments[payment_id],
                        PaymentStatus::Cancelled,
                        old(env)@.timestamp,
                        canceller@,
                        Some(reason@),
                    ),
                ),
                Seq::empty(),
                Seq::empty(),
            ),
            r is Err ==> final(env)@ == only_auths(old(env)@, seq![canceller@]),
    {
        env.require_auth(&canceller);
        let payment = match env.storage.get_multisig_payment(payment_id) {
            Ok(p) => p,
            Err(e) => return Err(e),
        };
        match payment.status {
            PaymentStatus::Pending => {},
            PaymentStatus::Executed => return Err(PaymentError::AlreadyExecuted),
            PaymentStatus::Cancelled => return Err(PaymentError::AlreadyCancelled),
        }
        if !list_contains(&payment.signers, &canceller) {
            return Err(PaymentError::NotASigner);
        }
        let record = MultiSigPaymentRecord {
            payment_id: payment.payment_id,
            amount: payment.amount,
            token: payment.token.duplicate(),
            recipient: payment.recipient.duplicate(),
            signers: payment.signers.duplicate(),
            threshold: payment.threshold,
            status: PaymentStatus::Cancelled,
            executed_at: env.timestamp,
            executor: Some(canceller),
            reason: Some(reason),
        };
        env.storage.archive_payment(&record);
        env.storage.remove_multisig_payment(payment_id);
        proof {
            assert(env@.transfers =~= old(env)@.transfers + Seq::<TokenTransferModel>::empty());
            assert(env@.events =~= old(env)@.events + Seq::<PaymentEventModel>::empty());
        }
        Ok(())
    }

    /// The pending payment `payment_id`.
    pub fn get_multisig_payment(env: &ContractEnv, payment_id: u128) -> (r: Result<MultiSigPayment, PaymentError>)
        requires
            env.wf(),
        ensures
            result_model(r) == if env@.storage.multisig_payments.contains_key(payment_id) {
                Ok(env@.storage.multisig_payments[payment_id])
            } else {
                Err(PaymentError::PaymentNotFound)
            },
    {
        env.storage.get_multisig_payment(payment_id)
    }

    /// Executes each of the payments in order, skipping those that fail;
    /// returns the ids of those executed.
    pub fn batch_execute_payments(env: &mut ContractEnv, payment_ids: Vec<u128>, executor: Address) -> (r: Result<Vec<u128>, PaymentError>)
        requires
            old(env).wf(),
        ensures
            final(env).wf(),
            r is Ok,
            (r->Ok_0@, final(env)@) == spec_batch_execute(only_auths(old(env)@, seq![executor@]), payment_ids@, executor@),
    {
        env.require_auth(&executor);
        let ghost e0 = env@;
        let mut executed: Vec<u128> = Vec::new();
        let mut i: usize = 0;
        proof {
            assert(payment_ids@.take(0) =~= Seq::<u128>::empty());
            assert(executed@ =~= Seq::<u128>::empty());
        }
        while i < payment_ids.len()
            invariant
                i <= payment_ids.len(),
                env.wf(),
                (executed@, env@) == spec_batch_execute(e0, payment_ids@.take(i as int), executor@),
            decreases payment_ids.len() - i,
        {
            proof {
                assert(payment_ids@.take(i + 1).drop_last() =~= payment_ids@.take(i as int));
            }
            let id = payment_ids[i];
            match Self::execute_single_payment(env, id, &executor) {
                Ok(()) => executed.push(id),
                Err(_) => {},
            }
            i += 1;
        }
        proof {
            assert(payment_ids@.take(payment_ids.len() as int) =~= payment_ids@);
        }
        Ok(executed)
    }
}


// ===== Pause control =====

/// The outcome of the pause admin's checks: a pause admin is stored and it
/// is `admin`.
pub open spec fn spec_pause_admin_check(e: ContractEnvModel, admin: Seq<u8>) -> Result<(), PaymentError> {
    match e.storage.pause_admin {
        None => Err(PaymentError::AdminNotFound),
        Some(a) => if a != admin { Err(PaymentError::NotAuthorized) } else { Ok(()) },
    }
}

/// The outcome of `pause` and `pause_for_duration`.
pub open spec fn spec_pause_result(e: ContractEnvModel, admin: Seq<u8>) -> Result<(), PaymentError> {
    match spec_pause_admin_check(e, admin) {
        Err(x) => Err(x),
        Ok(()) => if env_paused(e) { Err(PaymentError::AlreadyPaused) } else { Ok(()) },
    }
}

impl PaymentProcessingContract {
    /// Lets the admin name the pause admin. Succeeds even when `admin` is not
    /// the admin, and then changes nothing.
    pub fn set_pause_admin(env: &mut ContractEnv, admin: Address, new_admin: Address) -> (r: Result<(), PaymentError>)
        requires
            old(env).wf(),
        ensures
            final(env).wf(),
            r is Ok,
            final(env)@ == with_effects(
                old(env)@,
                seq![admin@],
                if old(env)@.storage.admin == Some(admin@) {
                    StorageModel { pause_admin: Some(new_admin@), ..old(env)@.storage }
                } else {
                    old(env)@.storage
                },
                Seq::empty(),
                Seq::empty(),
            ),
    {
        env.require_auth(&admin);
        let _ = env.storage.set_pause_admin_internal(&admin, new_admin);
        proof {
            assert(env@.transfers =~= old(env)@.transfers + Seq::<TokenTransferModel>::empty());
            assert(env@.events =~= old(env)@.events + Seq::<PaymentEventModel>::empty());
        }
        Ok(())
    }

    /// Lets the pause admin pause the contract until it is unpaused;
    /// publishes `contract_paused`.
    pub fn pause(env: &mut ContractEnv, admin: Address) -> (r: Result<(), PaymentError>)
        requires
            old(env).wf(),
        ensures
            final(env).wf(),
            r == spec_pause_result(old(env)@, admin@),
            r is Ok ==> final(env)@ == with_effects(
                old(env)@,
                seq![admin@],
                StorageModel { paused: true, ..old(env)@.storage },
                Seq::empty(),
                seq![PaymentEventModel::ContractPaused(admin@, old(env)@.timestamp)],
            ),
            r is Err ==> final(env)@ == only_auths(old(env)@, seq![admin@]),
    {
        env.require_auth(&admin);
        let pause_admin = match env.storage.get_pause_admin() {
            Ok(a) => a,
            Err(e) => return Err(e),
        };
        if !pause_admin.same_as(&admin) {
            return Err(PaymentError::NotAuthorized);
        }
        if Self::is_paused(env) {
            return Err(PaymentError::AlreadyPaused);
        }
        env.storage.set_pause();
        let now = env.timestamp;
        env.push_event(PaymentEvent::ContractPaused(admin, now));
        proof {
            assert(env@.transfers =~= old(env)@.transfers + Seq::<TokenTransferModel>::empty());
            assert(env@.events =~= old(env)@.events + seq![PaymentEventModel::ContractPaused(admin@, now)]);
        }
        Ok(())
    }

    /// Lets the pause admin pause the contract for `duration` seconds from
    /// now; publishes `contract_paused`.
    pub fn pause_for_duration(env: &mut ContractEnv, admin: Address, duration: u64) -> (r: Result<(), PaymentError>)
        requires
            old(env).wf(),
            spec_pause_result(old(env)@, admin@) is Ok ==> old(env)@.timestamp + duration <= u64::MAX,
        ensures
            final(env).wf(),
            r == spec_pause_result(old(env)@, admin@),
            r is Ok ==> final(env)@ == with_effects(
                old(env)@,
                seq![admin@],
                StorageModel { paused_until: (old(env)@.timestamp + duration) as u64, ..old(env)@.storage },
                Seq::empty(),
                seq![PaymentEventModel::ContractPaused(admin@, old(env)@.timestamp)],
            ),
            r is Err ==> final(env)@ == only_auths(old(env)@, seq![admin@]),
    {
        env.require_auth(&admin);
        let pause_admin = match env.storage.get_pause_admin() {
            Ok(a) => a,
            Err(e) => return Err(e),
        };
        if !pause_admin.same_as(&admin) {
            return Err(PaymentError::NotAuthorized);
        }
        if Self::is_paused(env) {
            return Err(PaymentError::AlreadyPaused);
        }
        let now = env.timestamp;
        env.storage.set_pause_until(now + duration);
        env.push_event(PaymentEvent::ContractPaused(admin, now));
        proof {
            assert(env@.transfers =~= old(env)@.transfers + Seq::<TokenTransferModel>::empty());
            assert(env@.events =~= old(env)@.events + seq![PaymentEventModel::ContractPaused(admin@, now)]);
        }
        Ok(())
    }

    /// Lets the pause admin end any pause; publishes `contract_unpaused`.
    pub fn unpause(env: &mut ContractEnv, admin: Address) -> (r: Result<(), PaymentError>)
        requires
            old(env).wf(),
        ensures
            final(env).wf(),
            r == spec_pause_admin_check(old(env)@, admin@),
            r is Ok ==> final(env)@ == with_effects(
                old(env)@,
                seq![admin@],
                StorageModel { paused: false, paused_until: 0, ..old(env)@.storage },
                Seq::empty(),
                seq![PaymentEventModel::ContractUnpaused(admin@, old(env)@.timestamp)],
            ),
            r is Err ==> final(env)@ == only_auths(old(env)@, seq![admin@]),
    {
        env.require_auth(&admin);
        let pause_admin = match env.storage.get_pause_admin() {
            Ok(a) => a,
            Err(e) => return Err(e),
        };
        if !pause_admin.same_as(&admin) {
            return Err(PaymentError::NotAuthorized);
        }
        env.storage.set_unpause();
        env.storage.set_pause_until(0);
        let now = env.timestamp;
        env.push_event(PaymentEvent::ContractUnpaused(admin, now));
        proof {
            assert(env@.transfers =~= old(env)@.transfers + Seq::<TokenTransferModel>::empty());
            assert(env@.events =~= old(env)@.events + seq![PaymentEventModel::ContractUnpaused(admin@, now)]);
        }
        Ok(())
    }
}

// ===== Refunds =====

/// How long after a payment a refund may be requested: 30 days.
pub const MAX_REFUND_WINDOW: u64 = 2_592_000;

/// The outcome of `initiate_refund`.
pub open spec fn spec_initiate_refund_result(e: ContractEnvModel, caller: Seq<u8>, order_id: Seq<u8>, amount: i128) -> Result<(), PaymentError> {
    if !e.storage.payments.contains_key(order_id) {
        Err(PaymentError::PaymentNotFound)
    } else {
        let p = e.storage.payments[order_id];
        if caller != p.merchant_address && caller != p.payer_address {
            Err(PaymentError::NotAuthorized)
        } else if amount > p.amount - p.refunded_amount {
            Err(PaymentError::ExceedsOriginalAmount)
        } else if e.timestamp > p.paid_at + MAX_REFUND_WINDOW {
            Err(PaymentError::RefundWindowExceeded)
        } else {
            Ok(())
        }
    }
}

/// The request that `initiate_refund` stores.
pub open spec fn refund_request(
    p: PaymentRecordModel,
    refund_id: Seq<u8>,
    order_id: Seq<u8>,
    amount: i128,
    reason: Seq<u8>,
    now: u64,
) -> RefundRequestModel {
    RefundRequestModel {
        refund_id,
        order_id,
        merchant_address: p.merchant_address,
        payer_address: p.payer_address,
        token: p.token,
        amount,
        reason,
        requested_at: now,
        status: RefundStatus::Pending,
        approved_by: None,
    }
}

/// The outcome of approving or rejecting a refund request.
pub open spec fn spec_review_refund_result(e: ContractEnvModel, caller: Seq<u8>, refund_id: Seq<u8>) -> Result<(), PaymentError> {
    if !e.storage.refunds.contains_key(refund_id) {
        Err(PaymentError::RefundNotFound)
    } else {
        let q = e.storage.refunds[refund_id];
        if e.storage.admin != Some(caller) && caller != q.merchant_address {
            Err(PaymentError::NotAuthorized)
        } else if q.status != RefundStatus::Pending {
            Err(PaymentError::InvalidRefundStatus)
        } else {
            Ok(())
        }
    }
}

/// The checks of `execute_refund` before the merchant's authorization.
pub open spec fn spec_refund_executable(e: ContractEnvModel, refund_id: Seq<u8>) -> Result<(), PaymentError> {
    if !e.storage.refunds.contains_key(refund_id) {
        Err(PaymentError::RefundNotFound)
    } else {
        let q = e.storage.refunds[refund_id];
        if q.status != RefundStatus::Approved {
            Err(PaymentError::InvalidRefundStatus)
        } else if !e.storage.payments.contains_key(q.order_id) {
            Err(PaymentError::PaymentNotFound)
        } else {
            let p = e.storage.payments[q.order_id];
            if q.amount > p.amount - p.refunded_amount {
                Err(PaymentError::ExceedsOriginalAmount)
            } else {
                Ok(())
            }
        }
    }
}

/// The outcome of `execute_refund` when the merchant holds `balance` of the
/// refund's token.
pub open spec fn spec_execute_refund_result(e: ContractEnvModel, refund_id: Seq<u8>, balance: i128) -> Result<(), PaymentError> {
    match spec_refund_executable(e, refund_id) {
        Err(x) => Err(x),
        Ok(()) => if balance < e.storage.refunds[refund_id].amount { Err(PaymentError::InsufficientBalance) } else { Ok(()) },
    }
}

impl PaymentProcessingContract {
    /// Lets the merchant or the payer of a payment request a refund of at
    /// most the amount not yet refunded, within 30 days of the payment;
    /// publishes `refund_initiated`.
    pub fn initiate_refund(
        env: &mut ContractEnv,
        caller: Address,
        refund_id: Vec<u8>,
        order_id: Vec<u8>,
        amount: i128,
        reason: Vec<u8>,
    ) -> (r: Result<(), PaymentError>)
        requires
            old(env).wf(),
            old(env)@.storage.payments.contains_key(order_id@) ==> {
                let p = old(env)@.storage.payments[order_id@];
                &&& i128::MIN <= p.amount - p.refunded_amount <= i128::MAX
                &&& p.paid_at + MAX_REFUND_WINDOW <= u64::MAX
            },
        ensures
            final(env).wf(),
            r == spec_initiate_refund_result(old(env)@, caller@, order_id@, amount),
            r is Ok ==> final(env)@ == with_effects(
                old(env)@,
                seq![caller@],
                StorageModel {
                    refunds: old(env)@.storage.refunds.insert(
                        refund_id@,
                        refund_request(old(env)@.storage.payments[order_id@], refund_id@, order_id@, amount, reason@, old(env)@.timestamp),
                    ),
                    ..old(env)@.storage
                },
                Seq::empty(),
                seq![PaymentEventModel::RefundInitiated(refund_id@, order_id@, amount)],
            ),
            r is Err ==> final(env)@ == only_auths(old(env)@, seq![caller@]),
    {
        env.require_auth(&caller);
        let payment = match env.storage.get_payment(&order_id) {
            Ok(p) => p,
            Err(e) => return Err(e),
        };
        let is_merchant = caller.same_as(&payment.merchant_address);
        let is_payer = caller.same_as(&payment.payer_address);
        if !is_merchant && !is_payer {
            return Err(PaymentError::NotAuthorized);
        }
        if amount > payment.amount - payment.refunded_amount {
            return Err(PaymentError::ExceedsOriginalAmount);
        }
        if env.timestamp > payment.paid_at + MAX_REFUND_WINDOW {
            return Err(PaymentError::RefundWindowExceeded);
        }
        let request = RefundRequest {
            refund_id: refund_id.duplicate(),
            order_id: order_id.duplicate(),
            merchant_address: payment.merchant_address.duplicate(),
            payer_address: payment.payer_address.duplicate(),
            token: payment.token.duplicate(),
            amount,
            reason,
            requested_at: env.timestamp,
            status: RefundStatus::Pending,
            approved_by: None,
        };
        env.storage.save_refund(&request);
        env.push_event(PaymentEvent::RefundInitiated(refund_id, order_id, amount));
        proof {
            assert(env@.transfers =~= old(env)@.transfers + Seq::<TokenTransferModel>::empty());
            assert(env@.events =~= old(env)@.events + seq![PaymentEventModel::RefundInitiated(request@.refund_id, request@.order_id, amount)]);
        }
        Ok(())
    }

    /// Sets the status of a pending refund request, recording who reviewed it.
    fn review_refund(env: &mut ContractEnv, caller: Address, refund_id: Vec<u8>, approve: bool) -> (r: Result<(), PaymentError>)
        requires
            old(env).wf(),
        ensures
            final(env).wf(),
            r == spec_review_refund_result(old(env)@, caller@, refund_id@),
            r is Ok ==> final(env)@ == with_effects(
                old(env)@,
                seq![caller@],
                StorageModel {
                    refunds: old(env)@.storage.refunds.insert(refund_id@, RefundRequestModel {
                        status: if approve { RefundStatus::Approved } else { RefundStatus::Rejected },
                        approved_by: Some(caller@),
                        ..old(env)@.storage.refunds[refund_id@]
                    }),
                    ..old(env)@.storage
                },
                Seq::empty(),
                seq![if approve { PaymentEventModel::RefundApproved(refund_id@) } else { PaymentEventModel::RefundRejected(refund_id@) }],
            ),
            r is Err ==> final(env)@ == only_auths(old(env)@, seq![caller@]),
    {
        env.require_auth(&caller);
        let mut request = match env.storage.get_refund(&refund_id) {
            Ok(q) => q,
            Err(e) => return Err(e),
        };
        let is_admin = match env.storage.get_admin() {
            Some(a) => a.same_as(&caller),
            None => false,
        };
        if !is_admin && !caller.same_as(&request.merchant_address) {
            return Err(PaymentError::NotAuthorized);
        }
        match request.status {
            RefundStatus::Pending => {},
            _ => return Err(PaymentError::InvalidRefundStatus),
        }
        request.status = if approve { RefundStatus::Approved } else { RefundStatus::Rejected };
        request.approved_by = Some(caller);
        proof {
            assert(request@.refund_id == refund_id@);
        }
        env.storage.update_refund(&request);
        let event = if approve { PaymentEvent::RefundApproved(refund_id) } else { PaymentEvent::RefundRejected(refund_id) };
        env.push_event(event);
        proof {
            assert(env@.transfers =~= old(env)@.transfers + Seq::<TokenTransferModel>::empty());
            assert(env@.events =~= old(env)@.events + seq![event@]);
        }
        Ok(())
    }

    /// Lets the admin or the payment's merchant approve a pending refund
    /// request; publishes `refund_approved`.
    pub fn approve_refund(env: &mut ContractEnv, caller: Address, refund_id: Vec<u8>) -> (r: Result<(), PaymentError>)
        requires
            old(env).wf(),
        ensures
            final(env).wf(),
            r == spec_review_refund_result(old(env)@, caller@, refund_id@),
            r is Ok ==> final(env)@ == with_effects(
                old(env)@,
                seq![caller@],
                StorageModel {
                    refunds: old(env)@.storage.refunds.insert(refund_id@, RefundRequestModel {
                        status: RefundStatus::Approved,
                        approved_by: Some(caller@),
                        ..old(env)@.storage.refunds[refund_id@]
                    }),
                    ..old(env)@.storage
                },
                Seq::empty(),
                seq![PaymentEventModel::RefundApproved(refund_id@)],
            ),
            r is Err ==> final(env)@ == only_auths(old(env)@, seq![caller@]),
    {
        Self::review_refund(env, caller, refund_id, true)
    }

    /// Lets the admin or the payment's merchant reject a pending refund
    /// request; publishes `refund_rejected`.
    pub fn reject_refund(env: &mut ContractEnv, caller: Address, refund_id: Vec<u8>) -> (r: Result<(), PaymentError>)
        requires
            old(env).wf(),
        ensures
            final(env).wf(),
            r == spec_review_refund_result(old(env)@, caller@, refund_id@),
            r is Ok ==> final(env)@ == with_effects(
                old(env)@,
                seq![caller@],
                StorageModel {
                    refunds: old(env)@.storage.refunds.insert(refund_id@, RefundRequestModel {
                        status: RefundStatus::Rejected,
                        approved_by: Some(caller@),
                        ..old(env)@.storage.refunds[refund_id@]
                    }),
                    ..old(env)@.storage
                },
                Seq::empty(),
                seq![PaymentEventModel::RefundRejected(refund_id@)],
            ),
            r is Err ==> final(env)@ == only_auths(old(env)@, seq![caller@]),
    {
        Self::review_refund(env, caller, refund_id, false)
    }

    /// Pays an approved refund: the merchant, who must authorize it and hold
    /// `merchant_balance` of the token, pays the amount back to the payer;
    /// the payment's refunded amount grows by it and the request completes.
    /// Publishes `refund_executed`.
    pub fn execute_refund(env: &mut ContractEnv, refund_id: Vec<u8>, merchant_balance: i128) -> (r: Result<(), PaymentError>)
        requires
            old(env).wf(),
            spec_refund_executable(old(env)@, refund_id@) is Ok ==> {
                let q = old(env)@.storage.refunds[refund_id@];
                let p = old(env)@.storage.payments[q.order_id];
                i128::MIN <= p.refunded_amount + q.amount <= i128::MAX
            },
            old(env)@.storage.refunds.contains_key(refund_id@)
                && old(env)@.storage.payments.contains_key(old(env)@.storage.refunds[refund_id@].order_id) ==> {
                let q = old(env)@.storage.refunds[refund_id@];
                let p = old(env)@.storage.payments[q.order_id];
                i128::MIN <= p.amount - p.refunded_amount <= i128::MAX
            },
        ensures
            final(env).wf(),
            r == spec_execute_refund_result(old(env)@, refund_id@, merchant_balance),
            r is Ok ==> {
                let q = old(env)@.storage.refunds[refund_id@];
                let p = old(env)@.storage.payments[q.order_id];
                final(env)@ == with_effects(
                    old(env)@,
                    seq![q.merchant_address],
                    StorageModel {
                        payments: old(env)@.storage.payments.insert(
                            q.order_id,
                            PaymentRecordModel { refunded_amount: (p.refunded_amount + q.amount) as i128, ..p },
                        ),
                        refunds: old(env)@.storage.refunds.insert(refund_id@, RefundRequestModel { status: RefundStatus::Completed, ..q }),
                        ..old(env)@.storage
                    },
                    seq![TokenTransferModel { token: q.token, from: q.merchant_address, to: q.payer_address, amount: q.amount }],
                    seq![PaymentEventModel::RefundExecuted(refund_id@, q.amount)],
                )
            },
            r is Err ==> final(env)@ == only_auths(
                old(env)@,
                if spec_refund_executable(old(env)@, refund_id@) is Ok {
                    seq![old(env)@.storage.refunds[refund_id@].merchant_address]
                } else {
                    Seq::empty()
                },
            ),
    {
        let mut request = match env.storage.get_refund(&refund_id) {
            Ok(q) => q,
            Err(e) => {
                proof {
                    assert(old(env)@.auths + Seq::<Seq<u8>>::empty() =~= old(env)@.auths);
                }
                return Err(e);
            },
        };
        match request.status {
            RefundStatus::Approved => {},
            _ => {
                proof {
                    assert(old(env)@.auths + Seq::<Seq<u8>>::empty() =~= old(env)@.auths);
                }
                return Err(PaymentError::InvalidRefundStatus);
            },
        }
        let mut payment = match env.storage.get_payment(&request.order_id) {
            Ok(p) => p,
            Err(e) => {
                proof {
                    assert(old(env)@.auths + Seq::<Seq<u8>>::empty() =~= old(env)@.auths);
                }
                return Err(e);
            },
        };
        if request.amount > payment.amount - payment.refunded_amount {
            proof {
                assert(old(env)@.auths + Seq::<Seq<u8>>::empty() =~= old(env)@.auths);
            }
            return Err(PaymentError::ExceedsOriginalAmount);
        }
        env.require_auth(&request.merchant_address);
        if merchant_balance < request.amount {
            return Err(PaymentError::InsufficientBalance);
        }
        let ghost e1 = env@;
        env.push_transfer(TokenTransfer {
            token: request.token.duplicate(),
            from: request.merchant_address.duplicate(),
            to: request.payer_address.duplicate(),
            amount: request.amount,
        });
        payment.refunded_amount = payment.refunded_amount + request.amount;
        proof {
            assert(payment@.order_id == request@.order_id);
        }
        env.storage.update_payment(&payment);
        request.status = RefundStatus::Completed;
        proof {
            assert(request@.refund_id == refund_id@);
        }
        env.storage.update_refund(&request);
        let amount = request.amount;
        env.push_event(PaymentEvent::RefundExecuted(refund_id, amount));
        proof {
            assert(env@.transfers =~= old(env)@.transfers + seq![TokenTransferModel {
                token: request@.token, from: request@.merchant_address, to: request@.payer_address, amount }]);
            assert(env@.events =~= old(env)@.events + seq![PaymentEventModel::RefundExecuted(refund_id@, amount)]);
        }
        Ok(())
    }

    /// The status of a refund request.
    pub fn get_refund_status(env: &ContractEnv, refund_id: Vec<u8>) -> (r: Result<RefundStatus, PaymentError>)
        requires
            env.wf(),
        ensures
            r == if env@.storage.refunds.contains_key(refund_id@) {
                Ok(env@.storage.refunds[refund_id@].status)
            } else {
                Err(PaymentError::RefundNotFound)
            },
    {
        match env.storage.get_refund(&refund_id) {
            Ok(q) => Ok(q.status),
            Err(e) => Err(e),
        }
    }
}


// ===== Payment history =====

/// The largest page that a history query returns.
pub const MAX_PAGE_SIZE: u32 = 100;

/// A page size is between 1 and 100.
pub open spec fn valid_page_size(limit: u32) -> bool {
    1 <= limit <= MAX_PAGE_SIZE
}

/// A record passes the filters of a query.
pub open spec fn params_match(r: PaymentRecordModel, q: PaymentQueryParamsModel) -> bool {
    &&& q.start_time matches Some(t) ==> r.paid_at >= t
    &&& q.end_time matches Some(t) ==> r.paid_at <= t
    &&& q.min_amount matches Some(a) ==> r.amount >= a
    &&& q.max_amount matches Some(a) ==> r.amount <= a
    &&& q.token matches Some(t) ==> r.token == t
}

/// The records that pass the filters of a query, in order.
pub open spec fn matching_records(recs: Seq<PaymentRecordModel>, q: PaymentQueryParamsModel) -> Seq<PaymentRecordModel>
    decreases recs.len(),
{
    if recs.len() == 0 {
        Seq::empty()
    } else {
        let m = matching_records(recs.drop_last(), q);
        if params_match(recs.last(), q) { m.push(recs.last()) } else { m }
    }
}

/// The page that a query selects: the matching records past the first
/// `offset`, at most `limit` of them.
pub open spec fn query_page(recs: Seq<PaymentRecordModel>, q: PaymentQueryParamsModel) -> Seq<PaymentRecordModel> {
    let m = matching_records(recs, q);
    let start = if q.offset < m.len() { q.offset as int } else { m.len() as int };
    let end = if q.offset + q.limit < m.len() { q.offset + q.limit } else { m.len() as int };
    m.subrange(start, end)
}

proof fn lemma_matching_prefix(recs: Seq<PaymentRecordModel>, q: PaymentQueryParamsModel, i: int)
    requires
        0 <= i <= recs.len(),
    ensures
        matching_records(recs.take(i), q).len() <= matching_records(recs, q).len(),
        matching_records(recs.take(i), q) == matching_records(recs, q).take(matching_records(recs.take(i), q).len() as int),
    decreases recs.len(),
{
    if i == recs.len() {
        assert(recs.take(i) =~= recs);
        assert(matching_records(recs, q).take(matching_records(recs, q).len() as int) =~= matching_records(recs, q));
    } else {
        let d = recs.drop_last();
        assert(recs.take(i) =~= d.take(i));
        lemma_matching_prefix(d, q, i);
        let a = matching_records(d.take(i), q);
        let m = matching_records(recs, q);
        assert(a =~= m.take(a.len() as int));
    }
}

impl PaymentProcessingContract {
    /// A page of the payments a merchant received, oldest first;
    /// `InvalidAmount` unless `limit` is between 1 and 100.
    pub fn get_merchant_payment_history(env: &ContractEnv, merchant: Address, limit: u32, offset: u32) -> (r: Result<Vec<PaymentRecord>, PaymentError>)
        requires
            env.wf(),
        ensures
            result_model(r) == if valid_page_size(limit) {
                Ok(spec_page(index_list(env@.storage.merchant_payment_indices, merchant@), env@.storage.payments, limit, offset))
            } else {
                Err(PaymentError::InvalidAmount)
            },
    {
        if limit == 0 || limit > MAX_PAGE_SIZE {
            return Err(PaymentError::InvalidAmount);
        }
        Ok(env.storage.get_merchant_payments(&merchant, limit, offset))
    }

    /// A page of the payments a payer made, oldest first; `InvalidAmount`
    /// unless `limit` is between 1 and 100.
    pub fn get_payer_payment_history(env: &ContractEnv, payer: Address, limit: u32, offset: u32) -> (r: Result<Vec<PaymentRecord>, PaymentError>)
        requires
            env.wf(),
        ensures
            result_model(r) == if valid_page_size(limit) {
                Ok(spec_page(index_list(env@.storage.payer_payment_indices, payer@), env@.storage.payments, limit, offset))
            } else {
                Err(PaymentError::InvalidAmount)
            },
    {
        if limit == 0 || limit > MAX_PAGE_SIZE {
            return Err(PaymentError::InvalidAmount);
        }
        Ok(env.storage.get_payer_payments(&payer, limit, offset))
    }

    /// The record of the payment of order `order_id`.
    pub fn get_payment_by_order_id(env: &ContractEnv, order_id: Vec<u8>) -> (r: Result<PaymentRecord, PaymentError>)
        requires
            env.wf(),
        ensures
            result_model(r) == if env@.storage.payments.contains_key(order_id@) {
                Ok(env@.storage.payments[order_id@])
            } else {
                Err(PaymentError::PaymentNotFound)
            },
    {
        env.storage.get_payment(&order_id)
    }

    /// The stored payments, in order id order, that pass the query's filters,
    /// past the first `offset` of them and at most `limit`; `InvalidAmount`
    /// unless `limit` is between 1 and 100.
    pub fn query_payments(env: &ContractEnv, params: PaymentQueryParams) -> (r: Result<Vec<PaymentRecord>, PaymentError>)
        requires
            env.wf(),
        ensures
            result_model(r) == if valid_page_size(params.limit) {
                Ok(query_page(entry_records(env.storage.payments.entries_view()), params@))
            } else {
                Err(PaymentError::InvalidAmount)
            },
    {
        if params.limit == 0 || params.limit > MAX_PAGE_SIZE {
            return Err(PaymentError::InvalidAmount);
        }
        let ghost recs = entry_records(env.storage.payments.entries_view());
        let ghost q = params@;
        let all = env.storage.get_payments_map();
        let mut results: Vec<PaymentRecord> = Vec::new();
        let mut count: u32 = 0;
        let mut skipped: u32 = 0;
        let mut i: usize = 0;
        proof {
            assert(recs.take(0) =~= Seq::<PaymentRecordModel>::empty());
            assert(results.deep_view() =~= Seq::<PaymentRecordModel>::empty());
        }
        while i < all.len() && count < params.limit
            invariant
                i <= recs.len(),
                recs == entry_records(all.entries_view()),
                recs.len() == all.entries_view().len(),
                q == params@,
                1 <= params.limit <= MAX_PAGE_SIZE,
                count == results.len(),
                count <= params.limit,
                skipped <= params.offset,
                skipped == if params.offset < matching_records(recs.take(i as int), q).len() {
                    params.offset as int
                } else {
                    matching_records(recs.take(i as int), q).len() as int
                },
                results.deep_view() == matching_records(recs.take(i as int), q).subrange(
                    skipped as int,
                    matching_records(recs.take(i as int), q).len() as int,
                ),
            decreases recs.len() - i,
        {
            let record = all.value_at(i);
            let ghost m0 = matching_records(recs.take(i as int), q);
            proof {
                assert(recs.take(i + 1).drop_last() =~= recs.take(i as int));
                assert(recs.take(i + 1).last() == record@);
            }
            let mut matches = true;
            match params.start_time {
                Some(t) => if record.paid_at < t { matches = false; },
                None => {},
            }
            match params.end_time {
                Some(t) => if record.paid_at > t { matches = false; },
                None => {},
            }
            match params.min_amount {
                Some(a) => if record.amount < a { matches = false; },
                None => {},
            }
            match params.max_amount {
                Some(a) => if record.amount > a { matches = false; },
                None => {},
            }
            match &params.token {
                Some(t) => if !record.token.same_as(t) { matches = false; },
                None => {},
            }
            proof {
                assert(matches == params_match(record@, q));
            }
            if matches {
                if skipped < params.offset {
                    skipped += 1;
                    proof {
                        assert(results.deep_view() =~= matching_records(recs.take(i + 1), q).subrange(
                            skipped as int,
                            matching_records(recs.take(i + 1), q).len() as int,
                        ));
                    }
                } else {
                    let ghost pre = results.deep_view();
                    results.push(record.duplicate());
                    count += 1;
                    proof {
                        assert(results.deep_view() =~= pre.push(record@));
                        assert(results.deep_view() =~= matching_records(recs.take(i + 1), q).subrange(
                            skipped as int,
                            matching_records(recs.take(i + 1), q).len() as int,
                        ));
                    }
                }
            }
            i += 1;
        }
        proof {
            let m = matching_records(recs, q);
            let mi = matching_records(recs.take(i as int), q);
            lemma_matching_prefix(recs, q, i as int);
            if i == recs.len() {
                assert(recs.take(i as int) =~= recs);
            }
            assert(results.deep_view() =~= query_page(recs, q));
        }
        Ok(results)
    }

    /// Statistics over the payments a merchant received; `MerchantNotFound`
    /// when it received none.
    pub fn get_merchant_payment_stats(env: &ContractEnv, merchant: Address) -> (r: Result<MerchantPaymentSummary, PaymentError>)
        requires
            env.wf(),
        ensures
            result_model(r) == match spec_merchant_stats(env@.storage, merchant@) {
                Some(s) => Ok(s),
                None => Err(PaymentError::MerchantNotFound),
            },
    {
        match env.storage.get_merchant_stats(&merchant) {
            Some(s) => Ok(s),
            None => Err(PaymentError::MerchantNotFound),
        }
    }

    /// Statistics over the payments a payer made; `PaymentNotFound` when it
    /// made none.
    pub fn get_payer_payment_stats(env: &ContractEnv, payer: Address) -> (r: Result<PayerPaymentSummary, PaymentError>)
        requires
            env.wf(),
        ensures
            result_model(r) == match spec_payer_stats(env@.storage, payer@) {
                Some(s) => Ok(s),
                None => Err(PaymentError::PaymentNotFound),
            },
    {
        match env.storage.get_payer_stats(&payer) {
            Some(s) => Ok(s),
            None => Err(PaymentError::PaymentNotFound),
        }
    }

    /// Statistics over all stored payments; `PaymentNotFound` when there are
    /// none.
    pub fn get_global_payment_stats(env: &ContractEnv) -> (r: Result<PaymentStats, PaymentError>)
        requires
            env.wf(),
        ensures
            result_model(r) == match spec_global_stats(entry_records(env.storage.payments.entries_view())) {
                Some(s) => Ok(s),
                None => Err(PaymentError::PaymentNotFound),
            },
    {
        match env.storage.get_global_stats() {
            Some(s) => Ok(s),
            None => Err(PaymentError::PaymentNotFound),
        }
    }

    /// The daily buckets of the payments made between `start_time` and
    /// `end_time`; `InvalidAmount` unless `start_time < end_time`.
    pub fn get_payments_by_time_range(env: &ContractEnv, start_time: u64, end_time: u64) -> (r: Result<Vec<PaymentBucket>, PaymentError>)
        requires
            env.wf(),
        ensures
            result_model(r) == if start_time < end_time {
                Ok(spec_time_buckets(entry_records(env.storage.payments.entries_view()), start_time, end_time))
            } else {
                Err(PaymentError::InvalidAmount)
            },
    {
        if start_time >= end_time {
            return Err(PaymentError::InvalidAmount);
        }
        Ok(env.storage.get_payments_by_time_range(start_time, end_time))
    }

    /// A page of the payments made in `token`, oldest first;
    /// `InvalidAmount` unless `limit` is between 1 and 100.
    pub fn get_payments_by_token(env: &ContractEnv, token: Address, limit: u32, offset: u32) -> (r: Result<Vec<PaymentRecord>, PaymentError>)
        requires
            env.wf(),
        ensures
            result_model(r) == if valid_page_size(limit) {
                Ok(spec_page(index_list(env@.storage.token_payment_indices, token@), env@.storage.payments, limit, offset))
            } else {
                Err(PaymentError::InvalidAmount)
            },
    {
        if limit == 0 || limit > MAX_PAGE_SIZE {
            return Err(PaymentError::InvalidAmount);
        }
        let ids = env.storage.get_token_payment_indices(&token);
        Ok(env.storage.page_of_records(&ids, limit, offset))
    }

    /// Lets the admin archive up to 100 payments made before `cutoff_time`,
    /// which must lie in the past.
    pub fn archive_old_payments(env: &mut ContractEnv, admin: Address, cutoff_time: u64) -> (r: Result<(), PaymentError>)
        requires
            old(env).wf(),
        ensures
            final(env).wf(),
            r == match spec_require_admin(old(env)@.storage, admin@) {
                Err(e) => Err(e),
                Ok(()) => if cutoff_time >= old(env)@.timestamp { Err(PaymentError::InvalidAmount) } else { Ok(()) },
            },
            r is Ok ==> final(env)@ == with_effects(
                old(env)@,
                seq![admin@],
                StorageModel {
                    payment_archive: archived_after(
                        old(env)@.storage.payment_archive,
                        entry_records(old(env).storage.payments.entries_view()),
                        cutoff_time,
                        ARCHIVE_BATCH_SIZE as int,
                    ),
                    ..old(env)@.storage
                },
                Seq::empty(),
                Seq::empty(),
            ),
            r is Err ==> final(env)@ == only_auths(old(env)@, seq![admin@]),
    {
        env.require_auth(&admin);
        let stored = match env.storage.get_admin() {
            Some(a) => a,
            None => return Err(PaymentError::AdminNotFound),
        };
        if !stored.same_as(&admin) {
            return Err(PaymentError::NotAuthorized);
        }
        if cutoff_time >= env.timestamp {
            return Err(PaymentError::InvalidAmount);
        }
        let _ = env.storage.compress_old_payments(cutoff_time, ARCHIVE_BATCH_SIZE);
        proof {
            assert(env@.transfers =~= old(env)@.transfers + Seq::<TokenTransferModel>::empty());
            assert(env@.events =~= old(env)@.events + Seq::<PaymentEventModel>::empty());
        }
        Ok(())
    }
}

/// How many payments one archiving call archives at most.
pub const ARCHIVE_BATCH_SIZE: u32 = 100;

} // verus!
