//! The contract's stored state and the operations on it.
use vstd::prelude::*;
use crate::address::Address;
use crate::table::{Duplicate, Table, TableKey, sorted_entries, seq_to_map};
use super::error::PaymentError;
use super::types::{
    Fee, FeeModel, Merchant, MerchantModel, MultiSigPayment, MultiSigPaymentModel,
    MultiSigPaymentRecord, MultiSigPaymentRecordModel, NonceTracker, NonceTrackerModel,
    PaymentRecord, PaymentRecordModel, RefundRequest, RefundRequestModel, nonce_used, nonce_word,
    PaymentQueryFilter, PaymentQueryFilterModel, PaymentRecordStatus, spec_record_status,
};

verus! {

broadcast use crate::table::lemma_bytes_deep_view;

/// The keys under which the contract keeps its state.
#[derive(Clone, Copy, Debug, PartialEq, Eq, Structural)]
pub enum DataKey {
    Initialized,
    Merchants,
    NonceTrackers,
    MultiSigPayments,
    PaymentHistory,
    PaymentCounter,
    Paused,
    PausedAdmin,
    PausedUntil,
    Admin,
    Fee,
    Payments,
    Refunds,
    MerchantPaymentIndices,
    PayerPaymentIndices,
    TokenBasedIndex,
    PaymentCleanupPeriod,
    PaymentArchive,
}

/// The storage symbol of each key.
pub open spec fn spec_data_key_symbol(k: DataKey) -> Seq<char> {
    match k {
        DataKey::Initialized => "initialized"@,
        DataKey::Merchants => "merchants"@,
        DataKey::NonceTrackers => "nonce_trackers"@,
        DataKey::MultiSigPayments => "multisig_payments"@,
        DataKey::PaymentHistory => "payment_history"@,
        DataKey::PaymentCounter => "payment_counter"@,
        DataKey::Paused => "paused"@,
        DataKey::PausedAdmin => "paused_admin"@,
        DataKey::PausedUntil => "paused_until"@,
        DataKey::Admin => "admin"@,
        DataKey::Fee => "fee"@,
        DataKey::Payments => "payments"@,
        DataKey::Refunds => "refunds"@,
        DataKey::MerchantPaymentIndices => "merchant_pay_idx"@,
        DataKey::PayerPaymentIndices => "payer_pay_idx"@,
        DataKey::TokenBasedIndex => "token_pay_idx"@,
        DataKey::PaymentCleanupPeriod => "pay_cleanup_period"@,
        DataKey::PaymentArchive => "pay_archive"@,
    }
}

impl DataKey {
    /// The symbol under which the host stores the value of this key.
    pub fn as_symbol(self) -> (s: &'static str)
        ensures
            s@ == spec_data_key_symbol(self),
    {
        match self {
            DataKey::Initialized => "initialized",
            DataKey::Merchants => "merchants",
            DataKey::NonceTrackers => "nonce_trackers",
            DataKey::MultiSigPayments => "multisig_payments",
            DataKey::PaymentHistory => "payment_history",
            DataKey::PaymentCounter => "payment_counter",
            DataKey::Paused => "paused",
            DataKey::PausedAdmin => "paused_admin",
            DataKey::PausedUntil => "paused_until",
            DataKey::Admin => "admin",
            DataKey::Fee => "fee",
            DataKey::Payments => "payments",
            DataKey::Refunds => "refunds",
            DataKey::MerchantPaymentIndices => "merchant_pay_idx",
            DataKey::PayerPaymentIndices => "payer_pay_idx",
            DataKey::TokenBasedIndex => "token_pay_idx",
            DataKey::PaymentCleanupPeriod => "pay_cleanup_period",
            DataKey::PaymentArchive => "pay_archive",
        }
    }
}

/// The default payment cleanup period: 365 days, in seconds.
pub const DEFAULT_CLEANUP_PERIOD: u64 = 31_536_000;

/// The highest fee rate, in percent, that the admin may set.
pub const MAX_FEE_RATE: u64 = 10;

/// Everything the contract keeps in its instance storage.
#[derive(Clone, Debug, PartialEq)]
pub struct Storage {
    pub admin: Option<Address>,
    pub fee: Option<Fee>,
    pub merchants: Table<Address, Merchant>,
    pub nonce_trackers: Table<Address, NonceTracker>,
    pub multisig_payments: Table<u128, MultiSigPayment>,
    pub payment_history: Table<u128, MultiSigPaymentRecord>,
    pub payment_counter: u128,
    pub paused: bool,
    pub pause_admin: Option<Address>,
    pub paused_until: u64,
    pub payments: Table<Vec<u8>, PaymentRecord>,
    pub refunds: Table<Vec<u8>, RefundRequest>,
    pub merchant_payment_indices: Table<Address, Vec<Vec<u8>>>,
    pub payer_payment_indices: Table<Address, Vec<Vec<u8>>>,
    pub token_payment_indices: Table<Address, Vec<Vec<u8>>>,
    pub cleanup_period: u64,
    pub payment_archive: Table<Vec<u8>, PaymentRecord>,
}

/// The model of [`Storage`]: each table as the map it holds.
pub struct StorageModel {
    pub admin: Option<Seq<u8>>,
    pub fee: Option<FeeModel>,
    pub merchants: Map<Seq<u8>, MerchantModel>,
    pub nonce_trackers: Map<Seq<u8>, NonceTrackerModel>,
    pub multisig_payments: Map<u128, MultiSigPaymentModel>,
    pub payment_history: Map<u128, MultiSigPaymentRecordModel>,
    pub payment_counter: u128,
    pub paused: bool,
    pub pause_admin: Option<Seq<u8>>,
    pub paused_until: u64,
    pub payments: Map<Seq<u8>, PaymentRecordModel>,
    pub refunds: Map<Seq<u8>, RefundRequestModel>,
    pub merchant_payment_indices: Map<Seq<u8>, Seq<Seq<u8>>>,
    pub payer_payment_indices: Map<Seq<u8>, Seq<Seq<u8>>>,
    pub token_payment_indices: Map<Seq<u8>, Seq<Seq<u8>>>,
    pub cleanup_period: u64,
    pub payment_archive: Map<Seq<u8>, PaymentRecordModel>,
}

impl View for Storage {
    type V = StorageModel;

    open spec fn view(&self) -> StorageModel {
        StorageModel {
            admin: self.admin.deep_view(),
            fee: self.fee.deep_view(),
            merchants: self.merchants.map(),
            nonce_trackers: self.nonce_trackers.map(),
            multisig_payments: self.multisig_payments.map(),
            payment_history: self.payment_history.map(),
            payment_counter: self.payment_counter,
            paused: self.paused,
            pause_admin: self.pause_admin.deep_view(),
            paused_until: self.paused_until,
            payments: self.payments.map(),
            refunds: self.refunds.map(),
            merchant_payment_indices: self.merchant_payment_indices.map(),
            payer_payment_indices: self.payer_payment_indices.map(),
            token_payment_indices: self.token_payment_indices.map(),
            cleanup_period: self.cleanup_period,
            payment_archive: self.payment_archive.map(),
        }
    }
}

/// The nested tables of the stored values are in key order, each pending
/// payment, payment record and refund request is stored under its own id,
/// no pending or archived multi-signature payment has an id past the payment
/// counter, and a stored fee rate is at most 10 percent.
pub open spec fn model_wf(m: StorageModel) -> bool {
    &&& forall|k: Seq<u8>|
        #[trigger] m.nonce_trackers.contains_key(k) ==> sorted_entries::<u32, u32>(
            m.nonce_trackers[k].nonce_bitmap,
        )
    &&& forall|id: u128|
        #[trigger] m.multisig_payments.contains_key(id) ==> sorted_entries::<Address, bool>(
            m.multisig_payments[id].signatures,
        )
    &&& forall|id: u128|
        #[trigger] m.multisig_payments.contains_key(id) ==> m.multisig_payments[id].payment_id == id
    &&& forall|id: u128| #[trigger] m.multisig_payments.contains_key(id) ==> id <= m.payment_counter
    &&& forall|id: u128| #[trigger] m.payment_history.contains_key(id) ==> id <= m.payment_counter
    &&& forall|o: Seq<u8>| #[trigger] m.payments.contains_key(o) ==> m.payments[o].order_id == o
    &&& forall|q: Seq<u8>| #[trigger] m.refunds.contains_key(q) ==> m.refunds[q].refund_id == q
    &&& m.fee matches Some(f) ==> f.fee_rate <= MAX_FEE_RATE
}

/// The ledger time lies inside a pause: the contract was paused without
/// end, or is paused until a time not yet passed.
pub open spec fn spec_is_paused(m: StorageModel, now: u64) -> bool {
    m.paused || (m.paused_until != 0 && now <= m.paused_until)
}

/// `nonce` is used by an order of `merchant`.
pub open spec fn spec_nonce_used(m: StorageModel, merchant: Seq<u8>, nonce: u32) -> bool {
    m.nonce_trackers.contains_key(merchant) && nonce_used(
        m.nonce_trackers[merchant].nonce_bitmap,
        nonce,
    )
}

/// The fee on `amount` at `rate` percent, rounded toward zero.
pub open spec fn spec_fee(amount: int, rate: int) -> int {
    if amount >= 0 {
        amount * rate / 100
    } else {
        -((-amount) * rate / 100)
    }
}

/// The fee rate in force: that of the stored fee, zero if there is none.
pub open spec fn spec_fee_rate(m: StorageModel) -> u64 {
    match m.fee {
        Some(f) => f.fee_rate,
        None => 0,
    }
}

/// The model after `merchant` has used `nonce`.
pub open spec fn nonce_marked(before: StorageModel, after: StorageModel, merchant: Seq<u8>, nonce: u32) -> bool {
    &&& after.nonce_trackers.contains_key(merchant)
    &&& forall|m: Seq<u8>, n: u32|
        #![trigger spec_nonce_used(after, m, n)]
        spec_nonce_used(after, m, n) == ((m == merchant && n == nonce) || spec_nonce_used(before, m, n))
    &&& after.nonce_trackers[merchant].highest_nonce == if before.nonce_trackers.contains_key(merchant) {
        let h = before.nonce_trackers[merchant].highest_nonce;
        if nonce > h { nonce } else { h }
    } else {
        nonce
    }
    &&& forall|m: Seq<u8>| m != merchant ==> (#[trigger] after.nonce_trackers.contains_key(m)) == before.nonce_trackers.contains_key(m)
    &&& forall|m: Seq<u8>| m != merchant && #[trigger] before.nonce_trackers.contains_key(m) ==> after.nonce_trackers[m] == before.nonce_trackers[m]
}

/// Whether a nonce was marked depends on the nonce trackers alone.
pub proof fn lemma_nonce_marked_trackers(
    before: StorageModel,
    after: StorageModel,
    before2: StorageModel,
    after2: StorageModel,
    merchant: Seq<u8>,
    nonce: u32,
)
    requires
        nonce_marked(before, after, merchant, nonce),
        before2.nonce_trackers == before.nonce_trackers,
        after2.nonce_trackers == after.nonce_trackers,
    ensures
        nonce_marked(before2, after2, merchant, nonce),
{
    assert forall|m: Seq<u8>, n: u32|
        #![trigger spec_nonce_used(after2, m, n)]
        spec_nonce_used(after2, m, n) == ((m == merchant && n == nonce) || spec_nonce_used(before2, m, n)) by {
        assert(spec_nonce_used(after2, m, n) == spec_nonce_used(after, m, n));
        assert(spec_nonce_used(before2, m, n) == spec_nonce_used(before, m, n));
    }
}

pub proof fn lemma_fee_formula(amount: int, rate: int)
    requires
        0 <= rate,
        0 <= amount,
    ensures
        (amount / 100) * rate + ((amount % 100) * rate) / 100 == amount * rate / 100,
{
    {
        let q = amount / 100;
        let r = amount % 100;
        assert(amount == 100 * q + r);
        assert(amount * rate == 100 * (q * rate) + r * rate) by (nonlinear_arith)
            requires
                amount == 100 * q + r,
        ;
        assert(0 <= r * rate) by (nonlinear_arith)
            requires
                0 <= r,
                0 <= rate,
        ;
        assert((100 * (q * rate) + r * rate) / 100 == q * rate + (r * rate) / 100) by (nonlinear_arith)
            requires
                0 <= r * rate,
        ;
    }
}

/// The state of a contract that has stored nothing yet.
pub open spec fn empty_storage_model() -> StorageModel {
    StorageModel {
        admin: None,
        fee: None,
        merchants: Map::empty(),
        nonce_trackers: Map::empty(),
        multisig_payments: Map::empty(),
        payment_history: Map::empty(),
        payment_counter: 0,
        paused: false,
        pause_admin: None,
        paused_until: 0,
        payments: Map::empty(),
        refunds: Map::empty(),
        merchant_payment_indices: Map::empty(),
        payer_payment_indices: Map::empty(),
        token_payment_indices: Map::empty(),
        cleanup_period: DEFAULT_CLEANUP_PERIOD,
        payment_archive: Map::empty(),
    }
}

impl Storage {
    /// Every table is in key order, and so are the tables inside the stored
    /// values.
    pub open spec fn wf(&self) -> bool {
        &&& self.merchants.wf()
        &&& self.nonce_trackers.wf()
        &&& self.multisig_payments.wf()
        &&& self.payment_history.wf()
        &&& self.payments.wf()
        &&& self.refunds.wf()
        &&& self.merchant_payment_indices.wf()
        &&& self.payer_payment_indices.wf()
        &&& self.token_payment_indices.wf()
        &&& self.payment_archive.wf()
        &&& model_wf(self@)
    }

    /// The state of a contract that has stored nothing yet.
    pub fn new() -> (s: Storage)
        ensures
            s.wf(),
            s@ == empty_storage_model(),
    {
        Storage {
            admin: None,
            fee: None,
            merchants: Table::new(),
            nonce_trackers: Table::new(),
            multisig_payments: Table::new(),
            payment_history: Table::new(),
            payment_counter: 0,
            paused: false,
            pause_admin: None,
            paused_until: 0,
            payments: Table::new(),
            refunds: Table::new(),
            merchant_payment_indices: Table::new(),
            payer_payment_indices: Table::new(),
            token_payment_indices: Table::new(),
            cleanup_period: DEFAULT_CLEANUP_PERIOD,
            payment_archive: Table::new(),
        }
    }

    // ===== Pause management =====

    /// Lets the stored admin name a new pause admin.
    pub fn set_pause_admin_internal(&mut self, admin: &Address, new_admin: Address) -> (r: Result<(), PaymentError>)
        requires
            old(self).wf(),
        ensures
            final(self).wf(),
            r == spec_require_admin(old(self)@, admin@),
            r is Ok ==> final(self)@ == (StorageModel { pause_admin: Some(new_admin@), ..old(self)@ }),
            r is Err ==> final(self)@ == old(self)@,
    {
        match self.require_admin(admin) {
            Ok(()) => {
                self.pause_admin = Some(new_admin);
                Ok(())
            },
            Err(e) => Err(e),
        }
    }

    pub fn set_pause_until(&mut self, timestamp: u64)
        requires
            old(self).wf(),
        ensures
            final(self).wf(),
            final(self)@ == (StorageModel { paused_until: timestamp, ..old(self)@ }),
    {
        self.paused_until = timestamp;
    }

    pub fn get_pause_admin(&self) -> (r: Result<Address, PaymentError>)
        ensures
            match r {
                Ok(a) => self@.pause_admin == Some(a@),
                Err(e) => self@.pause_admin is None && e == PaymentError::AdminNotFound,
            },
    {
        match &self.pause_admin {
            Some(a) => Ok(a.duplicate()),
            None => Err(PaymentError::AdminNotFound),
        }
    }

    pub fn set_pause(&mut self)
        requires
            old(self).wf(),
        ensures
            final(self).wf(),
            final(self)@ == (StorageModel { paused: true, ..old(self)@ }),
    {
        self.paused = true;
    }

    pub fn set_unpause(&mut self)
        requires
            old(self).wf(),
        ensures
            final(self).wf(),
            final(self)@ == (StorageModel { paused: false, ..old(self)@ }),
    {
        self.paused = false;
    }

    /// The contract is paused: it was paused without end, or until a time
    /// that has not yet passed.
    pub fn is_paused(&self, now: u64) -> (b: bool)
        ensures
            b == spec_is_paused(self@, now),
    {
        if !self.paused && (self.paused_until == 0 || now > self.paused_until) {
            return false;
        }
        true
    }

    // ===== Merchant management =====

    pub fn save_merchant(&mut self, address: &Address, merchant: &Merchant)
        requires
            old(self).wf(),
        ensures
            final(self).wf(),
            final(self)@ == (StorageModel {
                merchants: old(self)@.merchants.insert(address@, merchant@),
                ..old(self)@
            }),
    {
        self.merchants.set(address.duplicate(), merchant.duplicate());
    }

    pub fn get_merchant(&self, address: &Address) -> (r: Result<Merchant, PaymentError>)
        requires
            self.wf(),
        ensures
            match r {
                Ok(m) => self@.merchants.contains_key(address@) && m@ == self@.merchants[address@],
                Err(e) => !self@.merchants.contains_key(address@) && e == PaymentError::MerchantNotFound,
            },
    {
        match self.merchants.get(address) {
            Some(m) => Ok(m.duplicate()),
            None => Err(PaymentError::MerchantNotFound),
        }
    }

    /// Stores each merchant of `merchants_data` under its address, in order.
    pub fn batch_save_merchants(&mut self, merchants_data: &Vec<(Address, Merchant)>)
        requires
            old(self).wf(),
        ensures
            final(self).wf(),
            final(self)@ == (StorageModel {
                merchants: merchants_inserted(old(self)@.merchants, merchants_data.deep_view()),
                ..old(self)@
            }),
    {
        let mut i: usize = 0;
        while i < merchants_data.len()
            invariant
                i <= merchants_data.len(),
                self.wf(),
                self@ == (StorageModel {
                    merchants: merchants_inserted(old(self)@.merchants, merchants_data.deep_view().take(i as int)),
                    ..old(self)@
                }),
            decreases merchants_data.len() - i,
        {
            let (a, m) = (&merchants_data[i].0, &merchants_data[i].1);
            self.save_merchant(a, m);
            proof {
                assert(merchants_data.deep_view().take(i + 1).drop_last() =~= merchants_data.deep_view().take(i as int));
            }
            i += 1;
        }
        proof {
            assert(merchants_data.deep_view().take(merchants_data.len() as int) =~= merchants_data.deep_view());
        }
    }

    pub fn merchant_exists(&self, address: &Address) -> (b: bool)
        requires
            self.wf(),
        ensures
            b == self@.merchants.contains_key(address@),
    {
        self.merchants.contains_key(address)
    }

    /// The number of registered merchants.
    pub fn get_merchant_count(&self) -> (n: u32)
        ensures
            n == self.merchants.entries_view().len() as u32,
    {
        self.merchants.len() as u32
    }

    // ===== Nonces =====

    /// The bitmap of a stored tracker is in key order.
    pub proof fn lemma_tracker_wf(&self, merchant: Seq<u8>)
        requires
            self.wf(),
            self@.nonce_trackers.contains_key(merchant),
        ensures
            sorted_entries::<u32, u32>(self@.nonce_trackers[merchant].nonce_bitmap),
    {
        assert(self@.nonce_trackers.contains_key(merchant));
    }

    /// Tells whether an order of `merchant` has used `nonce`.
    pub fn is_nonce_used(&self, merchant: &Address, nonce: u32) -> (b: bool)
        requires
            self.wf(),
        ensures
            b == spec_nonce_used(self@, merchant@, nonce),
    {
        match self.nonce_trackers.get(merchant) {
            Some(tracker) => {
                proof {
                    self.lemma_tracker_wf(merchant@);
                }
                tracker.is_nonce_used(nonce)
            },
            None => false,
        }
    }

    /// Records that an order of `merchant` has used `nonce`.
    pub fn mark_nonce_used(&mut self, merchant: &Address, nonce: u32)
        requires
            old(self).wf(),
        ensures
            final(self).wf(),
            nonce_marked(old(self)@, final(self)@, merchant@, nonce),
            final(self)@ == (StorageModel { nonce_trackers: final(self)@.nonce_trackers, ..old(self)@ }),
    {
        let ghost had = self@.nonce_trackers.contains_key(merchant@);
        let mut tracker = match self.nonce_trackers.get(merchant) {
            Some(t) => {
                proof {
                    self.lemma_tracker_wf(merchant@);
                }
                t.duplicate()
            },
            None => NonceTracker::new(),
        };
        let ghost t0 = tracker@;
        proof {
            if !had {
                assert(seq_to_map(t0.nonce_bitmap) =~= Map::<u32, u32>::empty());
                assert forall|n: u32| !nonce_used(t0.nonce_bitmap, n) by {
                    assert(nonce_word(t0.nonce_bitmap, n) == 0);
                    assert(0u32 & (1u32 << (n % 32)) == 0) by (bit_vector);
                }
            }
        }
        tracker.mark_nonce_used(nonce);
        let ghost t = tracker@;
        proof {
            assert(sorted_entries::<u32, u32>(t.nonce_bitmap));
        }
        self.nonce_trackers.set(merchant.duplicate(), tracker);
        proof {
            assert forall|k: Seq<u8>| #[trigger] self@.nonce_trackers.contains_key(k) implies sorted_entries::<u32, u32>(
                self@.nonce_trackers[k].nonce_bitmap,
            ) by {
                if k != merchant@ {
                    assert(old(self)@.nonce_trackers.contains_key(k));
                }
            }
            assert forall|m: Seq<u8>, n: u32|
                #![trigger spec_nonce_used(self@, m, n)]
                spec_nonce_used(self@, m, n) == ((m == merchant@ && n == nonce) || spec_nonce_used(old(self)@, m, n)) by {
                if m == merchant@ {
                    assert(nonce_used(t.nonce_bitmap, n) == (n == nonce || nonce_used(t0.nonce_bitmap, n)));
                }
            }
        }
    }

    /// Records that orders of `merchant` have used each nonce of `nonces`.
    pub fn batch_mark_nonces_used(&mut self, merchant: &Address, nonces: &Vec<u32>)
        requires
            old(self).wf(),
        ensures
            final(self).wf(),
            forall|m: Seq<u8>, n: u32|
                #![trigger spec_nonce_used(final(self)@, m, n)]
                spec_nonce_used(final(self)@, m, n) == ((m == merchant@ && nonces@.contains(n))
                    || spec_nonce_used(old(self)@, m, n)),
            final(self)@ == (StorageModel { nonce_trackers: final(self)@.nonce_trackers, ..old(self)@ }),
    {
        let mut i: usize = 0;
        while i < nonces.len()
            invariant
                i <= nonces.len(),
                self.wf(),
                forall|m: Seq<u8>, n: u32|
                    #![trigger spec_nonce_used(self@, m, n)]
                    spec_nonce_used(self@, m, n) == ((m == merchant@ && nonces@.take(i as int).contains(n))
                        || spec_nonce_used(old(self)@, m, n)),
                self@ == (StorageModel { nonce_trackers: self@.nonce_trackers, ..old(self)@ }),
            decreases nonces.len() - i,
        {
            let ghost before = self@;
            self.mark_nonce_used(merchant, nonces[i]);
            proof {
                assert forall|m: Seq<u8>, n: u32|
                    #![trigger spec_nonce_used(self@, m, n)]
                    spec_nonce_used(self@, m, n) == ((m == merchant@ && nonces@.take(i + 1).contains(n))
                        || spec_nonce_used(old(self)@, m, n)) by {
                    assert(spec_nonce_used(self@, m, n) == ((m == merchant@ && n == nonces@[i as int]) || spec_nonce_used(before, m, n)));
                    if nonces@.take(i as int).contains(n) {
                        let j = choose|j: int| 0 <= j < i && #[trigger] nonces@.take(i as int)[j] == n;
                        assert(nonces@.take(i + 1)[j] == n);
                    }
                    if n == nonces@[i as int] {
                        assert(nonces@.take(i + 1)[i as int] == n);
                    }
                    if nonces@.take(i + 1).contains(n) {
                        let j = choose|j: int| 0 <= j < i + 1 && #[trigger] nonces@.take(i + 1)[j] == n;
                        if j < i {
                            assert(nonces@.take(i as int)[j] == n);
                        }
                    }
                }
            }
            i += 1;
        }
        proof {
            assert(nonces@.take(nonces.len() as int) =~= nonces@);
        }
    }

    pub fn get_nonce_tracker(&self, merchant: &Address) -> (r: Option<NonceTracker>)
        requires
            self.wf(),
        ensures
            match r {
                Some(t) => self@.nonce_trackers.contains_key(merchant@) && t@ == self@.nonce_trackers[merchant@]
                    && t.nonce_bitmap.wf(),
                None => !self@.nonce_trackers.contains_key(merchant@),
            },
    {
        match self.nonce_trackers.get(merchant) {
            Some(t) => Some(t.duplicate()),
            None => None,
        }
    }

    // ===== Multi-signature payments =====

    pub fn save_multisig_payment(&mut self, payment: &MultiSigPayment)
        requires
            old(self).wf(),
            payment.signatures.wf(),
            payment.payment_id <= old(self)@.payment_counter,
        ensures
            final(self).wf(),
            final(self)@ == (StorageModel {
                multisig_payments: old(self)@.multisig_payments.insert(payment.payment_id, payment@),
                ..old(self)@
            }),
    {
        self.multisig_payments.set(payment.payment_id, payment.duplicate());
    }

    pub fn get_multisig_payment(&self, payment_id: u128) -> (r: Result<MultiSigPayment, PaymentError>)
        requires
            self.wf(),
        ensures
            match r {
                Ok(p) => self@.multisig_payments.contains_key(payment_id) && p@ == self@.multisig_payments[payment_id]
                    && p.signatures.wf(),
                Err(e) => !self@.multisig_payments.contains_key(payment_id) && e == PaymentError::PaymentNotFound,
            },
    {
        match self.multisig_payments.get(&payment_id) {
            Some(p) => Ok(p.duplicate()),
            None => Err(PaymentError::PaymentNotFound),
        }
    }

    pub fn remove_multisig_payment(&mut self, payment_id: u128)
        requires
            old(self).wf(),
        ensures
            final(self).wf(),
            final(self)@ == (StorageModel {
                multisig_payments: old(self)@.multisig_payments.remove(payment_id),
                ..old(self)@
            }),
    {
        let _ = self.multisig_payments.remove(&payment_id);
    }

    /// Archives the record of an executed or cancelled payment.
    pub fn archive_payment(&mut self, record: &MultiSigPaymentRecord)
        requires
            old(self).wf(),
            record.payment_id <= old(self)@.payment_counter,
        ensures
            final(self).wf(),
            final(self)@ == (StorageModel {
                payment_history: old(self)@.payment_history.insert(record.payment_id, record@),
                ..old(self)@
            }),
    {
        self.payment_history.set(record.payment_id, record.duplicate());
    }

    pub fn get_payment_record(&self, payment_id: u128) -> (r: Option<MultiSigPaymentRecord>)
        requires
            self.wf(),
        ensures
            match r {
                Some(p) => self@.payment_history.contains_key(payment_id) && p@ == self@.payment_history[payment_id],
                None => !self@.payment_history.contains_key(payment_id),
            },
    {
        match self.payment_history.get(&payment_id) {
            Some(p) => Some(p.duplicate()),
            None => None,
        }
    }

    /// Advances the payment counter and returns its new value.
    pub fn get_next_payment_id(&mut self) -> (id: u128)
        requires
            old(self).wf(),
            old(self).payment_counter < u128::MAX,
        ensures
            final(self).wf(),
            id == old(self).payment_counter + 1,
            final(self)@ == (StorageModel { payment_counter: id, ..old(self)@ }),
    {
        let next_id = self.payment_counter + 1;
        self.payment_counter = next_id;
        next_id
    }

    // ===== Payment records =====

    pub fn save_payment(&mut self, record: &PaymentRecord)
        requires
            old(self).wf(),
        ensures
            final(self).wf(),
            final(self)@ == (StorageModel {
                payments: old(self)@.payments.insert(record@.order_id, record@),
                ..old(self)@
            }),
    {
        self.payments.set(record.order_id.duplicate(), record.duplicate());
    }

    pub fn get_payment(&self, order_id: &Vec<u8>) -> (r: Result<PaymentRecord, PaymentError>)
        requires
            self.wf(),
        ensures
            match r {
                Ok(p) => self@.payments.contains_key(order_id@) && p@ == self@.payments[order_id@],
                Err(e) => !self@.payments.contains_key(order_id@) && e == PaymentError::PaymentNotFound,
            },
    {
        proof {
            assert(order_id.deep_view() =~= order_id@);
        }
        match self.payments.get(order_id) {
            Some(p) => Ok(p.duplicate()),
            None => Err(PaymentError::PaymentNotFound),
        }
    }

    pub fn update_payment(&mut self, record: &PaymentRecord)
        requires
            old(self).wf(),
        ensures
            final(self).wf(),
            final(self)@ == (StorageModel {
                payments: old(self)@.payments.insert(record@.order_id, record@),
                ..old(self)@
            }),
    {
        self.payments.set(record.order_id.duplicate(), record.duplicate());
    }

    // ===== Refund requests =====

    pub fn save_refund(&mut self, request: &RefundRequest)
        requires
            old(self).wf(),
        ensures
            final(self).wf(),
            final(self)@ == (StorageModel {
                refunds: old(self)@.refunds.insert(request@.refund_id, request@),
                ..old(self)@
            }),
    {
        self.refunds.set(request.refund_id.duplicate(), request.duplicate());
    }

    pub fn get_refund(&self, refund_id: &Vec<u8>) -> (r: Result<RefundRequest, PaymentError>)
        requires
            self.wf(),
        ensures
            match r {
                Ok(q) => self@.refunds.contains_key(refund_id@) && q@ == self@.refunds[refund_id@],
                Err(e) => !self@.refunds.contains_key(refund_id@) && e == PaymentError::RefundNotFound,
            },
    {
        proof {
            assert(refund_id.deep_view() =~= refund_id@);
        }
        match self.refunds.get(refund_id) {
            Some(q) => Ok(q.duplicate()),
            None => Err(PaymentError::RefundNotFound),
        }
    }

    pub fn update_refund(&mut self, request: &RefundRequest)
        requires
            old(self).wf(),
        ensures
            final(self).wf(),
            final(self)@ == (StorageModel {
                refunds: old(self)@.refunds.insert(request@.refund_id, request@),
                ..old(self)@
            }),
    {
        self.refunds.set(request.refund_id.duplicate(), request.duplicate());
    }

    // ===== Admin and fees =====

    pub fn set_admin(&mut self, admin: &Address)
        requires
            old(self).wf(),
        ensures
            final(self).wf(),
            final(self)@ == (StorageModel { admin: Some(admin@), ..old(self)@ }),
    {
        self.admin = Some(admin.duplicate());
    }

    /// Succeeds when `admin` is the stored admin.
    pub fn require_admin(&self, admin: &Address) -> (r: Result<(), PaymentError>)
        ensures
            r == spec_require_admin(self@, admin@),
    {
        match &self.admin {
            None => Err(PaymentError::AdminNotFound),
            Some(stored) => {
                if !stored.same_as(admin) {
                    return Err(PaymentError::NotAuthorized);
                }
                Ok(())
            },
        }
    }

    /// Stores `fee` if `admin` is the stored admin and the rate is at most 10
    /// percent.
    pub fn set_fee_info(&mut self, fee: &Fee, admin: &Address) -> (r: Result<(), PaymentError>)
        requires
            old(self).wf(),
        ensures
            final(self).wf(),
            r == spec_set_fee_result(old(self)@, fee@, admin@),
            r is Ok ==> final(self)@ == (StorageModel { fee: Some(fee@), ..old(self)@ }),
            r is Err ==> final(self)@ == old(self)@,
    {
        match self.require_admin(admin) {
            Err(e) => return Err(e),
            Ok(()) => {},
        }
        if fee.fee_rate > MAX_FEE_RATE {
            return Err(PaymentError::InvalidFeeRate);
        }
        self.fee = Some(fee.duplicate());
        Ok(())
    }

    /// The stored fee rate, zero when no fee is set.
    pub fn get_fee_rate(&self) -> (r: u64)
        ensures
            r == spec_fee_rate(self@),
    {
        match &self.fee {
            Some(f) => f.fee_rate,
            None => 0,
        }
    }

    pub fn get_fee_collector(&self) -> (r: Option<Address>)
        ensures
            r.deep_view() == match self@.fee {
                Some(f) => Some(f.fee_collector),
                None => None,
            },
    {
        match &self.fee {
            Some(f) => Some(f.fee_collector.duplicate()),
            None => None,
        }
    }

    pub fn get_fee_token(&self) -> (r: Option<Address>)
        ensures
            r.deep_view() == match self@.fee {
                Some(f) => Some(f.fee_token),
                None => None,
            },
    {
        match &self.fee {
            Some(f) => Some(f.fee_token.duplicate()),
            None => None,
        }
    }

    /// The fee on `amount` at the stored rate, rounded toward zero.
    pub fn calculate_fee(&self, amount: i128) -> (fee: i128)
        requires
            self.wf(),
        ensures
            fee == spec_fee(amount as int, spec_fee_rate(self@) as int),
    {
        let rate = self.get_fee_rate() as i128;
        let quotient = amount / 100;
        let remainder = amount % 100;
        proof {
            let a: int = if amount >= 0 { amount as int } else { -(amount as int) };
            let q = a / 100;
            let r = a % 100;
            assert(0 <= rate <= 10);
            lemma_fee_formula(a, rate as int);
            if amount >= 0 {
                assert(quotient == q && remainder == r);
            } else {
                assert(quotient == -q && remainder == -r);
            }
            assert(0 <= q <= 0x1_0000_0000_0000_0000_0000_0000_0000_0000int / 100);
            assert(0 <= q * rate <= q * 10) by (nonlinear_arith)
                requires
                    0 <= q,
                    0 <= rate <= 10,
            ;
            assert(0 <= r * rate <= 99 * 10) by (nonlinear_arith)
                requires
                    0 <= r < 100,
                    0 <= rate <= 10,
            ;
            assert(quotient * rate == if amount >= 0 { q * rate } else { -(q * rate) }) by (nonlinear_arith)
                requires
                    quotient == (if amount >= 0 { q } else { -q }),
            ;
            assert(remainder * rate == if amount >= 0 { r * rate } else { -(r * rate) }) by (nonlinear_arith)
                requires
                    remainder == (if amount >= 0 { r } else { -r }),
            ;
        }
        quotient * rate + (remainder * rate) / 100
    }

    pub fn get_admin(&self) -> (r: Option<Address>)
        ensures
            r.deep_view() == self@.admin,
    {
        match &self.admin {
            Some(a) => Some(a.duplicate()),
            None => None,
        }
    }

    pub fn get_payments_map(&self) -> (t: &Table<Vec<u8>, PaymentRecord>)
        ensures
            t.map() == self@.payments,
            t.entries_view() == self.payments.entries_view(),
    {
        &self.payments
    }
}

/// Succeeds when `admin` is the stored admin.
pub open spec fn spec_require_admin(m: StorageModel, admin: Seq<u8>) -> Result<(), PaymentError> {
    match m.admin {
        None => Err(PaymentError::AdminNotFound),
        Some(a) => if a == admin { Ok(()) } else { Err(PaymentError::NotAuthorized) },
    }
}

/// The outcome of setting the fee.
pub open spec fn spec_set_fee_result(m: StorageModel, fee: FeeModel, admin: Seq<u8>) -> Result<(), PaymentError> {
    match spec_require_admin(m, admin) {
        Err(e) => Err(e),
        Ok(()) => if fee.fee_rate > MAX_FEE_RATE { Err(PaymentError::InvalidFeeRate) } else { Ok(()) },
    }
}

/// `merchants` after storing each entry of `data`, in order.
pub open spec fn merchants_inserted(
    merchants: Map<Seq<u8>, MerchantModel>,
    data: Seq<(Seq<u8>, MerchantModel)>,
) -> Map<Seq<u8>, MerchantModel>
    decreases data.len(),
{
    if data.len() == 0 {
        merchants
    } else {
        merchants_inserted(merchants, data.drop_last()).insert(data.last().0, data.last().1)
    }
}

// ===== Payment indices and queries =====

/// `index` after appending `order_id` to the list under `key`.
pub open spec fn index_appended(
    index: Map<Seq<u8>, Seq<Seq<u8>>>,
    key: Seq<u8>,
    order_id: Seq<u8>,
) -> Map<Seq<u8>, Seq<Seq<u8>>> {
    index.insert(key, index_list(index, key).push(order_id))
}

/// The list under `key`, empty when there is none.
pub open spec fn index_list(index: Map<Seq<u8>, Seq<Seq<u8>>>, key: Seq<u8>) -> Seq<Seq<u8>> {
    if index.contains_key(key) {
        index[key]
    } else {
        Seq::empty()
    }
}

/// `index` after dropping `order_id` from the list under `key`; a list
/// left empty is removed.
pub open spec fn index_without(
    index: Map<Seq<u8>, Seq<Seq<u8>>>,
    key: Seq<u8>,
    order_id: Seq<u8>,
) -> Map<Seq<u8>, Seq<Seq<u8>>> {
    if index.contains_key(key) {
        let rest = index[key].filter(|id: Seq<u8>| id != order_id);
        if rest.len() > 0 {
            index.insert(key, rest)
        } else {
            index.remove(key)
        }
    } else {
        index
    }
}

/// The records of the ids that have one, in the order of `ids`.
pub open spec fn ids_to_records(ids: Seq<Seq<u8>>, payments: Map<Seq<u8>, PaymentRecordModel>) -> Seq<PaymentRecordModel>
    decreases ids.len(),
{
    if ids.len() == 0 {
        Seq::empty()
    } else {
        let rest = ids_to_records(ids.drop_last(), payments);
        if payments.contains_key(ids.last()) {
            rest.push(payments[ids.last()])
        } else {
            rest
        }
    }
}

/// The records of the first ids that have one, at most `limit` of them.
pub open spec fn first_records(ids: Seq<Seq<u8>>, payments: Map<Seq<u8>, PaymentRecordModel>, limit: int) -> Seq<PaymentRecordModel>
    decreases ids.len(),
{
    if ids.len() == 0 || limit <= 0 {
        Seq::empty()
    } else if payments.contains_key(ids[0]) {
        seq![payments[ids[0]]] + first_records(ids.drop_first(), payments, limit - 1)
    } else {
        first_records(ids.drop_first(), payments, limit)
    }
}

/// A page of the records of `ids`: the ids past the first `offset` are
/// looked up in order, and the records found are taken until there are
/// `limit` of them (at least one, when `limit` is zero).
pub open spec fn spec_page(ids: Seq<Seq<u8>>, payments: Map<Seq<u8>, PaymentRecordModel>, limit: u32, offset: u32) -> Seq<PaymentRecordModel> {
    let rest = if offset < ids.len() { ids.skip(offset as int) } else { Seq::empty() };
    first_records(rest, payments, if limit == 0 { 1 } else { limit as int })
}

/// A record passes the filter.
pub open spec fn record_matches(r: PaymentRecordModel, f: PaymentQueryFilterModel) -> bool {
    &&& f.date_start matches Some(s) ==> r.paid_at >= s
    &&& f.date_end matches Some(e) ==> r.paid_at <= e
    &&& f.amount_min matches Some(a) ==> r.amount >= a
    &&& f.amount_max matches Some(a) ==> r.amount <= a
    &&& f.token matches Some(t) ==> r.token == t
    &&& f.status != PaymentRecordStatus::Any ==> spec_record_status(r) == f.status
}

/// The records of `ids` that pass the filter, in the order of `ids`.
pub open spec fn filtered_records(
    ids: Seq<Seq<u8>>,
    payments: Map<Seq<u8>, PaymentRecordModel>,
    f: PaymentQueryFilterModel,
) -> Seq<PaymentRecordModel>
    decreases ids.len(),
{
    if ids.len() == 0 {
        Seq::empty()
    } else {
        let rest = filtered_records(ids.drop_last(), payments, f);
        if payments.contains_key(ids.last()) && record_matches(payments[ids.last()], f) {
            rest.push(payments[ids.last()])
        } else {
            rest
        }
    }
}

impl Storage {
    fn append_to_index(index: &mut Table<Address, Vec<Vec<u8>>>, key: &Address, order_id: &Vec<u8>)
        requires
            old(index).wf(),
        ensures
            final(index).wf(),
            final(index).map() == index_appended(old(index).map(), key@, order_id@),
    {
        let mut order_ids: Vec<Vec<u8>> = match index.get(key) {
            Some(ids) => ids.duplicate(),
            None => Vec::new(),
        };
        let ghost before = order_ids.deep_view();
        proof {
            assert(before =~= index_list(old(index).map(), key@));
        }
        order_ids.push(order_id.duplicate());
        proof {
            assert(order_ids.deep_view() =~= before.push(order_id@));
        }
        index.set(key.duplicate(), order_ids);
    }

    fn index_list_of(index: &Table<Address, Vec<Vec<u8>>>, key: &Address) -> (ids: Vec<Vec<u8>>)
        requires
            index.wf(),
        ensures
            ids.deep_view() == index_list(index.map(), key@),
    {
        match index.get(key) {
            Some(ids) => ids.duplicate(),
            None => {
                let ids: Vec<Vec<u8>> = Vec::new();
                proof {
                    assert(ids.deep_view() =~= Seq::<Seq<u8>>::empty());
                }
                ids
            },
        }
    }

    fn remove_from_index(index: &mut Table<Address, Vec<Vec<u8>>>, key: &Address, order_id: &Vec<u8>)
        requires
            old(index).wf(),
        ensures
            final(index).wf(),
            final(index).map() == index_without(old(index).map(), key@, order_id@),
    {
        let ghost pred = |id: Seq<u8>| id != order_id@;
        let order_ids = match index.get(key) {
            Some(ids) => ids.duplicate(),
            None => return,
        };
        let ghost ids = order_ids.deep_view();
        let mut new_order_ids: Vec<Vec<u8>> = Vec::new();
        let mut i: usize = 0;
        while i < order_ids.len()
            invariant
                i <= order_ids.len(),
                ids == order_ids.deep_view(),
                pred == (|id: Seq<u8>| id != order_id@),
                new_order_ids.deep_view() == ids.take(i as int).filter(pred),
            decreases order_ids.len() - i,
        {
            proof {
                assert(ids.take(i + 1).drop_last() =~= ids.take(i as int));
                reveal(Seq::filter);
            }
            if !crate::table::bytes_equal(&order_ids[i], order_id) {
                let ghost pre = new_order_ids.deep_view();
                new_order_ids.push(order_ids[i].duplicate());
                proof {
                    assert(ids[i as int] == order_ids@[i as int]@);
                    assert(pred(ids[i as int]));
                    assert(new_order_ids.deep_view() =~= pre.push(ids[i as int]));
                }
            } else {
                proof {
                    assert(ids[i as int] == order_ids@[i as int]@);
                    assert(!pred(ids[i as int]));
                }
            }
            proof {
                assert(ids.take(i + 1).filter(pred) == if pred(ids[i as int]) {
                    ids.take(i as int).filter(pred).push(ids[i as int])
                } else {
                    ids.take(i as int).filter(pred)
                }) by {
                    reveal(Seq::filter);
                    assert(ids.take(i + 1).drop_last() =~= ids.take(i as int));
                }
            }
            i += 1;
        }
        proof {
            assert(ids.take(ids.len() as int) =~= ids);
        }
        if new_order_ids.len() > 0 {
            index.set(key.duplicate(), new_order_ids);
        } else {
            let _ = index.remove(key);
        }
    }

    pub fn save_merchant_payment_index(&mut self, merchant: &Address, order_id: &Vec<u8>)
        requires
            old(self).wf(),
        ensures
            final(self).wf(),
            final(self)@ == (StorageModel {
                merchant_payment_indices: index_appended(old(self)@.merchant_payment_indices, merchant@, order_id@),
                ..old(self)@
            }),
    {
        Self::append_to_index(&mut self.merchant_payment_indices, merchant, order_id);
    }

    pub fn save_payer_payment_index(&mut self, payer: &Address, order_id: &Vec<u8>)
        requires
            old(self).wf(),
        ensures
            final(self).wf(),
            final(self)@ == (StorageModel {
                payer_payment_indices: index_appended(old(self)@.payer_payment_indices, payer@, order_id@),
                ..old(self)@
            }),
    {
        Self::append_to_index(&mut self.payer_payment_indices, payer, order_id);
    }

    pub fn save_token_payment_index(&mut self, token: &Address, order_id: &Vec<u8>)
        requires
            old(self).wf(),
        ensures
            final(self).wf(),
            final(self)@ == (StorageModel {
                token_payment_indices: index_appended(old(self)@.token_payment_indices, token@, order_id@),
                ..old(self)@
            }),
    {
        Self::append_to_index(&mut self.token_payment_indices, token, order_id);
    }

    /// Adds a new payment to the merchant, payer and token indices.
    pub fn index_payment(&mut self, record: &PaymentRecord)
        requires
            old(self).wf(),
        ensures
            final(self).wf(),
            final(self)@ == (StorageModel {
                merchant_payment_indices: index_appended(old(self)@.merchant_payment_indices, record@.merchant_address, record@.order_id),
                payer_payment_indices: index_appended(old(self)@.payer_payment_indices, record@.payer_address, record@.order_id),
                token_payment_indices: index_appended(old(self)@.token_payment_indices, record@.token, record@.order_id),
                ..old(self)@
            }),
    {
        self.save_merchant_payment_index(&record.merchant_address, &record.order_id);
        self.save_payer_payment_index(&record.payer_address, &record.order_id);
        self.save_token_payment_index(&record.token, &record.order_id);
    }

    pub fn get_merchant_payment_indices(&self, merchant: &Address) -> (ids: Vec<Vec<u8>>)
        requires
            self.wf(),
        ensures
            ids.deep_view() == index_list(self@.merchant_payment_indices, merchant@),
    {
        Self::index_list_of(&self.merchant_payment_indices, merchant)
    }

    pub fn get_payer_payment_indices(&self, payer: &Address) -> (ids: Vec<Vec<u8>>)
        requires
            self.wf(),
        ensures
            ids.deep_view() == index_list(self@.payer_payment_indices, payer@),
    {
        Self::index_list_of(&self.payer_payment_indices, payer)
    }

    pub fn get_token_payment_indices(&self, token: &Address) -> (ids: Vec<Vec<u8>>)
        requires
            self.wf(),
        ensures
            ids.deep_view() == index_list(self@.token_payment_indices, token@),
    {
        Self::index_list_of(&self.token_payment_indices, token)
    }

    pub fn remove_merchant_payment_index(&mut self, merchant: &Address, order_id: &Vec<u8>)
        requires
            old(self).wf(),
        ensures
            final(self).wf(),
            final(self)@ == (StorageModel {
                merchant_payment_indices: index_without(old(self)@.merchant_payment_indices, merchant@, order_id@),
                ..old(self)@
            }),
    {
        Self::remove_from_index(&mut self.merchant_payment_indices, merchant, order_id);
    }

    pub fn remove_payer_payment_index(&mut self, payer: &Address, order_id: &Vec<u8>)
        requires
            old(self).wf(),
        ensures
            final(self).wf(),
            final(self)@ == (StorageModel {
                payer_payment_indices: index_without(old(self)@.payer_payment_indices, payer@, order_id@),
                ..old(self)@
            }),
    {
        Self::remove_from_index(&mut self.payer_payment_indices, payer, order_id);
    }

    /// The stored records of `order_ids` that pass `filter`, in the order of
    /// `order_ids`.
    pub fn query_payments_with_filters(&self, order_ids: &Vec<Vec<u8>>, filter: &PaymentQueryFilter) -> (r: Vec<PaymentRecord>)
        requires
            self.wf(),
        ensures
            r.deep_view() == filtered_records(order_ids.deep_view(), self@.payments, filter@),
    {
        let ghost ids = order_ids.deep_view();
        let mut results: Vec<PaymentRecord> = Vec::new();
        let mut i: usize = 0;
        while i < order_ids.len()
            invariant
                i <= order_ids.len(),
                self.wf(),
                ids == order_ids.deep_view(),
                results.deep_view() == filtered_records(ids.take(i as int), self@.payments, filter@),
            decreases order_ids.len() - i,
        {
            proof {
                assert(ids.take(i + 1).drop_last() =~= ids.take(i as int));
                assert(ids.take(i + 1).last() == ids[i as int]);
            }
            match self.get_payment(&order_ids[i]) {
                Ok(record) => {
                    proof {
                        assert(order_ids@[i as int]@ == ids[i as int]);
                    }
                    if Self::record_passes(&record, filter) {
                        let ghost pre = results.deep_view();
                        results.push(record);
                        proof {
                            assert(results.deep_view() =~= pre.push(self@.payments[ids[i as int]]));
                        }
                    }
                },
                Err(_) => {
                    proof {
                        assert(order_ids@[i as int]@ == ids[i as int]);
                    }
                },
            }
            i += 1;
        }
        proof {
            assert(ids.take(ids.len() as int) =~= ids);
        }
        results
    }

    fn record_passes(record: &PaymentRecord, filter: &PaymentQueryFilter) -> (b: bool)
        ensures
            b == record_matches(record@, filter@),
    {
        if let Some(date_start) = filter.date_start {
            if record.paid_at < date_start {
                return false;
            }
        }
        if let Some(date_end) = filter.date_end {
            if record.paid_at > date_end {
                return false;
            }
        }
        if let Some(amount_min) = filter.amount_min {
            if record.amount < amount_min {
                return false;
            }
        }
        if let Some(amount_max) = filter.amount_max {
            if record.amount > amount_max {
                return false;
            }
        }
        if let Some(token) = &filter.token {
            if !record.token.same_as(token) {
                return false;
            }
        }
        if filter.status != PaymentRecordStatus::Any {
            if record.get_status() != filter.status {
                return false;
            }
        }
        true
    }

    /// A page of the stored records of `order_ids`: see [`spec_page`].
    pub fn page_of_records(&self, order_ids: &Vec<Vec<u8>>, limit: u32, offset: u32) -> (r: Vec<PaymentRecord>)
        requires
            self.wf(),
        ensures
            r.deep_view() == spec_page(order_ids.deep_view(), self@.payments, limit, offset),
    {
        let ghost ids = order_ids.deep_view();
        let start: usize = if (offset as usize) < order_ids.len() { offset as usize } else { order_ids.len() };
        let lim: u32 = if limit == 0 { 1 } else { limit };
        let ghost total = spec_page(ids, self@.payments, limit, offset);
        proof {
            if (offset as usize) >= order_ids.len() {
                assert(ids.skip(start as int) =~= Seq::<Seq<u8>>::empty());
            }
        }
        let mut results: Vec<PaymentRecord> = Vec::new();
        let mut count: u32 = 0;
        let mut i: usize = start;
        while i < order_ids.len()
            invariant
                start <= i <= order_ids.len(),
                self.wf(),
                ids == order_ids.deep_view(),
                count == results.len(),
                count < lim,
                lim == if limit == 0 { 1 } else { limit },
                total == spec_page(ids, self@.payments, limit, offset),
                total == results.deep_view() + first_records(ids.skip(i as int), self@.payments, lim - count),
            decreases order_ids.len() - i,
        {
            let ghost rest = ids.skip(i as int);
            proof {
                assert(rest.drop_first() =~= ids.skip(i + 1));
                assert(rest[0] == ids[i as int]);
                assert(order_ids@[i as int]@ == ids[i as int]);
            }
            match self.get_payment(&order_ids[i]) {
                Ok(record) => {
                    let ghost pre = results.deep_view();
                    results.push(record);
                    count += 1;
                    proof {
                        assert(results.deep_view() =~= pre.push(self@.payments[ids[i as int]]));
                        assert(pre + first_records(rest, self@.payments, lim - (count - 1))
                            =~= results.deep_view() + first_records(ids.skip(i + 1), self@.payments, lim - count));
                    }
                    if count >= lim {
                        proof {
                            assert(first_records(ids.skip(i + 1), self@.payments, lim - count) =~= Seq::<PaymentRecordModel>::empty());
                            assert(total =~= results.deep_view());
                        }
                        return results;
                    }
                },
                Err(_) => {},
            }
            i += 1;
        }
        proof {
            assert(ids.skip(i as int) =~= Seq::<Seq<u8>>::empty());
            assert(total =~= results.deep_view());
        }
        results
    }

    /// A page of the payments a merchant received, in the order they were made.
    pub fn get_merchant_payments(&self, merchant: &Address, limit: u32, offset: u32) -> (r: Vec<PaymentRecord>)
        requires
            self.wf(),
        ensures
            r.deep_view() == spec_page(index_list(self@.merchant_payment_indices, merchant@), self@.payments, limit, offset),
    {
        let ids = self.get_merchant_payment_indices(merchant);
        self.page_of_records(&ids, limit, offset)
    }

    /// A page of the payments a payer made, in the order they were made.
    pub fn get_payer_payments(&self, payer: &Address, limit: u32, offset: u32) -> (r: Vec<PaymentRecord>)
        requires
            self.wf(),
        ensures
            r.deep_view() == spec_page(index_list(self@.payer_payment_indices, payer@), self@.payments, limit, offset),
    {
        let ids = self.get_payer_payment_indices(payer);
        self.page_of_records(&ids, limit, offset)
    }

    pub fn set_cleanup_period(&mut self, period: u64)
        requires
            old(self).wf(),
        ensures
            final(self).wf(),
            final(self)@ == (StorageModel { cleanup_period: period, ..old(self)@ }),
    {
        self.cleanup_period = period;
    }

    /// The payment cleanup period in seconds (365 days unless set).
    pub fn get_cleanup_period(&self) -> (p: u64)
        ensures
            p == self@.cleanup_period,
    {
        self.cleanup_period
    }

    pub fn archive_payment_record(&mut self, record: &PaymentRecord)
        requires
            old(self).wf(),
        ensures
            final(self).wf(),
            final(self)@ == (StorageModel {
                payment_archive: old(self)@.payment_archive.insert(record@.order_id, record@),
                ..old(self)@
            }),
    {
        self.payment_archive.set(record.order_id.duplicate(), record.duplicate());
    }

    pub fn get_archived_payment(&self, order_id: &Vec<u8>) -> (r: Option<PaymentRecord>)
        requires
            self.wf(),
        ensures
            match r {
                Some(p) => self@.payment_archive.contains_key(order_id@) && p@ == self@.payment_archive[order_id@],
                None => !self@.payment_archive.contains_key(order_id@),
            },
    {
        proof {
            assert(order_id.deep_view() =~= order_id@);
        }
        match self.payment_archive.get(order_id) {
            Some(p) => Some(p.duplicate()),
            None => None,
        }
    }
}

} // verus!
