//! Payment history analytics: statistics, daily buckets, archiving, sorting
//! and cursor pagination of payment records.
use vstd::prelude::*;
use crate::address::{Address, list_contains};
use crate::table::bytes_equal;
use crate::table::Duplicate;
use super::storage::{Storage, StorageModel, ids_to_records, index_list, model_wf};
use super::types::{
    MerchantPaymentSummary, MerchantPaymentSummaryModel, PayerPaymentSummary, PayerPaymentSummaryModel,
    PaymentBucket, PaymentBucketModel, PaymentRecord, PaymentRecordModel, PaymentStats, PaymentStatsModel,
    SortField, SortOrder,
};

verus! {

broadcast use crate::table::lemma_bytes_deep_view;

/// `x` clamped to the range of `i128`.
pub open spec fn sat_i128(x: int) -> i128 {
    if x > i128::MAX {
        i128::MAX
    } else if x < i128::MIN {
        i128::MIN
    } else {
        x as i128
    }
}

/// `x` clamped to the range of `u32`.
pub open spec fn sat_u32(x: int) -> u32 {
    if x > u32::MAX {
        u32::MAX
    } else if x < 0 {
        0
    } else {
        x as u32
    }
}

/// `a / b` rounded toward zero, for positive `b`.
pub open spec fn div_toward_zero(a: int, b: int) -> int {
    if a >= 0 {
        a / b
    } else {
        -((-a) / b)
    }
}

/// The sum of the amounts, adding one record at a time and clamping each
/// partial sum to the range of `i128`.
pub open spec fn total_amount(s: Seq<PaymentRecordModel>) -> i128
    decreases s.len(),
{
    if s.len() == 0 {
        0
    } else {
        sat_i128(total_amount(s.drop_last()) + s.last().amount)
    }
}

/// The sum of the refunded amounts, clamped as in [`total_amount`].
pub open spec fn total_refunded(s: Seq<PaymentRecordModel>) -> i128
    decreases s.len(),
{
    if s.len() == 0 {
        0
    } else {
        sat_i128(total_refunded(s.drop_last()) + s.last().refunded_amount)
    }
}

/// The number of records with a refund.
pub open spec fn refunded_count(s: Seq<PaymentRecordModel>) -> nat
    decreases s.len(),
{
    if s.len() == 0 {
        0
    } else {
        refunded_count(s.drop_last()) + if s.last().refunded_amount > 0 { 1nat } else { 0nat }
    }
}

/// The earliest payment time of a non-empty sequence of records.
pub open spec fn min_paid_at(s: Seq<PaymentRecordModel>) -> u64
    decreases s.len(),
{
    if s.len() <= 1 {
        s[0].paid_at
    } else {
        let m = min_paid_at(s.drop_last());
        if s.last().paid_at < m { s.last().paid_at } else { m }
    }
}

/// The latest payment time of a non-empty sequence of records.
pub open spec fn max_paid_at(s: Seq<PaymentRecordModel>) -> u64
    decreases s.len(),
{
    if s.len() <= 1 {
        s[0].paid_at
    } else {
        let m = max_paid_at(s.drop_last());
        if s.last().paid_at > m { s.last().paid_at } else { m }
    }
}

/// The distinct values of `s`, in the order of their first occurrence.
pub open spec fn distinct(s: Seq<Seq<u8>>) -> Seq<Seq<u8>>
    decreases s.len(),
{
    if s.len() == 0 {
        Seq::empty()
    } else {
        let d = distinct(s.drop_last());
        if d.contains(s.last()) { d } else { d.push(s.last()) }
    }
}

/// The statistics over the payments a merchant received, if it received any.
pub open spec fn spec_merchant_stats(m: StorageModel, merchant: Seq<u8>) -> Option<MerchantPaymentSummaryModel> {
    let recs = ids_to_records(index_list(m.merchant_payment_indices, merchant), m.payments);
    if recs.len() == 0 {
        None
    } else {
        let received = total_amount(recs);
        let refunded = total_refunded(recs);
        Some(MerchantPaymentSummaryModel {
            merchant_address: merchant,
            total_received: received,
            payment_count: sat_u32(recs.len() as int),
            refund_count: sat_u32(refunded_count(recs) as int),
            total_refunded: refunded,
            net_received: sat_i128(received - refunded),
            active_since: min_paid_at(recs),
            last_payment: Some(max_paid_at(recs)),
        })
    }
}

/// The statistics over the payments a payer made, if it made any.
pub open spec fn spec_payer_stats(m: StorageModel, payer: Seq<u8>) -> Option<PayerPaymentSummaryModel> {
    let recs = ids_to_records(index_list(m.payer_payment_indices, payer), m.payments);
    if recs.len() == 0 {
        None
    } else {
        Some(PayerPaymentSummaryModel {
            payer_address: payer,
            total_spent: total_amount(recs),
            payment_count: sat_u32(recs.len() as int),
            unique_merchants: sat_u32(distinct(recs.map_values(|r: PaymentRecordModel| party_of(r, true))).len() as int),
            first_payment: Some(min_paid_at(recs)),
            last_payment: Some(max_paid_at(recs)),
        })
    }
}

/// The statistics over a non-empty sequence of records.
pub open spec fn spec_global_stats(recs: Seq<PaymentRecordModel>) -> Option<PaymentStatsModel> {
    if recs.len() == 0 {
        None
    } else {
        let count = sat_u32(recs.len() as int);
        let volume = total_amount(recs);
        Some(PaymentStatsModel {
            total_payments: count,
            total_volume: volume,
            unique_payers: sat_u32(distinct(recs.map_values(|r: PaymentRecordModel| party_of(r, false))).len() as int),
            average_payment: div_toward_zero(volume as int, count as int) as i128,
            first_payment_time: Some(min_paid_at(recs)),
            last_payment_time: Some(max_paid_at(recs)),
        })
    }
}

/// The records of a sequence of table entries.
pub open spec fn entry_records(s: Seq<(Seq<u8>, PaymentRecordModel)>) -> Seq<PaymentRecordModel> {
    s.map_values(|e: (Seq<u8>, PaymentRecordModel)| e.1)
}

/// Adds `a` and `b`, clamping the sum to the range of `i128`.
pub fn saturating_add_i128(a: i128, b: i128) -> (r: i128)
    ensures
        r == sat_i128(a + b),
{
    match a.checked_add(b) {
        Some(s) => s,
        None => if b > 0 { i128::MAX } else { i128::MIN },
    }
}

/// Subtracts `b` from `a`, clamping the difference to the range of `i128`.
pub fn saturating_sub_i128(a: i128, b: i128) -> (r: i128)
    ensures
        r == sat_i128(a - b),
{
    match a.checked_sub(b) {
        Some(s) => s,
        None => if b < 0 { i128::MAX } else { i128::MIN },
    }
}

/// Running totals over a sequence of records.
pub struct RecordTotals {
    pub count: u32,
    pub amount: i128,
    pub refunded: i128,
    pub refunds: u32,
    pub first: u64,
    pub last: u64,
    pub parties: Vec<Address>,
}

/// The totals describe `s`; `party` picks the address whose distinct values
/// are counted.
pub open spec fn totals_of(t: RecordTotals, s: Seq<PaymentRecordModel>, by_merchant: bool) -> bool {
    &&& t.count == sat_u32(s.len() as int)
    &&& t.amount == total_amount(s)
    &&& t.refunded == total_refunded(s)
    &&& t.refunds == sat_u32(refunded_count(s) as int)
    &&& s.len() > 0 ==> t.first == min_paid_at(s) && t.last == max_paid_at(s)
    &&& t.parties.deep_view() == distinct(s.map_values(|r: PaymentRecordModel| party_of(r, by_merchant)))
}

/// The merchant or the payer of a record.
pub open spec fn party_of(r: PaymentRecordModel, by_merchant: bool) -> Seq<u8> {
    if by_merchant { r.merchant_address } else { r.payer_address }
}

impl RecordTotals {
    pub fn new() -> (t: RecordTotals)
        ensures
            totals_of(t, Seq::empty(), true),
            totals_of(t, Seq::empty(), false),
    {
        let t = RecordTotals { count: 0, amount: 0, refunded: 0, refunds: 0, first: 0, last: 0, parties: Vec::new() };
        proof {
            assert(t.parties.deep_view() =~= Seq::<Seq<u8>>::empty());
            assert(Seq::<PaymentRecordModel>::empty().map_values(|r: PaymentRecordModel| party_of(r, true)) =~= Seq::<Seq<u8>>::empty());
            assert(Seq::<PaymentRecordModel>::empty().map_values(|r: PaymentRecordModel| party_of(r, false)) =~= Seq::<Seq<u8>>::empty());
        }
        t
    }

    /// Adds one record to the totals.
    pub fn add(&mut self, r: &PaymentRecord, by_merchant: bool, Ghost(s): Ghost<Seq<PaymentRecordModel>>)
        requires
            totals_of(*old(self), s, by_merchant),
        ensures
            totals_of(*final(self), s.push(r@), by_merchant),
    {
        let ghost t = s.push(r@);
        proof {
            assert(t.drop_last() =~= s);
        }
        let n = self.count;
        self.count = self.count.saturating_add(1);
        self.amount = saturating_add_i128(self.amount, r.amount);
        self.refunded = saturating_add_i128(self.refunded, r.refunded_amount);
        if r.refunded_amount > 0 {
            self.refunds = self.refunds.saturating_add(1);
        }
        if n == 0 {
            self.first = r.paid_at;
            self.last = r.paid_at;
        } else {
            if r.paid_at < self.first {
                self.first = r.paid_at;
            }
            if r.paid_at > self.last {
                self.last = r.paid_at;
            }
        }
        let party = if by_merchant { &r.merchant_address } else { &r.payer_address };
        let ghost ps = s.map_values(|x: PaymentRecordModel| party_of(x, by_merchant));
        proof {
            assert(t.map_values(|x: PaymentRecordModel| party_of(x, by_merchant)).drop_last() =~= ps);
        }
        if !list_contains(&self.parties, party) {
            let ghost pre = self.parties.deep_view();
            self.parties.push(party.duplicate());
            proof {
                assert(self.parties.deep_view() =~= pre.push(party@));
            }
        }
    }
}

impl Storage {
    /// The totals over the stored records of `ids`, in order.
    fn totals_over_ids(&self, ids: &Vec<Vec<u8>>, by_merchant: bool) -> (r: (RecordTotals, Ghost<Seq<PaymentRecordModel>>))
        requires
            self.wf(),
        ensures
            r.1@ == ids_to_records(ids.deep_view(), self@.payments),
            totals_of(r.0, r.1@, by_merchant),
    {
        let ghost all = ids.deep_view();
        let mut t = RecordTotals::new();
        let ghost mut seen: Seq<PaymentRecordModel> = Seq::empty();
        let mut i: usize = 0;
        while i < ids.len()
            invariant
                i <= ids.len(),
                self.wf(),
                all == ids.deep_view(),
                seen == ids_to_records(all.take(i as int), self@.payments),
                totals_of(t, seen, by_merchant),
            decreases ids.len() - i,
        {
            proof {
                assert(all.take(i + 1).drop_last() =~= all.take(i as int));
                assert(all.take(i + 1).last() == ids@[i as int]@);
            }
            match self.get_payment(&ids[i]) {
                Ok(record) => {
                    t.add(&record, by_merchant, Ghost(seen));
                    proof {
                        seen = seen.push(record@);
                    }
                },
                Err(_) => {},
            }
            i += 1;
        }
        proof {
            assert(all.take(ids.len() as int) =~= all);
        }
        (t, Ghost(seen))
    }

    /// Statistics over the payments a merchant received; `None` if it has
    /// received none.
    pub fn get_merchant_stats(&self, merchant: &Address) -> (r: Option<MerchantPaymentSummary>)
        requires
            self.wf(),
        ensures
            r.deep_view() == spec_merchant_stats(self@, merchant@),
    {
        let ids = self.get_merchant_payment_indices(merchant);
        let (t, Ghost(recs)) = self.totals_over_ids(&ids, true);
        if t.count == 0 {
            return None;
        }
        Some(MerchantPaymentSummary {
            merchant_address: merchant.duplicate(),
            total_received: t.amount,
            payment_count: t.count,
            refund_count: t.refunds,
            total_refunded: t.refunded,
            net_received: saturating_sub_i128(t.amount, t.refunded),
            active_since: t.first,
            last_payment: Some(t.last),
        })
    }

    /// Statistics over the payments a payer made; `None` if it made none.
    pub fn get_payer_stats(&self, payer: &Address) -> (r: Option<PayerPaymentSummary>)
        requires
            self.wf(),
        ensures
            r.deep_view() == spec_payer_stats(self@, payer@),
    {
        let ids = self.get_payer_payment_indices(payer);
        let (t, Ghost(recs)) = self.totals_over_ids(&ids, true);
        if t.count == 0 {
            return None;
        }
        proof {
            assert(t.parties.deep_view().len() == t.parties@.len());
        }
        Some(PayerPaymentSummary {
            payer_address: payer.duplicate(),
            total_spent: t.amount,
            payment_count: t.count,
            unique_merchants: if t.parties.len() > u32::MAX as usize { u32::MAX } else { t.parties.len() as u32 },
            first_payment: Some(t.first),
            last_payment: Some(t.last),
        })
    }

    /// Statistics over all stored payments; `None` if there are none.
    pub fn get_global_stats(&self) -> (r: Option<PaymentStats>)
        requires
            self.wf(),
        ensures
            r.deep_view() == spec_global_stats(entry_records(self.payments.entries_view())),
    {
        let ghost entries = self.payments.entries_view();
        let mut t = RecordTotals::new();
        let mut i: usize = 0;
        while i < self.payments.len()
            invariant
                i <= entries.len(),
                entries == self.payments.entries_view(),
                totals_of(t, entry_records(entries.take(i as int)), false),
            decreases entries.len() - i,
        {
            proof {
                assert(entry_records(entries.take(i + 1)) =~= entry_records(entries.take(i as int)).push(entries[i as int].1));
            }
            t.add(self.payments.value_at(i), false, Ghost(entry_records(entries.take(i as int))));
            i += 1;
        }
        proof {
            assert(entries.take(entries.len() as int) =~= entries);
        }
        if t.count == 0 {
            return None;
        }
        let average = t.amount / (t.count as i128);
        proof {
            assert(t.parties.deep_view().len() == t.parties@.len());
        }
        Some(PaymentStats {
            total_payments: t.count,
            total_volume: t.amount,
            unique_payers: if t.parties.len() > u32::MAX as usize { u32::MAX } else { t.parties.len() as u32 },
            average_payment: average,
            first_payment_time: Some(t.first),
            last_payment_time: Some(t.last),
        })
    }
}


// ===== Daily buckets =====

/// The length of a bucket: one day, in seconds.
pub const BUCKET_SECONDS: u64 = 86400;

/// The start of the day that `t` falls in.
pub open spec fn day_start(t: u64) -> u64 {
    (t - t % BUCKET_SECONDS) as u64
}

/// `i` is the first position of `b` that holds the bucket starting at `k`.
pub open spec fn first_bucket_at(b: Seq<PaymentBucketModel>, k: u64, i: int) -> bool {
    &&& 0 <= i < b.len()
    &&& b[i].bucket_timestamp == k
    &&& forall|j: int| 0 <= j < i ==> (#[trigger] b[j]).bucket_timestamp != k
}

/// `b` after counting `r` in the bucket of its day, which is appended when
/// there is none yet.
pub open spec fn add_to_buckets(b: Seq<PaymentBucketModel>, r: PaymentRecordModel) -> Seq<PaymentBucketModel> {
    let k = day_start(r.paid_at);
    if exists|i: int| first_bucket_at(b, k, i) {
        let i = choose|i: int| first_bucket_at(b, k, i);
        b.update(i, PaymentBucketModel {
            bucket_timestamp: k,
            payment_count: sat_u32(b[i].payment_count + 1),
            total_volume: sat_i128(b[i].total_volume + r.amount),
        })
    } else {
        b.push(PaymentBucketModel { bucket_timestamp: k, payment_count: 1, total_volume: r.amount })
    }
}

/// A record was paid between `start` and `end`, both included.
pub open spec fn paid_within(r: PaymentRecordModel, start: u64, end: u64) -> bool {
    start <= r.paid_at && r.paid_at <= end
}

/// The daily buckets of the records paid between `start` and `end`, in the
/// order in which their days first occur.
pub open spec fn spec_time_buckets(recs: Seq<PaymentRecordModel>, start: u64, end: u64) -> Seq<PaymentBucketModel>
    decreases recs.len(),
{
    if recs.len() == 0 {
        Seq::empty()
    } else {
        let b = spec_time_buckets(recs.drop_last(), start, end);
        if paid_within(recs.last(), start, end) {
            add_to_buckets(b, recs.last())
        } else {
            b
        }
    }
}

/// Counts `r` in the bucket of its day: see [`add_to_buckets`].
fn count_in_bucket(buckets: &mut Vec<PaymentBucket>, r: &PaymentRecord)
    ensures
        final(buckets).deep_view() == add_to_buckets(old(buckets).deep_view(), r@),
{
    let k = r.paid_at - r.paid_at % BUCKET_SECONDS;
    let ghost b = buckets.deep_view();
    let mut i: usize = 0;
    while i < buckets.len()
        invariant
            i <= buckets.len(),
            b == buckets.deep_view(),
            b == old(buckets).deep_view(),
            k == day_start(r@.paid_at),
            forall|j: int| 0 <= j < i ==> (#[trigger] b[j]).bucket_timestamp != k,
        decreases buckets.len() - i,
    {
        if buckets[i].bucket_timestamp == k {
            proof {
                assert(b[i as int] == buckets@[i as int].deep_view());
                assert(first_bucket_at(b, k, i as int));
                let c = choose|c: int| first_bucket_at(b, k, c);
                if c < i {
                    assert(b[c].bucket_timestamp != k);
                } else if c > i {
                    assert(b[i as int].bucket_timestamp != k);
                }
            }
            let count = buckets[i].payment_count.saturating_add(1);
            let volume = saturating_add_i128(buckets[i].total_volume, r.amount);
            buckets.set(i, PaymentBucket { bucket_timestamp: k, payment_count: count, total_volume: volume });
            proof {
                assert(buckets.deep_view() =~= add_to_buckets(b, r@));
            }
            return;
        }
        proof {
            assert(b[i as int] == buckets@[i as int].deep_view());
        }
        i += 1;
    }
    buckets.push(PaymentBucket { bucket_timestamp: k, payment_count: 1, total_volume: r.amount });
    proof {
        assert(!exists|c: int| first_bucket_at(b, k, c));
        assert(buckets.deep_view() =~= add_to_buckets(b, r@));
    }
}

impl Storage {
    /// The daily buckets of the stored payments made between `start_time`
    /// and `end_time`, both included: each bucket counts the payments of one
    /// day and sums their amounts, clamped to the range of `i128`.
    pub fn get_payments_by_time_range(&self, start_time: u64, end_time: u64) -> (r: Vec<PaymentBucket>)
        ensures
            r.deep_view() == spec_time_buckets(entry_records(self.payments.entries_view()), start_time, end_time),
    {
        let ghost entries = self.payments.entries_view();
        let mut buckets: Vec<PaymentBucket> = Vec::new();
        let mut i: usize = 0;
        proof {
            assert(buckets.deep_view() =~= spec_time_buckets(entry_records(entries.take(0)), start_time, end_time));
        }
        while i < self.payments.len()
            invariant
                i <= entries.len(),
                entries == self.payments.entries_view(),
                buckets.deep_view() == spec_time_buckets(entry_records(entries.take(i as int)), start_time, end_time),
            decreases entries.len() - i,
        {
            proof {
                assert(entry_records(entries.take(i + 1)).drop_last() =~= entry_records(entries.take(i as int)));
            }
            let r = self.payments.value_at(i);
            if start_time <= r.paid_at && r.paid_at <= end_time {
                count_in_bucket(&mut buckets, r);
            }
            i += 1;
        }
        proof {
            assert(entries.take(entries.len() as int) =~= entries);
        }
        buckets
    }
}


// ===== Archiving =====

/// `archive` after archiving, in order, the records of `recs` paid before
/// `cutoff` that it does not hold yet, until `budget` of them have been
/// archived.
pub open spec fn archived_after(
    archive: Map<Seq<u8>, PaymentRecordModel>,
    recs: Seq<PaymentRecordModel>,
    cutoff: u64,
    budget: int,
) -> Map<Seq<u8>, PaymentRecordModel>
    decreases recs.len(),
{
    if recs.len() == 0 || budget <= 0 {
        archive
    } else if recs[0].paid_at < cutoff && !archive.contains_key(recs[0].order_id) {
        archived_after(archive.insert(recs[0].order_id, recs[0]), recs.drop_first(), cutoff, budget - 1)
    } else {
        archived_after(archive, recs.drop_first(), cutoff, budget)
    }
}

/// The number of records that [`archived_after`] archives.
pub open spec fn archived_count(
    archive: Map<Seq<u8>, PaymentRecordModel>,
    recs: Seq<PaymentRecordModel>,
    cutoff: u64,
    budget: int,
) -> int
    decreases recs.len(),
{
    if recs.len() == 0 || budget <= 0 {
        0
    } else if recs[0].paid_at < cutoff && !archive.contains_key(recs[0].order_id) {
        1 + archived_count(archive.insert(recs[0].order_id, recs[0]), recs.drop_first(), cutoff, budget - 1)
    } else {
        archived_count(archive, recs.drop_first(), cutoff, budget)
    }
}

impl Storage {
    /// Copies into the archive, in order id order, the stored payments made
    /// before `cutoff_time` that are not archived yet, at most `batch_size`
    /// of them, and returns how many it archived. The payments stay stored.
    pub fn compress_old_payments(&mut self, cutoff_time: u64, batch_size: u32) -> (n: u32)
        requires
            old(self).wf(),
        ensures
            final(self).wf(),
            final(self)@ == (StorageModel {
                payment_archive: archived_after(
                    old(self)@.payment_archive,
                    entry_records(old(self).payments.entries_view()),
                    cutoff_time,
                    batch_size as int,
                ),
                ..old(self)@
            }),
            n == archived_count(
                old(self)@.payment_archive,
                entry_records(old(self).payments.entries_view()),
                cutoff_time,
                batch_size as int,
            ),
    {
        let ghost recs = entry_records(self.payments.entries_view());
        let ghost m0 = self@;
        let mut count: u32 = 0;
        let mut i: usize = 0;
        proof {
            assert(recs.skip(0) =~= recs);
        }
        while i < self.payments.len() && count < batch_size
            invariant
                i <= recs.len(),
                self.wf(),
                recs == entry_records(self.payments.entries_view()),
                recs.len() == self.payments.entries_view().len(),
                count <= batch_size,
                model_wf(m0),
                self@ == (StorageModel { payment_archive: self@.payment_archive, ..m0 }),
                archived_after(self@.payment_archive, recs.skip(i as int), cutoff_time, batch_size - count)
                    == archived_after(m0.payment_archive, recs, cutoff_time, batch_size as int),
                count + archived_count(self@.payment_archive, recs.skip(i as int), cutoff_time, batch_size - count)
                    == archived_count(m0.payment_archive, recs, cutoff_time, batch_size as int),
            decreases recs.len() - i,
        {
            let ghost rest = recs.skip(i as int);
            proof {
                assert(rest.drop_first() =~= recs.skip(i + 1));
                assert(rest[0] == self.payments.entries_view()[i as int].1);
            }
            let r = self.payments.value_at(i);
            if r.paid_at < cutoff_time {
                proof {
                    assert(r.order_id.deep_view() =~= r.order_id@);
                }
                if !self.payment_archive.contains_key(&r.order_id) {
                    let id = r.order_id.duplicate();
                    let rec = r.duplicate();
                    self.payment_archive.set(id, rec);
                    count += 1;
                    proof {
                        assert(self@.nonce_trackers == m0.nonce_trackers);
                        assert(self@.multisig_payments == m0.multisig_payments);
                        assert(self@.fee == m0.fee);
                    }
                }
            }
            i += 1;
        }
        proof {
            if count < batch_size {
                assert(recs.skip(i as int) =~= Seq::<PaymentRecordModel>::empty());
            }
        }
        count
    }
}


// ===== Sorting =====

/// The value of a record that a sort on `field` orders by.
pub open spec fn sort_key(r: PaymentRecordModel, field: SortField) -> int {
    match field {
        SortField::Date => r.paid_at as int,
        SortField::Amount => r.amount as int,
    }
}

/// `a` belongs strictly after `b` in the order.
pub open spec fn goes_after(a: PaymentRecordModel, b: PaymentRecordModel, field: SortField, order: SortOrder) -> bool {
    match order {
        SortOrder::Ascending => sort_key(a, field) > sort_key(b, field),
        SortOrder::Descending => sort_key(a, field) < sort_key(b, field),
    }
}

/// Where insertion places `r` in `s`: before the first record that belongs
/// strictly after it, at the end when there is none.
pub open spec fn insert_pos(s: Seq<PaymentRecordModel>, r: PaymentRecordModel, field: SortField, order: SortOrder) -> int
    decreases s.len(),
{
    if s.len() == 0 {
        0
    } else if goes_after(s[0], r, field, order) {
        0
    } else {
        1 + insert_pos(s.drop_first(), r, field, order)
    }
}

/// The records sorted by insertion, one at a time in their given order.
pub open spec fn spec_sorted(recs: Seq<PaymentRecordModel>, field: SortField, order: SortOrder) -> Seq<PaymentRecordModel>
    decreases recs.len(),
{
    if recs.len() == 0 {
        Seq::empty()
    } else {
        let s = spec_sorted(recs.drop_last(), field, order);
        s.insert(insert_pos(s, recs.last(), field, order), recs.last())
    }
}

/// A sequence in the order: no record is followed by one that belongs
/// strictly before it.
pub open spec fn in_order(s: Seq<PaymentRecordModel>, field: SortField, order: SortOrder) -> bool {
    forall|i: int, j: int| 0 <= i < j < s.len() ==> !goes_after(#[trigger] s[i], #[trigger] s[j], field, order)
}

proof fn lemma_insert_pos(s: Seq<PaymentRecordModel>, r: PaymentRecordModel, field: SortField, order: SortOrder, i: int)
    requires
        0 <= i <= s.len(),
        forall|j: int| 0 <= j < i ==> !goes_after(#[trigger] s[j], r, field, order),
        i < s.len() ==> goes_after(s[i], r, field, order),
    ensures
        insert_pos(s, r, field, order) == i,
    decreases i,
{
    if i > 0 {
        assert(!goes_after(s[0], r, field, order));
        let t = s.drop_first();
        assert forall|j: int| 0 <= j < i - 1 implies !goes_after(#[trigger] t[j], r, field, order) by {
            assert(t[j] == s[j + 1]);
        }
        if i - 1 < t.len() {
            assert(t[i - 1] == s[i]);
        }
        lemma_insert_pos(t, r, field, order, i - 1);
    }
}

proof fn lemma_insert_pos_bounds(s: Seq<PaymentRecordModel>, r: PaymentRecordModel, field: SortField, order: SortOrder)
    ensures
        0 <= insert_pos(s, r, field, order) <= s.len(),
        forall|j: int| 0 <= j < insert_pos(s, r, field, order) ==> !goes_after(#[trigger] s[j], r, field, order),
        insert_pos(s, r, field, order) < s.len() ==> goes_after(s[insert_pos(s, r, field, order)], r, field, order),
    decreases s.len(),
{
    if s.len() > 0 && !goes_after(s[0], r, field, order) {
        let t = s.drop_first();
        lemma_insert_pos_bounds(t, r, field, order);
        assert forall|j: int| 0 <= j < insert_pos(s, r, field, order) implies !goes_after(#[trigger] s[j], r, field, order) by {
            if j > 0 {
                assert(s[j] == t[j - 1]);
            }
        }
    }
}

/// Sorting keeps the records: the result is a permutation of the input.
pub proof fn lemma_sorted_permutes(recs: Seq<PaymentRecordModel>, field: SortField, order: SortOrder)
    ensures
        spec_sorted(recs, field, order).to_multiset() == recs.to_multiset(),
        spec_sorted(recs, field, order).len() == recs.len(),
    decreases recs.len(),
{
    if recs.len() > 0 {
        let s = spec_sorted(recs.drop_last(), field, order);
        lemma_sorted_permutes(recs.drop_last(), field, order);
        lemma_insert_pos_bounds(s, recs.last(), field, order);
        let p = insert_pos(s, recs.last(), field, order);
        let t = s.insert(p, recs.last());
        assert(t =~= s.take(p) + seq![recs.last()] + s.skip(p));
        assert(s =~= s.take(p) + s.skip(p));
        vstd::seq_lib::lemma_multiset_commutative(s.take(p) + seq![recs.last()], s.skip(p));
        vstd::seq_lib::lemma_multiset_commutative(s.take(p), seq![recs.last()]);
        vstd::seq_lib::lemma_multiset_commutative(s.take(p), s.skip(p));
        assert(recs =~= recs.drop_last().push(recs.last()));
        recs.drop_last().to_multiset_ensures();
        seq![recs.last()].to_multiset_ensures();
        assert(seq![recs.last()] =~= Seq::<PaymentRecordModel>::empty().push(recs.last()));
        Seq::<PaymentRecordModel>::empty().to_multiset_ensures();
        assert(t.to_multiset() =~= recs.to_multiset());
        assert(spec_sorted(recs, field, order) == t);
    } else {
        assert(recs =~= Seq::<PaymentRecordModel>::empty());
        assert(spec_sorted(recs, field, order) =~= recs);
    }
}

/// Sorting yields a sequence in the order.
pub proof fn lemma_sorted_in_order(recs: Seq<PaymentRecordModel>, field: SortField, order: SortOrder)
    ensures
        in_order(spec_sorted(recs, field, order), field, order),
    decreases recs.len(),
{
    if recs.len() > 0 {
        let s = spec_sorted(recs.drop_last(), field, order);
        let r = recs.last();
        lemma_sorted_in_order(recs.drop_last(), field, order);
        lemma_insert_pos_bounds(s, r, field, order);
        let p = insert_pos(s, r, field, order);
        let t = s.insert(p, r);
        assert forall|i: int, j: int| 0 <= i < j < t.len() implies !goes_after(#[trigger] t[i], #[trigger] t[j], field, order) by {
            if j < p {
                assert(t[i] == s[i] && t[j] == s[j]);
            } else if j == p {
                assert(t[i] == s[i]);
            } else if i > p {
                assert(t[i] == s[i - 1] && t[j] == s[j - 1]);
            } else if i == p {
                assert(t[j] == s[j - 1]);
                assert(goes_after(s[p], r, field, order));
                assert(!goes_after(s[p], s[j - 1], field, order) || j - 1 == p);
            } else {
                assert(t[i] == s[i] && t[j] == s[j - 1]);
            }
        }
    }
}

/// The records of `s` whose sort key on `field` is `k`, in their order.
pub open spec fn records_with_key(s: Seq<PaymentRecordModel>, field: SortField, k: int) -> Seq<PaymentRecordModel>
    decreases s.len(),
{
    if s.len() == 0 {
        Seq::empty()
    } else {
        let t = records_with_key(s.drop_last(), field, k);
        if sort_key(s.last(), field) == k { t.push(s.last()) } else { t }
    }
}

proof fn lemma_with_key_add(a: Seq<PaymentRecordModel>, b: Seq<PaymentRecordModel>, field: SortField, k: int)
    ensures
        records_with_key(a + b, field, k) == records_with_key(a, field, k) + records_with_key(b, field, k),
    decreases b.len(),
{
    if b.len() == 0 {
        assert(a + b =~= a);
        assert(records_with_key(a, field, k) + records_with_key(b, field, k) =~= records_with_key(a, field, k));
    } else {
        assert((a + b).drop_last() =~= a + b.drop_last());
        assert((a + b).last() == b.last());
        lemma_with_key_add(a, b.drop_last(), field, k);
        let ra = records_with_key(a, field, k);
        let rb = records_with_key(b.drop_last(), field, k);
        if sort_key(b.last(), field) == k {
            assert((ra + rb).push(b.last()) =~= ra + rb.push(b.last()));
        }
    }
}

proof fn lemma_with_key_none(s: Seq<PaymentRecordModel>, field: SortField, k: int)
    requires
        forall|j: int| 0 <= j < s.len() ==> sort_key(#[trigger] s[j], field) != k,
    ensures
        records_with_key(s, field, k) == Seq::<PaymentRecordModel>::empty(),
    decreases s.len(),
{
    if s.len() > 0 {
        assert(sort_key(s[s.len() - 1], field) != k);
        lemma_with_key_none(s.drop_last(), field, k);
    }
}

/// Sorting is stable: the records that share a sort key come out in the
/// order they went in.
pub proof fn law_sort_is_stable(recs: Seq<PaymentRecordModel>, field: SortField, order: SortOrder, k: int)
    ensures
        records_with_key(spec_sorted(recs, field, order), field, k) == records_with_key(recs, field, k),
    decreases recs.len(),
{
    if recs.len() > 0 {
        let s = spec_sorted(recs.drop_last(), field, order);
        let x = recs.last();
        law_sort_is_stable(recs.drop_last(), field, order, k);
        lemma_sorted_in_order(recs.drop_last(), field, order);
        lemma_insert_pos_bounds(s, x, field, order);
        let p = insert_pos(s, x, field, order);
        let t = s.insert(p, x);
        assert(t =~= s.take(p) + seq![x] + s.skip(p));
        assert(s =~= s.take(p) + s.skip(p));
        lemma_with_key_add(s.take(p) + seq![x], s.skip(p), field, k);
        lemma_with_key_add(s.take(p), seq![x], field, k);
        lemma_with_key_add(s.take(p), s.skip(p), field, k);
        assert(seq![x].drop_last() =~= Seq::<PaymentRecordModel>::empty());
        assert(records_with_key(Seq::<PaymentRecordModel>::empty(), field, k) =~= Seq::<PaymentRecordModel>::empty());
        let rx = records_with_key(seq![x], field, k);
        assert(rx =~= if sort_key(x, field) == k { seq![x] } else { Seq::<PaymentRecordModel>::empty() });
        assert(spec_sorted(recs, field, order) == t);
        assert(recs.drop_last().push(x) =~= recs);
        let rt = records_with_key(s.take(p), field, k);
        let rs = records_with_key(s.skip(p), field, k);
        assert(records_with_key(t, field, k) == rt + rx + rs);
        assert(records_with_key(s, field, k) == rt + rs);
        if sort_key(x, field) == k {
            let u = s.skip(p);
            assert forall|j: int| 0 <= j < u.len() implies sort_key(#[trigger] u[j], field) != k by {
                assert(u[j] == s[p + j]);
                assert(goes_after(s[p], x, field, order));
                if j > 0 {
                    assert(!goes_after(s[p], s[p + j], field, order));
                }
            }
            lemma_with_key_none(u, field, k);
            assert(rt + seq![x] + Seq::<PaymentRecordModel>::empty() =~= rt.push(x));
            assert(rt + Seq::<PaymentRecordModel>::empty() =~= rt);
        } else {
            assert(rt + Seq::<PaymentRecordModel>::empty() =~= rt);
        }
    }
}

/// The exec form of [`goes_after`].
fn record_goes_after(a: &PaymentRecord, b: &PaymentRecord, field: &SortField, order: &SortOrder) -> (r: bool)
    ensures
        r == goes_after(a@, b@, *field, *order),
{
    match field {
        SortField::Date => match order {
            SortOrder::Ascending => a.paid_at > b.paid_at,
            SortOrder::Descending => a.paid_at < b.paid_at,
        },
        SortField::Amount => match order {
            SortOrder::Ascending => a.amount > b.amount,
            SortOrder::Descending => a.amount < b.amount,
        },
    }
}

impl Storage {
    /// The records sorted on `field` in the direction `order` by insertion:
    /// records with equal keys keep their given order.
    pub fn sort_payments(&self, records: Vec<PaymentRecord>, field: &SortField, order: &SortOrder) -> (r: Vec<PaymentRecord>)
        ensures
            r.deep_view() == spec_sorted(records.deep_view(), *field, *order),
    {
        let ghost recs = records.deep_view();
        let mut sorted: Vec<PaymentRecord> = Vec::new();
        let mut i: usize = 0;
        proof {
            assert(recs.take(0) =~= Seq::<PaymentRecordModel>::empty());
            assert(sorted.deep_view() =~= Seq::<PaymentRecordModel>::empty());
        }
        while i < records.len()
            invariant
                i <= records.len(),
                recs == records.deep_view(),
                sorted.deep_view() == spec_sorted(recs.take(i as int), *field, *order),
            decreases records.len() - i,
        {
            let ghost s = sorted.deep_view();
            let record = records[i].duplicate();
            proof {
                assert(recs.take(i + 1).drop_last() =~= recs.take(i as int));
                assert(recs.take(i + 1).last() == record@);
            }
            let mut p: usize = 0;
            while p < sorted.len()
                invariant
                    p <= sorted.len(),
                    s == sorted.deep_view(),
                    forall|j: int| 0 <= j < p ==> !goes_after(#[trigger] s[j], record@, *field, *order),
                ensures
                    p <= sorted.len(),
                    s == sorted.deep_view(),
                    forall|j: int| 0 <= j < p ==> !goes_after(#[trigger] s[j], record@, *field, *order),
                    p < sorted.len() ==> goes_after(s[p as int], record@, *field, *order),
                decreases sorted.len() - p,
            {
                if record_goes_after(&sorted[p], &record, field, order) {
                    proof {
                        assert(s[p as int] == sorted@[p as int]@);
                    }
                    break;
                }
                proof {
                    assert(s[p as int] == sorted@[p as int]@);
                }
                p += 1;
            }
            proof {
                lemma_insert_pos(s, record@, *field, *order, p as int);
            }
            let ghost pre = sorted@;
            sorted.insert(p, record);
            proof {
                assert(sorted.deep_view() =~= s.insert(p as int, recs[i as int])) by {
                    pre.insert_ensures(p as int, records@[i as int]);
                };
            }
            i += 1;
        }
        proof {
            assert(recs.take(records.len() as int) =~= recs);
        }
        sorted
    }
}


// ===== Cursor pagination =====

/// One past the position of the first record with order id `cursor`; zero
/// when no record has it.
pub open spec fn cursor_start(recs: Seq<PaymentRecordModel>, cursor: Seq<u8>) -> int
    decreases recs.len(),
{
    if recs.len() == 0 {
        0
    } else if recs[0].order_id == cursor {
        1
    } else {
        let p = cursor_start(recs.drop_first(), cursor);
        if p == 0 { 0 } else { p + 1 }
    }
}

/// Where a page starts: just past the cursor's record, or at the front.
pub open spec fn page_start(recs: Seq<PaymentRecordModel>, cursor: Option<Seq<u8>>) -> int {
    match cursor {
        Some(c) => cursor_start(recs, c),
        None => 0,
    }
}

/// Where a page of at most `limit` records ends.
pub open spec fn page_end(recs: Seq<PaymentRecordModel>, cursor: Option<Seq<u8>>, limit: u32) -> int {
    let e = page_start(recs, cursor) + limit;
    if e < recs.len() { e } else { recs.len() as int }
}

/// The page, and the cursor of the next page: the order id of the page's
/// last record when records remain after the page and the page is not empty.
pub open spec fn spec_paginate(recs: Seq<PaymentRecordModel>, cursor: Option<Seq<u8>>, limit: u32) -> (Seq<PaymentRecordModel>, Option<Seq<u8>>) {
    let start = page_start(recs, cursor);
    let end = page_end(recs, cursor, limit);
    let page = recs.subrange(start, end);
    let next = if end < recs.len() && page.len() > 0 { Some(page.last().order_id) } else { None };
    (page, next)
}

proof fn lemma_cursor_start(recs: Seq<PaymentRecordModel>, cursor: Seq<u8>, i: int)
    requires
        0 <= i <= recs.len(),
        forall|j: int| 0 <= j < i ==> (#[trigger] recs[j]).order_id != cursor,
        i < recs.len() ==> recs[i].order_id == cursor,
    ensures
        cursor_start(recs, cursor) == if i < recs.len() { i + 1 } else { 0 },
    decreases i,
{
    if i > 0 {
        assert(recs[0].order_id != cursor);
        let t = recs.drop_first();
        assert forall|j: int| 0 <= j < i - 1 implies (#[trigger] t[j]).order_id != cursor by {
            assert(t[j] == recs[j + 1]);
        }
        if i - 1 < t.len() {
            assert(t[i - 1] == recs[i]);
        }
        lemma_cursor_start(t, cursor, i - 1);
    }
}

impl Storage {
    /// A page of at most `limit` records, starting just past the record whose
    /// order id is `cursor` (at the front when there is no cursor or no such
    /// record), and the cursor of the next page: see [`spec_paginate`].
    pub fn paginate_payments(&self, records: Vec<PaymentRecord>, cursor: Option<Vec<u8>>, limit: u32) -> (r: (Vec<PaymentRecord>, Option<Vec<u8>>))
        requires
            records.len() <= u32::MAX,
            page_start(records.deep_view(), cursor.deep_view()) + limit <= u32::MAX,
        ensures
            (r.0.deep_view(), r.1.deep_view()) == spec_paginate(records.deep_view(), cursor.deep_view(), limit),
    {
        let ghost recs = records.deep_view();
        let mut start: u32 = 0;
        match &cursor {
            Some(c) => {
                let mut j: usize = 0;
                while j < records.len()
                    invariant
                        j <= records.len(),
                        recs == records.deep_view(),
                        forall|k: int| 0 <= k < j ==> (#[trigger] recs[k]).order_id != c@,
                    ensures
                        j <= records.len(),
                        forall|k: int| 0 <= k < j ==> (#[trigger] recs[k]).order_id != c@,
                        j < records.len() ==> recs[j as int].order_id == c@,
                    decreases records.len() - j,
                {
                    proof {
                        assert(recs[j as int] == records@[j as int]@);
                        assert(records@[j as int].order_id.deep_view() == records@[j as int].order_id@);
                    }
                    if bytes_equal(&records[j].order_id, c) {
                        break;
                    }
                    j += 1;
                }
                proof {
                    lemma_cursor_start(recs, c@, j as int);
                    assert(c.deep_view() == c@);
                }
                if j < records.len() {
                    start = (j + 1) as u32;
                }
            },
            None => {},
        }
        let len: u32 = records.len() as u32;
        let end: u32 = if start + limit < len { start + limit } else { len };
        let mut page: Vec<PaymentRecord> = Vec::new();
        let mut i: u32 = start;
        proof {
            assert(page.deep_view() =~= recs.subrange(start as int, start as int));
        }
        while i < end
            invariant
                start <= i <= end,
                end <= recs.len(),
                recs == records.deep_view(),
                page.deep_view() == recs.subrange(start as int, i as int),
            decreases end - i,
        {
            let ghost pre = page.deep_view();
            page.push(records[i as usize].duplicate());
            proof {
                assert(recs[i as int] == records@[i as int].deep_view());
                assert(page.deep_view() =~= pre.push(recs[i as int]));
                assert(page.deep_view() =~= recs.subrange(start as int, i + 1));
            }
            i += 1;
        }
        let next: Option<Vec<u8>> = if end < len && page.len() > 0 {
            Some(page[page.len() - 1].order_id.duplicate())
        } else {
            None
        };
        proof {
            assert(page.deep_view().len() == page@.len());
            if page@.len() > 0 {
                assert(page.deep_view().last() == page@[page@.len() - 1]@);
            }
        }
        (page, next)
    }
}

} // verus!
