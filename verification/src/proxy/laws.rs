//! Properties of the upgradeable proxy that span its entry points.
use vstd::prelude::*;
use super::contract::{
    ProxyEnvModel, initialized, spec_init_result, spec_upgrade_ready, spec_execute_upgrade_result,
    upgraded_storage, rolled_back_storage, approvals_with, spec_approve_result, spec_rollback_result,
    upgrade_calls, with_effects,
};
use super::error::ProxyError;
use super::storage::{StorageModel, initialized_model, model_wf};
use super::types::UpgradeProposalModel;
use super::safety::{CompatibilityInfoModel, spec_analyze_impact, spec_validate_schema, impact_of};
use super::automation::{
    ChecklistItemModel, spec_new_checklist, with_items, items_marked, first_item_at,
    completed_count,
};

verus! {

/// Every proposal's approvals are distinct admins.
pub open spec fn approvals_valid(s: StorageModel) -> bool {
    forall|id: u64| #[trigger] s.proposals.contains_key(id) ==> {
        &&& s.proposals[id].approvals.no_duplicates()
        &&& s.admins is Some
        &&& forall|i: int| 0 <= i < s.proposals[id].approvals.len() ==> s.admins->0.contains(#[trigger] s.proposals[id].approvals[i])
    }
}

/// An upgrade runs only on an initialized proxy, for a proposal not yet
/// executed that at least the threshold of approvals back, once its delay
/// has passed, and with a positive new schema version.
pub proof fn law_upgrade_needs_approvals_and_delay(e: ProxyEnvModel, id: u64, current_schema: Option<u32>, new_schema: Option<u32>, new_info: Option<CompatibilityInfoModel>)
    requires
        spec_execute_upgrade_result(e, id, current_schema, new_schema, new_info) is Ok,
    ensures
        initialized(e),
        e.storage.proposals.contains_key(id),
        !e.storage.proposals[id].executed,
        e.storage.proposals[id].approvals.len() >= e.storage.threshold,
        e.timestamp >= e.storage.proposals[id].executable_at,
        new_schema matches Some(v) && v > 0,
{
}

/// With valid approvals, an executed upgrade was approved by at least the
/// threshold of distinct admins.
pub proof fn law_upgrade_approved_by_distinct_admins(e: ProxyEnvModel, id: u64, current_schema: Option<u32>, new_schema: Option<u32>, new_info: Option<CompatibilityInfoModel>)
    requires
        approvals_valid(e.storage),
        spec_execute_upgrade_result(e, id, current_schema, new_schema, new_info) is Ok,
    ensures
        e.storage.proposals[id].approvals.no_duplicates(),
        e.storage.proposals[id].approvals.len() >= e.storage.threshold,
        forall|i: int| 0 <= i < e.storage.proposals[id].approvals.len()
            ==> e.storage.admins->0.contains(#[trigger] e.storage.proposals[id].approvals[i]),
{
}

/// Initializing leaves no proposals, so approvals are valid.
pub proof fn law_init_approvals_valid(s: StorageModel, admins: Seq<Seq<u8>>, threshold: u32, delay: u64)
    ensures
        approvals_valid(initialized_model(s, admins, threshold, delay)),
{
}

/// A new proposal, which has no approvals, keeps approvals valid.
pub proof fn law_propose_keeps_approvals_valid(s: StorageModel, p: UpgradeProposalModel)
    requires
        approvals_valid(s),
        s.admins is Some,
        p.approvals.len() == 0,
    ensures
        approvals_valid(StorageModel { proposals: s.proposals.insert(p.id, p), ..s }),
{
    let t = StorageModel { proposals: s.proposals.insert(p.id, p), ..s };
    assert forall|id: u64| #[trigger] t.proposals.contains_key(id) implies {
        &&& t.proposals[id].approvals.no_duplicates()
        &&& t.admins is Some
        &&& forall|i: int| 0 <= i < t.proposals[id].approvals.len() ==> t.admins->0.contains(#[trigger] t.proposals[id].approvals[i])
    } by {
        if id != p.id {
            assert(s.proposals.contains_key(id));
        }
    }
}

/// An accepted approval keeps approvals valid: the approver is an admin and
/// is added only once.
pub proof fn law_approve_keeps_approvals_valid(e: ProxyEnvModel, id: u64, admin: Seq<u8>)
    requires
        approvals_valid(e.storage),
        spec_approve_result(e, id, admin) is Ok,
    ensures
        approvals_valid(StorageModel {
            proposals: e.storage.proposals.insert(id, UpgradeProposalModel {
                approvals: approvals_with(e.storage.proposals[id].approvals, admin),
                ..e.storage.proposals[id]
            }),
            ..e.storage
        }),
{
    let s = e.storage;
    let old_a = s.proposals[id].approvals;
    let new_a = approvals_with(old_a, admin);
    let t = StorageModel {
        proposals: s.proposals.insert(id, UpgradeProposalModel { approvals: new_a, ..s.proposals[id] }),
        ..s
    };
    assert forall|k: u64| #[trigger] t.proposals.contains_key(k) implies {
        &&& t.proposals[k].approvals.no_duplicates()
        &&& t.admins is Some
        &&& forall|i: int| 0 <= i < t.proposals[k].approvals.len() ==> t.admins->0.contains(#[trigger] t.proposals[k].approvals[i])
    } by {
        if k != id {
            assert(s.proposals.contains_key(k));
        } else {
            assert(s.proposals.contains_key(id));
            if !old_a.contains(admin) {
                assert forall|i: int, j: int| 0 <= i < new_a.len() && 0 <= j < new_a.len() && i != j implies new_a[i] != new_a[j] by {
                    if i == old_a.len() as int {
                        assert(old_a[j] == new_a[j]);
                    } else if j == old_a.len() as int {
                        assert(old_a[i] == new_a[i]);
                    } else {
                        assert(old_a[i] == new_a[i] && old_a[j] == new_a[j]);
                    }
                }
                assert forall|i: int| 0 <= i < new_a.len() implies t.admins->0.contains(#[trigger] new_a[i]) by {
                    if i < old_a.len() {
                        assert(old_a[i] == new_a[i]);
                    }
                }
            }
        }
    }
}

/// Approving twice has the effect of approving once.
pub proof fn law_approval_counts_once(approvals: Seq<Seq<u8>>, admin: Seq<u8>)
    ensures
        approvals_with(approvals_with(approvals, admin), admin) == approvals_with(approvals, admin),
        approvals_with(approvals, admin).contains(admin),
{
    if !approvals.contains(admin) {
        assert(approvals.push(admin)[approvals.len() as int] == admin);
    }
}

/// An upgrade makes the proposal's implementation current under the next
/// version, records it in the history, and cannot run a second time.
pub proof fn law_upgrade_advances_version(e: ProxyEnvModel, id: u64, current_schema: Option<u32>, new_schema: Option<u32>, new_info: Option<CompatibilityInfoModel>)
    requires
        spec_execute_upgrade_result(e, id, current_schema, new_schema, new_info) is Ok,
        e.storage.version < u64::MAX,
    ensures
        upgraded_storage(e.storage, id).implementation == Some(e.storage.proposals[id].new_impl),
        upgraded_storage(e.storage, id).version == e.storage.version + 1,
        upgraded_storage(e.storage, id).history.len() == e.storage.history.len() + 1,
        upgraded_storage(e.storage, id).history.last().version == e.storage.version + 1,
        spec_execute_upgrade_result(
            ProxyEnvModel { storage: upgraded_storage(e.storage, id), ..e },
            id,
            current_schema,
            new_schema,
            new_info,
        ) == Err::<(), ProxyError>(ProxyError::AlreadyExecuted),
{
}

/// A rollback right after an upgrade restores the implementation the
/// upgrade replaced (the upgrade's own when there was none), the version
/// and the history.
pub proof fn law_rollback_undoes_upgrade(s: StorageModel, id: u64)
    requires
        s.proposals.contains_key(id),
        s.version < u64::MAX,
    ensures
        rolled_back_storage(upgraded_storage(s, id)).implementation == Some(match s.implementation {
            Some(c) => c,
            None => s.proposals[id].new_impl,
        }),
        rolled_back_storage(upgraded_storage(s, id)).version == s.version,
        rolled_back_storage(upgraded_storage(s, id)).history == s.history,
{
    assert(upgraded_storage(s, id).history.drop_last() =~= s.history);
}

/// The proxy is initialized only once.
pub proof fn law_init_once(e: ProxyEnvModel, admins: Seq<Seq<u8>>, threshold: u32, delay: u64, admins2: Seq<Seq<u8>>, threshold2: u32)
    requires
        spec_init_result(e, admins, threshold) is Ok,
        spec_init_result(e, admins2, threshold2) is Ok || (admins2.len() > 0 && 0 < threshold2 <= admins2.len()),
    ensures
        spec_init_result(
            ProxyEnvModel { storage: initialized_model(e.storage, admins, threshold, delay), ..e },
            admins2,
            threshold2,
        ) == Err::<(), ProxyError>(ProxyError::AlreadyInitialized),
{
}


/// An upgrade and a rollback keep approvals valid.
pub proof fn law_upgrade_and_rollback_keep_approvals_valid(s: StorageModel, id: u64)
    requires
        approvals_valid(s),
        s.proposals.contains_key(id),
    ensures
        approvals_valid(upgraded_storage(s, id)),
        approvals_valid(rolled_back_storage(s)),
{
    let t = upgraded_storage(s, id);
    assert forall|k: u64| #[trigger] t.proposals.contains_key(k) implies {
        &&& t.proposals[k].approvals.no_duplicates()
        &&& t.admins is Some
        &&& forall|i: int| 0 <= i < t.proposals[k].approvals.len() ==> t.admins->0.contains(#[trigger] t.proposals[k].approvals[i])
    } by {
        assert(s.proposals.contains_key(k));
    }
}


/// Marking the item at position `k - 1`, whose id `k` no earlier item has,
/// completes that item and nothing else.
proof fn lemma_mark_item(items: Seq<ChecklistItemModel>, k: u32, now: u64)
    requires
        1 <= k <= items.len(),
        items[k - 1].id == k,
        forall|j: int| 0 <= j < k - 1 ==> (#[trigger] items[j]).id != k,
    ensures
        items_marked(items, k, now) == items.update(
            k - 1,
            ChecklistItemModel { completed: true, completed_at: now, ..items[k - 1] },
        ),
{
    assert(first_item_at(items, k, k - 1));
    let i = choose|i: int| first_item_at(items, k, i);
    if i < k - 1 {
        assert(items[i].id != k);
    } else if i > k - 1 {
        assert(items[k - 1].id != k);
    }
}

/// A new checklist is not complete; once its five items are marked, one
/// after another, it is, so the upgrade can proceed.
pub proof fn law_checklist_completes(proposal_id: u64, now: u64, t1: u64, t2: u64, t3: u64, t4: u64, t5: u64)
    ensures
        !spec_new_checklist(proposal_id, now).all_completed,
        ({
            let c0 = spec_new_checklist(proposal_id, now);
            let c1 = with_items(c0, items_marked(c0.items, 1, t1));
            let c2 = with_items(c1, items_marked(c1.items, 2, t2));
            let c3 = with_items(c2, items_marked(c2.items, 3, t3));
            let c4 = with_items(c3, items_marked(c3.items, 4, t4));
            let c5 = with_items(c4, items_marked(c4.items, 5, t5));
            c5.all_completed && c5.completion_percentage == 100
        }),
{
    let c0 = spec_new_checklist(proposal_id, now);
    let i0 = c0.items;
    assert(i0.len() == 5 && i0[0].id == 1 && i0[1].id == 2 && i0[2].id == 3 && i0[3].id == 4 && i0[4].id == 5);
    lemma_mark_item(i0, 1, t1);
    let i1 = items_marked(i0, 1, t1);
    lemma_mark_item(i1, 2, t2);
    let i2 = items_marked(i1, 2, t2);
    lemma_mark_item(i2, 3, t3);
    let i3 = items_marked(i2, 3, t3);
    lemma_mark_item(i3, 4, t4);
    let i4 = items_marked(i3, 4, t4);
    lemma_mark_item(i4, 5, t5);
    let i5 = items_marked(i4, 5, t5);
    assert(i5[0].completed && i5[1].completed && i5[2].completed && i5[3].completed && i5[4].completed);
    reveal_with_fuel(completed_count, 6);
    assert(i5.drop_last().drop_last().drop_last().drop_last().drop_last().len() == 0);
    assert(completed_count(i5) == 5);
}


/// Proposal ids are never reused: the id that a new proposal gets, one past
/// the proposal sequence, belongs to no stored proposal.
pub proof fn law_new_proposal_id_unused(s: StorageModel)
    requires
        model_wf(s),
        s.proposal_seq < u64::MAX,
    ensures
        !s.proposals.contains_key((s.proposal_seq + 1) as u64),
{
}


/// A migration whose rollback snapshot has been kept can be rolled back:
/// after `save_rollback_snapshot` with data, `rollback_migration` finds it.
pub proof fn law_saved_snapshot_allows_rollback(s: StorageModel, migration_id: u64, data: Seq<u8>)
    requires
        data.len() > 0,
    ensures
        (StorageModel { rollback_snapshots: s.rollback_snapshots.insert(migration_id, data), ..s }).rollback_snapshots.contains_key(
            migration_id,
        ),
{
}


/// The impact analysis uses what the new implementation declares: declared
/// breaking changes make the move critical (risk level 3) and are counted.
pub proof fn law_declared_breaking_changes_are_critical(current: u32, new: u32, info: CompatibilityInfoModel)
    requires
        info.breaking_changes.len() > 0,
        info.breaking_changes.len() <= u32::MAX,
    ensures
        spec_analyze_impact(Some(current), Some(new), Some(info)) matches Ok(a)
            && a.risk_level == 3
            && a.breaking_changes_count == info.breaking_changes.len(),
{
}

/// The schema check uses what the new implementation declares: a new schema
/// version below its declared minimum is refused with `SchemaMismatch`.
pub proof fn law_declared_minimum_is_enforced(current: u32, new: u32, info: CompatibilityInfoModel)
    requires
        new < info.min_compatible_version,
    ensures
        spec_validate_schema(Some(current), Some(new), Some(info)) == Err::<bool, super::error::SafetyError>(
            super::error::SafetyError::SchemaMismatch,
        ),
{
}

/// Without breaking changes the impact of a move does not depend on its
/// direction: moving from `a` to `b` and from `b` to `a` weigh the same.
pub proof fn law_impact_symmetric_without_breaking_changes(
    a: u32,
    b: u32,
    info_a: CompatibilityInfoModel,
    info_b: CompatibilityInfoModel,
)
    requires
        info_a.breaking_changes.len() == 0,
        info_b.breaking_changes.len() == 0,
    ensures
        impact_of(a, b, info_b) == impact_of(b, a, info_a),
{
}

/// An upgrade followed by a rollback gives back the implementation that was
/// current before (the upgraded one when there was none), the version and
/// the history.
pub proof fn law_upgrade_then_rollback(
    e: ProxyEnvModel,
    id: u64,
    current_schema: Option<u32>,
    new_schema: Option<u32>,
    new_info: Option<CompatibilityInfoModel>,
    current_schema2: Option<u32>,
    prev_schema: Option<u32>,
    prev_info: Option<CompatibilityInfoModel>,
)
    requires
        spec_execute_upgrade_result(e, id, current_schema, new_schema, new_info) is Ok,
        e.storage.version < u64::MAX,
        spec_rollback_result(
            with_effects(e, Seq::empty(), upgraded_storage(e.storage, id), upgrade_calls(e.storage, id)),
            current_schema2,
            prev_schema,
            prev_info,
        ) is Ok,
    ensures
        ({
            let e1 = with_effects(e, Seq::empty(), upgraded_storage(e.storage, id), upgrade_calls(e.storage, id));
            let s2 = rolled_back_storage(e1.storage);
            &&& s2.implementation == Some(match e.storage.implementation {
                Some(c) => c,
                None => e.storage.proposals[id].new_impl,
            })
            &&& s2.version == e.storage.version
            &&& s2.history == e.storage.history
        }),
{
    law_rollback_undoes_upgrade(e.storage, id);
}


/// Without declared breaking changes, the impact of a move is graded by how
/// far apart the two schema versions are: low up to 1, medium up to 5, high
/// up to 10 and critical beyond; a migration is needed beyond 2, and no
/// breaking change is counted.
pub proof fn law_impact_graded_by_distance(current: u32, new: u32, declared: Option<CompatibilityInfoModel>)
    requires
        declared matches Some(info) ==> info.breaking_changes.len() == 0,
    ensures
        spec_analyze_impact(Some(current), Some(new), declared) matches Ok(a) && {
            let d: int = if new >= current { new - current } else { current - new };
            &&& a.risk_level == if d > 10 { 3u32 } else if d > 5 { 2u32 } else if d > 1 { 1u32 } else { 0u32 }
            &&& a.requires_migration == (d > 2)
            &&& a.breaking_changes_count == 0
        },
{
}

} // verus!
