//! The entry points of the upgradeable proxy.
//!
//! Each entry point runs on a [`ProxyEnv`]: the stored state, the ledger
//! time, the proxy's own address, and the actions that the host carries out
//! once the call returns: the addresses whose authorization the call
//! requires and the calls into implementation contracts. What an
//! implementation answers (its schema version and, when it declares one,
//! its compatibility) is asked by the host and
//! handed in. A call that returns an error changes neither the state nor
//! the calls to make.
use vstd::prelude::*;
use vstd::string::StringSliceAdditionalSpecFns;
use crate::address::{Address, list_contains};
use crate::table::{Duplicate, text_of};
use super::error::ProxyError;
use super::storage::{Storage, StorageModel, initialized_model};
use super::types::{ImplementationRecord, ImplementationRecordModel, UpgradeProposal, UpgradeProposalModel};
use super::safety::{
    SafetyValidator, UpgradeImpactAnalysis, UpgradeImpactAnalysisModel, spec_validate_schema, spec_schema_version,
    CompatibilityInfo, CompatibilityInfoModel,
    spec_analyze_impact, spec_policy_check,
};
use super::migration::{MigrationManager, MigrationStrategy};
use super::monitoring::{
    MonitoringManager, UpgradeAnalytics, UpgradeAnalyticsModel, HealthCheckResult, HealthCheckResultModel,
    UpgradeMetrics, spec_analytics, spec_health, spec_trends,
};
use super::automation::{
    ChecklistManager, DocumentationGenerator, NotificationSystem, UpgradeChecklist, UpgradeDocumentation,
    spec_documentation, spec_new_checklist, items_marked, with_items,
};

verus! {

broadcast use crate::table::lemma_bytes_deep_view;

/// A call that the host makes into a contract, with no arguments.
#[derive(Clone, Debug, PartialEq)]
pub struct ContractCall {
    pub contract: Address,
    /// The name of the function.
    pub function: Vec<u8>,
}

/// The model of [`ContractCall`].
pub struct ContractCallModel {
    pub contract: Seq<u8>,
    pub function: Seq<u8>,
}

impl DeepView for ContractCall {
    type V = ContractCallModel;

    open spec fn deep_view(&self) -> ContractCallModel {
        ContractCallModel { contract: self.contract@, function: self.function@ }
    }
}

impl View for ContractCall {
    type V = ContractCallModel;

    open spec fn view(&self) -> ContractCallModel {
        self.deep_view()
    }
}

/// What a proxy call runs on.
pub struct ProxyEnv {
    /// The ledger time of the call.
    pub timestamp: u64,
    /// The proxy's own address.
    pub contract_address: Address,
    pub storage: Storage,
    /// The addresses whose authorization the call requires, in order.
    pub auths: Vec<Address>,
    /// The calls into implementations to make, in order.
    pub calls: Vec<ContractCall>,
}

/// The model of [`ProxyEnv`].
pub struct ProxyEnvModel {
    pub timestamp: u64,
    pub contract_address: Seq<u8>,
    pub storage: StorageModel,
    pub auths: Seq<Seq<u8>>,
    pub calls: Seq<ContractCallModel>,
}

impl View for ProxyEnv {
    type V = ProxyEnvModel;

    open spec fn view(&self) -> ProxyEnvModel {
        ProxyEnvModel {
            timestamp: self.timestamp,
            contract_address: self.contract_address@,
            storage: self.storage@,
            auths: self.auths.deep_view(),
            calls: self.calls.deep_view(),
        }
    }
}

/// The environment after a call that stored `storage` and asked for the
/// authorizations `auths` and the calls `calls`.
pub open spec fn with_effects(
    e: ProxyEnvModel,
    auths: Seq<Seq<u8>>,
    storage: StorageModel,
    calls: Seq<ContractCallModel>,
) -> ProxyEnvModel {
    ProxyEnvModel { storage, auths: e.auths + auths, calls: e.calls + calls, ..e }
}

/// The call that runs an implementation's data migration.
pub open spec fn migrate_call(contract: Seq<u8>) -> ContractCallModel {
    ContractCallModel { contract, function: "migrate".spec_bytes() }
}

/// The proxy is initialized.
pub open spec fn initialized(e: ProxyEnvModel) -> bool {
    e.storage.admins is Some
}

impl ProxyEnv {
    /// A fresh proxy at `contract_address` and ledger time `timestamp`.
    pub fn new(timestamp: u64, contract_address: Address) -> (e: ProxyEnv)
        ensures
            e.wf(),
            e@.timestamp == timestamp,
            e@.contract_address == contract_address@,
            e@.storage == super::storage::empty_storage_model(),
            e@.auths == Seq::<Seq<u8>>::empty(),
            e@.calls == Seq::<ContractCallModel>::empty(),
    {
        let e = ProxyEnv { timestamp, contract_address, storage: Storage::new(), auths: Vec::new(), calls: Vec::new() };
        proof {
            assert(e@.auths =~= Seq::<Seq<u8>>::empty());
            assert(e@.calls =~= Seq::<ContractCallModel>::empty());
        }
        e
    }

    /// The stored state is well formed.
    pub open spec fn wf(&self) -> bool {
        self.storage.wf()
    }

    /// Records that the call requires `a` to authorize it.
    pub fn require_auth(&mut self, a: &Address)
        requires
            old(self).wf(),
        ensures
            final(self).wf(),
            final(self)@ == (ProxyEnvModel { auths: old(self)@.auths + seq![a@], ..old(self)@ }),
            final(self).storage == old(self).storage,
    {
        let ghost pre = self.auths.deep_view();
        self.auths.push(a.duplicate());
        proof {
            assert(self.auths.deep_view() =~= pre + seq![a@]);
        }
    }

    /// Adds a call of `function` on `contract` to the calls to make.
    fn push_call(&mut self, contract: &Address, function: &str)
        requires
            old(self).wf(),
        ensures
            final(self).wf(),
            final(self)@ == (ProxyEnvModel {
                calls: old(self)@.calls.push(ContractCallModel { contract: contract@, function: function.spec_bytes() }),
                ..old(self)@
            }),
    {
        let ghost pre = self.calls.deep_view();
        let call = ContractCall { contract: contract.duplicate(), function: text_of(function) };
        self.calls.push(call);
        proof {
            assert(self.calls.deep_view() =~= pre.push(call@));
        }
    }
}

/// The upgradeable proxy contract.
pub struct UpgradeableProxyContract;

// ===== Governance =====

/// The outcome of `init`.
pub open spec fn spec_init_result(e: ProxyEnvModel, admins: Seq<Seq<u8>>, threshold: u32) -> Result<(), ProxyError> {
    if admins.len() == 0 {
        Err(ProxyError::InvalidAdmins)
    } else if threshold == 0 || threshold > admins.len() {
        Err(ProxyError::InvalidThreshold)
    } else if initialized(e) {
        Err(ProxyError::AlreadyInitialized)
    } else {
        Ok(())
    }
}

/// The outcome of `propose_upgrade`.
pub open spec fn spec_propose_result(e: ProxyEnvModel, new_impl: Seq<u8>, metadata: Seq<u8>) -> Result<(), ProxyError> {
    if !initialized(e) {
        Err(ProxyError::NotInitialized)
    } else if e.storage.implementation == Some(new_impl) {
        Err(ProxyError::SameImplementation)
    } else if metadata.len() > MAX_METADATA_LEN {
        Err(ProxyError::MetadataTooLarge)
    } else {
        Ok(())
    }
}

/// The outcome of `approve_upgrade`.
pub open spec fn spec_approve_result(e: ProxyEnvModel, id: u64, admin: Seq<u8>) -> Result<(), ProxyError> {
    if !initialized(e) {
        Err(ProxyError::NotInitialized)
    } else if !e.storage.admins->0.contains(admin) {
        Err(ProxyError::NotAdmin)
    } else if !e.storage.proposals.contains_key(id) {
        Err(ProxyError::ProposalNotFound)
    } else if e.storage.proposals[id].executed {
        Err(ProxyError::AlreadyExecuted)
    } else {
        Ok(())
    }
}

/// `approvals` with `admin` added unless it is there already.
pub open spec fn approvals_with(approvals: Seq<Seq<u8>>, admin: Seq<u8>) -> Seq<Seq<u8>> {
    if approvals.contains(admin) { approvals } else { approvals.push(admin) }
}

/// The largest metadata a proposal may carry, in bytes.
pub const MAX_METADATA_LEN: u32 = 1024;

impl UpgradeableProxyContract {
    /// Sets the admins, the number of approvals an upgrade needs and the
    /// delay before it may run. Only once.
    pub fn init(env: &mut ProxyEnv, admins: Vec<Address>, threshold: u32, delay_seconds: u64) -> (r: Result<(), ProxyError>)
        requires
            old(env).wf(),
        ensures
            final(env).wf(),
            r == spec_init_result(old(env)@, admins.deep_view(), threshold),
            r is Ok ==> final(env)@ == (ProxyEnvModel {
                storage: initialized_model(old(env)@.storage, admins.deep_view(), threshold, delay_seconds),
                ..old(env)@
            }),
            r is Ok ==> final(env)@.storage.implementation is None && final(env)@.storage.version == 0,
            r is Err ==> final(env)@ == old(env)@,
    {
        proof {
            assert(admins.deep_view().len() == admins@.len());
        }
        if admins.len() == 0 {
            return Err(ProxyError::InvalidAdmins);
        }
        if threshold == 0 || (threshold as u64) > (admins.len() as u64) {
            return Err(ProxyError::InvalidThreshold);
        }
        if env.storage.is_initialized() {
            return Err(ProxyError::AlreadyInitialized);
        }
        env.storage.init(admins, threshold, delay_seconds);
        Ok(())
    }

    /// Proposes an upgrade to `new_impl`, executable once the delay has
    /// passed from now; the proxy itself is recorded as the proposer.
    /// Returns the new proposal's id.
    pub fn propose_upgrade(env: &mut ProxyEnv, new_impl: Address, metadata: Vec<u8>) -> (r: Result<u64, ProxyError>)
        requires
            old(env).wf(),
            spec_propose_result(old(env)@, new_impl@, metadata@) is Ok ==> {
                &&& old(env)@.storage.proposal_seq < u64::MAX
                &&& old(env)@.timestamp + old(env)@.storage.delay <= u64::MAX
            },
        ensures
            final(env).wf(),
            match r {
                Ok(id) => spec_propose_result(old(env)@, new_impl@, metadata@) is Ok
                    && id == old(env)@.storage.proposal_seq + 1
                    && final(env)@ == (ProxyEnvModel {
                        storage: StorageModel {
                            last_invoker: Some(old(env)@.contract_address),
                            proposal_seq: id,
                            proposals: old(env)@.storage.proposals.insert(id, UpgradeProposalModel {
                                id,
                                new_impl: new_impl@,
                                metadata: metadata@,
                                proposer: old(env)@.contract_address,
                                approvals: Seq::empty(),
                                created_at: old(env)@.timestamp,
                                executable_at: (old(env)@.timestamp + old(env)@.storage.delay) as u64,
                                executed: false,
                            }),
                            ..old(env)@.storage
                        },
                        ..old(env)@
                    }),
                Err(e) => spec_propose_result(old(env)@, new_impl@, metadata@) == Err::<(), ProxyError>(e)
                    && final(env)@ == old(env)@,
            },
    {
        match env.storage.require_initialized() {
            Ok(()) => {},
            Err(e) => return Err(e),
        }
        match env.storage.require_admin_auth() {
            Ok(()) => {},
            Err(e) => return Err(e),
        }
        match env.storage.current_impl() {
            Some(current) => if current.same_as(&new_impl) {
                return Err(ProxyError::SameImplementation);
            },
            None => {},
        }
        if metadata.len() > MAX_METADATA_LEN as usize {
            return Err(ProxyError::MetadataTooLarge);
        }
        let invoker = env.contract_address.duplicate();
        env.storage.set_last_invoker(&invoker);
        let id = env.storage.next_proposal_id();
        let now = env.timestamp;
        let proposer = match env.storage.last_invoker() {
            Ok(a) => a,
            Err(e) => return Err(e),
        };
        let delay = env.storage.delay_seconds();
        let proposal = UpgradeProposal {
            id,
            new_impl,
            metadata,
            proposer,
            approvals: Vec::new(),
            created_at: now,
            executable_at: now + delay,
            executed: false,
        };
        proof {
            assert(proposal.approvals.deep_view() =~= Seq::<Seq<u8>>::empty());
        }
        let _ = env.storage.save_proposal(&proposal);
        Ok(id)
    }

    /// Records `admin`'s approval of a proposal not yet executed; an admin
    /// counts once however often it approves.
    pub fn approve_upgrade(env: &mut ProxyEnv, proposal_id: u64, admin: Address) -> (r: Result<(), ProxyError>)
        requires
            old(env).wf(),
        ensures
            final(env).wf(),
            r == spec_approve_result(old(env)@, proposal_id, admin@),
            r is Ok ==> final(env)@ == with_effects(
                old(env)@,
                seq![admin@],
                StorageModel {
                    proposals: old(env)@.storage.proposals.insert(proposal_id, UpgradeProposalModel {
                        approvals: approvals_with(old(env)@.storage.proposals[proposal_id].approvals, admin@),
                        ..old(env)@.storage.proposals[proposal_id]
                    }),
                    ..old(env)@.storage
                },
                Seq::empty(),
            ),
            r is Err ==> final(env)@ == (ProxyEnvModel {
                auths: old(env)@.auths + if initialized(old(env)@) { seq![admin@] } else { Seq::empty() },
                ..old(env)@
            }),
    {
        match env.storage.require_initialized() {
            Ok(()) => {},
            Err(e) => {
                proof {
                    assert(old(env)@.auths + Seq::<Seq<u8>>::empty() =~= old(env)@.auths);
                }
                return Err(e);
            },
        }
        env.require_auth(&admin);
        if !env.storage.is_admin(&admin) {
            return Err(ProxyError::NotAdmin);
        }
        let mut proposal = match env.storage.get_proposal(proposal_id) {
            Ok(p) => p,
            Err(e) => return Err(e),
        };
        if proposal.executed {
            return Err(ProxyError::AlreadyExecuted);
        }
        if !list_contains(&proposal.approvals, &admin) {
            let ghost pre = proposal.approvals.deep_view();
            proposal.approvals.push(admin);
            proof {
                assert(proposal.approvals.deep_view() =~= pre.push(admin@));
            }
        }
        let _ = env.storage.save_proposal(&proposal);
        proof {
            assert(env@.calls =~= old(env)@.calls + Seq::<ContractCallModel>::empty());
        }
        Ok(())
    }

    /// The current implementation; `ImplementationNotSet` before the first
    /// upgrade.
    pub fn get_current_implementation(env: &ProxyEnv) -> (r: Result<Address, ProxyError>)
        ensures
            match r {
                Ok(a) => env@.storage.implementation == Some(a@),
                Err(e) => env@.storage.implementation is None && e == ProxyError::ImplementationNotSet,
            },
    {
        match env.storage.current_impl() {
            Some(a) => Ok(a),
            None => Err(ProxyError::ImplementationNotSet),
        }
    }

    /// The implementation version: 0 before the first upgrade, one more with
    /// each upgrade.
    pub fn get_version(env: &ProxyEnv) -> (v: u64)
        ensures
            v == env@.storage.version,
    {
        env.storage.version()
    }

    /// The proposal `proposal_id`.
    pub fn get_proposal(env: &ProxyEnv, proposal_id: u64) -> (r: Result<UpgradeProposal, ProxyError>)
        requires
            env.wf(),
            initialized(env@),
        ensures
            match r {
                Ok(p) => env@.storage.proposals.contains_key(proposal_id) && p@ == env@.storage.proposals[proposal_id],
                Err(e) => !env@.storage.proposals.contains_key(proposal_id) && e == ProxyError::ProposalNotFound,
            },
    {
        env.storage.get_proposal(proposal_id)
    }

    /// The implementation that a forwarded call goes to: the current one.
    pub fn forward(env: &ProxyEnv) -> (r: Result<Address, ProxyError>)
        ensures
            match r {
                Ok(a) => initialized(env@) && env@.storage.implementation == Some(a@),
                Err(e) => if !initialized(env@) {
                    e == ProxyError::NotInitialized
                } else {
                    env@.storage.implementation is None && e == ProxyError::ImplementationNotSet
                },
            },
    {
        match env.storage.require_initialized() {
            Ok(()) => {},
            Err(e) => return Err(e),
        }
        match env.storage.current_impl() {
            Some(a) => Ok(a),
            None => Err(ProxyError::ImplementationNotSet),
        }
    }
}


// ===== Upgrades and rollback =====

/// The checks of `execute_upgrade` that need no answer from an
/// implementation.
pub open spec fn spec_upgrade_ready(e: ProxyEnvModel, id: u64) -> Result<(), ProxyError> {
    if !initialized(e) {
        Err(ProxyError::NotInitialized)
    } else if !e.storage.proposals.contains_key(id) {
        Err(ProxyError::ProposalNotFound)
    } else {
        let p = e.storage.proposals[id];
        if p.executed {
            Err(ProxyError::AlreadyExecuted)
        } else if p.approvals.len() < e.storage.threshold {
            Err(ProxyError::ThresholdNotMet)
        } else if e.timestamp < p.executable_at {
            Err(ProxyError::DelayNotPassed)
        } else {
            Ok(())
        }
    }
}

/// The schema checks of an upgrade pass, given the schema versions that the
/// current implementation (if there is one) and the new one reported and the
/// compatibility the new one declared: the move is compatible, the impact is
/// within risk level 3, and the new schema version is positive.
pub open spec fn upgrade_schemas_pass(
    has_current: bool,
    current_schema: Option<u32>,
    new_schema: Option<u32>,
    new_info: Option<CompatibilityInfoModel>,
) -> bool {
    let base = if has_current { current_schema } else { new_schema };
    &&& has_current ==> spec_validate_schema(current_schema, new_schema, new_info) is Ok
    &&& spec_schema_version(base) is Ok
    &&& spec_analyze_impact(base, new_schema, new_info) is Ok
    &&& spec_policy_check(spec_analyze_impact(base, new_schema, new_info)->Ok_0, 3) is Ok
    &&& new_schema matches Some(v) && v > 0
}

/// The outcome of `execute_upgrade`.
pub open spec fn spec_execute_upgrade_result(
    e: ProxyEnvModel,
    id: u64,
    current_schema: Option<u32>,
    new_schema: Option<u32>,
    new_info: Option<CompatibilityInfoModel>,
) -> Result<(), ProxyError> {
    match spec_upgrade_ready(e, id) {
        Err(x) => Err(x),
        Ok(()) => if upgrade_schemas_pass(e.storage.implementation is Some, current_schema, new_schema, new_info) {
            Ok(())
        } else {
            Err(ProxyError::ValidationFailed)
        },
    }
}

/// A proposal asks for a data migration: its metadata starts with 1.
pub open spec fn wants_migration(p: UpgradeProposalModel) -> bool {
    p.metadata.len() > 0 && p.metadata[0] == 1
}

/// The state after proposal `id` is executed: its implementation becomes
/// current, the history records the move with the next version, the
/// proposal is marked executed, and the notification counter advances; when
/// the proposal asks for a migration, the migration counter advances and a
/// one-byte rollback snapshot is kept under the new migration id.
pub open spec fn upgraded_storage(s: StorageModel, id: u64) -> StorageModel {
    let p = s.proposals[id];
    let prev = match s.implementation {
        Some(c) => c,
        None => p.new_impl,
    };
    StorageModel {
        implementation: Some(p.new_impl),
        history: s.history.push(ImplementationRecordModel { version: (s.version + 1) as u64, implementation: p.new_impl, prev }),
        version: (s.version + 1) as u64,
        proposals: s.proposals.insert(id, UpgradeProposalModel { executed: true, ..p }),
        next_migration_id: if wants_migration(p) { (s.next_migration_id + 1) as u64 } else { s.next_migration_id },
        rollback_snapshots: if wants_migration(p) {
            s.rollback_snapshots.insert((s.next_migration_id + 1) as u64, seq![0u8])
        } else {
            s.rollback_snapshots
        },
        notification_counter: (s.notification_counter + 1) as u64,
        ..s
    }
}

/// The calls of an upgrade: the new implementation's migration, when the
/// proposal asks for one.
pub open spec fn upgrade_calls(s: StorageModel, id: u64) -> Seq<ContractCallModel> {
    let p = s.proposals[id];
    if wants_migration(p) { seq![migrate_call(p.new_impl)] } else { Seq::empty() }
}

/// The outcome of `rollback`, given the schema versions that the current and
/// the previous implementation reported and the compatibility the previous
/// one declared.
pub open spec fn spec_rollback_result(
    e: ProxyEnvModel,
    current_schema: Option<u32>,
    prev_schema: Option<u32>,
    prev_info: Option<CompatibilityInfoModel>,
) -> Result<(), ProxyError> {
    if !initialized(e) {
        Err(ProxyError::NotInitialized)
    } else if e.storage.history.len() == 0 {
        Err(ProxyError::NoRollbackAvailable)
    } else if spec_analyze_impact(current_schema, prev_schema, prev_info) is Err {
        Err(ProxyError::ValidationFailed)
    } else if spec_policy_check(spec_analyze_impact(current_schema, prev_schema, prev_info)->Ok_0, 2) is Err {
        Err(ProxyError::ValidationFailed)
    } else if spec_validate_schema(current_schema, prev_schema, prev_info) is Err {
        Err(ProxyError::ValidationFailed)
    } else {
        Ok(())
    }
}

/// The state after a rollback: the implementation that the latest upgrade
/// replaced is current again, the version steps back, and the latest
/// history entry is dropped.
pub open spec fn rolled_back_storage(s: StorageModel) -> StorageModel {
    let rec = s.history.last();
    StorageModel {
        implementation: Some(rec.prev),
        version: if rec.version == 0 { 0 } else { (rec.version - 1) as u64 },
        history: s.history.drop_last(),
        ..s
    }
}

impl UpgradeableProxyContract {
    /// Executes an approved proposal once its delay has passed, after the
    /// safety checks on the schema versions that the current implementation
    /// (if any) and the new one reported: the new implementation becomes
    /// current under the next version, running its migration when the
    /// proposal asks for one.
    pub fn execute_upgrade(
        env: &mut ProxyEnv,
        proposal_id: u64,
        current_schema: Option<u32>,
        new_schema: Option<u32>,
        new_info: Option<CompatibilityInfo>,
    ) -> (r: Result<(), ProxyError>)
        requires
            old(env).wf(),
            spec_upgrade_ready(old(env)@, proposal_id) is Ok ==> {
                &&& old(env)@.storage.version < u64::MAX
                &&& old(env)@.storage.notification_counter < u64::MAX
                &&& old(env)@.storage.next_migration_id < u64::MAX
            },
        ensures
            final(env).wf(),
            r == spec_execute_upgrade_result(old(env)@, proposal_id, current_schema, new_schema, new_info.deep_view()),
            r is Ok ==> final(env)@ == with_effects(
                old(env)@,
                Seq::empty(),
                upgraded_storage(old(env)@.storage, proposal_id),
                upgrade_calls(old(env)@.storage, proposal_id),
            ),
            r is Err ==> final(env)@ == old(env)@,
    {
        let mut proposal = match Self::check_upgrade_ready(env, proposal_id) {
            Ok(p) => p,
            Err(e) => return Err(e),
        };
        let now = env.timestamp;
        let current_impl = env.storage.current_impl();
        let has_current = current_impl.is_some();
        if has_current {
            match SafetyValidator::validate_schema_compatibility(current_schema, new_schema, &new_info) {
                Ok(_) => {},
                Err(_) => return Err(ProxyError::ValidationFailed),
            }
        }
        let base_schema = if has_current { current_schema } else { new_schema };
        let base_impl = match &current_impl {
            Some(c) => c.duplicate(),
            None => proposal.new_impl.duplicate(),
        };
        match SafetyValidator::capture_pre_upgrade_state(base_impl, base_schema, now) {
            Ok(_) => {},
            Err(_) => return Err(ProxyError::ValidationFailed),
        }
        let impact_analysis = match SafetyValidator::analyze_upgrade_impact(base_schema, new_schema, &new_info) {
            Ok(a) => a,
            Err(_) => return Err(ProxyError::ValidationFailed),
        };
        match SafetyValidator::validate_against_policies(&impact_analysis, 3) {
            Ok(_) => {},
            Err(_) => return Err(ProxyError::ValidationFailed),
        }
        match new_schema {
            Some(v) => if v == 0 {
                return Err(ProxyError::ValidationFailed);
            },
            None => return Err(ProxyError::ValidationFailed),
        }
        let ghost s0 = env@.storage;
        let ghost e0 = env@;
        let mut metrics = match MonitoringManager::start_metrics_collection(now, proposal_id) {
            Ok(m) => m,
            Err(_) => return Err(ProxyError::ValidationFailed),
        };
        let prev_impl = match current_impl {
            Some(c) => c,
            None => proposal.new_impl.duplicate(),
        };
        let prev_version = env.storage.version();
        let migrate = proposal.metadata.len() > 0 && proposal.metadata[0] == 1u8;
        if migrate {
            let migration = match MigrationManager::initialize_migration(
                &mut env.storage,
                now,
                MigrationStrategy::Direct,
                1,
                prev_impl.duplicate(),
                proposal.new_impl.duplicate(),
            ) {
                Ok(m) => m,
                Err(_) => return Err(ProxyError::ValidationFailed),
            };
            let snapshot: Vec<u8> = vec![0u8];
            proof {
                assert(snapshot@ =~= seq![0u8]);
            }
            let _ = MigrationManager::save_rollback_snapshot(&mut env.storage, migration.id, &snapshot);
            env.push_call(&proposal.new_impl, "migrate");
            let _completed = match MigrationManager::complete_migration(now, migration) {
                Ok(m) => m,
                Err(_) => return Err(ProxyError::ValidationFailed),
            };
            metrics = match MonitoringManager::record_metric_update(metrics, 100_000, 5) {
                Ok(m) => m,
                Err(_) => return Err(ProxyError::ValidationFailed),
            };
        }
        let _ = env.storage.set_implementation(&proposal.new_impl);
        env.storage.record_history(ImplementationRecord {
            version: prev_version + 1,
            implementation: proposal.new_impl.duplicate(),
            prev: prev_impl,
        });
        let _metrics = match MonitoringManager::finalize_metrics(now, metrics, true) {
            Ok(m) => m,
            Err(_) => return Err(ProxyError::ValidationFailed),
        };
        let proposer = proposal.proposer.duplicate();
        let _ = NotificationSystem::notify_upgrade_complete(&mut env.storage, now, proposer, proposal_id, true);
        proposal.executed = true;
        let _ = env.storage.save_proposal(&proposal);
        proof {
            assert(proposal@.id == proposal_id);
            assert(env@.storage == upgraded_storage(s0, proposal_id));
            assert(env@.calls =~= old(env)@.calls + upgrade_calls(s0, proposal_id));
            assert(env@.auths =~= old(env)@.auths + Seq::<Seq<u8>>::empty());
        }
        Ok(())
    }

    /// Rolls back the latest upgrade, given the schema versions that the
    /// current implementation and the one it replaced reported and the
    /// compatibility the replaced one declared (if it declared one): the move
    /// back must be compatible and within risk level 2.
    pub fn rollback(
        env: &mut ProxyEnv,
        current_schema: Option<u32>,
        prev_schema: Option<u32>,
        prev_info: Option<CompatibilityInfo>,
    ) -> (r: Result<(), ProxyError>)
        requires
            old(env).wf(),
        ensures
            final(env).wf(),
            r == spec_rollback_result(old(env)@, current_schema, prev_schema, prev_info.deep_view()),
            r is Ok ==> final(env)@ == (ProxyEnvModel { storage: rolled_back_storage(old(env)@.storage), ..old(env)@ }),
            r is Err ==> final(env)@ == old(env)@,
    {
        match env.storage.require_admin_auth() {
            Ok(()) => {},
            Err(e) => return Err(e),
        }
        let record = match Self::rollback_target(env) {
            Ok(r) => r,
            Err(e) => return Err(e),
        };
        let prev_version = record.version.saturating_sub(1);
        let impact_analysis = match SafetyValidator::analyze_upgrade_impact(current_schema, prev_schema, &prev_info) {
            Ok(a) => a,
            Err(_) => return Err(ProxyError::ValidationFailed),
        };
        match SafetyValidator::validate_against_policies(&impact_analysis, 2) {
            Ok(_) => {},
            Err(_) => return Err(ProxyError::ValidationFailed),
        }
        match SafetyValidator::validate_schema_compatibility(current_schema, prev_schema, &prev_info) {
            Ok(_) => {},
            Err(_) => return Err(ProxyError::ValidationFailed),
        }
        let now = env.timestamp;
        let rollback_metrics = match MonitoringManager::start_metrics_collection(now, record.version) {
            Ok(m) => m,
            Err(_) => return Err(ProxyError::ValidationFailed),
        };
        let _ = env.storage.set_implementation(&record.prev);
        env.storage.update_version(prev_version);
        env.storage.remove_last_history_entry();
        let _rollback_metrics = MonitoringManager::finalize_metrics(now, rollback_metrics, true);
        let _ = MonitoringManager::health_check(now);
        Ok(())
    }
}


// ===== Monitoring, documentation, checklists and notifications =====

impl UpgradeableProxyContract {
    /// The upgrade analytics.
    pub fn get_upgrade_analytics(env: &ProxyEnv) -> (r: Result<UpgradeAnalytics, ProxyError>)
        ensures
            match r {
                Ok(a) => a@ == spec_analytics(env@.timestamp),
                Err(_) => false,
            },
    {
        match MonitoringManager::calculate_analytics(env.timestamp) {
            Ok(a) => Ok(a),
            Err(_) => Err(ProxyError::ValidationFailed),
        }
    }

    /// Whether conditions favour an upgrade: the proxy is healthy and the
    /// forecast success rate is at least 80.
    pub fn check_upgrade_conditions(env: &ProxyEnv) -> (r: Result<bool, ProxyError>)
        ensures
            r == Ok::<bool, ProxyError>(spec_health(env@.timestamp).status == 0 && spec_trends().forecasted_success_rate >= 80),
    {
        match MonitoringManager::check_upgrade_conditions(env.timestamp) {
            Ok(b) => Ok(b),
            Err(_) => Err(ProxyError::ValidationFailed),
        }
    }

    /// The health of the proxy.
    pub fn get_health_status(env: &ProxyEnv) -> (r: Result<HealthCheckResult, ProxyError>)
        ensures
            match r {
                Ok(h) => h@ == spec_health(env@.timestamp),
                Err(_) => false,
            },
    {
        match MonitoringManager::health_check(env.timestamp) {
            Ok(h) => Ok(h),
            Err(_) => Err(ProxyError::ValidationFailed),
        }
    }

    /// Generates and keeps the documentation of the upgrade from the current
    /// implementation to the proposal's.
    pub fn generate_upgrade_docs(env: &mut ProxyEnv, proposal_id: u64) -> (r: Result<UpgradeDocumentation, ProxyError>)
        requires
            old(env).wf(),
            old(env)@.storage.documentation_counter < u64::MAX,
        ensures
            final(env).wf(),
            match r {
                Ok(d) => {
                    &&& initialized(old(env)@)
                    &&& old(env)@.storage.proposals.contains_key(proposal_id)
                    &&& old(env)@.storage.implementation is Some
                    &&& d@ == spec_documentation(
                        (old(env)@.storage.documentation_counter + 1) as u64,
                        proposal_id,
                        old(env)@.storage.implementation->0,
                        old(env)@.storage.proposals[proposal_id].new_impl,
                        Seq::empty(),
                        old(env)@.timestamp,
                    )
                    &&& final(env)@ == (ProxyEnvModel {
                        storage: StorageModel {
                            documentation_counter: d.id,
                            documentation: old(env)@.storage.documentation.insert(proposal_id, d@),
                            ..old(env)@.storage
                        },
                        ..old(env)@
                    })
                },
                Err(e) => final(env)@ == old(env)@ && e == if !initialized(old(env)@) {
                    ProxyError::NotInitialized
                } else if !old(env)@.storage.proposals.contains_key(proposal_id) {
                    ProxyError::ProposalNotFound
                } else {
                    ProxyError::ImplementationNotSet
                } && (initialized(old(env)@) && old(env)@.storage.proposals.contains_key(proposal_id) ==> old(env)@.storage.implementation is None),
            },
    {
        match env.storage.require_initialized() {
            Ok(()) => {},
            Err(e) => return Err(e),
        }
        let proposal = match env.storage.get_proposal(proposal_id) {
            Ok(p) => p,
            Err(e) => return Err(e),
        };
        let current = match env.storage.current_impl() {
            Some(c) => c,
            None => return Err(ProxyError::ImplementationNotSet),
        };
        let now = env.timestamp;
        let breaking: Vec<Vec<u8>> = Vec::new();
        proof {
            assert(breaking.deep_view() =~= Seq::<Seq<u8>>::empty());
        }
        let docs = DocumentationGenerator::generate_documentation(&mut env.storage, now, proposal_id, current, proposal.new_impl, breaking);
        match docs {
            Ok(d) => Ok(d),
            Err(_) => Err(ProxyError::ValidationFailed),
        }
    }

    /// Creates and keeps the standard validation checklist of a proposal.
    pub fn create_upgrade_checklist(env: &mut ProxyEnv, proposal_id: u64) -> (r: Result<UpgradeChecklist, ProxyError>)
        requires
            old(env).wf(),
        ensures
            final(env).wf(),
            match r {
                Ok(c) => {
                    &&& initialized(old(env)@)
                    &&& old(env)@.storage.proposals.contains_key(proposal_id)
                    &&& c@ == spec_new_checklist(proposal_id, old(env)@.timestamp)
                    &&& final(env)@ == (ProxyEnvModel {
                        storage: StorageModel {
                            checklists: old(env)@.storage.checklists.insert(proposal_id, c@),
                            ..old(env)@.storage
                        },
                        ..old(env)@
                    })
                },
                Err(e) => final(env)@ == old(env)@ && e == if !initialized(old(env)@) {
                    ProxyError::NotInitialized
                } else {
                    ProxyError::ProposalNotFound
                } && (initialized(old(env)@) ==> !old(env)@.storage.proposals.contains_key(proposal_id)),
            },
    {
        match env.storage.require_initialized() {
            Ok(()) => {},
            Err(e) => return Err(e),
        }
        match env.storage.get_proposal(proposal_id) {
            Ok(_) => {},
            Err(e) => return Err(e),
        }
        let now = env.timestamp;
        match ChecklistManager::create_checklist(&mut env.storage, now, proposal_id) {
            Ok(c) => Ok(c),
            Err(_) => Err(ProxyError::ValidationFailed),
        }
    }

    /// Completes an item of a proposal's checklist; `ValidationFailed` when
    /// the proposal has no checklist.
    pub fn complete_checklist_item(env: &mut ProxyEnv, proposal_id: u64, item_id: u32) -> (r: Result<(), ProxyError>)
        requires
            old(env).wf(),
        ensures
            final(env).wf(),
            r == if !initialized(old(env)@) {
                Err(ProxyError::NotInitialized)
            } else if !old(env)@.storage.checklists.contains_key(proposal_id) {
                Err(ProxyError::ValidationFailed)
            } else {
                Ok(())
            },
            r is Ok ==> final(env)@ == (ProxyEnvModel {
                storage: StorageModel {
                    checklists: old(env)@.storage.checklists.insert(
                        proposal_id,
                        with_items(
                            old(env)@.storage.checklists[proposal_id],
                            items_marked(old(env)@.storage.checklists[proposal_id].items, item_id, old(env)@.timestamp),
                        ),
                    ),
                    ..old(env)@.storage
                },
                ..old(env)@
            }),
            r is Err ==> final(env)@ == old(env)@,
    {
        match env.storage.require_initialized() {
            Ok(()) => {},
            Err(e) => return Err(e),
        }
        let now = env.timestamp;
        match ChecklistManager::mark_item_complete(&mut env.storage, now, proposal_id, item_id) {
            Ok(_) => Ok(()),
            Err(_) => Err(ProxyError::ValidationFailed),
        }
    }

    /// Whether every item of a proposal's checklist is completed;
    /// `ValidationFailed` when the proposal has no checklist.
    pub fn can_proceed_with_upgrade(env: &ProxyEnv, proposal_id: u64) -> (r: Result<bool, ProxyError>)
        requires
            env.wf(),
        ensures
            r == if !initialized(env@) {
                Err(ProxyError::NotInitialized)
            } else if !env@.storage.checklists.contains_key(proposal_id) {
                Err(ProxyError::ValidationFailed)
            } else {
                Ok(env@.storage.checklists[proposal_id].all_completed)
            },
    {
        match env.storage.require_initialized() {
            Ok(()) => {},
            Err(e) => return Err(e),
        }
        match ChecklistManager::can_proceed(&env.storage, proposal_id) {
            Ok(b) => Ok(b),
            Err(_) => Err(ProxyError::ValidationFailed),
        }
    }

    /// Sends `recipient` a notification of type `message_type` about a
    /// proposal.
    pub fn send_upgrade_notification(env: &mut ProxyEnv, recipient: Address, proposal_id: u64, message_type: u32) -> (r: Result<(), ProxyError>)
        requires
            old(env).wf(),
            old(env)@.storage.notification_counter < u64::MAX,
        ensures
            final(env).wf(),
            r == if initialized(old(env)@) { Ok(()) } else { Err(ProxyError::NotInitialized) },
            r is Ok ==> final(env)@ == (ProxyEnvModel {
                storage: StorageModel {
                    notification_counter: (old(env)@.storage.notification_counter + 1) as u64,
                    ..old(env)@.storage
                },
                ..old(env)@
            }),
            r is Err ==> final(env)@ == old(env)@,
    {
        match env.storage.require_initialized() {
            Ok(()) => {},
            Err(e) => return Err(e),
        }
        let subject = text_of("Upgrade Notification");
        let body = text_of("An upgrade operation is in progress");
        let now = env.timestamp;
        match NotificationSystem::send_notification(&mut env.storage, now, message_type, recipient, subject, body, proposal_id) {
            Ok(_) => Ok(()),
            Err(_) => Err(ProxyError::ValidationFailed),
        }
    }

    /// The impact of moving from the current implementation to `new_impl`,
    /// given the schema versions the two reported and the compatibility that
    /// `new_impl` declared (if it declared one).
    pub fn analyze_upgrade_safety(
        env: &ProxyEnv,
        new_impl: Address,
        current_schema: Option<u32>,
        new_schema: Option<u32>,
        new_info: Option<CompatibilityInfo>,
    ) -> (r: Result<UpgradeImpactAnalysis, ProxyError>)
        requires
            env.wf(),
        ensures
            match r {
                Ok(a) => {
                    &&& initialized(env@)
                    &&& env@.storage.implementation is Some
                    &&& spec_analyze_impact(current_schema, new_schema, new_info.deep_view())
                        == Ok::<UpgradeImpactAnalysisModel, super::error::SafetyError>(a@)
                },
                Err(e) => e == if !initialized(env@) {
                    ProxyError::NotInitialized
                } else if env@.storage.implementation is None {
                    ProxyError::ImplementationNotSet
                } else {
                    ProxyError::ValidationFailed
                } && (initialized(env@) && env@.storage.implementation is Some
                    ==> spec_analyze_impact(current_schema, new_schema, new_info.deep_view()) is Err),
            },
    {
        match env.storage.require_initialized() {
            Ok(()) => {},
            Err(e) => return Err(e),
        }
        match env.storage.current_impl() {
            Some(_) => {},
            None => return Err(ProxyError::ImplementationNotSet),
        }
        match SafetyValidator::analyze_upgrade_impact(current_schema, new_schema, &new_info) {
            Ok(a) => Ok(a),
            Err(_) => Err(ProxyError::ValidationFailed),
        }
    }

    /// The metrics of a proposal's upgrade. The metrics of upgrades are not
    /// kept, so this always fails with `ValidationFailed`.
    pub fn get_upgrade_metrics(env: &ProxyEnv, proposal_id: u64) -> (r: Result<UpgradeMetrics, ProxyError>)
        ensures
            match r {
                Ok(_) => false,
                Err(e) => e == ProxyError::ValidationFailed,
            },
    {
        match MonitoringManager::get_metrics_report(proposal_id) {
            Ok(m) => Ok(m),
            Err(_) => Err(ProxyError::ValidationFailed),
        }
    }

    /// The forecast success rate of the next upgrade.
    pub fn forecast_upgrade_success(env: &ProxyEnv) -> (r: Result<u32, ProxyError>)
        ensures
            r == Ok::<u32, ProxyError>(spec_trends().forecasted_success_rate),
    {
        match MonitoringManager::forecast_success_rate() {
            Ok(f) => Ok(f),
            Err(_) => Err(ProxyError::ValidationFailed),
        }
    }
}


impl UpgradeableProxyContract {
    /// The checks of `execute_upgrade` that come before any implementation
    /// is asked for its schema version: see [`spec_upgrade_ready`]. On
    /// success, the proposal.
    pub fn check_upgrade_ready(env: &ProxyEnv, proposal_id: u64) -> (r: Result<UpgradeProposal, ProxyError>)
        requires
            env.wf(),
        ensures
            match r {
                Ok(p) => spec_upgrade_ready(env@, proposal_id) is Ok && p@ == env@.storage.proposals[proposal_id],
                Err(e) => spec_upgrade_ready(env@, proposal_id) == Err::<(), ProxyError>(e),
            },
    {
        match env.storage.require_initialized() {
            Ok(()) => {},
            Err(e) => return Err(e),
        }
        let proposal = match env.storage.get_proposal(proposal_id) {
            Ok(p) => p,
            Err(e) => return Err(e),
        };
        if proposal.executed {
            return Err(ProxyError::AlreadyExecuted);
        }
        let threshold = env.storage.threshold();
        proof {
            assert(proposal.approvals.deep_view().len() == proposal.approvals@.len());
        }
        if (proposal.approvals.len() as u64) < (threshold as u64) {
            return Err(ProxyError::ThresholdNotMet);
        }
        if env.timestamp < proposal.executable_at {
            return Err(ProxyError::DelayNotPassed);
        }
        Ok(proposal)
    }

    /// The history entry that a rollback undoes: the latest one, on an
    /// initialized proxy.
    pub fn rollback_target(env: &ProxyEnv) -> (r: Result<ImplementationRecord, ProxyError>)
        ensures
            match r {
                Ok(rec) => initialized(env@) && env@.storage.history.len() > 0 && rec@ == env@.storage.history.last(),
                Err(e) => if !initialized(env@) {
                    e == ProxyError::NotInitialized
                } else {
                    env@.storage.history.len() == 0 && e == ProxyError::NoRollbackAvailable
                },
            },
    {
        match env.storage.require_initialized() {
            Ok(()) => {},
            Err(e) => return Err(e),
        }
        match env.storage.get_last_history_record() {
            Some(r) => Ok(r),
            None => Err(ProxyError::NoRollbackAvailable),
        }
    }
}

} // verus!
