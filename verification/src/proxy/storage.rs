//! The stored state of the upgradeable proxy.
use vstd::prelude::*;
use crate::address::{Address, list_contains};
use crate::table::{Duplicate, Table};
use super::error::ProxyError;
use super::types::{ImplementationRecord, ImplementationRecordModel, UpgradeProposal, UpgradeProposalModel};
use super::automation::{UpgradeChecklist, UpgradeChecklistModel, UpgradeDocumentation, UpgradeDocumentationModel};

verus! {

/// The keys of the proxy's instance storage.
#[derive(Clone, Copy, Debug, PartialEq, Eq, Structural)]
pub enum DataKey {
    Admins,
    Threshold,
    Delay,
    Impl,
    Version,
    Proposals,
    ProposalSeq,
    History,
    LastInvoker,
}

/// Everything the proxy keeps in its instance storage.
#[derive(Clone, Debug, PartialEq)]
pub struct Storage {
    /// The admins; the proxy is initialized once they are set.
    pub admins: Option<Vec<Address>>,
    pub threshold: u32,
    pub delay: u64,
    pub implementation: Option<Address>,
    pub version: u64,
    pub proposals: Table<u64, UpgradeProposal>,
    pub proposal_seq: u64,
    pub history: Vec<ImplementationRecord>,
    pub last_invoker: Option<Address>,
    pub next_migration_id: u64,
    /// Snapshots saved before migrations, by migration id.
    pub rollback_snapshots: Table<u64, Vec<u8>>,
    pub documentation_counter: u64,
    /// Upgrade documentation, by proposal id.
    pub documentation: Table<u64, UpgradeDocumentation>,
    /// Validation checklists, by proposal id.
    pub checklists: Table<u64, UpgradeChecklist>,
    pub notification_counter: u64,
}

/// The model of [`Storage`].
pub struct StorageModel {
    pub admins: Option<Seq<Seq<u8>>>,
    pub threshold: u32,
    pub delay: u64,
    pub implementation: Option<Seq<u8>>,
    pub version: u64,
    pub proposals: Map<u64, UpgradeProposalModel>,
    pub proposal_seq: u64,
    pub history: Seq<ImplementationRecordModel>,
    pub last_invoker: Option<Seq<u8>>,
    pub next_migration_id: u64,
    pub rollback_snapshots: Map<u64, Seq<u8>>,
    pub documentation_counter: u64,
    pub documentation: Map<u64, UpgradeDocumentationModel>,
    pub checklists: Map<u64, UpgradeChecklistModel>,
    pub notification_counter: u64,
}

impl View for Storage {
    type V = StorageModel;

    open spec fn view(&self) -> StorageModel {
        StorageModel {
            admins: self.admins.deep_view(),
            threshold: self.threshold,
            delay: self.delay,
            implementation: self.implementation.deep_view(),
            version: self.version,
            proposals: self.proposals.map(),
            proposal_seq: self.proposal_seq,
            history: self.history.deep_view(),
            last_invoker: self.last_invoker.deep_view(),
            next_migration_id: self.next_migration_id,
            rollback_snapshots: self.rollback_snapshots.map(),
            documentation_counter: self.documentation_counter,
            documentation: self.documentation.map(),
            checklists: self.checklists.map(),
            notification_counter: self.notification_counter,
        }
    }
}

/// Each proposal is stored under its id, which is not past the proposal
/// sequence, each checklist has between 1 and 1000 items, and a proxy not
/// yet initialized has no implementation and no recorded invoker.
pub open spec fn model_wf(m: StorageModel) -> bool {
    &&& m.admins is None ==> m.implementation is None && m.last_invoker is None
    &&& forall|id: u64| #[trigger] m.proposals.contains_key(id) ==> m.proposals[id].id == id
    &&& forall|id: u64| #[trigger] m.proposals.contains_key(id) ==> id <= m.proposal_seq
    &&& forall|id: u64| #[trigger] m.checklists.contains_key(id) ==> 0 < m.checklists[id].items.len() <= 1000
}

/// The state of a proxy that has stored nothing yet.
pub open spec fn empty_storage_model() -> StorageModel {
    StorageModel {
        admins: None,
        threshold: 0,
        delay: 0,
        implementation: None,
        version: 0,
        proposals: Map::empty(),
        proposal_seq: 0,
        history: Seq::empty(),
        last_invoker: None,
        next_migration_id: 0,
        rollback_snapshots: Map::empty(),
        documentation_counter: 0,
        documentation: Map::empty(),
        checklists: Map::empty(),
        notification_counter: 0,
    }
}

/// The state after `init`.
pub open spec fn initialized_model(m: StorageModel, admins: Seq<Seq<u8>>, threshold: u32, delay: u64) -> StorageModel {
    StorageModel {
        admins: Some(admins),
        threshold,
        delay,
        version: 0,
        proposal_seq: 0,
        history: Seq::empty(),
        proposals: Map::empty(),
        last_invoker: if admins.len() > 0 { Some(admins[0]) } else { m.last_invoker },
        ..m
    }
}

impl Storage {
    /// Every table is in key order, and the stored values are consistent.
    pub open spec fn wf(&self) -> bool {
        &&& self.proposals.wf()
        &&& self.rollback_snapshots.wf()
        &&& self.documentation.wf()
        &&& self.checklists.wf()
        &&& model_wf(self@)
    }

    /// A proxy that has stored nothing yet.
    pub fn new() -> (s: Storage)
        ensures
            s.wf(),
            s@ == empty_storage_model(),
    {
        let s = Storage {
            admins: None,
            threshold: 0,
            delay: 0,
            implementation: None,
            version: 0,
            proposals: Table::new(),
            proposal_seq: 0,
            history: Vec::new(),
            last_invoker: None,
            next_migration_id: 0,
            rollback_snapshots: Table::new(),
            documentation_counter: 0,
            documentation: Table::new(),
            checklists: Table::new(),
            notification_counter: 0,
        };
        proof {
            assert(s.history.deep_view() =~= Seq::<ImplementationRecordModel>::empty());
        }
        s
    }

    pub fn is_initialized(&self) -> (b: bool)
        ensures
            b == self@.admins is Some,
    {
        self.admins.is_some()
    }

    pub fn require_initialized(&self) -> (r: Result<(), ProxyError>)
        ensures
            r == if self@.admins is Some { Ok(()) } else { Err(ProxyError::NotInitialized) },
    {
        if self.is_initialized() {
            Ok(())
        } else {
            Err(ProxyError::NotInitialized)
        }
    }

    /// Stores the admins, threshold and delay, and starts the version, the
    /// proposals and the history afresh; the first admin becomes the last
    /// invoker.
    pub fn init(&mut self, admins: Vec<Address>, threshold: u32, delay: u64)
        requires
            old(self).wf(),
        ensures
            final(self).wf(),
            final(self)@ == initialized_model(old(self)@, admins.deep_view(), threshold, delay),
    {
        let first = if admins.len() > 0 { Some(admins[0].duplicate()) } else { None };
        self.admins = Some(admins);
        self.threshold = threshold;
        self.delay = delay;
        self.version = 0;
        self.proposal_seq = 0;
        self.history = Vec::new();
        self.proposals = Table::new();
        match first {
            Some(a) => self.last_invoker = Some(a),
            None => {},
        }
        proof {
            assert(self.history.deep_view() =~= Seq::<ImplementationRecordModel>::empty());
        }
    }

    /// Any admin may act once the proxy is initialized; the caller checks
    /// the authorization of the address it is given.
    pub fn require_admin_auth(&self) -> (r: Result<(), ProxyError>)
        ensures
            r == if self@.admins is Some { Ok(()) } else { Err(ProxyError::NotInitialized) },
    {
        if !self.is_initialized() {
            return Err(ProxyError::NotInitialized);
        }
        Ok(())
    }

    pub fn is_admin(&self, addr: &Address) -> (b: bool)
        requires
            self@.admins is Some,
        ensures
            b == self@.admins->0.contains(addr@),
    {
        match &self.admins {
            Some(admins) => list_contains(admins, addr),
            None => false,
        }
    }

    pub fn threshold(&self) -> (t: u32)
        requires
            self@.admins is Some,
        ensures
            t == self@.threshold,
    {
        self.threshold
    }

    pub fn delay_seconds(&self) -> (d: u64)
        requires
            self@.admins is Some,
        ensures
            d == self@.delay,
    {
        self.delay
    }

    pub fn version(&self) -> (v: u64)
        ensures
            v == self@.version,
    {
        self.version
    }

    pub fn current_impl(&self) -> (r: Option<Address>)
        ensures
            r.deep_view() == self@.implementation,
    {
        match &self.implementation {
            Some(a) => Some(a.duplicate()),
            None => None,
        }
    }

    /// Advances the proposal counter and returns its new value.
    pub fn next_proposal_id(&mut self) -> (id: u64)
        requires
            old(self).wf(),
            old(self)@.admins is Some,
            old(self)@.proposal_seq < u64::MAX,
        ensures
            final(self).wf(),
            id == old(self)@.proposal_seq + 1,
            final(self)@ == (StorageModel { proposal_seq: id, ..old(self)@ }),
    {
        self.proposal_seq = self.proposal_seq + 1;
        self.proposal_seq
    }

    pub fn save_proposal(&mut self, proposal: &UpgradeProposal) -> (r: Result<(), ProxyError>)
        requires
            old(self).wf(),
            old(self)@.admins is Some,
            proposal.id <= old(self)@.proposal_seq,
        ensures
            final(self).wf(),
            r is Ok,
            final(self)@ == (StorageModel { proposals: old(self)@.proposals.insert(proposal.id, proposal@), ..old(self)@ }),
    {
        self.proposals.set(proposal.id, proposal.duplicate());
        Ok(())
    }

    pub fn get_proposal(&self, id: u64) -> (r: Result<UpgradeProposal, ProxyError>)
        requires
            self.wf(),
            self@.admins is Some,
        ensures
            match r {
                Ok(p) => self@.proposals.contains_key(id) && p@ == self@.proposals[id],
                Err(e) => !self@.proposals.contains_key(id) && e == ProxyError::ProposalNotFound,
            },
    {
        match self.proposals.get(&id) {
            Some(p) => Ok(p.duplicate()),
            None => Err(ProxyError::ProposalNotFound),
        }
    }

    /// Makes `new_impl` the current implementation; the version moves with
    /// the history.
    pub fn set_implementation(&mut self, new_impl: &Address) -> (r: Result<(), ProxyError>)
        requires
            old(self).wf(),
            old(self)@.admins is Some,
        ensures
            final(self).wf(),
            r is Ok,
            final(self)@ == (StorageModel { implementation: Some(new_impl@), ..old(self)@ }),
    {
        self.implementation = Some(new_impl.duplicate());
        Ok(())
    }

    /// Appends `rec` to the history and takes its version.
    pub fn record_history(&mut self, rec: ImplementationRecord)
        requires
            old(self).wf(),
            old(self)@.admins is Some,
        ensures
            final(self).wf(),
            final(self)@ == (StorageModel {
                history: old(self)@.history.push(rec@),
                version: rec.version,
                ..old(self)@
            }),
    {
        let version = rec.version;
        let ghost pre = self.history.deep_view();
        self.history.push(rec);
        proof {
            assert(self.history.deep_view() =~= pre.push(rec@));
        }
        self.version = version;
    }

    /// The implementation that the latest upgrade replaced, if there was one.
    pub fn last_history_prev(&self) -> (r: Option<Address>)
        requires
            self@.admins is Some,
        ensures
            r.deep_view() == if self@.history.len() == 0 { None } else { Some(self@.history.last().prev) },
    {
        if self.history.len() == 0 {
            return None;
        }
        proof {
            assert(self@.history.last() == self.history@[self.history@.len() - 1]@);
        }
        Some(self.history[self.history.len() - 1].prev.duplicate())
    }

    /// The latest history entry, if there is one.
    pub fn get_last_history_record(&self) -> (r: Option<ImplementationRecord>)
        ensures
            r.deep_view() == if self@.history.len() == 0 { None } else { Some(self@.history.last()) },
    {
        if self.history.len() == 0 {
            return None;
        }
        proof {
            assert(self@.history.last() == self.history@[self.history@.len() - 1]@);
        }
        Some(self.history[self.history.len() - 1].duplicate())
    }

    pub fn update_version(&mut self, version: u64)
        requires
            old(self).wf(),
        ensures
            final(self).wf(),
            final(self)@ == (StorageModel { version, ..old(self)@ }),
    {
        self.version = version;
    }

    /// Drops the latest history entry, if there is one.
    pub fn remove_last_history_entry(&mut self)
        requires
            old(self).wf(),
        ensures
            final(self).wf(),
            final(self)@ == (StorageModel {
                history: if old(self)@.history.len() == 0 { old(self)@.history } else { old(self)@.history.drop_last() },
                ..old(self)@
            }),
    {
        if self.history.len() > 0 {
            let ghost pre = self.history.deep_view();
            let _ = self.history.pop();
            proof {
                assert(self.history.deep_view() =~= pre.drop_last());
            }
        }
    }

    pub fn set_last_invoker(&mut self, invoker: &Address)
        requires
            old(self).wf(),
            old(self)@.admins is Some,
        ensures
            final(self).wf(),
            final(self)@ == (StorageModel { last_invoker: Some(invoker@), ..old(self)@ }),
    {
        self.last_invoker = Some(invoker.duplicate());
    }

    pub fn last_invoker(&self) -> (r: Result<Address, ProxyError>)
        ensures
            match r {
                Ok(a) => self@.last_invoker == Some(a@),
                Err(e) => self@.last_invoker is None && e == ProxyError::StorageError,
            },
    {
        match &self.last_invoker {
            Some(a) => Ok(a.duplicate()),
            None => Err(ProxyError::StorageError),
        }
    }
}

} // verus!
