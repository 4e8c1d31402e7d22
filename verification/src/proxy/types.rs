//! Data types of the upgradeable proxy.
use vstd::prelude::*;
use crate::address::Address;
use crate::table::Duplicate;

verus! {

/// A proposal to upgrade to a new implementation.
#[derive(Clone, Debug, PartialEq)]
pub struct UpgradeProposal {
    pub id: u64,
    pub new_impl: Address,
    /// Free-form data; a first byte of 1 asks for a data migration.
    pub metadata: Vec<u8>,
    pub proposer: Address,
    /// The admins who approved, each once, in order.
    pub approvals: Vec<Address>,
    pub created_at: u64,
    /// Ledger time from which the proposal may be executed.
    pub executable_at: u64,
    pub executed: bool,
}

/// The model of [`UpgradeProposal`].
pub struct UpgradeProposalModel {
    pub id: u64,
    pub new_impl: Seq<u8>,
    pub metadata: Seq<u8>,
    pub proposer: Seq<u8>,
    pub approvals: Seq<Seq<u8>>,
    pub created_at: u64,
    pub executable_at: u64,
    pub executed: bool,
}

impl DeepView for UpgradeProposal {
    type V = UpgradeProposalModel;

    open spec fn deep_view(&self) -> UpgradeProposalModel {
        UpgradeProposalModel {
            id: self.id.deep_view(),
            new_impl: self.new_impl.deep_view(),
            metadata: self.metadata.deep_view(),
            proposer: self.proposer.deep_view(),
            approvals: self.approvals.deep_view(),
            created_at: self.created_at.deep_view(),
            executable_at: self.executable_at.deep_view(),
            executed: self.executed.deep_view(),
        }
    }
}

impl View for UpgradeProposal {
    type V = UpgradeProposalModel;

    open spec fn view(&self) -> UpgradeProposalModel {
        UpgradeProposalModel {
            id: self.id.deep_view(),
            new_impl: self.new_impl.deep_view(),
            metadata: self.metadata.deep_view(),
            proposer: self.proposer.deep_view(),
            approvals: self.approvals.deep_view(),
            created_at: self.created_at.deep_view(),
            executable_at: self.executable_at.deep_view(),
            executed: self.executed.deep_view(),
        }
    }
}

impl Duplicate for UpgradeProposal {
    fn duplicate(&self) -> (r: Self) {
        UpgradeProposal {
            id: self.id.duplicate(),
            new_impl: self.new_impl.duplicate(),
            metadata: self.metadata.duplicate(),
            proposer: self.proposer.duplicate(),
            approvals: self.approvals.duplicate(),
            created_at: self.created_at.duplicate(),
            executable_at: self.executable_at.duplicate(),
            executed: self.executed.duplicate(),
        }
    }
}
/// An entry of the implementation history.
#[derive(Clone, Debug, PartialEq)]
pub struct ImplementationRecord {
    pub version: u64,
    pub implementation: Address,
    /// The implementation it replaced.
    pub prev: Address,
}

/// The model of [`ImplementationRecord`].
pub struct ImplementationRecordModel {
    pub version: u64,
    pub implementation: Seq<u8>,
    pub prev: Seq<u8>,
}

impl DeepView for ImplementationRecord {
    type V = ImplementationRecordModel;

    open spec fn deep_view(&self) -> ImplementationRecordModel {
        ImplementationRecordModel {
            version: self.version.deep_view(),
            implementation: self.implementation.deep_view(),
            prev: self.prev.deep_view(),
        }
    }
}

impl View for ImplementationRecord {
    type V = ImplementationRecordModel;

    open spec fn view(&self) -> ImplementationRecordModel {
        ImplementationRecordModel {
            version: self.version.deep_view(),
            implementation: self.implementation.deep_view(),
            prev: self.prev.deep_view(),
        }
    }
}

impl Duplicate for ImplementationRecord {
    fn duplicate(&self) -> (r: Self) {
        ImplementationRecord {
            version: self.version.duplicate(),
            implementation: self.implementation.duplicate(),
            prev: self.prev.duplicate(),
        }
    }
}
/// Results of simulated calls against a new implementation.
#[derive(Clone, Debug, PartialEq)]
pub struct UpgradeImpact {
    /// Names of the functions tested.
    pub critical_funcs_tested: Vec<Vec<u8>>,
    /// Names of the functions whose simulation failed.
    pub failed_sims: Vec<Vec<u8>>,
    pub estimated_gas_increase: u64,
}

/// The model of [`UpgradeImpact`].
pub struct UpgradeImpactModel {
    pub critical_funcs_tested: Seq<Seq<u8>>,
    pub failed_sims: Seq<Seq<u8>>,
    pub estimated_gas_increase: u64,
}

impl DeepView for UpgradeImpact {
    type V = UpgradeImpactModel;

    open spec fn deep_view(&self) -> UpgradeImpactModel {
        UpgradeImpactModel {
            critical_funcs_tested: self.critical_funcs_tested.deep_view(),
            failed_sims: self.failed_sims.deep_view(),
            estimated_gas_increase: self.estimated_gas_increase.deep_view(),
        }
    }
}

impl View for UpgradeImpact {
    type V = UpgradeImpactModel;

    open spec fn view(&self) -> UpgradeImpactModel {
        UpgradeImpactModel {
            critical_funcs_tested: self.critical_funcs_tested.deep_view(),
            failed_sims: self.failed_sims.deep_view(),
            estimated_gas_increase: self.estimated_gas_increase.deep_view(),
        }
    }
}

impl Duplicate for UpgradeImpact {
    fn duplicate(&self) -> (r: Self) {
        UpgradeImpact {
            critical_funcs_tested: self.critical_funcs_tested.duplicate(),
            failed_sims: self.failed_sims.duplicate(),
            estimated_gas_increase: self.estimated_gas_increase.duplicate(),
        }
    }
}
/// Progress of a phased migration.
#[derive(Clone, Debug, PartialEq)]
pub struct MigrationProgress {
    pub phase: u32,
    pub total_phases: u32,
    pub completed: bool,
}

/// The model of [`MigrationProgress`].
pub struct MigrationProgressModel {
    pub phase: u32,
    pub total_phases: u32,
    pub completed: bool,
}

impl DeepView for MigrationProgress {
    type V = MigrationProgressModel;

    open spec fn deep_view(&self) -> MigrationProgressModel {
        MigrationProgressModel {
            phase: self.phase.deep_view(),
            total_phases: self.total_phases.deep_view(),
            completed: self.completed.deep_view(),
        }
    }
}

impl View for MigrationProgress {
    type V = MigrationProgressModel;

    open spec fn view(&self) -> MigrationProgressModel {
        MigrationProgressModel {
            phase: self.phase.deep_view(),
            total_phases: self.total_phases.deep_view(),
            completed: self.completed.deep_view(),
        }
    }
}

impl Duplicate for MigrationProgress {
    fn duplicate(&self) -> (r: Self) {
        MigrationProgress {
            phase: self.phase.duplicate(),
            total_phases: self.total_phases.duplicate(),
            completed: self.completed.duplicate(),
        }
    }
}
} // verus!
