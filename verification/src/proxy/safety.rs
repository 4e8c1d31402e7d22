//! Safety checks around upgrades: schema compatibility, impact analysis,
//! risk policies and state snapshots.
//!
//! The schema version of an implementation is what its `schema_version`
//! function answers; the host asks it, and these checks take the answer
//! (`None` when it was not a `u32`).
use vstd::prelude::*;
use crate::address::Address;
use crate::table::Duplicate;
use super::error::SafetyError;

verus! {

/// What an implementation declares about the schemas it can work with.
#[derive(Clone, Debug, PartialEq)]
pub struct CompatibilityInfo {
    /// The schema version it targets.
    pub target_schema_version: u32,
    /// The oldest schema version it accepts.
    pub min_compatible_version: u32,
    pub breaking_changes: Vec<Vec<u8>>,
    pub deprecated_features: Vec<Vec<u8>>,
}

/// The model of [`CompatibilityInfo`].
pub struct CompatibilityInfoModel {
    pub target_schema_version: u32,
    pub min_compatible_version: u32,
    pub breaking_changes: Seq<Seq<u8>>,
    pub deprecated_features: Seq<Seq<u8>>,
}

impl DeepView for CompatibilityInfo {
    type V = CompatibilityInfoModel;

    open spec fn deep_view(&self) -> CompatibilityInfoModel {
        CompatibilityInfoModel {
            target_schema_version: self.target_schema_version.deep_view(),
            min_compatible_version: self.min_compatible_version.deep_view(),
            breaking_changes: self.breaking_changes.deep_view(),
            deprecated_features: self.deprecated_features.deep_view(),
        }
    }
}

impl View for CompatibilityInfo {
    type V = CompatibilityInfoModel;

    open spec fn view(&self) -> CompatibilityInfoModel {
        CompatibilityInfoModel {
            target_schema_version: self.target_schema_version.deep_view(),
            min_compatible_version: self.min_compatible_version.deep_view(),
            breaking_changes: self.breaking_changes.deep_view(),
            deprecated_features: self.deprecated_features.deep_view(),
        }
    }
}

impl Duplicate for CompatibilityInfo {
    fn duplicate(&self) -> (r: Self) {
        CompatibilityInfo {
            target_schema_version: self.target_schema_version.duplicate(),
            min_compatible_version: self.min_compatible_version.duplicate(),
            breaking_changes: self.breaking_changes.duplicate(),
            deprecated_features: self.deprecated_features.duplicate(),
        }
    }
}
/// A snapshot of the state taken before an upgrade.
#[derive(Clone, Debug, PartialEq)]
pub struct PreUpgradeState {
    pub current_impl: Address,
    pub schema_version: u32,
    /// In bytes.
    pub state_size: u64,
    pub state_checksum: Vec<u8>,
    pub captured_at: u64,
}

/// The model of [`PreUpgradeState`].
pub struct PreUpgradeStateModel {
    pub current_impl: Seq<u8>,
    pub schema_version: u32,
    pub state_size: u64,
    pub state_checksum: Seq<u8>,
    pub captured_at: u64,
}

impl DeepView for PreUpgradeState {
    type V = PreUpgradeStateModel;

    open spec fn deep_view(&self) -> PreUpgradeStateModel {
        PreUpgradeStateModel {
            current_impl: self.current_impl.deep_view(),
            schema_version: self.schema_version.deep_view(),
            state_size: self.state_size.deep_view(),
            state_checksum: self.state_checksum.deep_view(),
            captured_at: self.captured_at.deep_view(),
        }
    }
}

impl View for PreUpgradeState {
    type V = PreUpgradeStateModel;

    open spec fn view(&self) -> PreUpgradeStateModel {
        PreUpgradeStateModel {
            current_impl: self.current_impl.deep_view(),
            schema_version: self.schema_version.deep_view(),
            state_size: self.state_size.deep_view(),
            state_checksum: self.state_checksum.deep_view(),
            captured_at: self.captured_at.deep_view(),
        }
    }
}

impl Duplicate for PreUpgradeState {
    fn duplicate(&self) -> (r: Self) {
        PreUpgradeState {
            current_impl: self.current_impl.duplicate(),
            schema_version: self.schema_version.duplicate(),
            state_size: self.state_size.duplicate(),
            state_checksum: self.state_checksum.duplicate(),
            captured_at: self.captured_at.duplicate(),
        }
    }
}
/// Costs measured while an upgrade ran.
#[derive(Clone, Debug, PartialEq)]
pub struct UpgradeMetrics {
    pub gas_consumed: u64,
    pub execution_time_ms: u64,
    /// Storage operations made.
    pub state_changes: u32,
    pub data_migrated_bytes: u64,
}

/// The model of [`UpgradeMetrics`].
pub struct UpgradeMetricsModel {
    pub gas_consumed: u64,
    pub execution_time_ms: u64,
    pub state_changes: u32,
    pub data_migrated_bytes: u64,
}

impl DeepView for UpgradeMetrics {
    type V = UpgradeMetricsModel;

    open spec fn deep_view(&self) -> UpgradeMetricsModel {
        UpgradeMetricsModel {
            gas_consumed: self.gas_consumed.deep_view(),
            execution_time_ms: self.execution_time_ms.deep_view(),
            state_changes: self.state_changes.deep_view(),
            data_migrated_bytes: self.data_migrated_bytes.deep_view(),
        }
    }
}

impl View for UpgradeMetrics {
    type V = UpgradeMetricsModel;

    open spec fn view(&self) -> UpgradeMetricsModel {
        UpgradeMetricsModel {
            gas_consumed: self.gas_consumed.deep_view(),
            execution_time_ms: self.execution_time_ms.deep_view(),
            state_changes: self.state_changes.deep_view(),
            data_migrated_bytes: self.data_migrated_bytes.deep_view(),
        }
    }
}

impl Duplicate for UpgradeMetrics {
    fn duplicate(&self) -> (r: Self) {
        UpgradeMetrics {
            gas_consumed: self.gas_consumed.duplicate(),
            execution_time_ms: self.execution_time_ms.duplicate(),
            state_changes: self.state_changes.duplicate(),
            data_migrated_bytes: self.data_migrated_bytes.duplicate(),
        }
    }
}
/// The outcome of the checks after an upgrade.
#[derive(Clone, Debug, PartialEq)]
pub struct PostUpgradeResult {
    pub validation_passed: bool,
    pub new_impl: Address,
    pub schema_version: u32,
    pub state_integrity_ok: bool,
    pub migration_success: bool,
    pub metrics: UpgradeMetrics,
}

/// The model of [`PostUpgradeResult`].
pub struct PostUpgradeResultModel {
    pub validation_passed: bool,
    pub new_impl: Seq<u8>,
    pub schema_version: u32,
    pub state_integrity_ok: bool,
    pub migration_success: bool,
    pub metrics: UpgradeMetricsModel,
}

impl DeepView for PostUpgradeResult {
    type V = PostUpgradeResultModel;

    open spec fn deep_view(&self) -> PostUpgradeResultModel {
        PostUpgradeResultModel {
            validation_passed: self.validation_passed.deep_view(),
            new_impl: self.new_impl.deep_view(),
            schema_version: self.schema_version.deep_view(),
            state_integrity_ok: self.state_integrity_ok.deep_view(),
            migration_success: self.migration_success.deep_view(),
            metrics: self.metrics.deep_view(),
        }
    }
}

impl View for PostUpgradeResult {
    type V = PostUpgradeResultModel;

    open spec fn view(&self) -> PostUpgradeResultModel {
        PostUpgradeResultModel {
            validation_passed: self.validation_passed.deep_view(),
            new_impl: self.new_impl.deep_view(),
            schema_version: self.schema_version.deep_view(),
            state_integrity_ok: self.state_integrity_ok.deep_view(),
            migration_success: self.migration_success.deep_view(),
            metrics: self.metrics.deep_view(),
        }
    }
}

impl Duplicate for PostUpgradeResult {
    fn duplicate(&self) -> (r: Self) {
        PostUpgradeResult {
            validation_passed: self.validation_passed.duplicate(),
            new_impl: self.new_impl.duplicate(),
            schema_version: self.schema_version.duplicate(),
            state_integrity_ok: self.state_integrity_ok.duplicate(),
            migration_success: self.migration_success.duplicate(),
            metrics: self.metrics.duplicate(),
        }
    }
}
/// The estimated impact of moving from one implementation to another.
#[derive(Clone, Debug, PartialEq)]
pub struct UpgradeImpactAnalysis {
    /// 0 low, 1 medium, 2 high, 3 critical.
    pub risk_level: u32,
    pub estimated_gas_usage: u64,
    pub breaking_changes_count: u32,
    pub affected_state_fields: u32,
    pub requires_migration: bool,
    /// In seconds.
    pub estimated_completion_time: u64,
}

/// The model of [`UpgradeImpactAnalysis`].
pub struct UpgradeImpactAnalysisModel {
    pub risk_level: u32,
    pub estimated_gas_usage: u64,
    pub breaking_changes_count: u32,
    pub affected_state_fields: u32,
    pub requires_migration: bool,
    pub estimated_completion_time: u64,
}

impl DeepView for UpgradeImpactAnalysis {
    type V = UpgradeImpactAnalysisModel;

    open spec fn deep_view(&self) -> UpgradeImpactAnalysisModel {
        UpgradeImpactAnalysisModel {
            risk_level: self.risk_level.deep_view(),
            estimated_gas_usage: self.estimated_gas_usage.deep_view(),
            breaking_changes_count: self.breaking_changes_count.deep_view(),
            affected_state_fields: self.affected_state_fields.deep_view(),
            requires_migration: self.requires_migration.deep_view(),
            estimated_completion_time: self.estimated_completion_time.deep_view(),
        }
    }
}

impl View for UpgradeImpactAnalysis {
    type V = UpgradeImpactAnalysisModel;

    open spec fn view(&self) -> UpgradeImpactAnalysisModel {
        UpgradeImpactAnalysisModel {
            risk_level: self.risk_level.deep_view(),
            estimated_gas_usage: self.estimated_gas_usage.deep_view(),
            breaking_changes_count: self.breaking_changes_count.deep_view(),
            affected_state_fields: self.affected_state_fields.deep_view(),
            requires_migration: self.requires_migration.deep_view(),
            estimated_completion_time: self.estimated_completion_time.deep_view(),
        }
    }
}

impl Duplicate for UpgradeImpactAnalysis {
    fn duplicate(&self) -> (r: Self) {
        UpgradeImpactAnalysis {
            risk_level: self.risk_level.duplicate(),
            estimated_gas_usage: self.estimated_gas_usage.duplicate(),
            breaking_changes_count: self.breaking_changes_count.duplicate(),
            affected_state_fields: self.affected_state_fields.duplicate(),
            requires_migration: self.requires_migration.duplicate(),
            estimated_completion_time: self.estimated_completion_time.duplicate(),
        }
    }
}
/// The storage keys of safety records.
#[derive(Clone, Debug, PartialEq)]
pub enum SafetyStorageKey {
    /// The snapshot taken before a proposal's upgrade.
    PreUpgradeState(u64),
    /// The compatibility declaration of an implementation.
    CompatibilityInfo(Address),
    /// The metrics of a proposal's upgrade.
    UpgradeMetrics(u64),
    /// The impact analysis of a proposal.
    ImpactAnalysis(u64),
    /// Whether safety checks are enabled.
    SafetyChecksEnabled,
    /// The highest risk level allowed.
    MaxRiskLevel,
}

/// The schema version that an implementation reported, if it reported a `u32`.
pub open spec fn spec_schema_version(reported: Option<u32>) -> Result<u32, SafetyError> {
    match reported {
        Some(v) => Ok(v),
        None => Err(SafetyError::CompatibilityCheckFailed),
    }
}

/// The compatibility assumed of an implementation at schema `v`: it targets
/// and accepts exactly `v`, with no breaking changes or deprecations.
pub open spec fn assumed_compatibility(v: u32) -> CompatibilityInfoModel {
    CompatibilityInfoModel {
        target_schema_version: v,
        min_compatible_version: v,
        breaking_changes: Seq::empty(),
        deprecated_features: Seq::empty(),
    }
}

/// The compatibility of an implementation at schema `v`: what it declares,
/// or, when it declares nothing, [`assumed_compatibility`].
pub open spec fn declared_or_assumed(declared: Option<CompatibilityInfoModel>, v: u32) -> CompatibilityInfoModel {
    match declared {
        Some(info) => info,
        None => assumed_compatibility(v),
    }
}

/// Whether moving from schema `current` to schema `new` is allowed by `info`,
/// the new implementation's declaration.
pub open spec fn spec_compatibility_check(current: u32, new: u32, info: CompatibilityInfoModel) -> Result<bool, SafetyError> {
    if new < info.min_compatible_version {
        Err(SafetyError::SchemaMismatch)
    } else if new < current && current > info.target_schema_version {
        Err(SafetyError::CompatibilityCheckFailed)
    } else {
        Ok(true)
    }
}

/// The outcome of `validate_schema_compatibility` on the reported schemas
/// and the new implementation's declared compatibility.
pub open spec fn spec_validate_schema(
    current: Option<u32>,
    new: Option<u32>,
    declared: Option<CompatibilityInfoModel>,
) -> Result<bool, SafetyError> {
    match (current, new) {
        (Some(c), Some(n)) => spec_compatibility_check(c, n, declared_or_assumed(declared, n)),
        _ => Err(SafetyError::CompatibilityCheckFailed),
    }
}

/// The distance between two schema versions.
pub open spec fn version_distance(a: u32, b: u32) -> u32 {
    if a > b { (a - b) as u32 } else { (b - a) as u32 }
}

/// The risk of a move across `diff` schema versions: critical with breaking
/// changes or beyond 10 versions, high beyond 5, medium beyond 1, else low.
pub open spec fn spec_risk_level(diff: u32, has_breaking_changes: bool) -> u32 {
    if has_breaking_changes || diff > 10 {
        3
    } else if diff > 5 {
        2
    } else if diff > 1 {
        1
    } else {
        0
    }
}

/// The impact analysis of a move from schema `current` to schema `new`.
pub open spec fn impact_of(current: u32, new: u32, info: CompatibilityInfoModel) -> UpgradeImpactAnalysisModel {
    let diff = version_distance(new, current);
    UpgradeImpactAnalysisModel {
        risk_level: spec_risk_level(diff, info.breaking_changes.len() > 0),
        estimated_gas_usage: 500_000,
        breaking_changes_count: info.breaking_changes.len() as u32,
        affected_state_fields: 10,
        requires_migration: diff > 2,
        estimated_completion_time: 30,
    }
}

/// The outcome of `analyze_upgrade_impact` on the reported schemas and the
/// new implementation's declared compatibility.
pub open spec fn spec_analyze_impact(
    current: Option<u32>,
    new: Option<u32>,
    declared: Option<CompatibilityInfoModel>,
) -> Result<UpgradeImpactAnalysisModel, SafetyError> {
    match (current, new) {
        (Some(c), Some(n)) => Ok(impact_of(c, n, declared_or_assumed(declared, n))),
        _ => Err(SafetyError::CompatibilityCheckFailed),
    }
}

/// The outcome of `validate_against_policies`.
pub open spec fn spec_policy_check(a: UpgradeImpactAnalysisModel, max_risk_level: u32) -> Result<bool, SafetyError> {
    if a.risk_level > max_risk_level {
        Err(SafetyError::PreUpgradeValidationFailed)
    } else if a.estimated_completion_time > 300 {
        Err(SafetyError::PreUpgradeValidationFailed)
    } else {
        Ok(true)
    }
}

/// Safety checks for upgrades.
pub struct SafetyValidator;

impl SafetyValidator {
    /// Checks that the new implementation can take over the current one's
    /// data: given the schema versions the two reported and the compatibility
    /// the new one declared (if it declared one), fails when a schema version
    /// was not a `u32` or the new implementation's compatibility refuses the
    /// move.
    pub fn validate_schema_compatibility(
        current_schema: Option<u32>,
        new_schema: Option<u32>,
        new_info: &Option<CompatibilityInfo>,
    ) -> (r: Result<bool, SafetyError>)
        ensures
            r == spec_validate_schema(current_schema, new_schema, new_info.deep_view()),
    {
        let current_version = match Self::get_schema_version(current_schema) {
            Ok(v) => v,
            Err(e) => return Err(e),
        };
        let new_version = match Self::get_schema_version(new_schema) {
            Ok(v) => v,
            Err(e) => return Err(e),
        };
        let compatibility = match Self::get_compatibility_info(new_schema, new_info) {
            Ok(c) => c,
            Err(e) => return Err(e),
        };
        if new_version < compatibility.min_compatible_version {
            return Err(SafetyError::SchemaMismatch);
        }
        if new_version < current_version {
            if current_version > compatibility.target_schema_version {
                return Err(SafetyError::CompatibilityCheckFailed);
            }
        }
        Ok(true)
    }

    /// Checks a state checksum: an empty one fails.
    pub fn validate_state_integrity(state_checksum: &Vec<u8>) -> (r: Result<bool, SafetyError>)
        ensures
            r == if state_checksum@.len() == 0 { Err(SafetyError::StateIntegrityFailed) } else { Ok(true) },
    {
        if state_checksum.len() == 0 {
            return Err(SafetyError::StateIntegrityFailed);
        }
        Ok(true)
    }

    /// The snapshot of the current implementation taken at `now`, given the
    /// schema version it reported.
    pub fn capture_pre_upgrade_state(current_impl: Address, schema: Option<u32>, now: u64) -> (r: Result<PreUpgradeState, SafetyError>)
        ensures
            match (r, spec_schema_version(schema)) {
                (Ok(s), Ok(v)) => s@ == (PreUpgradeStateModel {
                    current_impl: current_impl@,
                    schema_version: v,
                    state_size: 1024,
                    state_checksum: Seq::empty(),
                    captured_at: now,
                }),
                (Err(e), Err(e2)) => e == e2,
                _ => false,
            },
    {
        let schema_version = match Self::get_schema_version(schema) {
            Ok(v) => v,
            Err(e) => return Err(e),
        };
        let state = PreUpgradeState {
            current_impl,
            schema_version,
            state_size: 1024,
            state_checksum: Vec::new(),
            captured_at: now,
        };
        proof {
            assert(state.state_checksum.deep_view() =~= Seq::<u8>::empty());
        }
        Ok(state)
    }

    /// The impact of moving from the current to the new implementation,
    /// given the schema versions they reported and the compatibility the new
    /// one declared (if it declared one): see [`impact_of`].
    pub fn analyze_upgrade_impact(
        current_schema: Option<u32>,
        new_schema: Option<u32>,
        new_info: &Option<CompatibilityInfo>,
    ) -> (r: Result<UpgradeImpactAnalysis, SafetyError>)
        ensures
            match (r, spec_analyze_impact(current_schema, new_schema, new_info.deep_view())) {
                (Ok(a), Ok(b)) => a@ == b,
                (Err(e), Err(e2)) => e == e2,
                _ => false,
            },
    {
        let current_version = match Self::get_schema_version(current_schema) {
            Ok(v) => v,
            Err(e) => return Err(e),
        };
        let new_version = match Self::get_schema_version(new_schema) {
            Ok(v) => v,
            Err(e) => return Err(e),
        };
        let compatibility = match Self::get_compatibility_info(new_schema, new_info) {
            Ok(c) => c,
            Err(e) => return Err(e),
        };
        let version_diff = if new_version > current_version {
            new_version - current_version
        } else {
            current_version - new_version
        };
        let breaking = compatibility.breaking_changes.len();
        proof {
            assert(compatibility.breaking_changes.deep_view().len() == breaking);
        }
        let risk_level: u32 = if breaking > 0 || version_diff > 10 {
            3
        } else if version_diff > 5 {
            2
        } else if version_diff > 1 {
            1
        } else {
            0
        };
        Ok(UpgradeImpactAnalysis {
            risk_level,
            estimated_gas_usage: 500_000,
            breaking_changes_count: breaking as u32,
            affected_state_fields: 10,
            requires_migration: version_diff > 2,
            estimated_completion_time: 30,
        })
    }

    /// Checks an impact analysis against the policies: a risk above
    /// `max_risk_level` or a completion time above five minutes fails.
    pub fn validate_against_policies(impact_analysis: &UpgradeImpactAnalysis, max_risk_level: u32) -> (r: Result<bool, SafetyError>)
        ensures
            r == spec_policy_check(impact_analysis@, max_risk_level),
    {
        if impact_analysis.risk_level > max_risk_level {
            return Err(SafetyError::PreUpgradeValidationFailed);
        }
        if impact_analysis.estimated_completion_time > 300 {
            return Err(SafetyError::PreUpgradeValidationFailed);
        }
        Ok(true)
    }

    /// The schema version an implementation reported, if it was a `u32`.
    fn get_schema_version(reported: Option<u32>) -> (r: Result<u32, SafetyError>)
        ensures
            r == spec_schema_version(reported),
    {
        match reported {
            Some(v) => Ok(v),
            None => Err(SafetyError::CompatibilityCheckFailed),
        }
    }

    /// The compatibility of an implementation that reported the schema
    /// version `reported`: the one it declared, or, when it declared none,
    /// the one assumed from its schema version.
    fn get_compatibility_info(reported: Option<u32>, declared: &Option<CompatibilityInfo>) -> (r: Result<CompatibilityInfo, SafetyError>)
        ensures
            match (r, spec_schema_version(reported)) {
                (Ok(c), Ok(v)) => c@ == declared_or_assumed(declared.deep_view(), v),
                (Err(e), Err(e2)) => e == e2,
                _ => false,
            },
    {
        let schema_version = match Self::get_schema_version(reported) {
            Ok(v) => v,
            Err(e) => return Err(e),
        };
        match declared {
            Some(info) => return Ok(info.duplicate()),
            None => {},
        }
        let info = CompatibilityInfo {
            target_schema_version: schema_version,
            min_compatible_version: schema_version,
            breaking_changes: Vec::new(),
            deprecated_features: Vec::new(),
        };
        proof {
            assert(info.breaking_changes.deep_view() =~= Seq::<Seq<u8>>::empty());
            assert(info.deprecated_features.deep_view() =~= Seq::<Seq<u8>>::empty());
        }
        Ok(info)
    }
}

/// Safety alerts and status.
pub struct SafetyMonitor;

impl SafetyMonitor {
    /// Raises a safety alert of level `alert_level` (0 info, 1 warning, 2
    /// critical) about `implementation`; alerts are not recorded.
    pub fn emit_safety_alert(alert_level: u32, message: &Vec<u8>, implementation: &Address) {
    }

    /// Whether the safety systems are operational; they always are.
    pub fn check_safety_status() -> (b: bool)
        ensures
            b,
    {
        true
    }
}

} // verus!
