//! Errors of the upgradeable proxy and of its safety, migration, monitoring
//! and automation parts.
use vstd::prelude::*;

verus! {

/// Errors that the upgradeable proxy returns.
#[derive(Clone, Copy, Debug, PartialEq, Eq, Structural)]
pub enum ProxyError {
    AlreadyInitialized,
    InvalidAdmins,
    InvalidThreshold,
    NotInitialized,
    NotAdmin,
    ThresholdNotMet,
    DelayNotPassed,
    AlreadyExecuted,
    ProposalNotFound,
    NoRollbackAvailable,
    StorageError,
    ImplementationNotSet,
    ValidationFailed,
    MigrationFailed,
    SameImplementation,
    MetadataTooLarge,
    InvalidImplementation,
    RollbackFailed,
}

/// The contract error code of each [`ProxyError`].
pub open spec fn spec_proxy_error_code(e: ProxyError) -> u32 {
    match e {
        ProxyError::AlreadyInitialized => 1,
        ProxyError::InvalidAdmins => 2,
        ProxyError::InvalidThreshold => 3,
        ProxyError::NotInitialized => 4,
        ProxyError::NotAdmin => 5,
        ProxyError::ThresholdNotMet => 6,
        ProxyError::DelayNotPassed => 7,
        ProxyError::AlreadyExecuted => 8,
        ProxyError::ProposalNotFound => 9,
        ProxyError::NoRollbackAvailable => 10,
        ProxyError::StorageError => 11,
        ProxyError::ImplementationNotSet => 12,
        ProxyError::ValidationFailed => 13,
        ProxyError::MigrationFailed => 14,
        ProxyError::SameImplementation => 15,
        ProxyError::MetadataTooLarge => 16,
        ProxyError::InvalidImplementation => 17,
        ProxyError::RollbackFailed => 18,
    }
}

impl ProxyError {
    /// The contract error code (1 to 18) under which the host reports the error.
    pub fn code(&self) -> (c: u32)
        ensures
            c == spec_proxy_error_code(*self),
    {
        match self {
            ProxyError::AlreadyInitialized => 1,
            ProxyError::InvalidAdmins => 2,
            ProxyError::InvalidThreshold => 3,
            ProxyError::NotInitialized => 4,
            ProxyError::NotAdmin => 5,
            ProxyError::ThresholdNotMet => 6,
            ProxyError::DelayNotPassed => 7,
            ProxyError::AlreadyExecuted => 8,
            ProxyError::ProposalNotFound => 9,
            ProxyError::NoRollbackAvailable => 10,
            ProxyError::StorageError => 11,
            ProxyError::ImplementationNotSet => 12,
            ProxyError::ValidationFailed => 13,
            ProxyError::MigrationFailed => 14,
            ProxyError::SameImplementation => 15,
            ProxyError::MetadataTooLarge => 16,
            ProxyError::InvalidImplementation => 17,
            ProxyError::RollbackFailed => 18,
        }
    }

    /// The error with the given contract code, if there is one.
    pub fn from_code(c: u32) -> (r: Option<ProxyError>)
        ensures
            match r {
                Some(e) => spec_proxy_error_code(e) == c,
                None => c < 1 || c > 18,
            },
    {
        match c {
            1 => Some(ProxyError::AlreadyInitialized),
            2 => Some(ProxyError::InvalidAdmins),
            3 => Some(ProxyError::InvalidThreshold),
            4 => Some(ProxyError::NotInitialized),
            5 => Some(ProxyError::NotAdmin),
            6 => Some(ProxyError::ThresholdNotMet),
            7 => Some(ProxyError::DelayNotPassed),
            8 => Some(ProxyError::AlreadyExecuted),
            9 => Some(ProxyError::ProposalNotFound),
            10 => Some(ProxyError::NoRollbackAvailable),
            11 => Some(ProxyError::StorageError),
            12 => Some(ProxyError::ImplementationNotSet),
            13 => Some(ProxyError::ValidationFailed),
            14 => Some(ProxyError::MigrationFailed),
            15 => Some(ProxyError::SameImplementation),
            16 => Some(ProxyError::MetadataTooLarge),
            17 => Some(ProxyError::InvalidImplementation),
            18 => Some(ProxyError::RollbackFailed),
            _ => None,
        }
    }
}

/// Errors of the upgrade safety checks.
#[derive(Clone, Copy, Debug, PartialEq, Eq, Structural)]
pub enum SafetyError {
    /// Schema version mismatch detected.
    SchemaMismatch,
    /// State integrity check failed.
    StateIntegrityFailed,
    /// Pre-upgrade validation failed.
    PreUpgradeValidationFailed,
    /// Post-upgrade validation failed.
    PostUpgradeValidationFailed,
    /// Compatibility check failed.
    CompatibilityCheckFailed,
    /// State snapshot failed.
    StateSnapshotFailed,
    /// State restoration failed.
    StateRestorationFailed,
}

/// The contract error code of each [`SafetyError`].
pub open spec fn spec_safety_error_code(e: SafetyError) -> u32 {
    match e {
        SafetyError::SchemaMismatch => 50,
        SafetyError::StateIntegrityFailed => 51,
        SafetyError::PreUpgradeValidationFailed => 52,
        SafetyError::PostUpgradeValidationFailed => 53,
        SafetyError::CompatibilityCheckFailed => 54,
        SafetyError::StateSnapshotFailed => 55,
        SafetyError::StateRestorationFailed => 56,
    }
}

impl SafetyError {
    /// The contract error code (50 to 56) under which the host reports the error.
    pub fn code(&self) -> (c: u32)
        ensures
            c == spec_safety_error_code(*self),
    {
        match self {
            SafetyError::SchemaMismatch => 50,
            SafetyError::StateIntegrityFailed => 51,
            SafetyError::PreUpgradeValidationFailed => 52,
            SafetyError::PostUpgradeValidationFailed => 53,
            SafetyError::CompatibilityCheckFailed => 54,
            SafetyError::StateSnapshotFailed => 55,
            SafetyError::StateRestorationFailed => 56,
        }
    }

    /// The error with the given contract code, if there is one.
    pub fn from_code(c: u32) -> (r: Option<SafetyError>)
        ensures
            match r {
                Some(e) => spec_safety_error_code(e) == c,
                None => c < 50 || c > 56,
            },
    {
        match c {
            50 => Some(SafetyError::SchemaMismatch),
            51 => Some(SafetyError::StateIntegrityFailed),
            52 => Some(SafetyError::PreUpgradeValidationFailed),
            53 => Some(SafetyError::PostUpgradeValidationFailed),
            54 => Some(SafetyError::CompatibilityCheckFailed),
            55 => Some(SafetyError::StateSnapshotFailed),
            56 => Some(SafetyError::StateRestorationFailed),
            _ => None,
        }
    }
}

/// Errors of data migrations.
#[derive(Clone, Copy, Debug, PartialEq, Eq, Structural)]
pub enum MigrationError {
    /// Migration validation failed.
    ValidationFailed,
    /// Data transformation failed.
    TransformationFailed,
    /// Migration rollback failed.
    RollbackFailed,
    /// Insufficient data for migration.
    InsufficientData,
    /// Data corruption detected.
    DataCorruption,
    /// Migration timeout.
    MigrationTimeout,
    /// Rollback not available.
    RollbackNotAvailable,
}

/// The contract error code of each [`MigrationError`].
pub open spec fn spec_migration_error_code(e: MigrationError) -> u32 {
    match e {
        MigrationError::ValidationFailed => 60,
        MigrationError::TransformationFailed => 61,
        MigrationError::RollbackFailed => 62,
        MigrationError::InsufficientData => 63,
        MigrationError::DataCorruption => 64,
        MigrationError::MigrationTimeout => 65,
        MigrationError::RollbackNotAvailable => 66,
    }
}

impl MigrationError {
    /// The contract error code (60 to 66) under which the host reports the error.
    pub fn code(&self) -> (c: u32)
        ensures
            c == spec_migration_error_code(*self),
    {
        match self {
            MigrationError::ValidationFailed => 60,
            MigrationError::TransformationFailed => 61,
            MigrationError::RollbackFailed => 62,
            MigrationError::InsufficientData => 63,
            MigrationError::DataCorruption => 64,
            MigrationError::MigrationTimeout => 65,
            MigrationError::RollbackNotAvailable => 66,
        }
    }

    /// The error with the given contract code, if there is one.
    pub fn from_code(c: u32) -> (r: Option<MigrationError>)
        ensures
            match r {
                Some(e) => spec_migration_error_code(e) == c,
                None => c < 60 || c > 66,
            },
    {
        match c {
            60 => Some(MigrationError::ValidationFailed),
            61 => Some(MigrationError::TransformationFailed),
            62 => Some(MigrationError::RollbackFailed),
            63 => Some(MigrationError::InsufficientData),
            64 => Some(MigrationError::DataCorruption),
            65 => Some(MigrationError::MigrationTimeout),
            66 => Some(MigrationError::RollbackNotAvailable),
            _ => None,
        }
    }
}

/// Errors of upgrade monitoring.
#[derive(Clone, Copy, Debug, PartialEq, Eq, Structural)]
pub enum MonitoringError {
    /// Metrics collection failed.
    MetricsCollectionFailed,
    /// Analytics calculation failed.
    AnalyticsCalculationFailed,
    /// Invalid metric data.
    InvalidMetricData,
    /// Historical data not found.
    HistoricalDataNotFound,
}

/// The contract error code of each [`MonitoringError`].
pub open spec fn spec_monitoring_error_code(e: MonitoringError) -> u32 {
    match e {
        MonitoringError::MetricsCollectionFailed => 70,
        MonitoringError::AnalyticsCalculationFailed => 71,
        MonitoringError::InvalidMetricData => 72,
        MonitoringError::HistoricalDataNotFound => 73,
    }
}

impl MonitoringError {
    /// The contract error code (70 to 73) under which the host reports the error.
    pub fn code(&self) -> (c: u32)
        ensures
            c == spec_monitoring_error_code(*self),
    {
        match self {
            MonitoringError::MetricsCollectionFailed => 70,
            MonitoringError::AnalyticsCalculationFailed => 71,
            MonitoringError::InvalidMetricData => 72,
            MonitoringError::HistoricalDataNotFound => 73,
        }
    }

    /// The error with the given contract code, if there is one.
    pub fn from_code(c: u32) -> (r: Option<MonitoringError>)
        ensures
            match r {
                Some(e) => spec_monitoring_error_code(e) == c,
                None => c < 70 || c > 73,
            },
    {
        match c {
            70 => Some(MonitoringError::MetricsCollectionFailed),
            71 => Some(MonitoringError::AnalyticsCalculationFailed),
            72 => Some(MonitoringError::InvalidMetricData),
            73 => Some(MonitoringError::HistoricalDataNotFound),
            _ => None,
        }
    }
}

/// Errors of upgrade documentation and automation.
#[derive(Clone, Copy, Debug, PartialEq, Eq, Structural)]
pub enum AutomationError {
    /// Documentation generation failed.
    DocumentationGenerationFailed,
    /// Checklist validation failed.
    ChecklistValidationFailed,
    /// Automation script execution failed.
    ScriptExecutionFailed,
    /// Notification delivery failed.
    NotificationDeliveryFailed,
    /// Invalid automation configuration.
    InvalidConfiguration,
}

/// The contract error code of each [`AutomationError`].
pub open spec fn spec_automation_error_code(e: AutomationError) -> u32 {
    match e {
        AutomationError::DocumentationGenerationFailed => 80,
        AutomationError::ChecklistValidationFailed => 81,
        AutomationError::ScriptExecutionFailed => 82,
        AutomationError::NotificationDeliveryFailed => 83,
        AutomationError::InvalidConfiguration => 84,
    }
}

impl AutomationError {
    /// The contract error code (80 to 84) under which the host reports the error.
    pub fn code(&self) -> (c: u32)
        ensures
            c == spec_automation_error_code(*self),
    {
        match self {
            AutomationError::DocumentationGenerationFailed => 80,
            AutomationError::ChecklistValidationFailed => 81,
            AutomationError::ScriptExecutionFailed => 82,
            AutomationError::NotificationDeliveryFailed => 83,
            AutomationError::InvalidConfiguration => 84,
        }
    }

    /// The error with the given contract code, if there is one.
    pub fn from_code(c: u32) -> (r: Option<AutomationError>)
        ensures
            match r {
                Some(e) => spec_automation_error_code(e) == c,
                None => c < 80 || c > 84,
            },
    {
        match c {
            80 => Some(AutomationError::DocumentationGenerationFailed),
            81 => Some(AutomationError::ChecklistValidationFailed),
            82 => Some(AutomationError::ScriptExecutionFailed),
            83 => Some(AutomationError::NotificationDeliveryFailed),
            84 => Some(AutomationError::InvalidConfiguration),
            _ => None,
        }
    }
}

} // verus!
