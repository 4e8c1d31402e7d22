//! Data migrations around upgrades: records, progress, checkpoints,
//! validation, rollback and recovery.
use vstd::prelude::*;
use vstd::string::StringSliceAdditionalSpecFns;
use crate::address::Address;
use crate::table::{Duplicate, KeyOrder, compare_bytes, text_of};
use super::error::MigrationError;
use super::storage::{Storage, StorageModel};

verus! {

broadcast use crate::table::lemma_bytes_deep_view;

/// How a migration transforms the data.
#[derive(Clone, Copy, Debug, PartialEq, Eq, Structural)]
pub enum MigrationStrategy {
    /// All at once.
    Direct,
    /// Batch by batch.
    Incremental,
    /// On demand, as the data is accessed.
    Lazy,
}

impl DeepView for MigrationStrategy {
    type V = MigrationStrategy;

    open spec fn deep_view(&self) -> MigrationStrategy {
        *self
    }
}

impl View for MigrationStrategy {
    type V = MigrationStrategy;

    open spec fn view(&self) -> MigrationStrategy {
        *self
    }
}

impl Duplicate for MigrationStrategy {
    fn duplicate(&self) -> (r: Self) {
        *self
    }
}
/// The state of a migration.
#[derive(Clone, Copy, Debug, PartialEq, Eq, Structural)]
pub enum MigrationStatus {
    NotStarted,
    InProgress,
    Completed,
    Failed,
    RolledBack,
}

impl DeepView for MigrationStatus {
    type V = MigrationStatus;

    open spec fn deep_view(&self) -> MigrationStatus {
        *self
    }
}

impl View for MigrationStatus {
    type V = MigrationStatus;

    open spec fn view(&self) -> MigrationStatus {
        *self
    }
}

impl Duplicate for MigrationStatus {
    fn duplicate(&self) -> (r: Self) {
        *self
    }
}
/// A data migration.
#[derive(Clone, Debug, PartialEq)]
pub struct MigrationRecord {
    pub id: u64,
    pub strategy: MigrationStrategy,
    pub status: MigrationStatus,
    pub total_items: u32,
    pub processed_items: u32,
    pub started_at: u64,
    /// Zero until completed.
    pub completed_at: u64,
    pub data_checksum: Vec<u8>,
    /// The implementation to roll back to.
    pub prev_impl: Address,
    pub new_impl: Address,
}

/// The model of [`MigrationRecord`].
pub struct MigrationRecordModel {
    pub id: u64,
    pub strategy: MigrationStrategy,
    pub status: MigrationStatus,
    pub total_items: u32,
    pub processed_items: u32,
    pub started_at: u64,
    pub completed_at: u64,
    pub data_checksum: Seq<u8>,
    pub prev_impl: Seq<u8>,
    pub new_impl: Seq<u8>,
}

impl DeepView for MigrationRecord {
    type V = MigrationRecordModel;

    open spec fn deep_view(&self) -> MigrationRecordModel {
        MigrationRecordModel {
            id: self.id.deep_view(),
            strategy: self.strategy.deep_view(),
            status: self.status.deep_view(),
            total_items: self.total_items.deep_view(),
            processed_items: self.processed_items.deep_view(),
            started_at: self.started_at.deep_view(),
            completed_at: self.completed_at.deep_view(),
            data_checksum: self.data_checksum.deep_view(),
            prev_impl: self.prev_impl.deep_view(),
            new_impl: self.new_impl.deep_view(),
        }
    }
}

impl View for MigrationRecord {
    type V = MigrationRecordModel;

    open spec fn view(&self) -> MigrationRecordModel {
        MigrationRecordModel {
            id: self.id.deep_view(),
            strategy: self.strategy.deep_view(),
            status: self.status.deep_view(),
            total_items: self.total_items.deep_view(),
            processed_items: self.processed_items.deep_view(),
            started_at: self.started_at.deep_view(),
            completed_at: self.completed_at.deep_view(),
            data_checksum: self.data_checksum.deep_view(),
            prev_impl: self.prev_impl.deep_view(),
            new_impl: self.new_impl.deep_view(),
        }
    }
}

impl Duplicate for MigrationRecord {
    fn duplicate(&self) -> (r: Self) {
        MigrationRecord {
            id: self.id.duplicate(),
            strategy: self.strategy.duplicate(),
            status: self.status.duplicate(),
            total_items: self.total_items.duplicate(),
            processed_items: self.processed_items.duplicate(),
            started_at: self.started_at.duplicate(),
            completed_at: self.completed_at.duplicate(),
            data_checksum: self.data_checksum.duplicate(),
            prev_impl: self.prev_impl.duplicate(),
            new_impl: self.new_impl.duplicate(),
        }
    }
}
/// A point from which a migration can resume.
#[derive(Clone, Debug, PartialEq)]
pub struct MigrationCheckpoint {
    pub migration_id: u64,
    pub batch_number: u32,
    /// Items processed in this batch.
    pub items_processed: u32,
    pub checkpoint_time: u64,
    /// Partial state.
    pub checkpoint_data: Vec<u8>,
}

/// The model of [`MigrationCheckpoint`].
pub struct MigrationCheckpointModel {
    pub migration_id: u64,
    pub batch_number: u32,
    pub items_processed: u32,
    pub checkpoint_time: u64,
    pub checkpoint_data: Seq<u8>,
}

impl DeepView for MigrationCheckpoint {
    type V = MigrationCheckpointModel;

    open spec fn deep_view(&self) -> MigrationCheckpointModel {
        MigrationCheckpointModel {
            migration_id: self.migration_id.deep_view(),
            batch_number: self.batch_number.deep_view(),
            items_processed: self.items_processed.deep_view(),
            checkpoint_time: self.checkpoint_time.deep_view(),
            checkpoint_data: self.checkpoint_data.deep_view(),
        }
    }
}

impl View for MigrationCheckpoint {
    type V = MigrationCheckpointModel;

    open spec fn view(&self) -> MigrationCheckpointModel {
        MigrationCheckpointModel {
            migration_id: self.migration_id.deep_view(),
            batch_number: self.batch_number.deep_view(),
            items_processed: self.items_processed.deep_view(),
            checkpoint_time: self.checkpoint_time.deep_view(),
            checkpoint_data: self.checkpoint_data.deep_view(),
        }
    }
}

impl Duplicate for MigrationCheckpoint {
    fn duplicate(&self) -> (r: Self) {
        MigrationCheckpoint {
            migration_id: self.migration_id.duplicate(),
            batch_number: self.batch_number.duplicate(),
            items_processed: self.items_processed.duplicate(),
            checkpoint_time: self.checkpoint_time.duplicate(),
            checkpoint_data: self.checkpoint_data.duplicate(),
        }
    }
}
/// The outcome of checking migrated data.
#[derive(Clone, Debug, PartialEq)]
pub struct MigrationValidationResult {
    pub passed: bool,
    pub integrity_issues: u32,
    pub schema_violations: u32,
    pub recovery_possible: bool,
    pub error_message: Vec<u8>,
}

/// The model of [`MigrationValidationResult`].
pub struct MigrationValidationResultModel {
    pub passed: bool,
    pub integrity_issues: u32,
    pub schema_violations: u32,
    pub recovery_possible: bool,
    pub error_message: Seq<u8>,
}

impl DeepView for MigrationValidationResult {
    type V = MigrationValidationResultModel;

    open spec fn deep_view(&self) -> MigrationValidationResultModel {
        MigrationValidationResultModel {
            passed: self.passed.deep_view(),
            integrity_issues: self.integrity_issues.deep_view(),
            schema_violations: self.schema_violations.deep_view(),
            recovery_possible: self.recovery_possible.deep_view(),
            error_message: self.error_message.deep_view(),
        }
    }
}

impl View for MigrationValidationResult {
    type V = MigrationValidationResultModel;

    open spec fn view(&self) -> MigrationValidationResultModel {
        MigrationValidationResultModel {
            passed: self.passed.deep_view(),
            integrity_issues: self.integrity_issues.deep_view(),
            schema_violations: self.schema_violations.deep_view(),
            recovery_possible: self.recovery_possible.deep_view(),
            error_message: self.error_message.deep_view(),
        }
    }
}

impl Duplicate for MigrationValidationResult {
    fn duplicate(&self) -> (r: Self) {
        MigrationValidationResult {
            passed: self.passed.duplicate(),
            integrity_issues: self.integrity_issues.duplicate(),
            schema_violations: self.schema_violations.duplicate(),
            recovery_possible: self.recovery_possible.duplicate(),
            error_message: self.error_message.duplicate(),
        }
    }
}
/// The storage keys of migration records.
#[derive(Clone, Copy, Debug, PartialEq, Eq, Structural)]
pub enum MigrationStorageKey {
    /// The active migration of a proposal.
    ActiveMigration(u64),
    /// A checkpoint: migration id and batch number.
    MigrationCheckpoint(u64, u32),
    /// The rollback snapshot of a migration.
    RollbackSnapshot(u64),
    /// Past migrations.
    MigrationHistory,
    /// The next migration id.
    NextMigrationId,
}

/// The outcome of `validate_migration_data`.
pub open spec fn spec_migration_validation(m: MigrationRecordModel, original_checksum: Seq<u8>) -> MigrationValidationResultModel {
    if m.processed_items != m.total_items {
        MigrationValidationResultModel {
            passed: false,
            integrity_issues: (m.total_items - m.processed_items) as u32,
            schema_violations: 0,
            recovery_possible: true,
            error_message: "Not all items processed".spec_bytes(),
        }
    } else {
        let ok = m.data_checksum == original_checksum;
        MigrationValidationResultModel {
            passed: ok,
            integrity_issues: if ok { 0 } else { 1 },
            schema_violations: 0,
            recovery_possible: true,
            error_message: if ok {
                "Migration validated successfully".spec_bytes()
            } else {
                "Checksum mismatch detected".spec_bytes()
            },
        }
    }
}

/// Runs data migrations.
pub struct MigrationManager;

impl MigrationManager {
    /// A new migration of `total_items` items under the next migration id,
    /// in progress from `now`; `InsufficientData` when there are no items.
    pub fn initialize_migration(
        store: &mut Storage,
        now: u64,
        strategy: MigrationStrategy,
        total_items: u32,
        prev_impl: Address,
        new_impl: Address,
    ) -> (r: Result<MigrationRecord, MigrationError>)
        requires
            old(store).wf(),
            total_items > 0 ==> old(store)@.next_migration_id < u64::MAX,
        ensures
            final(store).wf(),
            match r {
                Ok(m) => total_items > 0 && m@ == (MigrationRecordModel {
                    id: (old(store)@.next_migration_id + 1) as u64,
                    strategy,
                    status: MigrationStatus::InProgress,
                    total_items,
                    processed_items: 0,
                    started_at: now,
                    completed_at: 0,
                    data_checksum: Seq::empty(),
                    prev_impl: prev_impl@,
                    new_impl: new_impl@,
                }) && final(store)@ == (StorageModel { next_migration_id: m.id, ..old(store)@ }),
                Err(e) => total_items == 0 && e == MigrationError::InsufficientData && final(store)@ == old(store)@,
            },
    {
        if total_items == 0 {
            return Err(MigrationError::InsufficientData);
        }
        let migration_id = Self::next_migration_id(store);
        let migration = MigrationRecord {
            id: migration_id,
            strategy,
            status: MigrationStatus::InProgress,
            total_items,
            processed_items: 0,
            started_at: now,
            completed_at: 0,
            data_checksum: Vec::new(),
            prev_impl,
            new_impl,
        };
        proof {
            assert(migration.data_checksum.deep_view() =~= Seq::<u8>::empty());
        }
        Ok(migration)
    }

    /// Records the progress of a migration; `ValidationFailed` when no items
    /// were processed. Progress is not kept.
    pub fn record_progress(migration_id: u64, processed_items: u32) -> (r: Result<(), MigrationError>)
        ensures
            r == if processed_items == 0 { Err(MigrationError::ValidationFailed) } else { Ok(()) },
    {
        if processed_items == 0 {
            return Err(MigrationError::ValidationFailed);
        }
        Ok(())
    }

    /// A checkpoint of batch `batch_number` taken at `now`;
    /// `ValidationFailed` when the batch processed no items.
    pub fn create_checkpoint(
        now: u64,
        migration_id: u64,
        batch_number: u32,
        items_processed: u32,
        checkpoint_data: Vec<u8>,
    ) -> (r: Result<MigrationCheckpoint, MigrationError>)
        ensures
            match r {
                Ok(c) => items_processed > 0 && c@ == (MigrationCheckpointModel {
                    migration_id,
                    batch_number,
                    items_processed,
                    checkpoint_time: now,
                    checkpoint_data: checkpoint_data@,
                }),
                Err(e) => items_processed == 0 && e == MigrationError::ValidationFailed,
            },
    {
        if items_processed == 0 {
            return Err(MigrationError::ValidationFailed);
        }
        Ok(MigrationCheckpoint { migration_id, batch_number, items_processed, checkpoint_time: now, checkpoint_data })
    }

    /// Checks migrated data: every item must be processed and the checksum
    /// of the migrated data must equal the original one.
    pub fn validate_migration_data(migration: &MigrationRecord, original_checksum: &Vec<u8>) -> (r: Result<MigrationValidationResult, MigrationError>)
        requires
            migration.processed_items <= migration.total_items,
        ensures
            match r {
                Ok(v) => v@ == spec_migration_validation(migration@, original_checksum@),
                Err(_) => false,
            },
    {
        if migration.processed_items != migration.total_items {
            return Ok(MigrationValidationResult {
                passed: false,
                integrity_issues: migration.total_items - migration.processed_items,
                schema_violations: 0,
                recovery_possible: true,
                error_message: text_of("Not all items processed"),
            });
        }
        let checksums_match = compare_bytes(&migration.data_checksum, original_checksum) == KeyOrder::Equal;
        Ok(MigrationValidationResult {
            passed: checksums_match,
            integrity_issues: if checksums_match { 0 } else { 1 },
            schema_violations: 0,
            recovery_possible: true,
            error_message: if checksums_match {
                text_of("Migration validated successfully")
            } else {
                text_of("Checksum mismatch detected")
            },
        })
    }

    /// Marks the migration completed at `now`.
    pub fn complete_migration(now: u64, migration: MigrationRecord) -> (r: Result<MigrationRecord, MigrationError>)
        ensures
            match r {
                Ok(m) => m@ == (MigrationRecordModel { status: MigrationStatus::Completed, completed_at: now, ..migration@ }),
                Err(_) => false,
            },
    {
        let mut migration = migration;
        migration.status = MigrationStatus::Completed;
        migration.completed_at = now;
        Ok(migration)
    }

    /// Rolls a migration back, which takes a saved snapshot of it:
    /// `RollbackNotAvailable` without one.
    pub fn rollback_migration(store: &Storage, migration: MigrationRecord) -> (r: Result<MigrationRecord, MigrationError>)
        requires
            store.wf(),
        ensures
            match r {
                Ok(m) => store@.rollback_snapshots.contains_key(migration.id)
                    && m@ == (MigrationRecordModel { status: MigrationStatus::RolledBack, processed_items: 0, ..migration@ }),
                Err(e) => !store@.rollback_snapshots.contains_key(migration.id) && e == MigrationError::RollbackNotAvailable,
            },
    {
        if !store.rollback_snapshots.contains_key(&migration.id) {
            return Err(MigrationError::RollbackNotAvailable);
        }
        let mut migration = migration;
        migration.status = MigrationStatus::RolledBack;
        migration.processed_items = 0;
        Ok(migration)
    }

    /// The last checkpoint of a failed migration. Checkpoints are not kept,
    /// so there is never one.
    pub fn get_recovery_checkpoint(migration_id: u64) -> (r: Result<MigrationCheckpoint, MigrationError>)
        ensures
            match r {
                Ok(_) => false,
                Err(e) => e == MigrationError::RollbackNotAvailable,
            },
    {
        Err(MigrationError::RollbackNotAvailable)
    }

    /// Keeps the snapshot to roll migration `migration_id` back to;
    /// `ValidationFailed`, keeping nothing, when it is empty.
    pub fn save_rollback_snapshot(store: &mut Storage, migration_id: u64, snapshot_data: &Vec<u8>) -> (r: Result<(), MigrationError>)
        requires
            old(store).wf(),
        ensures
            final(store).wf(),
            r == if snapshot_data@.len() == 0 { Err(MigrationError::ValidationFailed) } else { Ok(()) },
            r is Ok ==> final(store)@ == (StorageModel {
                rollback_snapshots: old(store)@.rollback_snapshots.insert(migration_id, snapshot_data@),
                ..old(store)@
            }),
            r is Err ==> final(store)@ == old(store)@,
    {
        if snapshot_data.len() == 0 {
            return Err(MigrationError::ValidationFailed);
        }
        store.rollback_snapshots.set(migration_id, snapshot_data.duplicate());
        Ok(())
    }

    /// Advances the migration counter and returns its new value.
    fn next_migration_id(store: &mut Storage) -> (id: u64)
        requires
            old(store).wf(),
            old(store)@.next_migration_id < u64::MAX,
        ensures
            final(store).wf(),
            id == old(store)@.next_migration_id + 1,
            final(store)@ == (StorageModel { next_migration_id: id, ..old(store)@ }),
    {
        store.next_migration_id = store.next_migration_id + 1;
        store.next_migration_id
    }
}

/// Recovery of failed migrations.
pub struct MigrationRecovery;

impl MigrationRecovery {
    /// Resumes a failed migration from its last checkpoint; as no checkpoint
    /// is kept, this fails with `RollbackNotAvailable`.
    pub fn recover_from_failure(migration_id: u64) -> (r: Result<bool, MigrationError>)
        ensures
            r == Err::<bool, MigrationError>(MigrationError::RollbackNotAvailable),
    {
        match MigrationManager::get_recovery_checkpoint(migration_id) {
            Ok(_) => Ok(true),
            Err(e) => Err(e),
        }
    }

    /// Restores from a checkpoint; `InsufficientData` when it holds no data.
    pub fn recover_from_checkpoint(checkpoint: &MigrationCheckpoint) -> (r: Result<(), MigrationError>)
        ensures
            r == if checkpoint.checkpoint_data@.len() == 0 { Err(MigrationError::InsufficientData) } else { Ok(()) },
    {
        if checkpoint.checkpoint_data.len() == 0 {
            return Err(MigrationError::InsufficientData);
        }
        Ok(())
    }
}

} // verus!
