use paystell::address::Address;
use paystell::proxy::automation::{ChecklistManager, NotificationSystem, ScriptManager};
use paystell::proxy::contract::{ProxyEnv, UpgradeableProxyContract};
use paystell::proxy::error::{MigrationError, ProxyError};
use paystell::proxy::migration::{MigrationManager, MigrationStatus, MigrationStrategy};
use paystell::proxy::monitoring::MonitoringManager;
use paystell::proxy::safety::{CompatibilityInfo, SafetyValidator};
use paystell::proxy::storage::Storage;

fn addr(s: &str) -> Address {
    Address::from_bytes(s.as_bytes().to_vec())
}

fn text(s: &str) -> Vec<u8> {
    s.as_bytes().to_vec()
}

fn proxy() -> ProxyEnv {
    ProxyEnv::new(0, addr("CPROXY"))
}

#[test]
fn test_init_and_propose_execute_flow() {
    let mut env = proxy();
    let admin1 = addr("GADMIN1");
    let admin2 = addr("GADMIN2");
    let admins = vec![admin1.clone(), admin2.clone()];
    UpgradeableProxyContract::init(&mut env, admins, 2, 0).unwrap();
    let impl_addr = addr("CDUMMY");
    let meta = vec![1u8, b'v', b'1'];
    let prop_id = UpgradeableProxyContract::propose_upgrade(&mut env, impl_addr, meta).unwrap();
    UpgradeableProxyContract::approve_upgrade(&mut env, prop_id, admin1).unwrap();
    UpgradeableProxyContract::approve_upgrade(&mut env, prop_id, admin2).unwrap();
    assert!(prop_id > 0);
}

#[test]
#[should_panic]
fn test_validation_missing_schema_version() {
    let mut env = proxy();
    let admin1 = addr("GADMIN1");
    let admin2 = addr("GADMIN2");
    UpgradeableProxyContract::init(&mut env, vec![admin1.clone(), admin2.clone()], 2, 0).unwrap();
    let bad_addr = addr("CBAD");
    let pid = UpgradeableProxyContract::propose_upgrade(&mut env, bad_addr, vec![0u8]).unwrap();
    UpgradeableProxyContract::approve_upgrade(&mut env, pid, admin1).unwrap();
    UpgradeableProxyContract::approve_upgrade(&mut env, pid, admin2).unwrap();
    // The bad implementation answers no schema version.
    UpgradeableProxyContract::execute_upgrade(&mut env, pid, None, None, None).unwrap();
}

#[test]
fn test_same_implementation_validation() {
    let mut env = proxy();
    UpgradeableProxyContract::init(&mut env, vec![addr("GADMIN1"), addr("GADMIN2")], 2, 0).unwrap();
    let prop_id = UpgradeableProxyContract::propose_upgrade(&mut env, addr("CDUMMY"), vec![0u8]).unwrap();
    assert!(prop_id > 0);
}

#[test]
fn test_metadata_too_large_validation() {
    let mut env = proxy();
    UpgradeableProxyContract::init(&mut env, vec![addr("GADMIN1"), addr("GADMIN2")], 2, 0).unwrap();
    let metadata = vec![0u8; 512];
    let result = UpgradeableProxyContract::propose_upgrade(&mut env, addr("CDUMMY"), metadata);
    assert!(result.is_ok() || result.is_err());
}

#[test]
fn test_rollback_functionality() {
    let mut env = proxy();
    UpgradeableProxyContract::init(&mut env, vec![addr("GADMIN1"), addr("GADMIN2")], 2, 0).unwrap();
    assert_eq!(UpgradeableProxyContract::get_version(&env), 0);
    let result = UpgradeableProxyContract::rollback(&mut env, None, None, None);
    assert!(result.is_err());
}

#[test]
fn test_no_rollback_available() {
    let mut env = proxy();
    UpgradeableProxyContract::init(&mut env, vec![addr("GADMIN1"), addr("GADMIN2")], 2, 0).unwrap();
    let result = UpgradeableProxyContract::rollback(&mut env, Some(1), Some(1), None);
    assert!(result.is_err());
}

#[test]
fn test_safety_impact_analysis() {
    let impl1 = addr("CIMPL1");
    let impl2 = addr("CIMPL2");
    assert_ne!(impl1, impl2);
}

#[test]
fn test_safety_state_integrity_check() {
    let checksum = b"test_checksum".to_vec();
    assert_eq!(checksum.len(), 13);
}

#[test]
fn test_safety_pre_upgrade_state_capture() {
    let impl_addr = addr("CIMPL");
    assert!(impl_addr.key.len() > 0);
}

#[test]
fn test_migration_initialization() {
    let prev_impl = addr("CPREV");
    let new_impl = addr("CNEW");
    assert_ne!(prev_impl.key, new_impl.key);
    let status = MigrationStatus::InProgress;
    assert_eq!(status as u32, 1);
    let strategy = MigrationStrategy::Direct;
    assert_eq!(strategy as u32, 0);
}

#[test]
fn test_migration_validation() {
    let checksum = b"test_checksum".to_vec();
    assert_eq!(checksum.len(), 13);
}

#[test]
fn test_migration_checkpoint() {
    let checkpoint_data = b"checkpoint_state".to_vec();
    assert_eq!(checkpoint_data.len(), 16);
}

#[test]
fn test_migration_complete() {
    let status = MigrationStatus::Completed;
    assert_eq!(status as u32, 2);
}

#[test]
fn test_monitoring_metrics_start() {
    let result = MonitoringManager::start_metrics_collection(0, 1);
    assert!(result.is_ok());
    let metrics = result.unwrap();
    assert_eq!(metrics.proposal_id, 1);
    assert_eq!(metrics.total_gas_used, 0);
    assert_eq!(metrics.storage_operations, 0);
    assert!(!metrics.success);
}

#[test]
fn test_monitoring_metrics_finalize() {
    let mut metrics = MonitoringManager::start_metrics_collection(0, 1).unwrap();
    metrics.success = true;
    metrics.total_gas_used = 100;
    let result = MonitoringManager::finalize_metrics(0, metrics, true);
    assert!(result.is_ok());
    let finalized = result.unwrap();
    assert!(finalized.success);
    assert_eq!(finalized.total_gas_used, 100);
}

#[test]
fn test_monitoring_analytics() {
    let result = MonitoringManager::calculate_analytics(0);
    assert!(result.is_ok());
    let analytics = result.unwrap();
    assert!(analytics.total_upgrades > 0);
    assert!(analytics.success_rate_percentage <= 100);
}

#[test]
fn test_monitoring_health_check() {
    let result = MonitoringManager::health_check(0);
    assert!(result.is_ok());
    let health = result.unwrap();
    assert_eq!(health.status, 0);
    assert!(health.responsiveness_score <= 100);
}

#[test]
fn test_monitoring_trend_analysis() {
    let result = MonitoringManager::analyze_trends();
    assert!(result.is_ok());
    let trends = result.unwrap();
    assert!(trends.period_days > 0);
    assert!(trends.forecasted_success_rate <= 100);
}

#[test]
fn test_monitoring_upgrade_conditions() {
    let result = MonitoringManager::check_upgrade_conditions(0);
    assert!(result.is_ok());
}

#[test]
fn test_monitoring_impact_analysis() {
    let impl1 = addr("CIMPL1");
    let result = MonitoringManager::analyze_impact(impl1, 1, 5000, 5500);
    assert!(result.is_ok());
    let impact = result.unwrap();
    assert!(impact.user_impact_score <= 100);
}

#[test]
fn test_documentation_generation() {
    let prev_impl = addr("CPREV");
    let new_impl = addr("CNEW");
    assert_ne!(prev_impl, new_impl);
}

#[test]
fn test_checklist_creation() {
    let mut store = Storage::new();
    let result = ChecklistManager::create_checklist(&mut store, 0, 1);
    assert!(result.is_ok());
    let checklist = result.unwrap();
    assert_eq!(checklist.proposal_id, 1);
    assert!(checklist.items.len() > 0);
    assert!(!checklist.all_completed);
    assert_eq!(checklist.completion_percentage, 0);
}

#[test]
fn test_notification_creation() {
    let _recipient = addr("GRECIPIENT");
    let subject = text("Upgrade Starting");
    let body = text("Upgrade process is starting");
    assert_eq!(subject.len(), 16);
    assert_eq!(body.len(), 27);
}

#[test]
fn test_notification_upgrade_start() {
    let recipient = addr("GRECIPIENT");
    assert!(recipient.key.len() > 0);
}

#[test]
fn test_notification_upgrade_complete_success() {
    let recipient = addr("GRECIPIENT");
    assert!(recipient.key.len() > 0);
}

#[test]
fn test_notification_upgrade_complete_failure() {
    let recipient = addr("GRECIPIENT");
    assert!(recipient.key.len() > 0);
}

#[test]
fn test_script_creation() {
    let name = text("upgrade_script");
    let content = b"#!/bin/bash\necho 'Upgrade'".to_vec();
    let result = ScriptManager::create_script(name, 0, content);
    assert!(result.is_ok());
    let script = result.unwrap();
    assert!(script.enabled);
    assert_eq!(script.script_type, 0);
}

#[test]
fn test_script_execution() {
    let name = text("test_script");
    let content = b"#!/bin/bash\necho 'test'".to_vec();
    let script = ScriptManager::create_script(name, 0, content).unwrap();
    let result = ScriptManager::execute_script(&script);
    assert!(result.is_ok());
}

#[test]
fn test_full_upgrade_with_safety_checks() {
    let mut env = proxy();
    let admin = addr("GADMIN");
    let admins = vec![admin.clone()];
    UpgradeableProxyContract::init(&mut env, admins.clone(), 1, 0).unwrap();
    let impl_addr = addr("CDUMMY");
    assert_ne!(admin.key, impl_addr.key);
    assert_eq!(admins.len(), 1);
    let health_result = UpgradeableProxyContract::get_health_status(&env);
    assert!(health_result.is_ok());
}

#[test]
fn test_upgrade_with_documentation() {
    let mut env = proxy();
    let admin = addr("GADMIN");
    UpgradeableProxyContract::init(&mut env, vec![admin], 1, 0).unwrap();
    let impl_addr = addr("CDUMMY");
    let meta = vec![0u8];
    let prop_id = UpgradeableProxyContract::propose_upgrade(&mut env, impl_addr, meta.clone()).unwrap();
    assert!(prop_id > 0);
    assert_eq!(meta.len(), 1);
}

#[test]
fn test_upgrade_with_checklist() {
    let mut env = proxy();
    let admin = addr("GADMIN");
    let admins = vec![admin];
    UpgradeableProxyContract::init(&mut env, admins.clone(), 1, 0).unwrap();
    let prop_id = UpgradeableProxyContract::propose_upgrade(&mut env, addr("CDUMMY"), vec![0u8]).unwrap();
    assert!(prop_id > 0);
    assert_eq!(admins.len(), 1);
}

#[test]
fn test_upgrade_forecast() {
    let mut env = proxy();
    UpgradeableProxyContract::init(&mut env, vec![addr("GADMIN")], 1, 0).unwrap();
    let rate_result = UpgradeableProxyContract::forecast_upgrade_success(&env);
    assert!(rate_result.is_ok());
    let rate = rate_result.unwrap();
    assert!(rate <= 100);
}

#[test]
fn upgrade_then_rollback_restores_state() {
    let mut env = proxy();
    let admin = addr("GADMIN");
    UpgradeableProxyContract::init(&mut env, vec![admin.clone()], 1, 0).unwrap();
    let v1 = addr("CIMPL1");
    let p1 = UpgradeableProxyContract::propose_upgrade(&mut env, v1.clone(), vec![0u8]).unwrap();
    UpgradeableProxyContract::approve_upgrade(&mut env, p1, admin.clone()).unwrap();
    UpgradeableProxyContract::execute_upgrade(&mut env, p1, None, Some(1), None).unwrap();
    assert_eq!(UpgradeableProxyContract::get_version(&env), 1);
    assert_eq!(UpgradeableProxyContract::get_current_implementation(&env), Ok(v1.clone()));
    let v2 = addr("CIMPL2");
    let p2 = UpgradeableProxyContract::propose_upgrade(&mut env, v2.clone(), vec![1u8]).unwrap();
    UpgradeableProxyContract::approve_upgrade(&mut env, p2, admin.clone()).unwrap();
    UpgradeableProxyContract::execute_upgrade(&mut env, p2, Some(1), Some(2), None).unwrap();
    assert_eq!(UpgradeableProxyContract::get_version(&env), 2);
    assert_eq!(UpgradeableProxyContract::get_current_implementation(&env), Ok(v2.clone()));
    // the migration of the second proposal asks the host to run `migrate`
    assert_eq!(env.calls.last().unwrap().function, text("migrate"));
    assert_eq!(env.calls.len(), 1);
    assert_eq!(env.storage.next_migration_id, 1);
    // the migration keeps a rollback snapshot under its id
    assert_eq!(env.storage.rollback_snapshots.get(&1), Some(&vec![0u8]));
    // executing twice is refused
    assert_eq!(
        UpgradeableProxyContract::execute_upgrade(&mut env, p2, Some(2), Some(2), None),
        Err(ProxyError::AlreadyExecuted)
    );
    // roll back from schema 2 to schema 3 of the previous implementation
    UpgradeableProxyContract::rollback(&mut env, Some(2), Some(3), None).unwrap();
    assert_eq!(UpgradeableProxyContract::get_version(&env), 1);
    assert_eq!(UpgradeableProxyContract::get_current_implementation(&env), Ok(v1));
    assert_eq!(env.storage.history.len(), 1);
}

#[test]
fn rollback_to_older_schema_is_refused() {
    let mut env = proxy();
    let admin = addr("GADMIN");
    UpgradeableProxyContract::init(&mut env, vec![admin.clone()], 1, 0).unwrap();
    let p1 = UpgradeableProxyContract::propose_upgrade(&mut env, addr("CIMPL1"), vec![]).unwrap();
    UpgradeableProxyContract::approve_upgrade(&mut env, p1, admin).unwrap();
    UpgradeableProxyContract::execute_upgrade(&mut env, p1, None, Some(4), None).unwrap();
    assert_eq!(UpgradeableProxyContract::rollback(&mut env, Some(4), Some(3), None), Err(ProxyError::ValidationFailed));
    assert_eq!(UpgradeableProxyContract::rollback(&mut env, Some(1), Some(12), None), Err(ProxyError::ValidationFailed));
    assert_eq!(UpgradeableProxyContract::get_version(&env), 1);
}

#[test]
fn upgrade_needs_threshold_and_delay() {
    let mut env = ProxyEnv::new(100, addr("CPROXY"));
    let a1 = addr("GADMIN1");
    let a2 = addr("GADMIN2");
    UpgradeableProxyContract::init(&mut env, vec![a1.clone(), a2.clone()], 2, 50).unwrap();
    let p = UpgradeableProxyContract::propose_upgrade(&mut env, addr("CIMPL"), vec![]).unwrap();
    UpgradeableProxyContract::approve_upgrade(&mut env, p, a1.clone()).unwrap();
    UpgradeableProxyContract::approve_upgrade(&mut env, p, a1.clone()).unwrap();
    assert_eq!(UpgradeableProxyContract::get_proposal(&env, p).unwrap().approvals.len(), 1);
    assert_eq!(UpgradeableProxyContract::execute_upgrade(&mut env, p, None, Some(1), None), Err(ProxyError::ThresholdNotMet));
    assert_eq!(UpgradeableProxyContract::approve_upgrade(&mut env, p, addr("GSTRANGER")), Err(ProxyError::NotAdmin));
    UpgradeableProxyContract::approve_upgrade(&mut env, p, a2).unwrap();
    assert_eq!(UpgradeableProxyContract::execute_upgrade(&mut env, p, None, Some(1), None), Err(ProxyError::DelayNotPassed));
    env.timestamp = 150;
    assert_eq!(UpgradeableProxyContract::execute_upgrade(&mut env, p, None, Some(0), None), Err(ProxyError::ValidationFailed));
    UpgradeableProxyContract::execute_upgrade(&mut env, p, None, Some(1), None).unwrap();
    assert_eq!(UpgradeableProxyContract::get_version(&env), 1);
}

#[test]
fn init_checks_admins_and_threshold_once() {
    let mut env = proxy();
    assert_eq!(UpgradeableProxyContract::init(&mut env, vec![], 1, 0), Err(ProxyError::InvalidAdmins));
    assert_eq!(UpgradeableProxyContract::init(&mut env, vec![addr("GA")], 0, 0), Err(ProxyError::InvalidThreshold));
    assert_eq!(UpgradeableProxyContract::init(&mut env, vec![addr("GA")], 2, 0), Err(ProxyError::InvalidThreshold));
    assert_eq!(UpgradeableProxyContract::propose_upgrade(&mut env, addr("CIMPL"), vec![]), Err(ProxyError::NotInitialized));
    UpgradeableProxyContract::init(&mut env, vec![addr("GA")], 1, 0).unwrap();
    assert_eq!(UpgradeableProxyContract::init(&mut env, vec![addr("GA")], 1, 0), Err(ProxyError::AlreadyInitialized));
    assert_eq!(UpgradeableProxyContract::propose_upgrade(&mut env, addr("CIMPL"), vec![0u8; 1025]), Err(ProxyError::MetadataTooLarge));
    assert_eq!(UpgradeableProxyContract::forward(&env), Err(ProxyError::ImplementationNotSet));
}

#[test]
fn checklist_workflow_completes() {
    let mut env = proxy();
    UpgradeableProxyContract::init(&mut env, vec![addr("GA")], 1, 0).unwrap();
    let p = UpgradeableProxyContract::propose_upgrade(&mut env, addr("CIMPL"), vec![]).unwrap();
    assert_eq!(UpgradeableProxyContract::can_proceed_with_upgrade(&env, p), Err(ProxyError::ValidationFailed));
    UpgradeableProxyContract::create_upgrade_checklist(&mut env, p).unwrap();
    assert_eq!(UpgradeableProxyContract::can_proceed_with_upgrade(&env, p), Ok(false));
    for item in 1..=4u32 {
        UpgradeableProxyContract::complete_checklist_item(&mut env, p, item).unwrap();
    }
    let c = env.storage.checklists.get(&p).unwrap().clone();
    assert_eq!(c.completion_percentage, 80);
    assert_eq!(UpgradeableProxyContract::can_proceed_with_upgrade(&env, p), Ok(false));
    UpgradeableProxyContract::complete_checklist_item(&mut env, p, 5).unwrap();
    assert_eq!(UpgradeableProxyContract::can_proceed_with_upgrade(&env, p), Ok(true));
}

#[test]
fn safety_checks_on_schema_versions() {
    assert_eq!(SafetyValidator::validate_schema_compatibility(Some(2), Some(3), &None), Ok(true));
    assert!(SafetyValidator::validate_schema_compatibility(Some(3), Some(2), &None).is_err());
    let a = SafetyValidator::analyze_upgrade_impact(Some(1), Some(8), &None).unwrap();
    assert_eq!(a.risk_level, 2);
    assert!(a.requires_migration);
    let b = SafetyValidator::analyze_upgrade_impact(Some(1), Some(2), &None).unwrap();
    assert_eq!(b.risk_level, 0);
    assert!(!b.requires_migration);
    assert!(SafetyValidator::validate_against_policies(&a, 1).is_err());
    assert_eq!(SafetyValidator::validate_against_policies(&a, 2), Ok(true));
    assert!(SafetyValidator::validate_state_integrity(&vec![]).is_err());
    assert_eq!(SafetyValidator::validate_state_integrity(&b"test_checksum".to_vec()), Ok(true));
    let s = SafetyValidator::capture_pre_upgrade_state(addr("CIMPL"), Some(7), 42).unwrap();
    assert_eq!(s.schema_version, 7);
    assert_eq!(s.captured_at, 42);
}

#[test]
fn notifications_take_successive_ids() {
    let mut store = Storage::new();
    let n1 = NotificationSystem::notify_upgrade_start(&mut store, 10, addr("GR"), 3).unwrap();
    let n2 = NotificationSystem::notify_upgrade_complete(&mut store, 11, addr("GR"), 3, false).unwrap();
    assert_eq!(n1.id, 1);
    assert_eq!(n2.id, 2);
    assert_eq!(n2.message_type, 2);
    assert_eq!(n2.subject, text("Upgrade Failed"));
}

#[test]
fn migration_validation_compares_checksum_bytes() {
    let mut store = Storage::new();
    let mut m = MigrationManager::initialize_migration(&mut store, 5, MigrationStrategy::Direct, 3, addr("CA"), addr("CB")).unwrap();
    assert_eq!(m.id, 1);
    m.processed_items = 2;
    let v = MigrationManager::validate_migration_data(&m, &text("abc")).unwrap();
    assert!(!v.passed);
    assert_eq!(v.integrity_issues, 1);
    m.processed_items = 3;
    m.data_checksum = text("abd");
    let v = MigrationManager::validate_migration_data(&m, &text("abc")).unwrap();
    assert!(!v.passed);
    assert_eq!(v.integrity_issues, 1);
    assert_eq!(v.error_message, text("Checksum mismatch detected"));
    m.data_checksum = text("abc");
    let v = MigrationManager::validate_migration_data(&m, &text("abc")).unwrap();
    assert!(v.passed);
    assert_eq!(v.integrity_issues, 0);
}

#[test]
fn rollback_needs_a_saved_snapshot() {
    let mut store = Storage::new();
    let m = MigrationManager::initialize_migration(&mut store, 5, MigrationStrategy::Direct, 3, addr("CA"), addr("CB")).unwrap();
    assert_eq!(MigrationManager::rollback_migration(&store, m.clone()).unwrap_err(), MigrationError::RollbackNotAvailable);
    assert_eq!(MigrationManager::save_rollback_snapshot(&mut store, m.id, &vec![]), Err(MigrationError::ValidationFailed));
    assert_eq!(MigrationManager::rollback_migration(&store, m.clone()).unwrap_err(), MigrationError::RollbackNotAvailable);
    MigrationManager::save_rollback_snapshot(&mut store, m.id, &text("snap")).unwrap();
    let r = MigrationManager::rollback_migration(&store, m).unwrap();
    assert_eq!(r.status, MigrationStatus::RolledBack);
    assert_eq!(r.processed_items, 0);
}

#[test]
fn declared_compatibility_is_used() {
    let declared = Some(CompatibilityInfo {
        target_schema_version: 3,
        min_compatible_version: 3,
        breaking_changes: vec![text("dropped field")],
        deprecated_features: vec![],
    });
    let a = SafetyValidator::analyze_upgrade_impact(Some(2), Some(3), &declared).unwrap();
    assert_eq!(a.risk_level, 3);
    assert_eq!(a.breaking_changes_count, 1);
    let fallback = SafetyValidator::analyze_upgrade_impact(Some(2), Some(3), &None).unwrap();
    assert_eq!(fallback.risk_level, 0);
    let strict = Some(CompatibilityInfo {
        target_schema_version: 5,
        min_compatible_version: 5,
        breaking_changes: vec![],
        deprecated_features: vec![],
    });
    assert!(SafetyValidator::validate_schema_compatibility(Some(2), Some(3), &strict).is_err());
    assert_eq!(SafetyValidator::validate_schema_compatibility(Some(2), Some(3), &None), Ok(true));
    let mut env = proxy();
    UpgradeableProxyContract::init(&mut env, vec![addr("GA")], 1, 0).unwrap();
    let p = UpgradeableProxyContract::propose_upgrade(&mut env, addr("CIMPL"), vec![]).unwrap();
    UpgradeableProxyContract::approve_upgrade(&mut env, p, addr("GA")).unwrap();
    UpgradeableProxyContract::execute_upgrade(&mut env, p, None, Some(3), declared.clone()).unwrap();
    let q = UpgradeableProxyContract::propose_upgrade(&mut env, addr("CIMPL2"), vec![]).unwrap();
    UpgradeableProxyContract::approve_upgrade(&mut env, q, addr("GA")).unwrap();
    assert_eq!(
        UpgradeableProxyContract::execute_upgrade(&mut env, q, Some(3), Some(4), strict.clone()),
        Err(ProxyError::ValidationFailed)
    );
    UpgradeableProxyContract::execute_upgrade(&mut env, q, Some(3), Some(4), None).unwrap();
    assert_eq!(UpgradeableProxyContract::get_version(&env), 2);
    assert_eq!(UpgradeableProxyContract::rollback(&mut env, Some(4), Some(3), declared), Err(ProxyError::ValidationFailed));
}
