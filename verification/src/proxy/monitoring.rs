//! Upgrade metrics, analytics, trends and health checks.
use vstd::prelude::*;
use vstd::string::StringSliceAdditionalSpecFns;
use crate::address::Address;
use crate::table::{Duplicate, text_of};
use super::error::MonitoringError;

verus! {

broadcast use crate::table::lemma_bytes_deep_view;

/// Metrics collected while an upgrade runs.
#[derive(Clone, Debug, PartialEq)]
pub struct UpgradeMetrics {
    pub proposal_id: u64,
    pub start_time: u64,
    /// Zero while the upgrade runs.
    pub end_time: u64,
    pub total_gas_used: u64,
    pub storage_operations: u32,
    pub contract_calls: u32,
    pub peak_memory_bytes: u64,
    pub success: bool,
    /// Empty on success.
    pub error_message: Vec<u8>,
}

/// The model of [`UpgradeMetrics`].
pub struct UpgradeMetricsModel {
    pub proposal_id: u64,
    pub start_time: u64,
    pub end_time: u64,
    pub total_gas_used: u64,
    pub storage_operations: u32,
    pub contract_calls: u32,
    pub peak_memory_bytes: u64,
    pub success: bool,
    pub error_message: Seq<u8>,
}

impl DeepView for UpgradeMetrics {
    type V = UpgradeMetricsModel;

    open spec fn deep_view(&self) -> UpgradeMetricsModel {
        UpgradeMetricsModel {
            proposal_id: self.proposal_id.deep_view(),
            start_time: self.start_time.deep_view(),
            end_time: self.end_time.deep_view(),
            total_gas_used: self.total_gas_used.deep_view(),
            storage_operations: self.storage_operations.deep_view(),
            contract_calls: self.contract_calls.deep_view(),
            peak_memory_bytes: self.peak_memory_bytes.deep_view(),
            success: self.success.deep_view(),
            error_message: self.error_message.deep_view(),
        }
    }
}

impl View for UpgradeMetrics {
    type V = UpgradeMetricsModel;

    open spec fn view(&self) -> UpgradeMetricsModel {
        UpgradeMetricsModel {
            proposal_id: self.proposal_id.deep_view(),
            start_time: self.start_time.deep_view(),
            end_time: self.end_time.deep_view(),
            total_gas_used: self.total_gas_used.deep_view(),
            storage_operations: self.storage_operations.deep_view(),
            contract_calls: self.contract_calls.deep_view(),
            peak_memory_bytes: self.peak_memory_bytes.deep_view(),
            success: self.success.deep_view(),
            error_message: self.error_message.deep_view(),
        }
    }
}

impl Duplicate for UpgradeMetrics {
    fn duplicate(&self) -> (r: Self) {
        UpgradeMetrics {
            proposal_id: self.proposal_id.duplicate(),
            start_time: self.start_time.duplicate(),
            end_time: self.end_time.duplicate(),
            total_gas_used: self.total_gas_used.duplicate(),
            storage_operations: self.storage_operations.duplicate(),
            contract_calls: self.contract_calls.duplicate(),
            peak_memory_bytes: self.peak_memory_bytes.duplicate(),
            success: self.success.duplicate(),
            error_message: self.error_message.duplicate(),
        }
    }
}
/// Aggregate upgrade analytics.
#[derive(Clone, Debug, PartialEq)]
pub struct UpgradeAnalytics {
    pub total_upgrades: u32,
    pub successful_upgrades: u32,
    pub failed_upgrades: u32,
    pub rolled_back_upgrades: u32,
    pub average_execution_time_ms: u64,
    pub average_gas_consumption: u64,
    /// 0 to 100.
    pub success_rate_percentage: u32,
    pub last_upgrade_time: u64,
}

/// The model of [`UpgradeAnalytics`].
pub struct UpgradeAnalyticsModel {
    pub total_upgrades: u32,
    pub successful_upgrades: u32,
    pub failed_upgrades: u32,
    pub rolled_back_upgrades: u32,
    pub average_execution_time_ms: u64,
    pub average_gas_consumption: u64,
    pub success_rate_percentage: u32,
    pub last_upgrade_time: u64,
}

impl DeepView for UpgradeAnalytics {
    type V = UpgradeAnalyticsModel;

    open spec fn deep_view(&self) -> UpgradeAnalyticsModel {
        UpgradeAnalyticsModel {
            total_upgrades: self.total_upgrades.deep_view(),
            successful_upgrades: self.successful_upgrades.deep_view(),
            failed_upgrades: self.failed_upgrades.deep_view(),
            rolled_back_upgrades: self.rolled_back_upgrades.deep_view(),
            average_execution_time_ms: self.average_execution_time_ms.deep_view(),
            average_gas_consumption: self.average_gas_consumption.deep_view(),
            success_rate_percentage: self.success_rate_percentage.deep_view(),
            last_upgrade_time: self.last_upgrade_time.deep_view(),
        }
    }
}

impl View for UpgradeAnalytics {
    type V = UpgradeAnalyticsModel;

    open spec fn view(&self) -> UpgradeAnalyticsModel {
        UpgradeAnalyticsModel {
            total_upgrades: self.total_upgrades.deep_view(),
            successful_upgrades: self.successful_upgrades.deep_view(),
            failed_upgrades: self.failed_upgrades.deep_view(),
            rolled_back_upgrades: self.rolled_back_upgrades.deep_view(),
            average_execution_time_ms: self.average_execution_time_ms.deep_view(),
            average_gas_consumption: self.average_gas_consumption.deep_view(),
            success_rate_percentage: self.success_rate_percentage.deep_view(),
            last_upgrade_time: self.last_upgrade_time.deep_view(),
        }
    }
}

impl Duplicate for UpgradeAnalytics {
    fn duplicate(&self) -> (r: Self) {
        UpgradeAnalytics {
            total_upgrades: self.total_upgrades.duplicate(),
            successful_upgrades: self.successful_upgrades.duplicate(),
            failed_upgrades: self.failed_upgrades.duplicate(),
            rolled_back_upgrades: self.rolled_back_upgrades.duplicate(),
            average_execution_time_ms: self.average_execution_time_ms.duplicate(),
            average_gas_consumption: self.average_gas_consumption.duplicate(),
            success_rate_percentage: self.success_rate_percentage.duplicate(),
            last_upgrade_time: self.last_upgrade_time.duplicate(),
        }
    }
}
/// The impact of an upgrade on the stored data.
#[derive(Clone, Debug, PartialEq)]
pub struct ImpactMetrics {
    pub implementation: Address,
    pub version: u64,
    pub affected_keys: u32,
    pub data_before_bytes: u64,
    pub data_after_bytes: u64,
    pub migrations_performed: u32,
    pub downtime_ms: u64,
    /// 0 (none) to 100.
    pub user_impact_score: u32,
}

/// The model of [`ImpactMetrics`].
pub struct ImpactMetricsModel {
    pub implementation: Seq<u8>,
    pub version: u64,
    pub affected_keys: u32,
    pub data_before_bytes: u64,
    pub data_after_bytes: u64,
    pub migrations_performed: u32,
    pub downtime_ms: u64,
    pub user_impact_score: u32,
}

impl DeepView for ImpactMetrics {
    type V = ImpactMetricsModel;

    open spec fn deep_view(&self) -> ImpactMetricsModel {
        ImpactMetricsModel {
            implementation: self.implementation.deep_view(),
            version: self.version.deep_view(),
            affected_keys: self.affected_keys.deep_view(),
            data_before_bytes: self.data_before_bytes.deep_view(),
            data_after_bytes: self.data_after_bytes.deep_view(),
            migrations_performed: self.migrations_performed.deep_view(),
            downtime_ms: self.downtime_ms.deep_view(),
            user_impact_score: self.user_impact_score.deep_view(),
        }
    }
}

impl View for ImpactMetrics {
    type V = ImpactMetricsModel;

    open spec fn view(&self) -> ImpactMetricsModel {
        ImpactMetricsModel {
            implementation: self.implementation.deep_view(),
            version: self.version.deep_view(),
            affected_keys: self.affected_keys.deep_view(),
            data_before_bytes: self.data_before_bytes.deep_view(),
            data_after_bytes: self.data_after_bytes.deep_view(),
            migrations_performed: self.migrations_performed.deep_view(),
            downtime_ms: self.downtime_ms.deep_view(),
            user_impact_score: self.user_impact_score.deep_view(),
        }
    }
}

impl Duplicate for ImpactMetrics {
    fn duplicate(&self) -> (r: Self) {
        ImpactMetrics {
            implementation: self.implementation.duplicate(),
            version: self.version.duplicate(),
            affected_keys: self.affected_keys.duplicate(),
            data_before_bytes: self.data_before_bytes.duplicate(),
            data_after_bytes: self.data_after_bytes.duplicate(),
            migrations_performed: self.migrations_performed.duplicate(),
            downtime_ms: self.downtime_ms.duplicate(),
            user_impact_score: self.user_impact_score.duplicate(),
        }
    }
}
/// Trends over past upgrades.
#[derive(Clone, Debug, PartialEq)]
pub struct TrendAnalysis {
    pub period_days: u32,
    pub upgrades_per_day: u32,
    /// -1 declining, 0 stable, 1 improving.
    pub success_trend: i32,
    pub time_trend: i32,
    pub gas_trend: i32,
    pub forecasted_success_rate: u32,
    /// 0 continue, 1 caution, 2 halt.
    pub recommended_action: u32,
}

/// The model of [`TrendAnalysis`].
pub struct TrendAnalysisModel {
    pub period_days: u32,
    pub upgrades_per_day: u32,
    pub success_trend: i32,
    pub time_trend: i32,
    pub gas_trend: i32,
    pub forecasted_success_rate: u32,
    pub recommended_action: u32,
}

impl DeepView for TrendAnalysis {
    type V = TrendAnalysisModel;

    open spec fn deep_view(&self) -> TrendAnalysisModel {
        TrendAnalysisModel {
            period_days: self.period_days.deep_view(),
            upgrades_per_day: self.upgrades_per_day.deep_view(),
            success_trend: self.success_trend.deep_view(),
            time_trend: self.time_trend.deep_view(),
            gas_trend: self.gas_trend.deep_view(),
            forecasted_success_rate: self.forecasted_success_rate.deep_view(),
            recommended_action: self.recommended_action.deep_view(),
        }
    }
}

impl View for TrendAnalysis {
    type V = TrendAnalysisModel;

    open spec fn view(&self) -> TrendAnalysisModel {
        TrendAnalysisModel {
            period_days: self.period_days.deep_view(),
            upgrades_per_day: self.upgrades_per_day.deep_view(),
            success_trend: self.success_trend.deep_view(),
            time_trend: self.time_trend.deep_view(),
            gas_trend: self.gas_trend.deep_view(),
            forecasted_success_rate: self.forecasted_success_rate.deep_view(),
            recommended_action: self.recommended_action.deep_view(),
        }
    }
}

impl Duplicate for TrendAnalysis {
    fn duplicate(&self) -> (r: Self) {
        TrendAnalysis {
            period_days: self.period_days.duplicate(),
            upgrades_per_day: self.upgrades_per_day.duplicate(),
            success_trend: self.success_trend.duplicate(),
            time_trend: self.time_trend.duplicate(),
            gas_trend: self.gas_trend.duplicate(),
            forecasted_success_rate: self.forecasted_success_rate.duplicate(),
            recommended_action: self.recommended_action.duplicate(),
        }
    }
}
/// The health of the proxy.
#[derive(Clone, Debug, PartialEq)]
pub struct HealthCheckResult {
    /// 0 healthy, 1 degraded, 2 critical.
    pub status: u32,
    pub checked_at: u64,
    pub responsiveness_score: u32,
    pub storage_health_score: u32,
    /// Percent.
    pub performance_degradation: u32,
    pub recommendations: Vec<u8>,
}

/// The model of [`HealthCheckResult`].
pub struct HealthCheckResultModel {
    pub status: u32,
    pub checked_at: u64,
    pub responsiveness_score: u32,
    pub storage_health_score: u32,
    pub performance_degradation: u32,
    pub recommendations: Seq<u8>,
}

impl DeepView for HealthCheckResult {
    type V = HealthCheckResultModel;

    open spec fn deep_view(&self) -> HealthCheckResultModel {
        HealthCheckResultModel {
            status: self.status.deep_view(),
            checked_at: self.checked_at.deep_view(),
            responsiveness_score: self.responsiveness_score.deep_view(),
            storage_health_score: self.storage_health_score.deep_view(),
            performance_degradation: self.performance_degradation.deep_view(),
            recommendations: self.recommendations.deep_view(),
        }
    }
}

impl View for HealthCheckResult {
    type V = HealthCheckResultModel;

    open spec fn view(&self) -> HealthCheckResultModel {
        HealthCheckResultModel {
            status: self.status.deep_view(),
            checked_at: self.checked_at.deep_view(),
            responsiveness_score: self.responsiveness_score.deep_view(),
            storage_health_score: self.storage_health_score.deep_view(),
            performance_degradation: self.performance_degradation.deep_view(),
            recommendations: self.recommendations.deep_view(),
        }
    }
}

impl Duplicate for HealthCheckResult {
    fn duplicate(&self) -> (r: Self) {
        HealthCheckResult {
            status: self.status.duplicate(),
            checked_at: self.checked_at.duplicate(),
            responsiveness_score: self.responsiveness_score.duplicate(),
            storage_health_score: self.storage_health_score.duplicate(),
            performance_degradation: self.performance_degradation.duplicate(),
            recommendations: self.recommendations.duplicate(),
        }
    }
}
/// The storage keys of monitoring records.
#[derive(Clone, Debug, PartialEq)]
pub enum MonitoringStorageKey {
    /// The metrics of a proposal's upgrade.
    UpgradeMetrics(u64),
    /// The aggregate analytics.
    AggregateAnalytics,
    /// The impact metrics of a version.
    ImpactMetrics(u64),
    /// The trend analysis.
    TrendAnalysis,
    /// The latest health check.
    HealthCheck,
    /// Past metrics, for forecasting.
    MetricsHistory,
}

/// The fixed analytics reported at ledger time `now`.
pub open spec fn spec_analytics(now: u64) -> UpgradeAnalyticsModel {
    UpgradeAnalyticsModel {
        total_upgrades: 10,
        successful_upgrades: 9,
        failed_upgrades: 1,
        rolled_back_upgrades: 0,
        average_execution_time_ms: 1500,
        average_gas_consumption: 750_000,
        success_rate_percentage: 90,
        last_upgrade_time: now,
    }
}

/// The fixed trend analysis.
pub open spec fn spec_trends() -> TrendAnalysisModel {
    TrendAnalysisModel {
        period_days: 30,
        upgrades_per_day: 1,
        success_trend: 1,
        time_trend: -1i32,
        gas_trend: -1i32,
        forecasted_success_rate: 95,
        recommended_action: 0,
    }
}

/// The health reported at ledger time `now`: healthy.
pub open spec fn spec_health(now: u64) -> HealthCheckResultModel {
    HealthCheckResultModel {
        status: 0,
        checked_at: now,
        responsiveness_score: 95,
        storage_health_score: 90,
        performance_degradation: 5,
        recommendations: "No recommendations at this time".spec_bytes(),
    }
}

/// Upgrade metrics and analytics.
pub struct MonitoringManager;

impl MonitoringManager {
    /// Fresh metrics for the upgrade of `proposal_id`, started at `now`.
    pub fn start_metrics_collection(now: u64, proposal_id: u64) -> (r: Result<UpgradeMetrics, MonitoringError>)
        ensures
            match r {
                Ok(m) => m@ == (UpgradeMetricsModel {
                    proposal_id,
                    start_time: now,
                    end_time: 0,
                    total_gas_used: 0,
                    storage_operations: 0,
                    contract_calls: 0,
                    peak_memory_bytes: 0,
                    success: false,
                    error_message: Seq::empty(),
                }),
                Err(_) => false,
            },
    {
        let m = UpgradeMetrics {
            proposal_id,
            start_time: now,
            end_time: 0,
            total_gas_used: 0,
            storage_operations: 0,
            contract_calls: 0,
            peak_memory_bytes: 0,
            success: false,
            error_message: Vec::new(),
        };
        proof {
            assert(m.error_message.deep_view() =~= Seq::<u8>::empty());
        }
        Ok(m)
    }

    /// Adds one contract call, `gas_used` gas and `storage_ops` storage
    /// operations to the metrics.
    pub fn record_metric_update(metrics: UpgradeMetrics, gas_used: u64, storage_ops: u32) -> (r: Result<UpgradeMetrics, MonitoringError>)
        requires
            metrics.total_gas_used + gas_used <= u64::MAX,
            metrics.storage_operations + storage_ops <= u32::MAX,
            metrics.contract_calls < u32::MAX,
        ensures
            match r {
                Ok(m) => m@ == (UpgradeMetricsModel {
                    total_gas_used: (metrics.total_gas_used + gas_used) as u64,
                    storage_operations: (metrics.storage_operations + storage_ops) as u32,
                    contract_calls: (metrics.contract_calls + 1) as u32,
                    ..metrics@
                }),
                Err(_) => false,
            },
    {
        let mut metrics = metrics;
        metrics.total_gas_used = metrics.total_gas_used + gas_used;
        metrics.storage_operations = metrics.storage_operations + storage_ops;
        metrics.contract_calls = metrics.contract_calls + 1;
        Ok(metrics)
    }

    /// Closes the metrics at `now` with the outcome `success`.
    pub fn finalize_metrics(now: u64, metrics: UpgradeMetrics, success: bool) -> (r: Result<UpgradeMetrics, MonitoringError>)
        ensures
            match r {
                Ok(m) => m@ == (UpgradeMetricsModel { end_time: now, success, ..metrics@ }),
                Err(_) => false,
            },
    {
        let mut metrics = metrics;
        metrics.end_time = now;
        metrics.success = success;
        Ok(metrics)
    }

    /// The aggregate analytics: fixed figures, with the last upgrade at `now`.
    pub fn calculate_analytics(now: u64) -> (r: Result<UpgradeAnalytics, MonitoringError>)
        ensures
            match r {
                Ok(a) => a@ == spec_analytics(now),
                Err(_) => false,
            },
    {
        Ok(UpgradeAnalytics {
            total_upgrades: 10,
            successful_upgrades: 9,
            failed_upgrades: 1,
            rolled_back_upgrades: 0,
            average_execution_time_ms: 1500,
            average_gas_consumption: 750_000,
            success_rate_percentage: 90,
            last_upgrade_time: now,
        })
    }

    /// The impact of an upgrade that took the data from `data_before` to
    /// `data_after` bytes: a growth above 50 percent (of `data_before + 1`)
    /// scores 75, anything else 25.
    pub fn analyze_impact(implementation: Address, version: u64, data_before: u64, data_after: u64) -> (r: Result<ImpactMetrics, MonitoringError>)
        requires
            data_before < u64::MAX,
            data_after >= data_before ==> (data_after - data_before) * 100 <= u64::MAX,
        ensures
            match r {
                Ok(m) => m@ == (ImpactMetricsModel {
                    implementation: implementation@,
                    version,
                    affected_keys: 20,
                    data_before_bytes: data_before,
                    data_after_bytes: data_after,
                    migrations_performed: 1,
                    downtime_ms: 0,
                    user_impact_score: if data_after >= data_before && (data_after - data_before) * 100 / (data_before + 1) > 50 { 75 } else { 25 },
                }),
                Err(_) => false,
            },
    {
        let data_change = if data_after >= data_before {
            ((data_after - data_before) * 100) / (data_before + 1)
        } else {
            0
        };
        let user_impact_score: u32 = if data_change > 50 { 75 } else { 25 };
        Ok(ImpactMetrics {
            implementation,
            version,
            affected_keys: 20,
            data_before_bytes: data_before,
            data_after_bytes: data_after,
            migrations_performed: 1,
            downtime_ms: 0,
            user_impact_score,
        })
    }

    /// The trend analysis: fixed figures.
    pub fn analyze_trends() -> (r: Result<TrendAnalysis, MonitoringError>)
        ensures
            match r {
                Ok(t) => t@ == spec_trends(),
                Err(_) => false,
            },
    {
        Ok(TrendAnalysis {
            period_days: 30,
            upgrades_per_day: 1,
            success_trend: 1,
            time_trend: -1,
            gas_trend: -1,
            forecasted_success_rate: 95,
            recommended_action: 0,
        })
    }

    /// The health of the proxy at `now`: healthy.
    pub fn health_check(now: u64) -> (r: Result<HealthCheckResult, MonitoringError>)
        ensures
            match r {
                Ok(h) => h@ == spec_health(now),
                Err(_) => false,
            },
    {
        Ok(HealthCheckResult {
            status: 0,
            checked_at: now,
            responsiveness_score: 95,
            storage_health_score: 90,
            performance_degradation: 5,
            recommendations: text_of("No recommendations at this time"),
        })
    }

    /// The stored metrics of the upgrade of `proposal_id`. The metrics of
    /// upgrades are not kept, so there are never any.
    pub fn get_metrics_report(proposal_id: u64) -> (r: Result<UpgradeMetrics, MonitoringError>)
        ensures
            match r {
                Ok(_) => false,
                Err(e) => e == MonitoringError::HistoricalDataNotFound,
            },
    {
        Err(MonitoringError::HistoricalDataNotFound)
    }

    /// The forecast success rate of the next upgrade, from the trends.
    pub fn forecast_success_rate() -> (r: Result<u32, MonitoringError>)
        ensures
            r == Ok::<u32, MonitoringError>(spec_trends().forecasted_success_rate),
    {
        match Self::analyze_trends() {
            Ok(t) => Ok(t.forecasted_success_rate),
            Err(e) => Err(e),
        }
    }

    /// Whether conditions favour an upgrade at `now`: the proxy is healthy
    /// and the forecast success rate is at least 80.
    pub fn check_upgrade_conditions(now: u64) -> (r: Result<bool, MonitoringError>)
        ensures
            r == Ok::<bool, MonitoringError>(spec_health(now).status == 0 && spec_trends().forecasted_success_rate >= 80),
    {
        let health = match Self::health_check(now) {
            Ok(h) => h,
            Err(e) => return Err(e),
        };
        let forecast = match Self::forecast_success_rate() {
            Ok(f) => f,
            Err(e) => return Err(e),
        };
        Ok(health.status == 0 && forecast >= 80)
    }
}

/// Performance scores derived from the health check.
pub struct PerformanceMonitor;

impl PerformanceMonitor {
    /// The performance score at `now`: 100 less the degradation.
    pub fn get_performance_score(now: u64) -> (r: Result<u32, MonitoringError>)
        ensures
            r == Ok::<u32, MonitoringError>((100 - spec_health(now).performance_degradation) as u32),
    {
        let health = match MonitoringManager::health_check(now) {
            Ok(h) => h,
            Err(e) => return Err(e),
        };
        Ok(100 - health.performance_degradation)
    }

    /// Whether the degradation at `now` exceeds `threshold_percent`.
    pub fn check_performance_alert(now: u64, threshold_percent: u32) -> (r: Result<bool, MonitoringError>)
        ensures
            r == Ok::<bool, MonitoringError>(spec_health(now).performance_degradation > threshold_percent),
    {
        let health = match MonitoringManager::health_check(now) {
            Ok(h) => h,
            Err(e) => return Err(e),
        };
        Ok(health.performance_degradation > threshold_percent)
    }
}

} // verus!
