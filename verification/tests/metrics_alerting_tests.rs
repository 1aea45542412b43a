use silver_node::metrics_alerting::{
    AlertRule, AlertRuleManager, ConsensusMetrics, HealthChecker, HealthLevel, HealthReport, MetricRegistry,
    MetricsExporter, NetworkMetrics, StorageMetrics, SystemMetrics, ThresholdCondition,
    ValidatorMetrics, MEMORY_CRITICAL_BYTES,
};

fn rule(name: &str, condition: &str, threshold: f64, severity: &str, enabled: bool) -> AlertRule {
    AlertRule {
        name: name.to_string(),
        description: format!("Rule {}", name),
        metric: "test".to_string(),
        condition: condition.to_string(),
        threshold_bits: threshold.to_bits(),
        duration: 300,
        severity: severity.to_string(),
        enabled,
    }
}

/// A health check of the readings as the checker's gauges compare them: CPU
/// above 90% and 80%, participation below 80%.
#[allow(clippy::too_many_arguments)]
fn check_health(
    checker: &HealthChecker,
    validator_count: usize,
    active_validators: usize,
    critical_validators: usize,
    avg_participation: f64,
    peers_connected: usize,
    database_size: u64,
    memory_usage: u64,
    cpu_usage: f64,
) -> HealthReport {
    checker.health_report(
        validator_count,
        active_validators,
        critical_validators,
        peers_connected,
        database_size,
        memory_usage,
        cpu_usage > 90.0,
        cpu_usage > 80.0,
        avg_participation < 80.0,
    )
}

/// The health level of a check with 95 active validators, 50 peers and a
/// 1 GiB database.
fn check(
    checker: &HealthChecker,
    validator_count: usize,
    critical_validators: usize,
    avg_participation: f64,
    memory_usage: u64,
    cpu_usage: f64,
) -> HealthLevel {
    check_health(
        checker,
        validator_count,
        95,
        critical_validators,
        avg_participation,
        50,
        1024 * 1024 * 1024,
        memory_usage,
        cpu_usage,
    )
    .status
}

#[test]
fn metrics_alerting_test_alert_rule_manager_creation() {
    let manager = AlertRuleManager::new();
    assert_eq!(manager.get_rules().len(), 0);
}

#[test]
fn test_add_alert_rule() {
    let mut manager = AlertRuleManager::new();
    let rule = AlertRule {
        name: "test_rule".to_string(),
        description: "Test rule".to_string(),
        metric: "validator_participation".to_string(),
        condition: "<".to_string(),
        threshold_bits: 80.0f64.to_bits(),
        duration: 300,
        severity: "Warning".to_string(),
        enabled: true,
    };
    manager.add_rule(rule);
    assert_eq!(manager.get_rules().len(), 1);
}

#[test]
fn metrics_alerting_test_remove_alert_rule() {
    let mut manager = AlertRuleManager::new();
    manager.add_rule(rule("test_rule", "<", 80.0, "Warning", true));
    assert!(manager.remove_rule("test_rule"));
    assert_eq!(manager.get_rules().len(), 0);
}

#[test]
fn metrics_alerting_test_enable_disable_rule() {
    let mut manager = AlertRuleManager::new();
    manager.add_rule(rule("test_rule", "<", 80.0, "Warning", true));
    assert!(manager.disable_rule("test_rule"));
    assert!(!manager.get_rules()[0].enabled);
    assert!(manager.enable_rule("test_rule"));
    assert!(manager.get_rules()[0].enabled);
}

#[test]
#[allow(unused_comparisons)]
fn metrics_alerting_test_health_checker_creation() {
    let checker = HealthChecker::new();
    let uptime = checker.get_uptime();
    assert!(uptime >= 0);
}

#[test]
fn metrics_alerting_test_health_check_healthy() {
    let checker = HealthChecker::new();
    let level = check(&checker, 100, 0, 95.0, 4 * 1024 * 1024 * 1024, 30.0);
    assert_eq!(level.label(), "Healthy");
}

#[test]
fn metrics_alerting_test_health_check_degraded() {
    let checker = HealthChecker::new();
    let level = check(&checker, 100, 5, 75.0, 4 * 1024 * 1024 * 1024, 85.0);
    assert_eq!(level.label(), "Degraded");
}

#[test]
fn metrics_alerting_test_health_check_unhealthy() {
    let checker = HealthChecker::new();
    let level = check(&checker, 100, 50, 50.0, 14 * 1024 * 1024 * 1024, 95.0);
    assert_eq!(level.label(), "Unhealthy");
}

#[test]
fn metrics_alerting_test_get_enabled_rules() {
    let mut manager = AlertRuleManager::new();
    manager.add_rule(rule("rule1", ">", 50.0, "Warning", true));
    manager.add_rule(rule("rule2", "<", 30.0, "Critical", false));
    let enabled = manager.get_enabled_rules();
    assert_eq!(enabled.len(), 1);
    assert_eq!(enabled[0].name, "rule1");
}

#[test]
fn metrics_alerting_tests_test_alert_rule_manager_creation() {
    let manager = AlertRuleManager::new();
    assert_eq!(manager.get_rules().len(), 0);
}

#[test]
fn test_add_single_alert_rule() {
    let mut manager = AlertRuleManager::new();
    let rule = AlertRule {
        name: "low_participation".to_string(),
        description: "Alert when participation drops below 80%".to_string(),
        metric: "validator_participation".to_string(),
        condition: "<".to_string(),
        threshold_bits: 80.0f64.to_bits(),
        duration: 300,
        severity: "Warning".to_string(),
        enabled: true,
    };
    manager.add_rule(rule);
    assert_eq!(manager.get_rules().len(), 1);
    assert_eq!(manager.get_rules()[0].name, "low_participation");
}

#[test]
fn test_add_multiple_alert_rules() {
    let mut manager = AlertRuleManager::new();
    for i in 0..5 {
        let rule = AlertRule {
            name: format!("rule_{}", i),
            description: format!("Test rule {}", i),
            metric: "test_metric".to_string(),
            condition: ">".to_string(),
            threshold_bits: 50.0f64.to_bits(),
            duration: 300,
            severity: "Warning".to_string(),
            enabled: true,
        };
        manager.add_rule(rule);
    }
    assert_eq!(manager.get_rules().len(), 5);
}

#[test]
fn metrics_alerting_tests_test_remove_alert_rule() {
    let mut manager = AlertRuleManager::new();
    manager.add_rule(rule("test_rule", ">", 50.0, "Warning", true));
    assert_eq!(manager.get_rules().len(), 1);
    assert!(manager.remove_rule("test_rule"));
    assert_eq!(manager.get_rules().len(), 0);
    assert!(!manager.remove_rule("nonexistent"));
}

#[test]
fn metrics_alerting_tests_test_enable_disable_rule() {
    let mut manager = AlertRuleManager::new();
    manager.add_rule(rule("test_rule", ">", 50.0, "Warning", true));
    assert!(manager.get_rules()[0].enabled);
    assert!(manager.disable_rule("test_rule"));
    assert!(!manager.get_rules()[0].enabled);
    assert!(manager.enable_rule("test_rule"));
    assert!(manager.get_rules()[0].enabled);
}

#[test]
fn metrics_alerting_tests_test_get_enabled_rules() {
    let mut manager = AlertRuleManager::new();
    manager.add_rule(rule("rule1", ">", 50.0, "Warning", true));
    manager.add_rule(rule("rule2", "<", 30.0, "Critical", false));
    manager.add_rule(rule("rule3", "==", 100.0, "Info", true));
    let enabled = manager.get_enabled_rules();
    assert_eq!(enabled.len(), 2);
    assert_eq!(enabled[0].name, "rule1");
    assert_eq!(enabled[1].name, "rule3");
}

#[test]
#[allow(unused_comparisons)]
fn metrics_alerting_tests_test_health_checker_creation() {
    let checker = HealthChecker::new();
    let uptime = checker.get_uptime();
    assert!(uptime >= 0);
}

#[test]
fn test_health_check_healthy_status() {
    let checker = HealthChecker::new();
    let status = check_health(&checker, 100, 95, 0, 95.0, 50, 1024 * 1024 * 1024, 4 * 1024 * 1024 * 1024, 30.0);
    assert_eq!(status.status.label(), "Healthy");
    assert_eq!(status.validator_count, 100);
    assert_eq!(status.active_validators, 95);
    assert_eq!(status.critical_validators, 0);
}

#[test]
fn test_health_status_response_structure() {
    let checker = HealthChecker::new();
    let status = check_health(&checker, 100, 95, 0, 95.0, 50, 1024 * 1024 * 1024, 4 * 1024 * 1024 * 1024, 30.0);
    assert!(!status.status.label().is_empty());
    assert!(status.timestamp > 0);
    assert_eq!(status.validator_count, 100);
    assert_eq!(status.active_validators, 95);
    assert_eq!(status.critical_validators, 0);
    assert_eq!(status.peers_connected, 50);
    assert_eq!(status.database_size, 1024 * 1024 * 1024);
    assert_eq!(status.memory_usage, 4 * 1024 * 1024 * 1024);
}

#[test]
fn test_health_check_degraded_status() {
    let checker = HealthChecker::new();
    let level = check(&checker, 100, 5, 75.0, 4 * 1024 * 1024 * 1024, 85.0);
    assert_eq!(level.label(), "Degraded");
}

#[test]
fn test_health_check_unhealthy_status() {
    let checker = HealthChecker::new();
    let level = check(&checker, 100, 50, 50.0, 14 * 1024 * 1024 * 1024, 95.0);
    assert_eq!(level.label(), "Unhealthy");
}

#[test]
fn test_health_check_high_cpu_unhealthy() {
    let checker = HealthChecker::new();
    let level = check(&checker, 100, 0, 95.0, 4 * 1024 * 1024 * 1024, 95.0);
    assert_eq!(level.label(), "Unhealthy");
}

#[test]
fn test_health_check_high_memory_unhealthy() {
    let checker = HealthChecker::new();
    let level = check(&checker, 100, 0, 95.0, 17 * 1024 * 1024 * 1024, 30.0);
    assert_eq!(level.label(), "Unhealthy");
}

#[test]
fn multiple_rules_keep_their_conditions_and_thresholds() {
    let mut manager = AlertRuleManager::new();
    let rules = vec![
        rule("high_cpu", ">", 80.0, "Warning", true),
        rule("low_memory", "<", 20.0, "Critical", true),
        rule("low_participation", "<", 80.0, "Warning", true),
    ];
    for rule in rules {
        manager.add_rule(rule);
    }
    assert_eq!(manager.get_rules()[0].threshold_condition(), ThresholdCondition::Greater);
    assert_eq!(manager.get_rules()[1].threshold_condition(), ThresholdCondition::Less);
    assert_eq!(manager.get_rules()[2].threshold_condition(), ThresholdCondition::Less);
    assert_eq!(f64::from_bits(manager.get_rules()[0].threshold_bits), 80.0);
}

#[test]
fn test_alert_rule_manager_default() {
    let manager = AlertRuleManager::default();
    assert_eq!(manager.get_rules().len(), 0);
}

#[test]
#[allow(unused_comparisons)]
fn test_health_checker_default() {
    let checker = HealthChecker::default();
    assert!(checker.get_uptime() >= 0);
}

// ----- further scenarios -----

#[test]
fn conditions_are_read_from_their_text() {
    let cases = [
        (">", ThresholdCondition::Greater),
        ("<", ThresholdCondition::Less),
        (">=", ThresholdCondition::GreaterOrEqual),
        ("<=", ThresholdCondition::LessOrEqual),
        ("==", ThresholdCondition::Equal),
        ("!=", ThresholdCondition::NotEqual),
        ("=>", ThresholdCondition::Unsupported),
        ("", ThresholdCondition::Unsupported),
    ];
    for (text, expected) in cases {
        assert_eq!(rule("r", text, 1.0, "Info", true).threshold_condition(), expected);
    }
}

#[test]
fn remove_takes_only_the_first_rule_of_a_name() {
    let mut manager = AlertRuleManager::new();
    manager.add_rule(rule("dup", ">", 1.0, "Info", true));
    manager.add_rule(rule("other", ">", 2.0, "Info", true));
    manager.add_rule(rule("dup", "<", 3.0, "Info", false));
    assert!(manager.remove_rule("dup"));
    assert_eq!(manager.get_rules().len(), 2);
    assert_eq!(manager.get_rules()[0].name, "other");
    assert_eq!(manager.get_rules()[1].condition, "<");
}

#[test]
fn enable_touches_only_the_first_rule_of_a_name() {
    let mut manager = AlertRuleManager::new();
    manager.add_rule(rule("dup", ">", 1.0, "Info", false));
    manager.add_rule(rule("dup", "<", 3.0, "Info", false));
    assert!(manager.enable_rule("dup"));
    assert!(manager.get_rules()[0].enabled);
    assert!(!manager.get_rules()[1].enabled);
    assert!(!manager.enable_rule("missing"));
    assert!(!manager.disable_rule("missing"));
    assert_eq!(manager.get_rules().len(), 2);
}

#[test]
fn removing_a_fresh_rule_restores_the_rules() {
    let mut manager = AlertRuleManager::new();
    manager.add_rule(rule("a", ">", 1.0, "Info", true));
    manager.add_rule(rule("b", ">", 1.0, "Info", false));
    manager.remove_rule("b");
    assert_eq!(manager.get_rules().len(), 1);
    assert_eq!(manager.get_rules()[0].name, "a");
}

#[test]
fn health_levels_at_their_limits() {
    let checker = HealthChecker::new();
    // More than a third of the validators critical: degraded.
    let level = check(&checker, 9, 4, 95.0, 1024, 10.0);
    assert_eq!(level, HealthLevel::Degraded);
    // Exactly a third: healthy.
    let level = check(&checker, 9, 3, 95.0, 1024, 10.0);
    assert_eq!(level, HealthLevel::Healthy);
    let level = check(&checker, 9, 0, 79.9, 1024, 10.0);
    assert_eq!(level, HealthLevel::Degraded);
    let level = check(&checker, 9, 0, 95.0, MEMORY_CRITICAL_BYTES, 80.0);
    assert_eq!(level, HealthLevel::Healthy);
    let level = check(&checker, 9, 0, 95.0, MEMORY_CRITICAL_BYTES + 1, 10.0);
    assert_eq!(level, HealthLevel::Unhealthy);
}

#[test]
fn uptime_at_is_saturating() {
    let checker = HealthChecker::new();
    assert_eq!(checker.uptime_at(0), 0);
    let now = checker.get_uptime();
    assert!(checker.uptime_at(u64::MAX) >= now);
}

#[test]
fn uptime_from_a_known_start() {
    let checker = HealthChecker::with_start_time(1_000);
    assert_eq!(checker.uptime_at(1_060), 60);
    assert_eq!(checker.uptime_at(999), 0);
    assert_eq!(checker.uptime_at(1_000), 0);
}

#[test]
fn metrics_alerting_test_metrics_exporter_creation() {
    let exporter = MetricsExporter::new();
    assert!(exporter.is_ok());
}

#[test]
fn test_export_metrics() {
    let exporter = MetricsExporter::new().unwrap();
    let metrics = exporter.export_metrics();
    assert!(metrics.is_ok());
    let output = metrics.unwrap();
    assert!(!output.is_empty());
}

#[test]
fn metrics_alerting_tests_test_metrics_exporter_creation() {
    let exporter = MetricsExporter::new();
    assert!(exporter.is_ok());
}

#[test]
fn test_export_metrics_format() {
    let exporter = MetricsExporter::new().unwrap();
    let metrics = exporter.export_metrics();
    assert!(metrics.is_ok());

    let output = metrics.unwrap();
    assert!(!output.is_empty());
    // Prometheus format should contain TYPE and HELP comments
    assert!(output.contains("# HELP") || output.contains("# TYPE"));
}

#[test]
fn test_validator_metrics() {
    let exporter = MetricsExporter::new().unwrap();
    let validator_metrics = exporter.validator_metrics();

    validator_metrics.total_validators.handle().inner.set(100);
    validator_metrics.active_validators.handle().inner.set(95);
    validator_metrics.jailed_validators.handle().inner.set(5);
    validator_metrics.avg_participation_rate.handle().inner.set(97.5);
    validator_metrics.avg_uptime_percentage.handle().inner.set(98.2);
    validator_metrics.avg_response_time_ms.handle().inner.set(150.0);
    validator_metrics.critical_validators.handle().inner.set(0);
    validator_metrics.warning_validators.handle().inner.set(3);

    let metrics = exporter.export_metrics().unwrap();
    assert!(metrics.contains("validator_total_count"));
    assert!(metrics.contains("validator_active_count"));
}

#[test]
fn test_consensus_metrics() {
    let exporter = MetricsExporter::new().unwrap();
    let consensus_metrics = exporter.consensus_metrics();

    consensus_metrics.snapshots_created.handle().inner.inc();
    consensus_metrics.snapshots_created.handle().inner.inc();
    consensus_metrics.transactions_processed.handle().inner.inc_by(100);
    consensus_metrics.batches_created.handle().inner.inc();

    let metrics = exporter.export_metrics().unwrap();
    assert!(metrics.contains("consensus_snapshots_created"));
    assert!(metrics.contains("consensus_transactions_processed"));
}

#[test]
fn test_network_metrics() {
    let exporter = MetricsExporter::new().unwrap();
    let network_metrics = exporter.network_metrics();

    network_metrics.peers_connected.handle().inner.set(50);
    network_metrics.messages_sent.handle().inner.inc_by(1000);
    network_metrics.messages_received.handle().inner.inc_by(1000);
    network_metrics.bytes_sent.handle().inner.inc_by(1024 * 1024);
    network_metrics.bytes_received.handle().inner.inc_by(1024 * 1024);

    let metrics = exporter.export_metrics().unwrap();
    assert!(metrics.contains("network_peers_connected"));
    assert!(metrics.contains("network_messages_sent"));
}

#[test]
fn test_storage_metrics() {
    let exporter = MetricsExporter::new().unwrap();
    let storage_metrics = exporter.storage_metrics();

    storage_metrics.objects_stored.handle().inner.set(1000000);
    storage_metrics.database_size.handle().inner.set(10 * 1024 * 1024 * 1024);
    storage_metrics.read_operations.handle().inner.inc_by(10000);
    storage_metrics.write_operations.handle().inner.inc_by(5000);

    let metrics = exporter.export_metrics().unwrap();
    assert!(metrics.contains("storage_objects_stored"));
    assert!(metrics.contains("storage_database_size_bytes"));
}

#[test]
fn test_system_metrics() {
    let exporter = MetricsExporter::new().unwrap();
    let system_metrics = exporter.system_metrics();

    system_metrics.cpu_usage.handle().inner.set(45.5);
    system_metrics.memory_usage.handle().inner.set(8 * 1024 * 1024 * 1024);
    system_metrics.memory_limit.handle().inner.set(16 * 1024 * 1024 * 1024);
    system_metrics.disk_usage.handle().inner.set(500 * 1024 * 1024 * 1024);
    system_metrics.disk_limit.handle().inner.set(1024 * 1024 * 1024 * 1024);
    system_metrics.uptime.handle().inner.set(86400);
    system_metrics.goroutines.handle().inner.set(100);

    let metrics = exporter.export_metrics().unwrap();
    assert!(metrics.contains("system_cpu_usage_percent"));
    assert!(metrics.contains("system_memory_usage_bytes"));
}

#[test]
fn metric_sets_carry_their_names() {
    let exporter = MetricsExporter::new().unwrap();
    assert_eq!(exporter.validator_metrics().total_validators.name(), "validator_total_count");
    assert_eq!(exporter.validator_metrics().total_validators.help(), "Total validators");
    assert_eq!(exporter.consensus_metrics().batch_size.name(), "consensus_batch_size");
    assert_eq!(exporter.network_metrics().network_latency.name(), "network_latency_ms");
    assert_eq!(exporter.storage_metrics().storage_errors.name(), "storage_errors");
    assert_eq!(exporter.system_metrics().goroutines.name(), "system_goroutines");
}

#[test]
fn a_second_registration_of_a_name_fails() {
    let mut registry = MetricRegistry::new();
    assert!(ValidatorMetrics::new(&mut registry).is_ok());
    assert!(ValidatorMetrics::new(&mut registry).is_err());
    assert!(SystemMetrics::new(&mut registry).is_ok());
}

#[test]
fn a_refused_set_leaves_other_sets_registrable() {
    let mut registry = MetricRegistry::new();
    assert!(StorageMetrics::new(&mut registry).is_ok());
    assert!(ConsensusMetrics::new(&mut registry).is_ok());
    assert!(StorageMetrics::new(&mut registry).is_err());
    assert!(NetworkMetrics::new(&mut registry).is_ok());
}

#[test]
fn the_exporter_registers_every_set() {
    let exporter = MetricsExporter::new().unwrap();
    let text = exporter.export_metrics().unwrap();
    exporter.validator_metrics().warning_validators.handle().inner.set(2);
    exporter.consensus_metrics().byzantine_faults.handle().inner.inc();
    exporter.network_metrics().connection_errors.handle().inner.inc();
    exporter.storage_metrics().storage_errors.handle().inner.inc();
    exporter.system_metrics().goroutines.handle().inner.set(7);
    let after = exporter.export_metrics().unwrap();
    assert!(after.len() >= text.len());
    assert!(after.contains("validator_warning_count 2"));
    assert!(after.contains("consensus_byzantine_faults 1"));
    assert!(after.contains("network_connection_errors 1"));
    assert!(after.contains("storage_errors 1"));
    assert!(after.contains("system_goroutines 7"));
}
