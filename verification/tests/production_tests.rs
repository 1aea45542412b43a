use silver_node::production::{
    ConfigurationData, ConfigurationValidator, DependencyValidator, HealthCheck, ProductionError,
    ProductionStartup, RecoveryManager, StateData, StateValidator,
};

fn complete_config() -> ConfigurationData {
    let mut config = ConfigurationData::new();
    config.set_field("node_id".to_string(), "node1".to_string());
    config.set_field("listen_addr".to_string(), "127.0.0.1:8000".to_string());
    config.set_field("data_dir".to_string(), "/data".to_string());
    config.set_field("log_level".to_string(), "info".to_string());
    config
}

fn message(e: &ProductionError) -> String {
    match e {
        ProductionError::ConfigurationError(m)
        | ProductionError::ValidationError(m)
        | ProductionError::DependencyError(m)
        | ProductionError::RecoveryError(m)
        | ProductionError::StateError(m)
        | ProductionError::ResourceError(m) => m.clone(),
    }
}

#[test]
fn test_configuration_validator_creation() {
    let validator = ConfigurationValidator::new();
    assert!(!validator.required_fields().is_empty());
}

#[test]
fn test_configuration_validation_success() {
    let validator = ConfigurationValidator::new();
    let config = complete_config();
    let result = validator.validate(&config);
    assert!(result.is_ok());
}

#[test]
fn test_configuration_validation_missing_field() {
    let validator = ConfigurationValidator::new();
    let config = ConfigurationData::new();
    let result = validator.validate(&config);
    assert!(result.is_err());
}

#[test]
fn test_dependency_validator_creation() {
    let validator = DependencyValidator::new();
    assert!(!validator.required_dependencies().is_empty());
}

#[test]
fn test_dependency_validation() {
    let validator = DependencyValidator::new();
    let result = validator.validate();
    assert!(result.is_ok());
}

#[test]
fn test_state_validator_creation() {
    let validator = StateValidator::new(1);
    let state = StateData::new(1, vec![1, 2, 3]);
    let result = validator.validate(&state);
    assert!(result.is_ok());
}

#[test]
fn test_state_validator_version_mismatch() {
    let validator = StateValidator::new(1);
    let state = StateData::new(2, vec![1, 2, 3]);
    let result = validator.validate(&state);
    assert!(result.is_err());
}

#[test]
fn test_state_data_checksum() {
    let data = vec![1, 2, 3, 4, 5];
    let state = StateData::new(1, data);
    assert!(state.verify_checksum());
}

#[test]
fn test_recovery_manager_creation() {
    let manager = RecoveryManager::new(3);
    assert_eq!(manager.max_attempts(), 3);
}

#[test]
fn test_health_check_creation() {
    let health = HealthCheck::new();
    assert!(!health.is_healthy());
}

#[test]
fn production_test_health_check_healthy() {
    let health = HealthCheck::perform_check(true, true, true, true);
    assert!(health.is_healthy());
    assert_eq!(health.status, "Healthy");
}

#[test]
fn production_test_health_check_degraded() {
    let health = HealthCheck::perform_check(true, true, false, false);
    assert!(health.is_degraded());
    assert_eq!(health.status, "Degraded");
}

#[test]
fn production_test_health_check_unhealthy() {
    let health = HealthCheck::perform_check(false, false, false, false);
    assert!(health.is_unhealthy());
    assert_eq!(health.status, "Unhealthy");
}

#[test]
fn test_production_startup_success() {
    let startup = ProductionStartup::new();
    let config = complete_config();
    let result = startup.execute(&config);
    assert!(result.is_ok());
    let health = result.unwrap();
    assert!(health.is_healthy());
}

#[test]
fn test_production_error_display() {
    let error = ProductionError::ConfigurationError("test error".to_string());
    let display = error.to_display_string();
    assert!(display.contains("Configuration error"));
}

#[test]
fn test_configuration_data_operations() {
    let mut config = ConfigurationData::new();
    config.set_field("key1".to_string(), "value1".to_string());

    assert!(config.has_field("key1"));
    assert_eq!(config.get_field("key1"), Some("value1".to_string()));
    assert!(!config.has_field("key2"));
}

#[test]
fn test_state_validator_consistency() {
    let validator = StateValidator::new(1);
    let state = StateData::new(1, vec![1, 2, 3]);
    let result = validator.verify_consistency(&state);
    assert!(result.is_ok());
}

#[test]
fn test_state_validator_empty_state() {
    let validator = StateValidator::new(1);
    let state = StateData::new(1, vec![]);
    let result = validator.verify_consistency(&state);
    assert!(result.is_err());
}

// ----- further scenarios -----

#[test]
fn set_field_overwrites_and_keeps_other_fields() {
    let mut config = ConfigurationData::new();
    config.set_field("a".to_string(), "1".to_string());
    config.set_field("b".to_string(), "2".to_string());
    config.set_field("a".to_string(), "3".to_string());
    assert_eq!(config.get_field("a"), Some("3".to_string()));
    assert_eq!(config.get_field("b"), Some("2".to_string()));
    assert_eq!(config.get_field("c"), None);
    let copy = config.clone();
    assert_eq!(copy.get_field("a"), Some("3".to_string()));
    assert_eq!(copy.get_field("b"), Some("2".to_string()));
}

#[test]
fn missing_field_error_names_first_missing_field() {
    let validator = ConfigurationValidator::new();
    let mut config = ConfigurationData::new();
    config.set_field("node_id".to_string(), "n".to_string());
    config.set_field("data_dir".to_string(), "/d".to_string());
    match validator.validate(&config) {
        Err(ProductionError::ConfigurationError(m)) => {
            assert_eq!(m, "Missing required field: listen_addr")
        }
        _ => panic!("expected a configuration error"),
    }
}

#[test]
fn empty_node_id_is_rejected() {
    let validator = ConfigurationValidator::new();
    let mut config = complete_config();
    config.set_field("node_id".to_string(), "".to_string());
    let e = validator.validate(&config).unwrap_err();
    assert_eq!(message(&e), "node_id cannot be empty");
}

#[test]
fn listen_addr_without_port_is_rejected() {
    let validator = ConfigurationValidator::new();
    let mut config = complete_config();
    config.set_field("listen_addr".to_string(), "localhost".to_string());
    let e = validator.validate(&config).unwrap_err();
    assert_eq!(e.to_display_string(), "Configuration error: listen_addr must be in format host:port");
}

#[test]
fn added_required_field_is_checked() {
    let mut validator = ConfigurationValidator::new();
    validator.add_required_field("rpc_port".to_string());
    validator.add_optional_field("extra".to_string());
    assert_eq!(validator.required_fields().len(), 5);
    assert_eq!(validator.optional_fields().len(), 4);
    let e = validator.validate(&complete_config()).unwrap_err();
    assert_eq!(message(&e), "Missing required field: rpc_port");
    let mut config = complete_config();
    config.set_field("rpc_port".to_string(), "9000".to_string());
    assert!(validator.validate(&config).is_ok());
}

#[test]
fn dependency_validation_accepts_added_dependency() {
    let mut validator = DependencyValidator::default();
    validator.add_required_dependency("prometheus".to_string());
    assert_eq!(validator.required_dependencies().len(), 5);
    assert!(validator.validate().is_ok());
}

#[test]
fn version_mismatch_message_renders_both_versions() {
    let validator = StateValidator::new(1);
    let state = StateData::new(12345678901234567890, vec![1]);
    let e = validator.validate(&state).unwrap_err();
    assert_eq!(
        e.to_display_string(),
        "State error: State version mismatch: expected 1, got 12345678901234567890"
    );
}

#[test]
fn empty_state_fails_integrity_check() {
    let validator = StateValidator::new(7);
    let state = StateData::new(7, vec![]);
    assert!(state.verify_checksum());
    assert!(!state.is_valid());
    assert_eq!(message(&validator.validate(&state).unwrap_err()), "State integrity check failed");
}

#[test]
fn checksum_wraps_and_state_is_valid() {
    let state = StateData::new(3, vec![255; 1000]);
    assert!(state.verify_checksum());
    assert!(state.is_valid());
    assert!(StateValidator::new(3).validate(&state).is_ok());
}

#[test]
fn recovery_outcomes_by_kind() {
    let manager = RecoveryManager::default();
    assert_eq!(manager.max_attempts(), 3);
    assert!(manager.attempt_recovery(&ProductionError::StateError("s".to_string())).is_ok());
    assert!(manager.attempt_recovery(&ProductionError::ResourceError("r".to_string())).is_ok());
    let e = manager
        .attempt_recovery(&ProductionError::ConfigurationError("c".to_string()))
        .unwrap_err();
    assert_eq!(e.to_display_string(), "Configuration error: c");
    let e = manager
        .attempt_recovery(&ProductionError::DependencyError("d".to_string()))
        .unwrap_err();
    assert_eq!(e.to_display_string(), "Dependency error: d");
    let e = manager
        .attempt_recovery(&ProductionError::ValidationError("v".to_string()))
        .unwrap_err();
    assert_eq!(e.to_display_string(), "Validation error: v");
    let e = manager
        .attempt_recovery(&ProductionError::RecoveryError("x".to_string()))
        .unwrap_err();
    assert_eq!(e.to_display_string(), "Recovery error: x");
}

#[test]
fn health_check_default_is_unknown() {
    let health = HealthCheck::default();
    assert_eq!(health.status, "Unknown");
    assert!(!health.is_healthy() && !health.is_degraded() && !health.is_unhealthy());
}

#[test]
fn health_check_status_table() {
    assert_eq!(HealthCheck::perform_check(true, true, true, false).status, "Degraded");
    assert_eq!(HealthCheck::perform_check(true, false, true, true).status, "Unhealthy");
    assert_eq!(HealthCheck::perform_check(false, true, true, true).status, "Unhealthy");
}

#[test]
fn production_startup_reports_configuration_error() {
    let startup = ProductionStartup::default();
    let mut config = complete_config();
    config.set_field("node_id".to_string(), "".to_string());
    let e = startup.execute(&config).unwrap_err();
    assert_eq!(message(&e), "node_id cannot be empty");
    let health = startup.execute(&complete_config()).unwrap();
    assert!(health.config_valid && health.dependencies_available);
    assert!(health.state_valid && health.resources_available);
}

#[test]
fn error_display_for_each_kind() {
    assert_eq!(ProductionError::StateError("x".to_string()).to_display_string(), "State error: x");
    assert_eq!(
        ProductionError::ResourceError("y".to_string()).to_display_string(),
        "Resource error: y"
    );
}

#[test]
fn cloned_state_keeps_its_checksum() {
    let state = StateData::new(1, vec![1, 2, 3, 4, 5]);
    let copy = state.clone();
    assert!(copy.verify_checksum());
    assert!(copy.is_valid());
    assert!(StateValidator::new(1).validate(&copy).is_ok());
}

#[test]
fn checksum_of_joined_and_reordered_data() {
    let a = vec![200u8, 100, 7];
    let b = vec![255u8, 1];
    let mut joined = a.clone();
    joined.extend_from_slice(&b);
    let whole = StateData::new(1, joined);
    let reordered = StateData::new(1, vec![1u8, 7, 255, 100, 200]);
    assert!(whole.verify_checksum());
    assert!(reordered.verify_checksum());
    assert_eq!(format!("{:?}", whole).contains("checksum: 563"), true);
    assert_eq!(format!("{:?}", reordered).contains("checksum: 563"), true);
}

#[test]
fn calculate_checksum_is_the_wrapping_byte_sum() {
    assert_eq!(StateData::calculate_checksum(&[1, 2, 3, 4, 5]), 15);
    assert_eq!(StateData::calculate_checksum(&[]), 0);
    let a = [200u8, 100, 7];
    let b = [255u8, 1];
    let joined = [200u8, 100, 7, 255, 1];
    assert_eq!(
        StateData::calculate_checksum(&joined),
        StateData::calculate_checksum(&a).wrapping_add(StateData::calculate_checksum(&b))
    );
    assert_eq!(
        StateData::calculate_checksum(&[1, 7, 255, 100, 200]),
        StateData::calculate_checksum(&joined)
    );
}
