use silver_node::node::{
    context_failure, FailureContext, genesis_account_balance, health_check_address, is_synced, require_snapshot, step_failure,
    sync_needed, validator_identity, NodeError, NodeLifecycle, NodeState, NodeStep,
};

fn run_all(node: &mut NodeLifecycle) -> Vec<NodeStep> {
    let mut steps = Vec::new();
    while let Some(step) = node.next_step() {
        steps.push(step);
        node.complete_step(Ok(()));
    }
    steps
}

#[test]
fn node_creation_state_is_initializing() {
    let node = NodeLifecycle::new();
    assert_eq!(node.state(), NodeState::Initializing);
    assert!(!node.is_running());
    assert_eq!(node.next_step(), None);
}

#[test]
fn node_start_reaches_running() {
    let mut node = NodeLifecycle::new();
    node.begin_start(10, Some(10));
    assert_eq!(node.state(), NodeState::Running);
    assert!(node.is_running());
    let steps = run_all(&mut node);
    assert_eq!(
        steps,
        vec![
            NodeStep::ReportHealthy,
            NodeStep::ReportSyncStatus,
            NodeStep::StartNetwork,
            NodeStep::StartConsensus,
            NodeStep::StartExecution,
            NodeStep::StartApi
        ]
    );
    assert!(node.outcome().is_ok());
    assert!(node.is_running());
}

#[test]
fn node_behind_network_syncs_first() {
    let mut node = NodeLifecycle::new();
    node.begin_start(5, Some(9));
    assert_eq!(node.state(), NodeState::Syncing);
    assert_eq!(node.next_step(), Some(NodeStep::ReportSyncing));
    node.complete_step(Ok(()));
    assert_eq!(node.next_step(), Some(NodeStep::SyncWithNetwork));
    assert_eq!(node.state(), NodeState::Syncing);
    node.complete_step(Ok(()));
    assert_eq!(node.state(), NodeState::Running);
    let rest = run_all(&mut node);
    assert_eq!(rest.len(), 6);
    assert!(node.is_running());
}

#[test]
fn node_without_network_height_does_not_sync() {
    let mut node = NodeLifecycle::new();
    node.begin_start(5, None);
    assert_eq!(node.state(), NodeState::Running);
}

#[test]
fn initialization_plan_follows_configuration() {
    let mut node = NodeLifecycle::new();
    node.begin_initialize(true, false);
    let steps = run_all(&mut node);
    assert_eq!(
        steps,
        vec![
            NodeStep::InitStorage,
            NodeStep::InitGenesisState,
            NodeStep::InitNetwork,
            NodeStep::InitConsensus,
            NodeStep::InitExecution,
            NodeStep::InitApi,
            NodeStep::InitHealthCheck,
            NodeStep::InitResourceMonitoring
        ]
    );
    assert_eq!(node.state(), NodeState::Initializing);
    node.begin_initialize(false, true);
    let steps = run_all(&mut node);
    assert_eq!(steps[1], NodeStep::LoadExistingState);
    assert_eq!(steps[6], NodeStep::InitMetrics);
    assert_eq!(steps.len(), 9);
}

#[test]
fn failure_stops_the_procedure() {
    let mut node = NodeLifecycle::new();
    node.begin_initialize(true, true);
    node.complete_step(Ok(()));
    node.complete_step(Err(NodeError::GenesisError("bad".to_string())));
    assert_eq!(node.next_step(), None);
    let e = node.outcome().unwrap_err();
    assert_eq!(e.to_display_string(), "Genesis error: bad");
}

#[test]
fn shutdown_stops_the_node_in_reverse_order() {
    let mut node = NodeLifecycle::new();
    node.begin_start(1, Some(1));
    run_all(&mut node);
    node.begin_shutdown();
    assert_eq!(node.state(), NodeState::ShuttingDown);
    let steps = run_all(&mut node);
    assert_eq!(steps.len(), 11);
    assert_eq!(steps[0], NodeStep::ReportUnhealthy);
    assert_eq!(steps[3], NodeStep::StopResourceMonitoring);
    assert_eq!(steps[10], NodeStep::ShutdownStorage);
    assert_eq!(node.state(), NodeState::Stopped);
    assert!(node.outcome().is_ok());
}

#[test]
fn failed_shutdown_stays_shutting_down() {
    let mut node = NodeLifecycle::new();
    node.begin_shutdown();
    for _ in 0..6 {
        node.complete_step(Ok(()));
    }
    assert_eq!(node.next_step(), Some(NodeStep::ShutdownApi));
    let e = step_failure(NodeStep::ShutdownApi, "timeout").unwrap();
    node.complete_step(Err(e));
    assert_eq!(node.state(), NodeState::ShuttingDown);
    assert_eq!(node.outcome().unwrap_err().to_display_string(), "API error: Failed to shutdown API: timeout");
}

#[test]
fn validator_identity_decisions() {
    assert_eq!(validator_identity(true, true).unwrap(), true);
    assert_eq!(validator_identity(false, false).unwrap(), false);
    assert_eq!(validator_identity(false, true).unwrap(), false);
    let e = validator_identity(true, false).unwrap_err();
    assert_eq!(
        e.to_display_string(),
        "Consensus error: Validator mode enabled but no key path provided"
    );
}

#[test]
fn existing_state_needs_a_snapshot() {
    assert!(require_snapshot(true).is_ok());
    assert_eq!(
        require_snapshot(false).unwrap_err().to_display_string(),
        "Storage error: No snapshots found in storage"
    );
}

#[test]
fn genesis_balance_is_an_equal_share() {
    assert_eq!(genesis_account_balance(1000, 3), 333);
    assert_eq!(genesis_account_balance(21_000_000, 1), 21_000_000);
    assert_eq!(genesis_account_balance(0, 4), 0);
}

#[test]
fn health_address_moves_to_next_port() {
    assert_eq!(health_check_address("0.0.0.0:9184"), "0.0.0.0:9185");
    assert_eq!(health_check_address("127.0.0.1:8080"), "127.0.0.1:8080");
    assert_eq!(health_check_address("a:9184,b:9184"), "a:9185,b:9185");
    assert_eq!(health_check_address(""), "");
}

#[test]
fn sync_decisions() {
    assert!(sync_needed(3, 4));
    assert!(!sync_needed(4, 4));
    assert!(is_synced(4, Some(4)));
    assert!(!is_synced(3, Some(4)));
    assert!(is_synced(0, None));
}

#[test]
fn step_failures_carry_kind_and_context() {
    let e = step_failure(NodeStep::StartNetwork, "port in use").unwrap();
    assert_eq!(e.to_display_string(), "Network error: Failed to start network: port in use");
    let e = step_failure(NodeStep::ShutdownStorage, "io").unwrap();
    assert_eq!(e.to_display_string(), "Storage error: Failed to flush storage: io");
    assert!(step_failure(NodeStep::InitStorage, "x").is_none());
    assert!(step_failure(NodeStep::ReportHealthy, "x").is_none());
    let e = step_failure(NodeStep::InitHealthCheck, "bind").unwrap();
    assert_eq!(e.clone().to_display_string(), "API error: Failed to start health check server: bind");
}

#[test]
fn existing_state_without_snapshot_fails_with_storage_error() {
    let mut node = NodeLifecycle::new();
    node.begin_initialize(false, false);
    node.complete_step(Ok(()));
    assert_eq!(node.next_step(), Some(NodeStep::LoadExistingState));
    node.complete_existing_state_step(Ok(false), Ok(()));
    assert_eq!(node.next_step(), None);
    assert_eq!(
        node.outcome().unwrap_err().to_display_string(),
        "Storage error: No snapshots found in storage"
    );
}

#[test]
fn existing_state_with_snapshot_goes_on() {
    let mut node = NodeLifecycle::new();
    node.begin_initialize(false, false);
    node.complete_step(Ok(()));
    node.complete_existing_state_step(Ok(true), Ok(()));
    assert_eq!(node.next_step(), Some(NodeStep::InitNetwork));

    let mut node = NodeLifecycle::new();
    node.begin_initialize(false, false);
    node.complete_step(Ok(()));
    node.complete_existing_state_step(Ok(true), Err("io".to_string()));
    assert_eq!(
        node.outcome().unwrap_err().to_display_string(),
        "Storage error: Failed to load validator set: io"
    );

    let mut node = NodeLifecycle::new();
    node.begin_initialize(false, false);
    node.complete_step(Ok(()));
    node.complete_existing_state_step(Err("io".to_string()), Ok(()));
    assert_eq!(
        node.outcome().unwrap_err().to_display_string(),
        "Storage error: Failed to load latest snapshot: io"
    );
}

#[test]
fn context_failures_carry_kind_and_context() {
    let cases = [
        (FailureContext::CreateDbDirectory, "Storage error: Failed to create db directory: x"),
        (FailureContext::OpenDatabase, "Storage error: Failed to open database: x"),
        (FailureContext::LoadLatestSnapshot, "Storage error: Failed to load latest snapshot: x"),
        (FailureContext::LoadValidatorSet, "Storage error: Failed to load validator set: x"),
        (FailureContext::ReadValidatorKey, "Consensus error: Failed to read validator key: x"),
        (FailureContext::ParseValidatorKey, "Consensus error: Failed to parse validator key: x"),
        (FailureContext::InitConsensus, "Consensus error: Failed to initialize consensus: x"),
        (FailureContext::CreateMetricsExporter, "API error: Failed to create metrics exporter: x"),
        (FailureContext::InitMetrics, "API error: Failed to initialize metrics: x"),
        (FailureContext::StartMetricsServer, "API error: Failed to start metrics server: x"),
    ];
    for (ctx, text) in cases {
        assert_eq!(context_failure(ctx, "x").to_display_string(), text);
    }
}
