//! The lifecycle of a node: which subsystem steps initialization, start-up
//! and shutdown perform and in what order, how the node state moves between
//! them, and the decisions taken along the way. The steps themselves (opening
//! storage, starting the network, ...) are performed by the caller, which
//! hands back each step's outcome.

use vstd::prelude::*;
use crate::text::{replace_all, replace_str};

verus! {

// ---------------------------------------------------------------------------
// States and errors
// ---------------------------------------------------------------------------

/// Node state
#[derive(Debug, Clone, Copy, PartialEq, Eq, Structural)]
pub enum NodeState {
    /// Node is initializing
    Initializing,
    /// Node is syncing with network
    Syncing,
    /// Node is operational
    Running,
    /// Node is shutting down
    ShuttingDown,
    /// Node has stopped
    Stopped,
}

/// Node error types
#[derive(Debug)]
pub enum NodeError {
    /// Storage initialization error
    StorageError(String),
    /// Network initialization error
    NetworkError(String),
    /// Consensus initialization error
    ConsensusError(String),
    /// Execution initialization error
    ExecutionError(String),
    /// API initialization error
    ApiError(String),
    /// Configuration error
    ConfigError(String),
    /// Genesis error
    GenesisError(String),
    /// Shutdown error
    ShutdownError(String),
}

/// The mathematical value of a [`NodeError`]: its kind and message.
pub enum NodeErrorView {
    Storage(Seq<char>),
    Network(Seq<char>),
    Consensus(Seq<char>),
    Execution(Seq<char>),
    Api(Seq<char>),
    Config(Seq<char>),
    Genesis(Seq<char>),
    Shutdown(Seq<char>),
}

impl View for NodeError {
    type V = NodeErrorView;

    open spec fn view(&self) -> NodeErrorView {
        match self {
            NodeError::StorageError(m) => NodeErrorView::Storage(m@),
            NodeError::NetworkError(m) => NodeErrorView::Network(m@),
            NodeError::ConsensusError(m) => NodeErrorView::Consensus(m@),
            NodeError::ExecutionError(m) => NodeErrorView::Execution(m@),
            NodeError::ApiError(m) => NodeErrorView::Api(m@),
            NodeError::ConfigError(m) => NodeErrorView::Config(m@),
            NodeError::GenesisError(m) => NodeErrorView::Genesis(m@),
            NodeError::ShutdownError(m) => NodeErrorView::Shutdown(m@),
        }
    }
}

/// The human-readable rendering of a node error.
pub open spec fn node_error_text(e: NodeErrorView) -> Seq<char> {
    match e {
        NodeErrorView::Storage(m) => "Storage error: "@ + m,
        NodeErrorView::Network(m) => "Network error: "@ + m,
        NodeErrorView::Consensus(m) => "Consensus error: "@ + m,
        NodeErrorView::Execution(m) => "Execution error: "@ + m,
        NodeErrorView::Api(m) => "API error: "@ + m,
        NodeErrorView::Config(m) => "Configuration error: "@ + m,
        NodeErrorView::Genesis(m) => "Genesis error: "@ + m,
        NodeErrorView::Shutdown(m) => "Shutdown error: "@ + m,
    }
}

fn joined(prefix: &str, msg: &str) -> (s: String)
    ensures
        s@ == prefix@ + msg@,
{
    let mut s = String::from_str(prefix);
    s.append(msg);
    s
}

impl NodeError {
    /// Renders the error as text, e.g. `Storage error: <message>`.
    pub fn to_display_string(&self) -> (s: String)
        ensures
            s@ == node_error_text(self@),
    {
        match self {
            NodeError::StorageError(m) => joined("Storage error: ", m.as_str()),
            NodeError::NetworkError(m) => joined("Network error: ", m.as_str()),
            NodeError::ConsensusError(m) => joined("Consensus error: ", m.as_str()),
            NodeError::ExecutionError(m) => joined("Execution error: ", m.as_str()),
            NodeError::ApiError(m) => joined("API error: ", m.as_str()),
            NodeError::ConfigError(m) => joined("Configuration error: ", m.as_str()),
            NodeError::GenesisError(m) => joined("Genesis error: ", m.as_str()),
            NodeError::ShutdownError(m) => joined("Shutdown error: ", m.as_str()),
        }
    }
}

impl Clone for NodeError {
    fn clone(&self) -> (r: NodeError)
        ensures
            r@ == self@,
    {
        match self {
            NodeError::StorageError(m) => NodeError::StorageError(m.clone()),
            NodeError::NetworkError(m) => NodeError::NetworkError(m.clone()),
            NodeError::ConsensusError(m) => NodeError::ConsensusError(m.clone()),
            NodeError::ExecutionError(m) => NodeError::ExecutionError(m.clone()),
            NodeError::ApiError(m) => NodeError::ApiError(m.clone()),
            NodeError::ConfigError(m) => NodeError::ConfigError(m.clone()),
            NodeError::GenesisError(m) => NodeError::GenesisError(m.clone()),
            NodeError::ShutdownError(m) => NodeError::ShutdownError(m.clone()),
        }
    }
}

// ---------------------------------------------------------------------------
// Steps and plans
// ---------------------------------------------------------------------------

/// One piece of outside work that a lifecycle procedure asks for.
#[derive(Debug, Clone, Copy, PartialEq, Eq, Structural)]
pub enum NodeStep {
    /// Create the data directory and open the object store
    InitStorage,
    /// Store the genesis snapshot and the validators' initial accounts
    InitGenesisState,
    /// Load the latest snapshot and its validator set
    LoadExistingState,
    /// Bring up the network subsystem
    InitNetwork,
    /// Bring up the consensus subsystem
    InitConsensus,
    /// Bring up the execution subsystem
    InitExecution,
    /// Bring up the API subsystem
    InitApi,
    /// Create and start the metrics exporter
    InitMetrics,
    /// Start the health check server and monitor
    InitHealthCheck,
    /// Start resource monitoring
    InitResourceMonitoring,
    /// Report the node as syncing
    ReportSyncing,
    /// Catch up with the network
    SyncWithNetwork,
    /// Report the node as healthy
    ReportHealthy,
    /// Publish the current sync status
    ReportSyncStatus,
    /// Start the network subsystem
    StartNetwork,
    /// Start the consensus subsystem
    StartConsensus,
    /// Start the execution subsystem
    StartExecution,
    /// Start the API subsystem
    StartApi,
    /// Report the node as unhealthy
    ReportUnhealthy,
    /// Send the shutdown signal to all subsystems
    SignalShutdown,
    /// Give the subsystems time to receive the signal
    AwaitShutdownSignal,
    /// Stop resource monitoring
    StopResourceMonitoring,
    /// Stop the health check
    StopHealthCheck,
    /// Stop the metrics exporter
    StopMetrics,
    /// Shut down the API subsystem
    ShutdownApi,
    /// Wait for pending transactions and shut down execution
    ShutdownExecution,
    /// Finalize pending snapshots and shut down consensus
    ShutdownConsensus,
    /// Close all peer connections
    ShutdownNetwork,
    /// Flush and close storage
    ShutdownStorage,
}

/// The steps of initialization: storage, then genesis or existing state, then
/// network, consensus, execution, API, metrics (when enabled), health check
/// and resource monitoring.
pub open spec fn init_plan(has_genesis: bool, metrics_enabled: bool) -> Seq<NodeStep> {
    seq![
        NodeStep::InitStorage,
        if has_genesis { NodeStep::InitGenesisState } else { NodeStep::LoadExistingState },
        NodeStep::InitNetwork,
        NodeStep::InitConsensus,
        NodeStep::InitExecution,
        NodeStep::InitApi,
    ] + (if metrics_enabled { seq![NodeStep::InitMetrics] } else { Seq::<NodeStep>::empty() })
        + seq![NodeStep::InitHealthCheck, NodeStep::InitResourceMonitoring]
}

/// The steps of start-up once the node runs.
pub open spec fn running_plan() -> Seq<NodeStep> {
    seq![
        NodeStep::ReportHealthy,
        NodeStep::ReportSyncStatus,
        NodeStep::StartNetwork,
        NodeStep::StartConsensus,
        NodeStep::StartExecution,
        NodeStep::StartApi,
    ]
}

/// The steps of start-up: a sync first when the node is behind.
pub open spec fn start_plan(needs_sync: bool) -> Seq<NodeStep> {
    if needs_sync {
        seq![NodeStep::ReportSyncing, NodeStep::SyncWithNetwork] + running_plan()
    } else {
        running_plan()
    }
}

/// The steps of shutdown: signal, then stop the subsystems in reverse order
/// of their initialization.
pub open spec fn shutdown_plan() -> Seq<NodeStep> {
    seq![
        NodeStep::ReportUnhealthy,
        NodeStep::SignalShutdown,
        NodeStep::AwaitShutdownSignal,
        NodeStep::StopResourceMonitoring,
        NodeStep::StopHealthCheck,
        NodeStep::StopMetrics,
        NodeStep::ShutdownApi,
        NodeStep::ShutdownExecution,
        NodeStep::ShutdownConsensus,
        NodeStep::ShutdownNetwork,
        NodeStep::ShutdownStorage,
    ]
}

/// A node is behind, and must sync before it runs, when the network reports
/// a height above its own.
pub open spec fn behind_network(current_height: u64, network_height: Option<u64>) -> bool {
    match network_height {
        Some(h) => current_height < h,
        None => false,
    }
}

fn init_steps(has_genesis: bool, metrics_enabled: bool) -> (v: Vec<NodeStep>)
    ensures
        v@ == init_plan(has_genesis, metrics_enabled),
{
    let mut v: Vec<NodeStep> = Vec::new();
    v.push(NodeStep::InitStorage);
    if has_genesis {
        v.push(NodeStep::InitGenesisState);
    } else {
        v.push(NodeStep::LoadExistingState);
    }
    v.push(NodeStep::InitNetwork);
    v.push(NodeStep::InitConsensus);
    v.push(NodeStep::InitExecution);
    v.push(NodeStep::InitApi);
    if metrics_enabled {
        v.push(NodeStep::InitMetrics);
    }
    v.push(NodeStep::InitHealthCheck);
    v.push(NodeStep::InitResourceMonitoring);
    assert(v@ =~= init_plan(has_genesis, metrics_enabled));
    v
}

fn start_steps(needs_sync: bool) -> (v: Vec<NodeStep>)
    ensures
        v@ == start_plan(needs_sync),
{
    let mut v: Vec<NodeStep> = Vec::new();
    if needs_sync {
        v.push(NodeStep::ReportSyncing);
        v.push(NodeStep::SyncWithNetwork);
    }
    v.push(NodeStep::ReportHealthy);
    v.push(NodeStep::ReportSyncStatus);
    v.push(NodeStep::StartNetwork);
    v.push(NodeStep::StartConsensus);
    v.push(NodeStep::StartExecution);
    v.push(NodeStep::StartApi);
    assert(v@ =~= start_plan(needs_sync));
    v
}

fn shutdown_steps() -> (v: Vec<NodeStep>)
    ensures
        v@ == shutdown_plan(),
{
    let v = vec![
        NodeStep::ReportUnhealthy,
        NodeStep::SignalShutdown,
        NodeStep::AwaitShutdownSignal,
        NodeStep::StopResourceMonitoring,
        NodeStep::StopHealthCheck,
        NodeStep::StopMetrics,
        NodeStep::ShutdownApi,
        NodeStep::ShutdownExecution,
        NodeStep::ShutdownConsensus,
        NodeStep::ShutdownNetwork,
        NodeStep::ShutdownStorage,
    ];
    assert(v@ =~= shutdown_plan());
    v
}

// ---------------------------------------------------------------------------
// The lifecycle
// ---------------------------------------------------------------------------

/// The procedure a lifecycle is carrying out.
#[derive(Debug, Clone, Copy, PartialEq, Eq, Structural)]
pub enum Procedure {
    /// No procedure has begun
    Idle,
    /// Initializing the subsystems
    Initialize,
    /// Starting the node
    Start,
    /// Shutting the node down
    Shutdown,
}

/// The mathematical value of a [`NodeLifecycle`].
pub struct NodeLifecycleView {
    /// The node state
    pub state: NodeState,
    /// The procedure being carried out
    pub procedure: Procedure,
    /// Its steps
    pub plan: Seq<NodeStep>,
    /// How many of them have completed
    pub done: nat,
    /// The failure that ended it, if one did
    pub failure: Option<NodeErrorView>,
}

/// The lifecycle of a node: its state and the procedure in progress.
pub struct NodeLifecycle {
    state: NodeState,
    procedure: Procedure,
    plan: Vec<NodeStep>,
    done: usize,
    failure: Option<NodeError>,
}

/// The failure, taken by its view.
pub open spec fn failure_view(f: Option<NodeError>) -> Option<NodeErrorView> {
    match f {
        Some(e) => Some(e@),
        None => None,
    }
}

/// The node state after step `plan[i]` of `procedure` completes, from state
/// `state`: a completed sync makes the node run, and completing the last step
/// of a shutdown stops it.
pub open spec fn state_after_step(
    procedure: Procedure,
    plan: Seq<NodeStep>,
    i: int,
    state: NodeState,
) -> NodeState {
    if plan[i] == NodeStep::SyncWithNetwork {
        NodeState::Running
    } else if procedure == Procedure::Shutdown && i + 1 == plan.len() {
        NodeState::Stopped
    } else {
        state
    }
}

/// The node state after steps `plan[from..]` all complete, from state `state`.
pub open spec fn state_after_run(
    procedure: Procedure,
    plan: Seq<NodeStep>,
    from: int,
    state: NodeState,
) -> NodeState
    decreases plan.len() - from,
{
    if from < 0 || from >= plan.len() {
        state
    } else {
        state_after_run(procedure, plan, from + 1, state_after_step(procedure, plan, from, state))
    }
}

/// A procedure is over: a step failed or all steps completed.
pub open spec fn is_over(v: NodeLifecycleView) -> bool {
    v.failure is Some || v.done == v.plan.len()
}

impl View for NodeLifecycle {
    type V = NodeLifecycleView;

    closed spec fn view(&self) -> NodeLifecycleView {
        NodeLifecycleView {
            state: self.state,
            procedure: self.procedure,
            plan: self.plan@,
            done: self.done as nat,
            failure: failure_view(self.failure),
        }
    }
}

impl NodeLifecycle {
    #[verifier::type_invariant]
    spec fn progress_within_plan(self) -> bool {
        self.done <= self.plan@.len()
    }

    /// A node that has not begun any procedure; its state is `Initializing`.
    pub fn new() -> (n: Self)
        ensures
            n@.state == NodeState::Initializing,
            n@.procedure == Procedure::Idle,
            n@.plan == Seq::<NodeStep>::empty(),
            n@.done == 0,
            n@.failure is None,
    {
        NodeLifecycle {
            state: NodeState::Initializing,
            procedure: Procedure::Idle,
            plan: Vec::new(),
            done: 0,
            failure: None,
        }
    }

    /// Get current node state
    pub fn state(&self) -> (s: NodeState)
        ensures
            s == self@.state,
    {
        self.state
    }

    /// Check if node is running
    pub fn is_running(&self) -> (r: bool)
        ensures
            r == (self@.state == NodeState::Running),
    {
        self.state == NodeState::Running
    }

    /// Begins initialization of all subsystems.
    pub fn begin_initialize(&mut self, has_genesis: bool, metrics_enabled: bool)
        ensures
            final(self)@.state == NodeState::Initializing,
            final(self)@.procedure == Procedure::Initialize,
            final(self)@.plan == init_plan(has_genesis, metrics_enabled),
            final(self)@.done == 0,
            final(self)@.failure is None,
    {
        self.done = 0;
        self.state = NodeState::Initializing;
        self.procedure = Procedure::Initialize;
        self.plan = init_steps(has_genesis, metrics_enabled);
        self.failure = None;
    }

    /// Begins start-up, given the node's own height and the height the network
    /// reports (if it reports one). A node that is behind syncs first; any
    /// other node runs at once.
    pub fn begin_start(&mut self, current_height: u64, network_height: Option<u64>)
        ensures
            final(self)@.state == (if behind_network(current_height, network_height) {
                NodeState::Syncing
            } else {
                NodeState::Running
            }),
            final(self)@.procedure == Procedure::Start,
            final(self)@.plan == start_plan(behind_network(current_height, network_height)),
            final(self)@.done == 0,
            final(self)@.failure is None,
    {
        let needs_sync = match network_height {
            Some(h) => current_height < h,
            None => false,
        };
        self.done = 0;
        self.state = if needs_sync { NodeState::Syncing } else { NodeState::Running };
        self.procedure = Procedure::Start;
        self.plan = start_steps(needs_sync);
        self.failure = None;
    }

    /// Begins a graceful shutdown.
    pub fn begin_shutdown(&mut self)
        ensures
            final(self)@.state == NodeState::ShuttingDown,
            final(self)@.procedure == Procedure::Shutdown,
            final(self)@.plan == shutdown_plan(),
            final(self)@.done == 0,
            final(self)@.failure is None,
    {
        self.done = 0;
        self.state = NodeState::ShuttingDown;
        self.procedure = Procedure::Shutdown;
        self.plan = shutdown_steps();
        self.failure = None;
    }

    /// The step to perform next: the first step not yet completed, unless a
    /// step has failed.
    pub fn next_step(&self) -> (s: Option<NodeStep>)
        ensures
            is_over(self@) ==> s is None,
            !is_over(self@) ==> s == Some(self@.plan[self@.done as int]),
    {
        proof { use_type_invariant(self); }
        if self.failure.is_none() && self.done < self.plan.len() {
            Some(self.plan[self.done])
        } else {
            None
        }
    }

    /// Records the outcome of the step that [`Self::next_step`] handed out. A
    /// failure ends the procedure. A completed sync makes the node run; the
    /// last completed shutdown step stops it.
    pub fn complete_step(&mut self, outcome: Result<(), NodeError>)
        requires
            !is_over(old(self)@),
        ensures
            final(self)@.procedure == old(self)@.procedure,
            final(self)@.plan == old(self)@.plan,
            match outcome {
                Err(e) => {
                    &&& final(self)@.failure == Some(e@)
                    &&& final(self)@.done == old(self)@.done
                    &&& final(self)@.state == old(self)@.state
                },
                Ok(()) => {
                    &&& final(self)@.failure is None
                    &&& final(self)@.done == old(self)@.done + 1
                    &&& final(self)@.state == state_after_step(
                        old(self)@.procedure,
                        old(self)@.plan,
                        old(self)@.done as int,
                        old(self)@.state,
                    )
                },
            },
    {
        proof { use_type_invariant(&*self); }
        match outcome {
            Err(e) => {
                self.failure = Some(e);
            },
            Ok(()) => {
                let n = self.plan.len();
                assert(self.done < n);
                let step = self.plan[self.done];
                self.done = self.done + 1;
                if step == NodeStep::SyncWithNetwork {
                    self.state = NodeState::Running;
                } else if self.procedure == Procedure::Shutdown && self.done == self.plan.len() {
                    self.state = NodeState::Stopped;
                }
            },
        }
    }

    /// Records the outcome of loading existing state: the lookup of the latest
    /// snapshot (the cause of its failure, or whether one was found) and,
    /// when one was found, the loading of its validator set (the cause of its
    /// failure, if it failed). Storage without a snapshot fails the step with
    /// a storage error.
    pub fn complete_existing_state_step(
        &mut self,
        snapshot_lookup: Result<bool, String>,
        validator_set: Result<(), String>,
    )
        requires
            !is_over(old(self)@),
            old(self)@.plan[old(self)@.done as int] == NodeStep::LoadExistingState,
        ensures
            final(self)@.procedure == old(self)@.procedure,
            final(self)@.plan == old(self)@.plan,
            match existing_state_outcome(lookup_view(snapshot_lookup), unit_view(validator_set)) {
                Err(e) => {
                    &&& final(self)@.failure == Some(e)
                    &&& final(self)@.done == old(self)@.done
                    &&& final(self)@.state == old(self)@.state
                },
                Ok(()) => {
                    &&& final(self)@.failure is None
                    &&& final(self)@.done == old(self)@.done + 1
                    &&& final(self)@.state == state_after_step(
                        old(self)@.procedure,
                        old(self)@.plan,
                        old(self)@.done as int,
                        old(self)@.state,
                    )
                },
            },
    {
        let outcome = match snapshot_lookup {
            Err(cause) => Err(context_failure(FailureContext::LoadLatestSnapshot, cause.as_str())),
            Ok(found) => match require_snapshot(found) {
                Err(e) => Err(e),
                Ok(()) => match validator_set {
                    Err(cause) => Err(
                        context_failure(FailureContext::LoadValidatorSet, cause.as_str()),
                    ),
                    Ok(()) => Ok(()),
                },
            },
        };
        self.complete_step(outcome);
    }

    /// The result of the procedure: the failure that ended it, if any.
    pub fn outcome(&self) -> (r: Result<(), NodeError>)
        ensures
            match self@.failure {
                Some(e) => r is Err && r->Err_0@ == e,
                None => r is Ok,
            },
    {
        match &self.failure {
            Some(e) => Err(e.clone()),
            None => Ok(()),
        }
    }
}

// ---------------------------------------------------------------------------
// Decisions taken inside the steps
// ---------------------------------------------------------------------------

/// The message of a validator configured without a key.
pub open spec fn missing_key_message() -> Seq<char> {
    "Validator mode enabled but no key path provided"@
}

/// Whether consensus starts with a validator identity: a validator loads its
/// key from the configured path; a validator without a key path is refused;
/// a full node has no identity.
pub fn validator_identity(is_validator: bool, has_key_path: bool) -> (r: Result<bool, NodeError>)
    ensures
        is_validator && has_key_path ==> r == Ok::<bool, NodeError>(true),
        !is_validator ==> r == Ok::<bool, NodeError>(false),
        is_validator && !has_key_path ==> r is Err && r->Err_0@ == NodeErrorView::Consensus(
            missing_key_message(),
        ),
{
    if is_validator {
        if has_key_path {
            Ok(true)
        } else {
            Err(
                NodeError::ConsensusError(
                    String::from_str("Validator mode enabled but no key path provided"),
                ),
            )
        }
    } else {
        Ok(false)
    }
}

/// A snapshot lookup, its failure's cause taken by its view.
pub open spec fn lookup_view(r: Result<bool, String>) -> Result<bool, Seq<char>> {
    match r {
        Ok(b) => Ok(b),
        Err(c) => Err(c@),
    }
}

/// A step outcome, its failure's cause taken by its view.
pub open spec fn unit_view(r: Result<(), String>) -> Result<(), Seq<char>> {
    match r {
        Ok(()) => Ok(()),
        Err(c) => Err(c@),
    }
}

/// The outcome of loading existing state: a failed lookup fails it; storage
/// without a snapshot fails it; otherwise it ends as the loading of the
/// validator set does. Each failure is a storage error.
pub open spec fn existing_state_outcome(
    lookup: Result<bool, Seq<char>>,
    validator_set: Result<(), Seq<char>>,
) -> Result<(), NodeErrorView> {
    match lookup {
        Err(c) => Err(context_failure_spec(FailureContext::LoadLatestSnapshot, c)),
        Ok(false) => Err(NodeErrorView::Storage("No snapshots found in storage"@)),
        Ok(true) => match validator_set {
            Err(c) => Err(context_failure_spec(FailureContext::LoadValidatorSet, c)),
            Ok(()) => Ok(()),
        },
    }
}

/// A failure within a step that can fail in more than one way.
#[derive(Debug, Clone, Copy, PartialEq, Eq, Structural)]
pub enum FailureContext {
    /// Storage: creating the data directory
    CreateDbDirectory,
    /// Storage: opening the database
    OpenDatabase,
    /// Existing state: loading the latest snapshot
    LoadLatestSnapshot,
    /// Existing state: loading the validator set
    LoadValidatorSet,
    /// Consensus: reading the validator key
    ReadValidatorKey,
    /// Consensus: parsing the validator key
    ParseValidatorKey,
    /// Consensus: bringing up the subsystem
    InitConsensus,
    /// Metrics: creating the exporter
    CreateMetricsExporter,
    /// Metrics: initializing the exporter
    InitMetrics,
    /// Metrics: starting the metrics server
    StartMetricsServer,
}

/// The error for a failure in context `ctx` with the given cause.
pub open spec fn context_failure_spec(ctx: FailureContext, cause: Seq<char>) -> NodeErrorView {
    match ctx {
        FailureContext::CreateDbDirectory => NodeErrorView::Storage(
            "Failed to create db directory: "@ + cause,
        ),
        FailureContext::OpenDatabase => NodeErrorView::Storage("Failed to open database: "@ + cause),
        FailureContext::LoadLatestSnapshot => NodeErrorView::Storage(
            "Failed to load latest snapshot: "@ + cause,
        ),
        FailureContext::LoadValidatorSet => NodeErrorView::Storage(
            "Failed to load validator set: "@ + cause,
        ),
        FailureContext::ReadValidatorKey => NodeErrorView::Consensus(
            "Failed to read validator key: "@ + cause,
        ),
        FailureContext::ParseValidatorKey => NodeErrorView::Consensus(
            "Failed to parse validator key: "@ + cause,
        ),
        FailureContext::InitConsensus => NodeErrorView::Consensus(
            "Failed to initialize consensus: "@ + cause,
        ),
        FailureContext::CreateMetricsExporter => NodeErrorView::Api(
            "Failed to create metrics exporter: "@ + cause,
        ),
        FailureContext::InitMetrics => NodeErrorView::Api("Failed to initialize metrics: "@ + cause),
        FailureContext::StartMetricsServer => NodeErrorView::Api(
            "Failed to start metrics server: "@ + cause,
        ),
    }
}

/// The error for a failure in context `ctx`, from the subsystem's own
/// description of the cause.
pub fn context_failure(ctx: FailureContext, cause: &str) -> (e: NodeError)
    ensures
        e@ == context_failure_spec(ctx, cause@),
{
    match ctx {
        FailureContext::CreateDbDirectory => NodeError::StorageError(
            joined("Failed to create db directory: ", cause),
        ),
        FailureContext::OpenDatabase => NodeError::StorageError(
            joined("Failed to open database: ", cause),
        ),
        FailureContext::LoadLatestSnapshot => NodeError::StorageError(
            joined("Failed to load latest snapshot: ", cause),
        ),
        FailureContext::LoadValidatorSet => NodeError::StorageError(
            joined("Failed to load validator set: ", cause),
        ),
        FailureContext::ReadValidatorKey => NodeError::ConsensusError(
            joined("Failed to read validator key: ", cause),
        ),
        FailureContext::ParseValidatorKey => NodeError::ConsensusError(
            joined("Failed to parse validator key: ", cause),
        ),
        FailureContext::InitConsensus => NodeError::ConsensusError(
            joined("Failed to initialize consensus: ", cause),
        ),
        FailureContext::CreateMetricsExporter => NodeError::ApiError(
            joined("Failed to create metrics exporter: ", cause),
        ),
        FailureContext::InitMetrics => NodeError::ApiError(
            joined("Failed to initialize metrics: ", cause),
        ),
        FailureContext::StartMetricsServer => NodeError::ApiError(
            joined("Failed to start metrics server: ", cause),
        ),
    }
}

/// Loading existing state needs a snapshot in storage.
pub fn require_snapshot(snapshot_found: bool) -> (r: Result<(), NodeError>)
    ensures
        snapshot_found ==> r is Ok,
        !snapshot_found ==> r is Err && r->Err_0@ == NodeErrorView::Storage(
            "No snapshots found in storage"@,
        ),
{
    if snapshot_found {
        Ok(())
    } else {
        Err(NodeError::StorageError(String::from_str("No snapshots found in storage")))
    }
}

/// The balance of each validator's initial account: the initial supply
/// shared equally, the remainder left unallocated.
pub fn genesis_account_balance(initial_supply: u64, validator_count: usize) -> (b: u64)
    requires
        validator_count > 0,
    ensures
        b == initial_supply / (validator_count as u64),
        b * validator_count <= initial_supply,
{
    let count = validator_count as u64;
    let b = initial_supply / count;
    assert(b * count <= initial_supply) by (nonlinear_arith)
        requires
            count > 0,
            b == initial_supply / count,
    ;
    b
}

/// The address of the health check server: the metrics address with its
/// port `9184` replaced by `9185`.
pub fn health_check_address(metrics_address: &str) -> (a: String)
    ensures
        a@ == replace_all(metrics_address@, ":9184"@, ":9185"@),
{
    proof { reveal_strlit(":9184"); }
    replace_str(metrics_address, ":9184", ":9185")
}

/// A sync has work to do when the network is ahead of the node.
pub fn sync_needed(current_height: u64, network_height: u64) -> (r: bool)
    ensures
        r == (current_height < network_height),
{
    current_height < network_height
}

/// Whether the node counts as synced, given the height the network reports
/// (none counts as zero).
pub fn is_synced(current_height: u64, network_height: Option<u64>) -> (r: bool)
    ensures
        r == match network_height {
            Some(h) => current_height >= h,
            None => true,
        },
{
    match network_height {
        Some(h) => current_height >= h,
        None => true,
    }
}

/// The error kind and context of a failed step, for the steps that fail in
/// one way only.
pub open spec fn step_failure_spec(step: NodeStep, cause: Seq<char>) -> Option<NodeErrorView> {
    match step {
        NodeStep::InitNetwork => Some(NodeErrorView::Network("Failed to initialize network: "@ + cause)),
        NodeStep::InitExecution => Some(
            NodeErrorView::Execution("Failed to initialize execution: "@ + cause),
        ),
        NodeStep::InitApi => Some(NodeErrorView::Api("Failed to initialize API: "@ + cause)),
        NodeStep::InitHealthCheck => Some(
            NodeErrorView::Api("Failed to start health check server: "@ + cause),
        ),
        NodeStep::StartNetwork => Some(NodeErrorView::Network("Failed to start network: "@ + cause)),
        NodeStep::StartConsensus => Some(
            NodeErrorView::Consensus("Failed to start consensus: "@ + cause),
        ),
        NodeStep::StartExecution => Some(
            NodeErrorView::Execution("Failed to start execution: "@ + cause),
        ),
        NodeStep::StartApi => Some(NodeErrorView::Api("Failed to start API: "@ + cause)),
        NodeStep::ShutdownApi => Some(NodeErrorView::Api("Failed to shutdown API: "@ + cause)),
        NodeStep::ShutdownExecution => Some(
            NodeErrorView::Execution("Failed to wait for transactions: "@ + cause),
        ),
        NodeStep::ShutdownConsensus => Some(
            NodeErrorView::Consensus("Failed to finalize snapshots: "@ + cause),
        ),
        NodeStep::ShutdownNetwork => Some(
            NodeErrorView::Network("Failed to close connections: "@ + cause),
        ),
        NodeStep::ShutdownStorage => Some(
            NodeErrorView::Storage("Failed to flush storage: "@ + cause),
        ),
        _ => None,
    }
}

/// The error for a failed step, from the subsystem's own description of the
/// cause; `None` for steps that fail in more than one way or not at all.
pub fn step_failure(step: NodeStep, cause: &str) -> (r: Option<NodeError>)
    ensures
        match step_failure_spec(step, cause@) {
            Some(e) => r is Some && r->0@ == e,
            None => r is None,
        },
{
    match step {
        NodeStep::InitNetwork => Some(
            NodeError::NetworkError(joined("Failed to initialize network: ", cause)),
        ),
        NodeStep::InitExecution => Some(
            NodeError::ExecutionError(joined("Failed to initialize execution: ", cause)),
        ),
        NodeStep::InitApi => Some(NodeError::ApiError(joined("Failed to initialize API: ", cause))),
        NodeStep::InitHealthCheck => Some(
            NodeError::ApiError(joined("Failed to start health check server: ", cause)),
        ),
        NodeStep::StartNetwork => Some(
            NodeError::NetworkError(joined("Failed to start network: ", cause)),
        ),
        NodeStep::StartConsensus => Some(
            NodeError::ConsensusError(joined("Failed to start consensus: ", cause)),
        ),
        NodeStep::StartExecution => Some(
            NodeError::ExecutionError(joined("Failed to start execution: ", cause)),
        ),
        NodeStep::StartApi => Some(NodeError::ApiError(joined("Failed to start API: ", cause))),
        NodeStep::ShutdownApi => Some(NodeError::ApiError(joined("Failed to shutdown API: ", cause))),
        NodeStep::ShutdownExecution => Some(
            NodeError::ExecutionError(joined("Failed to wait for transactions: ", cause)),
        ),
        NodeStep::ShutdownConsensus => Some(
            NodeError::ConsensusError(joined("Failed to finalize snapshots: ", cause)),
        ),
        NodeStep::ShutdownNetwork => Some(
            NodeError::NetworkError(joined("Failed to close connections: ", cause)),
        ),
        NodeStep::ShutdownStorage => Some(
            NodeError::StorageError(joined("Failed to flush storage: ", cause)),
        ),
        _ => None,
    }
}

// ---------------------------------------------------------------------------
// Laws
// ---------------------------------------------------------------------------

/// A subsystem of the node.
#[derive(Debug, Clone, Copy, PartialEq, Eq, Structural)]
pub enum Subsystem {
    /// The object store
    Storage,
    /// Peer-to-peer networking
    Network,
    /// Consensus
    Consensus,
    /// Transaction execution
    Execution,
    /// The JSON-RPC and WebSocket API
    Api,
    /// The metrics exporter
    Metrics,
    /// The health check server and monitor
    HealthCheck,
    /// Resource monitoring
    ResourceMonitoring,
}

/// The subsystem that a step brings up, if any.
pub open spec fn brought_up(step: NodeStep) -> Option<Subsystem> {
    match step {
        NodeStep::InitStorage => Some(Subsystem::Storage),
        NodeStep::InitNetwork => Some(Subsystem::Network),
        NodeStep::InitConsensus => Some(Subsystem::Consensus),
        NodeStep::InitExecution => Some(Subsystem::Execution),
        NodeStep::InitApi => Some(Subsystem::Api),
        NodeStep::InitMetrics => Some(Subsystem::Metrics),
        NodeStep::InitHealthCheck => Some(Subsystem::HealthCheck),
        NodeStep::InitResourceMonitoring => Some(Subsystem::ResourceMonitoring),
        _ => None,
    }
}

/// The subsystem that a step tears down, if any.
pub open spec fn torn_down(step: NodeStep) -> Option<Subsystem> {
    match step {
        NodeStep::ShutdownStorage => Some(Subsystem::Storage),
        NodeStep::ShutdownNetwork => Some(Subsystem::Network),
        NodeStep::ShutdownConsensus => Some(Subsystem::Consensus),
        NodeStep::ShutdownExecution => Some(Subsystem::Execution),
        NodeStep::ShutdownApi => Some(Subsystem::Api),
        NodeStep::StopMetrics => Some(Subsystem::Metrics),
        NodeStep::StopHealthCheck => Some(Subsystem::HealthCheck),
        NodeStep::StopResourceMonitoring => Some(Subsystem::ResourceMonitoring),
        _ => None,
    }
}

/// The subsystems that `plan` brings up (`up`) or tears down (`!up`), in order.
pub open spec fn subsystem_order(plan: Seq<NodeStep>, up: bool) -> Seq<Subsystem>
    decreases plan.len(),
{
    if plan.len() == 0 {
        Seq::<Subsystem>::empty()
    } else {
        let first = if up { brought_up(plan[0]) } else { torn_down(plan[0]) };
        match first {
            Some(s) => seq![s] + subsystem_order(plan.drop_first(), up),
            None => subsystem_order(plan.drop_first(), up),
        }
    }
}

proof fn lemma_order_step(plan: Seq<NodeStep>, k: int, up: bool)
    requires
        0 <= k < plan.len(),
    ensures
        subsystem_order(plan.subrange(k, plan.len() as int), up) == match (if up {
            brought_up(plan[k])
        } else {
            torn_down(plan[k])
        }) {
            Some(s) => seq![s] + subsystem_order(plan.subrange(k + 1, plan.len() as int), up),
            None => subsystem_order(plan.subrange(k + 1, plan.len() as int), up),
        },
{
    assert(plan.subrange(k, plan.len() as int).drop_first() =~= plan.subrange(
        k + 1,
        plan.len() as int,
    ));
}

proof fn lemma_order_all(plan: Seq<NodeStep>, up: bool)
    ensures
        subsystem_order(plan.subrange(0, plan.len() as int), up) == subsystem_order(plan, up),
        subsystem_order(plan.subrange(plan.len() as int, plan.len() as int), up) == Seq::<
            Subsystem,
        >::empty(),
{
    assert(plan.subrange(0, plan.len() as int) =~= plan);
    assert(plan.subrange(plan.len() as int, plan.len() as int) =~= Seq::<NodeStep>::empty());
}

/// The order in which a full initialization brings the subsystems up.
pub open spec fn bring_up_order() -> Seq<Subsystem> {
    seq![
        Subsystem::Storage,
        Subsystem::Network,
        Subsystem::Consensus,
        Subsystem::Execution,
        Subsystem::Api,
        Subsystem::Metrics,
        Subsystem::HealthCheck,
        Subsystem::ResourceMonitoring,
    ]
}

proof fn lemma_init_order(has_genesis: bool)
    ensures
        subsystem_order(init_plan(has_genesis, true), true) == bring_up_order(),
{
    let p = init_plan(has_genesis, true);
    lemma_order_all(p, true);
    lemma_order_step(p, 8, true);
    lemma_order_step(p, 7, true);
    lemma_order_step(p, 6, true);
    lemma_order_step(p, 5, true);
    lemma_order_step(p, 4, true);
    lemma_order_step(p, 3, true);
    lemma_order_step(p, 2, true);
    lemma_order_step(p, 1, true);
    lemma_order_step(p, 0, true);
    assert(subsystem_order(p, true) =~= bring_up_order());
}

proof fn lemma_shutdown_order()
    ensures
        subsystem_order(shutdown_plan(), false) == bring_up_order().reverse(),
{
    let p = shutdown_plan();
    lemma_order_all(p, false);
    lemma_order_step(p, 10, false);
    lemma_order_step(p, 9, false);
    lemma_order_step(p, 8, false);
    lemma_order_step(p, 7, false);
    lemma_order_step(p, 6, false);
    lemma_order_step(p, 5, false);
    lemma_order_step(p, 4, false);
    lemma_order_step(p, 3, false);
    lemma_order_step(p, 2, false);
    lemma_order_step(p, 1, false);
    lemma_order_step(p, 0, false);
    assert(subsystem_order(p, false) =~= bring_up_order().reverse());
}

/// Shutdown tears the subsystems down in the reverse of the order in which a
/// full initialization (metrics enabled) brings them up.
pub proof fn law_shutdown_reverses_initialization(has_genesis: bool)
    ensures
        subsystem_order(shutdown_plan(), false) == subsystem_order(init_plan(has_genesis, true), true).reverse(),
{
    lemma_init_order(has_genesis);
    lemma_shutdown_order();
}

/// Initialization stores the genesis state exactly when a genesis
/// configuration is given and loads existing state otherwise; it brings up
/// metrics exactly when they are enabled.
pub proof fn law_initialization_plan(has_genesis: bool, metrics_enabled: bool)
    ensures
        init_plan(has_genesis, metrics_enabled).contains(NodeStep::InitGenesisState) == has_genesis,
        init_plan(has_genesis, metrics_enabled).contains(NodeStep::LoadExistingState) == !has_genesis,
        init_plan(has_genesis, metrics_enabled).contains(NodeStep::InitMetrics) == metrics_enabled,
        init_plan(has_genesis, metrics_enabled)[0] == NodeStep::InitStorage,
{
    let p = init_plan(has_genesis, metrics_enabled);
    if has_genesis {
        assert(p[1] == NodeStep::InitGenesisState);
    } else {
        assert(p[1] == NodeStep::LoadExistingState);
    }
    if metrics_enabled {
        assert(p[6] == NodeStep::InitMetrics);
    }
}

/// A start whose steps all complete leaves the node running, whether or not
/// it had to sync; a shutdown whose steps all complete leaves it stopped;
/// initialization leaves it initializing.
pub proof fn law_completed_procedures(needs_sync: bool, has_genesis: bool, metrics_enabled: bool)
    ensures
        state_after_run(
            Procedure::Start,
            start_plan(needs_sync),
            0,
            if needs_sync { NodeState::Syncing } else { NodeState::Running },
        ) == NodeState::Running,
        state_after_run(Procedure::Shutdown, shutdown_plan(), 0, NodeState::ShuttingDown)
            == NodeState::Stopped,
        state_after_run(
            Procedure::Initialize,
            init_plan(has_genesis, metrics_enabled),
            0,
            NodeState::Initializing,
        ) == NodeState::Initializing,
{
    reveal_with_fuel(state_after_run, 12);
}

/// During a shutdown the node stays shutting down until its last step, the
/// flushing of storage, completes: only that step stops it. The same holds of
/// any plan without a sync step.
pub proof fn law_only_the_last_shutdown_step_stops(plan: Seq<NodeStep>, i: int)
    requires
        0 <= i < plan.len(),
        plan[i] != NodeStep::SyncWithNetwork,
    ensures
        i + 1 < plan.len() ==> state_after_step(Procedure::Shutdown, plan, i, NodeState::ShuttingDown)
            == NodeState::ShuttingDown,
        i + 1 == plan.len() ==> state_after_step(Procedure::Shutdown, plan, i, NodeState::ShuttingDown)
            == NodeState::Stopped,
        shutdown_plan().len() == 11,
        shutdown_plan()[10] == NodeStep::ShutdownStorage,
        forall|j: int|
            0 <= j < 10 ==> state_after_step(Procedure::Shutdown, shutdown_plan(), j, NodeState::ShuttingDown)
                == NodeState::ShuttingDown,
{
    assert forall|j: int| 0 <= j < 10 implies state_after_step(
        Procedure::Shutdown,
        shutdown_plan(),
        j,
        NodeState::ShuttingDown,
    ) == NodeState::ShuttingDown by {
        assert(shutdown_plan()[j] != NodeStep::SyncWithNetwork);
    }
}

/// A start syncs first exactly when the network reports a height above the
/// node's own: a node at or above the network's height, or told no height,
/// runs at once.
pub proof fn law_start_syncs_only_when_behind(current_height: u64, network_height: u64)
    ensures
        behind_network(current_height, Some(network_height)) <==> current_height < network_height,
        !behind_network(current_height, None),
        start_plan(behind_network(current_height, Some(network_height)))[0] == (if current_height
            < network_height {
            NodeStep::ReportSyncing
        } else {
            NodeStep::ReportHealthy
        }),
{
}

/// A failed step ends its procedure: no further step is handed out.
pub proof fn law_failure_ends_procedure(v: NodeLifecycleView)
    requires
        v.failure is Some,
    ensures
        is_over(v),
{
}

} // verus!
