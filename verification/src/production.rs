//! Production hardening: validation of configuration, dependencies and
//! persisted state, error recovery, and the startup sequence that combines them.

use vstd::prelude::*;
use crate::text::{contains_char, decimal, u64_to_decimal};

verus! {

// ---------------------------------------------------------------------------
// Errors
// ---------------------------------------------------------------------------

/// Production error types
#[derive(Debug)]
pub enum ProductionError {
    /// Configuration error
    ConfigurationError(String),
    /// Validation error
    ValidationError(String),
    /// Dependency error
    DependencyError(String),
    /// Recovery error
    RecoveryError(String),
    /// State error
    StateError(String),
    /// Resource error
    ResourceError(String),
}

/// The mathematical value of a [`ProductionError`]: its kind and message.
pub enum ProductionErrorView {
    Configuration(Seq<char>),
    Validation(Seq<char>),
    Dependency(Seq<char>),
    Recovery(Seq<char>),
    State(Seq<char>),
    Resource(Seq<char>),
}

impl View for ProductionError {
    type V = ProductionErrorView;

    open spec fn view(&self) -> ProductionErrorView {
        match self {
            ProductionError::ConfigurationError(m) => ProductionErrorView::Configuration(m@),
            ProductionError::ValidationError(m) => ProductionErrorView::Validation(m@),
            ProductionError::DependencyError(m) => ProductionErrorView::Dependency(m@),
            ProductionError::RecoveryError(m) => ProductionErrorView::Recovery(m@),
            ProductionError::StateError(m) => ProductionErrorView::State(m@),
            ProductionError::ResourceError(m) => ProductionErrorView::Resource(m@),
        }
    }
}

/// The human-readable rendering of an error: a kind prefix and the message.
pub open spec fn error_text(e: ProductionErrorView) -> Seq<char> {
    match e {
        ProductionErrorView::Configuration(m) => "Configuration error: "@ + m,
        ProductionErrorView::Validation(m) => "Validation error: "@ + m,
        ProductionErrorView::Dependency(m) => "Dependency error: "@ + m,
        ProductionErrorView::Recovery(m) => "Recovery error: "@ + m,
        ProductionErrorView::State(m) => "State error: "@ + m,
        ProductionErrorView::Resource(m) => "Resource error: "@ + m,
    }
}

/// The value of a unit result, the error taken by its view.
pub open spec fn unit_result_view(r: Result<(), ProductionError>) -> Result<(), ProductionErrorView> {
    match r {
        Ok(()) => Ok(()),
        Err(e) => Err(e@),
    }
}

fn prefixed(prefix: &str, msg: &String) -> (s: String)
    ensures
        s@ == prefix@ + msg@,
{
    let mut s = String::from_str(prefix);
    s.append(msg.as_str());
    s
}

impl ProductionError {
    /// Renders the error as text, e.g. `Configuration error: <message>`.
    pub fn to_display_string(&self) -> (s: String)
        ensures
            s@ == error_text(self@),
    {
        match self {
            ProductionError::ConfigurationError(m) => prefixed("Configuration error: ", m),
            ProductionError::ValidationError(m) => prefixed("Validation error: ", m),
            ProductionError::DependencyError(m) => prefixed("Dependency error: ", m),
            ProductionError::RecoveryError(m) => prefixed("Recovery error: ", m),
            ProductionError::StateError(m) => prefixed("State error: ", m),
            ProductionError::ResourceError(m) => prefixed("Resource error: ", m),
        }
    }

}

impl Clone for ProductionError {
    fn clone(&self) -> (r: ProductionError)
        ensures
            r@ == self@,
    {
        match self {
            ProductionError::ConfigurationError(m) => ProductionError::ConfigurationError(m.clone()),
            ProductionError::ValidationError(m) => ProductionError::ValidationError(m.clone()),
            ProductionError::DependencyError(m) => ProductionError::DependencyError(m.clone()),
            ProductionError::RecoveryError(m) => ProductionError::RecoveryError(m.clone()),
            ProductionError::StateError(m) => ProductionError::StateError(m.clone()),
            ProductionError::ResourceError(m) => ProductionError::ResourceError(m.clone()),
        }
    }
}

// ---------------------------------------------------------------------------
// Configuration data
// ---------------------------------------------------------------------------

/// Configuration data: a map from field names to values, held as a list of
/// entries whose keys are distinct, so that lookups by a string key are
/// proved against the map it stands for.
#[derive(Debug)]
pub struct ConfigurationData {
    fields: Vec<(String, String)>,
}

/// Whether some entry has key `k`.
pub open spec fn has_key(entries: Seq<(String, String)>, k: Seq<char>) -> bool {
    exists|i: int| 0 <= i < entries.len() && #[trigger] entries[i].0@ == k
}

/// No two entries share a key.
pub open spec fn keys_distinct(entries: Seq<(String, String)>) -> bool {
    forall|i: int, j: int|
        0 <= i < entries.len() && 0 <= j < entries.len() && i != j ==> #[trigger] entries[i].0@
            != #[trigger] entries[j].0@
}

/// The value stored under `k`.
pub open spec fn value_of(entries: Seq<(String, String)>, k: Seq<char>) -> Seq<char> {
    entries[choose|i: int| 0 <= i < entries.len() && #[trigger] entries[i].0@ == k].1@
}

/// The map that a sequence of entries with distinct keys stands for.
pub open spec fn entries_map(entries: Seq<(String, String)>) -> Map<Seq<char>, Seq<char>> {
    Map::new(|k: Seq<char>| has_key(entries, k), |k: Seq<char>| value_of(entries, k))
}

proof fn lemma_value_at(entries: Seq<(String, String)>, i: int)
    requires
        keys_distinct(entries),
        0 <= i < entries.len(),
    ensures
        has_key(entries, entries[i].0@),
        value_of(entries, entries[i].0@) == entries[i].1@,
{
    let k = entries[i].0@;
    assert(has_key(entries, k));
    let j = choose|j: int| 0 <= j < entries.len() && #[trigger] entries[j].0@ == k;
    assert(entries[j].0@ == k);
    assert(i == j);
}

impl View for ConfigurationData {
    type V = Map<Seq<char>, Seq<char>>;

    closed spec fn view(&self) -> Map<Seq<char>, Seq<char>> {
        entries_map(self.fields@)
    }
}

impl ConfigurationData {
    #[verifier::type_invariant]
    spec fn keys_are_distinct(self) -> bool {
        keys_distinct(self.fields@)
    }

    /// Create new configuration data
    pub fn new() -> (c: Self)
        ensures
            c@ == Map::<Seq<char>, Seq<char>>::empty(),
    {
        let c = ConfigurationData { fields: Vec::new() };
        assert(c@ =~= Map::<Seq<char>, Seq<char>>::empty());
        c
    }

    /// Index of the entry with key `key`, if any.
    fn find(&self, key: &String) -> (r: Option<usize>)
        ensures
            match r {
                Some(i) => i < self.fields@.len() && self.fields@[i as int].0@ == key@,
                None => !has_key(self.fields@, key@),
            },
    {
        let n = self.fields.len();
        let mut i: usize = 0;
        while i < n
            invariant
                n == self.fields@.len(),
                i <= n,
                forall|j: int| 0 <= j < i ==> #[trigger] self.fields@[j].0@ != key@,
            decreases n - i,
        {
            if self.fields[i].0 == *key {
                return Some(i);
            }
            i = i + 1;
        }
        None
    }

    /// Set field
    pub fn set_field(&mut self, key: String, value: String)
        ensures
            final(self)@ == old(self)@.insert(key@, value@),
    {
        proof { use_type_invariant(&*self); }
        let ghost old_entries = self.fields@;
        let found = self.find(&key);
        let mut fields: Vec<(String, String)> = Vec::new();
        std::mem::swap(&mut fields, &mut self.fields);
        match found {
            Some(i) => {
                let ghost kv = key@;
                let ghost vv = value@;
                fields.set(i, (key, value));
                proof {
                    assert(keys_distinct(fields@));
                    assert forall|k: Seq<char>|
                        #![auto]
                        entries_map(fields@).dom().contains(k) == entries_map(
                            old_entries,
                        ).insert(kv, vv).dom().contains(k) by {
                        if has_key(old_entries, k) {
                            let j = choose|j: int|
                                0 <= j < old_entries.len() && #[trigger] old_entries[j].0@ == k;
                            if j == i {
                                assert(fields@[i as int].0@ == k);
                            } else {
                                assert(fields@[j].0@ == k);
                            }
                        }
                        if has_key(fields@, k) {
                            let j = choose|j: int|
                                0 <= j < fields@.len() && #[trigger] fields@[j].0@ == k;
                            if j != i {
                                assert(old_entries[j].0@ == k);
                            }
                        }
                    }
                    assert forall|k: Seq<char>|
                        #![auto]
                        has_key(fields@, k) implies value_of(fields@, k) == entries_map(
                            old_entries,
                        ).insert(kv, vv)[k] by {
                        let j = choose|j: int|
                            0 <= j < fields@.len() && #[trigger] fields@[j].0@ == k;
                        lemma_value_at(fields@, j);
                        if j != i {
                            assert(old_entries[j].0@ == k);
                            lemma_value_at(old_entries, j);
                        }
                    }
                    assert(entries_map(fields@) =~= entries_map(old_entries).insert(kv, vv));
                }
            },
            None => {
                let ghost kv = key@;
                let ghost vv = value@;
                fields.push((key, value));
                proof {
                    let n = old_entries.len() as int;
                    assert forall|a: int, b: int|
                        0 <= a < fields@.len() && 0 <= b < fields@.len() && a != b
                            implies #[trigger] fields@[a].0@ != #[trigger] fields@[b].0@ by {
                        if a == n {
                            assert(old_entries[b].0@ == fields@[b].0@);
                        } else if b == n {
                            assert(old_entries[a].0@ == fields@[a].0@);
                        } else {
                            assert(old_entries[a] == fields@[a]);
                            assert(old_entries[b] == fields@[b]);
                        }
                    }
                    assert forall|k: Seq<char>|
                        #![auto]
                        entries_map(fields@).dom().contains(k) == entries_map(
                            old_entries,
                        ).insert(kv, vv).dom().contains(k) by {
                        if has_key(old_entries, k) {
                            let j = choose|j: int|
                                0 <= j < old_entries.len() && #[trigger] old_entries[j].0@ == k;
                            assert(fields@[j] == old_entries[j]);
                        }
                        if k == kv {
                            assert(fields@[n].0@ == k);
                        }
                        if has_key(fields@, k) {
                            let j = choose|j: int|
                                0 <= j < fields@.len() && #[trigger] fields@[j].0@ == k;
                            if j != n {
                                assert(old_entries[j] == fields@[j]);
                            }
                        }
                    }
                    assert forall|k: Seq<char>|
                        #![auto]
                        has_key(fields@, k) implies value_of(fields@, k) == entries_map(
                            old_entries,
                        ).insert(kv, vv)[k] by {
                        let j = choose|j: int|
                            0 <= j < fields@.len() && #[trigger] fields@[j].0@ == k;
                        lemma_value_at(fields@, j);
                        if j != n {
                            assert(old_entries[j] == fields@[j]);
                            lemma_value_at(old_entries, j);
                        }
                    }
                    assert(entries_map(fields@) =~= entries_map(old_entries).insert(kv, vv));
                }
            },
        }
        self.fields = fields;
    }

    /// Get field
    pub fn get_field(&self, key: &str) -> (r: Option<String>)
        ensures
            match r {
                Some(v) => self@.dom().contains(key@) && v@ == self@[key@],
                None => !self@.dom().contains(key@),
            },
    {
        proof { use_type_invariant(self); }
        let k = String::from_str(key);
        match self.find(&k) {
            Some(i) => {
                proof { lemma_value_at(self.fields@, i as int); }
                Some(self.fields[i].1.clone())
            },
            None => None,
        }
    }

    /// Check if field exists
    pub fn has_field(&self, key: &str) -> (r: bool)
        ensures
            r == self@.dom().contains(key@),
    {
        let k = String::from_str(key);
        self.find(&k).is_some()
    }
}

impl Clone for ConfigurationData {
    fn clone(&self) -> (c: Self)
        ensures
            c@ == self@,
    {
        proof { use_type_invariant(self); }
        let n = self.fields.len();
        let mut fields: Vec<(String, String)> = Vec::new();
        let mut i: usize = 0;
        while i < n
            invariant
                n == self.fields@.len(),
                i <= n,
                fields@.len() == i,
                forall|j: int| 0 <= j < i ==> #[trigger] fields@[j] == self.fields@[j],
            decreases n - i,
        {
            let k = self.fields[i].0.clone();
            let v = self.fields[i].1.clone();
            fields.push((k, v));
            i = i + 1;
        }
        assert(fields@ =~= self.fields@);
        ConfigurationData { fields }
    }
}

impl Default for ConfigurationData {
    fn default() -> (c: Self)
        ensures
            c@ == Map::<Seq<char>, Seq<char>>::empty(),
    {
        Self::new()
    }
}

// ---------------------------------------------------------------------------
// Configuration validation
// ---------------------------------------------------------------------------

/// The first of `required[from..]` that is not in `present`.
pub open spec fn first_missing(required: Seq<Seq<char>>, present: Set<Seq<char>>, from: int) -> Option<
    Seq<char>,
>
    decreases required.len() - from,
{
    if from < 0 || from >= required.len() {
        None
    } else if !present.contains(required[from]) {
        Some(required[from])
    } else {
        first_missing(required, present, from + 1)
    }
}

/// The outcome of validating configuration `cfg` against the required fields:
/// the first missing field, then an empty `node_id`, then a `listen_addr`
/// without a `:` is reported.
pub open spec fn config_check(required: Seq<Seq<char>>, cfg: Map<Seq<char>, Seq<char>>) -> Result<
    (),
    ProductionErrorView,
> {
    match first_missing(required, cfg.dom(), 0) {
        Some(f) => Err(ProductionErrorView::Configuration("Missing required field: "@ + f)),
        None => if cfg.dom().contains("node_id"@) && cfg["node_id"@].len() == 0 {
            Err(ProductionErrorView::Configuration("node_id cannot be empty"@))
        } else if cfg.dom().contains("listen_addr"@) && !cfg["listen_addr"@].contains(':') {
            Err(ProductionErrorView::Configuration("listen_addr must be in format host:port"@))
        } else {
            Ok(())
        },
    }
}

/// The views of a sequence of strings.
pub open spec fn string_views(v: Seq<String>) -> Seq<Seq<char>> {
    v.map_values(|s: String| s@)
}

/// Configuration validator
pub struct ConfigurationValidator {
    required_fields: Vec<String>,
    optional_fields: Vec<String>,
}

impl ConfigurationValidator {
    /// The fields that a configuration must hold.
    pub closed spec fn required(&self) -> Seq<Seq<char>> {
        string_views(self.required_fields@)
    }

    /// The fields that a configuration may hold.
    pub closed spec fn optional(&self) -> Seq<Seq<char>> {
        string_views(self.optional_fields@)
    }

    /// Create new configuration validator
    pub fn new() -> (v: Self)
        ensures
            v.required() == seq!["node_id"@, "listen_addr"@, "data_dir"@, "log_level"@],
            v.optional() == seq!["metrics_port"@, "rpc_port"@, "validator_mode"@],
    {
        let v = ConfigurationValidator {
            required_fields: vec![
                String::from_str("node_id"),
                String::from_str("listen_addr"),
                String::from_str("data_dir"),
                String::from_str("log_level"),
            ],
            optional_fields: vec![
                String::from_str("metrics_port"),
                String::from_str("rpc_port"),
                String::from_str("validator_mode"),
            ],
        };
        assert(v.required() =~= seq!["node_id"@, "listen_addr"@, "data_dir"@, "log_level"@]);
        assert(v.optional() =~= seq!["metrics_port"@, "rpc_port"@, "validator_mode"@]);
        v
    }

    /// The required fields, in the order they are checked.
    pub fn required_fields(&self) -> (r: &[String])
        ensures
            string_views(r@) == self.required(),
    {
        self.required_fields.as_slice()
    }

    /// The optional fields.
    pub fn optional_fields(&self) -> (r: &[String])
        ensures
            string_views(r@) == self.optional(),
    {
        self.optional_fields.as_slice()
    }

    /// Validate configuration
    pub fn validate(&self, config: &ConfigurationData) -> (r: Result<(), ProductionError>)
        ensures
            unit_result_view(r) == config_check(self.required(), config@),
    {
        let n = self.required_fields.len();
        let mut i: usize = 0;
        while i < n
            invariant
                n == self.required_fields@.len(),
                i <= n,
                first_missing(self.required(), config@.dom(), 0) == first_missing(
                    self.required(),
                    config@.dom(),
                    i as int,
                ),
            decreases n - i,
        {
            let field = &self.required_fields[i];
            assert(self.required()[i as int] == field@);
            if !config.has_field(field.as_str()) {
                let msg = prefixed("Missing required field: ", field);
                return Err(ProductionError::ConfigurationError(msg));
            }
            i = i + 1;
        }
        match config.get_field("node_id") {
            Some(node_id) => {
                if node_id.as_str().is_empty() {
                    return Err(
                        ProductionError::ConfigurationError(String::from_str("node_id cannot be empty")),
                    );
                }
            },
            None => {},
        }
        match config.get_field("listen_addr") {
            Some(listen_addr) => {
                if !contains_char(listen_addr.as_str(), ':') {
                    return Err(
                        ProductionError::ConfigurationError(
                            String::from_str("listen_addr must be in format host:port"),
                        ),
                    );
                }
            },
            None => {},
        }
        Ok(())
    }

    /// Add required field
    pub fn add_required_field(&mut self, field: String)
        ensures
            final(self).required() == old(self).required().push(field@),
            final(self).optional() == old(self).optional(),
    {
        self.required_fields.push(field);
        assert(self.required() =~= old(self).required().push(field@));
    }

    /// Add optional field
    pub fn add_optional_field(&mut self, field: String)
        ensures
            final(self).optional() == old(self).optional().push(field@),
            final(self).required() == old(self).required(),
    {
        self.optional_fields.push(field);
        assert(self.optional() =~= old(self).optional().push(field@));
    }
}

impl Default for ConfigurationValidator {
    fn default() -> (v: Self)
        ensures
            v.required() == seq!["node_id"@, "listen_addr"@, "data_dir"@, "log_level"@],
            v.optional() == seq!["metrics_port"@, "rpc_port"@, "validator_mode"@],
    {
        Self::new()
    }
}

// ---------------------------------------------------------------------------
// Dependency validation
// ---------------------------------------------------------------------------

/// Whether a dependency counts as available. Every named dependency does:
/// availability is not probed.
pub open spec fn dependency_available(dep: Seq<char>) -> bool {
    true
}

/// Dependency validator
pub struct DependencyValidator {
    required_dependencies: Vec<String>,
}

impl DependencyValidator {
    /// The dependencies that must be available.
    pub closed spec fn required(&self) -> Seq<Seq<char>> {
        string_views(self.required_dependencies@)
    }

    /// Create new dependency validator
    pub fn new() -> (v: Self)
        ensures
            v.required() == seq!["rocksdb"@, "tokio"@, "serde"@, "tracing"@],
    {
        let v = DependencyValidator {
            required_dependencies: vec![
                String::from_str("rocksdb"),
                String::from_str("tokio"),
                String::from_str("serde"),
                String::from_str("tracing"),
            ],
        };
        assert(v.required() =~= seq!["rocksdb"@, "tokio"@, "serde"@, "tracing"@]);
        v
    }

    /// The required dependencies, in the order they are checked.
    pub fn required_dependencies(&self) -> (r: &[String])
        ensures
            string_views(r@) == self.required(),
    {
        self.required_dependencies.as_slice()
    }

    /// Validate dependencies: every required dependency is available, so this
    /// always succeeds.
    pub fn validate(&self) -> (r: Result<(), ProductionError>)
        ensures
            r is Ok,
    {
        let n = self.required_dependencies.len();
        let mut i: usize = 0;
        while i < n
            invariant
                n == self.required_dependencies@.len(),
                i <= n,
            decreases n - i,
        {
            let dep = &self.required_dependencies[i];
            if !self.check_dependency(dep.as_str()) {
                let msg = prefixed("Missing dependency: ", dep);
                return Err(ProductionError::DependencyError(msg));
            }
            i = i + 1;
        }
        Ok(())
    }

    /// Check if dependency is available
    fn check_dependency(&self, dep: &str) -> (r: bool)
        ensures
            r == dependency_available(dep@),
    {
        true
    }

    /// Add required dependency
    pub fn add_required_dependency(&mut self, dep: String)
        ensures
            final(self).required() == old(self).required().push(dep@),
    {
        self.required_dependencies.push(dep);
        assert(self.required() =~= old(self).required().push(dep@));
    }
}

impl Default for DependencyValidator {
    fn default() -> (v: Self)
        ensures
            v.required() == seq!["rocksdb"@, "tokio"@, "serde"@, "tracing"@],
    {
        Self::new()
    }
}

// ---------------------------------------------------------------------------
// State data and its validation
// ---------------------------------------------------------------------------

/// The wrapping (modulo 2^64) sum of the bytes.
pub open spec fn byte_sum(data: Seq<u8>) -> u64
    decreases data.len(),
{
    if data.len() == 0 {
        0
    } else {
        byte_sum(data.drop_last()).wrapping_add(data.last() as u64)
    }
}

/// The mathematical value of a [`StateData`].
pub struct StateDataView {
    pub version: u64,
    pub data: Seq<u8>,
    pub checksum: u64,
}

/// State data
#[derive(Debug)]
pub struct StateData {
    version: u64,
    data: Vec<u8>,
    checksum: u64,
}

impl View for StateData {
    type V = StateDataView;

    closed spec fn view(&self) -> StateDataView {
        StateDataView { version: self.version, data: self.data@, checksum: self.checksum }
    }
}

impl Clone for StateData {
    fn clone(&self) -> (c: Self)
        ensures
            c@ == self@,
    {
        StateData { version: self.version, data: self.data.clone(), checksum: self.checksum }
    }
}

/// The stored checksum matches the data.
pub open spec fn checksum_matches(s: StateDataView) -> bool {
    byte_sum(s.data) == s.checksum
}

/// The state is intact (checksum matches) and holds data.
pub open spec fn state_is_valid(s: StateDataView) -> bool {
    checksum_matches(s) && s.data.len() > 0
}

impl StateData {
    /// Create new state data
    pub fn new(version: u64, data: Vec<u8>) -> (s: Self)
        ensures
            s@.version == version,
            s@.data == data@,
            s@.checksum == byte_sum(data@),
    {
        let checksum = Self::calculate_checksum(data.as_slice());
        StateData { version, data, checksum }
    }

    /// Calculate checksum: the wrapping sum of the bytes.
    pub fn calculate_checksum(data: &[u8]) -> (c: u64)
        ensures
            c == byte_sum(data@),
    {
        let n = data.len();
        let mut checksum: u64 = 0;
        let mut i: usize = 0;
        while i < n
            invariant
                n == data@.len(),
                i <= n,
                checksum == byte_sum(data@.take(i as int)),
            decreases n - i,
        {
            assert(data@.take(i + 1).drop_last() =~= data@.take(i as int));
            checksum = checksum.wrapping_add(data[i] as u64);
            i = i + 1;
        }
        assert(data@.take(n as int) =~= data@);
        checksum
    }

    /// Verify checksum
    pub fn verify_checksum(&self) -> (r: bool)
        ensures
            r == checksum_matches(self@),
    {
        Self::calculate_checksum(self.data.as_slice()) == self.checksum
    }

    /// Check if state is valid
    pub fn is_valid(&self) -> (r: bool)
        ensures
            r == state_is_valid(self@),
    {
        self.verify_checksum() && !self.data.is_empty()
    }
}

/// The outcome of validating state `s` against the expected version.
pub open spec fn state_check(expected: u64, s: StateDataView) -> Result<(), ProductionErrorView> {
    if s.version != expected {
        Err(
            ProductionErrorView::State(
                "State version mismatch: expected "@ + decimal(expected as nat) + ", got "@
                    + decimal(s.version as nat),
            ),
        )
    } else if !state_is_valid(s) {
        Err(ProductionErrorView::State("State integrity check failed"@))
    } else {
        Ok(())
    }
}

/// The outcome of the consistency check of state `s`.
pub open spec fn consistency_check(s: StateDataView) -> Result<(), ProductionErrorView> {
    if s.data.len() == 0 {
        Err(ProductionErrorView::State("State data is empty"@))
    } else {
        Ok(())
    }
}

/// State validator
pub struct StateValidator {
    expected_version: u64,
}

impl StateValidator {
    /// The version that validated states must carry.
    pub closed spec fn expected(&self) -> u64 {
        self.expected_version
    }

    /// Create new state validator
    pub fn new(expected_version: u64) -> (v: Self)
        ensures
            v.expected() == expected_version,
    {
        StateValidator { expected_version }
    }

    /// Validate state
    pub fn validate(&self, state: &StateData) -> (r: Result<(), ProductionError>)
        ensures
            unit_result_view(r) == state_check(self.expected(), state@),
    {
        if state.version != self.expected_version {
            let mut msg = String::from_str("State version mismatch: expected ");
            let expected = u64_to_decimal(self.expected_version);
            msg.append(expected.as_str());
            msg.append(", got ");
            let got = u64_to_decimal(state.version);
            msg.append(got.as_str());
            return Err(ProductionError::StateError(msg));
        }
        if !state.is_valid() {
            return Err(ProductionError::StateError(String::from_str("State integrity check failed")));
        }
        Ok(())
    }

    /// Verify state consistency
    pub fn verify_consistency(&self, state: &StateData) -> (r: Result<(), ProductionError>)
        ensures
            unit_result_view(r) == consistency_check(state@),
    {
        if state.data.is_empty() {
            return Err(ProductionError::StateError(String::from_str("State data is empty")));
        }
        Ok(())
    }
}

// ---------------------------------------------------------------------------
// Recovery
// ---------------------------------------------------------------------------

/// The outcome of a recovery attempt for error `e`: state and resource errors
/// are recovered; every other error is handed back unchanged.
pub open spec fn recovery_outcome(e: ProductionErrorView) -> Result<(), ProductionErrorView> {
    match e {
        ProductionErrorView::State(_) => Ok(()),
        ProductionErrorView::Resource(_) => Ok(()),
        _ => Err(e),
    }
}

/// Recovery manager
pub struct RecoveryManager {
    max_recovery_attempts: u32,
}

impl RecoveryManager {
    /// The configured number of recovery attempts.
    pub closed spec fn max_attempts_spec(&self) -> u32 {
        self.max_recovery_attempts
    }

    /// Create new recovery manager
    pub fn new(max_recovery_attempts: u32) -> (m: Self)
        ensures
            m.max_attempts_spec() == max_recovery_attempts,
    {
        RecoveryManager { max_recovery_attempts }
    }

    /// Attempt recovery
    pub fn attempt_recovery(&self, error: &ProductionError) -> (r: Result<(), ProductionError>)
        ensures
            unit_result_view(r) == recovery_outcome(error@),
    {
        match error {
            ProductionError::ConfigurationError(_) => Err(error.clone()),
            ProductionError::StateError(_) => self.recover_state(),
            ProductionError::ResourceError(_) => self.recover_resources(),
            _ => Err(error.clone()),
        }
    }

    /// Recover state
    fn recover_state(&self) -> (r: Result<(), ProductionError>)
        ensures
            r is Ok,
    {
        Ok(())
    }

    /// Recover resources
    fn recover_resources(&self) -> (r: Result<(), ProductionError>)
        ensures
            r is Ok,
    {
        Ok(())
    }

    /// Get max recovery attempts
    pub fn max_attempts(&self) -> (n: u32)
        ensures
            n == self.max_attempts_spec(),
    {
        self.max_recovery_attempts
    }
}

impl Default for RecoveryManager {
    fn default() -> (m: Self)
        ensures
            m.max_attempts_spec() == 3,
    {
        Self::new(3)
    }
}

// ---------------------------------------------------------------------------
// Health check
// ---------------------------------------------------------------------------

/// The overall status for the four check results: `Healthy` when all hold,
/// `Degraded` when configuration and dependencies hold, `Unhealthy` otherwise.
pub open spec fn check_status(
    config_valid: bool,
    deps_available: bool,
    state_valid: bool,
    resources_available: bool,
) -> Seq<char> {
    if config_valid && deps_available && state_valid && resources_available {
        "Healthy"@
    } else if config_valid && deps_available {
        "Degraded"@
    } else {
        "Unhealthy"@
    }
}

/// Health check
#[derive(Debug, Clone)]
pub struct HealthCheck {
    /// Configuration valid
    pub config_valid: bool,
    /// Dependencies available
    pub dependencies_available: bool,
    /// State valid
    pub state_valid: bool,
    /// Resources available
    pub resources_available: bool,
    /// Overall status
    pub status: String,
}

impl HealthCheck {
    /// Create new health check
    pub fn new() -> (h: Self)
        ensures
            !h.config_valid,
            !h.dependencies_available,
            !h.state_valid,
            !h.resources_available,
            h.status@ == "Unknown"@,
    {
        HealthCheck {
            config_valid: false,
            dependencies_available: false,
            state_valid: false,
            resources_available: false,
            status: String::from_str("Unknown"),
        }
    }

    /// Perform health check
    pub fn perform_check(
        config_valid: bool,
        deps_available: bool,
        state_valid: bool,
        resources_available: bool,
    ) -> (h: Self)
        ensures
            h.config_valid == config_valid,
            h.dependencies_available == deps_available,
            h.state_valid == state_valid,
            h.resources_available == resources_available,
            h.status@ == check_status(config_valid, deps_available, state_valid, resources_available),
    {
        let status = if config_valid && deps_available && state_valid && resources_available {
            String::from_str("Healthy")
        } else if config_valid && deps_available {
            String::from_str("Degraded")
        } else {
            String::from_str("Unhealthy")
        };
        HealthCheck {
            config_valid,
            dependencies_available: deps_available,
            state_valid,
            resources_available,
            status,
        }
    }

    /// Is healthy
    pub fn is_healthy(&self) -> (r: bool)
        ensures
            r == (self.status@ == "Healthy"@),
    {
        self.status == String::from_str("Healthy")
    }

    /// Is degraded
    pub fn is_degraded(&self) -> (r: bool)
        ensures
            r == (self.status@ == "Degraded"@),
    {
        self.status == String::from_str("Degraded")
    }

    /// Is unhealthy
    pub fn is_unhealthy(&self) -> (r: bool)
        ensures
            r == (self.status@ == "Unhealthy"@),
    {
        self.status == String::from_str("Unhealthy")
    }
}

impl Default for HealthCheck {
    fn default() -> (h: Self)
        ensures
            !h.config_valid,
            !h.dependencies_available,
            !h.state_valid,
            !h.resources_available,
            h.status@ == "Unknown"@,
    {
        Self::new()
    }
}

// ---------------------------------------------------------------------------
// Startup sequence
// ---------------------------------------------------------------------------

/// Production startup sequence
pub struct ProductionStartup {
    config_validator: ConfigurationValidator,
    dependency_validator: DependencyValidator,
    recovery_manager: RecoveryManager,
}

impl ProductionStartup {
    /// The fields that the startup sequence requires of a configuration.
    pub closed spec fn required_config(&self) -> Seq<Seq<char>> {
        self.config_validator.required()
    }

    /// The fields that the startup sequence accepts as optional.
    pub closed spec fn optional_config(&self) -> Seq<Seq<char>> {
        self.config_validator.optional()
    }

    /// The dependencies that the startup sequence requires.
    pub closed spec fn required_dependencies(&self) -> Seq<Seq<char>> {
        self.dependency_validator.required()
    }

    /// The number of recovery attempts the startup sequence allows.
    pub closed spec fn recovery_attempts(&self) -> u32 {
        self.recovery_manager.max_attempts_spec()
    }

    /// Create new production startup
    pub fn new() -> (p: Self)
        ensures
            p.required_config() == seq!["node_id"@, "listen_addr"@, "data_dir"@, "log_level"@],
            p.optional_config() == seq!["metrics_port"@, "rpc_port"@, "validator_mode"@],
            p.required_dependencies() == seq!["rocksdb"@, "tokio"@, "serde"@, "tracing"@],
            p.recovery_attempts() == 3,
    {
        ProductionStartup {
            config_validator: ConfigurationValidator::new(),
            dependency_validator: DependencyValidator::new(),
            recovery_manager: RecoveryManager::new(3),
        }
    }

    /// Execute startup sequence: validates the configuration, the
    /// dependencies and the built-in initial state. Only the configuration can
    /// fail; when it passes the result is a fully healthy check.
    pub fn execute(&self, config: &ConfigurationData) -> (r: Result<HealthCheck, ProductionError>)
        ensures
            match config_check(self.required_config(), config@) {
                Err(e) => r is Err && r->Err_0@ == e,
                Ok(()) => r is Ok && r->Ok_0.config_valid && r->Ok_0.dependencies_available
                    && r->Ok_0.state_valid && r->Ok_0.resources_available && r->Ok_0.status@
                    == "Healthy"@,
            },
    {
        match self.config_validator.validate(config) {
            Err(e) => { return Err(e); },
            Ok(()) => {},
        }
        let config_valid = true;
        match self.dependency_validator.validate() {
            Err(e) => { return Err(e); },
            Ok(()) => {},
        }
        let deps_available = true;
        let state = StateData::new(1, vec![1u8, 2u8, 3u8, 4u8, 5u8]);
        let state_validator = StateValidator::new(1);
        match state_validator.validate(&state) {
            Err(e) => { return Err(e); },
            Ok(()) => {},
        }
        let state_valid = true;
        let resources_available = true;
        Ok(HealthCheck::perform_check(config_valid, deps_available, state_valid, resources_available))
    }
}

impl Default for ProductionStartup {
    fn default() -> (p: Self)
        ensures
            p.required_config() == seq!["node_id"@, "listen_addr"@, "data_dir"@, "log_level"@],
            p.optional_config() == seq!["metrics_port"@, "rpc_port"@, "validator_mode"@],
            p.required_dependencies() == seq!["rocksdb"@, "tokio"@, "serde"@, "tracing"@],
            p.recovery_attempts() == 3,
    {
        Self::new()
    }
}

// ---------------------------------------------------------------------------
// Laws
// ---------------------------------------------------------------------------

/// Reading a configuration field after setting it gives the value set, and
/// setting one field leaves every other field as it was.
pub proof fn law_get_after_set(
    before: Map<Seq<char>, Seq<char>>,
    key: Seq<char>,
    value: Seq<char>,
    other: Seq<char>,
)
    ensures
        before.insert(key, value).dom().contains(key),
        before.insert(key, value)[key] == value,
        other != key ==> (before.insert(key, value).dom().contains(other) == before.dom().contains(
            other,
        )),
        other != key && before.dom().contains(other) ==> before.insert(key, value)[other]
            == before[other],
{
}

proof fn lemma_none_missing(required: Seq<Seq<char>>, present: Set<Seq<char>>, from: int)
    requires
        0 <= from,
        forall|i: int| from <= i < required.len() ==> present.contains(#[trigger] required[i]),
    ensures
        first_missing(required, present, from) is None,
    decreases required.len() - from,
{
    if from < required.len() {
        lemma_none_missing(required, present, from + 1);
    }
}

proof fn lemma_missing_found(required: Seq<Seq<char>>, present: Set<Seq<char>>, from: int, j: int)
    requires
        0 <= from <= j < required.len(),
        !present.contains(required[j]),
    ensures
        first_missing(required, present, from) is Some,
        present.contains(first_missing(required, present, from)->0) == false,
    decreases j - from,
{
    if present.contains(required[from]) {
        lemma_missing_found(required, present, from + 1, j);
    }
}

/// A configuration that holds every required field, a non-empty `node_id`
/// (if any) and a `listen_addr` with a `:` (if any) passes validation; one
/// that lacks a required field fails, naming a field that it lacks.
pub proof fn law_config_check(required: Seq<Seq<char>>, cfg: Map<Seq<char>, Seq<char>>)
    ensures
        (forall|i: int| 0 <= i < required.len() ==> cfg.dom().contains(#[trigger] required[i]))
            && (cfg.dom().contains("node_id"@) ==> cfg["node_id"@].len() > 0) && (cfg.dom().contains(
            "listen_addr"@,
        ) ==> cfg["listen_addr"@].contains(':')) ==> config_check(required, cfg) == Ok::<
            (),
            ProductionErrorView,
        >(()),
        (exists|i: int| 0 <= i < required.len() && !cfg.dom().contains(#[trigger] required[i]))
            ==> exists|f: Seq<char>|
            !cfg.dom().contains(f) && config_check(required, cfg) == Err::<(), ProductionErrorView>(
                ProductionErrorView::Configuration("Missing required field: "@ + f),
            ),
{
    if forall|i: int| 0 <= i < required.len() ==> cfg.dom().contains(#[trigger] required[i]) {
        lemma_none_missing(required, cfg.dom(), 0);
    }
    if exists|i: int| 0 <= i < required.len() && !cfg.dom().contains(#[trigger] required[i]) {
        let j = choose|i: int| 0 <= i < required.len() && !cfg.dom().contains(#[trigger] required[i]);
        lemma_missing_found(required, cfg.dom(), 0, j);
        let f = first_missing(required, cfg.dom(), 0)->0;
        assert(!cfg.dom().contains(f));
    }
}

/// A configuration that holds every required field is rejected exactly for
/// an empty `node_id`, or else for a `listen_addr` without a `:`, with the
/// message for that fault; it is accepted otherwise.
pub proof fn law_config_rejections(required: Seq<Seq<char>>, cfg: Map<Seq<char>, Seq<char>>)
    ensures
        (forall|i: int| 0 <= i < required.len() ==> cfg.dom().contains(#[trigger] required[i])) ==> {
            &&& (cfg.dom().contains("node_id"@) && cfg["node_id"@].len() == 0) ==> config_check(required, cfg)
                == Err::<(), ProductionErrorView>(
                ProductionErrorView::Configuration("node_id cannot be empty"@),
            )
            &&& (!(cfg.dom().contains("node_id"@) && cfg["node_id"@].len() == 0) && cfg.dom().contains(
                "listen_addr"@,
            ) && !cfg["listen_addr"@].contains(':')) ==> config_check(required, cfg) == Err::<
                (),
                ProductionErrorView,
            >(ProductionErrorView::Configuration("listen_addr must be in format host:port"@))
            &&& config_check(required, cfg) is Ok <==> ((cfg.dom().contains("node_id"@)
                ==> cfg["node_id"@].len() > 0) && (cfg.dom().contains("listen_addr"@)
                ==> cfg["listen_addr"@].contains(':')))
        },
        (exists|i: int| 0 <= i < required.len() && !cfg.dom().contains(#[trigger] required[i]))
            ==> config_check(required, cfg) is Err,
{
    if forall|i: int| 0 <= i < required.len() ==> cfg.dom().contains(#[trigger] required[i]) {
        lemma_none_missing(required, cfg.dom(), 0);
    }
    law_config_check(required, cfg);
}

/// Persisted state is consistent exactly when it holds at least one byte;
/// state without data is refused as empty.
pub proof fn law_consistency(version: u64, data: Seq<u8>, checksum: u64)
    ensures
        consistency_check(StateDataView { version, data, checksum }) is Ok <==> data.len() >= 1,
        data.len() == 0 ==> consistency_check(StateDataView { version, data, checksum }) == Err::<
            (),
            ProductionErrorView,
        >(ProductionErrorView::State("State data is empty"@)),
{
}

/// Freshly made state data passes its checksum, and it is valid exactly when
/// it holds data.
pub proof fn law_new_state_is_intact(version: u64, data: Seq<u8>)
    ensures
        checksum_matches(StateDataView { version, data, checksum: byte_sum(data) }),
        state_is_valid(StateDataView { version, data, checksum: byte_sum(data) }) <==> data.len()
            > 0,
{
}

/// Freshly made state data passes a validator that expects its version exactly
/// when it holds data, and fails a validator that expects another version
/// with a version mismatch.
pub proof fn law_state_validation(expected: u64, version: u64, data: Seq<u8>)
    ensures
        version == expected ==> (state_check(
            expected,
            StateDataView { version, data, checksum: byte_sum(data) },
        ) is Ok <==> data.len() > 0),
        version != expected ==> state_check(
            expected,
            StateDataView { version, data, checksum: byte_sum(data) },
        ) matches Err(ProductionErrorView::State(_)),
{
}

/// The plain (unbounded) sum of the bytes.
pub open spec fn byte_total(data: Seq<u8>) -> int
    decreases data.len(),
{
    if data.len() == 0 {
        0
    } else {
        byte_total(data.drop_last()) + data.last()
    }
}

proof fn lemma_wrapping_add_mod(x: u64, y: u64)
    ensures
        x.wrapping_add(y) == ((x + y) as int) % 0x1_0000_0000_0000_0000int,
{
    if x + y > u64::MAX {
        assert(((x + y) as int) % 0x1_0000_0000_0000_0000int == x + y - 0x1_0000_0000_0000_0000int);
    } else {
        assert(((x + y) as int) % 0x1_0000_0000_0000_0000int == x + y);
    }
}

proof fn lemma_byte_sum_is_total_mod(data: Seq<u8>)
    ensures
        byte_sum(data) == byte_total(data) % 0x1_0000_0000_0000_0000int,
    decreases data.len(),
{
    if data.len() > 0 {
        let rest = data.drop_last();
        lemma_byte_sum_is_total_mod(rest);
        lemma_wrapping_add_mod(byte_sum(rest), data.last() as u64);
        vstd::arithmetic::div_mod::lemma_add_mod_noop(
            byte_total(rest),
            data.last() as int,
            0x1_0000_0000_0000_0000int,
        );
        assert((data.last() as int) % 0x1_0000_0000_0000_0000int == data.last() as int);
        assert((byte_sum(rest) as int) % 0x1_0000_0000_0000_0000int == byte_sum(rest) as int);
    }
}

proof fn lemma_byte_total_concat(a: Seq<u8>, b: Seq<u8>)
    ensures
        byte_total(a + b) == byte_total(a) + byte_total(b),
    decreases b.len(),
{
    if b.len() == 0 {
        assert(a + b =~= a);
    } else {
        assert((a + b).drop_last() =~= a + b.drop_last());
        assert((a + b).last() == b.last());
        lemma_byte_total_concat(a, b.drop_last());
    }
}

proof fn lemma_byte_total_permutation(s1: Seq<u8>, s2: Seq<u8>)
    requires
        s1.to_multiset() == s2.to_multiset(),
    ensures
        byte_total(s1) == byte_total(s2),
    decreases s1.len(),
{
    broadcast use vstd::seq_lib::group_to_multiset_ensures;

    if s1.len() == 0 {
        assert(s2.to_multiset().len() == 0);
        assert(s2.len() == 0);
    } else {
        let x = s1.last();
        let rest1 = s1.drop_last();
        assert(rest1.push(x) =~= s1);
        assert(s1.to_multiset() =~= rest1.to_multiset().insert(x));
        assert(s1.to_multiset().count(x) > 0);
        assert(s2.contains(x));
        let j = choose|j: int| 0 <= j < s2.len() && s2[j] == x;
        let rest2 = s2.remove(j);
        assert(rest2.to_multiset() =~= s2.to_multiset().remove(x));
        assert(rest1.to_multiset() =~= s1.to_multiset().remove(x));
        lemma_byte_total_permutation(rest1, rest2);
        let pre = s2.take(j);
        let post = s2.skip(j + 1);
        assert(s2 =~= pre + seq![x] + post);
        assert(rest2 =~= pre + post);
        lemma_byte_total_concat(pre + seq![x], post);
        lemma_byte_total_concat(pre, seq![x]);
        lemma_byte_total_concat(pre, post);
        assert(seq![x].drop_last() =~= Seq::<u8>::empty());
        assert(byte_total(Seq::<u8>::empty()) == 0);
        assert(byte_total(seq![x]) == x);
    }
}

/// The checksum of joined data is the wrapping sum of the checksums of its
/// parts, and reordering the bytes leaves the checksum unchanged.
pub proof fn law_checksum_concat_and_permutation(a: Seq<u8>, b: Seq<u8>)
    ensures
        byte_sum(a + b) == byte_sum(a).wrapping_add(byte_sum(b)),
        a.to_multiset() == b.to_multiset() ==> byte_sum(a) == byte_sum(b),
{
    lemma_byte_sum_is_total_mod(a);
    lemma_byte_sum_is_total_mod(b);
    lemma_byte_sum_is_total_mod(a + b);
    lemma_byte_total_concat(a, b);
    lemma_wrapping_add_mod(byte_sum(a), byte_sum(b));
    vstd::arithmetic::div_mod::lemma_add_mod_noop(
        byte_total(a),
        byte_total(b),
        0x1_0000_0000_0000_0000int,
    );
    if a.to_multiset() == b.to_multiset() {
        lemma_byte_total_permutation(a, b);
    }
}

/// Recovery succeeds exactly for state and resource errors; any other error
/// is returned as it was.
pub proof fn law_recovery(e: ProductionErrorView)
    ensures
        recovery_outcome(e) is Ok <==> (e is State || e is Resource),
        recovery_outcome(e) is Err ==> recovery_outcome(e) == Err::<(), ProductionErrorView>(e),
{
}

/// Exactly one of healthy, degraded and unhealthy holds of a performed check:
/// healthy when all four checks pass, degraded when only configuration and
/// dependencies pass, unhealthy otherwise.
pub proof fn law_check_status(
    config_valid: bool,
    deps_available: bool,
    state_valid: bool,
    resources_available: bool,
)
    ensures
        (check_status(config_valid, deps_available, state_valid, resources_available) == "Healthy"@)
            <==> (config_valid && deps_available && state_valid && resources_available),
        (check_status(config_valid, deps_available, state_valid, resources_available)
            == "Degraded"@) <==> (config_valid && deps_available && !(state_valid
            && resources_available)),
        (check_status(config_valid, deps_available, state_valid, resources_available)
            == "Unhealthy"@) <==> !(config_valid && deps_available),
{
    reveal_strlit("Healthy");
    reveal_strlit("Degraded");
    reveal_strlit("Unhealthy");
    assert("Healthy"@[0] != "Degraded"@[0]);
    assert("Healthy"@.len() != "Unhealthy"@.len());
    assert("Degraded"@[0] != "Unhealthy"@[0]);
}

/// The rendering of a configuration error starts with `Configuration error`.
pub proof fn law_configuration_error_text(msg: Seq<char>)
    ensures
        error_text(ProductionErrorView::Configuration(msg)).subrange(0, 19) == "Configuration error"@,
{
    reveal_strlit("Configuration error: ");
    reveal_strlit("Configuration error");
    assert(error_text(ProductionErrorView::Configuration(msg)).subrange(0, 19) =~= "Configuration error"@);
}

} // verus!
