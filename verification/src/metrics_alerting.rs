//! Alerting and health logic for validator monitoring: alert rule management,
//! the reading of a rule's condition, the health classification of a node and
//! its uptime.

use vstd::prelude::*;

pub mod exporter;

pub use exporter::{
    ConsensusMetrics, GaugeHandle, HistogramHandle, IntCounterHandle, IntGaugeHandle, MetricsExporter,
    MetricRegistry, Named, NetworkMetrics, StorageMetrics, SystemMetrics, ValidatorMetrics,
};

verus! {

// ---------------------------------------------------------------------------
// Alert rules
// ---------------------------------------------------------------------------

/// Alert rule configuration
#[derive(Debug, Clone)]
pub struct AlertRule {
    /// Rule name
    pub name: String,
    /// Rule description
    pub description: String,
    /// Metric name
    pub metric: String,
    /// Condition (e.g., ">", "<", "==")
    pub condition: String,
    /// Threshold value, as the IEEE-754 bit pattern of a double
    pub threshold_bits: u64,
    /// Duration (seconds)
    pub duration: u64,
    /// Severity (Info, Warning, Critical)
    pub severity: String,
    /// Enabled
    pub enabled: bool,
}

/// How a rule compares an observed value with its threshold.
#[derive(Debug, Clone, Copy, PartialEq, Eq, Structural)]
pub enum ThresholdCondition {
    /// `>`: the value exceeds the threshold
    Greater,
    /// `<`: the value is below the threshold
    Less,
    /// `>=`
    GreaterOrEqual,
    /// `<=`
    LessOrEqual,
    /// `==`: the value is within machine epsilon of the threshold
    Equal,
    /// `!=`: the value is at least machine epsilon away from the threshold
    NotEqual,
    /// Any other condition text: the rule never fires
    Unsupported,
}

/// The comparison that condition text `c` stands for.
pub open spec fn condition_of(c: Seq<char>) -> ThresholdCondition {
    if c == ">"@ {
        ThresholdCondition::Greater
    } else if c == "<"@ {
        ThresholdCondition::Less
    } else if c == ">="@ {
        ThresholdCondition::GreaterOrEqual
    } else if c == "<="@ {
        ThresholdCondition::LessOrEqual
    } else if c == "=="@ {
        ThresholdCondition::Equal
    } else if c == "!="@ {
        ThresholdCondition::NotEqual
    } else {
        ThresholdCondition::Unsupported
    }
}

impl AlertRule {
    /// The comparison that this rule's condition stands for.
    pub fn threshold_condition(&self) -> (c: ThresholdCondition)
        ensures
            c == condition_of(self.condition@),
    {
        if self.condition == String::from_str(">") {
            ThresholdCondition::Greater
        } else if self.condition == String::from_str("<") {
            ThresholdCondition::Less
        } else if self.condition == String::from_str(">=") {
            ThresholdCondition::GreaterOrEqual
        } else if self.condition == String::from_str("<=") {
            ThresholdCondition::LessOrEqual
        } else if self.condition == String::from_str("==") {
            ThresholdCondition::Equal
        } else if self.condition == String::from_str("!=") {
            ThresholdCondition::NotEqual
        } else {
            ThresholdCondition::Unsupported
        }
    }
}

/// Some rule is named `name`.
pub open spec fn has_rule_named(rules: Seq<AlertRule>, name: Seq<char>) -> bool {
    exists|i: int| 0 <= i < rules.len() && #[trigger] rules[i].name@ == name
}

/// Rule `j` is the first rule named `name`.
pub open spec fn first_named(rules: Seq<AlertRule>, name: Seq<char>, j: int) -> bool {
    &&& 0 <= j < rules.len()
    &&& rules[j].name@ == name
    &&& forall|i: int| 0 <= i < j ==> #[trigger] rules[i].name@ != name
}

/// `rule` with its enabled flag set to `flag`.
pub open spec fn with_enabled(rule: AlertRule, flag: bool) -> AlertRule {
    AlertRule { enabled: flag, ..rule }
}

/// The enabled rules, in order.
pub open spec fn enabled_rules(rules: Seq<AlertRule>) -> Seq<AlertRule> {
    rules.filter(|r: AlertRule| r.enabled)
}

/// Alert rule manager
pub struct AlertRuleManager {
    rules: Vec<AlertRule>,
}

impl View for AlertRuleManager {
    type V = Seq<AlertRule>;

    closed spec fn view(&self) -> Seq<AlertRule> {
        self.rules@
    }
}

impl AlertRuleManager {
    /// Create new alert rule manager
    pub fn new() -> (m: Self)
        ensures
            m@ == Seq::<AlertRule>::empty(),
    {
        AlertRuleManager { rules: Vec::new() }
    }

    /// Add alert rule
    pub fn add_rule(&mut self, rule: AlertRule)
        ensures
            final(self)@ == old(self)@.push(rule),
    {
        self.rules.push(rule);
    }

    /// Index of the first rule named `name`, if any.
    fn position(&self, name: &str) -> (r: Option<usize>)
        ensures
            match r {
                Some(j) => first_named(self@, name@, j as int),
                None => !has_rule_named(self@, name@),
            },
    {
        let key = String::from_str(name);
        let n = self.rules.len();
        let mut i: usize = 0;
        while i < n
            invariant
                n == self.rules@.len(),
                i <= n,
                key@ == name@,
                forall|j: int| 0 <= j < i ==> #[trigger] self.rules@[j].name@ != name@,
            decreases n - i,
        {
            if self.rules[i].name == key {
                return Some(i);
            }
            i = i + 1;
        }
        None
    }

    /// Remove alert rule: removes the first rule named `name`, and tells
    /// whether there was one.
    pub fn remove_rule(&mut self, name: &str) -> (removed: bool)
        ensures
            removed == has_rule_named(old(self)@, name@),
            removed ==> exists|j: int|
                first_named(old(self)@, name@, j) && final(self)@ == old(self)@.remove(j),
            !removed ==> final(self)@ == old(self)@,
    {
        match self.position(name) {
            Some(j) => {
                self.rules.remove(j);
                true
            },
            None => false,
        }
    }

    /// Get all rules
    pub fn get_rules(&self) -> (r: &[AlertRule])
        ensures
            r@ == self@,
    {
        self.rules.as_slice()
    }

    /// Get enabled rules, in the order they were added.
    pub fn get_enabled_rules(&self) -> (r: Vec<&AlertRule>)
        ensures
            r@.len() == enabled_rules(self@).len(),
            forall|i: int| 0 <= i < r@.len() ==> *r@[i] == enabled_rules(self@)[i],
    {
        let n = self.rules.len();
        let mut out: Vec<&AlertRule> = Vec::new();
        let mut i: usize = 0;
        while i < n
            invariant
                n == self.rules@.len(),
                i <= n,
                out@.len() == enabled_rules(self.rules@.take(i as int)).len(),
                forall|k: int|
                    0 <= k < out@.len() ==> *out@[k] == enabled_rules(self.rules@.take(i as int))[k],
            decreases n - i,
        {
            proof {
                reveal_with_fuel(Seq::<_>::filter, 1);
                assert(self.rules@.take(i + 1).drop_last() =~= self.rules@.take(i as int));
            }
            let rule = &self.rules[i];
            if rule.enabled {
                out.push(rule);
            }
            i = i + 1;
        }
        assert(self.rules@.take(n as int) =~= self.rules@);
        out
    }

    /// Sets the enabled flag of the first rule named `name`, and tells whether
    /// there was one.
    fn set_enabled(&mut self, name: &str, flag: bool) -> (found: bool)
        ensures
            found == has_rule_named(old(self)@, name@),
            found ==> exists|j: int|
                first_named(old(self)@, name@, j) && final(self)@ == old(self)@.update(
                    j,
                    with_enabled(old(self)@[j], flag),
                ),
            !found ==> final(self)@ == old(self)@,
    {
        match self.position(name) {
            Some(j) => {
                let mut rule = self.rules.remove(j);
                rule.enabled = flag;
                self.rules.insert(j, rule);
                assert(self@ =~= old(self)@.update(j as int, with_enabled(old(self)@[j as int], flag)));
                true
            },
            None => false,
        }
    }

    /// Enable rule: enables the first rule named `name`, and tells whether
    /// there was one.
    pub fn enable_rule(&mut self, name: &str) -> (found: bool)
        ensures
            found == has_rule_named(old(self)@, name@),
            found ==> exists|j: int|
                first_named(old(self)@, name@, j) && final(self)@ == old(self)@.update(
                    j,
                    with_enabled(old(self)@[j], true),
                ),
            !found ==> final(self)@ == old(self)@,
    {
        self.set_enabled(name, true)
    }

    /// Disable rule: disables the first rule named `name`, and tells whether
    /// there was one.
    pub fn disable_rule(&mut self, name: &str) -> (found: bool)
        ensures
            found == has_rule_named(old(self)@, name@),
            found ==> exists|j: int|
                first_named(old(self)@, name@, j) && final(self)@ == old(self)@.update(
                    j,
                    with_enabled(old(self)@[j], false),
                ),
            !found ==> final(self)@ == old(self)@,
    {
        self.set_enabled(name, false)
    }
}

impl Default for AlertRuleManager {
    fn default() -> (m: Self)
        ensures
            m@ == Seq::<AlertRule>::empty(),
    {
        Self::new()
    }
}

/// Removing a rule by its name right after adding it, when no rule had that
/// name before, gives back the rules as they were.
pub proof fn law_remove_undoes_add(rules: Seq<AlertRule>, rule: AlertRule)
    requires
        !has_rule_named(rules, rule.name@),
    ensures
        has_rule_named(rules.push(rule), rule.name@),
        first_named(rules.push(rule), rule.name@, rules.len() as int),
        forall|j: int| first_named(rules.push(rule), rule.name@, j) ==> rules.push(rule).remove(j) == rules,
{
    let added = rules.push(rule);
    assert(added[rules.len() as int].name@ == rule.name@);
    assert forall|i: int| 0 <= i < rules.len() implies #[trigger] added[i].name@ != rule.name@ by {
        assert(added[i] == rules[i]);
    }
    assert forall|j: int| first_named(added, rule.name@, j) implies added.remove(j) == rules by {
        if j < rules.len() {
            assert(added[j] == rules[j]);
        }
        assert(j == rules.len());
        assert(added.remove(j) =~= rules);
    }
}

/// Enabling or disabling a rule leaves every name in place, so the same rule
/// is found by name afterwards; disabling an enabled rule and enabling it
/// again gives back the rules as they were.
pub proof fn law_disable_then_enable(rules: Seq<AlertRule>, name: Seq<char>, j: int, flag: bool)
    requires
        first_named(rules, name, j),
    ensures
        first_named(rules.update(j, with_enabled(rules[j], flag)), name, j),
        rules[j].enabled ==> rules.update(j, with_enabled(rules[j], false)).update(
            j,
            with_enabled(rules.update(j, with_enabled(rules[j], false))[j], true),
        ) == rules,
{
    let updated = rules.update(j, with_enabled(rules[j], flag));
    assert forall|i: int| 0 <= i < j implies #[trigger] updated[i].name@ != name by {
        assert(updated[i] == rules[i]);
    }
    if rules[j].enabled {
        let off = rules.update(j, with_enabled(rules[j], false));
        let on = off.update(j, with_enabled(off[j], true));
        assert(on[j] == rules[j]);
        assert(on =~= rules);
    }
}

/// The enabled rules after adding a rule are the enabled rules before, followed
/// by the new rule when it is enabled.
pub proof fn law_enabled_after_add(rules: Seq<AlertRule>, rule: AlertRule)
    ensures
        enabled_rules(rules.push(rule)) == (if rule.enabled {
            enabled_rules(rules).push(rule)
        } else {
            enabled_rules(rules)
        }),
{
    reveal_with_fuel(Seq::<_>::filter, 1);
    assert(rules.push(rule).drop_last() =~= rules);
}

// ---------------------------------------------------------------------------
// Health checking
// ---------------------------------------------------------------------------

/// Memory use above which a node is unhealthy: 16 GiB.
pub const MEMORY_CRITICAL_BYTES: u64 = 17179869184u64;

/// The overall health of a node.
#[derive(Debug, Clone, Copy, PartialEq, Eq, Structural)]
pub enum HealthLevel {
    /// Everything within its limits
    Healthy,
    /// Working, with a warning
    Degraded,
    /// CPU or memory critical
    Unhealthy,
}

/// The health of a node from its validator counts, memory use and the three
/// readings of its gauges: CPU above 90%, CPU above 80%, participation below
/// 80%.
pub open spec fn health_level(
    validator_count: usize,
    critical_validators: usize,
    memory_usage: u64,
    cpu_above_critical: bool,
    cpu_above_warning: bool,
    participation_low: bool,
) -> HealthLevel {
    if cpu_above_critical || memory_usage > MEMORY_CRITICAL_BYTES {
        HealthLevel::Unhealthy
    } else if critical_validators > validator_count / 3 || participation_low || cpu_above_warning {
        HealthLevel::Degraded
    } else {
        HealthLevel::Healthy
    }
}

/// The label of a health level.
pub open spec fn health_label(level: HealthLevel) -> Seq<char> {
    match level {
        HealthLevel::Healthy => "Healthy"@,
        HealthLevel::Degraded => "Degraded"@,
        HealthLevel::Unhealthy => "Unhealthy"@,
    }
}

impl HealthLevel {
    /// The label of this level: `Healthy`, `Degraded` or `Unhealthy`.
    pub fn label(&self) -> (s: String)
        ensures
            s@ == health_label(*self),
    {
        match self {
            HealthLevel::Healthy => String::from_str("Healthy"),
            HealthLevel::Degraded => String::from_str("Degraded"),
            HealthLevel::Unhealthy => String::from_str("Unhealthy"),
        }
    }
}

/// Seconds elapsed from `start` to `now`, zero when `now` is earlier.
pub open spec fn elapsed(start: u64, now: u64) -> u64 {
    if now >= start { (now - start) as u64 } else { 0 }
}

#[verifier::external_type_specification]
#[verifier::external_body]
pub struct ExSystemTime(std::time::SystemTime);

#[verifier::external_type_specification]
#[verifier::external_body]
pub struct ExSystemTimeError(std::time::SystemTimeError);

/// The current time by `std::time::SystemTime::now`. It depends on the clock,
/// so nothing is stated of it.
#[verifier::external_body]
fn system_time_now() -> (t: std::time::SystemTime) {
    std::time::SystemTime::now()
}

/// The time elapsed from the Unix epoch to `t` by `SystemTime::duration_since`,
/// an error when `t` is earlier. Nothing is stated of it: a `SystemTime` is
/// opaque here.
#[verifier::external_body]
fn since_unix_epoch(t: &std::time::SystemTime) -> (r: Result<std::time::Duration, std::time::SystemTimeError>) {
    t.duration_since(std::time::UNIX_EPOCH)
}

/// The whole seconds of `d` by `Duration::as_secs`. Nothing is stated of it:
/// a `Duration` is opaque here.
#[verifier::external_body]
fn whole_seconds(d: &std::time::Duration) -> (s: u64) {
    d.as_secs()
}

/// Seconds since the Unix epoch by the system clock, zero when the clock is
/// set before the epoch. The reading depends on the clock, so nothing is
/// stated of it.
fn unix_time_secs() -> (t: u64) {
    let now = system_time_now();
    match since_unix_epoch(&now) {
        Ok(d) => whole_seconds(&d),
        Err(_) => 0,
    }
}

/// The outcome of a health check, with the integer readings it was taken from.
#[derive(Debug, Clone, Copy, PartialEq, Eq, Structural)]
pub struct HealthReport {
    /// Overall health
    pub status: HealthLevel,
    /// When the check was taken (Unix seconds)
    pub timestamp: u64,
    /// Validators registered
    pub validator_count: usize,
    /// Active validators
    pub active_validators: usize,
    /// Validators with critical alerts
    pub critical_validators: usize,
    /// Peers connected
    pub peers_connected: usize,
    /// Database size (bytes)
    pub database_size: u64,
    /// Memory usage (bytes)
    pub memory_usage: u64,
}

/// Health checker
pub struct HealthChecker {
    start_time: u64,
}

impl HealthChecker {
    /// The time (Unix seconds) at which the checker was created.
    pub closed spec fn started_at(&self) -> u64 {
        self.start_time
    }

    /// Create new health checker, started now.
    pub fn new() -> (c: Self) {
        Self::with_start_time(unix_time_secs())
    }

    /// A health checker started at `start_time` (Unix seconds).
    pub fn with_start_time(start_time: u64) -> (c: Self)
        ensures
            c.started_at() == start_time,
    {
        HealthChecker { start_time }
    }

    /// Classifies the health of a node: unhealthy when CPU is above 90% or
    /// memory use is above 16 GiB; degraded when more than a third of the
    /// validators are critical, participation is below 80% or CPU is above
    /// 80%; healthy otherwise. Critical validators alone never make a node
    /// unhealthy: with some of them critical, but no more than a third, and
    /// everything else within its limits, the node is healthy.
    pub fn health_level(
        &self,
        validator_count: usize,
        critical_validators: usize,
        memory_usage: u64,
        cpu_above_critical: bool,
        cpu_above_warning: bool,
        participation_low: bool,
    ) -> (level: HealthLevel)
        ensures
            level == health_level(
                validator_count,
                critical_validators,
                memory_usage,
                cpu_above_critical,
                cpu_above_warning,
                participation_low,
            ),
    {
        if cpu_above_critical || memory_usage > MEMORY_CRITICAL_BYTES {
            HealthLevel::Unhealthy
        } else if critical_validators > validator_count / 3 || participation_low || cpu_above_warning {
            HealthLevel::Degraded
        } else {
            HealthLevel::Healthy
        }
    }

    /// A health check taken now by the system clock: the health level of the
    /// readings, stamped with the time, together with the integer readings
    /// it was taken from. The time depends on the clock and is not stated.
    #[allow(clippy::too_many_arguments)]
    pub fn health_report(
        &self,
        validator_count: usize,
        active_validators: usize,
        critical_validators: usize,
        peers_connected: usize,
        database_size: u64,
        memory_usage: u64,
        cpu_above_critical: bool,
        cpu_above_warning: bool,
        participation_low: bool,
    ) -> (r: HealthReport)
        ensures
            r.status == health_level(
                validator_count,
                critical_validators,
                memory_usage,
                cpu_above_critical,
                cpu_above_warning,
                participation_low,
            ),
            r.validator_count == validator_count,
            r.active_validators == active_validators,
            r.critical_validators == critical_validators,
            r.peers_connected == peers_connected,
            r.database_size == database_size,
            r.memory_usage == memory_usage,
    {
        let status = self.health_level(
            validator_count,
            critical_validators,
            memory_usage,
            cpu_above_critical,
            cpu_above_warning,
            participation_low,
        );
        HealthReport {
            status,
            timestamp: unix_time_secs(),
            validator_count,
            active_validators,
            critical_validators,
            peers_connected,
            database_size,
            memory_usage,
        }
    }

    /// Uptime in seconds at time `now` (Unix seconds).
    pub fn uptime_at(&self, now: u64) -> (u: u64)
        ensures
            u == elapsed(self.started_at(), now),
    {
        now.saturating_sub(self.start_time)
    }

    /// Get uptime (seconds), by the system clock.
    pub fn get_uptime(&self) -> (u: u64)
        ensures
            exists|now: u64| u == elapsed(self.started_at(), now),
    {
        let now = unix_time_secs();
        self.uptime_at(now)
    }
}

impl Default for HealthChecker {
    fn default() -> (c: Self) {
        Self::new()
    }
}

/// A node is unhealthy exactly when its CPU or memory is critical; a node
/// that is not unhealthy is degraded exactly when more than a third of its
/// validators are critical, participation is low or CPU is high; it is
/// healthy otherwise.
pub proof fn law_health_level(
    validator_count: usize,
    critical_validators: usize,
    memory_usage: u64,
    cpu_above_critical: bool,
    cpu_above_warning: bool,
    participation_low: bool,
)
    ensures
        (health_level(
            validator_count,
            critical_validators,
            memory_usage,
            cpu_above_critical,
            cpu_above_warning,
            participation_low,
        ) == HealthLevel::Unhealthy) <==> (cpu_above_critical || memory_usage
            > MEMORY_CRITICAL_BYTES),
        (health_level(
            validator_count,
            critical_validators,
            memory_usage,
            cpu_above_critical,
            cpu_above_warning,
            participation_low,
        ) == HealthLevel::Degraded) <==> (!cpu_above_critical && memory_usage
            <= MEMORY_CRITICAL_BYTES && (critical_validators > validator_count / 3
            || participation_low || cpu_above_warning)),
        (health_level(
            validator_count,
            critical_validators,
            memory_usage,
            cpu_above_critical,
            cpu_above_warning,
            participation_low,
        ) == HealthLevel::Healthy) <==> (!cpu_above_critical && !cpu_above_warning
            && !participation_low && memory_usage <= MEMORY_CRITICAL_BYTES && critical_validators
            <= validator_count / 3),
{
}

/// Uptime never goes backwards while the clock does not, and is zero at the
/// start.
pub proof fn law_uptime_monotonic(start: u64, t1: u64, t2: u64)
    requires
        t1 <= t2,
    ensures
        elapsed(start, t1) <= elapsed(start, t2),
        elapsed(start, start) == 0,
{
}

/// Uptime is the whole time since the start, however long the node has been
/// up, and zero when the clock reads earlier than the start.
pub proof fn law_uptime_is_time_since_start(start: u64, now: u64)
    ensures
        now >= start ==> elapsed(start, now) == now - start,
        now < start ==> elapsed(start, now) == 0,
        elapsed(start, now) + start >= now,
{
}

} // verus!
