//! Prometheus metric sets of a validator node and their export.

use vstd::prelude::*;

verus! {

#[verifier::external_type_specification]
#[verifier::external_body]
pub struct ExRegistry(prometheus::Registry);

#[verifier::external_type_specification]
#[verifier::external_body]
pub struct ExPrometheusError(prometheus::Error);

#[verifier::external_type_specification]
#[verifier::external_body]
pub struct ExMetricFamily(prometheus::proto::MetricFamily);

/// A character that may start a Prometheus metric name: `[a-zA-Z_:]`.
pub open spec fn is_metric_name_start(c: char) -> bool {
    let v = c as u32;
    (65 <= v && v <= 90) || (97 <= v && v <= 122) || v == 95 || v == 58
}

/// A character that may follow in a Prometheus metric name: `[a-zA-Z0-9_:]`.
pub open spec fn is_metric_name_char(c: char) -> bool {
    let v = c as u32;
    is_metric_name_start(c) || (48 <= v && v <= 57)
}

/// A valid Prometheus metric name: `^[a-zA-Z_:][a-zA-Z0-9_:]*$`.
pub open spec fn valid_metric_name(name: Seq<char>) -> bool {
    &&& name.len() > 0
    &&& is_metric_name_start(name[0])
    &&& forall|i: int| 1 <= i < name.len() ==> is_metric_name_char(#[trigger] name[i])
}

/// Prometheus accepts a metric with this name and help text.
pub open spec fn metric_opts_accepted(name: Seq<char>, help: Seq<char>) -> bool {
    help.len() > 0 && valid_metric_name(name)
}

/// The descriptor id that prometheus gives a metric named `name` without
/// constant labels. `Desc::new` computes it as an unseeded FNV-1a hash of the
/// name's bytes followed by a separator byte, so it depends on the name alone;
/// distinct names may in principle share an id.
pub uninterp spec fn metric_descriptor_id(name: Seq<char>) -> u64;

/// Some metric among `registered` has the descriptor id `id`.
pub open spec fn id_registered(registered: Seq<Seq<char>>, id: u64) -> bool {
    exists|j: int| 0 <= j < registered.len() && metric_descriptor_id(#[trigger] registered[j]) == id
}

/// A metric named `name` can join a registry holding the metrics `registered`:
/// none of them has its descriptor id.
pub open spec fn registers_freshly(registered: Seq<Seq<char>>, name: Seq<char>) -> bool {
    !id_registered(registered, metric_descriptor_id(name))
}

/// Registering `names` one after another into a registry holding `start`
/// succeeds for each of the first `k` of them.
pub open spec fn registers_first(start: Seq<Seq<char>>, names: Seq<Seq<char>>, k: int) -> bool {
    forall|j: int| 0 <= j < k ==> #[trigger] registers_freshly(start + names.take(j), names[j])
}

/// Registering `names` one after another into a registry holding `start`
/// succeeds for every one of them.
pub open spec fn registers_cleanly(start: Seq<Seq<char>>, names: Seq<Seq<char>>) -> bool {
    registers_first(start, names, names.len() as int)
}

/// Registering `names` one after another into a registry holding `start`
/// stops at the first name that clashes, leaving the registry holding `end`.
pub open spec fn registration_stops(start: Seq<Seq<char>>, names: Seq<Seq<char>>, end: Seq<Seq<char>>) -> bool {
    exists|k: int|
        0 <= k < names.len() && registers_first(start, names, k) && !registers_freshly(
            start + names.take(k),
            #[trigger] names[k],
        ) && end == start + names.take(k)
}

/// A Prometheus registry, with the names of the metrics registered in it in
/// the order they were registered. Only this module registers metrics in it,
/// and only metrics with a single descriptor.
pub struct MetricRegistry {
    registry: prometheus::Registry,
    names: Ghost<Seq<Seq<char>>>,
}

impl View for MetricRegistry {
    type V = Seq<Seq<char>>;

    closed spec fn view(&self) -> Seq<Seq<char>> {
        self.names@
    }
}

/// Creates an empty registry by `Registry::new`. The record of names is ghost.
#[verifier::external_body]
fn new_prometheus_registry() -> (r: MetricRegistry)
    ensures
        r@ == Seq::<Seq<char>>::empty(),
{
    MetricRegistry { registry: prometheus::Registry::new(), names: Ghost(Seq::empty()) }
}

impl MetricRegistry {
    /// An empty registry.
    pub fn new() -> (r: MetricRegistry)
        ensures
            r@ == Seq::<Seq<char>>::empty(),
    {
        new_prometheus_registry()
    }
}

/// A metric together with the name and help text it was created with. Only
/// the constructors of this module make one.
pub struct Named<H> {
    handle: H,
    name: String,
    help: String,
}

impl<H> Named<H> {
    /// The metric.
    pub closed spec fn metric(&self) -> H {
        self.handle
    }

    /// The name the metric was created with.
    pub closed spec fn metric_name(&self) -> Seq<char> {
        self.name@
    }

    /// The help text the metric was created with.
    pub closed spec fn metric_help(&self) -> Seq<char> {
        self.help@
    }

    /// The metric.
    pub fn handle(&self) -> (h: &H)
        ensures
            *h == self.metric(),
    {
        &self.handle
    }

    /// The name the metric was created with.
    pub fn name(&self) -> (s: &str)
        ensures
            s@ == self.metric_name(),
    {
        self.name.as_str()
    }

    /// The help text the metric was created with.
    pub fn help(&self) -> (s: &str)
        ensures
            s@ == self.metric_help(),
    {
        self.help.as_str()
    }
}

/// An integer gauge.
#[verifier::external_body]
pub struct IntGaugeHandle {
    /// The Prometheus metric
    pub inner: prometheus::IntGauge,
}

/// Creates a metric by `prometheus::IntGauge::new`. By the crate's source it fails exactly
/// when the help text is empty or the name is not a valid metric name; the
/// metric keeps the name and help text it was given.
#[verifier::external_body]
fn new_int_gauge(name: &str, help: &str) -> (r: Result<Named<IntGaugeHandle>, prometheus::Error>)
    ensures
        r is Ok <==> metric_opts_accepted(name@, help@),
        r is Ok ==> r->Ok_0.metric_name() == name@ && r->Ok_0.metric_help() == help@,
{
    match prometheus::IntGauge::new(name, help) {
        Ok(inner) => Ok(Named { handle: IntGaugeHandle { inner }, name: name.to_string(), help: help.to_string() }),
        Err(e) => Err(e),
    }
}

/// Registers the metric by `Registry::register`. By the crate's source, a
/// metric with a single descriptor is refused exactly when the registry
/// already holds a descriptor with the same id, and the registry is then left
/// as it was; otherwise the metric joins it.
#[verifier::external_body]
fn register_int_gauge(registry: &mut MetricRegistry, m: &Named<IntGaugeHandle>) -> (r: Result<(), prometheus::Error>)
    ensures
        r is Ok <==> !id_registered(old(registry)@, metric_descriptor_id(m.metric_name())),
        r is Ok ==> final(registry)@ == old(registry)@.push(m.metric_name()),
        r is Err ==> final(registry)@ == old(registry)@,
{
    registry.registry.register(Box::new(m.handle.inner.clone()))
}

/// A gauge.
#[verifier::external_body]
pub struct GaugeHandle {
    /// The Prometheus metric
    pub inner: prometheus::Gauge,
}

/// Creates a metric by `prometheus::Gauge::new`. By the crate's source it fails exactly
/// when the help text is empty or the name is not a valid metric name; the
/// metric keeps the name and help text it was given.
#[verifier::external_body]
fn new_gauge(name: &str, help: &str) -> (r: Result<Named<GaugeHandle>, prometheus::Error>)
    ensures
        r is Ok <==> metric_opts_accepted(name@, help@),
        r is Ok ==> r->Ok_0.metric_name() == name@ && r->Ok_0.metric_help() == help@,
{
    match prometheus::Gauge::new(name, help) {
        Ok(inner) => Ok(Named { handle: GaugeHandle { inner }, name: name.to_string(), help: help.to_string() }),
        Err(e) => Err(e),
    }
}

/// Registers the metric by `Registry::register`. By the crate's source, a
/// metric with a single descriptor is refused exactly when the registry
/// already holds a descriptor with the same id, and the registry is then left
/// as it was; otherwise the metric joins it.
#[verifier::external_body]
fn register_gauge(registry: &mut MetricRegistry, m: &Named<GaugeHandle>) -> (r: Result<(), prometheus::Error>)
    ensures
        r is Ok <==> !id_registered(old(registry)@, metric_descriptor_id(m.metric_name())),
        r is Ok ==> final(registry)@ == old(registry)@.push(m.metric_name()),
        r is Err ==> final(registry)@ == old(registry)@,
{
    registry.registry.register(Box::new(m.handle.inner.clone()))
}

/// An integer counter.
#[verifier::external_body]
pub struct IntCounterHandle {
    /// The Prometheus metric
    pub inner: prometheus::IntCounter,
}

/// Creates a metric by `prometheus::IntCounter::new`. By the crate's source it fails exactly
/// when the help text is empty or the name is not a valid metric name; the
/// metric keeps the name and help text it was given.
#[verifier::external_body]
fn new_int_counter(name: &str, help: &str) -> (r: Result<Named<IntCounterHandle>, prometheus::Error>)
    ensures
        r is Ok <==> metric_opts_accepted(name@, help@),
        r is Ok ==> r->Ok_0.metric_name() == name@ && r->Ok_0.metric_help() == help@,
{
    match prometheus::IntCounter::new(name, help) {
        Ok(inner) => Ok(Named { handle: IntCounterHandle { inner }, name: name.to_string(), help: help.to_string() }),
        Err(e) => Err(e),
    }
}

/// Registers the metric by `Registry::register`. By the crate's source, a
/// metric with a single descriptor is refused exactly when the registry
/// already holds a descriptor with the same id, and the registry is then left
/// as it was; otherwise the metric joins it.
#[verifier::external_body]
fn register_int_counter(registry: &mut MetricRegistry, m: &Named<IntCounterHandle>) -> (r: Result<(), prometheus::Error>)
    ensures
        r is Ok <==> !id_registered(old(registry)@, metric_descriptor_id(m.metric_name())),
        r is Ok ==> final(registry)@ == old(registry)@.push(m.metric_name()),
        r is Err ==> final(registry)@ == old(registry)@,
{
    registry.registry.register(Box::new(m.handle.inner.clone()))
}

/// A histogram with the default buckets.
#[verifier::external_body]
pub struct HistogramHandle {
    /// The Prometheus metric
    pub inner: prometheus::Histogram,
}

/// Creates a metric by `prometheus::Histogram::with_opts`. By the crate's source it fails exactly
/// when the help text is empty or the name is not a valid metric name; the
/// metric keeps the name and help text it was given.
#[verifier::external_body]
fn new_histogram(name: &str, help: &str) -> (r: Result<Named<HistogramHandle>, prometheus::Error>)
    ensures
        r is Ok <==> metric_opts_accepted(name@, help@),
        r is Ok ==> r->Ok_0.metric_name() == name@ && r->Ok_0.metric_help() == help@,
{
    match prometheus::Histogram::with_opts(prometheus::HistogramOpts::new(name, help)) {
        Ok(inner) => Ok(Named { handle: HistogramHandle { inner }, name: name.to_string(), help: help.to_string() }),
        Err(e) => Err(e),
    }
}

/// Registers the metric by `Registry::register`. By the crate's source, a
/// metric with a single descriptor is refused exactly when the registry
/// already holds a descriptor with the same id, and the registry is then left
/// as it was; otherwise the metric joins it.
#[verifier::external_body]
fn register_histogram(registry: &mut MetricRegistry, m: &Named<HistogramHandle>) -> (r: Result<(), prometheus::Error>)
    ensures
        r is Ok <==> !id_registered(old(registry)@, metric_descriptor_id(m.metric_name())),
        r is Ok ==> final(registry)@ == old(registry)@.push(m.metric_name()),
        r is Err ==> final(registry)@ == old(registry)@,
{
    registry.registry.register(Box::new(m.handle.inner.clone()))
}

/// A reference to a metric of any of the four kinds.
enum MetricRef<'a> {
    IntGauge(&'a Named<IntGaugeHandle>),
    Gauge(&'a Named<GaugeHandle>),
    IntCounter(&'a Named<IntCounterHandle>),
    Histogram(&'a Named<HistogramHandle>),
}

impl<'a> MetricRef<'a> {
    /// The name the metric was created with.
    spec fn metric_name(&self) -> Seq<char> {
        match *self {
            MetricRef::IntGauge(m) => m.metric_name(),
            MetricRef::Gauge(m) => m.metric_name(),
            MetricRef::IntCounter(m) => m.metric_name(),
            MetricRef::Histogram(m) => m.metric_name(),
        }
    }
}

/// The names of `metrics`, in order.
spec fn names_of<'a>(metrics: Seq<MetricRef<'a>>) -> Seq<Seq<char>> {
    metrics.map_values(|m: MetricRef<'a>| m.metric_name())
}

/// Registers `metrics` with `registry` one after another, stopping at the
/// first that the registry refuses.
fn register_all(registry: &mut MetricRegistry, metrics: &Vec<MetricRef>) -> (r: Result<(), prometheus::Error>)
    ensures
        r is Ok <==> registers_cleanly(old(registry)@, names_of(metrics@)),
        r is Ok ==> final(registry)@ == old(registry)@ + names_of(metrics@),
        r is Err ==> registration_stops(old(registry)@, names_of(metrics@), final(registry)@),
{
    let ghost start = registry@;
    let ghost names = names_of(metrics@);
    let mut i: usize = 0;
    while i < metrics.len()
        invariant
            0 <= i <= metrics.len(),
            names == names_of(metrics@),
            start == old(registry)@,
            registry@ == start + names.take(i as int),
            registers_first(start, names, i as int),
        decreases metrics.len() - i,
    {
        let res = match &metrics[i] {
            MetricRef::IntGauge(m) => register_int_gauge(registry, m),
            MetricRef::Gauge(m) => register_gauge(registry, m),
            MetricRef::IntCounter(m) => register_int_counter(registry, m),
            MetricRef::Histogram(m) => register_histogram(registry, m),
        };
        proof {
            assert(names[i as int] == metrics@[i as int].metric_name());
        }
        match res {
            Ok(()) => {},
            Err(e) => {
                assert(!registers_freshly(start + names.take(i as int), names[i as int]));
                return Err(e);
            },
        }
        proof {
            assert(start + names.take(i + 1) =~= (start + names.take(i as int)).push(names[i as int]));
            assert forall|j: int| 0 <= j < i + 1 implies #[trigger] registers_freshly(
                start + names.take(j),
                names[j],
            ) by {
                if j == i {
                    assert(registers_freshly(start + names.take(i as int), names[i as int]));
                }
            }
        }
        i = i + 1;
    }
    proof {
        assert(names.take(names.len() as int) =~= names);
    }
    Ok(())
}

/// Registering `a` and then `b` succeeds throughout exactly when registering
/// `a + b` does.
pub proof fn lemma_registers_cleanly_concat(start: Seq<Seq<char>>, a: Seq<Seq<char>>, b: Seq<Seq<char>>)
    ensures
        registers_cleanly(start, a + b) <==> (registers_cleanly(start, a) && registers_cleanly(start + a, b)),
{
    let ab = a + b;
    assert forall|j: int| 0 <= j < a.len() implies ab.take(j) == a.take(j) && ab[j] == a[j] by {
        assert(ab.take(j) =~= a.take(j));
    }
    assert forall|i: int| 0 <= i < b.len() implies start + ab.take(a.len() + i) == (start + a) + b.take(i)
        && ab[a.len() + i] == b[i] by {
        assert(start + ab.take(a.len() + i) =~= (start + a) + b.take(i));
    }
    if registers_cleanly(start, ab) {
        assert forall|j: int| 0 <= j < a.len() implies #[trigger] registers_freshly(start + a.take(j), a[j]) by {
            assert(registers_freshly(start + ab.take(j), ab[j]));
        }
        assert forall|i: int| 0 <= i < b.len() implies #[trigger] registers_freshly((start + a) + b.take(i), b[i]) by {
            let j = a.len() + i;
            assert(registers_freshly(start + ab.take(j), ab[j]));
        }
    }
    if registers_cleanly(start, a) && registers_cleanly(start + a, b) {
        assert forall|j: int| 0 <= j < ab.len() implies #[trigger] registers_freshly(start + ab.take(j), ab[j]) by {
            if j < a.len() {
                assert(registers_freshly(start + a.take(j), a[j]));
            } else {
                let i = j - a.len();
                assert(registers_freshly((start + a) + b.take(i), b[i]));
            }
        }
    }
}

/// Metrics all register, one after another, exactly when their descriptor
/// ids differ from each other and from every id already in the registry.
pub proof fn law_registration_succeeds_iff_ids_distinct(start: Seq<Seq<char>>, names: Seq<Seq<char>>)
    ensures
        registers_cleanly(start, names) <==> ((forall|i: int, j: int|
            0 <= i < j < names.len() ==> metric_descriptor_id(#[trigger] names[i]) != metric_descriptor_id(
                #[trigger] names[j],
            )) && (forall|i: int|
            0 <= i < names.len() ==> !id_registered(start, metric_descriptor_id(#[trigger] names[i])))),
{
    assert forall|j: int, m: int| 0 <= j < names.len() && 0 <= m < start.len() + j implies #[trigger] (start
        + names.take(j))[m] == if m < start.len() {
        start[m]
    } else {
        names[m - start.len()]
    } by {}
    if registers_cleanly(start, names) {
        assert forall|i: int, j: int| 0 <= i < j < names.len() implies metric_descriptor_id(#[trigger] names[i])
            != metric_descriptor_id(#[trigger] names[j]) by {
            assert(registers_freshly(start + names.take(j), names[j]));
            assert((start + names.take(j))[start.len() + i] == names[i]);
        }
        assert forall|i: int| 0 <= i < names.len() implies !id_registered(
            start,
            metric_descriptor_id(#[trigger] names[i]),
        ) by {
            assert(registers_freshly(start + names.take(i), names[i]));
            if id_registered(start, metric_descriptor_id(names[i])) {
                let m = choose|m: int|
                    0 <= m < start.len() && metric_descriptor_id(#[trigger] start[m]) == metric_descriptor_id(
                        names[i],
                    );
                assert((start + names.take(i))[m] == start[m]);
            }
        }
    }
    if (forall|i: int, j: int|
        0 <= i < j < names.len() ==> metric_descriptor_id(#[trigger] names[i]) != metric_descriptor_id(
            #[trigger] names[j],
        )) && (forall|i: int|
        0 <= i < names.len() ==> !id_registered(start, metric_descriptor_id(#[trigger] names[i]))) {
        assert forall|j: int| 0 <= j < names.len() implies #[trigger] registers_freshly(
            start + names.take(j),
            names[j],
        ) by {
            let reg = start + names.take(j);
            if id_registered(reg, metric_descriptor_id(names[j])) {
                let m = choose|m: int|
                    0 <= m < reg.len() && metric_descriptor_id(#[trigger] reg[m]) == metric_descriptor_id(
                        names[j],
                    );
                if m < start.len() {
                    assert(reg[m] == start[m]);
                    assert(id_registered(start, metric_descriptor_id(names[j])));
                } else {
                    let i = m - start.len();
                    assert(reg[m] == names[i]);
                }
            }
        }
    }
}


/// Prometheus metrics for validator monitoring
pub struct ValidatorMetrics {
    /// Total validators registered
    pub total_validators: Named<IntGaugeHandle>,
    /// Active validators
    pub active_validators: Named<IntGaugeHandle>,
    /// Jailed validators
    pub jailed_validators: Named<IntGaugeHandle>,
    /// Average participation rate
    pub avg_participation_rate: Named<GaugeHandle>,
    /// Average uptime percentage
    pub avg_uptime_percentage: Named<GaugeHandle>,
    /// Average response time (ms)
    pub avg_response_time_ms: Named<GaugeHandle>,
    /// Validators with critical alerts
    pub critical_validators: Named<IntGaugeHandle>,
    /// Validators with warning alerts
    pub warning_validators: Named<IntGaugeHandle>,
    /// Total alerts generated
    pub total_alerts: Named<IntCounterHandle>,
    /// Critical alerts
    pub critical_alerts: Named<IntCounterHandle>,
    /// Warning alerts
    pub warning_alerts: Named<IntCounterHandle>,
}

impl ValidatorMetrics {
    /// The names this set creates its metrics with, in field order.
    pub open spec fn metric_names() -> Seq<Seq<char>> {
        seq!["validator_total_count"@, "validator_active_count"@, "validator_jailed_count"@, "validator_avg_participation_rate"@, "validator_avg_uptime_percentage"@, "validator_avg_response_time_ms"@, "validator_critical_count"@, "validator_warning_count"@, "validator_total_alerts"@, "validator_critical_alerts"@, "validator_warning_alerts"@]
    }

    /// The help texts this set creates its metrics with, in field order.
    pub open spec fn metric_helps() -> Seq<Seq<char>> {
        seq!["Total validators"@, "Active validators"@, "Jailed validators"@, "Average participation rate"@, "Average uptime percentage"@, "Average response time (ms)"@, "Validators with critical alerts"@, "Validators with warning alerts"@, "Total alerts generated"@, "Critical alerts"@, "Warning alerts"@]
    }

    /// The names of the metrics, in field order.
    pub open spec fn names(&self) -> Seq<Seq<char>> {
        seq![self.total_validators.metric_name(), self.active_validators.metric_name(), self.jailed_validators.metric_name(), self.avg_participation_rate.metric_name(), self.avg_uptime_percentage.metric_name(), self.avg_response_time_ms.metric_name(), self.critical_validators.metric_name(), self.warning_validators.metric_name(), self.total_alerts.metric_name(), self.critical_alerts.metric_name(), self.warning_alerts.metric_name()]
    }

    /// The help texts of the metrics, in field order.
    pub open spec fn helps(&self) -> Seq<Seq<char>> {
        seq![self.total_validators.metric_help(), self.active_validators.metric_help(), self.jailed_validators.metric_help(), self.avg_participation_rate.metric_help(), self.avg_uptime_percentage.metric_help(), self.avg_response_time_ms.metric_help(), self.critical_validators.metric_help(), self.warning_validators.metric_help(), self.total_alerts.metric_help(), self.critical_alerts.metric_help(), self.warning_alerts.metric_help()]
    }

    /// Creates the metrics, then registers them with `registry` in field
    /// order, stopping at the first that the registry refuses.
    pub fn new(registry: &mut MetricRegistry) -> (r: Result<Self, prometheus::Error>)
        ensures
            r is Ok <==> registers_cleanly(old(registry)@, Self::metric_names()),
            r is Ok ==> final(registry)@ == old(registry)@ + Self::metric_names(),
            r is Ok ==> r->Ok_0.names() == Self::metric_names(),
            r is Ok ==> r->Ok_0.helps() == Self::metric_helps(),
            r is Err ==> registration_stops(old(registry)@, Self::metric_names(), final(registry)@),
    {
        proof {
            reveal_strlit("validator_total_count");
            reveal_strlit("Total validators");
            reveal_strlit("validator_active_count");
            reveal_strlit("Active validators");
            reveal_strlit("validator_jailed_count");
            reveal_strlit("Jailed validators");
            reveal_strlit("validator_avg_participation_rate");
            reveal_strlit("Average participation rate");
            reveal_strlit("validator_avg_uptime_percentage");
            reveal_strlit("Average uptime percentage");
            reveal_strlit("validator_avg_response_time_ms");
            reveal_strlit("Average response time (ms)");
            reveal_strlit("validator_critical_count");
            reveal_strlit("Validators with critical alerts");
            reveal_strlit("validator_warning_count");
            reveal_strlit("Validators with warning alerts");
            reveal_strlit("validator_total_alerts");
            reveal_strlit("Total alerts generated");
            reveal_strlit("validator_critical_alerts");
            reveal_strlit("Critical alerts");
            reveal_strlit("validator_warning_alerts");
            reveal_strlit("Warning alerts");
        }
        let total_validators = new_int_gauge("validator_total_count", "Total validators")?;
        let active_validators = new_int_gauge("validator_active_count", "Active validators")?;
        let jailed_validators = new_int_gauge("validator_jailed_count", "Jailed validators")?;
        let avg_participation_rate = new_gauge("validator_avg_participation_rate", "Average participation rate")?;
        let avg_uptime_percentage = new_gauge("validator_avg_uptime_percentage", "Average uptime percentage")?;
        let avg_response_time_ms = new_gauge("validator_avg_response_time_ms", "Average response time (ms)")?;
        let critical_validators = new_int_gauge("validator_critical_count", "Validators with critical alerts")?;
        let warning_validators = new_int_gauge("validator_warning_count", "Validators with warning alerts")?;
        let total_alerts = new_int_counter("validator_total_alerts", "Total alerts generated")?;
        let critical_alerts = new_int_counter("validator_critical_alerts", "Critical alerts")?;
        let warning_alerts = new_int_counter("validator_warning_alerts", "Warning alerts")?;
        let mut metrics: Vec<MetricRef> = Vec::new();
        metrics.push(MetricRef::IntGauge(&total_validators));
        metrics.push(MetricRef::IntGauge(&active_validators));
        metrics.push(MetricRef::IntGauge(&jailed_validators));
        metrics.push(MetricRef::Gauge(&avg_participation_rate));
        metrics.push(MetricRef::Gauge(&avg_uptime_percentage));
        metrics.push(MetricRef::Gauge(&avg_response_time_ms));
        metrics.push(MetricRef::IntGauge(&critical_validators));
        metrics.push(MetricRef::IntGauge(&warning_validators));
        metrics.push(MetricRef::IntCounter(&total_alerts));
        metrics.push(MetricRef::IntCounter(&critical_alerts));
        metrics.push(MetricRef::IntCounter(&warning_alerts));
        proof {
            assert(names_of(metrics@) =~= Self::metric_names());
        }
        register_all(registry, &metrics)?;
        Ok(ValidatorMetrics {
            total_validators,
            active_validators,
            jailed_validators,
            avg_participation_rate,
            avg_uptime_percentage,
            avg_response_time_ms,
            critical_validators,
            warning_validators,
            total_alerts,
            critical_alerts,
            warning_alerts,
        })
    }
}

/// Consensus metrics
pub struct ConsensusMetrics {
    /// Snapshots created
    pub snapshots_created: Named<IntCounterHandle>,
    /// Snapshot creation time (ms)
    pub snapshot_creation_time: Named<HistogramHandle>,
    /// Transactions processed
    pub transactions_processed: Named<IntCounterHandle>,
    /// Transaction processing time (ms)
    pub transaction_processing_time: Named<HistogramHandle>,
    /// Batches created
    pub batches_created: Named<IntCounterHandle>,
    /// Batch size
    pub batch_size: Named<HistogramHandle>,
    /// Consensus rounds
    pub consensus_rounds: Named<IntCounterHandle>,
    /// Byzantine faults detected
    pub byzantine_faults: Named<IntCounterHandle>,
}

impl ConsensusMetrics {
    /// The names this set creates its metrics with, in field order.
    pub open spec fn metric_names() -> Seq<Seq<char>> {
        seq!["consensus_snapshots_created"@, "consensus_snapshot_creation_time_ms"@, "consensus_transactions_processed"@, "consensus_transaction_processing_time_ms"@, "consensus_batches_created"@, "consensus_batch_size"@, "consensus_rounds"@, "consensus_byzantine_faults"@]
    }

    /// The help texts this set creates its metrics with, in field order.
    pub open spec fn metric_helps() -> Seq<Seq<char>> {
        seq!["Snapshots created"@, "Snapshot creation time (ms)"@, "Transactions processed"@, "Transaction processing time (ms)"@, "Batches created"@, "Batch size"@, "Consensus rounds"@, "Byzantine faults detected"@]
    }

    /// The names of the metrics, in field order.
    pub open spec fn names(&self) -> Seq<Seq<char>> {
        seq![self.snapshots_created.metric_name(), self.snapshot_creation_time.metric_name(), self.transactions_processed.metric_name(), self.transaction_processing_time.metric_name(), self.batches_created.metric_name(), self.batch_size.metric_name(), self.consensus_rounds.metric_name(), self.byzantine_faults.metric_name()]
    }

    /// The help texts of the metrics, in field order.
    pub open spec fn helps(&self) -> Seq<Seq<char>> {
        seq![self.snapshots_created.metric_help(), self.snapshot_creation_time.metric_help(), self.transactions_processed.metric_help(), self.transaction_processing_time.metric_help(), self.batches_created.metric_help(), self.batch_size.metric_help(), self.consensus_rounds.metric_help(), self.byzantine_faults.metric_help()]
    }

    /// Creates the metrics, then registers them with `registry` in field
    /// order, stopping at the first that the registry refuses.
    pub fn new(registry: &mut MetricRegistry) -> (r: Result<Self, prometheus::Error>)
        ensures
            r is Ok <==> registers_cleanly(old(registry)@, Self::metric_names()),
            r is Ok ==> final(registry)@ == old(registry)@ + Self::metric_names(),
            r is Ok ==> r->Ok_0.names() == Self::metric_names(),
            r is Ok ==> r->Ok_0.helps() == Self::metric_helps(),
            r is Err ==> registration_stops(old(registry)@, Self::metric_names(), final(registry)@),
    {
        proof {
            reveal_strlit("consensus_snapshots_created");
            reveal_strlit("Snapshots created");
            reveal_strlit("consensus_snapshot_creation_time_ms");
            reveal_strlit("Snapshot creation time (ms)");
            reveal_strlit("consensus_transactions_processed");
            reveal_strlit("Transactions processed");
            reveal_strlit("consensus_transaction_processing_time_ms");
            reveal_strlit("Transaction processing time (ms)");
            reveal_strlit("consensus_batches_created");
            reveal_strlit("Batches created");
            reveal_strlit("consensus_batch_size");
            reveal_strlit("Batch size");
            reveal_strlit("consensus_rounds");
            reveal_strlit("Consensus rounds");
            reveal_strlit("consensus_byzantine_faults");
            reveal_strlit("Byzantine faults detected");
        }
        let snapshots_created = new_int_counter("consensus_snapshots_created", "Snapshots created")?;
        let snapshot_creation_time = new_histogram("consensus_snapshot_creation_time_ms", "Snapshot creation time (ms)")?;
        let transactions_processed = new_int_counter("consensus_transactions_processed", "Transactions processed")?;
        let transaction_processing_time = new_histogram("consensus_transaction_processing_time_ms", "Transaction processing time (ms)")?;
        let batches_created = new_int_counter("consensus_batches_created", "Batches created")?;
        let batch_size = new_histogram("consensus_batch_size", "Batch size")?;
        let consensus_rounds = new_int_counter("consensus_rounds", "Consensus rounds")?;
        let byzantine_faults = new_int_counter("consensus_byzantine_faults", "Byzantine faults detected")?;
        let mut metrics: Vec<MetricRef> = Vec::new();
        metrics.push(MetricRef::IntCounter(&snapshots_created));
        metrics.push(MetricRef::Histogram(&snapshot_creation_time));
        metrics.push(MetricRef::IntCounter(&transactions_processed));
        metrics.push(MetricRef::Histogram(&transaction_processing_time));
        metrics.push(MetricRef::IntCounter(&batches_created));
        metrics.push(MetricRef::Histogram(&batch_size));
        metrics.push(MetricRef::IntCounter(&consensus_rounds));
        metrics.push(MetricRef::IntCounter(&byzantine_faults));
        proof {
            assert(names_of(metrics@) =~= Self::metric_names());
        }
        register_all(registry, &metrics)?;
        Ok(ConsensusMetrics {
            snapshots_created,
            snapshot_creation_time,
            transactions_processed,
            transaction_processing_time,
            batches_created,
            batch_size,
            consensus_rounds,
            byzantine_faults,
        })
    }
}

/// Network metrics
pub struct NetworkMetrics {
    /// Peers connected
    pub peers_connected: Named<IntGaugeHandle>,
    /// Messages sent
    pub messages_sent: Named<IntCounterHandle>,
    /// Messages received
    pub messages_received: Named<IntCounterHandle>,
    /// Bytes sent
    pub bytes_sent: Named<IntCounterHandle>,
    /// Bytes received
    pub bytes_received: Named<IntCounterHandle>,
    /// Network latency (ms)
    pub network_latency: Named<HistogramHandle>,
    /// Connection errors
    pub connection_errors: Named<IntCounterHandle>,
}

impl NetworkMetrics {
    /// The names this set creates its metrics with, in field order.
    pub open spec fn metric_names() -> Seq<Seq<char>> {
        seq!["network_peers_connected"@, "network_messages_sent"@, "network_messages_received"@, "network_bytes_sent"@, "network_bytes_received"@, "network_latency_ms"@, "network_connection_errors"@]
    }

    /// The help texts this set creates its metrics with, in field order.
    pub open spec fn metric_helps() -> Seq<Seq<char>> {
        seq!["Peers connected"@, "Messages sent"@, "Messages received"@, "Bytes sent"@, "Bytes received"@, "Network latency (ms)"@, "Connection errors"@]
    }

    /// The names of the metrics, in field order.
    pub open spec fn names(&self) -> Seq<Seq<char>> {
        seq![self.peers_connected.metric_name(), self.messages_sent.metric_name(), self.messages_received.metric_name(), self.bytes_sent.metric_name(), self.bytes_received.metric_name(), self.network_latency.metric_name(), self.connection_errors.metric_name()]
    }

    /// The help texts of the metrics, in field order.
    pub open spec fn helps(&self) -> Seq<Seq<char>> {
        seq![self.peers_connected.metric_help(), self.messages_sent.metric_help(), self.messages_received.metric_help(), self.bytes_sent.metric_help(), self.bytes_received.metric_help(), self.network_latency.metric_help(), self.connection_errors.metric_help()]
    }

    /// Creates the metrics, then registers them with `registry` in field
    /// order, stopping at the first that the registry refuses.
    pub fn new(registry: &mut MetricRegistry) -> (r: Result<Self, prometheus::Error>)
        ensures
            r is Ok <==> registers_cleanly(old(registry)@, Self::metric_names()),
            r is Ok ==> final(registry)@ == old(registry)@ + Self::metric_names(),
            r is Ok ==> r->Ok_0.names() == Self::metric_names(),
            r is Ok ==> r->Ok_0.helps() == Self::metric_helps(),
            r is Err ==> registration_stops(old(registry)@, Self::metric_names(), final(registry)@),
    {
        proof {
            reveal_strlit("network_peers_connected");
            reveal_strlit("Peers connected");
            reveal_strlit("network_messages_sent");
            reveal_strlit("Messages sent");
            reveal_strlit("network_messages_received");
            reveal_strlit("Messages received");
            reveal_strlit("network_bytes_sent");
            reveal_strlit("Bytes sent");
            reveal_strlit("network_bytes_received");
            reveal_strlit("Bytes received");
            reveal_strlit("network_latency_ms");
            reveal_strlit("Network latency (ms)");
            reveal_strlit("network_connection_errors");
            reveal_strlit("Connection errors");
        }
        let peers_connected = new_int_gauge("network_peers_connected", "Peers connected")?;
        let messages_sent = new_int_counter("network_messages_sent", "Messages sent")?;
        let messages_received = new_int_counter("network_messages_received", "Messages received")?;
        let bytes_sent = new_int_counter("network_bytes_sent", "Bytes sent")?;
        let bytes_received = new_int_counter("network_bytes_received", "Bytes received")?;
        let network_latency = new_histogram("network_latency_ms", "Network latency (ms)")?;
        let connection_errors = new_int_counter("network_connection_errors", "Connection errors")?;
        let mut metrics: Vec<MetricRef> = Vec::new();
        metrics.push(MetricRef::IntGauge(&peers_connected));
        metrics.push(MetricRef::IntCounter(&messages_sent));
        metrics.push(MetricRef::IntCounter(&messages_received));
        metrics.push(MetricRef::IntCounter(&bytes_sent));
        metrics.push(MetricRef::IntCounter(&bytes_received));
        metrics.push(MetricRef::Histogram(&network_latency));
        metrics.push(MetricRef::IntCounter(&connection_errors));
        proof {
            assert(names_of(metrics@) =~= Self::metric_names());
        }
        register_all(registry, &metrics)?;
        Ok(NetworkMetrics {
            peers_connected,
            messages_sent,
            messages_received,
            bytes_sent,
            bytes_received,
            network_latency,
            connection_errors,
        })
    }
}

/// Storage metrics
pub struct StorageMetrics {
    /// Objects stored
    pub objects_stored: Named<IntGaugeHandle>,
    /// Database size (bytes)
    pub database_size: Named<IntGaugeHandle>,
    /// Read operations
    pub read_operations: Named<IntCounterHandle>,
    /// Write operations
    pub write_operations: Named<IntCounterHandle>,
    /// Read latency (ms)
    pub read_latency: Named<HistogramHandle>,
    /// Write latency (ms)
    pub write_latency: Named<HistogramHandle>,
    /// Storage errors
    pub storage_errors: Named<IntCounterHandle>,
}

impl StorageMetrics {
    /// The names this set creates its metrics with, in field order.
    pub open spec fn metric_names() -> Seq<Seq<char>> {
        seq!["storage_objects_stored"@, "storage_database_size_bytes"@, "storage_read_operations"@, "storage_write_operations"@, "storage_read_latency_ms"@, "storage_write_latency_ms"@, "storage_errors"@]
    }

    /// The help texts this set creates its metrics with, in field order.
    pub open spec fn metric_helps() -> Seq<Seq<char>> {
        seq!["Objects stored"@, "Database size (bytes)"@, "Read operations"@, "Write operations"@, "Read latency (ms)"@, "Write latency (ms)"@, "Storage errors"@]
    }

    /// The names of the metrics, in field order.
    pub open spec fn names(&self) -> Seq<Seq<char>> {
        seq![self.objects_stored.metric_name(), self.database_size.metric_name(), self.read_operations.metric_name(), self.write_operations.metric_name(), self.read_latency.metric_name(), self.write_latency.metric_name(), self.storage_errors.metric_name()]
    }

    /// The help texts of the metrics, in field order.
    pub open spec fn helps(&self) -> Seq<Seq<char>> {
        seq![self.objects_stored.metric_help(), self.database_size.metric_help(), self.read_operations.metric_help(), self.write_operations.metric_help(), self.read_latency.metric_help(), self.write_latency.metric_help(), self.storage_errors.metric_help()]
    }

    /// Creates the metrics, then registers them with `registry` in field
    /// order, stopping at the first that the registry refuses.
    pub fn new(registry: &mut MetricRegistry) -> (r: Result<Self, prometheus::Error>)
        ensures
            r is Ok <==> registers_cleanly(old(registry)@, Self::metric_names()),
            r is Ok ==> final(registry)@ == old(registry)@ + Self::metric_names(),
            r is Ok ==> r->Ok_0.names() == Self::metric_names(),
            r is Ok ==> r->Ok_0.helps() == Self::metric_helps(),
            r is Err ==> registration_stops(old(registry)@, Self::metric_names(), final(registry)@),
    {
        proof {
            reveal_strlit("storage_objects_stored");
            reveal_strlit("Objects stored");
            reveal_strlit("storage_database_size_bytes");
            reveal_strlit("Database size (bytes)");
            reveal_strlit("storage_read_operations");
            reveal_strlit("Read operations");
            reveal_strlit("storage_write_operations");
            reveal_strlit("Write operations");
            reveal_strlit("storage_read_latency_ms");
            reveal_strlit("Read latency (ms)");
            reveal_strlit("storage_write_latency_ms");
            reveal_strlit("Write latency (ms)");
            reveal_strlit("storage_errors");
            reveal_strlit("Storage errors");
        }
        let objects_stored = new_int_gauge("storage_objects_stored", "Objects stored")?;
        let database_size = new_int_gauge("storage_database_size_bytes", "Database size (bytes)")?;
        let read_operations = new_int_counter("storage_read_operations", "Read operations")?;
        let write_operations = new_int_counter("storage_write_operations", "Write operations")?;
        let read_latency = new_histogram("storage_read_latency_ms", "Read latency (ms)")?;
        let write_latency = new_histogram("storage_write_latency_ms", "Write latency (ms)")?;
        let storage_errors = new_int_counter("storage_errors", "Storage errors")?;
        let mut metrics: Vec<MetricRef> = Vec::new();
        metrics.push(MetricRef::IntGauge(&objects_stored));
        metrics.push(MetricRef::IntGauge(&database_size));
        metrics.push(MetricRef::IntCounter(&read_operations));
        metrics.push(MetricRef::IntCounter(&write_operations));
        metrics.push(MetricRef::Histogram(&read_latency));
        metrics.push(MetricRef::Histogram(&write_latency));
        metrics.push(MetricRef::IntCounter(&storage_errors));
        proof {
            assert(names_of(metrics@) =~= Self::metric_names());
        }
        register_all(registry, &metrics)?;
        Ok(StorageMetrics {
            objects_stored,
            database_size,
            read_operations,
            write_operations,
            read_latency,
            write_latency,
            storage_errors,
        })
    }
}

/// System metrics
pub struct SystemMetrics {
    /// CPU usage percentage
    pub cpu_usage: Named<GaugeHandle>,
    /// Memory usage (bytes)
    pub memory_usage: Named<IntGaugeHandle>,
    /// Memory limit (bytes)
    pub memory_limit: Named<IntGaugeHandle>,
    /// Disk usage (bytes)
    pub disk_usage: Named<IntGaugeHandle>,
    /// Disk limit (bytes)
    pub disk_limit: Named<IntGaugeHandle>,
    /// Uptime (seconds)
    pub uptime: Named<IntGaugeHandle>,
    /// Goroutines (threads)
    pub goroutines: Named<IntGaugeHandle>,
}

impl SystemMetrics {
    /// The names this set creates its metrics with, in field order.
    pub open spec fn metric_names() -> Seq<Seq<char>> {
        seq!["system_cpu_usage_percent"@, "system_memory_usage_bytes"@, "system_memory_limit_bytes"@, "system_disk_usage_bytes"@, "system_disk_limit_bytes"@, "system_uptime_seconds"@, "system_goroutines"@]
    }

    /// The help texts this set creates its metrics with, in field order.
    pub open spec fn metric_helps() -> Seq<Seq<char>> {
        seq!["CPU usage percentage"@, "Memory usage (bytes)"@, "Memory limit (bytes)"@, "Disk usage (bytes)"@, "Disk limit (bytes)"@, "Uptime (seconds)"@, "Goroutines (threads)"@]
    }

    /// The names of the metrics, in field order.
    pub open spec fn names(&self) -> Seq<Seq<char>> {
        seq![self.cpu_usage.metric_name(), self.memory_usage.metric_name(), self.memory_limit.metric_name(), self.disk_usage.metric_name(), self.disk_limit.metric_name(), self.uptime.metric_name(), self.goroutines.metric_name()]
    }

    /// The help texts of the metrics, in field order.
    pub open spec fn helps(&self) -> Seq<Seq<char>> {
        seq![self.cpu_usage.metric_help(), self.memory_usage.metric_help(), self.memory_limit.metric_help(), self.disk_usage.metric_help(), self.disk_limit.metric_help(), self.uptime.metric_help(), self.goroutines.metric_help()]
    }

    /// Creates the metrics, then registers them with `registry` in field
    /// order, stopping at the first that the registry refuses.
    pub fn new(registry: &mut MetricRegistry) -> (r: Result<Self, prometheus::Error>)
        ensures
            r is Ok <==> registers_cleanly(old(registry)@, Self::metric_names()),
            r is Ok ==> final(registry)@ == old(registry)@ + Self::metric_names(),
            r is Ok ==> r->Ok_0.names() == Self::metric_names(),
            r is Ok ==> r->Ok_0.helps() == Self::metric_helps(),
            r is Err ==> registration_stops(old(registry)@, Self::metric_names(), final(registry)@),
    {
        proof {
            reveal_strlit("system_cpu_usage_percent");
            reveal_strlit("CPU usage percentage");
            reveal_strlit("system_memory_usage_bytes");
            reveal_strlit("Memory usage (bytes)");
            reveal_strlit("system_memory_limit_bytes");
            reveal_strlit("Memory limit (bytes)");
            reveal_strlit("system_disk_usage_bytes");
            reveal_strlit("Disk usage (bytes)");
            reveal_strlit("system_disk_limit_bytes");
            reveal_strlit("Disk limit (bytes)");
            reveal_strlit("system_uptime_seconds");
            reveal_strlit("Uptime (seconds)");
            reveal_strlit("system_goroutines");
            reveal_strlit("Goroutines (threads)");
        }
        let cpu_usage = new_gauge("system_cpu_usage_percent", "CPU usage percentage")?;
        let memory_usage = new_int_gauge("system_memory_usage_bytes", "Memory usage (bytes)")?;
        let memory_limit = new_int_gauge("system_memory_limit_bytes", "Memory limit (bytes)")?;
        let disk_usage = new_int_gauge("system_disk_usage_bytes", "Disk usage (bytes)")?;
        let disk_limit = new_int_gauge("system_disk_limit_bytes", "Disk limit (bytes)")?;
        let uptime = new_int_gauge("system_uptime_seconds", "Uptime (seconds)")?;
        let goroutines = new_int_gauge("system_goroutines", "Goroutines (threads)")?;
        let mut metrics: Vec<MetricRef> = Vec::new();
        metrics.push(MetricRef::Gauge(&cpu_usage));
        metrics.push(MetricRef::IntGauge(&memory_usage));
        metrics.push(MetricRef::IntGauge(&memory_limit));
        metrics.push(MetricRef::IntGauge(&disk_usage));
        metrics.push(MetricRef::IntGauge(&disk_limit));
        metrics.push(MetricRef::IntGauge(&uptime));
        metrics.push(MetricRef::IntGauge(&goroutines));
        proof {
            assert(names_of(metrics@) =~= Self::metric_names());
        }
        register_all(registry, &metrics)?;
        Ok(SystemMetrics {
            cpu_usage,
            memory_usage,
            memory_limit,
            disk_usage,
            disk_limit,
            uptime,
            goroutines,
        })
    }
}

/// Gathers the registered metrics by `Registry::gather`. What comes back
/// depends on the metrics' current values, so nothing is stated of it.
#[verifier::external_body]
fn gather(registry: &MetricRegistry) -> (r: Vec<prometheus::proto::MetricFamily>) {
    registry.registry.gather()
}

/// Encodes metric families in the Prometheus text format by
/// `TextEncoder::encode_to_string`. The text is not stated.
#[verifier::external_body]
fn encode_text(families: &Vec<prometheus::proto::MetricFamily>) -> (r: Result<String, prometheus::Error>) {
    prometheus::TextEncoder::new().encode_to_string(families)
}

/// Metrics exporter
pub struct MetricsExporter {
    registry: MetricRegistry,
    validator_metrics: ValidatorMetrics,
    consensus_metrics: ConsensusMetrics,
    network_metrics: NetworkMetrics,
    storage_metrics: StorageMetrics,
    system_metrics: SystemMetrics,
}

impl MetricsExporter {
    /// The names of every metric the exporter registers, set after set in
    /// the order validator, consensus, network, storage, system.
    pub open spec fn metric_names() -> Seq<Seq<char>> {
        ValidatorMetrics::metric_names() + ConsensusMetrics::metric_names() + NetworkMetrics::metric_names()
            + StorageMetrics::metric_names() + SystemMetrics::metric_names()
    }

    /// The names of the metrics in the exporter's registry, in the order they
    /// were registered.
    pub closed spec fn registered(&self) -> Seq<Seq<char>> {
        self.registry@
    }

    /// The validator metrics.
    pub closed spec fn validator(&self) -> ValidatorMetrics {
        self.validator_metrics
    }

    /// The consensus metrics.
    pub closed spec fn consensus(&self) -> ConsensusMetrics {
        self.consensus_metrics
    }

    /// The network metrics.
    pub closed spec fn network(&self) -> NetworkMetrics {
        self.network_metrics
    }

    /// The storage metrics.
    pub closed spec fn storage(&self) -> StorageMetrics {
        self.storage_metrics
    }

    /// The system metrics.
    pub closed spec fn system(&self) -> SystemMetrics {
        self.system_metrics
    }

    /// Create new metrics exporter: a fresh registry with the validator,
    /// consensus, network, storage and system metrics registered in that
    /// order. It succeeds exactly when no two of the metrics share a
    /// descriptor id.
    pub fn new() -> (r: Result<Self, prometheus::Error>)
        ensures
            r is Ok <==> registers_cleanly(Seq::empty(), Self::metric_names()),
            r is Ok ==> r->Ok_0.registered() == Self::metric_names(),
            r is Ok ==> r->Ok_0.validator().names() == ValidatorMetrics::metric_names(),
            r is Ok ==> r->Ok_0.consensus().names() == ConsensusMetrics::metric_names(),
            r is Ok ==> r->Ok_0.network().names() == NetworkMetrics::metric_names(),
            r is Ok ==> r->Ok_0.storage().names() == StorageMetrics::metric_names(),
            r is Ok ==> r->Ok_0.system().names() == SystemMetrics::metric_names(),
    {
        let ghost e = Seq::<Seq<char>>::empty();
        let ghost v = ValidatorMetrics::metric_names();
        let ghost c = ConsensusMetrics::metric_names();
        let ghost n = NetworkMetrics::metric_names();
        let ghost s = StorageMetrics::metric_names();
        let ghost y = SystemMetrics::metric_names();
        proof {
            lemma_registers_cleanly_concat(e, v + c + n + s, y);
            lemma_registers_cleanly_concat(e, v + c + n, s);
            lemma_registers_cleanly_concat(e, v + c, n);
            lemma_registers_cleanly_concat(e, v, c);
            assert(e + v + c =~= e + (v + c));
            assert(e + v + c + n =~= e + (v + c + n));
            assert(e + v + c + n + s =~= e + (v + c + n + s));
            assert(e + v + c + n + s + y =~= v + c + n + s + y);
        }
        let mut registry = MetricRegistry::new();
        let validator_metrics = ValidatorMetrics::new(&mut registry)?;
        let consensus_metrics = ConsensusMetrics::new(&mut registry)?;
        let network_metrics = NetworkMetrics::new(&mut registry)?;
        let storage_metrics = StorageMetrics::new(&mut registry)?;
        let system_metrics = SystemMetrics::new(&mut registry)?;
        Ok(MetricsExporter {
            registry,
            validator_metrics,
            consensus_metrics,
            network_metrics,
            storage_metrics,
            system_metrics,
        })
    }

    /// Export metrics as Prometheus text format
    pub fn export_metrics(&self) -> (r: Result<String, prometheus::Error>) {
        let families = gather(&self.registry);
        encode_text(&families)
    }

    /// Get validator metrics
    pub fn validator_metrics(&self) -> (m: &ValidatorMetrics)
        ensures
            *m == self.validator(),
    {
        &self.validator_metrics
    }

    /// Get consensus metrics
    pub fn consensus_metrics(&self) -> (m: &ConsensusMetrics)
        ensures
            *m == self.consensus(),
    {
        &self.consensus_metrics
    }

    /// Get network metrics
    pub fn network_metrics(&self) -> (m: &NetworkMetrics)
        ensures
            *m == self.network(),
    {
        &self.network_metrics
    }

    /// Get storage metrics
    pub fn storage_metrics(&self) -> (m: &StorageMetrics)
        ensures
            *m == self.storage(),
    {
        &self.storage_metrics
    }

    /// Get system metrics
    pub fn system_metrics(&self) -> (m: &SystemMetrics)
        ensures
            *m == self.system(),
    {
        &self.system_metrics
    }
}

} // verus!
