# silver_node

The node-side logic of a validator: startup validation of configuration,
dependencies and persisted state; error recovery; alert rule management; health
classification; and the lifecycle of a node (initialization, start-up with an
optional sync, graceful shutdown). The library under `src/` is written in Verus,
and Verus proves its functions against their contracts. The trusted
items are the three calls that read the system clock in
`src/metrics_alerting.rs` (nothing is stated of their results, so the health
checker's `new` and `default` state nothing of their start time), and the calls
into the `prometheus` crate in `src/metrics_alerting/exporter.rs`, each with the
contract its source supports. A `MetricRegistry` keeps, beside the Prometheus
registry, a ghost record of the names registered in it; registration is stated
over the descriptor id that prometheus derives from a metric's name, which is
named rather than computed.

- `src/production.rs`: configuration data and its validation, dependency and
  state validation, recovery, health checks, the startup sequence.
- `src/metrics_alerting.rs`: alert rules and their manager, the reading of a
  rule's condition, health classification and uptime;
  `src/metrics_alerting/exporter.rs`: the Prometheus metric sets of the node,
  their registration (which metrics end up in the registry, and when a set is
  refused) and export.
- `src/node.rs`: the node lifecycle as a step-by-step state machine, and the
  decisions taken inside its steps.
- `src/text.rs`: decimal rendering and string replacement with exact
  specifications.
- `app/`: serde forms of the records, the floating-point comparisons of
  alerting and health checking, the default exporter, and the asynchronous
  driver that performs the lifecycle's steps.
