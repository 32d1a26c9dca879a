//! Registration of the service's Prometheus metrics.
use vstd::prelude::*;

verus! {

/// `prometheus::Error`; opaque here.
#[verifier::external_type_specification]
#[verifier::external_body]
pub struct ExPrometheusError(prometheus::Error);

/// The service's metric registry together with the eleven metrics it
/// exposes: six integer counters, two integer gauges and three histograms,
/// in the order of `MetricId`. The contents are opaque; what the contracts
/// use of them is named by `metric_names` and `registered_names`.
#[verifier::external_body]
pub struct ServiceMetrics {
    pub registry: prometheus::Registry,
    pub mqtt_received: prometheus::IntCounter,
    pub mqtt_invalid: prometheus::IntCounter,
    pub simulations_run: prometheus::IntCounter,
    pub optimizations_run: prometheus::IntCounter,
    pub alerts_generated: prometheus::IntCounter,
    pub alerts_suppressed: prometheus::IntCounter,
    pub active_devices: prometheus::IntGauge,
    pub ws_connections: prometheus::IntGauge,
    pub sim_duration: prometheus::Histogram,
    pub opt_duration: prometheus::Histogram,
    pub pounding_force: prometheus::Histogram,
}

/// The fully-qualified names of the eleven metrics a `ServiceMetrics` was
/// made with, in the order of `MetricId`.
pub uninterp spec fn metric_names(m: ServiceMetrics) -> Seq<Seq<char>>;

/// The fully-qualified names of the collectors registered so far in the
/// registry a `ServiceMetrics` holds.
pub uninterp spec fn registered_names(m: ServiceMetrics) -> Set<Seq<char>>;

/// The service's metrics, in the order they are registered.
#[derive(Debug, Clone, Copy, PartialEq, Eq, Structural)]
pub enum MetricId {
    MqttMessagesReceived,
    MqttMessagesInvalid,
    SimulationsRun,
    OptimizationsRun,
    AlertsGenerated,
    AlertsSuppressed,
    ActiveDevices,
    WebsocketConnections,
    SimulationDuration,
    OptimizationDuration,
    PoundingForce,
}

/// The kinds of metric the service exposes.
#[derive(Debug, Clone, Copy, PartialEq, Eq, Structural)]
pub enum MetricKind {
    Counter,
    Gauge,
    Histogram,
}

/// How many metrics `init_metrics` registers.
pub const METRIC_COUNT: usize = 11;

/// The registration order of the metrics.
pub open spec fn registration_order() -> Seq<MetricId> {
    seq![
        MetricId::MqttMessagesReceived,
        MetricId::MqttMessagesInvalid,
        MetricId::SimulationsRun,
        MetricId::OptimizationsRun,
        MetricId::AlertsGenerated,
        MetricId::AlertsSuppressed,
        MetricId::ActiveDevices,
        MetricId::WebsocketConnections,
        MetricId::SimulationDuration,
        MetricId::OptimizationDuration,
        MetricId::PoundingForce,
    ]
}

/// Where a metric stands in `registration_order`.
pub open spec fn position(id: MetricId) -> int {
    match id {
        MetricId::MqttMessagesReceived => 0,
        MetricId::MqttMessagesInvalid => 1,
        MetricId::SimulationsRun => 2,
        MetricId::OptimizationsRun => 3,
        MetricId::AlertsGenerated => 4,
        MetricId::AlertsSuppressed => 5,
        MetricId::ActiveDevices => 6,
        MetricId::WebsocketConnections => 7,
        MetricId::SimulationDuration => 8,
        MetricId::OptimizationDuration => 9,
        MetricId::PoundingForce => 10,
    }
}

/// The name under which the service publishes a metric.
pub open spec fn service_metric_name(id: MetricId) -> Seq<char> {
    match id {
        MetricId::MqttMessagesReceived => "mqtt_messages_received_total"@,
        MetricId::MqttMessagesInvalid => "mqtt_messages_invalid_total"@,
        MetricId::SimulationsRun => "simulations_run_total"@,
        MetricId::OptimizationsRun => "optimizations_run_total"@,
        MetricId::AlertsGenerated => "alerts_generated_total"@,
        MetricId::AlertsSuppressed => "alerts_suppressed_total"@,
        MetricId::ActiveDevices => "active_devices"@,
        MetricId::WebsocketConnections => "websocket_connections"@,
        MetricId::SimulationDuration => "simulation_duration_seconds"@,
        MetricId::OptimizationDuration => "optimization_duration_seconds"@,
        MetricId::PoundingForce => "pounding_force_newtons"@,
    }
}

/// The help text the service publishes with a metric.
pub open spec fn service_metric_help(id: MetricId) -> Seq<char> {
    match id {
        MetricId::MqttMessagesReceived => "Total MQTT messages received"@,
        MetricId::MqttMessagesInvalid => "Total invalid MQTT messages"@,
        MetricId::SimulationsRun => "Total dynamics simulations run"@,
        MetricId::OptimizationsRun => "Total optimization runs"@,
        MetricId::AlertsGenerated => "Total alerts generated"@,
        MetricId::AlertsSuppressed => "Total alerts suppressed by dedup"@,
        MetricId::ActiveDevices => "Number of active devices"@,
        MetricId::WebsocketConnections => "Current WebSocket connections"@,
        MetricId::SimulationDuration => "Simulation execution duration"@,
        MetricId::OptimizationDuration => "Optimization execution duration"@,
        MetricId::PoundingForce => "Pounding force distribution"@,
    }
}

/// The kind of each of the service's metrics.
pub open spec fn service_metric_kind(id: MetricId) -> MetricKind {
    match id {
        MetricId::MqttMessagesReceived => MetricKind::Counter,
        MetricId::MqttMessagesInvalid => MetricKind::Counter,
        MetricId::SimulationsRun => MetricKind::Counter,
        MetricId::OptimizationsRun => MetricKind::Counter,
        MetricId::AlertsGenerated => MetricKind::Counter,
        MetricId::AlertsSuppressed => MetricKind::Counter,
        MetricId::ActiveDevices => MetricKind::Gauge,
        MetricId::WebsocketConnections => MetricKind::Gauge,
        MetricId::SimulationDuration => MetricKind::Histogram,
        MetricId::OptimizationDuration => MetricKind::Histogram,
        MetricId::PoundingForce => MetricKind::Histogram,
    }
}

/// The names of the service's metrics, in registration order.
pub open spec fn service_metric_names() -> Seq<Seq<char>> {
    registration_order().map_values(|id: MetricId| service_metric_name(id))
}

impl MetricId {
    pub fn name(&self) -> (s: &'static str)
        ensures
            s@ == service_metric_name(*self),
    {
        match self {
            MetricId::MqttMessagesReceived => "mqtt_messages_received_total",
            MetricId::MqttMessagesInvalid => "mqtt_messages_invalid_total",
            MetricId::SimulationsRun => "simulations_run_total",
            MetricId::OptimizationsRun => "optimizations_run_total",
            MetricId::AlertsGenerated => "alerts_generated_total",
            MetricId::AlertsSuppressed => "alerts_suppressed_total",
            MetricId::ActiveDevices => "active_devices",
            MetricId::WebsocketConnections => "websocket_connections",
            MetricId::SimulationDuration => "simulation_duration_seconds",
            MetricId::OptimizationDuration => "optimization_duration_seconds",
            MetricId::PoundingForce => "pounding_force_newtons",
        }
    }

    pub fn help(&self) -> (s: &'static str)
        ensures
            s@ == service_metric_help(*self),
    {
        match self {
            MetricId::MqttMessagesReceived => "Total MQTT messages received",
            MetricId::MqttMessagesInvalid => "Total invalid MQTT messages",
            MetricId::SimulationsRun => "Total dynamics simulations run",
            MetricId::OptimizationsRun => "Total optimization runs",
            MetricId::AlertsGenerated => "Total alerts generated",
            MetricId::AlertsSuppressed => "Total alerts suppressed by dedup",
            MetricId::ActiveDevices => "Number of active devices",
            MetricId::WebsocketConnections => "Current WebSocket connections",
            MetricId::SimulationDuration => "Simulation execution duration",
            MetricId::OptimizationDuration => "Optimization execution duration",
            MetricId::PoundingForce => "Pounding force distribution",
        }
    }

    pub fn kind(&self) -> (k: MetricKind)
        ensures
            k == service_metric_kind(*self),
    {
        match self {
            MetricId::MqttMessagesReceived => MetricKind::Counter,
            MetricId::MqttMessagesInvalid => MetricKind::Counter,
            MetricId::SimulationsRun => MetricKind::Counter,
            MetricId::OptimizationsRun => MetricKind::Counter,
            MetricId::AlertsGenerated => MetricKind::Counter,
            MetricId::AlertsSuppressed => MetricKind::Counter,
            MetricId::ActiveDevices => MetricKind::Gauge,
            MetricId::WebsocketConnections => MetricKind::Gauge,
            MetricId::SimulationDuration => MetricKind::Histogram,
            MetricId::OptimizationDuration => MetricKind::Histogram,
            MetricId::PoundingForce => MetricKind::Histogram,
        }
    }
}

fn metric_at(i: usize) -> (id: MetricId)
    requires
        i < METRIC_COUNT,
    ensures
        id == registration_order()[i as int],
        position(id) == i,
{
    if i == 0 {
        MetricId::MqttMessagesReceived
    } else if i == 1 {
        MetricId::MqttMessagesInvalid
    } else if i == 2 {
        MetricId::SimulationsRun
    } else if i == 3 {
        MetricId::OptimizationsRun
    } else if i == 4 {
        MetricId::AlertsGenerated
    } else if i == 5 {
        MetricId::AlertsSuppressed
    } else if i == 6 {
        MetricId::ActiveDevices
    } else if i == 7 {
        MetricId::WebsocketConnections
    } else if i == 8 {
        MetricId::SimulationDuration
    } else if i == 9 {
        MetricId::OptimizationDuration
    } else {
        MetricId::PoundingForce
    }
}

/// The registry refused the metric `metric`.
pub struct MetricsError {
    pub metric: MetricId,
    pub cause: prometheus::Error,
}

/// `Registry::register` (prometheus) with a clone of the `mqtt_received` metric
/// boxed as a collector. Claimed: the metrics are kept; on success the
/// registry holds the metric's name as well, on failure its registered
/// collectors are as before. Left unsaid: when registration succeeds, which
/// depends on the descriptor ids and help strings the registry has seen, not
/// only on the names it holds; and the claims assume no other handle on the
/// same registry registers collectors meanwhile.
#[verifier::external_body]
fn register_mqtt_received(m: &mut ServiceMetrics) -> (r: Result<(), prometheus::Error>)
    ensures
        metric_names(*final(m)) == metric_names(*old(m)),
        r is Ok ==> registered_names(*final(m)) == registered_names(*old(m)).insert(
            metric_names(*old(m))[0],
        ),
        r is Err ==> registered_names(*final(m)) == registered_names(*old(m)),
{
    m.registry.register(Box::new(m.mqtt_received.clone()))
}

/// `Registry::register` (prometheus) with a clone of the `mqtt_invalid` metric
/// boxed as a collector. Claimed: the metrics are kept; on success the
/// registry holds the metric's name as well, on failure its registered
/// collectors are as before. Left unsaid: when registration succeeds, which
/// depends on the descriptor ids and help strings the registry has seen, not
/// only on the names it holds; and the claims assume no other handle on the
/// same registry registers collectors meanwhile.
#[verifier::external_body]
fn register_mqtt_invalid(m: &mut ServiceMetrics) -> (r: Result<(), prometheus::Error>)
    ensures
        metric_names(*final(m)) == metric_names(*old(m)),
        r is Ok ==> registered_names(*final(m)) == registered_names(*old(m)).insert(
            metric_names(*old(m))[1],
        ),
        r is Err ==> registered_names(*final(m)) == registered_names(*old(m)),
{
    m.registry.register(Box::new(m.mqtt_invalid.clone()))
}

/// `Registry::register` (prometheus) with a clone of the `simulations_run` metric
/// boxed as a collector. Claimed: the metrics are kept; on success the
/// registry holds the metric's name as well, on failure its registered
/// collectors are as before. Left unsaid: when registration succeeds, which
/// depends on the descriptor ids and help strings the registry has seen, not
/// only on the names it holds; and the claims assume no other handle on the
/// same registry registers collectors meanwhile.
#[verifier::external_body]
fn register_simulations_run(m: &mut ServiceMetrics) -> (r: Result<(), prometheus::Error>)
    ensures
        metric_names(*final(m)) == metric_names(*old(m)),
        r is Ok ==> registered_names(*final(m)) == registered_names(*old(m)).insert(
            metric_names(*old(m))[2],
        ),
        r is Err ==> registered_names(*final(m)) == registered_names(*old(m)),
{
    m.registry.register(Box::new(m.simulations_run.clone()))
}

/// `Registry::register` (prometheus) with a clone of the `optimizations_run` metric
/// boxed as a collector. Claimed: the metrics are kept; on success the
/// registry holds the metric's name as well, on failure its registered
/// collectors are as before. Left unsaid: when registration succeeds, which
/// depends on the descriptor ids and help strings the registry has seen, not
/// only on the names it holds; and the claims assume no other handle on the
/// same registry registers collectors meanwhile.
#[verifier::external_body]
fn register_optimizations_run(m: &mut ServiceMetrics) -> (r: Result<(), prometheus::Error>)
    ensures
        metric_names(*final(m)) == metric_names(*old(m)),
        r is Ok ==> registered_names(*final(m)) == registered_names(*old(m)).insert(
            metric_names(*old(m))[3],
        ),
        r is Err ==> registered_names(*final(m)) == registered_names(*old(m)),
{
    m.registry.register(Box::new(m.optimizations_run.clone()))
}

/// `Registry::register` (prometheus) with a clone of the `alerts_generated` metric
/// boxed as a collector. Claimed: the metrics are kept; on success the
/// registry holds the metric's name as well, on failure its registered
/// collectors are as before. Left unsaid: when registration succeeds, which
/// depends on the descriptor ids and help strings the registry has seen, not
/// only on the names it holds; and the claims assume no other handle on the
/// same registry registers collectors meanwhile.
#[verifier::external_body]
fn register_alerts_generated(m: &mut ServiceMetrics) -> (r: Result<(), prometheus::Error>)
    ensures
        metric_names(*final(m)) == metric_names(*old(m)),
        r is Ok ==> registered_names(*final(m)) == registered_names(*old(m)).insert(
            metric_names(*old(m))[4],
        ),
        r is Err ==> registered_names(*final(m)) == registered_names(*old(m)),
{
    m.registry.register(Box::new(m.alerts_generated.clone()))
}

/// `Registry::register` (prometheus) with a clone of the `alerts_suppressed` metric
/// boxed as a collector. Claimed: the metrics are kept; on success the
/// registry holds the metric's name as well, on failure its registered
/// collectors are as before. Left unsaid: when registration succeeds, which
/// depends on the descriptor ids and help strings the registry has seen, not
/// only on the names it holds; and the claims assume no other handle on the
/// same registry registers collectors meanwhile.
#[verifier::external_body]
fn register_alerts_suppressed(m: &mut ServiceMetrics) -> (r: Result<(), prometheus::Error>)
    ensures
        metric_names(*final(m)) == metric_names(*old(m)),
        r is Ok ==> registered_names(*final(m)) == registered_names(*old(m)).insert(
            metric_names(*old(m))[5],
        ),
        r is Err ==> registered_names(*final(m)) == registered_names(*old(m)),
{
    m.registry.register(Box::new(m.alerts_suppressed.clone()))
}

/// `Registry::register` (prometheus) with a clone of the `active_devices` metric
/// boxed as a collector. Claimed: the metrics are kept; on success the
/// registry holds the metric's name as well, on failure its registered
/// collectors are as before. Left unsaid: when registration succeeds, which
/// depends on the descriptor ids and help strings the registry has seen, not
/// only on the names it holds; and the claims assume no other handle on the
/// same registry registers collectors meanwhile.
#[verifier::external_body]
fn register_active_devices(m: &mut ServiceMetrics) -> (r: Result<(), prometheus::Error>)
    ensures
        metric_names(*final(m)) == metric_names(*old(m)),
        r is Ok ==> registered_names(*final(m)) == registered_names(*old(m)).insert(
            metric_names(*old(m))[6],
        ),
        r is Err ==> registered_names(*final(m)) == registered_names(*old(m)),
{
    m.registry.register(Box::new(m.active_devices.clone()))
}

/// `Registry::register` (prometheus) with a clone of the `ws_connections` metric
/// boxed as a collector. Claimed: the metrics are kept; on success the
/// registry holds the metric's name as well, on failure its registered
/// collectors are as before. Left unsaid: when registration succeeds, which
/// depends on the descriptor ids and help strings the registry has seen, not
/// only on the names it holds; and the claims assume no other handle on the
/// same registry registers collectors meanwhile.
#[verifier::external_body]
fn register_ws_connections(m: &mut ServiceMetrics) -> (r: Result<(), prometheus::Error>)
    ensures
        metric_names(*final(m)) == metric_names(*old(m)),
        r is Ok ==> registered_names(*final(m)) == registered_names(*old(m)).insert(
            metric_names(*old(m))[7],
        ),
        r is Err ==> registered_names(*final(m)) == registered_names(*old(m)),
{
    m.registry.register(Box::new(m.ws_connections.clone()))
}

/// `Registry::register` (prometheus) with a clone of the `sim_duration` metric
/// boxed as a collector. Claimed: the metrics are kept; on success the
/// registry holds the metric's name as well, on failure its registered
/// collectors are as before. Left unsaid: when registration succeeds, which
/// depends on the descriptor ids and help strings the registry has seen, not
/// only on the names it holds; and the claims assume no other handle on the
/// same registry registers collectors meanwhile.
#[verifier::external_body]
fn register_sim_duration(m: &mut ServiceMetrics) -> (r: Result<(), prometheus::Error>)
    ensures
        metric_names(*final(m)) == metric_names(*old(m)),
        r is Ok ==> registered_names(*final(m)) == registered_names(*old(m)).insert(
            metric_names(*old(m))[8],
        ),
        r is Err ==> registered_names(*final(m)) == registered_names(*old(m)),
{
    m.registry.register(Box::new(m.sim_duration.clone()))
}

/// `Registry::register` (prometheus) with a clone of the `opt_duration` metric
/// boxed as a collector. Claimed: the metrics are kept; on success the
/// registry holds the metric's name as well, on failure its registered
/// collectors are as before. Left unsaid: when registration succeeds, which
/// depends on the descriptor ids and help strings the registry has seen, not
/// only on the names it holds; and the claims assume no other handle on the
/// same registry registers collectors meanwhile.
#[verifier::external_body]
fn register_opt_duration(m: &mut ServiceMetrics) -> (r: Result<(), prometheus::Error>)
    ensures
        metric_names(*final(m)) == metric_names(*old(m)),
        r is Ok ==> registered_names(*final(m)) == registered_names(*old(m)).insert(
            metric_names(*old(m))[9],
        ),
        r is Err ==> registered_names(*final(m)) == registered_names(*old(m)),
{
    m.registry.register(Box::new(m.opt_duration.clone()))
}

/// `Registry::register` (prometheus) with a clone of the `pounding_force` metric
/// boxed as a collector. Claimed: the metrics are kept; on success the
/// registry holds the metric's name as well, on failure its registered
/// collectors are as before. Left unsaid: when registration succeeds, which
/// depends on the descriptor ids and help strings the registry has seen, not
/// only on the names it holds; and the claims assume no other handle on the
/// same registry registers collectors meanwhile.
#[verifier::external_body]
fn register_pounding_force(m: &mut ServiceMetrics) -> (r: Result<(), prometheus::Error>)
    ensures
        metric_names(*final(m)) == metric_names(*old(m)),
        r is Ok ==> registered_names(*final(m)) == registered_names(*old(m)).insert(
            metric_names(*old(m))[10],
        ),
        r is Err ==> registered_names(*final(m)) == registered_names(*old(m)),
{
    m.registry.register(Box::new(m.pounding_force.clone()))
}

/// Registers one of the service's metrics with its registry.
fn register_metric(m: &mut ServiceMetrics, id: MetricId) -> (r: Result<(), prometheus::Error>)
    ensures
        metric_names(*final(m)) == metric_names(*old(m)),
        r is Ok ==> registered_names(*final(m)) == registered_names(*old(m)).insert(
            metric_names(*old(m))[position(id)],
        ),
        r is Err ==> registered_names(*final(m)) == registered_names(*old(m)),
{
    match id {
        MetricId::MqttMessagesReceived => register_mqtt_received(m),
        MetricId::MqttMessagesInvalid => register_mqtt_invalid(m),
        MetricId::SimulationsRun => register_simulations_run(m),
        MetricId::OptimizationsRun => register_optimizations_run(m),
        MetricId::AlertsGenerated => register_alerts_generated(m),
        MetricId::AlertsSuppressed => register_alerts_suppressed(m),
        MetricId::ActiveDevices => register_active_devices(m),
        MetricId::WebsocketConnections => register_ws_connections(m),
        MetricId::SimulationDuration => register_sim_duration(m),
        MetricId::OptimizationDuration => register_opt_duration(m),
        MetricId::PoundingForce => register_pounding_force(m),
    }
}

/// The first `k` names of `names`, as a set.
pub open spec fn first_names(names: Seq<Seq<char>>, k: int) -> Set<Seq<char>>
    decreases k,
{
    if k <= 0 {
        Set::empty()
    } else {
        first_names(names, k - 1).insert(names[k - 1])
    }
}

/// Registers the service's metrics with its registry in
/// `registration_order`, stopping at the first one the registry refuses:
/// on success all eleven names are registered; on failure at a metric, the
/// ones before it are registered and it and the rest are not added.
pub fn init_metrics(m: &mut ServiceMetrics) -> (r: Result<(), MetricsError>)
    ensures
        metric_names(*final(m)) == metric_names(*old(m)),
        r is Ok ==> registered_names(*final(m)) == registered_names(*old(m)).union(
            first_names(metric_names(*old(m)), METRIC_COUNT as int),
        ),
        r matches Err(e) ==> registered_names(*final(m)) == registered_names(*old(m)).union(
            first_names(metric_names(*old(m)), position(e.metric)),
        ),
{
    let ghost names = metric_names(*m);
    let ghost start = registered_names(*m);
    let mut i: usize = 0;
    assert(start.union(first_names(names, 0)) =~= start);
    while i < METRIC_COUNT
        invariant
            i <= METRIC_COUNT,
            names == metric_names(*old(m)),
            start == registered_names(*old(m)),
            metric_names(*m) == names,
            registered_names(*m) == start.union(first_names(names, i as int)),
        decreases METRIC_COUNT - i,
    {
        let id = metric_at(i);
        let res = register_metric(m, id);
        match res {
            Ok(()) => {
                assert(start.union(first_names(names, i as int)).insert(names[i as int])
                    =~= start.union(first_names(names, i as int + 1)));
            },
            Err(cause) => {
                return Err(MetricsError { metric: id, cause });
            },
        }
        i = i + 1;
    }
    Ok(())
}

/// Made with the service's names, a successful registration adds exactly
/// the eleven names of the metrics table.
pub proof fn lemma_service_names_registered(m: ServiceMetrics, registered_before: Set<Seq<char>>, registered_after: Set<Seq<char>>)
    requires
        metric_names(m) == service_metric_names(),
        registered_after == registered_before.union(first_names(metric_names(m), METRIC_COUNT as int)),
    ensures
        registered_after == registered_before.union(service_metric_names().to_set()),
{
    let names = service_metric_names();
    assert forall|n: Seq<char>| first_names(names, 11).contains(n) <==> names.to_set().contains(n) by {
        reveal_with_fuel(first_names, 12);
        if names.to_set().contains(n) {
            let j = choose|j: int| 0 <= j < names.len() && names[j] == n;
        }
    }
    assert(first_names(names, 11) =~= names.to_set());
}

} // verus!
