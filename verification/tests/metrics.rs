use prometheus::{Histogram, HistogramOpts, IntCounter, IntGauge, Opts, Registry};
use shuidui::metrics::{init_metrics, MetricId, MetricKind, ServiceMetrics};

fn counter(name: &str) -> IntCounter {
    IntCounter::with_opts(Opts::new(name, "help")).unwrap()
}

fn gauge(name: &str) -> IntGauge {
    IntGauge::with_opts(Opts::new(name, "help")).unwrap()
}

fn histogram(name: &str, buckets: Vec<f64>) -> Histogram {
    Histogram::with_opts(HistogramOpts::new(name, "help").buckets(buckets)).unwrap()
}

fn service_metrics() -> ServiceMetrics {
    ServiceMetrics {
        registry: Registry::new(),
        mqtt_received: counter(MetricId::MqttMessagesReceived.name()),
        mqtt_invalid: counter(MetricId::MqttMessagesInvalid.name()),
        simulations_run: counter(MetricId::SimulationsRun.name()),
        optimizations_run: counter(MetricId::OptimizationsRun.name()),
        alerts_generated: counter(MetricId::AlertsGenerated.name()),
        alerts_suppressed: counter(MetricId::AlertsSuppressed.name()),
        active_devices: gauge(MetricId::ActiveDevices.name()),
        ws_connections: gauge(MetricId::WebsocketConnections.name()),
        sim_duration: histogram(MetricId::SimulationDuration.name(), vec![0.001, 0.01, 0.1, 1.0]),
        opt_duration: histogram(MetricId::OptimizationDuration.name(), vec![0.01, 0.1, 1.0, 10.0]),
        pounding_force: histogram(MetricId::PoundingForce.name(), vec![50.0, 500.0, 5000.0]),
    }
}

const ALL: [MetricId; 11] = [
    MetricId::MqttMessagesReceived,
    MetricId::MqttMessagesInvalid,
    MetricId::SimulationsRun,
    MetricId::OptimizationsRun,
    MetricId::AlertsGenerated,
    MetricId::AlertsSuppressed,
    MetricId::ActiveDevices,
    MetricId::WebsocketConnections,
    MetricId::SimulationDuration,
    MetricId::OptimizationDuration,
    MetricId::PoundingForce,
];

#[test]
fn metrics_table() {
    let names: Vec<&str> = ALL.iter().map(|m| m.name()).collect();
    assert_eq!(
        names,
        vec![
            "mqtt_messages_received_total",
            "mqtt_messages_invalid_total",
            "simulations_run_total",
            "optimizations_run_total",
            "alerts_generated_total",
            "alerts_suppressed_total",
            "active_devices",
            "websocket_connections",
            "simulation_duration_seconds",
            "optimization_duration_seconds",
            "pounding_force_newtons",
        ]
    );
    assert_eq!(MetricId::AlertsSuppressed.help(), "Total alerts suppressed by dedup");
    assert_eq!(MetricId::PoundingForce.help(), "Pounding force distribution");
    let kinds: Vec<MetricKind> = ALL.iter().map(|m| m.kind()).collect();
    assert_eq!(kinds.iter().filter(|k| **k == MetricKind::Counter).count(), 6);
    assert_eq!(kinds.iter().filter(|k| **k == MetricKind::Gauge).count(), 2);
    assert_eq!(kinds.iter().filter(|k| **k == MetricKind::Histogram).count(), 3);
}

#[test]
fn metrics_registered_under_service_names() {
    let mut m = service_metrics();
    assert!(init_metrics(&mut m).is_ok());
    let mut got: Vec<String> = m.registry.gather().iter().map(|f| f.get_name().to_string()).collect();
    got.sort();
    let mut want: Vec<String> = ALL.iter().map(|m| m.name().to_string()).collect();
    want.sort();
    assert_eq!(got, want);
}

#[test]
fn metrics_register_once() {
    let mut m = service_metrics();
    assert!(init_metrics(&mut m).is_ok());
    assert_eq!(m.registry.gather().len(), 11);
    match init_metrics(&mut m) {
        Err(e) => {
            assert_eq!(e.metric, MetricId::MqttMessagesReceived);
            assert!(matches!(e.cause, prometheus::Error::AlreadyReg));
        }
        Ok(()) => panic!("a second registration must be refused"),
    }
}

#[test]
fn metrics_registration_stops_at_a_clash() {
    let mut m = service_metrics();
    m.registry.register(Box::new(m.simulations_run.clone())).unwrap();
    match init_metrics(&mut m) {
        Err(e) => assert_eq!(e.metric, MetricId::SimulationsRun),
        Ok(()) => panic!("the clash must be reported"),
    }
    // the two metrics before the clash were registered, the rest were not
    assert_eq!(m.registry.gather().len(), 3);
}
