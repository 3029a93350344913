use prometheus::Registry;
use sol_to_uml::health::{HealthCheckService, ServingStatus};
use sol_to_uml::metrics::{count_sol2uml_request, register_request_counter, request_status_label};
use sol_to_uml::routes::{
    grpc_path_of, route_grpc_path, route_of, unimplemented_reply, VisualizerMethod,
};
use sol_to_uml::settings::JaegerSettings;

#[test]
fn health_check_is_alive() {
    assert_eq!(HealthCheckService::default().check(), ServingStatus::Alive);
}

#[test]
fn default_tracing_settings() {
    let s = JaegerSettings::default();
    assert!(s.enabled);
    assert_eq!(s.agent_endpoint, "localhost:6831");
}

#[test]
fn status_labels() {
    assert_eq!(request_status_label(true), "ok");
    assert_eq!(request_status_label(false), "fail");
}

fn count_of(registry: &Registry, endpoint: &str, status: &str) -> u64 {
    for family in registry.gather() {
        if family.get_name() != "sol_to_uml_so2uml_requests" {
            continue;
        }
        for metric in family.get_metric() {
            let labels: Vec<(&str, &str)> = metric
                .get_label()
                .iter()
                .map(|l| (l.get_name(), l.get_value()))
                .collect();
            if labels.contains(&("endpoint", endpoint)) && labels.contains(&("status", status)) {
                return metric.get_counter().get_value() as u64;
            }
        }
    }
    0
}

#[test]
fn requests_are_counted_by_endpoint_and_status() {
    let registry = Registry::new();
    let mut counter = register_request_counter(&registry).unwrap();
    count_sol2uml_request(&mut counter, true, "uml");
    count_sol2uml_request(&mut counter, true, "uml");
    count_sol2uml_request(&mut counter, false, "storage");
    assert_eq!(count_of(&registry, "uml", "ok"), 2);
    assert_eq!(count_of(&registry, "storage", "fail"), 1);
    assert_eq!(count_of(&registry, "uml", "fail"), 0);
    assert_eq!(count_of(&registry, "ok", "uml"), 0);
    assert!(register_request_counter(&registry).is_err());
}

#[test]
fn grpc_paths_route_to_methods() {
    assert_eq!(
        route_grpc_path("/blockscout.visualizer.v1.SolidityVisualizer/VisualizeContracts"),
        Some(VisualizerMethod::VisualizeContracts)
    );
    assert_eq!(
        route_grpc_path("/blockscout.visualizer.v1.SolidityVisualizer/VisualizeStorage"),
        Some(VisualizerMethod::VisualizeStorage)
    );
    assert_eq!(route_grpc_path("/blockscout.visualizer.v1.SolidityVisualizer/Other"), None);
    assert_eq!(route_grpc_path(""), None);
}

#[test]
fn http_routes() {
    assert_eq!(
        route_of(VisualizerMethod::VisualizeContracts),
        "/v1/solidity:visualizeContracts"
    );
    assert_eq!(
        route_of(VisualizerMethod::VisualizeStorage),
        "/v1/solidity:VisualizeStorage"
    );
}

#[test]
fn unknown_method_reply() {
    let r = unimplemented_reply();
    assert_eq!(r.http_status, 200);
    assert_eq!(r.grpc_status, "12");
    assert_eq!(r.content_type, "application/grpc");
}

#[test]
fn grpc_path_round_trip() {
    for method in [VisualizerMethod::VisualizeContracts, VisualizerMethod::VisualizeStorage] {
        assert_eq!(route_grpc_path(grpc_path_of(method)), Some(method));
    }
    assert_eq!(
        grpc_path_of(VisualizerMethod::VisualizeStorage),
        "/blockscout.visualizer.v1.SolidityVisualizer/VisualizeStorage"
    );
}
