use clust::client::{default_contexts, select_client, ClusterClient, RealClient, SelectedClient, SimulatedClient};
use clust::config::{Config, KubeConfig};

#[test]
fn client_test_simulated_client_status() {
    let client = SimulatedClient;
    assert_eq!(client.status(), "Simulating cluster");
}

#[test]
fn client_test_simulated_client_get_pods() {
    let client = SimulatedClient;
    let pods = client.get_pods();
    assert_eq!(pods.len(), 3);
    assert_eq!(pods[0], "pod-1");
}

#[test]
fn simulated_pods_are_exact_and_stable() {
    let client = SimulatedClient;
    let first = client.get_pods();
    let second = client.get_pods();
    assert_eq!(first, vec!["pod-1", "pod-2", "pod-3"]);
    assert_eq!(first, second);
}

#[test]
fn default_contexts_are_exact() {
    assert_eq!(default_contexts(), vec!["default", "dev", "prod"]);
}

#[test]
fn stock_clients_report_default_contexts() {
    assert_eq!(SimulatedClient.get_contexts(), vec!["default", "dev", "prod"]);
    let real = RealClient::new("staging".to_string());
    assert_eq!(real.get_contexts(), vec!["default", "dev", "prod"]);
}

#[test]
fn real_client_reports_stub_status() {
    let real = RealClient::new("default".to_string());
    assert_eq!(real.status(), "Real cluster client (stub) with context 'default'");
    let other = RealClient::new("".to_string());
    assert_eq!(other.status(), "Real cluster client (stub) with context ''");
}

#[test]
fn real_client_reports_unimplemented_pods() {
    let real = RealClient::new("default".to_string());
    assert_eq!(real.get_pods(), vec!["POD LISTING NOT IMPLEMENTED"]);
}

fn config(simulated: bool, ctx: &str) -> Config {
    Config {
        simulated,
        kube: KubeConfig {
            default_ctx: ctx.to_string(),
            clusters: vec![ctx.to_string()],
            users: vec!["alice".to_string()],
        },
    }
}

#[test]
fn select_client_simulated() {
    let client = select_client(&config(true, "prod"));
    assert!(matches!(client, SelectedClient::Simulated(_)));
    assert_eq!(client.status(), "Simulating cluster");
    assert_eq!(client.get_pods(), vec!["pod-1", "pod-2", "pod-3"]);
    assert_eq!(client.get_contexts(), vec!["default", "dev", "prod"]);
}

#[test]
fn select_client_real_uses_default_context() {
    let client = select_client(&config(false, "prod"));
    assert!(matches!(client, SelectedClient::Real(_)));
    assert_eq!(client.status(), "Real cluster client (stub) with context 'prod'");
    assert_eq!(client.get_pods(), vec!["POD LISTING NOT IMPLEMENTED"]);
}
