use clust::simulated_cluster::{ClusterClient, SimulatedClient};

#[test]
fn simulated_cluster_test_simulated_client_status() {
    let client = SimulatedClient;
    assert_eq!(client.status(), "Connected to simulated cluster");
}

#[test]
fn simulated_cluster_test_simulated_client_get_pods() {
    let client = SimulatedClient;
    let pods = client.get_pods();
    assert_eq!(pods.len(), 3);
    assert!(pods.contains(&"pod-1".to_string()));
}

#[test]
fn connected_simulated_pods_in_order() {
    assert_eq!(SimulatedClient.get_pods(), vec!["pod-1", "pod-2", "pod-3"]);
}
