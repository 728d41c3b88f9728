use clust::config::Config;

#[test]
fn default_config_for_user() {
    let config = Config::default_for_user("alice".to_string());
    assert!(config.simulated);
    assert_eq!(config.kube.default_ctx, "simulated");
    assert_eq!(config.kube.clusters, vec!["simulated"]);
    assert_eq!(config.kube.users, vec!["alice"]);
}
