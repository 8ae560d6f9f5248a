use httpx_transport::client::{ClientConfig, USER_AGENT};

#[test]
fn default_config_has_the_documented_settings() {
    let config = ClientConfig::default();
    assert_eq!(config.timeout_secs, 30);
    assert_eq!(config.pool_max_idle_per_host, 64);
    assert_eq!(config.pool_idle_timeout_secs, 90);
    assert_eq!(config.retries_max_attempts, 3);
    assert_eq!(config.user_agent, "rust-httpx-transport/0.1.0");
    assert_eq!(config.user_agent, USER_AGENT);
}
