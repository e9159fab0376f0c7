use deploy_backend::config::{
    CorsPolicy, ServerConfig, BIND_HOST, BIND_PORT, PREFLIGHT_MAX_AGE_SECS,
};

#[test]
fn default_config_listens_on_loopback_port_8080() {
    let config = ServerConfig::default();
    assert_eq!(config.host, "127.0.0.1");
    assert_eq!(config.port, 8080);
}

#[test]
fn default_config_admits_every_cross_origin_request() {
    let config = ServerConfig::default();
    assert!(config.cors.allow_any_origin);
    assert!(config.cors.allow_any_method);
    assert!(config.cors.allow_any_header);
    assert_eq!(config.cors.max_age_secs, Some(3600));
    assert_eq!(config.cors, CorsPolicy::permissive());
}

#[test]
fn permissive_policy_is_exact() {
    assert_eq!(
        CorsPolicy::permissive(),
        CorsPolicy {
            allow_any_origin: true,
            allow_any_method: true,
            allow_any_header: true,
            max_age_secs: Some(3600),
        }
    );
}

#[test]
fn default_config_is_the_same_every_time() {
    assert_eq!(ServerConfig::default(), ServerConfig::default());
    assert_eq!(
        ServerConfig::default(),
        ServerConfig {
            host: "127.0.0.1".to_string(),
            port: 8080,
            cors: CorsPolicy::permissive(),
        }
    );
}

#[test]
fn config_constants_have_their_documented_values() {
    assert_eq!(BIND_HOST, "127.0.0.1");
    assert_eq!(BIND_PORT, 8080);
    assert_eq!(PREFLIGHT_MAX_AGE_SECS, 3600);
}
