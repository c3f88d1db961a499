use omnigate::config::Config;

#[test]
fn test_config_default() {
    let config = Config::default();
    assert_eq!(config.server.rest_host, "127.0.0.1");
    assert_eq!(config.server.rest_port, 3000);
    assert_eq!(config.server.grpc_host, "[::1]");
    assert_eq!(config.server.grpc_port, 5000);
    assert_eq!(config.logging.level, "debug");
}

#[test]
fn default_endpoints_join_host_and_port() {
    let config = Config::default();
    assert_eq!(config.rest_endpoint(), "127.0.0.1:3000");
    assert_eq!(config.grpc_endpoint(), "[::1]:5000");
}

#[test]
fn endpoint_of_port_zero_and_max() {
    let mut config = Config::default();
    config.server.rest_port = 0;
    config.server.grpc_port = 65535;
    assert_eq!(config.rest_endpoint(), "127.0.0.1:0");
    assert_eq!(config.grpc_endpoint(), "[::1]:65535");
}
