use tx_simulator::config::load_config;
use tx_simulator::errors::ConfigError;

fn env(pairs: &[(&str, &str)]) -> Vec<(String, String)> {
    pairs.iter().map(|(name, value)| (name.to_string(), value.to_string())).collect()
}

#[test]
fn test_config_port_number() {
    assert_eq!(load_config(&env(&[("PORT", "not a number")])).err(), Some(ConfigError::InvalidPort));
}

#[test]
fn test_config_fork_url() {
    let config = load_config(&env(&[("FORK_URL", "a")])).unwrap();
    assert_eq!(config.fork_url, Some("a".to_string()));

    let config = load_config(&env(&[("FORK_URL", "")])).unwrap();
    assert_eq!(config.fork_url, None);

    let config = load_config(&env(&[])).unwrap();
    assert_eq!(config.fork_url, None);
}

#[test]
fn test_config_etherscan_key() {
    let config = load_config(&env(&[("ETHERSCAN_KEY", "a")])).unwrap();
    assert_eq!(config.etherscan_key, Some("a".to_string()));

    let config = load_config(&env(&[("ETHERSCAN_KEY", "")])).unwrap();
    assert_eq!(config.etherscan_key, None);

    let config = load_config(&env(&[])).unwrap();
    assert_eq!(config.etherscan_key, None);
}

#[test]
fn test_config_api_key() {
    let config = load_config(&env(&[("API_KEY", "a")])).unwrap();
    assert_eq!(config.api_key, Some("a".to_string()));

    let config = load_config(&env(&[("API_KEY", "")])).unwrap();
    assert_eq!(config.api_key, None);

    let config = load_config(&env(&[])).unwrap();
    assert_eq!(config.api_key, None);
}

#[test]
fn empty_environment_gives_the_defaults() {
    let config = load_config(&env(&[])).unwrap();
    assert_eq!(config.port, 8080);
    assert_eq!(config.max_request_size, 16 * 1024);
    assert_eq!(config.max_request_size, 16384);
    assert!(config.rpc_urls.is_empty());
}

#[test]
fn port_is_read_in_decimal() {
    assert_eq!(load_config(&env(&[("PORT", "3000")])).unwrap().port, 3000);
    assert_eq!(load_config(&env(&[("PORT", "+80")])).unwrap().port, 80);
    assert_eq!(load_config(&env(&[("PORT", "65535")])).unwrap().port, 65535);
    assert_eq!(load_config(&env(&[("PORT", "0")])).unwrap().port, 0);
}

#[test]
fn port_out_of_range_or_malformed_is_refused() {
    for text in ["65536", "", "+", "-1", " 80", "80 ", "8_0", "0x50", "99999999999999999999999"] {
        assert_eq!(
            load_config(&env(&[("PORT", text)])).err(),
            Some(ConfigError::InvalidPort),
            "{:?}",
            text
        );
    }
}

#[test]
fn max_request_size_is_given_in_kibibytes() {
    let config = load_config(&env(&[("MAX_REQUEST_SIZE", "2")])).unwrap();
    assert_eq!(config.max_request_size, 2048);
    let config = load_config(&env(&[("MAX_REQUEST_SIZE", "18014398509481983")])).unwrap();
    assert_eq!(config.max_request_size, 18014398509481983 * 1024);
}

#[test]
fn max_request_size_that_does_not_fit_is_refused() {
    for text in ["18014398509481984", "18446744073709551616", "x", ""] {
        assert_eq!(
            load_config(&env(&[("MAX_REQUEST_SIZE", text)])).err(),
            Some(ConfigError::InvalidMaxRequestSize),
            "{:?}",
            text
        );
    }
}

#[test]
fn invalid_port_is_reported_before_an_invalid_size() {
    let vars = env(&[("MAX_REQUEST_SIZE", "x"), ("PORT", "y")]);
    assert_eq!(load_config(&vars).err(), Some(ConfigError::InvalidPort));
}

#[test]
fn rpc_urls_are_collected_by_chain() {
    let vars = env(&[
        ("RPC_URL_1", "http://one"),
        ("RPC_URL_137", "http://polygon"),
        ("RPC_URL_", "http://nothing"),
        ("RPC_URL_x", "http://letters"),
        ("RPC_URL_5", ""),
        ("RPC_URL_18446744073709551616", "http://too-large"),
        ("rpc_url_10", "http://lower-case"),
        ("XRPC_URL_56", "http://shifted"),
        ("PATH", "/usr/bin"),
    ]);
    let config = load_config(&vars).unwrap();
    assert_eq!(config.rpc_urls.len(), 2);
    assert_eq!(config.rpc_urls.get(&1), Some(&"http://one".to_string()));
    assert_eq!(config.rpc_urls.get(&137), Some(&"http://polygon".to_string()));
}

#[test]
fn later_entry_for_a_chain_wins() {
    let vars = env(&[("RPC_URL_1", "http://first"), ("RPC_URL_+1", "http://second")]);
    let config = load_config(&vars).unwrap();
    assert_eq!(config.rpc_urls.len(), 1);
    assert_eq!(config.rpc_urls.get(&1), Some(&"http://second".to_string()));
}

#[test]
fn later_value_of_a_variable_wins() {
    let vars = env(&[("API_KEY", "old"), ("API_KEY", "new"), ("FORK_URL", "x"), ("FORK_URL", "")]);
    let config = load_config(&vars).unwrap();
    assert_eq!(config.api_key, Some("new".to_string()));
    assert_eq!(config.fork_url, None);
}
