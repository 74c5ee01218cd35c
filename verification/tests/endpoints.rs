use std::collections::HashMap;
use tx_simulator::config::Config;
use tx_simulator::errors::SimulationError;
use tx_simulator::simulation::chain_id_to_fork_url;

fn config_with(rpc_urls: HashMap<u64, String>) -> Config {
    Config {
        port: 8080,
        fork_url: None,
        etherscan_key: None,
        api_key: None,
        max_request_size: 16 * 1024,
        rpc_urls,
    }
}

#[test]
fn builtin_endpoint_is_used_without_an_operator_entry() {
    let config = config_with(HashMap::new());
    assert_eq!(chain_id_to_fork_url(1, &config), Ok("https://eth.drpc.org".to_string()));
    assert_eq!(chain_id_to_fork_url(8453, &config), Ok("https://base.drpc.org".to_string()));
}

#[test]
fn operator_entry_wins_over_the_builtin_endpoint() {
    let mut rpc_urls = HashMap::new();
    rpc_urls.insert(1, "http://localhost:8545".to_string());
    let config = config_with(rpc_urls);
    assert_eq!(chain_id_to_fork_url(1, &config), Ok("http://localhost:8545".to_string()));
    assert_eq!(chain_id_to_fork_url(137, &config), Ok("https://polygon.drpc.org".to_string()));
}

#[test]
fn unknown_chain_has_no_endpoint() {
    let config = config_with(HashMap::new());
    assert_eq!(chain_id_to_fork_url(2, &config), Err(SimulationError::NoURLForChainId));
}
