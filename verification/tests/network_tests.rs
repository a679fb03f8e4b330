use broadnym::network::Network;

#[test]
fn mainnet_url_is_exact() {
    assert_eq!(Network::Mainnet.mempool_api_url(), "https://mempool.space/api");
}

#[test]
fn testnet_url_is_exact() {
    assert_eq!(Network::Testnet.mempool_api_url(), "https://mempool.space/testnet/api");
}

#[test]
fn urls_are_distinct_and_non_empty() {
    let mainnet = Network::Mainnet.mempool_api_url();
    let testnet = Network::Testnet.mempool_api_url();
    assert_ne!(mainnet, testnet);
    assert!(!mainnet.is_empty());
    assert!(!testnet.is_empty());
}

#[test]
fn url_mapping_is_pure_across_calls() {
    let first = Network::Mainnet.mempool_api_url();
    let second = Network::Mainnet.mempool_api_url();
    assert_eq!(first, second);
    let first = Network::Testnet.mempool_api_url();
    let second = Network::Testnet.mempool_api_url();
    assert_eq!(first, second);
}
