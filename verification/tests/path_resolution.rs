use grin_wallet_session::chain::ChainType;
use grin_wallet_session::paths::{
    get_grin_wallet_default_path, wallet_default_path, GRIN_WALLET_DEFAULT_DIR, GRIN_WALLET_DIR,
    GRIN_WALLET_TOP_LEVEL_DIR, WALLET_CONFIG_FILE_NAME,
};

#[test]
fn shortnames_match_the_node_libraries() {
    assert_eq!(ChainType::Mainnet.shortname(), "main");
    assert_eq!(ChainType::Testnet.shortname(), "test");
    assert_eq!(ChainType::UserTesting.shortname(), "user");
    assert_eq!(ChainType::AutomatedTesting.shortname(), "auto");
}

#[test]
fn default_chain_type_is_mainnet() {
    assert_eq!(ChainType::default(), ChainType::Mainnet);
}

#[test]
fn mainnet_path_under_home_directory() {
    let path = wallet_default_path("/home/u", &ChainType::Mainnet);
    assert_eq!(path, "/home/u/.grin/main/grin_wallet/default");
}

#[test]
fn testnet_path_uses_its_own_segment() {
    let path = wallet_default_path("/home/u", &ChainType::Testnet);
    assert_eq!(path, "/home/u/.grin/test/grin_wallet/default");
}

#[test]
fn resolution_is_deterministic() {
    let first = wallet_default_path("/home/u", &ChainType::Mainnet);
    let second = wallet_default_path("/home/u", &ChainType::Mainnet);
    assert_eq!(first, second);
    let third = wallet_default_path("/somewhere/else", &ChainType::UserTesting);
    let fourth = wallet_default_path("/somewhere/else", &ChainType::UserTesting);
    assert_eq!(third, fourth);
}

#[test]
fn missing_home_directory_falls_back_to_relative_path() {
    let path = wallet_default_path("", &ChainType::Mainnet);
    assert_eq!(path, ".grin/main/grin_wallet/default");
}

#[test]
fn platform_resolution_ends_with_canonical_components() {
    let path = get_grin_wallet_default_path(&ChainType::Mainnet);
    assert!(path.ends_with(".grin/main/grin_wallet/default"));
    let again = get_grin_wallet_default_path(&ChainType::Mainnet);
    assert_eq!(path, again);
}

#[test]
fn fixed_names_are_the_wallets_conventions() {
    assert_eq!(WALLET_CONFIG_FILE_NAME, "grin-wallet.toml");
    assert_eq!(GRIN_WALLET_DIR, "wallet_data");
    assert_eq!(GRIN_WALLET_TOP_LEVEL_DIR, "grin_wallet");
    assert_eq!(GRIN_WALLET_DEFAULT_DIR, "default");
}
