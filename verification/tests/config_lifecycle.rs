use grin_wallet_session::session::WalletInterface;

#[test]
fn first_time_setup_creates_the_config_file() {
    let dir = tempfile::tempdir().unwrap();
    let path = dir.path().to_str().unwrap();
    let mut w = WalletInterface::default();
    assert!(!w.config_exists(path));
    w.ensure_config(path).unwrap();
    let cfg = w.config.as_ref().unwrap();
    assert!(cfg.node_api_http_addr.starts_with("http://"));
    assert!(w.config_exists(path));
}

#[test]
fn reloading_an_existing_config_yields_the_same_settings() {
    let dir = tempfile::tempdir().unwrap();
    let path = dir.path().to_str().unwrap();

    let mut first = WalletInterface::default();
    first.ensure_config(path).unwrap();
    let first_addr = first.config.as_ref().unwrap().node_api_http_addr.clone();

    let mut second = WalletInterface::default();
    second.ensure_config(path).unwrap();
    let second_addr = second.config.as_ref().unwrap().node_api_http_addr.clone();

    assert_eq!(first_addr, second_addr);
    assert!(second.config_exists(path));
}

#[test]
fn a_session_reuses_its_configuration_without_touching_disk() {
    let dir = tempfile::tempdir().unwrap();
    let path = dir.path().to_str().unwrap();
    let mut w = WalletInterface::default();
    w.ensure_config(path).unwrap();
    let before = w.config.as_ref().unwrap().node_api_http_addr.clone();

    // The directory is gone, so a second setup there would fail; a held
    // configuration must be reused without one.
    drop(dir);
    w.ensure_config("/nonexistent/wallet/dir").unwrap();
    let after = w.config.as_ref().unwrap().node_api_http_addr.clone();
    assert_eq!(before, after);
}

#[test]
fn setup_in_an_unwritable_location_is_a_config_error() {
    let mut w = WalletInterface::default();
    let result = w.ensure_config("/proc/no-such-place/wallet");
    match result {
        Err(grin_wallet_session::errors::WalletError::Config(_)) => {}
        _ => panic!("expected a configuration error"),
    }
    assert!(w.config.is_none());
}
