use grin_wallet_session::chain::ChainType;
use grin_wallet_session::config::WalletConfiguration;
use grin_wallet_session::errors::WalletError;
use grin_wallet_session::session::{init, WalletInterface};
use grin_wallet_session::workflow::{InitAction, InitStage, StepReport};

fn preset_session() -> WalletInterface {
    WalletInterface {
        chain_type: ChainType::Mainnet,
        config: Some(WalletConfiguration {
            node_api_http_addr: String::from("http://127.0.0.1:3413"),
            api_secret_path: None,
            node_api_secret_path: None,
            data_file_dir: String::from("/home/u/.grin/main/grin_wallet/default/wallet_data"),
        }),
    }
}

#[test]
fn init_reuses_a_present_configuration_unchanged() {
    let mut w = preset_session();
    let flow = init(&mut w, String::from("correct-horse")).unwrap();
    assert_eq!(flow.stage, InitStage::BuildNodeClient);
    let cfg = w.config.as_ref().unwrap();
    assert_eq!(cfg.node_api_http_addr, "http://127.0.0.1:3413");
    assert_eq!(flow.node_addr, "http://127.0.0.1:3413");
}

#[test]
fn happy_path_drives_every_step_in_order_and_confirms_directory() {
    let mut w = preset_session();
    let mut flow = init(&mut w, String::from("correct-horse")).unwrap();

    match flow.next_action().unwrap() {
        InitAction::BuildNodeClient { node_api_addr } => {
            assert_eq!(node_api_addr, "http://127.0.0.1:3413");
        }
        _ => panic!("expected the node client to be built first"),
    }
    flow.advance(StepReport::Succeeded);

    assert!(matches!(flow.next_action().unwrap(), InitAction::InstantiateWallet));
    flow.advance(StepReport::Succeeded);

    match flow.next_action().unwrap() {
        InitAction::BindDirectory { path } => {
            assert!(path.ends_with(".grin/main/grin_wallet/default"));
        }
        _ => panic!("expected the storage directory to be bound third"),
    }
    flow.advance(StepReport::Succeeded);

    match flow.next_action().unwrap() {
        InitAction::WriteConfigFile { path, file_name, chain_type } => {
            assert!(path.ends_with(".grin/main/grin_wallet/default"));
            assert_eq!(file_name, "grin-wallet.toml");
            assert_eq!(chain_type, ChainType::Mainnet);
        }
        _ => panic!("expected the config file to be written fourth"),
    }
    flow.advance(StepReport::Succeeded);

    match flow.next_action().unwrap() {
        InitAction::CreateWallet { password, mnemonic_length, recovery_phrase, restore } => {
            assert_eq!(password, "correct-horse");
            assert_eq!(mnemonic_length, 32);
            assert!(recovery_phrase.is_none());
            assert!(!restore);
        }
        _ => panic!("expected the keychain to be created fifth"),
    }
    flow.advance(StepReport::Succeeded);

    assert!(matches!(flow.next_action().unwrap(), InitAction::QueryDirectory));
    flow.advance(StepReport::SucceededWithDir {
        dir: String::from("/home/u/.grin/main/grin_wallet/default"),
    });

    assert!(flow.next_action().is_none());
    match flow.outcome().unwrap() {
        Ok(dir) => assert_eq!(dir, "/home/u/.grin/main/grin_wallet/default"),
        Err(e) => panic!("workflow failed: {}", e.message()),
    }
}

#[test]
fn completion_without_reported_directory_confirms_resolved_path() {
    let mut w = preset_session();
    let mut flow = init(&mut w, String::from("correct-horse")).unwrap();
    let resolved = flow.path.clone();
    for _ in 0..5 {
        flow.advance(StepReport::Succeeded);
    }
    flow.advance(StepReport::Succeeded);
    match flow.outcome().unwrap() {
        Ok(dir) => assert_eq!(dir, resolved),
        Err(e) => panic!("workflow failed: {}", e.message()),
    }
}

#[test]
fn keychain_failure_is_an_error_not_a_silent_success() {
    let mut w = preset_session();
    let mut flow = init(&mut w, String::from("correct-horse")).unwrap();
    for _ in 0..4 {
        flow.advance(StepReport::Succeeded);
    }
    assert_eq!(flow.stage, InitStage::CreateWallet);
    flow.advance(StepReport::Failed {
        message: String::from("wallet seed already exists"),
    });
    match flow.outcome().unwrap() {
        Ok(_) => panic!("a failed keychain creation must not complete the workflow"),
        Err(e) => {
            assert!(matches!(e, WalletError::Lifecycle(_)));
            assert_eq!(e.message(), "wallet seed already exists");
        }
    }
}

#[test]
fn node_client_failure_is_a_construction_error() {
    let mut w = preset_session();
    let mut flow = init(&mut w, String::from("correct-horse")).unwrap();
    flow.advance(StepReport::Failed {
        message: String::from("malformed node API address"),
    });
    match flow.outcome().unwrap() {
        Ok(_) => panic!("a failed node client build must not complete the workflow"),
        Err(e) => {
            assert!(matches!(e, WalletError::Construction(_)));
            assert_eq!(e.message(), "malformed node API address");
        }
    }
}

#[test]
fn a_failed_workflow_stays_failed() {
    let mut w = preset_session();
    let mut flow = init(&mut w, String::from("correct-horse")).unwrap();
    flow.advance(StepReport::Failed {
        message: String::from("connection refused"),
    });
    flow.advance(StepReport::Succeeded);
    flow.advance(StepReport::Succeeded);
    assert_eq!(flow.stage, InitStage::Failed);
    assert!(flow.outcome().unwrap().is_err());
}

#[test]
fn a_full_run_asks_for_keychain_creation_exactly_once() {
    let mut w = preset_session();
    let mut flow = init(&mut w, String::from("correct-horse")).unwrap();
    let mut create_wallet_actions = 0;
    while let Some(action) = flow.next_action() {
        if let InitAction::CreateWallet { .. } = action {
            create_wallet_actions += 1;
        }
        flow.advance(StepReport::Succeeded);
    }
    assert_eq!(create_wallet_actions, 1);
    assert!(flow.outcome().unwrap().is_ok());
}

#[test]
fn retry_after_failure_between_config_write_and_keychain_creation() {
    // First attempt: the config file is written, then keychain creation
    // fails; the run must end in an error.
    let mut w = preset_session();
    let mut first = init(&mut w, String::from("correct-horse")).unwrap();
    for _ in 0..4 {
        first.advance(StepReport::Succeeded);
    }
    assert_eq!(first.stage, InitStage::CreateWallet);
    first.advance(StepReport::Failed { message: String::from("disk full") });
    assert!(first.outcome().unwrap().is_err());

    // Retry with the same session: the held configuration is reused, and
    // the new run still asks for the keychain to be created rather than
    // completing on the strength of the existing config file.
    let mut second = init(&mut w, String::from("correct-horse")).unwrap();
    let mut saw_create_wallet = false;
    while let Some(action) = second.next_action() {
        if let InitAction::CreateWallet { .. } = action {
            saw_create_wallet = true;
        }
        second.advance(StepReport::Succeeded);
    }
    assert!(saw_create_wallet);
    assert!(second.outcome().unwrap().is_ok());
}

#[test]
fn workflow_path_is_the_resolved_default_path() {
    let mut w = preset_session();
    let flow = init(&mut w, String::from("correct-horse")).unwrap();
    let resolved =
        grin_wallet_session::paths::get_grin_wallet_default_path(&ChainType::Mainnet);
    assert_eq!(flow.path, resolved);
}

#[test]
fn a_completed_workflow_stays_completed() {
    let mut w = preset_session();
    let mut flow = init(&mut w, String::from("correct-horse")).unwrap();
    for _ in 0..6 {
        flow.advance(StepReport::Succeeded);
    }
    assert_eq!(flow.stage, InitStage::Complete);
    flow.advance(StepReport::Failed { message: String::from("late report") });
    assert_eq!(flow.stage, InitStage::Complete);
    assert!(flow.outcome().unwrap().is_ok());
}

#[test]
fn set_chain_type_selects_mainnet_and_keeps_config() {
    let mut w = preset_session();
    w.set_chain_type();
    assert_eq!(w.chain_type, ChainType::Mainnet);
    assert!(w.config.is_some());
}

#[test]
fn default_session_is_unconfigured_mainnet() {
    let w = WalletInterface::default();
    assert_eq!(w.chain_type, ChainType::Mainnet);
    assert!(w.config.is_none());
}
