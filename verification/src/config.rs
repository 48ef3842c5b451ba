//! Configuration lifecycle: the in-memory configuration record this
//! crate's logic reads, and the trusted calls into the node's
//! configuration library that probe for, load, or first-time-initialize
//! the configuration file on disk.

use vstd::prelude::*;
use vstd::string::StringExecFns;

verus! {

/// The wallet configuration as this crate's logic reads it: the fields
/// of the loaded (or newly created) configuration file that the
/// initialization workflow consumes, as plain values.
pub struct WalletConfiguration {
    /// HTTP address of the node's check API, which the node-query client
    /// is bound to.
    pub node_api_http_addr: String,
    /// Path of the owner-API secret file, when one is referenced.
    pub api_secret_path: Option<String>,
    /// Path of the node-API secret file, when one is referenced.
    pub node_api_secret_path: Option<String>,
    /// Directory holding the wallet's keychain data.
    pub data_file_dir: String,
}

/// Relies on grin_wallet_config's `ConfigError`: the configuration
/// library's error type, carried opaquely until it is rendered as text.
#[verifier::external_type_specification]
#[verifier::external_body]
pub struct ExConfigError(grin_wallet_config::ConfigError);

/// Relies on grin_wallet_config's `config_file_exists`: whether a file
/// named `grin-wallet.toml` exists under the given directory.  The
/// answer depends on the state of the disk, so nothing is promised of
/// it.
#[verifier::external_body]
pub(crate) fn config_file_exists_at(path: &str) -> bool {
    grin_wallet_config::config_file_exists(path)
}

/// Relies on grin_wallet_config's `initial_setup_wallet`: loads
/// `grin-wallet.toml` under `data_path` when the file exists (refusing
/// when the wallet data directory is already present and `create` is
/// set), or writes a fresh default configuration there, and ensures the
/// two API-secret files exist.  The result depends on the disk, so
/// nothing is promised of it; `None` stands for a loaded record with no
/// member settings, which the library's source never produces on
/// success.
#[verifier::external_body]
fn initial_setup(
    chain_type: grin_core::global::ChainTypes,
    data_path: &str,
    create: bool,
) -> (r: Result<Option<WalletConfiguration>, grin_wallet_config::ConfigError>) {
    let path = Some(std::path::PathBuf::from(data_path));
    match grin_wallet_config::initial_setup_wallet(&chain_type, path, create) {
        Err(e) => Err(e),
        Ok(c) => Ok(c.members.map(|m| WalletConfiguration {
            node_api_http_addr: m.wallet.check_node_api_http_addr,
            api_secret_path: m.wallet.api_secret_path,
            node_api_secret_path: m.wallet.node_api_secret_path,
            data_file_dir: m.wallet.data_file_dir,
        })),
    }
}

/// Relies on `ConfigError`'s Display implementation: renders the
/// configuration library's error as the human-readable cause.
#[verifier::external_body]
fn config_error_message(error: &grin_wallet_config::ConfigError) -> String {
    format!("{}", error)
}

/// Loads the configuration file under `data_path`, or performs
/// first-time setup there when none exists, returning the resulting
/// record; any failure of the configuration library is reported as text.
pub(crate) fn load_or_initialize_at(
    chain_type: grin_core::global::ChainTypes,
    data_path: &str,
) -> (r: Result<WalletConfiguration, String>) {
    match initial_setup(chain_type, data_path, true) {
        Ok(Some(record)) => Ok(record),
        Ok(None) => Err(String::from_str("configuration record holds no member settings")),
        Err(e) => Err(config_error_message(&e)),
    }
}

} // verus!
