//! The wallet session state: the selected chain type and the lazily
//! populated configuration, together with the entry point that begins
//! the wallet-creation workflow.  A caller that shares the session
//! across threads must guard it with a lock of its own and hold
//! exclusive access for the duration of every mutating call.

use vstd::prelude::*;
use crate::chain::{ChainType, as_external_chain, set_global_chain_type};
use crate::config::{WalletConfiguration, config_file_exists_at, load_or_initialize_at};
use crate::errors::WalletError;
use crate::paths::{get_grin_wallet_default_path, wallet_default_path_spec};
use crate::workflow::{InitStage, InitWorkflow};

verus! {

/// The session's wallet state: exactly one chain type, and at most one
/// loaded configuration.  The configuration, once set, is only a cache
/// of settings: it is reused unchanged and is never taken as evidence
/// that a wallet was created.
pub struct WalletInterface {
    /// The network instance this session operates against.
    pub chain_type: ChainType,
    /// The configuration, absent until first loaded or created.
    pub config: Option<WalletConfiguration>,
}

impl Default for WalletInterface {
    /// A fresh session: main network selected, no configuration loaded.
    fn default() -> (r: Self)
        ensures
            r.chain_type == ChainType::Mainnet,
            r.config is None,
    {
        WalletInterface { chain_type: ChainType::Mainnet, config: None }
    }
}

impl WalletInterface {
    /// Selects the main network for this session and propagates the
    /// choice to the process-wide indicator that the node's libraries
    /// read.  The configuration is left untouched; callers must select
    /// the chain type before any path or configuration is resolved.
    pub fn set_chain_type(&mut self)
        ensures
            final(self).chain_type == ChainType::Mainnet,
            final(self).config == old(self).config,
    {
        self.chain_type = ChainType::Mainnet;
        set_global_chain_type(as_external_chain(&self.chain_type));
    }

    /// Whether a configuration file exists under `path`: a read-only
    /// probe of the disk.
    pub fn config_exists(&self, path: &str) -> bool {
        config_file_exists_at(path)
    }

    /// Whether a configuration file exists under the default wallet
    /// directory for this session's chain type: a read-only probe of the
    /// disk.
    pub fn default_config_exists(&self) -> bool {
        let path = get_grin_wallet_default_path(&self.chain_type);
        self.config_exists(path.as_str())
    }

    /// Ensures the session holds a configuration: one already present is
    /// reused unchanged and nothing touches the disk; otherwise the
    /// configuration file under `data_path` is loaded, or created by
    /// first-time setup when missing.  Only a session without a
    /// configuration can fail, and it is left without one.
    pub fn ensure_config(&mut self, data_path: &str) -> (r: Result<(), WalletError>)
        ensures
            final(self).chain_type == old(self).chain_type,
            old(self).config is Some ==> r is Ok && final(self).config == old(self).config,
            r is Ok ==> final(self).config is Some,
            r is Err ==> old(self).config is None && final(self).config is None,
            (r matches Err(e) ==> e is Config),
    {
        if self.config.is_some() {
            return Ok(());
        }
        match load_or_initialize_at(as_external_chain(&self.chain_type), data_path) {
            Ok(record) => {
                self.config = Some(record);
                Ok(())
            }
            Err(message) => Err(WalletError::Config(message)),
        }
    }
}

/// Begins the wallet-creation workflow for the session: resolves the
/// top-level directory for the session's chain type, ensures a
/// configuration is held (reusing one already present unchanged), and
/// hands back the workflow poised at its first step, the construction of
/// the node-query client bound to the configured node-API address.  The
/// workflow's remaining steps are performed by a driver and reported
/// back to it one by one; it completes only after the keychain-creation
/// step has succeeded.
pub fn init(w: &mut WalletInterface, password: String) -> (r: Result<InitWorkflow, WalletError>)
    ensures
        final(w).chain_type == old(w).chain_type,
        old(w).config is Some ==> r is Ok && final(w).config == old(w).config,
        r is Ok ==> final(w).config is Some,
        r is Err ==> old(w).config is None && final(w).config is None,
        (r matches Err(e) ==> e is Config),
        (r matches Ok(flow) ==> {
            &&& flow.wf()
            &&& flow.stage == InitStage::BuildNodeClient
            &&& flow.chain_type == old(w).chain_type
            &&& flow.node_addr@ == final(w).config->Some_0.node_api_http_addr@
            &&& flow.password@ == password@
            &&& flow.mnemonic_length == 32
            &&& flow.recovery_phrase is None
            &&& exists|home: Seq<char>|
                flow.path@ == wallet_default_path_spec(home, old(w).chain_type)
        }),
{
    let path = get_grin_wallet_default_path(&w.chain_type);
    match w.ensure_config(path.as_str()) {
        Ok(()) => {}
        Err(e) => {
            return Err(e);
        }
    }
    let node_addr = match &w.config {
        Some(record) => record.node_api_http_addr.clone(),
        None => String::new(),
    };
    Ok(InitWorkflow::start(w.chain_type, path, node_addr, password))
}

} // verus!
