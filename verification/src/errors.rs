//! Error taxonomy of the wallet session: configuration failures,
//! construction failures (node client, wallet handle), and lifecycle
//! failures (directory binding, config materialization, keychain
//! creation).  Every error carries the underlying cause as text so the
//! caller can decide whether to retry, reconfigure, or abort.

use vstd::prelude::*;

verus! {

/// Why a wallet session operation failed.
#[derive(Debug)]
pub enum WalletError {
    /// The configuration file could not be loaded or created, or the
    /// loaded record was unusable.  Recoverable by fixing the path or
    /// permissions and retrying.
    Config(String),
    /// The node-API address was rejected or the wallet handle could not
    /// be instantiated.
    Construction(String),
    /// The lifecycle provider failed: directory binding, config-file
    /// materialization, or keychain creation.
    Lifecycle(String),
}

impl WalletError {
    /// The underlying cause, as text.
    pub open spec fn message_spec(self) -> Seq<char> {
        match self {
            WalletError::Config(m) => m@,
            WalletError::Construction(m) => m@,
            WalletError::Lifecycle(m) => m@,
        }
    }

    /// The underlying cause of the failure, for display to the user.
    pub fn message(&self) -> (r: String)
        ensures
            r@ == self.message_spec(),
    {
        match self {
            WalletError::Config(m) => m.clone(),
            WalletError::Construction(m) => m.clone(),
            WalletError::Lifecycle(m) => m.clone(),
        }
    }

    /// A copy of this error: same variant, same message.
    pub fn duplicate(&self) -> (r: WalletError)
        ensures
            r.message_spec() == self.message_spec(),
            r is Config <==> self is Config,
            r is Construction <==> self is Construction,
            r is Lifecycle <==> self is Lifecycle,
    {
        match self {
            WalletError::Config(m) => WalletError::Config(m.clone()),
            WalletError::Construction(m) => WalletError::Construction(m.clone()),
            WalletError::Lifecycle(m) => WalletError::Lifecycle(m.clone()),
        }
    }
}

} // verus!
