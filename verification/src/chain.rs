//! Chain-type selection: which network instance the wallet operates
//! against, and the propagation of that choice to the process-wide
//! indicator that the node's libraries read.

use vstd::prelude::*;

verus! {

/// The network instance a wallet operates against.  The chain type
/// determines the path segment that isolates one network's data from
/// another's, and must be chosen before any path or configuration is
/// resolved.
#[derive(Clone, Copy, PartialEq, Eq, Structural, Debug)]
pub enum ChainType {
    /// Continuous-integration test network.
    AutomatedTesting,
    /// User-local test network.
    UserTesting,
    /// Public protocol test network.
    Testnet,
    /// Main production network.
    Mainnet,
}

impl ChainType {
    /// The short name of the chain type, used as the path segment that
    /// isolates this network's wallet data on disk.
    pub open spec fn shortname_spec(self) -> Seq<char> {
        match self {
            ChainType::AutomatedTesting => "auto"@,
            ChainType::UserTesting => "user"@,
            ChainType::Testnet => "test"@,
            ChainType::Mainnet => "main"@,
        }
    }

    /// Short name representing the chain type, spelled exactly as the
    /// node's own libraries spell it.
    pub fn shortname(&self) -> (r: &'static str)
        ensures
            r@ == self.shortname_spec(),
    {
        match self {
            ChainType::AutomatedTesting => "auto",
            ChainType::UserTesting => "user",
            ChainType::Testnet => "test",
            ChainType::Mainnet => "main",
        }
    }
}

impl Default for ChainType {
    /// The main production network is the default chain type.
    fn default() -> (r: Self)
        ensures
            r == ChainType::Mainnet,
    {
        ChainType::Mainnet
    }
}

/// Relies on grin_core's `global::ChainTypes`: the node's enumeration of
/// networks, carried opaquely so that calls into the node's libraries can
/// be handed the network selection.
#[verifier::external_type_specification]
#[verifier::external_body]
pub struct ExChainTypes(grin_core::global::ChainTypes);

/// Relies on grin_core's `global::ChainTypes` having one variant for each
/// chain type of this crate; maps each chain type to its counterpart.
#[verifier::external_body]
pub(crate) fn as_external_chain(
    chain_type: &ChainType,
) -> grin_core::global::ChainTypes {
    match chain_type {
        ChainType::AutomatedTesting => {
            grin_core::global::ChainTypes::AutomatedTesting
        }
        ChainType::UserTesting => grin_core::global::ChainTypes::UserTesting,
        ChainType::Testnet => grin_core::global::ChainTypes::Testnet,
        ChainType::Mainnet => grin_core::global::ChainTypes::Mainnet,
    }
}

/// Relies on grin_core's `global::set_local_chain_type`: records the given
/// chain type in the process-wide (thread-local) indicator that the node's
/// libraries consult.  It only stores the value and cannot fail.
#[verifier::external_body]
pub(crate) fn set_global_chain_type(chain_type: grin_core::global::ChainTypes) {
    grin_core::global::set_local_chain_type(chain_type);
}

} // verus!
