//! Deterministic resolution of the wallet's top-level directory from the
//! platform home directory and the selected chain type.  The resolved
//! path is `<home>/.grin/<chain short name>/grin_wallet/default`; when no
//! home directory can be determined the home component is left out and a
//! relative path is produced, so that startup never blocks on the lookup.

use vstd::prelude::*;
use vstd::string::StringExecFns;
use crate::chain::ChainType;

verus! {

/// Name of the wallet configuration file.
pub const WALLET_CONFIG_FILE_NAME: &'static str = "grin-wallet.toml";

/// Name of the directory holding the wallet's keychain data.
pub const GRIN_WALLET_DIR: &'static str = "wallet_data";

/// Name of the wallet's top-level directory component.
pub const GRIN_WALLET_TOP_LEVEL_DIR: &'static str = "grin_wallet";

/// Name of the default account directory component.
pub const GRIN_WALLET_DEFAULT_DIR: &'static str = "default";

/// Name of the foreign-API secret file.
pub const API_SECRET_FILE_NAME: &'static str = ".foreign_api_secret";

/// Name of the owner-API secret file.
pub const OWNER_API_SECRET_FILE_NAME: &'static str = ".owner_api_secret";

/// A path component appended to a base path: the base and the component
/// separated by `/`, or the component alone when the base is empty.
pub open spec fn join_spec(base: Seq<char>, segment: Seq<char>) -> Seq<char> {
    if base.len() == 0 {
        segment
    } else {
        base + "/"@ + segment
    }
}

/// The canonical top-level wallet directory for a home directory and a
/// chain type: `<home>/.grin/<chain short name>/grin_wallet/default`.
pub open spec fn wallet_default_path_spec(home: Seq<char>, chain_type: ChainType) -> Seq<char> {
    join_spec(
        join_spec(
            join_spec(join_spec(home, ".grin"@), chain_type.shortname_spec()),
            "grin_wallet"@,
        ),
        "default"@,
    )
}

/// Appends one path component to a base path.
fn push_segment(base: String, segment: &str) -> (r: String)
    ensures
        r@ == join_spec(base@, segment@),
{
    if base.as_str().is_empty() {
        String::from_str(segment)
    } else {
        base.concat("/").concat(segment)
    }
}

/// Resolves the canonical top-level wallet directory for the given home
/// directory and chain type.  The result is a pure function of its two
/// arguments: identical inputs always yield the identical path.
pub fn wallet_default_path(home: &str, chain_type: &ChainType) -> (r: String)
    ensures
        r@ == wallet_default_path_spec(home@, *chain_type),
{
    let mut path = String::from_str(home);
    path = push_segment(path, ".grin");
    path = push_segment(path, chain_type.shortname());
    path = push_segment(path, "grin_wallet");
    path = push_segment(path, "default");
    path
}

/// Path determinism: resolving the wallet directory twice for the same
/// home directory and chain type yields the same path.
pub proof fn lemma_path_determinism(
    home: Seq<char>,
    chain_type: ChainType,
    first: Seq<char>,
    second: Seq<char>,
)
    requires
        first == wallet_default_path_spec(home, chain_type),
        second == wallet_default_path_spec(home, chain_type),
    ensures
        first == second,
{
}

/// Relies on dirs::home_dir: the platform home directory, if one can be
/// determined.  The answer depends on the environment, so nothing is
/// promised of it; a home directory that is not valid UTF-8 is treated as
/// absent.
#[verifier::external_body]
fn home_dir_string() -> (r: Option<String>) {
    match dirs::home_dir() {
        Some(p) => p.to_str().map(|s| s.to_string()),
        None => None,
    }
}

/// Resolves the wallet's top-level directory for the given chain type
/// under the platform home directory, falling back to a relative path
/// when no home directory can be determined, so that startup never fails
/// on the lookup.
pub fn get_grin_wallet_default_path(chain_type: &ChainType) -> (r: String)
    ensures
        exists|home: Seq<char>| r@ == wallet_default_path_spec(home, *chain_type),
{
    let home = match home_dir_string() {
        Some(h) => h,
        None => String::new(),
    };
    wallet_default_path(home.as_str(), chain_type)
}

} // verus!
