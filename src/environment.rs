//! Network configuration: where each supported chain's venue and contracts
//! are. The configuration is an explicit value handed to whoever needs it.

use vstd::prelude::*;
use vstd::string::StringExecFns;
use crate::text::str_eq;
use crate::values::Address;

verus! {

/// The decimals of the deposit token.
pub const DEPOSIT_TOKEN_DECIMALS: u8 = 18;

pub const ARBITRUM_ONE_CHAIN_ID: u64 = 42161;

pub const ARBITRUM_SEPOLIA_CHAIN_ID: u64 = 421614;

pub const BASE_CHAIN_ID: u64 = 8453;

/// The configuration of every supported network.
#[derive(Clone, Debug)]
pub struct Config {
    pub arbitrum_sepolia: NetworkConfig,
    pub arbitrum_one: NetworkConfig,
    pub base: NetworkConfig,
}

/// Where a network's venue, indexer and contracts are.
#[derive(Clone, Debug)]
pub struct NetworkConfig {
    pub ws: String,
    pub subgraph: String,
    /// The USD token (or its testnet stand-in).
    pub usd: Address,
    pub beacon: String,
    pub account: String,
    pub treasury: String,
    pub liquidity_token_factory: String,
    pub liquidity_pool: String,
}

/// What str::to_lowercase makes of a text.
pub uninterp spec fn lowercase_of(s: Seq<char>) -> Seq<char>;

/// Relies on str::to_lowercase, whose result depends on the text alone.
#[verifier::external_body]
fn to_lowercase(s: &str) -> (r: String)
    ensures
        r@ == lowercase_of(s@),
{
    s.to_lowercase()
}

/// The network that a name stands for, given the name in lowercase.
pub open spec fn network_named(config: Config, lower: Seq<char>) -> Option<NetworkConfig> {
    if lower == "arbitrum-one"@ {
        Some(config.arbitrum_one)
    } else if lower == "arbitrum-sepolia"@ {
        Some(config.arbitrum_sepolia)
    } else if lower == "base"@ {
        Some(config.base)
    } else {
        None
    }
}

/// The network named by an already-lowercased name.
pub fn network_config_of_lowercase<'a>(config: &'a Config, lower: &str) -> (r: Option<&'a NetworkConfig>)
    ensures
        r matches Some(c) ==> network_named(*config, lower@) == Some(*c),
        r is None ==> network_named(*config, lower@) is None,
{
    if str_eq(lower, "arbitrum-one") {
        Some(&config.arbitrum_one)
    } else if str_eq(lower, "arbitrum-sepolia") {
        Some(&config.arbitrum_sepolia)
    } else if str_eq(lower, "base") {
        Some(&config.base)
    } else {
        None
    }
}

/// The network with the given name, in any case: `arbitrum-one`,
/// `arbitrum-sepolia` or `base`.
pub fn get_network_config<'a>(config: &'a Config, network: &str) -> (r: Option<&'a NetworkConfig>)
    ensures
        r matches Some(c) ==> network_named(*config, lowercase_of(network@)) == Some(*c),
        r is None ==> network_named(*config, lowercase_of(network@)) is None,
{
    let lower = to_lowercase(network);
    network_config_of_lowercase(config, lower.as_str())
}

/// The name of the network with the given chain id.
pub open spec fn chain_name(chain_id: u64) -> Option<Seq<char>> {
    if chain_id == ARBITRUM_ONE_CHAIN_ID {
        Some("arbitrum-one"@)
    } else if chain_id == ARBITRUM_SEPOLIA_CHAIN_ID {
        Some("arbitrum-sepolia"@)
    } else if chain_id == BASE_CHAIN_ID {
        Some("base"@)
    } else {
        None
    }
}

pub fn chain_id_to_network_name(chain_id: u64) -> (r: Option<String>)
    ensures
        r is Some <==> chain_name(chain_id) is Some,
        r matches Some(n) ==> chain_name(chain_id) == Some(n@),
{
    match chain_id {
        ARBITRUM_ONE_CHAIN_ID => Some(String::from_str("arbitrum-one")),
        ARBITRUM_SEPOLIA_CHAIN_ID => Some(String::from_str("arbitrum-sepolia")),
        BASE_CHAIN_ID => Some(String::from_str("base")),
        _ => None,
    }
}

/// The network with the given chain id.
pub fn get_network_config_by_chain_id(config: &Config, chain_id: u64) -> (r: Option<&NetworkConfig>)
    ensures
        chain_name(chain_id) is None ==> r is None,
        chain_name(chain_id) matches Some(n) ==> (r matches Some(c) ==> network_named(*config, n)
            == Some(*c)) && (r is None ==> network_named(*config, n) is None),
{
    match chain_id_to_network_name(chain_id) {
        None => None,
        Some(name) => network_config_of_lowercase(config, name.as_str()),
    }
}

} // verus!
