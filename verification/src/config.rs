//! Configuration values for a [`crate::FlorestaClient`].
//!
//! A configuration is plain immutable data: the network choice, the data
//! directory backing the chain store, peer limits and feature flags. The data
//! directory is derived deterministically from the network unless a caller
//! overrides the whole configuration.

use vstd::prelude::*;

verus! {

/// The network a client validates for.
#[derive(Clone, Copy, PartialEq, Eq, Structural, Debug)]
pub enum Network {
    Bitcoin,
    Testnet,
    Signet,
    Regtest,
}

/// Policy for assuming blocks valid without full verification.
/// The default is `Disabled`: nothing is assumed valid.
#[derive(Clone, Copy, PartialEq, Eq, Structural, Debug)]
pub enum AssumeValidArg {
    Disabled,
    Hardcoded,
}

/// The data directory a network maps to when the caller does not choose one.
pub open spec fn spec_default_datadir(network: Network) -> Seq<char> {
    match network {
        Network::Bitcoin => "./data/bitcoin"@,
        Network::Testnet => "./data/testnet"@,
        Network::Signet => "./data/signet"@,
        Network::Regtest => "./data/regtest"@,
    }
}

/// Compute the default data directory for `network`.
pub fn default_datadir(network: Network) -> (r: String)
    ensures
        r@ == spec_default_datadir(network),
{
    match network {
        Network::Bitcoin => String::from_str("./data/bitcoin"),
        Network::Testnet => String::from_str("./data/testnet"),
        Network::Signet => String::from_str("./data/signet"),
        Network::Regtest => String::from_str("./data/regtest"),
    }
}

/// Configuration for the node a client embeds. Immutable once a client is
/// built from it.
pub struct UtreexoNodeConfig {
    /// The network to operate on.
    pub network: Network,
    /// Directory holding the persistent chain store.
    pub datadir: String,
    /// Whether to download and match compact block filters.
    pub compact_filters: bool,
    /// First height to fetch filters for, if filters are on.
    pub filter_start_height: Option<u32>,
    /// Policy for assuming ancestors of a trusted block valid.
    pub assume_valid: AssumeValidArg,
    /// Whether to accept proof-of-work fraud-proof shortcuts.
    pub pow_fraud_proofs: bool,
    /// Whether to backfill blocks validated by a shortcut.
    pub backfill: bool,
    /// The user agent advertised to peers.
    pub user_agent: String,
    /// Whether downgrading to the v1 transport is allowed.
    pub allow_v1_fallback: bool,
    /// A fixed peer to connect to instead of discovered ones.
    pub fixed_peer: Option<String>,
    /// An optional proxy address for outbound connections.
    pub proxy: Option<String>,
    /// Most requests kept in flight at once.
    pub max_inflight: u32,
    /// Most outbound peers kept connected at once.
    pub max_outbound: u32,
    /// Ban score at which a peer is disconnected.
    pub max_banscore: u32,
}

/// All fields other than `network` and `datadir` agree between `a` and `b`.
pub open spec fn same_but_location(a: UtreexoNodeConfig, b: UtreexoNodeConfig) -> bool {
    &&& a.compact_filters == b.compact_filters
    &&& a.filter_start_height == b.filter_start_height
    &&& a.assume_valid == b.assume_valid
    &&& a.pow_fraud_proofs == b.pow_fraud_proofs
    &&& a.backfill == b.backfill
    &&& a.user_agent == b.user_agent
    &&& a.allow_v1_fallback == b.allow_v1_fallback
    &&& a.fixed_peer == b.fixed_peer
    &&& a.proxy == b.proxy
    &&& a.max_inflight == b.max_inflight
    &&& a.max_outbound == b.max_outbound
    &&& a.max_banscore == b.max_banscore
}

/// The default configuration: main network, derived data directory, no
/// filters, nothing assumed valid, ten in-flight requests, ten outbound
/// peers, a ban score cap of one hundred.
pub open spec fn is_default_config(c: UtreexoNodeConfig) -> bool {
    &&& c.network == Network::Bitcoin
    &&& c.datadir@ == spec_default_datadir(Network::Bitcoin)
    &&& c.compact_filters == false
    &&& c.filter_start_height is None
    &&& c.assume_valid == AssumeValidArg::Disabled
    &&& c.pow_fraud_proofs == false
    &&& c.backfill == false
    &&& c.user_agent@ == "floresta-wire"@
    &&& c.allow_v1_fallback == true
    &&& c.fixed_peer is None
    &&& c.proxy is None
    &&& c.max_inflight == 10
    &&& c.max_outbound == 10
    &&& c.max_banscore == 100
}

/// Build the default configuration.
pub fn default_config() -> (r: UtreexoNodeConfig)
    ensures
        is_default_config(r),
{
    UtreexoNodeConfig {
        network: Network::Bitcoin,
        datadir: default_datadir(Network::Bitcoin),
        compact_filters: false,
        filter_start_height: None,
        assume_valid: AssumeValidArg::Disabled,
        pow_fraud_proofs: false,
        backfill: false,
        user_agent: String::from_str("floresta-wire"),
        allow_v1_fallback: true,
        fixed_peer: None,
        proxy: None,
        max_inflight: 10,
        max_outbound: 10,
        max_banscore: 100,
    }
}

} // verus!
