//! What the bot says of itself.

use crate::claim::CURRENT_SCHEMA;
use crate::config::Config;
use vstd::prelude::*;

verus! {

/// The answer to a liveness check.
#[derive(Clone, Debug)]
pub struct Healthz {
    /// Whether the bot is up.
    pub ok: bool,
    /// The bot's name.
    pub service: &'static str,
    /// The manifest schema it speaks.
    pub schema: &'static str,
    /// The repository of the claim issues.
    pub state_repo: String,
    /// The repository of the workflows.
    pub ops_repo: String,
    /// Whether an address is set; the address itself is not told.
    pub sweep_address_present: bool,
    /// The price of one 24-hour block.
    pub price_per_24h_sats: u64,
    /// Where mempool.space answers.
    pub mempool_base_url: String,
}

/// The answer to a liveness check.
pub fn healthz(cfg: &Config) -> (h: Healthz)
    ensures
        h.ok,
        h.service@ == "satsforcompute"@,
        h.schema@ == CURRENT_SCHEMA@,
        h.state_repo@ == cfg@.state_repo,
        h.ops_repo@ == cfg@.ops_repo,
        h.sweep_address_present == (cfg@.sweep_address.len() > 0),
        h.price_per_24h_sats == cfg.price_per_24h_sats,
        h.mempool_base_url@ == cfg@.mempool_base_url,
{
    Healthz {
        ok: true,
        service: "satsforcompute",
        schema: CURRENT_SCHEMA,
        state_repo: cfg.state_repo.clone(),
        ops_repo: cfg.ops_repo.clone(),
        sweep_address_present: !cfg.sweep_address.as_str().is_empty(),
        price_per_24h_sats: cfg.price_per_24h_sats,
        mempool_base_url: cfg.mempool_base_url.clone(),
    }
}

/// The answer to a question for the build.
#[derive(Clone, Debug)]
pub struct Version {
    /// The package.
    pub pkg: &'static str,
    /// Its version.
    pub version: &'static str,
    /// The manifest schema it speaks.
    pub schema: &'static str,
}

/// The answer to a question for the build, which is `release` of `pkg`.
pub fn version(pkg: &'static str, release: &'static str) -> (v: Version)
    ensures
        v.pkg@ == pkg@,
        v.version@ == release@,
        v.schema@ == CURRENT_SCHEMA@,
{
    Version { pkg, version: release, schema: CURRENT_SCHEMA }
}

} // verus!
