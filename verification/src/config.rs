//! The operator's settings, read from the environment.

use crate::text::{
    contains_char, debug_quoted, debug_text, option_view, parse_number, parsed, same_text,
    NumberError,
};
use vstd::prelude::*;

verus! {

/// The environment variables that hold text.
#[derive(Clone, Debug)]
pub struct Environment {
    /// Names and values.
    pub vars: Vec<(String, String)>,
}

/// The value of the first variable named `key`.
pub open spec fn env_value(vars: Seq<(String, String)>, key: Seq<char>) -> Option<Seq<char>>
    decreases vars.len(),
{
    if vars.len() == 0 {
        None
    } else if vars[0].0@ == key {
        Some(vars[0].1@)
    } else {
        env_value(vars.subrange(1, vars.len() as int), key)
    }
}

impl Environment {
    /// The value of the variable `key`, if it is set.
    pub open spec fn value(self, key: Seq<char>) -> Option<Seq<char>> {
        env_value(self.vars@, key)
    }

    /// The value of the variable `key`, if it is set.
    pub fn var(&self, key: &str) -> (value: Option<String>)
        ensures
            option_view(value) == self.value(key@),
    {
        let mut i: usize = 0;
        assert(self.vars@.subrange(0, self.vars@.len() as int) =~= self.vars@);
        while i < self.vars.len()
            invariant
                i <= self.vars.len(),
                self.value(key@) == env_value(
                    self.vars@.subrange(i as int, self.vars@.len() as int),
                    key@,
                ),
            decreases self.vars.len() - i,
        {
            let ghost rest = self.vars@.subrange(i as int, self.vars@.len() as int);
            proof {
                assert(rest[0] == self.vars@[i as int]);
                assert(rest.subrange(1, rest.len() as int) =~= self.vars@.subrange(
                    i + 1,
                    self.vars@.len() as int,
                ));
            }
            if same_text(self.vars[i].0.as_str(), key) {
                return Some(self.vars[i].1.clone());
            }
            i = i + 1;
        }
        None
    }

    /// The value of the variable `key`, or `default`.
    pub open spec fn value_or(self, key: Seq<char>, default: Seq<char>) -> Seq<char> {
        match self.value(key) {
            Some(v) => v,
            None => default,
        }
    }

    /// The value of the variable `key`, or `default`.
    pub fn var_or(&self, key: &str, default: &str) -> (value: String)
        ensures
            value@ == self.value_or(key@, default@),
    {
        match self.var(key) {
            Some(v) => v,
            None => default.to_owned(),
        }
    }
}

/// What is wrong with the environment.
#[derive(Clone, Debug)]
pub enum ConfigError {
    /// The variable is not set, or empty.
    Missing(String),
    /// The variable's value is no number that fits.
    Malformed {
        /// The variable.
        key: String,
        /// Its value.
        raw: String,
        /// What is wrong with it.
        error: NumberError,
    },
    /// The variable's value is not of the form `owner/repo`.
    NotARepo {
        /// The variable.
        key: String,
        /// Its value.
        got: String,
    },
}

/// What a [`ConfigError`] holds.
#[verifier::ext_equal]
pub enum ConfigErrorView {
    Missing(Seq<char>),
    Malformed { key: Seq<char>, raw: Seq<char>, error: NumberError },
    NotARepo { key: Seq<char>, got: Seq<char> },
}

impl View for ConfigError {
    type V = ConfigErrorView;

    open spec fn view(&self) -> ConfigErrorView {
        match self {
            ConfigError::Missing(key) => ConfigErrorView::Missing(key@),
            ConfigError::Malformed { key, raw, error } => ConfigErrorView::Malformed {
                key: key@,
                raw: raw@,
                error: *error,
            },
            ConfigError::NotARepo { key, got } => ConfigErrorView::NotARepo {
                key: key@,
                got: got@,
            },
        }
    }
}

impl ConfigErrorView {
    /// What the error says to a person.
    pub open spec fn text(self) -> Seq<char> {
        match self {
            ConfigErrorView::Missing(key) => key + " must be set"@,
            ConfigErrorView::Malformed { key, raw, error } => key + "="@ + raw + ": "@ + error.text(),
            ConfigErrorView::NotARepo { key, got } => key + " must be 'owner/repo', got "@
                + debug_quoted(got),
        }
    }
}

impl ConfigError {
    /// What the error says to a person.
    pub fn message(&self) -> (out: String)
        ensures
            out@ == self@.text(),
    {
        match self {
            ConfigError::Missing(key) => {
                let mut out: String = key.clone();
                out.append(" must be set");
                out
            },
            ConfigError::Malformed { key, raw, error } => {
                let mut out: String = key.clone();
                out.append("=");
                out.append(raw.as_str());
                out.append(": ");
                out.append(error.message());
                out
            },
            ConfigError::NotARepo { key, got } => {
                let mut out: String = key.clone();
                out.append(" must be 'owner/repo', got ");
                out.append(debug_text(got.as_str()).as_str());
                out
            },
        }
    }
}

/// The operator's settings.
#[derive(Clone, Debug)]
pub struct Config {
    /// The port to listen on.
    pub port: u16,
    /// The repository of the claim issues, `owner/repo`.
    pub state_repo: String,
    /// The repository of the privileged workflows, `owner/repo`.
    pub ops_repo: String,
    /// The file name of the boot workflow.
    pub ops_boot_workflow: String,
    /// The file name of the owner-update workflow.
    pub ops_owner_workflow: String,
    /// The git ref that workflows run from.
    pub ops_ref: String,
    /// The control plane.
    pub dd_cp_url: String,
    /// The address that every invoice pays to.
    pub sweep_address: String,
    /// The price of one 24-hour block.
    pub price_per_24h_sats: u64,
    /// How long an invoice waits for its payment.
    pub pending_timeout_secs: u64,
    /// The bearer token for GitHub.
    pub github_token: String,
    /// The bearer token of the tool interface.
    pub tool_api_token: String,
    /// The bearer token for the agents' health endpoint.
    pub dd_auth_token: Option<String>,
    /// Where mempool.space answers.
    pub mempool_base_url: String,
    /// How long a bind ahead of confirmation may stay unsettled.
    pub optimistic_bind_grace_secs: u64,
}

/// What a [`Config`] holds.
#[verifier::ext_equal]
pub struct ConfigView {
    pub port: u16,
    pub state_repo: Seq<char>,
    pub ops_repo: Seq<char>,
    pub ops_boot_workflow: Seq<char>,
    pub ops_owner_workflow: Seq<char>,
    pub ops_ref: Seq<char>,
    pub dd_cp_url: Seq<char>,
    pub sweep_address: Seq<char>,
    pub price_per_24h_sats: u64,
    pub pending_timeout_secs: u64,
    pub github_token: Seq<char>,
    pub tool_api_token: Seq<char>,
    pub dd_auth_token: Option<Seq<char>>,
    pub mempool_base_url: Seq<char>,
    pub optimistic_bind_grace_secs: u64,
}

impl View for Config {
    type V = ConfigView;

    open spec fn view(&self) -> ConfigView {
        ConfigView {
            port: self.port,
            state_repo: self.state_repo@,
            ops_repo: self.ops_repo@,
            ops_boot_workflow: self.ops_boot_workflow@,
            ops_owner_workflow: self.ops_owner_workflow@,
            ops_ref: self.ops_ref@,
            dd_cp_url: self.dd_cp_url@,
            sweep_address: self.sweep_address@,
            price_per_24h_sats: self.price_per_24h_sats,
            pending_timeout_secs: self.pending_timeout_secs,
            github_token: self.github_token@,
            tool_api_token: self.tool_api_token@,
            dd_auth_token: option_view(self.dd_auth_token),
            mempool_base_url: self.mempool_base_url@,
            optimistic_bind_grace_secs: self.optimistic_bind_grace_secs,
        }
    }
}

/// A variable that must be set and not empty.
pub open spec fn required(env: Environment, key: Seq<char>) -> Result<Seq<char>, ConfigErrorView> {
    match env.value(key) {
        Some(v) => if v.len() > 0 {
            Ok(v)
        } else {
            Err(ConfigErrorView::Missing(key))
        },
        None => Err(ConfigErrorView::Missing(key)),
    }
}

/// A variable that holds a number up to `max`.
pub open spec fn number(
    env: Environment,
    key: Seq<char>,
    default: Seq<char>,
    max: u64,
) -> Result<u64, ConfigErrorView> {
    let raw = env.value_or(key, default);
    match parsed(raw, max) {
        Ok(n) => Ok(n),
        Err(error) => Err(ConfigErrorView::Malformed { key, raw, error }),
    }
}

/// A variable that must be set and not empty.
pub fn require_env(env: &Environment, key: &str) -> (value: Result<String, ConfigError>)
    ensures
        match value {
            Ok(v) => required(*env, key@) == Ok::<_, ConfigErrorView>(v@),
            Err(e) => required(*env, key@) == Err::<Seq<char>, _>(e@),
        },
{
    match env.var(key) {
        Some(v) => if v.as_str().is_empty() {
            Err(ConfigError::Missing(key.to_owned()))
        } else {
            Ok(v)
        },
        None => Err(ConfigError::Missing(key.to_owned())),
    }
}

/// A variable that holds a number up to `max`.
pub fn parse_env(env: &Environment, key: &str, default: &str, max: u64) -> (value: Result<
    u64,
    ConfigError,
>)
    ensures
        match value {
            Ok(n) => number(*env, key@, default@, max) == Ok::<_, ConfigErrorView>(n) && n <= max,
            Err(e) => number(*env, key@, default@, max) == Err::<u64, _>(e@),
        },
{
    let raw: String = env.var_or(key, default);
    match parse_number(raw.as_str(), max) {
        Ok(n) => Ok(n),
        Err(error) => Err(ConfigError::Malformed { key: key.to_owned(), raw, error }),
    }
}

/// A variable that may be unset; an empty value counts as unset.
pub open spec fn optional(env: Environment, key: Seq<char>) -> Option<Seq<char>> {
    match env.value(key) {
        Some(v) => if v.len() > 0 {
            Some(v)
        } else {
            None
        },
        None => None,
    }
}

/// The settings that an environment gives, or its first fault.
pub open spec fn config_of(env: Environment) -> Result<ConfigView, ConfigErrorView> {
    match number(env, "SATS_PORT"@, "8090"@, u16::MAX as u64) {
        Err(e) => Err(e),
        Ok(port) => match required(env, "SATS_STATE_REPO"@) {
            Err(e) => Err(e),
            Ok(state_repo) => match required(env, "SATS_OPS_REPO"@) {
                Err(e) => Err(e),
                Ok(ops_repo) => match required(env, "SATS_SWEEP_ADDRESS"@) {
                    Err(e) => Err(e),
                    Ok(sweep_address) => config_from_address(
                        env,
                        port as u16,
                        state_repo,
                        ops_repo,
                        sweep_address,
                    ),
                },
            },
        },
    }
}

/// The rest of [`config_of`], from the price on.
pub open spec fn config_from_address(
    env: Environment,
    port: u16,
    state_repo: Seq<char>,
    ops_repo: Seq<char>,
    sweep_address: Seq<char>,
) -> Result<ConfigView, ConfigErrorView> {
    match number(env, "SATS_PRICE_PER_24H_SATS"@, "50000"@, u64::MAX) {
        Err(e) => Err(e),
        Ok(price_per_24h_sats) => match number(
            env,
            "SATS_PENDING_TIMEOUT_SECS"@,
            "10800"@,
            u64::MAX,
        ) {
            Err(e) => Err(e),
            Ok(pending_timeout_secs) => match required(env, "SATS_GITHUB_TOKEN"@) {
                Err(e) => Err(e),
                Ok(github_token) => match required(env, "SATS_TOOL_API_TOKEN"@) {
                    Err(e) => Err(e),
                    Ok(tool_api_token) => match number(
                        env,
                        "SATS_OPTIMISTIC_BIND_GRACE_SECS"@,
                        "3600"@,
                        u64::MAX,
                    ) {
                        Err(e) => Err(e),
                        Ok(optimistic_bind_grace_secs) => if !state_repo.contains('/') {
                            Err(
                                ConfigErrorView::NotARepo {
                                    key: "SATS_STATE_REPO"@,
                                    got: state_repo,
                                },
                            )
                        } else if !ops_repo.contains('/') {
                            Err(ConfigErrorView::NotARepo { key: "SATS_OPS_REPO"@, got: ops_repo })
                        } else {
                            Ok(
                                ConfigView {
                                    port,
                                    state_repo,
                                    ops_repo,
                                    ops_boot_workflow: env.value_or(
                                        "SATS_OPS_BOOT_WORKFLOW"@,
                                        "boot-agent.yml"@,
                                    ),
                                    ops_owner_workflow: env.value_or(
                                        "SATS_OPS_OWNER_WORKFLOW"@,
                                        "owner-update.yml"@,
                                    ),
                                    ops_ref: env.value_or("SATS_OPS_REF"@, "main"@),
                                    dd_cp_url: env.value_or(
                                        "SATS_DD_CP_URL"@,
                                        "https://app.devopsdefender.com"@,
                                    ),
                                    sweep_address,
                                    price_per_24h_sats,
                                    pending_timeout_secs,
                                    github_token,
                                    tool_api_token,
                                    dd_auth_token: optional(env, "SATS_DD_AUTH_TOKEN"@),
                                    mempool_base_url: env.value_or(
                                        "SATS_MEMPOOL_BASE_URL"@,
                                        "https://mempool.space/api"@,
                                    ),
                                    optimistic_bind_grace_secs,
                                },
                            )
                        },
                    },
                },
            },
        },
    }
}

impl Config {
    /// The settings that an environment gives, or its first fault.
    pub fn from_env(env: &Environment) -> (config: Result<Config, ConfigError>)
        ensures
            match config {
                Ok(c) => config_of(*env) == Ok::<_, ConfigErrorView>(c@),
                Err(e) => config_of(*env) == Err::<ConfigView, _>(e@),
            },
    {
        let port: u16 = match parse_env(env, "SATS_PORT", "8090", u16::MAX as u64) {
            Ok(n) => n as u16,
            Err(e) => return Err(e),
        };
        let state_repo: String = match require_env(env, "SATS_STATE_REPO") {
            Ok(v) => v,
            Err(e) => return Err(e),
        };
        let ops_repo: String = match require_env(env, "SATS_OPS_REPO") {
            Ok(v) => v,
            Err(e) => return Err(e),
        };
        let ops_boot_workflow: String = env.var_or("SATS_OPS_BOOT_WORKFLOW", "boot-agent.yml");
        let ops_owner_workflow: String = env.var_or("SATS_OPS_OWNER_WORKFLOW", "owner-update.yml");
        let ops_ref: String = env.var_or("SATS_OPS_REF", "main");
        let dd_cp_url: String = env.var_or("SATS_DD_CP_URL", "https://app.devopsdefender.com");
        let sweep_address: String = match require_env(env, "SATS_SWEEP_ADDRESS") {
            Ok(v) => v,
            Err(e) => return Err(e),
        };
        let price_per_24h_sats: u64 = match parse_env(
            env,
            "SATS_PRICE_PER_24H_SATS",
            "50000",
            u64::MAX,
        ) {
            Ok(n) => n,
            Err(e) => return Err(e),
        };
        let pending_timeout_secs: u64 = match parse_env(
            env,
            "SATS_PENDING_TIMEOUT_SECS",
            "10800",
            u64::MAX,
        ) {
            Ok(n) => n,
            Err(e) => return Err(e),
        };
        let github_token: String = match require_env(env, "SATS_GITHUB_TOKEN") {
            Ok(v) => v,
            Err(e) => return Err(e),
        };
        let tool_api_token: String = match require_env(env, "SATS_TOOL_API_TOKEN") {
            Ok(v) => v,
            Err(e) => return Err(e),
        };
        let dd_auth_token: Option<String> = match env.var("SATS_DD_AUTH_TOKEN") {
            Some(v) => if v.as_str().is_empty() {
                None
            } else {
                Some(v)
            },
            None => None,
        };
        let mempool_base_url: String = env.var_or(
            "SATS_MEMPOOL_BASE_URL",
            "https://mempool.space/api",
        );
        let optimistic_bind_grace_secs: u64 = match parse_env(
            env,
            "SATS_OPTIMISTIC_BIND_GRACE_SECS",
            "3600",
            u64::MAX,
        ) {
            Ok(n) => n,
            Err(e) => return Err(e),
        };
        if !contains_char(state_repo.as_str(), '/') {
            return Err(
                ConfigError::NotARepo { key: "SATS_STATE_REPO".to_owned(), got: state_repo },
            );
        }
        if !contains_char(ops_repo.as_str(), '/') {
            return Err(ConfigError::NotARepo { key: "SATS_OPS_REPO".to_owned(), got: ops_repo });
        }
        Ok(
            Config {
                port,
                state_repo,
                ops_repo,
                ops_boot_workflow,
                ops_owner_workflow,
                ops_ref,
                dd_cp_url,
                sweep_address,
                price_per_24h_sats,
                pending_timeout_secs,
                github_token,
                tool_api_token,
                dd_auth_token,
                mempool_base_url,
                optimistic_bind_grace_secs,
            },
        )
    }
}

/// Settings are only ever made with both repositories in `owner/repo` form and
/// with an address and both tokens set.
pub proof fn law_settings_are_usable(env: Environment)
    ensures
        config_of(env) matches Ok(c) ==> c.state_repo.contains('/') && c.ops_repo.contains('/')
            && c.sweep_address.len() > 0 && c.github_token.len() > 0 && c.tool_api_token.len() > 0
            && (c.dd_auth_token matches Some(t) ==> t.len() > 0),
{
}

/// The settings of the node marketplace.
#[derive(Clone, Debug)]
pub struct MarketConfig {
    /// Where BTCPay answers.
    pub btcpay_url: String,
    /// The key for BTCPay.
    pub btcpay_api_key: String,
    /// The store at BTCPay.
    pub btcpay_store_id: String,
    /// The secret that BTCPay signs with.
    pub btcpay_webhook_secret: String,
    /// Where agents register.
    pub dd_register_url: String,
    /// Where agents are downloaded.
    pub dd_binary_url: String,
    /// The Cloudflare token of agents.
    pub dd_cf_api_token: Option<String>,
    /// The Cloudflare account of agents.
    pub dd_cf_account_id: Option<String>,
    /// The Cloudflare zone of agents.
    pub dd_cf_zone_id: Option<String>,
    /// The domain of agents.
    pub dd_cf_domain: String,
    /// The GitHub client of agents.
    pub dd_github_client_id: Option<String>,
    /// The GitHub client's secret.
    pub dd_github_client_secret: Option<String>,
    /// The project in Google's cloud.
    pub gcp_project_id: Option<String>,
    /// The zone in Google's cloud.
    pub gcp_zone: String,
    /// The operator's own host.
    pub baremetal_host: Option<String>,
    /// The user on that host.
    pub baremetal_user: String,
    /// How often the warm pool is planned.
    pub pool_interval_secs: u64,
    /// The most warm nodes.
    pub pool_max: usize,
    /// The model that plans.
    pub openrouter_model: String,
    /// The key for the model.
    pub openrouter_api_key: String,
    /// The password of the admin pages; none opens them.
    pub admin_password: Option<String>,
}

/// What a [`MarketConfig`] holds.
#[verifier::ext_equal]
pub struct MarketView {
    pub btcpay_url: Seq<char>,
    pub btcpay_api_key: Seq<char>,
    pub btcpay_store_id: Seq<char>,
    pub btcpay_webhook_secret: Seq<char>,
    pub dd_register_url: Seq<char>,
    pub dd_binary_url: Seq<char>,
    pub dd_cf_api_token: Option<Seq<char>>,
    pub dd_cf_account_id: Option<Seq<char>>,
    pub dd_cf_zone_id: Option<Seq<char>>,
    pub dd_cf_domain: Seq<char>,
    pub dd_github_client_id: Option<Seq<char>>,
    pub dd_github_client_secret: Option<Seq<char>>,
    pub gcp_project_id: Option<Seq<char>>,
    pub gcp_zone: Seq<char>,
    pub baremetal_host: Option<Seq<char>>,
    pub baremetal_user: Seq<char>,
    pub pool_interval_secs: u64,
    pub pool_max: usize,
    pub openrouter_model: Seq<char>,
    pub openrouter_api_key: Seq<char>,
    pub admin_password: Option<Seq<char>>,
}

impl View for MarketConfig {
    type V = MarketView;

    open spec fn view(&self) -> MarketView {
        MarketView {
            btcpay_url: self.btcpay_url@,
            btcpay_api_key: self.btcpay_api_key@,
            btcpay_store_id: self.btcpay_store_id@,
            btcpay_webhook_secret: self.btcpay_webhook_secret@,
            dd_register_url: self.dd_register_url@,
            dd_binary_url: self.dd_binary_url@,
            dd_cf_api_token: option_view(self.dd_cf_api_token),
            dd_cf_account_id: option_view(self.dd_cf_account_id),
            dd_cf_zone_id: option_view(self.dd_cf_zone_id),
            dd_cf_domain: self.dd_cf_domain@,
            dd_github_client_id: option_view(self.dd_github_client_id),
            dd_github_client_secret: option_view(self.dd_github_client_secret),
            gcp_project_id: option_view(self.gcp_project_id),
            gcp_zone: self.gcp_zone@,
            baremetal_host: option_view(self.baremetal_host),
            baremetal_user: self.baremetal_user@,
            pool_interval_secs: self.pool_interval_secs,
            pool_max: self.pool_max,
            openrouter_model: self.openrouter_model@,
            openrouter_api_key: self.openrouter_api_key@,
            admin_password: option_view(self.admin_password),
        }
    }
}

} // verus!
