//! Sats for Compute: the rules of a bot that sells 24-hour blocks of compute
//! for bitcoin and keeps every claim as a manifest inside a GitHub issue.

pub mod btc;
pub mod btcpay;
pub mod claim;
pub mod claim_laws;
pub mod config;
pub mod db;
pub mod gcp;
pub mod github;
pub mod ids;
pub mod json;
pub mod lifecycle;
pub mod local;
pub mod market_laws;
pub mod models;
pub mod percent;
pub mod pool;
pub mod provision;
pub mod routes;
pub mod server;
pub mod steps;
pub mod templates;
pub mod text;
pub mod text_laws;
pub mod tick;
pub mod time;
pub mod tools;
pub mod writes;
