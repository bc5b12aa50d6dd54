//! Settings, the chain, GitHub and texts.

use satsforcompute::btc::{
    address_txs_url, find_enough, find_exact, find_tx, parse_tip_height, project_mempool_tx,
    tip_height_url, AddressTx, MempoolRawStatus, MempoolRawTx, MempoolRawVout,
};
use satsforcompute::claim::CURRENT_SCHEMA;
use satsforcompute::config::{parse_env, require_env, Config, ConfigError, Environment};
use satsforcompute::github::{
    comments_path, issue_path, issues_path, label_path, labels_path, names_of, removal_accepted,
    Client, Issue, Label,
};
use satsforcompute::server::{healthz, version};
use satsforcompute::text::{
    base_text, find, padded_text, parse_number, signed_decimal_text, split, strip_prefix,
    strip_suffix, trimmed, trimmed_end_of, NumberError,
};
use serde_json::Value;

/// A transaction of mempool.space out of its JSON.
fn raw_tx(json: &str) -> MempoolRawTx {
    let v: Value = serde_json::from_str(json).unwrap();
    MempoolRawTx {
        txid: v["txid"].as_str().unwrap().into(),
        vout: v["vout"]
            .as_array()
            .unwrap()
            .iter()
            .map(|o| MempoolRawVout {
                scriptpubkey_address: o["scriptpubkey_address"].as_str().map(|s| s.to_string()),
                value: o["value"].as_u64().unwrap(),
            })
            .collect(),
        status: MempoolRawStatus {
            confirmed: v["status"]["confirmed"].as_bool().unwrap(),
            block_height: v["status"]["block_height"].as_u64(),
            block_time: v["status"]["block_time"].as_u64(),
        },
    }
}

#[test]
fn project_sums_only_matching_outputs() {
    let raw = raw_tx(
        r#"{
            "txid": "abc123",
            "version": 2,
            "vin": [],
            "vout": [
                { "scriptpubkey_address": "bc1qother", "value": 12345 },
                { "scriptpubkey_address": "bc1qme", "value": 50000 },
                { "scriptpubkey_address": "bc1qme", "value": 1000 }
            ],
            "status": {
                "confirmed": true,
                "block_height": 850123,
                "block_time": 1737459123
            }
        }"#,
    );
    let tx = project_mempool_tx(raw, "bc1qme");
    assert_eq!(tx.txid, "abc123");
    assert_eq!(tx.received_sats, 51_000);
    assert_eq!(tx.block_height, Some(850123));
    assert_eq!(tx.block_time, Some(1737459123));
}

#[test]
fn project_unconfirmed_has_no_block_height() {
    let raw = raw_tx(
        r#"{
            "txid": "pending1",
            "vin": [],
            "vout": [{ "scriptpubkey_address": "bc1qme", "value": 50000 }],
            "status": { "confirmed": false }
        }"#,
    );
    let tx = project_mempool_tx(raw, "bc1qme");
    assert_eq!(tx.block_height, None);
    assert_eq!(tx.confirmations(900_000), 0);
}

#[test]
fn confirmations_from_tip_and_height() {
    let tx = AddressTx {
        txid: "x".into(),
        received_sats: 50_000,
        block_height: Some(850_000),
        block_time: None,
    };
    assert_eq!(tx.confirmations(850_000), 1);
    assert_eq!(tx.confirmations(850_005), 6);
    assert_eq!(tx.confirmations(800_000), 0);
}

#[test]
fn confirmations_are_counted_in_32_bits() {
    let tx = AddressTx {
        txid: "x".into(),
        received_sats: 1,
        block_height: Some(1),
        block_time: None,
    };
    assert_eq!(tx.confirmations(u32::MAX as u64), u32::MAX);
    assert_eq!(tx.confirmations(u32::MAX as u64 + 1), 0);
}

#[test]
fn project_ignores_outputs_with_no_address() {
    let raw = raw_tx(
        r#"{
            "txid": "with_op_return",
            "vin": [],
            "vout": [
                { "value": 0 },
                { "scriptpubkey_address": "bc1qme", "value": 50000 }
            ],
            "status": { "confirmed": false }
        }"#,
    );
    let tx = project_mempool_tx(raw, "bc1qme");
    assert_eq!(tx.received_sats, 50_000);
}

#[test]
fn a_height_of_an_unconfirmed_transaction_is_ignored() {
    let raw = raw_tx(
        r#"{"txid": "t", "vout": [], "status": {"confirmed": false, "block_height": 5, "block_time": 6}}"#,
    );
    let tx = project_mempool_tx(raw, "bc1qme");
    assert_eq!(tx.block_height, None);
    assert_eq!(tx.block_time, None);
    assert_eq!(tx.received_sats, 0);
}

#[test]
fn searches_find_the_first_that_fits() {
    let tx = |txid: &str, sats: u64| AddressTx {
        txid: txid.into(),
        received_sats: sats,
        block_height: None,
        block_time: None,
    };
    let txs = vec![tx("a", 5), tx("b", 7), tx("c", 7), tx("d", 9)];
    assert_eq!(find_exact(&txs, 7, &None).unwrap().txid, "b");
    assert_eq!(find_exact(&txs, 7, &Some("b".into())).unwrap().txid, "c");
    assert!(find_exact(&txs, 6, &None).is_none());
    assert_eq!(find_enough(&txs, 6, &None).unwrap().txid, "b");
    assert_eq!(find_enough(&txs, 8, &None).unwrap().txid, "d");
    assert!(find_enough(&txs, 8, &Some("d".into())).is_none());
    assert_eq!(find_tx(&txs, "c").unwrap().received_sats, 7);
    assert!(find_tx(&txs, "z").is_none());
}

#[test]
fn mempool_addresses_and_heights() {
    assert_eq!(
        address_txs_url("https://mempool.space/api//", "bc1q"),
        "https://mempool.space/api/address/bc1q/txs"
    );
    assert_eq!(
        tip_height_url("https://mempool.space/api"),
        "https://mempool.space/api/blocks/tip/height"
    );
    assert_eq!(parse_tip_height(" 850123\n"), Ok(850_123));
    assert_eq!(
        parse_tip_height("x\"").unwrap_err(),
        "parse tip height \"x\\\"\": invalid digit found in string"
    );
}

#[test]
fn parse_env_falls_back_to_default() {
    let env = Environment { vars: vec![] };
    let v: u16 = parse_env(&env, "SATS_PORT_TEST_FALLBACK", "9999", u16::MAX as u64).unwrap() as u16;
    assert_eq!(v, 9999);
}

#[test]
fn require_env_errors_on_unset() {
    let env = Environment { vars: vec![] };
    let r = require_env(&env, "SATS_REQUIRED_TEST_UNSET");
    assert!(r.is_err());
    assert_eq!(
        r.unwrap_err().message(),
        "SATS_REQUIRED_TEST_UNSET must be set"
    );
}

fn full_env() -> Environment {
    let pairs = [
        ("SATS_STATE_REPO", "me/state"),
        ("SATS_OPS_REPO", "me/ops"),
        ("SATS_SWEEP_ADDRESS", "bc1q"),
        ("SATS_GITHUB_TOKEN", "g"),
        ("SATS_TOOL_API_TOKEN", "t"),
        ("SATS_DD_AUTH_TOKEN", ""),
    ];
    Environment {
        vars: pairs
            .iter()
            .map(|(k, v)| (k.to_string(), v.to_string()))
            .collect(),
    }
}

fn with_var(key: &str, value: &str) -> Environment {
    let mut env = full_env();
    env.vars.insert(0, (key.into(), value.into()));
    env
}

#[test]
fn settings_have_defaults() {
    let c = Config::from_env(&full_env()).unwrap();
    assert_eq!(c.port, 8090);
    assert_eq!(c.state_repo, "me/state");
    assert_eq!(c.ops_boot_workflow, "boot-agent.yml");
    assert_eq!(c.ops_owner_workflow, "owner-update.yml");
    assert_eq!(c.ops_ref, "main");
    assert_eq!(c.dd_cp_url, "https://app.devopsdefender.com");
    assert_eq!(c.price_per_24h_sats, 50_000);
    assert_eq!(c.pending_timeout_secs, 10_800);
    assert_eq!(c.dd_auth_token, None);
    assert_eq!(c.mempool_base_url, "https://mempool.space/api");
    assert_eq!(c.optimistic_bind_grace_secs, 3600);
    let c = Config::from_env(&with_var("SATS_PRICE_PER_24H_SATS", "+7")).unwrap();
    assert_eq!(c.price_per_24h_sats, 7);
    let c = Config::from_env(&with_var("SATS_DD_AUTH_TOKEN", "cf")).unwrap();
    assert_eq!(c.dd_auth_token.as_deref(), Some("cf"));
}

#[test]
fn settings_that_cannot_be_used_are_refused() {
    let fault = |k: &str, v: &str| Config::from_env(&with_var(k, v)).unwrap_err().message();
    assert_eq!(
        fault("SATS_PORT", "65536"),
        "SATS_PORT=65536: number too large to fit in target type"
    );
    assert_eq!(
        fault("SATS_PORT", ""),
        "SATS_PORT=: cannot parse integer from empty string"
    );
    assert_eq!(
        fault("SATS_PRICE_PER_24H_SATS", "-1"),
        "SATS_PRICE_PER_24H_SATS=-1: invalid digit found in string"
    );
    assert_eq!(fault("SATS_STATE_REPO", ""), "SATS_STATE_REPO must be set");
    assert_eq!(
        fault("SATS_STATE_REPO", "state"),
        "SATS_STATE_REPO must be 'owner/repo', got \"state\""
    );
    assert_eq!(
        fault("SATS_OPS_REPO", "o\"ps"),
        "SATS_OPS_REPO must be 'owner/repo', got \"o\\\"ps\""
    );
    assert!(matches!(
        Config::from_env(&Environment { vars: vec![] }),
        Err(ConfigError::Missing(k)) if k == "SATS_STATE_REPO"
    ));
}

#[test]
fn healthz_returns_200_with_summary() {
    let mut env = full_env();
    env.vars.insert(0, ("SATS_STATE_REPO".into(), "operator/sats-ops".into()));
    env.vars
        .insert(0, ("SATS_OPS_REPO".into(), "operator/sats-ops-actuator".into()));
    let h = healthz(&Config::from_env(&env).unwrap());
    assert_eq!(h.ok, true);
    assert_eq!(h.service, "satsforcompute");
    assert_eq!(h.schema, CURRENT_SCHEMA);
    assert_eq!(h.state_repo, "operator/sats-ops");
    assert_eq!(h.ops_repo, "operator/sats-ops-actuator");
    assert_eq!(h.sweep_address_present, true);
    assert_eq!(h.price_per_24h_sats, 50_000);
    assert_eq!(h.mempool_base_url, "https://mempool.space/api");
}

#[test]
fn version_returns_pkg_metadata() {
    let v = version("satsforcompute", "0.1.0");
    assert_eq!(v.pkg, "satsforcompute");
    assert_eq!(v.version, "0.1.0");
    assert_eq!(v.schema, CURRENT_SCHEMA);
}

/// A label out of its JSON: an object with a name, or the name itself.
fn label_of_json(v: &Value) -> Label {
    match v.as_str() {
        Some(s) => Label::Name(s.into()),
        None => Label::Object {
            name: v["name"].as_str().unwrap().into(),
        },
    }
}

#[test]
fn label_struct_form_deserializes() {
    let j = r#"{"name":"state:active"}"#;
    let l: Label = label_of_json(&serde_json::from_str(j).unwrap());
    assert_eq!(l.name(), "state:active");
}

#[test]
fn label_string_form_deserializes() {
    let j = r#""state:active""#;
    let l: Label = label_of_json(&serde_json::from_str(j).unwrap());
    assert_eq!(l.name(), "state:active");
}

#[test]
fn issue_with_object_labels_deserializes() {
    let j = r#"{
            "number": 7,
            "title": "claim_x",
            "body": "...",
            "labels": [{"name":"state:active"}, {"name":"integrity:tainted"}],
            "html_url": "https://github.com/o/r/issues/7",
            "state": "open"
        }"#;
    let v: Value = serde_json::from_str(j).unwrap();
    let i = Issue {
        number: v["number"].as_u64().unwrap(),
        title: v["title"].as_str().unwrap().into(),
        body: v["body"].as_str().unwrap().into(),
        labels: v["labels"]
            .as_array()
            .unwrap()
            .iter()
            .map(label_of_json)
            .collect(),
        html_url: v["html_url"].as_str().unwrap().into(),
        state: v["state"].as_str().unwrap().into(),
    };
    assert_eq!(i.number, 7);
    assert_eq!(i.labels.len(), 2);
    assert_eq!(i.labels[0].name(), "state:active");
    assert_eq!(
        names_of(&i.labels),
        vec!["state:active", "integrity:tainted"]
    );
}

#[test]
fn url_helper_concats_against_api_root() {
    let c = Client::new("ignored");
    assert_eq!(
        c.url("/repos/foo/bar/issues/1"),
        "https://api.github.com/repos/foo/bar/issues/1"
    );
}

#[test]
fn github_paths_and_headers() {
    assert_eq!(issues_path("o/r"), "/repos/o/r/issues");
    assert_eq!(issue_path("o/r", 12), "/repos/o/r/issues/12");
    assert_eq!(comments_path("o/r", 12), "/repos/o/r/issues/12/comments");
    assert_eq!(labels_path("o/r", 12), "/repos/o/r/issues/12/labels");
    assert_eq!(
        label_path("o/r", 12, "state:btc-mempool-seen"),
        "/repos/o/r/issues/12/labels/state%3Abtc-mempool-seen"
    );
    assert_eq!(
        label_path("o/r", 12, "a b/€"),
        "/repos/o/r/issues/12/labels/a%20b%2F%E2%82%AC"
    );
    let h = Client::new("tok").headers();
    assert_eq!(h[0], ("Authorization", "Bearer tok".to_string()));
    assert_eq!(
        h[1],
        ("Accept", "application/vnd.github+json".to_string())
    );
    assert_eq!(h[2], ("User-Agent", "satsforcompute".to_string()));
    assert_eq!(h[3], ("X-GitHub-Api-Version", "2022-11-28".to_string()));
    assert!(removal_accepted(204) && removal_accepted(404));
    assert!(!removal_accepted(403) && !removal_accepted(300) && !removal_accepted(199));
}

#[test]
fn texts_are_searched_and_cut() {
    assert_eq!(find("aXbXb", "Xb"), Some(1));
    assert_eq!(find("é→x", "x"), Some(2));
    assert_eq!(find("abc", "d"), None);
    assert_eq!(find("abc", ""), Some(0));
    assert_eq!(strip_prefix("abc", "ab"), Some("c"));
    assert_eq!(strip_prefix("abc", "b"), None);
    assert_eq!(strip_suffix("abc", "bc"), Some("a"));
    assert_eq!(strip_suffix("abc", "abcd"), None);
    assert_eq!(trimmed("\u{3000}\t a b\u{a0}\n"), "a b");
    assert_eq!(trimmed("\u{200b}"), "\u{200b}");
    assert_eq!(trimmed(" \u{85}"), "");
    assert_eq!(trimmed_end_of("a//", '/'), "a");
    assert_eq!(split("a;;b", ';'), vec!["a", "", "b"]);
    assert_eq!(split("", ';'), vec![""]);
    for s in ["", "  x ", "a\u{2029}", "\u{1680}b\u{205f}", "\u{feff}c"] {
        assert_eq!(trimmed(s), s.trim());
    }
}

#[test]
fn numbers_are_written_and_read() {
    assert_eq!(signed_decimal_text(i64::MIN), "-9223372036854775808");
    assert_eq!(signed_decimal_text(0), "0");
    assert_eq!(base_text(0xabc, 16, true), "ABC");
    assert_eq!(padded_text("7".into(), 3), "007");
    assert_eq!(padded_text("12345".into(), 3), "12345");
    assert_eq!(parse_number("00042", 42), Ok(42));
    assert_eq!(parse_number("43", 42), Err(NumberError::TooLarge));
    assert_eq!(parse_number("", 9), Err(NumberError::Empty));
    assert_eq!(parse_number("+", 9), Err(NumberError::InvalidDigit));
    for s in ["18446744073709551615", "18446744073709551616", "+", "+1", "1x", "99999999999999999999x", "x9"] {
        let std_says = s.parse::<u64>();
        let ours = parse_number(s, u64::MAX);
        assert_eq!(ours.is_ok(), std_says.is_ok());
        if let Err(e) = std_says {
            assert_eq!(ours.unwrap_err().message(), e.to_string());
        }
    }
}
