//! The manifest and its issue body.

use satsforcompute::claim::{
    mode_str, state_str, BtcDetails, Claim, ClaimMode, ClaimState, ManifestError, TaintReason,
    CURRENT_SCHEMA, MANIFEST_CLOSE, MANIFEST_OPEN,
};
use satsforcompute::time::Timestamp;
use serde_json::Value;

fn details(address: &str) -> BtcDetails {
    BtcDetails {
        address: address.into(),
        price_per_24h_sats: 50_000,
        exact_amount_sats: 50_127,
        required_confirmations: 1,
        pending_timeout_secs: 10_800,
    }
}

fn taint_name(t: TaintReason) -> &'static str {
    match t {
        TaintReason::CustomerOwnerEnabled => "customer_owner_enabled",
        TaintReason::CustomerWorkloadDeployed => "customer_workload_deployed",
        TaintReason::ArbitraryExecEnabled => "arbitrary_exec_enabled",
        TaintReason::InteractiveShellEnabled => "interactive_shell_enabled",
    }
}

/// The manifest of a claim as a JSON value.
fn manifest(c: &Claim) -> Value {
    let mut btc = serde_json::Map::new();
    btc.insert("address".into(), c.btc.address.clone().into());
    btc.insert("price_per_24h_sats".into(), c.btc.price_per_24h_sats.into());
    btc.insert("exact_amount_sats".into(), c.btc.exact_amount_sats.into());
    btc.insert(
        "required_confirmations".into(),
        c.btc.required_confirmations.into(),
    );
    btc.insert(
        "pending_timeout_secs".into(),
        c.btc.pending_timeout_secs.into(),
    );
    let mut integrity = serde_json::Map::new();
    integrity.insert(
        "confidential_mode".into(),
        c.integrity.confidential_mode.into(),
    );
    integrity.insert(
        "taint_reasons".into(),
        Value::Array(
            c.integrity
                .taint_reasons
                .iter()
                .map(|t| Value::from(taint_name(*t)))
                .collect(),
        ),
    );
    let mut m = serde_json::Map::new();
    m.insert("schema".into(), c.schema.clone().into());
    m.insert("claim_id".into(), c.claim_id.clone().into());
    m.insert("state".into(), state_str(c.state).into());
    m.insert("mode".into(), mode_str(c.mode).into());
    if let Some(owner) = &c.customer_owner {
        m.insert("customer_owner".into(), owner.clone().into());
    }
    if let Some(id) = &c.agent_id {
        m.insert("agent_id".into(), id.clone().into());
    }
    if let Some(host) = &c.agent_hostname {
        m.insert("agent_hostname".into(), host.clone().into());
    }
    m.insert("btc".into(), Value::Object(btc));
    m.insert("integrity".into(), Value::Object(integrity));
    Value::Object(m)
}

fn written(c: &Claim) -> String {
    serde_json::to_string_pretty(&manifest(c)).unwrap()
}

#[test]
fn schema_constant_round_trips_through_json() {
    let c = Claim::new("claim_test", ClaimMode::CustomerDeploy, details("bc1qtest"));
    let json = manifest(&c);
    assert_eq!(json["schema"], CURRENT_SCHEMA);
    assert_eq!(json["state"], "requested");
    assert_eq!(json["mode"], "customer_deploy");
    assert_eq!(json["integrity"]["confidential_mode"], false);
}

#[test]
fn confidential_mode_sets_integrity_default() {
    let c = Claim::new("claim_x", ClaimMode::Confidential, details("bc1qx"));
    assert!(c.integrity.confidential_mode);
    assert!(c.integrity.taint_reasons.is_empty());
}

#[test]
fn new_claim_has_nothing_bound_or_paid() {
    let c = Claim::new("claim_x", ClaimMode::CustomerDeploy, details("bc1qx"));
    assert_eq!(c.schema, "s12e.claim.v1");
    assert_eq!(c.claim_id, "claim_x");
    assert_eq!(c.state, ClaimState::Requested);
    assert!(c.customer_owner.is_none() && c.agent_id.is_none() && c.agent_hostname.is_none());
    assert!(c.workload_repo.is_none() && c.workload_ref.is_none());
    assert!(c.billing.paid_until.is_none() && c.billing.optimistic_bind_at.is_none());
    assert!(c.billing.last_payment_txid.is_none());
    assert_eq!(c.billing.uncredited_sats, 0);
    assert!(!c.integrity.confidential_mode);
}

#[test]
fn body_round_trips_through_render_and_parse() {
    let mut c = Claim::new(
        "claim_round_trip",
        ClaimMode::CustomerDeploy,
        details("bc1qroundtrip"),
    );
    c.customer_owner = Some("alice".into());
    c.agent_id = Some("dd-agent-7".into());
    c.agent_hostname = Some("https://dd-agent-7.devopsdefender.com".into());
    c.state = ClaimState::Active;
    c.integrity.taint_reasons = vec![
        TaintReason::CustomerWorkloadDeployed,
        TaintReason::CustomerOwnerEnabled,
    ];

    let body = c.to_issue_body(&written(&c));
    assert!(body.contains("# Sats for Compute claim"));
    assert!(body.contains("`alice`"));
    assert!(body.contains("```json"));

    let text = Claim::from_issue_body(&body).expect("parse");
    let parsed: Value = serde_json::from_str(&text).expect("json");
    assert_eq!(manifest(&c), parsed);
}

#[test]
fn parse_tolerates_human_summary_edits() {
    let mut c = Claim::new(
        "claim_tolerant",
        ClaimMode::Confidential,
        details("bc1qsealed"),
    );
    c.state = ClaimState::Active;

    let body = c.to_issue_body(&written(&c));
    let edited = format!("> note from ops: investigating slow start\n\n{body}");
    let text = Claim::from_issue_body(&edited).expect("parse");
    let parsed: Value = serde_json::from_str(&text).expect("json");
    assert_eq!(parsed["claim_id"], "claim_tolerant");
    assert_eq!(parsed["mode"], mode_str(ClaimMode::Confidential));
}

#[test]
fn text_around_a_body_does_not_count() {
    let mut c = Claim::new("claim_x", ClaimMode::CustomerDeploy, details("bc1qx"));
    c.customer_owner = Some("alice".into());
    let body = c.to_issue_body(&written(&c));
    let around = format!("<!-- a note -->{MANIFEST_CLOSE}\n<{body}\n{MANIFEST_OPEN}\nmore");
    let text = Claim::from_issue_body(&around).expect("parse");
    assert_eq!(text, written(&c));
}

#[test]
fn parse_errors_distinguish_failure_modes() {
    // No open marker.
    match Claim::from_issue_body("just some text").unwrap_err() {
        ManifestError::MissingOpen => {}
        other => panic!("expected MissingOpen, got {other:?}"),
    }
    // Open but no close.
    let s = format!("{MANIFEST_OPEN}\n```json\n{{}}\n```");
    match Claim::from_issue_body(&s).unwrap_err() {
        ManifestError::MissingClose => {}
        other => panic!("expected MissingClose, got {other:?}"),
    }
    // No fence around the JSON.
    let s = format!("{MANIFEST_OPEN}\nplain text\n{MANIFEST_CLOSE}");
    match Claim::from_issue_body(&s).unwrap_err() {
        ManifestError::MissingFence => {}
        other => panic!("expected MissingFence, got {other:?}"),
    }
    // Garbage inside the fence.
    let s = format!("{MANIFEST_OPEN}\n```json\nnot-json\n```\n{MANIFEST_CLOSE}");
    let text = Claim::from_issue_body(&s).unwrap();
    assert_eq!(text, "not-json");
    let fault = serde_json::from_str::<Value>(&text).unwrap_err();
    match Claim::from_manifest(Err(fault.to_string())).unwrap_err() {
        ManifestError::Parse(reason) => assert_eq!(reason, fault.to_string()),
        other => panic!("expected Parse, got {other:?}"),
    }
    let good = Claim::new("claim_x", ClaimMode::Confidential, details("bc1qx"));
    assert_eq!(Claim::from_manifest(Ok(good)).unwrap().claim_id, "claim_x");
}

#[test]
fn manifest_errors_say_what_is_wrong() {
    assert_eq!(
        ManifestError::MissingOpen.message(),
        "issue body has no `<!-- s12e:claim:v1:begin -->` marker"
    );
    assert_eq!(
        ManifestError::MissingClose.message(),
        "issue body has no `<!-- s12e:claim:v1:end -->` marker"
    );
    assert_eq!(
        ManifestError::MissingFence.message(),
        "manifest fence (` ```json ... ``` `) malformed"
    );
    assert_eq!(
        ManifestError::Parse("eof".into()).message(),
        "manifest JSON: eof"
    );
}

#[test]
fn body_is_written_to_the_letter() {
    let mut c = Claim::new("claim_1", ClaimMode::CustomerDeploy, details("bc1q"));
    c.customer_owner = Some("alice".into());
    c.billing.paid_until = Timestamp::new(1_777_118_400, 0);
    let body = c.to_issue_body("{}");
    assert_eq!(
        body,
        "# Sats for Compute claim `claim_1`\n\n- **State:** `requested`\n- **Mode:** \
         `customer_deploy`\n- **Customer owner:** `alice`\n- **Agent:** _(unassigned)_\n- **Paid \
         until:** 2026-04-25T12:00:00+00:00\n\n<!-- s12e:claim:v1:begin -->\n```json\n{}\n```\n<!-- \
         s12e:claim:v1:end -->\n"
    );
    c.customer_owner = None;
    c.agent_id = Some("a7".into());
    c.billing.paid_until = None;
    let body = c.to_issue_body("{}");
    assert!(body.contains("- **Customer owner:** _(unset)_\n- **Agent:** `a7`\n"));
    assert!(body.contains("- **Paid until:** _(not yet active)_\n"));
}

#[test]
fn only_the_fence_counts_whatever_stands_around() {
    let body = format!("above\n{MANIFEST_OPEN}\n```\n  {{\"a\": 1}} \n```   \n{MANIFEST_CLOSE}below");
    assert_eq!(Claim::from_issue_body(&body).unwrap(), "{\"a\": 1}");
    // A second manifest further down is not read.
    let twice = format!("{body}\n{MANIFEST_OPEN}\n```json\n2\n```\n{MANIFEST_CLOSE}");
    assert_eq!(Claim::from_issue_body(&twice).unwrap(), "{\"a\": 1}");
    // The closing fence is missing.
    let open = format!("{MANIFEST_OPEN}\n```json\n{{}}\n{MANIFEST_CLOSE}");
    assert!(matches!(
        Claim::from_issue_body(&open),
        Err(ManifestError::MissingFence)
    ));
}

#[test]
fn a_marker_inside_a_manifest_breaks_it_off() {
    let c = Claim::new("claim_1", ClaimMode::CustomerDeploy, details("bc1q"));
    let body = c.to_issue_body(&format!("{{\"note\": \"{MANIFEST_CLOSE}\"}}"));
    assert!(Claim::from_issue_body(&body).is_err());
}
