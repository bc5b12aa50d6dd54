//! The operator's tools.

use axum::http::header::AUTHORIZATION;
use axum::http::{HeaderMap, HeaderValue};
use satsforcompute::claim::{state_str, BtcDetails, Claim, ClaimMode, ClaimState, ManifestError};
use satsforcompute::config::Config;
use satsforcompute::github::{Issue, Label};
use satsforcompute::percent::percent_encode;
use satsforcompute::steps::{IssueStep, PlannedStep};
use satsforcompute::time::Timestamp;
use satsforcompute::tools::{
    admit_invoice, admit_update, base_labels, btc_invoice, build_boot_inputs,
    build_owner_update_inputs, check_create, claim_create, claim_created, claim_id, claim_loaded,
    claim_update, dd_dispatch_owner_update, default_blocks, format_btc, generate_claim_id,
    invoice_steps, label_of, label_state_slug, manifest_fault, new_issue, node_boot,
    owner_update_sent, owner_update_steps, rand_suffix, require_tool_token, settle_step, upstream,
    ApiError, BootError, BtcInvoiceReq, ClaimCreateReq, ClaimUpdateReq, DdDispatchOwnerUpdateReq,
};

fn tools_config() -> Config {
    Config {
        port: 0,
        state_repo: "operator/sats-ops".into(),
        ops_repo: "operator/sats-ops-actuator".into(),
        ops_boot_workflow: "boot-agent.yml".into(),
        ops_owner_workflow: "owner-update.yml".into(),
        ops_ref: "main".into(),
        dd_cp_url: "https://app.devopsdefender.com".into(),
        sweep_address: "bc1q-test".into(),
        price_per_24h_sats: 50_000,
        pending_timeout_secs: 10_800,
        github_token: "test-token".into(),
        tool_api_token: "test-tool-token".into(),
        dd_auth_token: None,
        mempool_base_url: "https://mempool.space/api".into(),
        optimistic_bind_grace_secs: 3600,
    }
}

fn tools_btc() -> BtcDetails {
    BtcDetails {
        address: "bc1q-x".into(),
        price_per_24h_sats: 50_000,
        exact_amount_sats: 50_127,
        required_confirmations: 1,
        pending_timeout_secs: 10_800,
    }
}

fn tools_claim(mode: ClaimMode) -> Claim {
    Claim::new("claim_x", mode, tools_btc())
}

fn issue_seven() -> Issue {
    Issue {
        number: 7,
        title: "claim_x".into(),
        body: "...".into(),
        labels: vec![
            Label::Object {
                name: "s12e".into(),
            },
            Label::Name("state:active".into()),
        ],
        html_url: "https://github.com/o/r/issues/7".into(),
        state: "open".into(),
    }
}

fn auth(h: &HeaderMap) -> Option<&str> {
    h.get(AUTHORIZATION).and_then(|v| v.to_str().ok())
}

/// A step as text: what it does, to what, and under which context.
fn step_text(p: &PlannedStep) -> String {
    let context = p.context.as_deref().unwrap_or("-");
    match &p.step {
        IssueStep::WriteBody(_) => format!("body [{context}]"),
        IssueStep::RemoveLabel(l) => format!("-{l} [{context}]"),
        IssueStep::AddLabel(l) => format!("+{l} [{context}]"),
        IssueStep::AddComment(c) => format!("say {c} [{context}]"),
    }
}

fn plan_text(steps: &[PlannedStep]) -> Vec<String> {
    steps.iter().map(step_text).collect()
}

#[test]
fn claim_id_is_unique_under_burst() {
    // 1000 IDs in a tight loop: none should collide.
    let mut seen = std::collections::HashSet::new();
    for n in 0..1000u32 {
        assert!(seen.insert(generate_claim_id(n, 0)), "duplicate claim_id");
    }
}

#[test]
fn claim_id_format_matches_spec_shape() {
    let nanos = std::time::SystemTime::now()
        .duration_since(std::time::UNIX_EPOCH)
        .map(|d| d.subsec_nanos())
        .unwrap_or(0);
    let id = generate_claim_id(5, nanos);
    assert!(id.starts_with("claim_"));
    let parts: Vec<&str> = id.split('_').collect();
    assert_eq!(parts.len(), 3);
    assert!(parts[1].chars().all(|c| c.is_ascii_digit()));
    assert!(parts[2].len() == 8 && parts[2].chars().all(|c| c.is_ascii_hexdigit()));
}

#[test]
fn claim_ids_are_written_to_the_letter() {
    assert_eq!(claim_id(1_745_000_000, 0xab), "claim_1745000000_000000ab");
    assert_eq!(claim_id(-5, u32::MAX), "claim_-5_ffffffff");
    assert_eq!(rand_suffix(0, 42), 42);
    assert_eq!(rand_suffix(1, 0), 2_654_435_761);
    assert_eq!(rand_suffix(2, 1), 2_654_435_761u32.wrapping_mul(2) ^ 1);
    assert_ne!(rand_suffix(1, 9), rand_suffix(2, 9));
}

#[test]
fn claim_ids_follow_the_clock() {
    let before = std::time::SystemTime::now()
        .duration_since(std::time::UNIX_EPOCH)
        .unwrap()
        .as_secs();
    let id = generate_claim_id(1, 1);
    let secs: u64 = id.split('_').nth(1).unwrap().parse().unwrap();
    assert!(secs >= before && secs < before + 60);
}

#[test]
fn require_tool_token_accepts_bearer() {
    let mut h = HeaderMap::new();
    h.insert(AUTHORIZATION, HeaderValue::from_static("Bearer secret"));
    require_tool_token(auth(&h), "secret").unwrap();
}

#[test]
fn require_tool_token_rejects_mismatched_token() {
    let mut h = HeaderMap::new();
    h.insert(AUTHORIZATION, HeaderValue::from_static("Bearer wrong"));
    assert!(matches!(
        require_tool_token(auth(&h), "secret"),
        Err(ApiError::Unauthorized)
    ));
}

#[test]
fn require_tool_token_rejects_missing_header() {
    let h = HeaderMap::new();
    assert!(matches!(
        require_tool_token(auth(&h), "secret"),
        Err(ApiError::Unauthorized)
    ));
}

#[test]
fn require_tool_token_rejects_non_bearer_scheme() {
    let mut h = HeaderMap::new();
    h.insert(
        AUTHORIZATION,
        HeaderValue::from_static("Basic dXNlcjpwdw=="),
    );
    assert!(matches!(
        require_tool_token(auth(&h), "anything"),
        Err(ApiError::Unauthorized)
    ));
}

#[test]
fn tool_token_is_trimmed_and_never_empty() {
    assert!(require_tool_token(Some("bearer   secret \t"), "secret").is_ok());
    assert!(require_tool_token(Some("BEARER secret"), "secret").is_err());
    assert!(require_tool_token(Some("Bearer  "), "").is_err());
}

#[test]
fn base_labels_includes_mode_specific_label() {
    let cd: Vec<_> = base_labels(ClaimMode::CustomerDeploy);
    assert!(cd.contains(&"mode:customer-deploy"));
    let cf: Vec<_> = base_labels(ClaimMode::Confidential);
    assert!(cf.contains(&"mode:confidential"));
    assert_eq!(
        cd[..4],
        ["s12e", "claim", "state:requested", "integrity:pristine"]
    );
}

#[test]
fn state_str_round_trips_with_serde() {
    // The names that serde's snake_case rename gives the states.
    for (st, name) in [
        (ClaimState::Requested, "requested"),
        (ClaimState::InvoiceCreated, "invoice_created"),
        (ClaimState::BtcMempoolSeen, "btc_mempool_seen"),
        (ClaimState::BtcConfirmed, "btc_confirmed"),
        (ClaimState::OwnerUpdateDispatched, "owner_update_dispatched"),
        (ClaimState::Active, "active"),
        (ClaimState::Failed, "failed"),
    ] {
        let via_serde = serde_json::Value::String(name.into());
        assert_eq!(via_serde, state_str(st));
    }
}

#[test]
fn label_state_slug_kebabs_underscored_states() {
    assert_eq!(label_state_slug("active"), "active");
    assert_eq!(label_state_slug("payment_failed"), "payment-failed");
    assert_eq!(
        label_state_slug("active_pending_confirmation"),
        "active-pending-confirmation"
    );
    assert_eq!(
        label_of(ClaimState::OwnerUpdateFailed),
        "state:owner-update-failed"
    );
}

#[test]
fn format_btc_pads_to_eight_decimals() {
    assert_eq!(format_btc(0), "0.00000000");
    assert_eq!(format_btc(1), "0.00000001");
    assert_eq!(format_btc(50_000), "0.00050000");
    assert_eq!(format_btc(100_000_000), "1.00000000");
    assert_eq!(format_btc(150_000_000), "1.50000000");
    assert_eq!(format_btc(2_100_000_000_000_000), "21000000.00000000");
    assert_eq!(format_btc(u64::MAX), "184467440737.09551615");
}

#[test]
fn percent_encode_passes_unreserved_through() {
    assert_eq!(percent_encode("claim_abc-123.0"), "claim_abc-123.0");
    assert_eq!(percent_encode("Sats for Compute"), "Sats%20for%20Compute");
    // Multi-byte UTF-8 (just to make sure we don't panic / mangle).
    assert_eq!(percent_encode("café"), "caf%C3%A9");
}

#[test]
fn percent_encode_handles_bip21_special_chars() {
    // Anything that would break the URI must be encoded.
    assert_eq!(percent_encode("a&b=c"), "a%26b%3Dc");
    assert_eq!(percent_encode("a?b#c"), "a%3Fb%23c");
}

#[test]
fn percent_encoding_covers_every_width() {
    assert_eq!(percent_encode("\u{1}~_"), "%01~_");
    assert_eq!(percent_encode("€"), "%E2%82%AC");
    assert_eq!(percent_encode("😀"), "%F0%9F%98%80");
    assert_eq!(percent_encode("a%b"), "a%25b");
}

#[test]
fn build_boot_inputs_confidential_requires_workload_repo() {
    let c = tools_claim(ClaimMode::Confidential);
    let err = build_boot_inputs(&c).unwrap_err();
    assert_eq!(err, BootError::MissingWorkloadRepo);
    assert!(
        err.message().contains("workload_repo"),
        "expected workload_repo in error, got {}",
        err.message()
    );
    let refused = node_boot(&tools_config(), &c).unwrap_err();
    assert_eq!(refused.status(), 400);
    assert_eq!(
        refused.message(),
        "confidential claim missing workload_repo on manifest"
    );
}

#[test]
fn build_boot_inputs_confidential_carries_workload_ref() {
    let mut c = tools_claim(ClaimMode::Confidential);
    c.workload_repo = Some("alice/oracle".into());
    c.workload_ref = Some("v1.2.3".into());
    let inputs = build_boot_inputs(&c).unwrap();
    assert_eq!(inputs["mode"], "confidential");
    assert_eq!(inputs["workload_repo"], "alice/oracle");
    assert_eq!(inputs["workload_ref"], "v1.2.3");
    // No customer_owner binding in confidential mode.
    assert_eq!(inputs["customer_owner"], "");
}

#[test]
fn boot_inputs_name_no_owner_of_a_confidential_claim() {
    let mut c = Claim::new("claim_x", ClaimMode::Confidential, tools_btc());
    c.workload_repo = Some("alice/oracle".into());
    c.customer_owner = Some("mallory".into());
    let inputs = build_boot_inputs(&c).unwrap();
    assert_eq!(inputs.len(), 5);
    assert_eq!(inputs["customer_owner"], "");
    assert_eq!(inputs["workload_repo"], "alice/oracle");
    assert_eq!(inputs["workload_ref"], "main");
    let resp = node_boot(&tools_config(), &c).unwrap();
    assert_eq!(resp.dispatch.inputs["customer_owner"], "");
}

#[test]
fn boot_inputs_name_the_owner_of_a_customer_deploy_claim() {
    let mut c = Claim::new("claim_42", ClaimMode::CustomerDeploy, tools_btc());
    c.customer_owner = Some("alice".into());
    let inputs = build_boot_inputs(&c).unwrap();
    assert_eq!(inputs.len(), 5);
    assert_eq!(inputs["claim_id"], "claim_42");
    assert_eq!(inputs["mode"], "customer_deploy");
    assert_eq!(inputs["customer_owner"], "alice");
    assert_eq!(inputs["workload_repo"], "");
    assert_eq!(inputs["workload_ref"], "");
    let resp = node_boot(&tools_config(), &c).unwrap();
    assert_eq!(resp.claim_id, "claim_42");
    assert_eq!(resp.dispatch.ops_repo, "operator/sats-ops-actuator");
    assert_eq!(resp.dispatch.workflow, "boot-agent.yml");
    assert_eq!(resp.dispatch.ref_, "main");
    assert_eq!(resp.dispatch.inputs["customer_owner"], "alice");
}

#[test]
fn owner_update_inputs_name_agent_and_owner() {
    let inputs = build_owner_update_inputs("claim_42", "dd-agent-7.devopsdefender.com", "alice");
    assert_eq!(inputs.len(), 3);
    assert_eq!(inputs["claim_id"], "claim_42");
    assert_eq!(inputs["agent_host"], "dd-agent-7.devopsdefender.com");
    assert_eq!(inputs["agent_owner"], "alice");
}

#[test]
fn claim_update_rejects_wrong_schema() {
    let mut c = tools_claim(ClaimMode::CustomerDeploy);
    c.schema = "future.claim.v9".into();
    let req = ClaimUpdateReq {
        issue_number: 7,
        claim: c,
        event_note: None,
    };
    let err = admit_update(&tools_config(), Some("Bearer test-tool-token"), &req).err();
    match err {
        Some(ApiError::BadRequest(msg)) => {
            assert!(msg.contains("future.claim.v9"));
            assert_eq!(
                msg,
                "claim.schema must be \"s12e.claim.v1\", got \"future.claim.v9\""
            );
        }
        _ => panic!("expected BadRequest"),
    }
    assert!(matches!(
        admit_update(&tools_config(), None, &req),
        Err(ApiError::Unauthorized)
    ));
}

#[test]
fn claims_are_made_for_acceptable_requests() {
    let cfg = tools_config();
    let header = Some("Bearer test-tool-token");
    let req = ClaimCreateReq {
        mode: ClaimMode::CustomerDeploy,
        customer_owner: Some("alice".into()),
        workload_repo: Some("ignored/here".into()),
        workload_ref: None,
    };
    let claim = claim_create(&cfg, header, req, "claim_1", 10_126).unwrap();
    assert_eq!(claim.btc.exact_amount_sats, 50_128);
    assert_eq!(claim.btc.price_per_24h_sats, 50_000);
    assert_eq!(claim.btc.address, "bc1q-test");
    assert_eq!(claim.btc.required_confirmations, 1);
    assert_eq!(claim.customer_owner.as_deref(), Some("alice"));
    assert!(claim.workload_repo.is_none());

    let req = ClaimCreateReq {
        mode: ClaimMode::Confidential,
        customer_owner: Some("ignored".into()),
        workload_repo: Some("alice/oracle".into()),
        workload_ref: Some("".into()),
    };
    let claim = claim_create(&cfg, header, req, "claim_2", 9_998).unwrap();
    assert_eq!(claim.btc.exact_amount_sats, 59_999);
    assert!(claim.customer_owner.is_none());
    assert_eq!(claim.workload_repo.as_deref(), Some("alice/oracle"));
    assert_eq!(claim.workload_ref.as_deref(), Some("main"));
    assert!(build_boot_inputs(&claim).is_ok());

    let issue = new_issue(&claim, "{}");
    assert_eq!(issue.title, "claim claim_2");
    assert_eq!(issue.body, claim.to_issue_body("{}"));
    assert_eq!(issue.labels[4], "mode:confidential");
    let resp = claim_created(claim, issue_seven());
    assert_eq!(resp.issue_number, 7);
    assert_eq!(resp.issue_url, "https://github.com/o/r/issues/7");
    assert_eq!(resp.claim.claim_id, "claim_2");
}

#[test]
fn unacceptable_requests_for_claims_are_refused() {
    let cfg = tools_config();
    let bare = ClaimCreateReq {
        mode: ClaimMode::CustomerDeploy,
        customer_owner: Some("".into()),
        workload_repo: None,
        workload_ref: None,
    };
    assert!(matches!(
        claim_create(&cfg, Some("Bearer nope"), bare.clone(), "c", 0),
        Err(ApiError::Unauthorized)
    ));
    match claim_create(&cfg, Some("Bearer test-tool-token"), bare, "c", 0) {
        Err(ApiError::BadRequest(m)) => {
            assert_eq!(m, "customer_owner required for customer_deploy mode")
        }
        _ => panic!("expected BadRequest"),
    }
    for repo in [None, Some("".to_string()), Some("no-slash".to_string())] {
        let req = ClaimCreateReq {
            mode: ClaimMode::Confidential,
            customer_owner: None,
            workload_repo: repo,
            workload_ref: None,
        };
        match check_create(&req) {
            Err(ApiError::BadRequest(m)) => assert_eq!(
                m,
                "workload_repo (owner/repo) required for confidential mode"
            ),
            _ => panic!("expected BadRequest"),
        }
    }
}

#[test]
fn errors_carry_status_and_message() {
    assert_eq!(ApiError::Unauthorized.status(), 401);
    assert_eq!(ApiError::Unauthorized.message(), "unauthorized");
    assert_eq!(ApiError::BadRequest("b".into()).status(), 400);
    let e = upstream("github get_issue", "boom");
    assert_eq!(e.status(), 502);
    assert_eq!(e.message(), "github get_issue: boom");
    assert_eq!(
        manifest_fault(&ManifestError::MissingFence).message(),
        "issue body manifest: manifest fence (` ```json ... ``` `) malformed"
    );
    assert!(settle_step(&None, Some("x")).is_ok());
    assert!(settle_step(&Some("add_comment".into()), None).is_ok());
    let e = settle_step(&Some("add_comment".into()), Some("x")).unwrap_err();
    assert_eq!(e.message(), "add_comment: x");
}

#[test]
fn loading_a_claim_tells_its_issue() {
    let resp = claim_loaded(tools_claim(ClaimMode::CustomerDeploy), issue_seven());
    assert_eq!(resp.issue_number, 7);
    assert_eq!(resp.state, "open");
    assert_eq!(resp.labels, vec!["s12e", "state:active"]);
}

#[test]
fn updates_move_labels_and_leave_a_trace() {
    let existing = tools_claim(ClaimMode::CustomerDeploy);
    let mut next = tools_claim(ClaimMode::CustomerDeploy);
    next.state = ClaimState::InvoiceCreated;
    let req = ClaimUpdateReq {
        issue_number: 7,
        claim: next,
        event_note: Some("by hand".into()),
    };
    let (resp, steps) = claim_update(&existing, "url", req, "{}").unwrap();
    assert!(resp.state_changed);
    assert_eq!(resp.previous_state, "requested");
    assert_eq!(resp.new_state, "invoice_created");
    assert_eq!(resp.issue_url, "url");
    assert_eq!(
        plan_text(&steps),
        vec![
            "body [github update_issue_body]",
            "-state:requested [remove_label state:requested]",
            "+state:invoice-created [add_labels state:invoice-created]",
            "say State: `requested` → `invoice_created`\n\nby hand [add_comment]",
        ]
    );

    let req = ClaimUpdateReq {
        issue_number: 7,
        claim: tools_claim(ClaimMode::CustomerDeploy),
        event_note: Some("".into()),
    };
    let (resp, steps) = claim_update(&existing, "url", req, "{}").unwrap();
    assert!(!resp.state_changed);
    assert_eq!(
        plan_text(&steps),
        vec![
            "body [github update_issue_body]",
            "say Manifest updated (state unchanged: `requested`) [add_comment]",
        ]
    );
}

#[test]
fn updates_keep_the_claim_id() {
    let existing = tools_claim(ClaimMode::CustomerDeploy);
    let req = ClaimUpdateReq {
        issue_number: 7,
        claim: Claim::new("claim_y", ClaimMode::CustomerDeploy, tools_btc()),
        event_note: None,
    };
    match claim_update(&existing, "url", req, "{}") {
        Err(ApiError::BadRequest(m)) => assert_eq!(
            m,
            "claim_id mismatch: issue holds \"claim_x\", request has \"claim_y\""
        ),
        _ => panic!("expected BadRequest"),
    }
    // A foreign schema is refused first.
    let mut foreign = Claim::new("claim_y", ClaimMode::CustomerDeploy, tools_btc());
    foreign.schema = "future.claim.v9".into();
    let req = ClaimUpdateReq {
        issue_number: 7,
        claim: foreign,
        event_note: None,
    };
    match claim_update(&existing, "url", req, "{}") {
        Err(ApiError::BadRequest(m)) => assert_eq!(
            m,
            "claim.schema must be \"s12e.claim.v1\", got \"future.claim.v9\""
        ),
        _ => panic!("expected BadRequest"),
    }
}

#[test]
fn invoices_bill_exact_blocks() {
    assert_eq!(default_blocks(), 1);
    let mut c = tools_claim(ClaimMode::CustomerDeploy);
    let req = BtcInvoiceReq {
        issue_number: 7,
        blocks: 3,
    };
    let (resp, advanced) = btc_invoice(&mut c, &req).unwrap();
    assert!(advanced);
    assert_eq!(c.state, ClaimState::InvoiceCreated);
    assert_eq!(resp.amount_sats, 150_381);
    assert_eq!(resp.amount_btc, "0.00150381");
    assert_eq!(
        resp.bip21_uri,
        "bitcoin:bc1q-x?amount=0.00150381&label=Sats%20for%20Compute&message=claim_x"
    );
    assert_eq!(resp.message, "claim_x");
    assert_eq!(resp.state, "invoice_created");
    assert_eq!(
        plan_text(&invoice_steps(&c, &resp, "{}")),
        vec![
            "body [github update_issue_body]",
            "-state:requested [-]",
            "+state:invoice-created [-]",
            "say Generated BIP21 invoice for 150381 sats (3 block(s)). State: `requested` → \
             `invoice_created`. The orchestrator will now watch the address for payment. [-]",
        ]
    );
    // Again: nothing moves, the invoice is the same.
    let (again, advanced) = btc_invoice(&mut c, &req).unwrap();
    assert!(!advanced);
    assert_eq!(again.bip21_uri, resp.bip21_uri);
    assert_eq!(c.state, ClaimState::InvoiceCreated);
}

#[test]
fn invoices_that_cannot_be_billed_are_refused() {
    let cfg = tools_config();
    let none = BtcInvoiceReq {
        issue_number: 7,
        blocks: 0,
    };
    match admit_invoice(&cfg, Some("Bearer test-tool-token"), &none) {
        Err(ApiError::BadRequest(m)) => {
            assert_eq!(m, "blocks must be >= 1 (one 24-hour unit)")
        }
        _ => panic!("expected BadRequest"),
    }
    assert!(matches!(
        admit_invoice(&cfg, None, &none),
        Err(ApiError::Unauthorized)
    ));
    let mut c = tools_claim(ClaimMode::CustomerDeploy);
    match btc_invoice(&mut c, &none) {
        Err(ApiError::BadRequest(m)) => {
            assert_eq!(m, "blocks must be >= 1 (one 24-hour unit)")
        }
        _ => panic!("expected BadRequest"),
    }
    assert_eq!(c.state, ClaimState::Requested);
    c.btc.exact_amount_sats = u64::MAX;
    let two = BtcInvoiceReq {
        issue_number: 7,
        blocks: 2,
    };
    assert!(admit_invoice(&cfg, Some("Bearer test-tool-token"), &two).is_ok());
    match btc_invoice(&mut c, &two) {
        Err(ApiError::BadRequest(m)) => assert_eq!(
            m,
            "blocks=2 × exact_amount_sats=18446744073709551615 overflows u64"
        ),
        _ => panic!("expected BadRequest"),
    }
    assert_eq!(c.state, ClaimState::Requested);
}

#[test]
fn owner_updates_bind_and_mark_what_is_unsettled() {
    let cfg = tools_config();
    let now = Timestamp::new(1_777_118_400, 5).unwrap();
    let mut c = tools_claim(ClaimMode::CustomerDeploy);
    c.customer_owner = Some("alice".into());
    c.state = ClaimState::BtcMempoolSeen;
    let req = DdDispatchOwnerUpdateReq {
        issue_number: 7,
        agent_host: Some("agent-7".into()),
    };
    let update = dd_dispatch_owner_update(&cfg, &mut c, &req).unwrap();
    assert_eq!(c.agent_hostname.as_deref(), Some("agent-7"));
    assert_eq!(update.resp.dispatch.workflow, "owner-update.yml");
    assert_eq!(update.resp.dispatch.inputs["agent_owner"], "alice");
    assert_eq!(update.resp.dispatch.inputs["agent_host"], "agent-7");
    let before = owner_update_sent(&mut c, &now);
    assert_eq!(before, Some(ClaimState::BtcMempoolSeen));
    assert_eq!(c.state, ClaimState::OwnerUpdateDispatched);
    assert_eq!(c.billing.optimistic_bind_at, Some(now));
    let until = c.billing.paid_until.unwrap();
    assert_eq!((until.secs(), until.nanos()), (1_777_204_800, 5));
    assert_eq!(
        plan_text(&owner_update_steps(&c, &update, before, "{}")),
        vec![
            "body [github update_issue_body]",
            "-state:btc-mempool-seen [-]",
            "+state:owner-update-dispatched [-]",
            "say Dispatched `owner-update.yml` on `operator/sats-ops-actuator` for `agent-7` \
             (owner=`alice`). State: `btc_mempool_seen` → `owner_update_dispatched` (optimistic \
             0-conf bind; tx must settle within grace window). [-]",
        ]
    );
    // Dispatched again: the deadline does not slide and only the agent is
    // written down.
    let update = dd_dispatch_owner_update(&cfg, &mut c, &req).unwrap();
    let later = Timestamp::new(1_777_200_000, 0).unwrap();
    assert_eq!(owner_update_sent(&mut c, &later), None);
    assert_eq!(c.billing.paid_until, Some(until));
    assert_eq!(
        plan_text(&owner_update_steps(&c, &update, None, "{}")),
        vec!["body [-]"]
    );
    let plain = DdDispatchOwnerUpdateReq {
        issue_number: 7,
        agent_host: Some("".into()),
    };
    let update = dd_dispatch_owner_update(&cfg, &mut c, &plain).unwrap();
    assert_eq!(update.agent_host, "agent-7");
    assert!(owner_update_steps(&c, &update, None, "{}").is_empty());
    // Confirmed before the bind: no mark, and a set deadline stays.
    c.state = ClaimState::BtcConfirmed;
    c.billing.optimistic_bind_at = None;
    let before = owner_update_sent(&mut c, &later);
    assert_eq!(before, Some(ClaimState::BtcConfirmed));
    assert_eq!(c.billing.optimistic_bind_at, None);
    assert_eq!(c.billing.paid_until, Some(until));
    assert!(plan_text(&owner_update_steps(&c, &update, before, "{}"))[3]
        .ends_with("State: `btc_confirmed` → `owner_update_dispatched`. [-]"));
}

#[test]
fn owner_updates_without_agent_or_owner_are_refused() {
    let cfg = tools_config();
    let req = DdDispatchOwnerUpdateReq {
        issue_number: 7,
        agent_host: None,
    };
    let mut sealed = tools_claim(ClaimMode::Confidential);
    let mut hostless = tools_claim(ClaimMode::CustomerDeploy);
    let mut ownerless = tools_claim(ClaimMode::CustomerDeploy);
    ownerless.agent_hostname = Some("agent-7".into());
    for (claim, message) in [
        (
            &mut sealed,
            "dd.dispatch_owner_update is not valid for confidential claims",
        ),
        (
            &mut hostless,
            "agent_host required (none on request and none on claim manifest)",
        ),
        (
            &mut ownerless,
            "claim.customer_owner is unset; can't dispatch owner-update without an owner",
        ),
    ] {
        match dd_dispatch_owner_update(&cfg, claim, &req) {
            Err(ApiError::BadRequest(m)) => assert_eq!(m, message),
            _ => panic!("expected BadRequest"),
        }
    }
}
