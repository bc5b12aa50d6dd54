//! Ticks and the orchestrator.

use satsforcompute::btc::AddressTx;
use satsforcompute::claim::{BtcDetails, Claim, ClaimMode, ClaimState, TaintReason};
use satsforcompute::config::Config;
use satsforcompute::github::Issue;
use satsforcompute::lifecycle::{
    attribute_payments_since, credit_24h, creditable, creditable_now, dispatch_node_boot,
    dispatch_owner_update, oldest_first, overdue_comment, plan_pass, process_active,
    process_btc_mempool_seen, process_invoice_created, process_node_assignment_started, scan_order,
    settled_confirmations, state_label, transition, unclaimed, ActiveStep, AssignmentStep, Listing,
};
use satsforcompute::steps::{IssueStep, PlannedStep};
use satsforcompute::tick::{
    claim_ticked, health_url, revoke_call, tick_clock, tick_first, tick_step, tick_steps, DdHealth,
    Look, Reply, Tick,
};
use satsforcompute::time::Timestamp;

const NOON: i64 = 1_777_118_400;

fn at(secs: i64) -> Timestamp {
    Timestamp::new(secs, 0).unwrap()
}

fn tick_config() -> Config {
    Config {
        port: 0,
        state_repo: "o/state".into(),
        ops_repo: "o/ops".into(),
        ops_boot_workflow: "boot-agent.yml".into(),
        ops_owner_workflow: "owner-update.yml".into(),
        ops_ref: "main".into(),
        dd_cp_url: "https://app.devopsdefender.com".into(),
        sweep_address: "bc1q".into(),
        price_per_24h_sats: 50_000,
        pending_timeout_secs: 10_800,
        github_token: "g".into(),
        tool_api_token: "t".into(),
        dd_auth_token: None,
        mempool_base_url: "https://mempool.space/api".into(),
        optimistic_bind_grace_secs: 3600,
    }
}

fn claim_in(state: ClaimState) -> Claim {
    let mut c = Claim::new(
        "claim_1",
        ClaimMode::CustomerDeploy,
        BtcDetails {
            address: "bc1q".into(),
            price_per_24h_sats: 50_000,
            exact_amount_sats: 50_127,
            required_confirmations: 2,
            pending_timeout_secs: 10_800,
        },
    );
    c.customer_owner = Some("alice".into());
    c.state = state;
    c
}

fn tx(txid: &str, sats: u64, height: Option<u64>) -> AddressTx {
    AddressTx {
        txid: txid.into(),
        received_sats: sats,
        block_height: height,
        block_time: None,
    }
}

fn done(t: &Tick) -> (bool, &str) {
    match t {
        Tick::Done { advanced, note } => (*advanced, note.as_str()),
        other => panic!("not done: {other:?}"),
    }
}

fn refusal(t: &Tick) -> String {
    match t {
        Tick::Refused(e) => e.message(),
        other => panic!("not refused: {other:?}"),
    }
}

fn steps_text(steps: &[PlannedStep]) -> Vec<String> {
    steps
        .iter()
        .map(|p| {
            let mark = p.context.as_deref().unwrap_or("-");
            match &p.step {
                IssueStep::WriteBody(_) => format!("body [{mark}]"),
                IssueStep::RemoveLabel(l) => format!("-{l} [{mark}]"),
                IssueStep::AddLabel(l) => format!("+{l} [{mark}]"),
                IssueStep::AddComment(c) => format!("say {c} [{mark}]"),
            }
        })
        .collect()
}

#[test]
fn an_invoice_takes_only_its_exact_amount() {
    let cfg = tick_config();
    let mut c = claim_in(ClaimState::InvoiceCreated);
    let first = tick_first(&c);
    assert!(matches!(first, Tick::WantTxs(Look::Invoice)));
    let others = vec![tx("a", 50_126, None), tx("b", 50_128, Some(1))];
    let t = tick_step(&cfg, &mut c, first, Reply::Txs(Ok(others)));
    assert_eq!(
        done(&t),
        (
            false,
            "no tx paying exactly 50127 sats to the invoice address yet"
        )
    );
    assert_eq!(c.state, ClaimState::InvoiceCreated);

    c.billing.last_payment_txid = Some("old".into());
    let txs = vec![tx("old", 50_127, None), tx("new", 50_127, None)];
    let first = tick_first(&c);
    let t = tick_step(&cfg, &mut c, first, Reply::Txs(Ok(txs)));
    assert_eq!(done(&t), (true, "saw tx `new` paying exactly 50127 sats"));
    assert_eq!(c.state, ClaimState::BtcMempoolSeen);
    assert_eq!(c.billing.last_payment_txid.as_deref(), Some("new"));
}

#[test]
fn a_failing_watcher_refuses_an_invoice_tick() {
    let cfg = tick_config();
    let mut c = claim_in(ClaimState::InvoiceCreated);
    let first = tick_first(&c);
    let t = tick_step(&cfg, &mut c, first, Reply::Txs(Err("503".into())));
    assert_eq!(refusal(&t), "btc list_address_txs: 503");
    assert_eq!(c.state, ClaimState::InvoiceCreated);
}

#[test]
fn a_payment_is_confirmed_at_enough_confirmations() {
    let cfg = tick_config();
    let mut c = claim_in(ClaimState::BtcMempoolSeen);
    assert_eq!(
        done(&tick_first(&c)),
        (false, "no last_payment_txid recorded")
    );
    c.billing.last_payment_txid = Some("p".into());
    let t = tick_first(&c);
    let t = tick_step(&cfg, &mut c, t, Reply::Txs(Ok(vec![])));
    assert_eq!(done(&t), (false, "tx `p` not visible to watcher"));

    for (tip, advanced, note) in [
        (100, false, "tx `p` at 1/2 confs"),
        (101, true, "tx `p` reached 2 conf"),
    ] {
        let mut c = c.clone();
        let t = tick_first(&c);
        let t = tick_step(&cfg, &mut c, t, Reply::Txs(Ok(vec![tx("p", 1, Some(100))])));
        assert!(matches!(t, Tick::WantPaymentTip(_)));
        let t = tick_step(&cfg, &mut c, t, Reply::Tip(Ok(tip)));
        assert_eq!(done(&t), (advanced, note));
        assert_eq!(c.state == ClaimState::BtcConfirmed, advanced);
    }

    let t = Tick::WantPaymentTip(tx("p", 1, None));
    let t = tick_step(&cfg, &mut c, t, Reply::Tip(Err("gone".into())));
    assert_eq!(refusal(&t), "btc current_block_height: gone");
}

#[test]
fn an_owner_that_shows_makes_a_claim_active() {
    let cfg = tick_config();
    let mut c = claim_in(ClaimState::OwnerUpdateDispatched);
    assert_eq!(
        done(&tick_first(&c)).1,
        "no agent_hostname on claim; the boot workflow has not written one back yet"
    );
    c.agent_hostname = Some("https://agent/".into());
    c.customer_owner = None;
    assert_eq!(
        done(&tick_first(&c)).1,
        "claim has no customer_owner to match against agent_owner"
    );
    c.customer_owner = Some("alice".into());
    let health = |owner: Option<&str>| {
        Reply::Health(Ok(DdHealth {
            agent_owner: owner.map(|o| o.to_string()),
            confidential_mode: true,
            taint_reasons: vec![TaintReason::CustomerOwnerEnabled],
        }))
    };
    let t = tick_first(&c);
    assert!(matches!(&t, Tick::WantHealth { host, owner } if host == "https://agent/" && owner == "alice"));
    assert_eq!(health_url("https://agent//"), "https://agent/health");
    assert_eq!(
        health_url("dd-local-bot.example.com"),
        "https://dd-local-bot.example.com/health"
    );
    assert_eq!(health_url("http://10.0.0.7:8080"), "http://10.0.0.7:8080/health");
    let t = tick_step(&cfg, &mut c, t, health(None));
    assert_eq!(done(&t), (false, "agent_owner=``; waiting for `alice`"));
    let t = tick_first(&c);
    let t = tick_step(&cfg, &mut c, t, Reply::Health(Err("502".into())));
    assert_eq!(refusal(&t), "dd-agent /health: 502");
    let t = tick_first(&c);
    let t = tick_step(&cfg, &mut c, t, health(Some("alice")));
    assert_eq!(
        done(&t),
        (
            true,
            "dd-agent `https://agent/` reports agent_owner=`alice`"
        )
    );
    assert_eq!(c.state, ClaimState::Active);
    assert!(c.integrity.confidential_mode);
    assert_eq!(
        c.integrity.taint_reasons,
        vec![TaintReason::CustomerOwnerEnabled]
    );
}

#[test]
fn an_unsettled_bind_settles_waits_or_is_reaped() {
    let cfg = tick_config();
    let mut c = claim_in(ClaimState::Active);
    c.billing.optimistic_bind_at = Some(at(NOON));
    c.billing.last_payment_txid = Some("p".into());
    c.agent_hostname = Some("agent".into());

    // Settled.
    let mut s = c.clone();
    let t = tick_first(&s);
    assert!(matches!(t, Tick::WantTxs(Look::Settle)));
    let t = tick_step(&cfg, &mut s, t, Reply::Txs(Ok(vec![tx("p", 1, Some(10))])));
    let t = tick_step(&cfg, &mut s, t, Reply::Tip(Ok(11)));
    assert_eq!(
        done(&t),
        (
            true,
            "optimistic 0-conf bind settled at required confs; cleared flag"
        )
    );
    assert_eq!(s.billing.optimistic_bind_at, None);
    assert_eq!(s.state, ClaimState::Active);

    // A watcher that fails is passed over: nothing is settled and nobody is
    // reaped, so the time is not even asked for.
    let mut s = c.clone();
    let t = tick_first(&s);
    let t = tick_step(&cfg, &mut s, t, Reply::Txs(Err("503".into())));
    assert_eq!(done(&t), (false, "active; no automatic transition"));
    let t = tick_first(&s);
    let t = tick_step(&cfg, &mut s, t, Reply::Txs(Ok(vec![tx("p", 1, Some(10))])));
    let t = tick_step(&cfg, &mut s, t, Reply::Tip(Err("503".into())));
    assert_eq!(done(&t), (false, "active; no automatic transition"));
    assert_eq!(s.billing.optimistic_bind_at, Some(at(NOON)));
    assert_eq!(s.state, ClaimState::Active);

    // A payment that is not visible waits for the time; within grace nothing
    // happens.
    let t = tick_first(&s);
    let t = tick_step(&cfg, &mut s, t, Reply::Txs(Ok(vec![])));
    let t = tick_step(&cfg, &mut s, t, Reply::Tip(Ok(u64::MAX)));
    assert!(matches!(t, Tick::WantSettleClock));
    let t = tick_step(&cfg, &mut s, t, Reply::Clock(at(NOON + 3599)));
    assert_eq!(done(&t), (false, "active; no automatic transition"));
    assert_eq!(s.billing.optimistic_bind_at, Some(at(NOON)));

    // A clock that runs backwards counts as no time.
    let t = tick_step(&cfg, &mut s, Tick::WantSettleClock, Reply::Clock(at(NOON - 9999)));
    assert_eq!(done(&t), (false, "active; no automatic transition"));

    // After grace access is revoked and the claim fails.
    let t = tick_step(&cfg, &mut s, Tick::WantSettleClock, Reply::Clock(at(NOON + 3600)));
    let note = "reaped: optimistic 0-conf bind unsettled after 3600s; dispatched owner-update with \
                empty agent_owner on `agent` to revoke (state → `failed`)";
    assert!(matches!(&t, Tick::WantRevoke { host, note: n, unsettled: true } if host == "agent" && n == note));
    assert_eq!(s.state, ClaimState::Active);
    let call = revoke_call(&cfg, &s, "agent");
    assert_eq!(call.inputs["agent_owner"], "");
    assert_eq!(call.inputs["claim_id"], "claim_1");
    assert_eq!(call.workflow, "owner-update.yml");
    let mut f = s.clone();
    let t2 = tick_step(&cfg, &mut f, t.clone(), Reply::Revoked(Err("nope".into())));
    assert_eq!(refusal(&t2), "dispatch_workflow reap: nope");
    assert_eq!(f.state, ClaimState::Active);
    let t = tick_step(&cfg, &mut s, t, Reply::Revoked(Ok(())));
    assert_eq!(done(&t), (true, note));
    assert_eq!(s.state, ClaimState::Failed);
    assert_eq!(s.billing.optimistic_bind_at, None);
    assert_eq!(
        done(&tick_first(&s)),
        (false, "no automatic transition from `failed`")
    );
}

#[test]
fn a_bind_without_agent_or_payment_is_reaped_at_once() {
    let cfg = tick_config();
    let mut c = claim_in(ClaimState::OwnerUpdateDispatched);
    c.billing.optimistic_bind_at = Some(at(NOON));
    assert!(matches!(tick_first(&c), Tick::WantSettleClock));
    let t = tick_step(&cfg, &mut c, Tick::WantSettleClock, Reply::Clock(at(NOON + 4000)));
    assert_eq!(
        done(&t),
        (
            true,
            "reaped: optimistic 0-conf bind unsettled after 4000s; no agent_hostname recorded so \
             revoke skipped (state → `failed`, manual review)"
        )
    );
    assert_eq!(c.state, ClaimState::Failed);
}

#[test]
fn an_overdue_claim_is_reaped() {
    let cfg = tick_config();
    let mut c = claim_in(ClaimState::Active);
    assert_eq!(
        done(&tick_first(&c)),
        (false, "active; no automatic transition")
    );
    c.billing.paid_until = Some(at(NOON));
    assert!(matches!(tick_first(&c), Tick::WantOverdueClock));
    let t = tick_step(&cfg, &mut c, Tick::WantOverdueClock, Reply::Clock(at(NOON - 1)));
    assert_eq!(done(&t), (false, "active; no automatic transition"));
    c.agent_hostname = Some("agent".into());
    let t = tick_step(&cfg, &mut c, Tick::WantOverdueClock, Reply::Clock(at(NOON)));
    assert!(matches!(&t, Tick::WantRevoke { note, unsettled: false, .. } if note.starts_with("reaped: paid_until elapsed 0s ago; dispatched")));
    c.agent_hostname = None;
    let t = tick_step(&cfg, &mut c, Tick::WantOverdueClock, Reply::Clock(at(NOON + 61)));
    assert_eq!(
        done(&t).1,
        "reaped: paid_until elapsed 61s ago; no agent_hostname recorded so revoke skipped (state \
         → `failed`, manual review)"
    );
    assert_eq!(c.state, ClaimState::Failed);
}

#[test]
fn a_tick_can_read_the_clock_itself() {
    let cfg = tick_config();
    let mut c = claim_in(ClaimState::Active);
    // Paid until 1970: overdue whatever the clock says.
    c.billing.paid_until = Some(at(0));
    let t = tick_clock(&cfg, &mut c, Tick::WantOverdueClock);
    assert!(done(&t).0);
    assert_eq!(c.state, ClaimState::Failed);
    // Paid until the year 9999: not overdue.
    let mut c = claim_in(ClaimState::Active);
    c.billing.paid_until = Some(at(253_402_300_799));
    let t = tick_clock(&cfg, &mut c, Tick::WantOverdueClock);
    assert!(!done(&t).0);
}

#[test]
fn a_tick_writes_body_labels_and_history() {
    let c = claim_in(ClaimState::BtcConfirmed);
    assert_eq!(
        steps_text(&tick_steps(
            ClaimState::BtcMempoolSeen,
            &c,
            "tx `p` reached 2 conf",
            "{}"
        )),
        vec![
            "body [github update_issue_body]",
            "-state:btc-mempool-seen [-]",
            "+state:btc-confirmed [-]",
            "say Tick: `btc_mempool_seen` → `btc_confirmed` (tx `p` reached 2 conf) [-]",
        ]
    );
    let resp = claim_ticked(ClaimState::BtcMempoolSeen, c, true, "n".into());
    assert_eq!(resp.previous_state, "btc_mempool_seen");
    assert_eq!(resp.new_state, "btc_confirmed");
    assert!(resp.state_changed);
    assert_eq!(resp.note, "n");
}

#[test]
fn leap_seconds_count_as_chrono_counts_them() {
    let cfg = tick_config();
    // 2016-12-31T23:59:60.5Z, a leap second.
    let leap = Timestamp::new(1_483_228_799, 1_500_000_000).unwrap();
    assert!(Timestamp::new(1_483_228_798, 1_500_000_000).is_none());
    let mut c = claim_in(ClaimState::Active);
    c.billing.paid_until = Some(leap);
    let t = tick_step(
        &cfg,
        &mut c,
        Tick::WantOverdueClock,
        Reply::Clock(Timestamp::new(1_483_228_801, 0).unwrap()),
    );
    let a = chrono::DateTime::from_timestamp(1_483_228_801, 0).unwrap();
    let b = chrono::DateTime::from_timestamp(1_483_228_799, 1_500_000_000).unwrap();
    assert!(done(&t)
        .1
        .starts_with(&format!("reaped: paid_until elapsed {}s ago", (a - b).num_seconds())));
    let credited = credit_24h(leap, None);
    let expected = b + chrono::Duration::hours(24);
    assert_eq!(credited.secs(), expected.timestamp());
    assert_eq!(credited.nanos(), expected.timestamp_subsec_nanos());
}

#[test]
fn credit_stacks_and_never_loses_time() {
    let now = at(NOON);
    let day = 86_400;
    // Fresh claim.
    assert_eq!(credit_24h(now, None), at(NOON + day));
    // Top-up while still active.
    let later = at(NOON + 36_000);
    assert_eq!(credit_24h(now, Some(later)), at(NOON + 36_000 + day));
    // Top-up after expiry.
    let past = at(NOON - 18_000);
    assert_eq!(credit_24h(now, Some(past)), at(NOON + day));
    let once = credit_24h(now, None);
    assert_eq!(credit_24h(now, Some(once)), at(NOON + 2 * day));
    assert!(creditable_now().is_some());
    // The last moment that a block can be credited from, and the next one.
    let last = at(8_210_266_876_799 - day);
    assert_eq!(creditable(last), Some(last));
    assert_eq!(creditable(at(8_210_266_876_800 - day)), None);
    assert_eq!(creditable(now), Some(now));
}

#[test]
fn state_labels_are_kebab_case() {
    assert_eq!(state_label(ClaimState::Active), "state:active");
    assert_eq!(
        state_label(ClaimState::ActivePendingConfirmation),
        "state:active-pending-confirmation"
    );
    assert_eq!(
        state_label(ClaimState::PaymentFailed),
        "state:payment-failed"
    );
    assert_eq!(state_label(ClaimState::Failed), "state:failed");
}

fn issue(number: u64, title: &str) -> Issue {
    Issue {
        number,
        title: title.into(),
        body: String::new(),
        labels: vec![],
        html_url: String::new(),
        state: "open".into(),
    }
}

#[test]
fn a_pass_works_on_each_listed_issue_once() {
    let listings = vec![
        Listing {
            state: ClaimState::Active,
            issues: vec![issue(8, "x"), issue(3, "y")],
        },
        Listing {
            state: ClaimState::InvoiceCreated,
            issues: vec![issue(9, "a"), issue(2, "b")],
        },
        Listing {
            state: ClaimState::Overdue,
            issues: vec![issue(1, "late")],
        },
        Listing {
            state: ClaimState::InvoiceCreated,
            issues: vec![issue(5, "c")],
        },
    ];
    let pass = plan_pass(listings, &vec![]);
    let work: Vec<(ClaimState, Vec<u64>)> = pass
        .work
        .iter()
        .map(|l| (l.state, l.issues.iter().map(|i| i.number).collect()))
        .collect();
    assert_eq!(
        work,
        vec![
            (ClaimState::InvoiceCreated, vec![2, 5, 9]),
            (ClaimState::BtcMempoolSeen, vec![]),
            (ClaimState::Active, vec![8, 3]),
            (ClaimState::NodeAssignmentStarted, vec![]),
        ]
    );
    assert!(pass.recorded.is_empty());
}

#[test]
fn a_payment_from_before_the_issue_does_not_count() {
    let mined_at = |txid: &str, block_time: Option<u64>| AddressTx {
        txid: txid.into(),
        received_sats: 60_000,
        block_height: block_time.map(|_| 1),
        block_time,
    };
    let wait = || claim_in(ClaimState::InvoiceCreated);
    let took = |waiting: Vec<(Claim, u64)>, txs: Vec<AddressTx>| -> Vec<Option<String>> {
        attribute_payments_since(waiting, txs)
            .into_iter()
            .map(|(c, _)| c.billing.last_payment_txid)
            .collect()
    };
    let txs = vec![mined_at("early", Some(99)), mined_at("late", Some(100))];
    assert_eq!(took(vec![(wait(), 100)], txs.clone()), [Some("late".to_string())]);
    assert_eq!(took(vec![(wait(), 101)], txs.clone()), [None]);
    // A payment that is too old for one claim is still there for the next.
    assert_eq!(
        took(vec![(wait(), 100), (wait(), 50)], txs),
        [Some("late".to_string()), Some("early".to_string())]
    );
    // One that is not mined yet is new.
    assert_eq!(
        took(vec![(wait(), u64::MAX)], vec![mined_at("pending", None)]),
        [Some("pending".to_string())]
    );
}

#[test]
fn issues_are_scanned_oldest_first() {
    let sorted = oldest_first(vec![
        issue(9, "a"),
        issue(2, "b"),
        issue(7, "c"),
        issue(2, "d"),
    ]);
    let seen: Vec<(u64, &str)> = sorted.iter().map(|i| (i.number, i.title.as_str())).collect();
    assert_eq!(seen, vec![(2, "b"), (2, "d"), (7, "c"), (9, "a")]);
    assert_eq!(
        scan_order(),
        vec![
            ClaimState::InvoiceCreated,
            ClaimState::BtcMempoolSeen,
            ClaimState::Active,
            ClaimState::NodeAssignmentStarted
        ]
    );
}

#[test]
fn the_orchestrator_attributes_payments() {
    let mut c = claim_in(ClaimState::InvoiceCreated);
    c.billing.last_payment_txid = Some("seen".into());
    let txs = vec![tx("small", 49_999, None), tx("seen", 60_000, None)];
    assert!(process_invoice_created(&mut c, &txs).is_none());
    assert_eq!(c.state, ClaimState::InvoiceCreated);
    let txs = vec![tx("seen", 60_000, None), tx("big", 60_000, None)];
    assert_eq!(
        process_invoice_created(&mut c, &txs).unwrap(),
        "Saw payment of 60000 sats on tx `big` — proceeding to confirmation watch."
    );
    assert_eq!(c.state, ClaimState::BtcMempoolSeen);
    assert_eq!(c.billing.last_payment_txid.as_deref(), Some("big"));
}

#[test]
fn waiting_claims_do_not_share_a_payment() {
    let waiting = vec![
        claim_in(ClaimState::InvoiceCreated),
        claim_in(ClaimState::InvoiceCreated),
        claim_in(ClaimState::InvoiceCreated),
    ];
    let mut other = claim_in(ClaimState::Active);
    other.billing.last_payment_txid = Some("old".into());
    let txs = vec![
        tx("old", 60_000, Some(1)),
        tx("a", 60_000, None),
        tx("small", 1, None),
        tx("b", 60_000, None),
    ];
    let pass = plan_pass(vec![], &vec![other, claim_in(ClaimState::Active)]);
    assert_eq!(pass.recorded, ["old"]);
    let left = unclaimed(txs, &pass.recorded);
    let ids: Vec<&str> = left.iter().map(|t| t.txid.as_str()).collect();
    assert_eq!(ids, ["a", "small", "b"]);
    let waiting = waiting.into_iter().map(|c| (c, 0)).collect();
    let outcomes = attribute_payments_since(waiting, left);
    let took: Vec<Option<&str>> = outcomes
        .iter()
        .map(|(c, _)| c.billing.last_payment_txid.as_deref())
        .collect();
    assert_eq!(took, [Some("a"), Some("b"), None]);
    assert_eq!(
        outcomes[1].1.as_deref(),
        Some("Saw payment of 60000 sats on tx `b` — proceeding to confirmation watch.")
    );
    assert!(outcomes[2].1.is_none());
    assert_eq!(outcomes[2].0.state, ClaimState::InvoiceCreated);
}

#[test]
fn the_orchestrator_credits_confirmed_payments() {
    let now = at(NOON);
    let mut c = claim_in(ClaimState::BtcMempoolSeen);
    assert!(process_btc_mempool_seen(&mut c, &vec![], 10, &now).is_none());
    c.billing.last_payment_txid = Some("p".into());
    assert!(process_btc_mempool_seen(&mut c, &vec![], 10, &now).is_none());
    let txs = vec![tx("p", 60_000, Some(10))];
    assert!(process_btc_mempool_seen(&mut c, &txs, 10, &now).is_none());
    assert_eq!(settled_confirmations(&c, &txs, 10), None);
    assert_eq!(settled_confirmations(&c, &vec![], 12), None);
    assert_eq!(settled_confirmations(&c, &txs, 12), Some(3));
    assert_eq!(
        process_btc_mempool_seen(&mut c, &txs, 12, &now).unwrap(),
        "Tx `p` reached 3 conf — claim active until `2026-04-26T12:00:00+00:00`."
    );
    assert_eq!(c.state, ClaimState::Active);
    assert_eq!(c.billing.paid_until, Some(at(NOON + 86_400)));
}

#[test]
fn the_orchestrator_boots_before_it_expires() {
    let cfg = tick_config();
    let mut c = claim_in(ClaimState::Active);
    c.billing.paid_until = Some(at(0));
    assert_eq!(process_active(&mut c, &at(NOON)), ActiveStep::Boot);
    assert_eq!(
        dispatch_node_boot(&cfg, &mut c),
        "Dispatched `boot-agent.yml` on `o/ops` @ ref `main`; waiting for the workflow to \
         provision a dd-agent."
    );
    assert_eq!(c.state, ClaimState::NodeAssignmentStarted);
    let mut c = claim_in(ClaimState::Active);
    c.agent_id = Some("a".into());
    assert_eq!(process_active(&mut c, &at(NOON)), ActiveStep::Keep);
    c.billing.paid_until = Some(at(NOON));
    assert_eq!(process_active(&mut c, &at(NOON)), ActiveStep::Keep);
    assert_eq!(process_active(&mut c, &at(NOON + 1)), ActiveStep::Overdue);
    assert_eq!(c.state, ClaimState::Overdue);
    assert!(overdue_comment().contains("marking overdue"));
}

#[test]
fn the_orchestrator_binds_or_seals_booted_nodes() {
    let cfg = tick_config();
    let mut c = claim_in(ClaimState::NodeAssignmentStarted);
    assert!(matches!(
        process_node_assignment_started(&mut c),
        AssignmentStep::Wait
    ));
    c.agent_hostname = Some("agent".into());
    match process_node_assignment_started(&mut c) {
        AssignmentStep::Bind {
            agent_host,
            agent_owner,
        } => {
            assert_eq!(
                dispatch_owner_update(&cfg, &mut c, &agent_host, &agent_owner),
                "Dispatched `owner-update.yml` on `o/ops` @ ref `main` (agent_host=`agent`, \
                 agent_owner=`alice`)."
            );
        }
        other => panic!("expected Bind, got {other:?}"),
    }
    assert_eq!(c.state, ClaimState::OwnerUpdateDispatched);
    let mut c = claim_in(ClaimState::NodeAssignmentStarted);
    c.agent_hostname = Some("agent".into());
    c.customer_owner = Some("".into());
    assert!(matches!(
        process_node_assignment_started(&mut c),
        AssignmentStep::NoOwner
    ));
    c.mode = ClaimMode::Confidential;
    match process_node_assignment_started(&mut c) {
        AssignmentStep::Sealed(comment) => assert_eq!(
            comment,
            "Boot workflow reported agent ready; sealed claim is now active."
        ),
        other => panic!("expected Sealed, got {other:?}"),
    }
    assert_eq!(c.state, ClaimState::Active);
}

#[test]
fn transitions_flip_labels_only_when_the_state_changes() {
    let c = claim_in(ClaimState::Overdue);
    assert_eq!(
        steps_text(&transition(ClaimState::Active, &c, "late", "{}")),
        vec![
            "body [update_issue_body]",
            "-state:active [-]",
            "+state:overdue [-]",
            "say late [-]",
        ]
    );
    assert_eq!(
        steps_text(&transition(ClaimState::Overdue, &c, "late", "{}")),
        vec!["body [update_issue_body]", "say late [-]"]
    );
}
