//! What the bot's operations are for: laws over what goes into them and what
//! comes out.
//!
//! Amounts, heights and times are compared here as the numbers that they are,
//! and hosts, owners and refs as the texts that stand on the request and on the
//! claim.

use crate::btc::{
    first_where, is_tx, landed_since, lemma_landed_since, lemma_without_tx, pays_enough,
    pays_exactly, without_tx, TxView,
};
use crate::claim::{
    issue_body, manifest_of, state_name, summary, BillingView, ClaimMode, ClaimState, ClaimView,
    IntegrityView, ManifestError, MANIFEST_CLOSE, MANIFEST_OPEN,
};
use crate::config::ConfigView;
use crate::lifecycle::{
    active_need, attributed, credit_base, law_state_labels_differ, payment_confirmed,
    transition_plan, ActiveStep,
};
use crate::steps::{PlannedView, StepView};
use crate::text::{occurs, occurs_at};
use crate::tick::{
    answers, first_ask, next, run, tick_plan, HealthView, Look, ReplyView, TickView,
};
use crate::time::{hours_later, Moment, Timestamp};
use crate::tools::{
    bind_fault, bind_host, bind_plan, boot_dispatch, boot_inputs, bound_claim, create_fault,
    created_claim, invoice, invoice_plan, invoiced_claim, owner_dispatch, slug, state_label_text,
    update_steps, ClaimCreateView, OwnerUpdate,
};
use vstd::prelude::*;

verus! {

// ── payments ──────────────────────────────────────────────────────

/// A transaction at this height has at least `required` confirmations under the
/// tip: the block that it is in is the first.
pub open spec fn deep_enough(height: Option<u64>, tip: u64, required: u32) -> bool {
    match height {
        Some(h) => if h <= tip {
            tip - h + 1 >= required
        } else {
            required == 0
        },
        None => required == 0,
    }
}

/// The confirmations of a transaction can be counted in 32 bits.
pub open spec fn countable(height: Option<u64>, tip: u64) -> bool {
    height matches Some(h) ==> tip - h + 1 <= u32::MAX
}

/// The first transaction `txid` of a list stands at `i`.
pub open spec fn found_at(txs: Seq<TxView>, txid: Seq<char>, i: int) -> bool {
    &&& 0 <= i < txs.len()
    &&& txs[i].txid == txid
    &&& forall|j: int| 0 <= j < i ==> (#[trigger] txs[j]).txid != txid
}

/// The transaction `txid` is not in a list.
pub open spec fn missing(txs: Seq<TxView>, txid: Seq<char>) -> bool {
    forall|j: int| 0 <= j < txs.len() ==> (#[trigger] txs[j]).txid != txid
}

proof fn lemma_found(txs: Seq<TxView>, txid: Seq<char>, i: int)
    requires
        found_at(txs, txid, i),
    ensures
        first_where(txs, is_tx(txid)) == Some(txs[i]),
{
    let wanted = is_tx(txid);
    crate::btc::law_search_finds_the_first(txs, wanted);
    assert(wanted(txs[i]));
    if first_where(txs, wanted) is Some {
        let t = first_where(txs, wanted)->0;
        let k = choose|k: int|
            0 <= k < txs.len() && txs[k] == t && forall|j: int|
                0 <= j < k ==> !wanted(#[trigger] txs[j]);
        assert(k == i) by {
            if k < i {
                assert(txs[k].txid != txid);
            }
            if i < k {
                assert(!wanted(txs[i]));
            }
        }
    }
}

proof fn lemma_missing(txs: Seq<TxView>, txid: Seq<char>)
    requires
        missing(txs, txid),
    ensures
        first_where(txs, is_tx(txid)) is None,
{
    crate::btc::law_search_finds_the_first(txs, is_tx(txid));
}

proof fn lemma_run_one(grace: u64, c: ClaimView, tick: TickView, reply: ReplyView)
    requires
        answers(tick, reply),
    ensures
        run(grace, c, tick, seq![reply]) == next(grace, c, tick, reply),
{
    let (d, t) = next(grace, c, tick, reply);
    let none = seq![reply].subrange(1, 1);
    assert(run(grace, d, t, none) == (d, t));
}

proof fn lemma_run_two(grace: u64, c: ClaimView, tick: TickView, a: ReplyView, b: ReplyView)
    requires
        answers(tick, a),
    ensures
        run(grace, c, tick, seq![a, b]) == run(
            grace,
            next(grace, c, tick, a).0,
            next(grace, c, tick, a).1,
            seq![b],
        ),
{
    assert(seq![a, b].subrange(1, 2) =~= seq![b]);
}

// ── claim.tick ────────────────────────────────────────────────────

/// An invoice is paid by the first transaction of exactly its amount that is
/// not the one already recorded: the claim then waits for confirmations and
/// records it, and nothing else about it changes. Without such a transaction
/// nothing changes.
pub proof fn law_tick_takes_the_exact_payment(grace: u64, c: ClaimView, txs: Seq<TxView>, i: int)
    requires
        c.state == ClaimState::InvoiceCreated,
    ensures
        ({
            let (d, t) = run(grace, c, first_ask(c), seq![ReplyView::Txs(Ok(txs))]);
            &&& t is Done
            &&& (0 <= i < txs.len() && txs[i].received_sats == c.btc.exact_amount_sats
                && c.billing.last_payment_txid != Some(txs[i].txid) && forall|j: int|
                0 <= j < i ==> (#[trigger] txs[j]).received_sats != c.btc.exact_amount_sats
                    || c.billing.last_payment_txid == Some(txs[j].txid)) ==> t->advanced && d == (
            ClaimView {
                state: ClaimState::BtcMempoolSeen,
                billing: BillingView { last_payment_txid: Some(txs[i].txid), ..c.billing },
                ..c
            })
            &&& (forall|j: int|
                0 <= j < txs.len() ==> (#[trigger] txs[j]).received_sats
                    != c.btc.exact_amount_sats || c.billing.last_payment_txid == Some(
                    txs[j].txid,
                )) ==> !t->advanced && d == c
        }),
{
    let wanted = pays_exactly(c.btc.exact_amount_sats, c.billing.last_payment_txid);
    lemma_run_one(grace, c, first_ask(c), ReplyView::Txs(Ok(txs)));
    crate::btc::law_search_finds_the_first(txs, wanted);
    match first_where(txs, wanted) {
        Some(tx) => {
            let k = choose|k: int|
                0 <= k < txs.len() && txs[k] == tx && forall|j: int|
                    0 <= j < k ==> !wanted(#[trigger] txs[j]);
            assert(wanted(txs[k]));
            if 0 <= i < k {
                assert(!wanted(txs[i]));
            }
            if k < i {
                assert(wanted(txs[k]));
            }
        },
        None => {
            if 0 <= i < txs.len() {
                assert(!wanted(txs[i]));
            }
        },
    }
}

/// A recorded payment is confirmed as soon as it has at least the required
/// confirmations, and not before; the claim changes in nothing else. A payment
/// that is not visible, or was never recorded, changes nothing.
pub proof fn law_tick_confirms_a_payment(
    grace: u64,
    c: ClaimView,
    txs: Seq<TxView>,
    i: int,
    tip: u64,
)
    requires
        c.state == ClaimState::BtcMempoolSeen,
        c.billing.last_payment_txid is Some,
        found_at(txs, c.billing.last_payment_txid->0, i),
        countable(txs[i].block_height, tip),
    ensures
        ({
            let (d, t) = run(
                grace,
                c,
                first_ask(c),
                seq![ReplyView::Txs(Ok(txs)), ReplyView::Tip(Ok(tip))],
            );
            &&& t is Done
            &&& t->advanced == deep_enough(txs[i].block_height, tip, c.btc.required_confirmations)
            &&& d == (ClaimView {
                state: if t->advanced {
                    ClaimState::BtcConfirmed
                } else {
                    ClaimState::BtcMempoolSeen
                },
                ..c
            })
        }),
{
    let txid = c.billing.last_payment_txid->0;
    lemma_found(txs, txid, i);
    lemma_run_two(grace, c, first_ask(c), ReplyView::Txs(Ok(txs)), ReplyView::Tip(Ok(tip)));
    lemma_run_one(
        grace,
        c,
        next(grace, c, first_ask(c), ReplyView::Txs(Ok(txs))).1,
        ReplyView::Tip(Ok(tip)),
    );
    lemma_count(txs[i].block_height, tip);
}

/// A count that fits 32 bits is the count.
proof fn lemma_count(height: Option<u64>, tip: u64)
    requires
        countable(height, tip),
    ensures
        crate::btc::confirmations_at(height, tip) == (if height matches Some(h) && h <= tip {
            tip - height->0 + 1
        } else {
            0
        }),
{
    if height is Some && height->0 <= tip {
        let n: int = tip - height->0 + 1;
        assert(n % 0x1_0000_0000 == n) by (nonlinear_arith)
            requires
                0 <= n < 0x1_0000_0000,
        ;
    }
}

/// Confirmation is not lost by waiting: what one tip confirms, every later tip
/// confirms.
pub proof fn law_tick_confirms_late_too(
    grace: u64,
    c: ClaimView,
    txs: Seq<TxView>,
    i: int,
    tip: u64,
    later: u64,
)
    requires
        c.state == ClaimState::BtcMempoolSeen,
        c.billing.last_payment_txid is Some,
        found_at(txs, c.billing.last_payment_txid->0, i),
        countable(txs[i].block_height, tip),
        countable(txs[i].block_height, later),
        tip <= later,
    ensures
        ({
            let seen = ReplyView::Txs(Ok(txs));
            let now = run(grace, c, first_ask(c), seq![seen, ReplyView::Tip(Ok(tip))]).0;
            let then = run(grace, c, first_ask(c), seq![seen, ReplyView::Tip(Ok(later))]).0;
            now.state == ClaimState::BtcConfirmed ==> then.state == ClaimState::BtcConfirmed
        }),
{
    law_tick_confirms_a_payment(grace, c, txs, i, tip);
    law_tick_confirms_a_payment(grace, c, txs, i, later);
}

/// A recorded payment that is not visible changes nothing, nor does a claim
/// without a recorded payment move.
pub proof fn law_tick_waits_for_a_visible_payment(grace: u64, c: ClaimView, txs: Seq<TxView>)
    requires
        c.state == ClaimState::BtcMempoolSeen,
        c.billing.last_payment_txid matches Some(txid) ==> missing(txs, txid),
    ensures
        ({
            let (d, t) = run(grace, c, first_ask(c), seq![ReplyView::Txs(Ok(txs))]);
            d == c && t is Done && !t->advanced
        }),
{
    match c.billing.last_payment_txid {
        Some(txid) => {
            lemma_missing(txs, txid);
            lemma_run_one(grace, c, first_ask(c), ReplyView::Txs(Ok(txs)));
        },
        None => {},
    }
}

/// A bind ahead of confirmation is settled as soon as its payment has at least
/// the required confirmations: the mark goes and nothing else changes. Until
/// then, and where the payment is not visible, the clock decides.
pub proof fn law_tick_settles_a_bind(
    grace: u64,
    c: ClaimView,
    txs: Seq<TxView>,
    i: int,
    tip: u64,
)
    requires
        c.state == ClaimState::Active || c.state == ClaimState::OwnerUpdateDispatched,
        c.billing.optimistic_bind_at is Some,
        c.billing.last_payment_txid is Some,
        found_at(txs, c.billing.last_payment_txid->0, i) || missing(
            txs,
            c.billing.last_payment_txid->0,
        ),
        found_at(txs, c.billing.last_payment_txid->0, i) ==> countable(txs[i].block_height, tip),
    ensures
        ({
            let (d, t) = run(
                grace,
                c,
                first_ask(c),
                seq![ReplyView::Txs(Ok(txs)), ReplyView::Tip(Ok(tip))],
            );
            if found_at(txs, c.billing.last_payment_txid->0, i) && deep_enough(
                txs[i].block_height,
                tip,
                c.btc.required_confirmations,
            ) {
                t is Done && t->advanced && d == (ClaimView {
                    billing: BillingView { optimistic_bind_at: None, ..c.billing },
                    ..c
                })
            } else {
                t is WantSettleClock && d == c
            }
        }),
{
    let txid = c.billing.last_payment_txid->0;
    if found_at(txs, txid, i) {
        lemma_found(txs, txid, i);
        lemma_count(txs[i].block_height, tip);
    } else {
        lemma_missing(txs, txid);
    }
    lemma_run_two(grace, c, first_ask(c), ReplyView::Txs(Ok(txs)), ReplyView::Tip(Ok(tip)));
    lemma_run_one(
        grace,
        c,
        next(grace, c, first_ask(c), ReplyView::Txs(Ok(txs))).1,
        ReplyView::Tip(Ok(tip)),
    );
}

/// Nanoseconds from one moment to another, neither in a leap second.
pub open spec fn nanos_from(a: Moment, b: Moment) -> int {
    (b.secs - a.secs) * 1_000_000_000 + (b.nanos - a.nanos)
}

/// A claim whose access is to be revoked: at once failed where no agent is
/// known, else its agent is asked first. `marked` tells whether the mark of a
/// bind ahead of confirmation is to go.
pub open spec fn is_reaped(c: ClaimView, marked: bool, d: ClaimView, t: TickView) -> bool {
    if c.agent_hostname is None || c.agent_hostname->0.len() == 0 {
        t is Done && t->advanced && fails(c, marked, d)
    } else {
        d == c && t is WantRevoke && t->WantRevoke_host == c.agent_hostname->0 && t->unsettled
            == marked
    }
}

/// `d` is the failed `c`: the mark of a bind goes where `marked` says so, and
/// nothing else changes.
pub open spec fn fails(c: ClaimView, marked: bool, d: ClaimView) -> bool {
    d == (ClaimView {
        state: ClaimState::Failed,
        billing: BillingView {
            optimistic_bind_at: if marked {
                None
            } else {
                c.billing.optimistic_bind_at
            },
            ..c.billing
        },
        ..c
    })
}

/// An unsettled bind is reaped once at least the grace window has passed since
/// it was made, and not before: until then the tick goes on as for a claim
/// without such a bind.
pub proof fn law_tick_reaps_after_the_grace_window(
    grace: u64,
    c: ClaimView,
    bound_at: Timestamp,
    now: Moment,
)
    requires
        c.state == ClaimState::Active || c.state == ClaimState::OwnerUpdateDispatched,
        c.billing.optimistic_bind_at == Some(bound_at),
        0 <= bound_at@.nanos < 1_000_000_000,
        0 <= now.nanos < 1_000_000_000,
    ensures
        ({
            let (d, t) = next(grace, c, TickView::WantSettleClock, ReplyView::Clock(now));
            if grace == 0 || nanos_from(bound_at@, now) >= grace * 1_000_000_000 {
                is_reaped(c, true, d, t)
            } else {
                d == c && t == first_ask(
                    ClaimView {
                        billing: BillingView { optimistic_bind_at: None, ..c.billing },
                        ..c
                    },
                )
            }
        }),
{
    let n = nanos_from(bound_at@, now);
    if n >= 0 {
        assert((n / 1_000_000_000 >= grace) == (n >= grace * 1_000_000_000));
    } else {
        assert((-n) / 1_000_000_000 >= 0);
    }
}

/// An active claim without an unsettled bind is reaped from the very moment its
/// paid time ends, and not before.
pub proof fn law_tick_reaps_when_the_paid_time_ends(
    grace: u64,
    c: ClaimView,
    paid_until: Timestamp,
    now: Moment,
)
    requires
        c.state == ClaimState::Active,
        c.billing.optimistic_bind_at is None,
        c.billing.paid_until == Some(paid_until),
    ensures
        ({
            let (d, t) = run(grace, c, first_ask(c), seq![ReplyView::Clock(now)]);
            if now.secs > paid_until@.secs || (now.secs == paid_until@.secs && now.nanos
                >= paid_until@.nanos) {
                is_reaped(c, false, d, t)
            } else {
                d == c && t is Done && !t->advanced
            }
        }),
{
    lemma_run_one(grace, c, first_ask(c), ReplyView::Clock(now));
}

/// Once access was revoked the claim has failed; where it could not be revoked
/// nothing changes and the tick is refused.
pub proof fn law_tick_fails_once_revoked(
    grace: u64,
    c: ClaimView,
    host: Seq<char>,
    note: Seq<char>,
    unsettled: bool,
    e: Seq<char>,
)
    ensures
        ({
            let tick = TickView::WantRevoke { host, note, unsettled };
            let (d, t) = next(grace, c, tick, ReplyView::Revoked(Ok(())));
            let (same, refused) = next(grace, c, tick, ReplyView::Revoked(Err(e)));
            &&& fails(c, unsettled, d) && t == (TickView::Done { advanced: true, note })
            &&& same == c && refused is Refused
        }),
{
}

/// A claim whose owner update was dispatched asks its own agent, and becomes
/// active exactly when the agent reports the claim's owner; what the agent says
/// of its integrity is then taken over, and nothing else changes.
pub proof fn law_tick_activates_the_bound_owner(grace: u64, c: ClaimView, health: HealthView)
    requires
        c.state == ClaimState::OwnerUpdateDispatched,
        c.billing.optimistic_bind_at is None,
        c.agent_hostname is Some,
        c.customer_owner is Some,
    ensures
        first_ask(c) == (TickView::WantHealth {
            host: c.agent_hostname->0,
            owner: c.customer_owner->0,
        }),
        ({
            let (d, t) = run(grace, c, first_ask(c), seq![ReplyView::Health(Ok(health))]);
            let reported = match health.agent_owner {
                Some(owner) => owner == c.customer_owner->0,
                None => c.customer_owner->0.len() == 0,
            };
            &&& t is Done && t->advanced == reported
            &&& d == if reported {
                ClaimView {
                    state: ClaimState::Active,
                    integrity: IntegrityView {
                        confidential_mode: health.confidential_mode,
                        taint_reasons: health.taint_reasons,
                    },
                    ..c
                }
            } else {
                c
            }
        }),
{
    lemma_run_one(grace, c, first_ask(c), ReplyView::Health(Ok(health)));
    assert(c.customer_owner->0.len() == 0 ==> c.customer_owner->0 =~= Seq::<char>::empty());
}

/// What cannot be learned refuses the tick and changes nothing: transactions or
/// height for a claim that waits for its payment, or the agent's health.
pub proof fn law_tick_is_refused_upstream(grace: u64, c: ClaimView, tx: TxView, e: Seq<char>)
    ensures
        ({
            let a = next(grace, c, TickView::WantTxs(Look::Invoice), ReplyView::Txs(Err(e)));
            let b = next(grace, c, TickView::WantTxs(Look::Payment), ReplyView::Txs(Err(e)));
            let h = next(grace, c, TickView::WantPaymentTip(tx), ReplyView::Tip(Err(e)));
            &&& a.0 == c && a.1 is Refused && a.1->Refused_0 is Upstream
            &&& b.0 == c && b.1 is Refused && b.1->Refused_0 is Upstream
            &&& h.0 == c && h.1 is Refused && h.1->Refused_0 is Upstream
        }),
        forall|host: Seq<char>, owner: Seq<char>|
            {
                let r = #[trigger] next(
                    grace,
                    c,
                    TickView::WantHealth { host, owner },
                    ReplyView::Health(Err(e)),
                );
                r.0 == c && r.1 is Refused && r.1->Refused_0 is Upstream
            },
{
}

// ── claim.create ──────────────────────────────────────────────────

/// A request is refused exactly where it lacks what its mode needs: an owner,
/// or a repository with its owner.
pub proof fn law_create_refuses_the_incomplete(req: ClaimCreateView)
    ensures
        req.mode == ClaimMode::CustomerDeploy ==> (create_fault(req) is Some <==> (
        req.customer_owner is None || req.customer_owner->0.len() == 0)),
        req.mode == ClaimMode::Confidential ==> (create_fault(req) is Some <==> (
        req.workload_repo is None || !req.workload_repo->0.contains('/'))),
{
    assert(!Seq::<char>::empty().contains('/'));
}

/// A new claim is what was asked for: it bills the operator's address at the
/// list price plus 1 to 9999 sats, wants one confirmation, has nothing bound or
/// paid, and holds exactly the owner, or the workload, of the request. The
/// workload's ref is the one that was named, and `main` only where none was.
pub proof fn law_create_makes_what_was_asked(
    cfg: ConfigView,
    req: ClaimCreateView,
    claim_id: Seq<char>,
    suffix: u32,
)
    requires
        create_fault(req) is None,
        cfg.price_per_24h_sats + (suffix % 9999) + 1 <= u64::MAX,
    ensures
        ({
            let c = created_claim(cfg, req, claim_id, suffix);
            let sealed = req.mode == ClaimMode::Confidential;
            &&& c.schema == "s12e.claim.v1"@
            &&& c.claim_id == claim_id
            &&& c.state == ClaimState::Requested
            &&& c.mode == req.mode
            &&& c.btc.address == cfg.sweep_address
            &&& c.btc.price_per_24h_sats == cfg.price_per_24h_sats
            &&& c.btc.exact_amount_sats - cfg.price_per_24h_sats == suffix % 9999 + 1
            &&& c.btc.required_confirmations == 1
            &&& c.btc.pending_timeout_secs == cfg.pending_timeout_secs
            &&& c.agent_id is None && c.agent_hostname is None
            &&& c.billing.paid_until is None && c.billing.last_payment_txid is None
            &&& c.billing.optimistic_bind_at is None && c.billing.uncredited_sats == 0
            &&& c.integrity.confidential_mode == sealed && c.integrity.taint_reasons.len() == 0
            &&& !sealed ==> c.customer_owner == req.customer_owner && c.workload_repo is None
                && c.workload_ref is None
            &&& sealed ==> c.customer_owner is None && c.workload_repo == req.workload_repo
            &&& sealed && (req.workload_ref matches Some(r) && r.len() > 0) ==> c.workload_ref
                == req.workload_ref && boot_inputs(c)["workload_ref"@] == req.workload_ref
            &&& sealed && (req.workload_ref matches Some(r) ==> r.len() == 0) ==> c.workload_ref
                == Some("main"@) && boot_inputs(c)["workload_ref"@] == Some("main"@)
        }),
{
    lemma_input_names();
}

/// The names of the workflow inputs are different.
proof fn lemma_input_names()
    ensures
        "claim_id"@.len() == 8,
        "mode"@.len() == 4,
        "customer_owner"@.len() == 14,
        "workload_repo"@.len() == 13,
        "workload_ref"@.len() == 12,
        "agent_host"@.len() == 10,
        "agent_owner"@.len() == 11,
        ""@.len() == 0,
{
    reveal_strlit("claim_id");
    reveal_strlit("mode");
    reveal_strlit("customer_owner");
    reveal_strlit("workload_repo");
    reveal_strlit("workload_ref");
    reveal_strlit("agent_host");
    reveal_strlit("agent_owner");
    reveal_strlit("");
}

// ── node.boot, dd.dispatch_owner_update ───────────────────────────

/// The boot workflow is the operator's and is told the claim, its mode, and
/// either its owner or its workload, as they stand on the claim.
pub proof fn law_boot_tells_the_claim(cfg: ConfigView, c: ClaimView)
    ensures
        ({
            let d = boot_dispatch(cfg, c);
            let sealed = c.mode == ClaimMode::Confidential;
            &&& d.ops_repo == cfg.ops_repo && d.workflow == cfg.ops_boot_workflow && d.ref_
                == cfg.ops_ref
            &&& d.inputs["claim_id"@] == Some(c.claim_id)
            &&& d.inputs["mode"@] == Some(
                if sealed {
                    "confidential"@
                } else {
                    "customer_deploy"@
                },
            )
            &&& !sealed && c.customer_owner is Some ==> d.inputs["customer_owner"@]
                == c.customer_owner
            &&& sealed && c.workload_repo is Some ==> d.inputs["workload_repo"@]
                == c.workload_repo
            &&& sealed && c.workload_ref is Some ==> d.inputs["workload_ref"@] == c.workload_ref
            &&& sealed && c.workload_ref is None ==> d.inputs["workload_ref"@] == Some("main"@)
            &&& sealed ==> d.inputs["customer_owner"@] == Some(""@)
            &&& !sealed ==> d.inputs["workload_repo"@] == Some(""@) && d.inputs["workload_ref"@]
                == Some(""@)
        }),
{
    lemma_input_names();
}

/// A host on the request is the one that is bound and recorded, whatever host
/// stood on the claim; without one, the claim's own is. The owner is the
/// claim's own.
pub proof fn law_owner_update_goes_to_the_named_host(
    cfg: ConfigView,
    c: ClaimView,
    asked: Option<Seq<char>>,
)
    requires
        bind_fault(c, asked) is None,
    ensures
        ({
            let host = bind_host(c, asked)->0;
            let d = owner_dispatch(cfg, c.claim_id, host, c.customer_owner->0);
            &&& d.ops_repo == cfg.ops_repo && d.workflow == cfg.ops_owner_workflow && d.ref_
                == cfg.ops_ref
            &&& d.inputs["claim_id"@] == Some(c.claim_id)
            &&& d.inputs["agent_owner"@] == c.customer_owner
            &&& (asked matches Some(h) && h.len() > 0) ==> bind_host(c, asked) == asked
                && d.inputs["agent_host"@] == asked
            &&& (asked matches Some(h) ==> h.len() == 0) ==> bind_host(c, asked)
                == c.agent_hostname && d.inputs["agent_host"@] == c.agent_hostname
        }),
{
    lemma_input_names();
}

/// An owner is bound exactly where the claim is not confidential, a host is
/// named by the request or stands on the claim, and the claim has an owner.
pub proof fn law_owner_update_refuses_the_incomplete(c: ClaimView, asked: Option<Seq<char>>)
    ensures
        bind_fault(c, asked) is None <==> {
            &&& c.mode == ClaimMode::CustomerDeploy
            &&& (asked matches Some(h) && h.len() > 0) || c.agent_hostname is Some
            &&& c.customer_owner is Some
        },
{
}

/// A dispatched bind starts the paid day and waits for the agent: the first one
/// pays until the given time, a later one keeps what was paid, and only a bind
/// of an unconfirmed payment is marked. Nothing else changes.
pub proof fn law_a_bind_starts_the_paid_day(
    c: ClaimView,
    now: Timestamp,
    paid_until: Timestamp,
)
    ensures
        bound_claim(c, now, paid_until) == (ClaimView {
            state: ClaimState::OwnerUpdateDispatched,
            billing: BillingView {
                paid_until: if c.billing.paid_until is Some {
                    c.billing.paid_until
                } else {
                    Some(paid_until)
                },
                optimistic_bind_at: if c.state == ClaimState::BtcMempoolSeen {
                    Some(now)
                } else {
                    c.billing.optimistic_bind_at
                },
                ..c.billing
            },
            ..c
        }),
{
}

// ── btc.invoice ───────────────────────────────────────────────────

/// An invoice asks for the claim's own amount for each block, at the claim's
/// address, under the claim's name; a claim that was only asked for then waits
/// for its payment, and nothing else changes.
#[verifier::spinoff_prover]
pub proof fn law_an_invoice_bills_each_block(c: ClaimView, blocks: u32)
    requires
        c.btc.exact_amount_sats * blocks <= u64::MAX,
    ensures
        ({
            let i = invoice(c, blocks);
            &&& i.amount_sats == c.btc.exact_amount_sats * blocks
            &&& i.address == c.btc.address
            &&& i.message == c.claim_id
            &&& i.blocks == blocks
            &&& crate::text::starts_with(
                i.bip21_uri,
                "bitcoin:"@ + c.btc.address + "?amount="@ + i.amount_btc,
            )
            &&& crate::text::ends_with(
                i.bip21_uri,
                "&message="@ + crate::percent::percent_encoded(c.claim_id),
            )
            &&& i.state == state_name(invoiced_claim(c).state)
        }),
        c.state == ClaimState::Requested ==> invoiced_claim(c) == (ClaimView {
            state: ClaimState::InvoiceCreated,
            ..c
        }),
        c.state != ClaimState::Requested ==> invoiced_claim(c) == c,
{
    let i = invoice(c, blocks);
    let head = "bitcoin:"@ + c.btc.address + "?amount="@ + i.amount_btc;
    let label = crate::percent::percent_encoded("Sats for Compute"@);
    let tail = "&message="@ + crate::percent::percent_encoded(c.claim_id);
    assert(i.bip21_uri =~= head + ("&label="@ + label) + tail);
    assert(i.bip21_uri.subrange(0, head.len() as int) =~= head);
    assert(i.bip21_uri.subrange(i.bip21_uri.len() - tail.len(), i.bip21_uri.len() as int)
        =~= tail);
}

// ── what is written to an issue ───────────────────────────────────

/// An issue as the steps of a plan leave it.
#[verifier::ext_equal]
pub struct Board {
    pub body: Seq<char>,
    pub labels: Set<Seq<char>>,
    pub comments: Seq<Seq<char>>,
}

/// An issue after one step.
pub open spec fn after_step(b: Board, step: StepView) -> Board {
    match step {
        StepView::WriteBody(body) => Board { body, ..b },
        StepView::RemoveLabel(label) => Board { labels: b.labels.remove(label), ..b },
        StepView::AddLabel(label) => Board { labels: b.labels.insert(label), ..b },
        StepView::AddComment(comment) => Board { comments: b.comments.push(comment), ..b },
    }
}

/// An issue after all the steps of a plan.
pub open spec fn after_plan(b: Board, plan: Seq<PlannedView>) -> Board
    decreases plan.len(),
{
    if plan.len() == 0 {
        b
    } else {
        after_step(after_plan(b, plan.drop_last()), plan.last().step)
    }
}

/// A plan that takes an issue from one state to another: the body is the
/// claim's, the label of the old state gives way to that of the new one and the
/// others stay, and the event history gains one entry. The body must be
/// written.
pub open spec fn moves_issue(
    b: Board,
    plan: Seq<PlannedView>,
    from: ClaimState,
    c: ClaimView,
    manifest: Seq<char>,
    said: Seq<char>,
) -> bool {
    let after = after_plan(b, plan);
    &&& after.body == issue_body(c, manifest)
    &&& from != c.state ==> after.labels == b.labels.remove(label(from)).insert(label(c.state))
    &&& from == c.state && b.labels.contains(label(from)) ==> after.labels == b.labels
    &&& after.comments == b.comments.push(said)
    &&& plan.len() > 0 && plan[0].step is WriteBody && plan[0].context is Some
}

/// The label of a state: `state:` and its name, with hyphens.
pub open spec fn label(s: ClaimState) -> Seq<char> {
    "state:"@ + Seq::new(
        state_name(s).len(),
        |i: int|
            if state_name(s)[i] == '_' {
                '-'
            } else {
                state_name(s)[i]
            },
    )
}

proof fn lemma_label(s: ClaimState)
    ensures
        state_label_text(s) == label(s),
{
    assert(slug(state_name(s)) =~= Seq::new(
        state_name(s).len(),
        |i: int|
            if state_name(s)[i] == '_' {
                '-'
            } else {
                state_name(s)[i]
            },
    ));
}

proof fn lemma_four(b: Board, p: PlannedView, q: PlannedView, r: PlannedView, s: PlannedView)
    ensures
        after_plan(b, seq![p, q, r, s]) == after_step(
            after_step(after_step(after_step(b, p.step), q.step), r.step),
            s.step,
        ),
{
    reveal_with_fuel(after_plan, 5);
    let four = seq![p, q, r, s];
    assert(four.drop_last() =~= seq![p, q, r]);
    assert(seq![p, q, r].drop_last() =~= seq![p, q]);
    assert(seq![p, q].drop_last() =~= seq![p]);
    assert(seq![p].drop_last() =~= Seq::<PlannedView>::empty());
}

proof fn lemma_two(b: Board, p: PlannedView, q: PlannedView)
    ensures
        after_plan(b, seq![p, q]) == after_step(after_step(b, p.step), q.step),
{
    reveal_with_fuel(after_plan, 3);
    assert(seq![p, q].drop_last() =~= seq![p]);
    assert(seq![p].drop_last() =~= Seq::<PlannedView>::empty());
}

/// A tick that advanced a claim leaves its issue in the new state, and what was
/// said of it in the event history.
#[verifier::spinoff_prover]
pub proof fn law_tick_moves_the_issue(
    b: Board,
    from: ClaimState,
    c: ClaimView,
    note: Seq<char>,
    manifest: Seq<char>,
)
    ensures
        ({
            let plan = tick_plan(from, c, note, manifest);
            let said = after_plan(b, plan).comments.last();
            moves_issue(b, plan, from, c, manifest, said) && occurs(said, note) && occurs(
                said,
                state_name(from),
            ) && occurs(said, state_name(c.state))
        }),
{
    let plan = tick_plan(from, c, note, manifest);
    lemma_four(b, plan[0], plan[1], plan[2], plan[3]);
    assert(plan =~= seq![plan[0], plan[1], plan[2], plan[3]]);
    lemma_label(from);
    lemma_label(c.state);
    lemma_labels_move(b.labels, from, c.state);
    let said = crate::tick::tick_comment(from, c.state, note);
    let a = "Tick: `"@ + state_name(from);
    let m = "` → `"@ + state_name(c.state);
    lemma_occurs("Tick: `"@, state_name(from), m + "` ("@ + note + ")"@);
    assert(said =~= "Tick: `"@ + state_name(from) + (m + "` ("@ + note + ")"@));
    lemma_occurs(a + "` → `"@, state_name(c.state), "` ("@ + note + ")"@);
    assert(said =~= a + "` → `"@ + state_name(c.state) + ("` ("@ + note + ")"@));
    lemma_occurs(a + m + "` ("@, note, ")"@);
    assert(said =~= a + m + "` ("@ + note + ")"@);
    assert(after_plan(b, plan).comments == b.comments.push(said));
}

proof fn lemma_labels_move(labels: Set<Seq<char>>, from: ClaimState, to: ClaimState)
    ensures
        labels.contains(label(from)) && from == to ==> labels.remove(label(from)).insert(label(to))
            == labels,
{
    if labels.contains(label(from)) && from == to {
        assert(labels.remove(label(from)).insert(label(to)) =~= labels);
    }
}

proof fn lemma_occurs(a: Seq<char>, p: Seq<char>, b: Seq<char>)
    ensures
        occurs(a + p + b, p),
{
    let s = a + p + b;
    assert(s.subrange(a.len() as int, (a.len() + p.len()) as int) =~= p);
    assert(occurs_at(s, p, a.len() as int));
}

/// An update leaves the issue with the new manifest in the new state, and the
/// operator's note in the event history; no step of it may fail.
#[verifier::spinoff_prover]
pub proof fn law_update_moves_the_issue(
    b: Board,
    from: ClaimState,
    c: ClaimView,
    note: Option<Seq<char>>,
    manifest: Seq<char>,
)
    ensures
        ({
            let plan = update_steps(from, c, note, manifest);
            let said = after_plan(b, plan).comments.last();
            &&& moves_issue(b, plan, from, c, manifest, said)
            &&& occurs(said, state_name(c.state))
            &&& note matches Some(n) ==> occurs(said, n)
            &&& forall|i: int| 0 <= i < plan.len() ==> (#[trigger] plan[i]).context is Some
        }),
{
    let plan = update_steps(from, c, note, manifest);
    if from != c.state {
        assert(plan =~= seq![plan[0], plan[1], plan[2], plan[3]]);
        lemma_four(b, plan[0], plan[1], plan[2], plan[3]);
    } else {
        assert(plan =~= seq![plan[0], plan[1]]);
        lemma_two(b, plan[0], plan[1]);
    }
    lemma_label(from);
    lemma_label(c.state);
    let said = crate::tools::update_comment(from, c.state, note);
    assert(after_plan(b, plan).comments == b.comments.push(said));
    let core = crate::tools::update_comment(from, c.state, None);
    if from != c.state {
        let head = "State: `"@ + state_name(from) + "` → `"@;
        assert(core =~= head + state_name(c.state) + "`"@);
        lemma_occurs(head, state_name(c.state), "`"@);
        assert(occurs(core, state_name(c.state)));
    } else {
        lemma_occurs("Manifest updated (state unchanged: `"@, state_name(c.state), "`)"@);
    }
    assert(said.subrange(0, core.len() as int) =~= core);
    lemma_occurs_in_front(core, said, state_name(c.state));
    if note is Some {
        let n = note->0;
        if n.len() > 0 {
            assert(said =~= core + "\n\n"@ + n + Seq::<char>::empty());
            lemma_occurs(core + "\n\n"@, n, Seq::empty());
        } else {
            lemma_occurs(Seq::empty(), n, said);
            assert(Seq::<char>::empty() + n + said =~= said);
        }
    }
}

proof fn lemma_occurs_in_front(front: Seq<char>, whole: Seq<char>, p: Seq<char>)
    requires
        occurs(front, p),
        front.len() <= whole.len(),
        whole.subrange(0, front.len() as int) == front,
    ensures
        occurs(whole, p),
{
    let i = choose|i: int| occurs_at(front, p, i);
    assert(whole.subrange(i, i + p.len()) =~= front.subrange(i, i + p.len()));
    assert(occurs_at(whole, p, i));
}

/// A first invoice leaves the issue waiting for its payment.
pub proof fn law_invoice_moves_the_issue(
    b: Board,
    c: ClaimView,
    amount: u64,
    blocks: u32,
    manifest: Seq<char>,
)
    requires
        c.state == ClaimState::InvoiceCreated,
    ensures
        ({
            let plan = invoice_plan(c, amount, blocks, manifest);
            moves_issue(
                b,
                plan,
                ClaimState::Requested,
                c,
                manifest,
                after_plan(b, plan).comments.last(),
            )
        }),
{
    let plan = invoice_plan(c, amount, blocks, manifest);
    assert(plan =~= seq![plan[0], plan[1], plan[2], plan[3]]);
    lemma_four(b, plan[0], plan[1], plan[2], plan[3]);
    assert(label(ClaimState::Requested) =~= "state:requested"@) by {
        reveal_strlit("state:");
        reveal_strlit("requested");
        reveal_strlit("state:requested");
    }
    assert(label(ClaimState::InvoiceCreated) =~= "state:invoice-created"@) by {
        reveal_strlit("state:");
        reveal_strlit("invoice_created");
        reveal_strlit("state:invoice-created");
    }
}

/// A dispatched owner update leaves the issue of a claim that waited for it in
/// its new state; of any other claim, it writes the body where the request
/// named a host, and nothing else.
#[verifier::spinoff_prover]
pub proof fn law_owner_update_moves_the_issue(
    b: Board,
    c: ClaimView,
    update: OwnerUpdate,
    from: Option<ClaimState>,
    manifest: Seq<char>,
)
    ensures
        ({
            let plan = bind_plan(c, update, from, manifest);
            let after = after_plan(b, plan);
            match from {
                Some(s) => moves_issue(b, plan, s, c, manifest, after.comments.last()) && occurs(
                    after.comments.last(),
                    update.agent_host@,
                ),
                None => after == (Board {
                    body: if update.overridden {
                        issue_body(c, manifest)
                    } else {
                        b.body
                    },
                    ..b
                }),
            }
        }),
{
    let plan = bind_plan(c, update, from, manifest);
    match from {
        Some(s) => {
            assert(plan =~= seq![plan[0], plan[1], plan[2], plan[3]]);
            lemma_four(b, plan[0], plan[1], plan[2], plan[3]);
            lemma_label(s);
            lemma_label(c.state);
            lemma_labels_move(b.labels, s, c.state);
            let d = update.resp.dispatch@;
            let said = crate::tools::bind_comment(d, update.agent_host@, update.agent_owner@, s);
            let head = "Dispatched `"@ + d.workflow + "` on `"@ + d.ops_repo + "` for `"@;
            lemma_occurs(head, update.agent_host@, Seq::empty());
            assert(head + update.agent_host@ + Seq::<char>::empty() =~= head + update.agent_host@);
            let front = head + update.agent_host@;
            assert(said.subrange(0, front.len() as int) =~= front);
            lemma_occurs_in_front(front, said, update.agent_host@);
        },
        None => {
            reveal_with_fuel(after_plan, 2);
            if update.overridden {
                assert(plan.drop_last() =~= Seq::<PlannedView>::empty());
            }
        },
    }
}

/// A transition of the orchestrator leaves the issue in the claim's state.
pub proof fn law_transition_moves_the_issue(
    b: Board,
    from: ClaimState,
    c: ClaimView,
    comment: Seq<char>,
    manifest: Seq<char>,
)
    ensures
        moves_issue(b, transition_plan(from, c, comment, manifest), from, c, manifest, comment),
{
    let plan = transition_plan(from, c, comment, manifest);
    if state_label_text(from) == state_label_text(c.state) {
        law_state_labels_differ(from, c.state);
        assert(plan =~= seq![plan[0], plan[1]]);
        lemma_two(b, plan[0], plan[1]);
    } else {
        assert(plan =~= seq![plan[0], plan[1], plan[2], plan[3]]);
        lemma_four(b, plan[0], plan[1], plan[2], plan[3]);
    }
    lemma_label(from);
    lemma_label(c.state);
}

// ── the orchestrator ──────────────────────────────────────────────

/// A transaction that a waiting claim may count: it pays at least the list
/// price, is not the one already recorded, and was not mined before the issue
/// was opened.
pub open spec fn may_count(c: ClaimView, opened: u64, tx: TxView) -> bool {
    &&& tx.received_sats >= c.btc.price_per_24h_sats
    &&& c.billing.last_payment_txid != Some(tx.txid)
    &&& tx.block_time matches Some(mined) ==> mined >= opened
}

/// A claim ahead of `i` was attributed the transaction `txid`.
pub open spec fn taken_ahead(
    waiting: Seq<(ClaimView, u64)>,
    txs: Seq<TxView>,
    i: int,
    txid: Seq<char>,
) -> bool {
    exists|j: int|
        0 <= j < i && (#[trigger] attributed(waiting, txs)[j]).1 is Some && attributed(
            waiting,
            txs,
        )[j].0.billing.last_payment_txid == Some(txid)
}

/// What is left without one transaction still holds the others.
proof fn lemma_without_keeps(txs: Seq<TxView>, txid: Seq<char>, k: int)
    requires
        0 <= k < txs.len(),
        txs[k].txid != txid,
    ensures
        without_tx(txs, txid).contains(txs[k]),
    decreases txs.len(),
{
    let front = txs.drop_last();
    let left = without_tx(front, txid);
    let all = without_tx(txs, txid);
    if k < front.len() {
        assert(front[k] == txs[k]);
        lemma_without_keeps(front, txid, k);
        let m = choose|m: int| 0 <= m < left.len() && left[m] == front[k];
        assert(all[m] == txs[k]);
    } else {
        assert(all[all.len() - 1] == txs[k]);
    }
}

/// What landed since holds all that is no older.
proof fn lemma_landed_keeps(txs: Seq<TxView>, opened: u64, k: int)
    requires
        0 <= k < txs.len(),
        txs[k].block_time matches Some(mined) ==> mined >= opened,
    ensures
        landed_since(txs, opened).contains(txs[k]),
    decreases txs.len(),
{
    let front = txs.drop_last();
    let kept = landed_since(front, opened);
    let all = landed_since(txs, opened);
    if k < front.len() {
        assert(front[k] == txs[k]);
        lemma_landed_keeps(front, opened, k);
        let m = choose|m: int| 0 <= m < kept.len() && kept[m] == front[k];
        assert(all[m] == txs[k]);
    } else {
        assert(all[all.len() - 1] == txs[k]);
    }
}

/// A claim is attributed a payment exactly where one is left for it: it then
/// records a transaction that it may count, and waits for its confirmations.
/// It gets none only where every transaction that it may count went to a claim
/// ahead of it, and then it stays as it is.
#[verifier::spinoff_prover]
pub proof fn law_waiting_claims_get_their_payments(
    waiting: Seq<(ClaimView, u64)>,
    txs: Seq<TxView>,
    i: int,
)
    requires
        0 <= i < waiting.len(),
    ensures
        attributed(waiting, txs).len() == waiting.len(),
        ({
            let (c, opened) = waiting[i];
            let (d, said) = attributed(waiting, txs)[i];
            match said {
                Some(_) => exists|k: int|
                    0 <= k < txs.len() && may_count(c, opened, #[trigger] txs[k]) && d == (
                    ClaimView {
                        state: ClaimState::BtcMempoolSeen,
                        billing: BillingView {
                            last_payment_txid: Some(txs[k].txid),
                            ..c.billing
                        },
                        ..c
                    }),
                None => d == c && forall|k: int|
                    0 <= k < txs.len() && may_count(c, opened, #[trigger] txs[k]) ==> taken_ahead(
                        waiting,
                        txs,
                        i,
                        txs[k].txid,
                    ),
            }
        }),
    decreases waiting.len(),
{
    let (first, since) = waiting[0];
    let rest = waiting.subrange(1, waiting.len() as int);
    let recent = landed_since(txs, since);
    let wanted = pays_enough(first.btc.price_per_24h_sats, first.billing.last_payment_txid);
    let all = attributed(waiting, txs);
    let left = match first_where(recent, wanted) {
        Some(tx) => without_tx(txs, tx.txid),
        None => txs,
    };
    let tail = attributed(rest, left);
    crate::lifecycle::law_only_new_payments_count(waiting, txs, i);
    crate::btc::law_search_finds_the_first(recent, wanted);
    lemma_landed_since(txs, since);
    let (c, opened) = waiting[i];
    if i == 0 {
        if first_where(recent, wanted) is Some {
            let tx = first_where(recent, wanted)->0;
            let k = choose|k: int| 0 <= k < recent.len() && recent[k] == tx;
            let m = choose|m: int| 0 <= m < txs.len() && txs[m] == recent[k];
            assert(wanted(tx));
            assert(may_count(c, opened, txs[m]));
        } else {
            assert forall|k: int| 0 <= k < txs.len() implies !may_count(
                c,
                opened,
                #[trigger] txs[k],
            ) by {
                if may_count(c, opened, txs[k]) {
                    lemma_landed_keeps(txs, since, k);
                    let m = choose|m: int| 0 <= m < recent.len() && recent[m] == txs[k];
                    assert(wanted(recent[m]));
                }
            }
        }
    } else {
        law_waiting_claims_get_their_payments(rest, left, i - 1);
        assert(rest[i - 1] == waiting[i]);
        assert(all[i] == tail[i - 1]);
        if first_where(recent, wanted) is Some {
            lemma_without_tx(txs, first_where(recent, wanted)->0.txid);
        }
        if all[i].1 is Some {
            let k = choose|k: int|
                0 <= k < left.len() && may_count(c, opened, #[trigger] left[k]) && all[i].0 == (
                ClaimView {
                    state: ClaimState::BtcMempoolSeen,
                    billing: BillingView { last_payment_txid: Some(left[k].txid), ..c.billing },
                    ..c
                });
            assert(txs.contains(left[k]));
            let m = choose|m: int| 0 <= m < txs.len() && txs[m] == left[k];
            assert(may_count(c, opened, txs[m]));
        } else {
            assert forall|k: int|
                0 <= k < txs.len() && may_count(c, opened, #[trigger] txs[k]) implies taken_ahead(
                waiting,
                txs,
                i,
                txs[k].txid,
            ) by {
                if first_where(recent, wanted) is Some && txs[k].txid == first_where(
                    recent,
                    wanted,
                )->0.txid {
                    assert(all[0].1 is Some);
                    assert(all[0].0.billing.last_payment_txid == Some(txs[k].txid));
                } else {
                    if first_where(recent, wanted) is Some {
                        lemma_without_keeps(txs, first_where(recent, wanted)->0.txid, k);
                    }
                    assert(left.contains(txs[k]));
                    let m = choose|m: int| 0 <= m < left.len() && left[m] == txs[k];
                    assert(may_count(c, opened, left[m]));
                    assert(taken_ahead(rest, left, i - 1, txs[k].txid));
                    let j = choose|j: int|
                        0 <= j < i - 1 && (#[trigger] tail[j]).1 is Some
                            && tail[j].0.billing.last_payment_txid == Some(txs[k].txid);
                    assert(all[j + 1] == tail[j]);
                }
            }
        }
    }
}

/// One waiting claim takes the first transaction on offer that pays at least
/// the list price and is not the one already recorded, and none only where
/// there is no such transaction.
pub proof fn law_enough_is_at_least_the_price(
    txs: Seq<TxView>,
    price: u64,
    seen: Option<Seq<char>>,
)
    ensures
        match first_where(txs, pays_enough(price, seen)) {
            Some(t) => t.received_sats >= price && seen != Some(t.txid) && exists|i: int|
                0 <= i < txs.len() && txs[i] == t && forall|j: int|
                    0 <= j < i ==> (#[trigger] txs[j]).received_sats < price || seen == Some(
                        txs[j].txid,
                    ),
            None => forall|j: int|
                0 <= j < txs.len() ==> (#[trigger] txs[j]).received_sats < price || seen == Some(
                    txs[j].txid,
                ),
        },
{
    let wanted = pays_enough(price, seen);
    crate::btc::law_search_finds_the_first(txs, wanted);
    match first_where(txs, wanted) {
        Some(t) => {
            let i = choose|i: int|
                0 <= i < txs.len() && txs[i] == t && forall|j: int|
                    0 <= j < i ==> !wanted(#[trigger] txs[j]);
            assert forall|j: int| 0 <= j < i implies (#[trigger] txs[j]).received_sats < price
                || seen == Some(txs[j].txid) by {
                assert(!wanted(txs[j]));
            }
        },
        None => {
            assert forall|j: int| 0 <= j < txs.len() implies (#[trigger] txs[j]).received_sats
                < price || seen == Some(txs[j].txid) by {
                assert(!wanted(txs[j]));
            }
        },
    }
}

/// A recorded payment is credited as soon as it has at least the required
/// confirmations, and not before; one that is not visible is not.
pub proof fn law_payments_are_credited_when_deep_enough(
    c: ClaimView,
    txs: Seq<TxView>,
    i: int,
    tip: u64,
)
    ensures
        c.billing.last_payment_txid is None ==> !payment_confirmed(c, txs, tip),
        c.billing.last_payment_txid matches Some(txid) && missing(txs, txid)
            ==> !payment_confirmed(c, txs, tip),
        c.billing.last_payment_txid matches Some(txid) && found_at(txs, txid, i) && countable(
            txs[i].block_height,
            tip,
        ) ==> (payment_confirmed(c, txs, tip) <==> deep_enough(
            txs[i].block_height,
            tip,
            c.btc.required_confirmations,
        )),
{
    if c.billing.last_payment_txid is Some {
        let txid = c.billing.last_payment_txid->0;
        if missing(txs, txid) {
            lemma_missing(txs, txid);
        }
        if found_at(txs, txid, i) && countable(txs[i].block_height, tip) {
            lemma_found(txs, txid, i);
            lemma_count(txs[i].block_height, tip);
        }
    }
}

/// A credited block is a day of 86 400 seconds behind the later of now and what
/// was paid already.
pub proof fn law_a_block_is_a_day(now: Moment, current: Option<Timestamp>)
    requires
        0 <= now.nanos < 1_000_000_000,
        current matches Some(t) ==> 0 <= t@.nanos < 1_000_000_000,
    ensures
        ({
            let until = hours_later(credit_base(now, current), 24);
            let paid_ahead = current matches Some(t) && (t@.secs > now.secs || (t@.secs == now.secs
                && t@.nanos > now.nanos));
            if paid_ahead {
                until == (Moment { secs: current->0@.secs + 86_400, nanos: current->0@.nanos })
            } else {
                until == (Moment { secs: now.secs + 86_400, nanos: now.nanos })
            }
        }),
{
}

/// An active claim needs a node where it has none; else it is overdue exactly
/// where its paid time is over.
pub proof fn law_active_claims_are_served(c: ClaimView, now: Moment)
    ensures
        active_need(c, now) == ActiveStep::Boot <==> c.agent_id is None,
        active_need(c, now) == ActiveStep::Overdue <==> (c.agent_id is Some && (
        c.billing.paid_until matches Some(t) && (t@.secs < now.secs || (t@.secs == now.secs
            && t@.nanos < now.nanos)))),
{
}

// ── the issue body ────────────────────────────────────────────────

proof fn lemma_first(s: Seq<char>, pattern: Seq<char>, i: int) -> (k: int)
    requires
        occurs_at(s, pattern, i),
    ensures
        crate::text::first_at(s, pattern, k),
    decreases i,
{
    if exists|j: int| 0 <= j < i && occurs_at(s, pattern, j) {
        let j = choose|j: int| 0 <= j < i && occurs_at(s, pattern, j);
        lemma_first(s, pattern, j)
    } else {
        i
    }
}

/// Each fault of an issue body is reported exactly where it is: no opening
/// marker, or no closing one behind the first opening one.
pub proof fn law_bodies_without_markers_are_refused(body: Seq<char>)
    ensures
        manifest_of(body) == Err::<Seq<char>, _>(ManifestError::MissingOpen) <==> !occurs(
            body,
            MANIFEST_OPEN@,
        ),
        occurs(body, MANIFEST_OPEN@) && !occurs(body, MANIFEST_CLOSE@) ==> manifest_of(body)
            == Err::<Seq<char>, _>(ManifestError::MissingClose),
{
    if occurs(body, MANIFEST_OPEN@) {
        let some = choose|i: int| occurs_at(body, MANIFEST_OPEN@, i);
        let i = lemma_first(body, MANIFEST_OPEN@, some);
        crate::text::lemma_position(body, MANIFEST_OPEN@, i);
        let from = i + MANIFEST_OPEN@.len();
        let rest = body.subrange(from, body.len() as int);
        if occurs(rest, MANIFEST_CLOSE@) {
            let j = choose|j: int| occurs_at(rest, MANIFEST_CLOSE@, j);
            assert(body.subrange(from + j, from + j + MANIFEST_CLOSE@.len()) =~= rest.subrange(
                j,
                j + MANIFEST_CLOSE@.len(),
            ));
            assert(occurs_at(body, MANIFEST_CLOSE@, from + j));
        }
    }
}

/// People see the claim, its state and its owner at the top of an issue.
#[verifier::spinoff_prover]
pub proof fn law_the_summary_shows_the_claim(c: ClaimView, manifest: Seq<char>)
    ensures
        occurs(issue_body(c, manifest), c.claim_id),
        occurs(issue_body(c, manifest), state_name(c.state)),
        occurs(issue_body(c, manifest), manifest),
{
    let body = issue_body(c, manifest);
    let head = "# Sats for Compute claim `"@;
    let mid = head + c.claim_id + "`\n\n- **State:** `"@;
    assert(body.subrange(head.len() as int, (head.len() + c.claim_id.len()) as int)
        =~= c.claim_id);
    assert(occurs_at(body, c.claim_id, head.len() as int));
    assert(body.subrange(mid.len() as int, (mid.len() + state_name(c.state).len()) as int)
        =~= state_name(c.state));
    assert(occurs_at(body, state_name(c.state), mid.len() as int));
    let front = summary(c) + MANIFEST_OPEN@ + "\n```json\n"@;
    assert(body.subrange(front.len() as int, (front.len() + manifest.len()) as int) =~= manifest);
    assert(occurs_at(body, manifest, front.len() as int));
}

// ── what ticks wait for, and what they say ────────────────────────

/// What a tick looks at first. A claim with an unsettled bind is looked at for
/// its payment, or the time where none is recorded; one that lacks its agent or
/// owner, or is active without a paid time, waits.
pub proof fn law_ticks_look_at_what_the_claim_waits_for(c: ClaimView)
    ensures
        c.state == ClaimState::InvoiceCreated ==> first_ask(c) == TickView::WantTxs(Look::Invoice),
        c.state == ClaimState::BtcMempoolSeen && c.billing.last_payment_txid is Some ==> first_ask(
            c,
        ) == TickView::WantTxs(Look::Payment),
        ({
            let bound = c.state == ClaimState::Active || c.state
                == ClaimState::OwnerUpdateDispatched;
            let marked = c.billing.optimistic_bind_at is Some;
            &&& bound && marked && c.billing.last_payment_txid is Some ==> first_ask(c)
                == TickView::WantTxs(Look::Settle)
            &&& bound && marked && c.billing.last_payment_txid is None ==> first_ask(c)
                == TickView::WantSettleClock
            &&& c.state == ClaimState::Active && !marked && c.billing.paid_until is Some
                ==> first_ask(c) == TickView::WantOverdueClock
            &&& c.state == ClaimState::Active && !marked && c.billing.paid_until is None ==> (
            first_ask(c) is Done && !first_ask(c)->advanced)
            &&& c.state == ClaimState::OwnerUpdateDispatched && !marked && (c.agent_hostname is None
                || c.customer_owner is None) ==> (first_ask(c) is Done && !first_ask(c)->advanced)
        }),
{
}

/// What is said of a confirmed payment names it and its confirmations, and what
/// is said of a found one names it and its amount.
#[verifier::spinoff_prover]
pub proof fn law_ticks_name_the_payment(
    grace: u64,
    c: ClaimView,
    txs: Seq<TxView>,
    tx: TxView,
    tip: u64,
)
    requires
        countable(tx.block_height, tip),
        c.billing.last_payment_txid is Some,
    ensures
        ({
            let (d, t) = next(grace, c, TickView::WantPaymentTip(tx), ReplyView::Tip(Ok(tip)));
            let confs = if tx.block_height matches Some(h) && h <= tip {
                tip - tx.block_height->0 + 1
            } else {
                0
            };
            &&& t is Done
            &&& occurs(t->Done_note, c.billing.last_payment_txid->0)
            &&& occurs(t->Done_note, crate::text::decimal(confs as nat))
        }),
        ({
            let (d, t) = next(
                grace,
                c,
                TickView::WantTxs(Look::Invoice),
                ReplyView::Txs(Ok(txs)),
            );
            &&& t is Done && t->advanced ==> occurs(
                t->Done_note,
                d.billing.last_payment_txid->0,
            )
            &&& occurs(
                t->Done_note,
                crate::text::decimal(c.btc.exact_amount_sats as nat),
            )
        }),
{
    lemma_count(tx.block_height, tip);
    let txid = c.billing.last_payment_txid->0;
    let confs = crate::btc::confirmations_at(tx.block_height, tip);
    let shown = crate::text::decimal(confs as nat);
    let note = next(grace, c, TickView::WantPaymentTip(tx), ReplyView::Tip(Ok(tip))).1->Done_note;
    if confs < c.btc.required_confirmations {
        let need = crate::text::decimal(c.btc.required_confirmations as nat);
        lemma_occurs("tx `"@, txid, "` at "@ + shown + "/"@ + need + " confs"@);
        assert(note =~= "tx `"@ + txid + ("` at "@ + shown + "/"@ + need + " confs"@));
        lemma_occurs("tx `"@ + txid + "` at "@, shown, "/"@ + need + " confs"@);
        assert(note =~= "tx `"@ + txid + "` at "@ + shown + ("/"@ + need + " confs"@));
    } else {
        lemma_occurs("tx `"@, txid, "` reached "@ + shown + " conf"@);
        assert(note =~= "tx `"@ + txid + ("` reached "@ + shown + " conf"@));
        lemma_occurs("tx `"@ + txid + "` reached "@, shown, " conf"@);
        assert(note =~= "tx `"@ + txid + "` reached "@ + shown + " conf"@);
    }
    let wanted = pays_exactly(c.btc.exact_amount_sats, c.billing.last_payment_txid);
    crate::btc::law_search_finds_the_first(txs, wanted);
    let sats = crate::text::decimal(c.btc.exact_amount_sats as nat);
    match first_where(txs, wanted) {
        Some(t) => {
            assert(t.received_sats == c.btc.exact_amount_sats);
            let said = "saw tx `"@ + t.txid + "` paying exactly "@ + sats + " sats"@;
            lemma_occurs("saw tx `"@, t.txid, "` paying exactly "@ + sats + " sats"@);
            assert(said =~= "saw tx `"@ + t.txid + ("` paying exactly "@ + sats + " sats"@));
            lemma_occurs("saw tx `"@ + t.txid + "` paying exactly "@, sats, " sats"@);
        },
        None => lemma_occurs(
            "no tx paying exactly "@,
            sats,
            " sats to the invoice address yet"@,
        ),
    }
}

// ── who is admitted, and what claims are called ───────────────────

/// White space around a token does not count, and a header without the word
/// admits nobody.
pub proof fn law_only_bearers_are_admitted(header: Seq<char>, token: Seq<char>, expected: Seq<char>)
    ensures
        crate::tools::admitted(Some("Bearer "@ + token), expected) == (expected.len() > 0
            && crate::text::trim(token) == expected),
        crate::tools::admitted(Some("bearer "@ + token), expected) == (expected.len() > 0
            && crate::text::trim(token) == expected),
        !crate::text::starts_with(header, "Bearer "@) && !crate::text::starts_with(
            header,
            "bearer "@,
        ) ==> !crate::tools::admitted(Some(header), expected),
{
    reveal_strlit("Bearer ");
    reveal_strlit("bearer ");
    let upper = "Bearer "@ + token;
    let lower = "bearer "@ + token;
    assert(upper.subrange(0, 7) =~= "Bearer "@);
    assert(upper.subrange(7, upper.len() as int) =~= token);
    assert(lower.subrange(0, 7) =~= "bearer "@);
    assert(lower.subrange(7, lower.len() as int) =~= token);
    assert(lower.subrange(0, 7)[0] != "Bearer "@[0]);
}

/// The clock tells suffixes apart too: the same request number at different
/// fractions of a second gives different suffixes.
pub proof fn law_suffixes_follow_the_clock(counter: u32, a: u32, b: u32)
    requires
        a != b,
    ensures
        crate::tools::mixed(counter, a) != crate::tools::mixed(counter, b),
{
    let n: u32 = ((counter * 2_654_435_761) % 0x1_0000_0000) as u32;
    assert(a != b ==> n ^ a != n ^ b) by (bit_vector);
}

/// A new claim's issue bears what the orchestrator looks for, the label of its
/// state, and that of its mode.
pub proof fn law_new_issues_are_labelled(mode: ClaimMode)
    ensures
        ({
            let labels = crate::tools::base_label_texts(mode);
            &&& labels.contains("s12e"@)
            &&& labels.contains(label(ClaimState::Requested))
            &&& labels.contains("mode:confidential"@) <==> mode == ClaimMode::Confidential
            &&& labels.contains("mode:customer-deploy"@) <==> mode == ClaimMode::CustomerDeploy
        }),
{
    let labels = crate::tools::base_label_texts(mode);
    reveal_strlit("s12e");
    reveal_strlit("claim");
    reveal_strlit("state:requested");
    reveal_strlit("integrity:pristine");
    reveal_strlit("mode:confidential");
    reveal_strlit("mode:customer-deploy");
    assert(label(ClaimState::Requested) =~= "state:requested"@) by {
        reveal_strlit("state:");
        reveal_strlit("requested");
    }
    assert(labels[0] == "s12e"@);
    assert(labels[2] == "state:requested"@);
    assert("mode:confidential"@[5] == 'c' && "mode:confidential"@.len() == 17);
    assert("mode:customer-deploy"@.len() == 20);
    assert("s12e"@.len() == 4 && "claim"@.len() == 5 && "state:requested"@.len() == 15
        && "integrity:pristine"@.len() == 18);
    assert(labels[4].len() == 17 || labels[4].len() == 20);
    assert(labels.len() == 5);
}

/// An identifier is read back: its second, and eight hexadecimal digits that
/// are its suffix.
pub proof fn law_claim_ids_tell_their_second(secs: nat, suffix: u32)
    ensures
        ({
            let id = crate::tools::claim_id_text(secs as int, suffix);
            let hex = id.subrange(id.len() - 8, id.len() as int);
            &&& id.len() > 15
            &&& crate::text::numeral_value(hex, 16) == suffix
            &&& id[id.len() - 9] == '_'
            &&& id.subrange(0, 6) == "claim_"@
            &&& crate::text::numeral_value(id.subrange(6, id.len() - 9), 10) == secs
        }),
{
    let word = crate::text::decimal(secs);
    let tail = crate::text::zero_padded(crate::text::in_base(suffix as nat, 16, false), 8);
    crate::text::law_numeral_value(secs, 10, false);
    crate::text_laws::law_numerals_have_no_leading_zero(secs);
    lemma_suffix_digits(suffix);
    lemma_claim_id_parts(word, tail);
}

proof fn lemma_suffix_digits(suffix: u32)
    ensures
        ({
            let tail = crate::text::zero_padded(crate::text::in_base(suffix as nat, 16, false), 8);
            tail.len() == 8 && crate::text::numeral_value(tail, 16) == suffix
        }),
{
    let digits = crate::text::in_base(suffix as nat, 16, false);
    assert(vstd::arithmetic::power::pow(16, 8) == 0x1_0000_0000) by {
        reveal_with_fuel(vstd::arithmetic::power::pow, 9);
    }
    crate::text::lemma_numeral_len(suffix as nat, 16, false, 8);
    crate::text::law_numeral_value(suffix as nat, 16, false);
    crate::text::law_padding_keeps_the_value(digits, 8, 16);
}

proof fn lemma_claim_id_parts(word: Seq<char>, tail: Seq<char>)
    requires
        word.len() > 0,
        tail.len() == 8,
    ensures
        ({
            let id = "claim_"@ + word + "_"@ + tail;
            &&& id.len() > 15
            &&& id[id.len() - 9] == '_'
            &&& id.subrange(0, 6) == "claim_"@
            &&& id.subrange(6, id.len() - 9) == word
            &&& id.subrange(id.len() - 8, id.len() as int) == tail
        }),
{
    reveal_strlit("claim_");
    reveal_strlit("_");
    let id = "claim_"@ + word + "_"@ + tail;
    assert(id.subrange(0, 6) =~= "claim_"@);
    assert(id.subrange(6, id.len() - 9) =~= word);
    assert(id.subrange(id.len() - 8, id.len() as int) =~= tail);
}

/// What was not recorded by a claim is still on offer.
pub proof fn law_unrecorded_payments_stay(txs: Seq<TxView>, recorded: Seq<Seq<char>>, k: int)
    requires
        0 <= k < txs.len(),
        !recorded.contains(txs[k].txid),
    ensures
        crate::lifecycle::unclaimed_txs(txs, recorded).contains(txs[k]),
    decreases recorded.len(),
{
    if recorded.len() > 0 {
        let front = recorded.drop_last();
        let left = crate::lifecycle::unclaimed_txs(txs, front);
        assert(recorded.last() != txs[k].txid) by {
            assert(recorded[recorded.len() - 1] == recorded.last());
        }
        assert(!front.contains(txs[k].txid)) by {
            if front.contains(txs[k].txid) {
                let m = choose|m: int| 0 <= m < front.len() && front[m] == txs[k].txid;
                assert(recorded[m] == txs[k].txid);
            }
        }
        law_unrecorded_payments_stay(txs, front, k);
        let m = choose|m: int| 0 <= m < left.len() && left[m] == txs[k];
        lemma_without_keeps(left, recorded.last(), m);
    } else {
        assert(crate::lifecycle::unclaimed_txs(txs, recorded)[k] == txs[k]);
    }
}

/// What stands between the first markers is what is read: a plain fence counts
/// like one that names its language, and a text that is no fence is refused.
#[verifier::spinoff_prover]
pub proof fn law_fences_are_read_between_the_markers(
    above: Seq<char>,
    inner: Seq<char>,
    below: Seq<char>,
    text: Seq<char>,
)
    requires
        !occurs(above, MANIFEST_OPEN@),
        !occurs(inner, MANIFEST_CLOSE@),
    ensures
        ({
            let read = manifest_of(above + MANIFEST_OPEN@ + inner + MANIFEST_CLOSE@ + below);
            &&& inner == "\n```\n"@ + text + "\n```\n"@ ==> read == Ok::<_, ManifestError>(
                crate::text::trim(text),
            )
            &&& inner == "\n```json\n"@ + text + "\n```\n"@ ==> read == Ok::<_, ManifestError>(
                crate::text::trim(text),
            )
            &&& !crate::text::starts_with(crate::text::trim(inner), "```"@) ==> read == Err::<
                Seq<char>,
                _,
            >(ManifestError::MissingFence)
        }),
{
    let open = MANIFEST_OPEN@;
    let close = MANIFEST_CLOSE@;
    reveal_strlit("<!-- s12e:claim:v1:begin -->");
    reveal_strlit("<!-- s12e:claim:v1:end -->");
    reveal_strlit("```");
    reveal_strlit("```json");
    let rest = inner + close + below;
    let body = above + open + inner + close + below;
    assert(body =~= above + open + rest);
    crate::text::lemma_found_behind(above, open, rest);
    assert(body.subrange((above.len() + open.len()) as int, body.len() as int) =~= rest);
    crate::text::lemma_found_behind(inner, close, below);
    assert(rest.subrange(0, inner.len() as int) =~= inner);
    let fence = crate::text::trim(inner);
    if inner == "\n```\n"@ + text + "\n```\n"@ {
        assert("\n```\n"@ =~= seq!['\n'] + "```"@ + seq!['\n']) by {
            reveal_strlit("\n```\n");
        }
        lemma_fence("\n```\n"@, "```"@, text, inner);
    }
    if inner == "\n```json\n"@ + text + "\n```\n"@ {
        assert("\n```json\n"@ =~= seq!['\n'] + "```json"@ + seq!['\n']) by {
            reveal_strlit("\n```json\n");
        }
        lemma_fence("\n```json\n"@, "```json"@, text, inner);
    }
    if !crate::text::starts_with(fence, "```"@) && crate::text::starts_with(fence, "```json"@) {
        assert(fence.subrange(0, 3) =~= fence.subrange(0, 7).subrange(0, 3));
        assert("```json"@.subrange(0, 3) =~= "```"@);
    }
}

proof fn lemma_fence(opening: Seq<char>, word: Seq<char>, text: Seq<char>, inner: Seq<char>)
    requires
        word == "```"@ || word == "```json"@,
        opening == seq!['\n'] + word + seq!['\n'],
        inner == opening + text + "\n```\n"@,
    ensures
        crate::claim::unfenced(inner) == Ok::<_, ManifestError>(crate::text::trim(text)),
{
    reveal_strlit("```");
    reveal_strlit("```json");
    reveal_strlit("\n```\n");
    let fence = word + seq!['\n'] + text + seq!['\n'] + "```"@;
    assert(inner =~= (seq!['\n'] + fence).push('\n'));
    crate::text::lemma_trim_ignores_last(seq!['\n'] + fence, '\n');
    crate::text::lemma_trim_ignores_first('\n', fence);
    assert(fence[0] == '`' && fence.last() == '`');
    crate::text::lemma_trim_keeps(fence);
    let rest = seq!['\n'] + text + seq!['\n'] + "```"@;
    let n = word.len() as int;
    assert(fence.subrange(0, n) =~= word);
    assert(fence.subrange(n, fence.len() as int) =~= rest);
    if word == "```"@ {
        assert(fence.len() >= 7 ==> fence.subrange(0, 7)[3] == '\n');
        assert("```json"@[3] == 'j');
    }
    assert(rest.last() == '`');
    assert(crate::text::trim_end(rest) == rest);
    assert(rest.subrange(rest.len() - 3, rest.len() as int) =~= "```"@);
    let json = (seq!['\n'] + text).push('\n');
    assert(rest.subrange(0, rest.len() - 3) =~= json);
    crate::text::lemma_trim_ignores_last(seq!['\n'] + text, '\n');
    crate::text::lemma_trim_ignores_first('\n', text);
}

// ── binding an owner ──────────────────────────────────────────────

/// An owner update tells the workflow exactly the claim, host and owner that it
/// is given; an empty owner is told as it is, and revokes.
pub proof fn law_owner_updates_tell_what_they_are_given(
    cfg: ConfigView,
    claim_id: Seq<char>,
    host: Seq<char>,
    owner: Seq<char>,
)
    ensures
        ({
            let d = owner_dispatch(cfg, claim_id, host, owner);
            &&& d.ops_repo == cfg.ops_repo && d.workflow == cfg.ops_owner_workflow && d.ref_
                == cfg.ops_ref
            &&& d.inputs["claim_id"@] == Some(claim_id)
            &&& d.inputs["agent_host"@] == Some(host)
            &&& d.inputs["agent_owner"@] == Some(owner)
            &&& d.inputs.dom() =~= set!["claim_id"@, "agent_host"@, "agent_owner"@]
        }),
{
    lemma_input_names();
}

/// Only a claim whose payment was seen or confirmed waits for its owner.
pub proof fn law_only_paid_claims_wait_for_their_owner(s: ClaimState)
    ensures
        crate::tools::awaits_bind(s) <==> (s == ClaimState::BtcMempoolSeen || s
            == ClaimState::BtcConfirmed),
{
}

/// A booting claim waits for its agent; then a sealed one is active, and of any
/// other the owner is bound on that agent, where it has one.
pub proof fn law_booted_claims_are_sealed_or_bound(c: ClaimView)
    ensures
        ({
            let (d, step) = crate::lifecycle::assignment_need(c);
            let owned = c.customer_owner matches Some(o) && o.len() > 0;
            &&& c.agent_hostname is None ==> d == c && step is Wait
            &&& c.agent_hostname is Some && c.mode == ClaimMode::Confidential ==> step is Sealed
                && d == (ClaimView { state: ClaimState::Active, ..c })
            &&& c.agent_hostname is Some && c.mode == ClaimMode::CustomerDeploy && owned ==> d == c
                && step is Bind && step->agent_host == c.agent_hostname->0 && step->agent_owner
                == c.customer_owner->0
            &&& c.agent_hostname is Some && c.mode == ClaimMode::CustomerDeploy && !owned ==> d == c
                && step is NoOwner
        }),
{
}

} // verus!
