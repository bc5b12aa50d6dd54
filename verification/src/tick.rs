//! `claim.tick`: one claim, advanced by one step.
//!
//! A tick asks for one thing at a time. [`tick_first`] says what a claim needs
//! first; [`tick_step`] takes the reply and says what comes next, until the
//! tick is done or refused. The claim changes at most once, with the last
//! reply.

use crate::btc::{
    confirmations_at, find_exact, find_tx, first_where, is_tx, pays_exactly, tx_option, tx_views,
    AddressTx, TxView,
};
use crate::claim::{
    issue_body, state_name, state_str, BillingView, Claim, ClaimState, ClaimView, IntegrityView,
    TaintReason,
};
use crate::config::Config;
use crate::steps::{
    may, must, no_steps, plan_view, push_may, push_must, IssueStep, PlannedStep, PlannedView,
    StepView,
};
use crate::text::{
    decimal, decimal_text, option_text, option_view, same_text, starts_with,
    strip_prefix, text_or_empty, trim_end_of, trimmed_end_of,
};
use crate::time::{earlier, seconds_between, Moment, Timestamp};
use crate::tools::{
    label_of, owner_dispatch, owner_update_call, state_label_text, upstream, upstream_text,
    ApiError, ApiErrorView, WorkflowDispatch,
};
use vstd::prelude::*;

verus! {

// ── what a tick asks for, and the replies ─────────────────────────

/// What an agent says of itself.
#[derive(Clone, Debug)]
pub struct DdHealth {
    /// The owner that is bound.
    pub agent_owner: Option<String>,
    /// Whether it runs in confidential mode.
    pub confidential_mode: bool,
    /// What tainted it.
    pub taint_reasons: Vec<TaintReason>,
}

/// What a [`DdHealth`] holds.
#[verifier::ext_equal]
pub struct HealthView {
    pub agent_owner: Option<Seq<char>>,
    pub confidential_mode: bool,
    pub taint_reasons: Seq<TaintReason>,
}

impl View for DdHealth {
    type V = HealthView;

    open spec fn view(&self) -> HealthView {
        HealthView {
            agent_owner: option_view(self.agent_owner),
            confidential_mode: self.confidential_mode,
            taint_reasons: self.taint_reasons@,
        }
    }
}

/// What the transactions of the invoice address are wanted for.
#[derive(Clone, Copy, Debug, PartialEq, Eq, Structural)]
pub enum Look {
    /// To find the payment of an invoice.
    Invoice,
    /// To find the recorded payment again.
    Payment,
    /// To see whether a bind ahead of confirmation has settled.
    Settle,
}

/// Where a tick stands: what it asks for, or how it ended.
#[derive(Clone, Debug)]
pub enum Tick {
    /// Asks for the transactions of the invoice address.
    WantTxs(Look),
    /// Asks for the chain's height, to count the confirmations of a payment.
    WantPaymentTip(AddressTx),
    /// Asks for the chain's height, to count the confirmations of the payment
    /// behind a bind, if it was found.
    WantSettleTip(Option<AddressTx>),
    /// Asks for the time, to see whether the grace window of a bind is over.
    WantSettleClock,
    /// Asks for the time, to see whether the paid time is over.
    WantOverdueClock,
    /// Asks for the agent's health.
    WantHealth {
        /// The agent's host.
        host: String,
        /// The owner that it is to report.
        owner: String,
    },
    /// Asks for the owner-update workflow with an empty owner, to revoke
    /// access.
    WantRevoke {
        /// The agent's host.
        host: String,
        /// What will be said of it.
        note: String,
        /// Whether it ends an unsettled bind.
        unsettled: bool,
    },
    /// The tick is over.
    Done {
        /// Whether the claim changed.
        advanced: bool,
        /// What is said of it.
        note: String,
    },
    /// The tick failed; nothing is to be written.
    Refused(ApiError),
}

/// What a [`Tick`] holds.
#[verifier::ext_equal]
pub enum TickView {
    WantTxs(Look),
    WantPaymentTip(TxView),
    WantSettleTip(Option<TxView>),
    WantSettleClock,
    WantOverdueClock,
    WantHealth { host: Seq<char>, owner: Seq<char> },
    WantRevoke { host: Seq<char>, note: Seq<char>, unsettled: bool },
    Done { advanced: bool, note: Seq<char> },
    Refused(ApiErrorView),
}

impl View for Tick {
    type V = TickView;

    open spec fn view(&self) -> TickView {
        match self {
            Tick::WantTxs(look) => TickView::WantTxs(*look),
            Tick::WantPaymentTip(tx) => TickView::WantPaymentTip(tx@),
            Tick::WantSettleTip(tx) => TickView::WantSettleTip(tx_option(*tx)),
            Tick::WantSettleClock => TickView::WantSettleClock,
            Tick::WantOverdueClock => TickView::WantOverdueClock,
            Tick::WantHealth { host, owner } => TickView::WantHealth { host: host@, owner: owner@ },
            Tick::WantRevoke { host, note, unsettled } => TickView::WantRevoke {
                host: host@,
                note: note@,
                unsettled: *unsettled,
            },
            Tick::Done { advanced, note } => TickView::Done { advanced: *advanced, note: note@ },
            Tick::Refused(e) => TickView::Refused(e@),
        }
    }
}

/// A reply to what a tick asked for. A failure comes with its reason.
#[derive(Debug)]
pub enum Reply {
    /// The transactions of the invoice address.
    Txs(Result<Vec<AddressTx>, String>),
    /// The chain's height.
    Tip(Result<u64, String>),
    /// The time.
    Clock(Timestamp),
    /// The agent's health.
    Health(Result<DdHealth, String>),
    /// Whether the revoking workflow was dispatched.
    Revoked(Result<(), String>),
}

/// What a [`Reply`] holds.
#[verifier::ext_equal]
pub enum ReplyView {
    Txs(Result<Seq<TxView>, Seq<char>>),
    Tip(Result<u64, Seq<char>>),
    Clock(Moment),
    Health(Result<HealthView, Seq<char>>),
    Revoked(Result<(), Seq<char>>),
}

impl View for Reply {
    type V = ReplyView;

    open spec fn view(&self) -> ReplyView {
        match self {
            Reply::Txs(Ok(txs)) => ReplyView::Txs(Ok(tx_views(txs@))),
            Reply::Txs(Err(e)) => ReplyView::Txs(Err(e@)),
            Reply::Tip(Ok(tip)) => ReplyView::Tip(Ok(*tip)),
            Reply::Tip(Err(e)) => ReplyView::Tip(Err(e@)),
            Reply::Clock(now) => ReplyView::Clock(now@),
            Reply::Health(Ok(h)) => ReplyView::Health(Ok(h@)),
            Reply::Health(Err(e)) => ReplyView::Health(Err(e@)),
            Reply::Revoked(Ok(u)) => ReplyView::Revoked(Ok(())),
            Reply::Revoked(Err(e)) => ReplyView::Revoked(Err(e@)),
        }
    }
}

/// `reply` answers what `tick` asks for.
pub open spec fn answers(tick: TickView, reply: ReplyView) -> bool {
    match tick {
        TickView::WantTxs(_) => reply is Txs,
        TickView::WantPaymentTip(_) => reply is Tip,
        TickView::WantSettleTip(_) => reply is Tip,
        TickView::WantSettleClock => reply is Clock,
        TickView::WantOverdueClock => reply is Clock,
        TickView::WantHealth { .. } => reply is Health,
        TickView::WantRevoke { .. } => reply is Revoked,
        TickView::Done { .. } => false,
        TickView::Refused(_) => false,
    }
}

// ── what a tick decides ───────────────────────────────────────────

/// The end of a tick that changes nothing.
pub open spec fn idle(note: Seq<char>) -> TickView {
    TickView::Done { advanced: false, note }
}

/// The end of a tick that changes the claim.
pub open spec fn moved(note: Seq<char>) -> TickView {
    TickView::Done { advanced: true, note }
}

/// The end of a tick whose outside work failed.
pub open spec fn failed(context: Seq<char>, error: Seq<char>) -> TickView {
    TickView::Refused(ApiErrorView::Upstream(upstream_text(context, error)))
}

/// What a claim needs first.
pub open spec fn first_ask(c: ClaimView) -> TickView {
    match c.state {
        ClaimState::InvoiceCreated => TickView::WantTxs(Look::Invoice),
        ClaimState::BtcMempoolSeen => if c.billing.last_payment_txid is Some {
            TickView::WantTxs(Look::Payment)
        } else {
            idle("no last_payment_txid recorded"@)
        },
        ClaimState::OwnerUpdateDispatched | ClaimState::Active =>
        if c.billing.optimistic_bind_at is None {
            settled_ask(c)
        } else if c.billing.last_payment_txid is Some {
            TickView::WantTxs(Look::Settle)
        } else {
            TickView::WantSettleClock
        },
        _ => idle("no automatic transition from `"@ + state_name(c.state) + "`"@),
    }
}

/// What a claim needs once no bind ahead of confirmation stands in the way: an
/// active claim the time, if it is paid for, and a claim that waits for its
/// owner the agent's health.
pub open spec fn settled_ask(c: ClaimView) -> TickView {
    if c.state == ClaimState::Active {
        if c.billing.paid_until is Some {
            TickView::WantOverdueClock
        } else {
            idle("active; no automatic transition"@)
        }
    } else if c.agent_hostname is None {
        idle(
            "no agent_hostname on claim; the boot workflow has not written one back yet"@,
        )
    } else if c.customer_owner is None {
        idle("claim has no customer_owner to match against agent_owner"@)
    } else {
        TickView::WantHealth { host: c.agent_hostname->0, owner: c.customer_owner->0 }
    }
}

/// An invoice looks for a transaction that pays its exact amount.
pub open spec fn on_invoice_txs(c: ClaimView, txs: Seq<TxView>) -> (ClaimView, TickView) {
    let needed = c.btc.exact_amount_sats;
    match first_where(txs, pays_exactly(needed, c.billing.last_payment_txid)) {
        None => (
            c,
            idle(
                "no tx paying exactly "@ + decimal(needed as nat)
                    + " sats to the invoice address yet"@,
            ),
        ),
        Some(tx) => (
            ClaimView {
                state: ClaimState::BtcMempoolSeen,
                billing: BillingView { last_payment_txid: Some(tx.txid), ..c.billing },
                ..c
            },
            moved(
                "saw tx `"@ + tx.txid + "` paying exactly "@ + decimal(tx.received_sats as nat)
                    + " sats"@,
            ),
        ),
    }
}

/// The recorded payment is looked up again.
pub open spec fn on_payment_txs(c: ClaimView, txs: Seq<TxView>) -> TickView {
    let txid = option_text(c.billing.last_payment_txid);
    match first_where(txs, is_tx(txid)) {
        None => idle("tx `"@ + txid + "` not visible to watcher"@),
        Some(tx) => TickView::WantPaymentTip(tx),
    }
}

/// The recorded payment is confirmed once it has enough confirmations.
pub open spec fn on_payment_tip(c: ClaimView, tx: TxView, tip: u64) -> (ClaimView, TickView) {
    let confs = confirmations_at(tx.block_height, tip);
    let txid = option_text(c.billing.last_payment_txid);
    if confs < c.btc.required_confirmations {
        (
            c,
            idle(
                "tx `"@ + txid + "` at "@ + decimal(confs as nat) + "/"@ + decimal(
                    c.btc.required_confirmations as nat,
                ) + " confs"@,
            ),
        )
    } else {
        (
            ClaimView { state: ClaimState::BtcConfirmed, ..c },
            moved("tx `"@ + txid + "` reached "@ + decimal(confs as nat) + " conf"@),
        )
    }
}

/// The payment behind a bind is settled once it has enough confirmations.
pub open spec fn settles(c: ClaimView, tx: Option<TxView>, tip: u64) -> bool {
    tx matches Some(t) && confirmations_at(t.block_height, tip) >= c.btc.required_confirmations
}

/// A claim without the mark of a bind ahead of confirmation.
pub open spec fn unmarked(c: ClaimView) -> ClaimView {
    ClaimView { billing: BillingView { optimistic_bind_at: None, ..c.billing }, ..c }
}

/// Seconds that have passed since `then`, as a clock that does not run
/// backwards shows them.
pub open spec fn elapsed(now: Moment, then: Moment) -> nat {
    if seconds_between(now, then) > 0 {
        seconds_between(now, then) as nat
    } else {
        0
    }
}

/// A claim that was reaped.
pub open spec fn reaped(c: ClaimView, unsettled: bool) -> ClaimView {
    ClaimView {
        state: ClaimState::Failed,
        ..if unsettled {
            unmarked(c)
        } else {
            c
        }
    }
}

/// What is said of a reaped claim.
pub open spec fn reap_note(c: ClaimView, unsettled: bool, secs: nat) -> Seq<char> {
    let host = option_text(c.agent_hostname);
    let reason = if unsettled {
        "reaped: optimistic 0-conf bind unsettled after "@ + decimal(secs) + "s; "@
    } else {
        "reaped: paid_until elapsed "@ + decimal(secs) + "s ago; "@
    };
    if host.len() == 0 {
        reason
            + "no agent_hostname recorded so revoke skipped (state → `failed`, manual review)"@
    } else {
        reason + "dispatched owner-update with empty agent_owner on `"@ + host
            + "` to revoke (state → `failed`)"@
    }
}

/// A claim is reaped: at once where no agent is known, else once access was
/// revoked on its agent.
pub open spec fn reap(c: ClaimView, unsettled: bool, secs: nat) -> (ClaimView, TickView) {
    let host = option_text(c.agent_hostname);
    let note = reap_note(c, unsettled, secs);
    if host.len() == 0 {
        (reaped(c, unsettled), moved(note))
    } else {
        (c, TickView::WantRevoke { host, note, unsettled })
    }
}

/// The agent reports its owner.
pub open spec fn on_health(
    c: ClaimView,
    host: Seq<char>,
    owner: Seq<char>,
    health: HealthView,
) -> (ClaimView, TickView) {
    let reported = option_text(health.agent_owner);
    if reported != owner {
        (c, idle("agent_owner=`"@ + reported + "`; waiting for `"@ + owner + "`"@))
    } else {
        (
            ClaimView {
                state: ClaimState::Active,
                integrity: IntegrityView {
                    confidential_mode: health.confidential_mode,
                    taint_reasons: health.taint_reasons,
                },
                ..c
            },
            moved("dd-agent `"@ + host + "` reports agent_owner=`"@ + reported + "`"@),
        )
    }
}

/// What a reply makes of a claim and its tick; `grace` is how long a bind may
/// stay unsettled.
pub open spec fn next(grace: u64, c: ClaimView, tick: TickView, reply: ReplyView) -> (
    ClaimView,
    TickView,
) {
    match (tick, reply) {
        (TickView::WantTxs(Look::Invoice), ReplyView::Txs(Ok(txs))) => on_invoice_txs(c, txs),
        (TickView::WantTxs(Look::Payment), ReplyView::Txs(Ok(txs))) => (c, on_payment_txs(c, txs)),
        (TickView::WantTxs(Look::Settle), ReplyView::Txs(Ok(txs))) => (
            c,
            TickView::WantSettleTip(
                first_where(txs, is_tx(option_text(c.billing.last_payment_txid))),
            ),
        ),
        (TickView::WantTxs(Look::Settle), ReplyView::Txs(Err(_))) => (c, settled_ask(c)),
        (TickView::WantTxs(_), ReplyView::Txs(Err(e))) => (c, failed("btc list_address_txs"@, e)),
        (TickView::WantPaymentTip(tx), ReplyView::Tip(Ok(tip))) => on_payment_tip(c, tx, tip),
        (TickView::WantPaymentTip(_), ReplyView::Tip(Err(e))) => (
            c,
            failed("btc current_block_height"@, e),
        ),
        (TickView::WantSettleTip(tx), ReplyView::Tip(Ok(tip))) => if settles(c, tx, tip) {
            (
                unmarked(c),
                moved("optimistic 0-conf bind settled at required confs; cleared flag"@),
            )
        } else {
            (c, TickView::WantSettleClock)
        },
        (TickView::WantSettleTip(_), ReplyView::Tip(Err(_))) => (c, settled_ask(c)),
        (TickView::WantSettleClock, ReplyView::Clock(now)) => match c.billing.optimistic_bind_at {
            Some(bound_at) => if elapsed(now, bound_at@) < grace {
                (c, settled_ask(c))
            } else {
                reap(c, true, elapsed(now, bound_at@))
            },
            None => (c, settled_ask(c)),
        },
        (TickView::WantOverdueClock, ReplyView::Clock(now)) => match c.billing.paid_until {
            Some(paid_until) => if earlier(now, paid_until@) {
                (c, idle("active; no automatic transition"@))
            } else {
                reap(c, false, elapsed(now, paid_until@))
            },
            None => (c, idle("active; no automatic transition"@)),
        },
        (TickView::WantHealth { host, owner }, ReplyView::Health(Ok(health))) => on_health(
            c,
            host,
            owner,
            health,
        ),
        (TickView::WantHealth { .. }, ReplyView::Health(Err(e))) => (
            c,
            failed("dd-agent /health"@, e),
        ),
        (TickView::WantRevoke { host, note, unsettled }, ReplyView::Revoked(Ok(_))) => (
            reaped(c, unsettled),
            moved(note),
        ),
        (TickView::WantRevoke { .. }, ReplyView::Revoked(Err(e))) => (
            c,
            failed("dispatch_workflow reap"@, e),
        ),
        _ => (c, tick),
    }
}

// ── the functions ─────────────────────────────────────────────────

fn stay(note: &str) -> (t: Tick)
    ensures
        t@ == idle(note@),
{
    Tick::Done { advanced: false, note: note.to_owned() }
}

fn refuse(context: &str, error: &str) -> (t: Tick)
    ensures
        t@ == failed(context@, error@),
{
    Tick::Refused(upstream(context, error))
}

/// What a claim needs first.
pub fn tick_first(claim: &Claim) -> (t: Tick)
    ensures
        t@ == first_ask(claim@),
{
    match claim.state {
        ClaimState::InvoiceCreated => Tick::WantTxs(Look::Invoice),
        ClaimState::BtcMempoolSeen => if claim.billing.last_payment_txid.is_some() {
            Tick::WantTxs(Look::Payment)
        } else {
            stay("no last_payment_txid recorded")
        },
        ClaimState::OwnerUpdateDispatched | ClaimState::Active => {
            if claim.billing.optimistic_bind_at.is_none() {
                tick_settled(claim)
            } else if claim.billing.last_payment_txid.is_some() {
                Tick::WantTxs(Look::Settle)
            } else {
                Tick::WantSettleClock
            }
        },
        _ => {
            let mut note: String = "no automatic transition from `".to_owned();
            note.append(state_str(claim.state));
            note.append("`");
            Tick::Done { advanced: false, note }
        },
    }
}

fn tick_settled(claim: &Claim) -> (t: Tick)
    ensures
        t@ == settled_ask(claim@),
{
    if claim.state == ClaimState::Active {
        if claim.billing.paid_until.is_some() {
            return Tick::WantOverdueClock;
        }
        return stay("active; no automatic transition");
    }
    match (&claim.agent_hostname, &claim.customer_owner) {
        (None, _) => stay(
            "no agent_hostname on claim; the boot workflow has not written one back yet",
        ),
        (Some(_), None) => stay("claim has no customer_owner to match against agent_owner"),
        (Some(host), Some(owner)) => Tick::WantHealth { host: host.clone(), owner: owner.clone() },
    }
}

/// A payment of the exact amount moves an invoice on.
pub fn tick_invoice_created(claim: &mut Claim, txs: &Vec<AddressTx>) -> (t: Tick)
    ensures
        (final(claim)@, t@) == on_invoice_txs(old(claim)@, tx_views(txs@)),
{
    let needed: u64 = claim.btc.exact_amount_sats;
    match find_exact(txs, needed, &claim.billing.last_payment_txid) {
        None => {
            let mut note: String = "no tx paying exactly ".to_owned();
            note.append(decimal_text(needed).as_str());
            note.append(" sats to the invoice address yet");
            Tick::Done { advanced: false, note }
        },
        Some(tx) => {
            let mut note: String = "saw tx `".to_owned();
            note.append(tx.txid.as_str());
            note.append("` paying exactly ");
            note.append(decimal_text(tx.received_sats).as_str());
            note.append(" sats");
            claim.state = ClaimState::BtcMempoolSeen;
            claim.billing.last_payment_txid = Some(tx.txid);
            Tick::Done { advanced: true, note }
        },
    }
}

/// The recorded payment, found again.
fn tick_find_payment(claim: &Claim, txs: &Vec<AddressTx>) -> (t: Tick)
    ensures
        t@ == on_payment_txs(claim@, tx_views(txs@)),
{
    let txid: String = text_or_empty(&claim.billing.last_payment_txid);
    match find_tx(txs, txid.as_str()) {
        None => {
            let mut note: String = "tx `".to_owned();
            note.append(txid.as_str());
            note.append("` not visible to watcher");
            Tick::Done { advanced: false, note }
        },
        Some(tx) => Tick::WantPaymentTip(tx),
    }
}

/// A payment with enough confirmations moves a claim on.
pub fn tick_btc_mempool_seen(claim: &mut Claim, tx: &AddressTx, tip: u64) -> (t: Tick)
    ensures
        (final(claim)@, t@) == on_payment_tip(old(claim)@, tx@, tip),
        (tx.block_height matches Some(h) && h <= tip && tip - h + 1 <= u32::MAX) ==> {
            let deep = tip - tx.block_height->0 + 1 >= old(claim).btc.required_confirmations;
            &&& deep ==> final(claim).state == ClaimState::BtcConfirmed
            &&& !deep ==> *final(claim) == *old(claim)
        },
{
    let confs: u32 = tx.confirmations(tip);
    let txid: String = text_or_empty(&claim.billing.last_payment_txid);
    let mut note: String = "tx `".to_owned();
    note.append(txid.as_str());
    if confs < claim.btc.required_confirmations {
        note.append("` at ");
        note.append(decimal_text(confs as u64).as_str());
        note.append("/");
        note.append(decimal_text(claim.btc.required_confirmations as u64).as_str());
        note.append(" confs");
        Tick::Done { advanced: false, note }
    } else {
        note.append("` reached ");
        note.append(decimal_text(confs as u64).as_str());
        note.append(" conf");
        claim.state = ClaimState::BtcConfirmed;
        Tick::Done { advanced: true, note }
    }
}

/// An agent that reports the claim's owner makes the claim active.
pub fn tick_owner_update_dispatched(
    claim: &mut Claim,
    host: &str,
    owner: &str,
    health: DdHealth,
) -> (t: Tick)
    ensures
        (final(claim)@, t@) == on_health(old(claim)@, host@, owner@, health@),
{
    let reported: String = text_or_empty(&health.agent_owner);
    if !same_text(reported.as_str(), owner) {
        let mut note: String = "agent_owner=`".to_owned();
        note.append(reported.as_str());
        note.append("`; waiting for `");
        note.append(owner);
        note.append("`");
        return Tick::Done { advanced: false, note };
    }
    claim.state = ClaimState::Active;
    claim.integrity.confidential_mode = health.confidential_mode;
    claim.integrity.taint_reasons = health.taint_reasons;
    let mut note: String = "dd-agent `".to_owned();
    note.append(host);
    note.append("` reports agent_owner=`");
    note.append(reported.as_str());
    note.append("`");
    Tick::Done { advanced: true, note }
}

fn seconds_elapsed(now: &Timestamp, then: &Timestamp) -> (n: u64)
    ensures
        n == elapsed(now@, then@),
{
    let n: i64 = now.seconds_since(then);
    if n > 0 {
        n as u64
    } else {
        0
    }
}

fn mark_reaped(claim: &mut Claim, unsettled: bool)
    ensures
        final(claim)@ == reaped(old(claim)@, unsettled),
{
    claim.state = ClaimState::Failed;
    if unsettled {
        claim.billing.optimistic_bind_at = None;
    }
}

fn tick_reap(claim: &mut Claim, unsettled: bool, secs: u64) -> (t: Tick)
    ensures
        (final(claim)@, t@) == reap(old(claim)@, unsettled, secs as nat),
{
    let host: String = text_or_empty(&claim.agent_hostname);
    let mut note: String;
    if unsettled {
        note = "reaped: optimistic 0-conf bind unsettled after ".to_owned();
        note.append(decimal_text(secs).as_str());
        note.append("s; ");
    } else {
        note = "reaped: paid_until elapsed ".to_owned();
        note.append(decimal_text(secs).as_str());
        note.append("s ago; ");
    }
    if host.as_str().is_empty() {
        note.append(
            "no agent_hostname recorded so revoke skipped (state → `failed`, manual review)",
        );
        mark_reaped(claim, unsettled);
        return Tick::Done { advanced: true, note };
    }
    note.append("dispatched owner-update with empty agent_owner on `");
    note.append(host.as_str());
    note.append("` to revoke (state → `failed`)");
    Tick::WantRevoke { host, note, unsettled }
}

/// Settles a bind whose payment has its confirmations; any other needs the
/// time next. Where the height is not to be had, the bind stays as it is.
fn tick_settle_tip(claim: &mut Claim, tx: &Option<AddressTx>, tip: Result<u64, String>) -> (t: Tick)
    ensures
        (final(claim)@, t@) == next(
            0,
            old(claim)@,
            TickView::WantSettleTip(tx_option(*tx)),
            Reply::Tip(tip)@,
        ),
{
    let height: u64 = match tip {
        Ok(height) => height,
        Err(_) => return tick_settled(claim),
    };
    let settled: bool = match tx {
        Some(t) => t.confirmations(height) >= claim.btc.required_confirmations,
        None => false,
    };
    if settled {
        claim.billing.optimistic_bind_at = None;
        Tick::Done {
            advanced: true,
            note: "optimistic 0-conf bind settled at required confs; cleared flag".to_owned(),
        }
    } else {
        Tick::WantSettleClock
    }
}

/// Reaps a claim whose bind is still unsettled when its grace window is over;
/// any other goes on.
pub fn maybe_reap_or_settle_optimistic(claim: &mut Claim, grace_secs: u64, now: &Timestamp) -> (t:
    Tick)
    ensures
        (final(claim)@, t@) == next(
            grace_secs,
            old(claim)@,
            TickView::WantSettleClock,
            ReplyView::Clock(now@),
        ),
{
    match claim.billing.optimistic_bind_at {
        Some(bound_at) => {
            let secs: u64 = seconds_elapsed(now, &bound_at);
            if secs < grace_secs {
                tick_settled(claim)
            } else {
                tick_reap(claim, true, secs)
            }
        },
        None => tick_settled(claim),
    }
}

/// Reaps an active claim whose paid time is over.
pub fn maybe_reap_overdue(claim: &mut Claim, now: &Timestamp) -> (t: Tick)
    ensures
        (final(claim)@, t@) == next(
            0,
            old(claim)@,
            TickView::WantOverdueClock,
            ReplyView::Clock(now@),
        ),
{
    match claim.billing.paid_until {
        Some(paid_until) => {
            if now.is_before(&paid_until) {
                stay("active; no automatic transition")
            } else {
                let secs: u64 = seconds_elapsed(now, &paid_until);
                tick_reap(claim, false, secs)
            }
        },
        None => stay("active; no automatic transition"),
    }
}

/// Takes the reply to what `tick` asked for.
pub fn tick_step(cfg: &Config, claim: &mut Claim, tick: Tick, reply: Reply) -> (t: Tick)
    requires
        answers(tick@, reply@),
    ensures
        (final(claim)@, t@) == next(
            cfg.optimistic_bind_grace_secs,
            old(claim)@,
            tick@,
            reply@,
        ),
{
    match (tick, reply) {
        (Tick::WantTxs(Look::Invoice), Reply::Txs(Ok(txs))) => tick_invoice_created(claim, &txs),
        (Tick::WantTxs(Look::Payment), Reply::Txs(Ok(txs))) => tick_find_payment(claim, &txs),
        (Tick::WantTxs(Look::Settle), Reply::Txs(Ok(txs))) => {
            let txid: String = text_or_empty(&claim.billing.last_payment_txid);
            Tick::WantSettleTip(find_tx(&txs, txid.as_str()))
        },
        (Tick::WantTxs(Look::Settle), Reply::Txs(Err(_))) => tick_settled(claim),
        (Tick::WantTxs(_), Reply::Txs(Err(e))) => refuse("btc list_address_txs", e.as_str()),
        (Tick::WantPaymentTip(tx), Reply::Tip(Ok(tip))) => tick_btc_mempool_seen(claim, &tx, tip),
        (Tick::WantPaymentTip(_), Reply::Tip(Err(e))) => refuse(
            "btc current_block_height",
            e.as_str(),
        ),
        (Tick::WantSettleTip(tx), Reply::Tip(tip)) => tick_settle_tip(claim, &tx, tip),
        (Tick::WantSettleClock, Reply::Clock(now)) => maybe_reap_or_settle_optimistic(
            claim,
            cfg.optimistic_bind_grace_secs,
            &now,
        ),
        (Tick::WantOverdueClock, Reply::Clock(now)) => maybe_reap_overdue(claim, &now),
        (Tick::WantHealth { host, owner }, Reply::Health(Ok(health))) => {
            tick_owner_update_dispatched(claim, host.as_str(), owner.as_str(), health)
        },
        (Tick::WantHealth { .. }, Reply::Health(Err(e))) => refuse("dd-agent /health", e.as_str()),
        (Tick::WantRevoke { host: _, note, unsettled }, Reply::Revoked(Ok(_))) => {
            mark_reaped(claim, unsettled);
            Tick::Done { advanced: true, note }
        },
        (Tick::WantRevoke { .. }, Reply::Revoked(Err(e))) => refuse(
            "dispatch_workflow reap",
            e.as_str(),
        ),
        (tick, _) => tick,
    }
}

/// Takes the current time as the reply to what `tick` asked for.
pub fn tick_clock(cfg: &Config, claim: &mut Claim, tick: Tick) -> (t: Tick)
    requires
        tick is WantSettleClock || tick is WantOverdueClock,
    ensures
        exists|now: Moment|
            crate::time::representable(now) && (final(claim)@, t@) == next(
                cfg.optimistic_bind_grace_secs,
                old(claim)@,
                tick@,
                ReplyView::Clock(now),
            ),
{
    let now: Timestamp = Timestamp::now();
    let t: Tick = tick_step(cfg, claim, tick, Reply::Clock(now));
    assert(crate::time::representable(now@));
    t
}

/// Where an agent answers for its health. A host without a scheme is reached
/// over https.
pub open spec fn health_at(host: Seq<char>) -> Seq<char> {
    let base = trim_end_of(host, '/');
    if starts_with(base, "https://"@) || starts_with(base, "http://"@) {
        base + "/health"@
    } else {
        "https://"@ + base + "/health"@
    }
}

/// Where an agent answers for its health.
pub fn health_url(host: &str) -> (url: String)
    ensures
        url@ == health_at(host@),
{
    let base: &str = trimmed_end_of(host, '/');
    let schemed: bool = strip_prefix(base, "https://").is_some() || strip_prefix(
        base,
        "http://",
    ).is_some();
    let mut url: String = if schemed {
        base.to_owned()
    } else {
        let mut url: String = "https://".to_owned();
        url.append(base);
        url
    };
    url.append("/health");
    url
}

/// The workflow run that revokes access to a claim on an agent: an owner
/// update with an empty owner.
pub fn revoke_call(cfg: &Config, claim: &Claim, host: &str) -> (d: WorkflowDispatch)
    ensures
        d@ == owner_dispatch(cfg@, claim.claim_id@, host@, ""@),
{
    owner_update_call(cfg, claim.claim_id.as_str(), host, "")
}

// ── what a tick writes and answers ────────────────────────────────

/// A request to advance a claim.
#[derive(Clone, Debug)]
pub struct ClaimTickReq {
    /// The number of the claim's issue.
    pub issue_number: u64,
}

/// The answer to a request to advance a claim.
#[derive(Clone, Debug)]
pub struct ClaimTickResp {
    /// The state before.
    pub previous_state: String,
    /// The state now.
    pub new_state: String,
    /// Whether the claim changed.
    pub state_changed: bool,
    /// What is said of it.
    pub note: String,
    /// The claim as it now stands.
    pub claim: Claim,
}

/// What the event history says of a tick.
pub open spec fn tick_comment(before: ClaimState, after: ClaimState, note: Seq<char>) -> Seq<char> {
    "Tick: `"@ + state_name(before) + "` → `"@ + state_name(after) + "` ("@ + note + ")"@
}

/// What a tick that changed a claim writes: the body, which must succeed, then
/// labels and event history as far as they will.
pub open spec fn tick_plan(
    before: ClaimState,
    claim: ClaimView,
    note: Seq<char>,
    manifest: Seq<char>,
) -> Seq<PlannedView> {
    seq![
        must(StepView::WriteBody(issue_body(claim, manifest)), "github update_issue_body"@),
        may(StepView::RemoveLabel(state_label_text(before))),
        may(StepView::AddLabel(state_label_text(claim.state))),
        may(StepView::AddComment(tick_comment(before, claim.state, note))),
    ]
}

/// What a tick that changed a claim writes to its issue; the manifest is now
/// written `manifest`.
pub fn tick_steps(before: ClaimState, claim: &Claim, note: &str, manifest: &str) -> (steps: Vec<
    PlannedStep,
>)
    ensures
        plan_view(steps@) == tick_plan(before, claim@, note@, manifest@),
{
    let mut steps: Vec<PlannedStep> = no_steps();
    push_must(
        &mut steps,
        IssueStep::WriteBody(claim.to_issue_body(manifest)),
        "github update_issue_body",
    );
    push_may(&mut steps, IssueStep::RemoveLabel(label_of(before)));
    push_may(&mut steps, IssueStep::AddLabel(label_of(claim.state)));
    let mut comment: String = "Tick: `".to_owned();
    comment.append(state_str(before));
    comment.append("` → `");
    comment.append(state_str(claim.state));
    comment.append("` (");
    comment.append(note);
    comment.append(")");
    push_may(&mut steps, IssueStep::AddComment(comment));
    assert(plan_view(steps@) =~= tick_plan(before, claim@, note@, manifest@));
    steps
}

/// The answer once a tick is over.
pub fn claim_ticked(before: ClaimState, claim: Claim, advanced: bool, note: String) -> (resp:
    ClaimTickResp)
    ensures
        resp.previous_state@ == state_name(before),
        resp.new_state@ == state_name(claim.state),
        resp.state_changed == advanced,
        resp.note == note,
        resp.claim == claim,
{
    ClaimTickResp {
        previous_state: state_str(before).to_owned(),
        new_state: state_str(claim.state).to_owned(),
        state_changed: advanced,
        note,
        claim,
    }
}

// ── laws ──────────────────────────────────────────────────────────

/// How many more things a tick can ask for.
pub open spec fn asks_left(tick: TickView) -> nat {
    match tick {
        TickView::WantTxs(_) => 5,
        TickView::WantPaymentTip(_) => 4,
        TickView::WantSettleTip(_) => 4,
        TickView::WantSettleClock => 3,
        TickView::WantOverdueClock => 2,
        TickView::WantHealth { .. } => 2,
        TickView::WantRevoke { .. } => 1,
        TickView::Done { .. } => 0,
        TickView::Refused(_) => 0,
    }
}

/// A tick comes to an end: every reply leaves it fewer things to ask for.
pub proof fn law_tick_ends(grace: u64, c: ClaimView, tick: TickView, reply: ReplyView)
    requires
        answers(tick, reply),
    ensures
        asks_left(next(grace, c, tick, reply).1) < asks_left(tick),
{
}

/// A tick changes nothing before its end: a claim that a reply changed belongs
/// to a tick that is done and says so, and a tick that is refused or has
/// nothing to advance leaves the claim as it was.
pub proof fn law_tick_changes_only_at_its_end(
    grace: u64,
    c: ClaimView,
    tick: TickView,
    reply: ReplyView,
)
    requires
        answers(tick, reply),
    ensures
        next(grace, c, tick, reply).0 != c ==> (next(grace, c, tick, reply).1 matches TickView::Done {
            advanced: true,
            ..
        }),
{
}

/// A tick keeps who the claim is for and what it costs: identifier, schema,
/// mode, owner, agent, workload, price and paid time are not touched.
#[verifier::spinoff_prover]
#[verifier::rlimit(40)]
pub proof fn law_tick_keeps_the_deal(
    grace: u64,
    c: ClaimView,
    tick: TickView,
    reply: ReplyView,
)
    ensures
        ({
            let d = next(grace, c, tick, reply).0;
            &&& d.schema == c.schema
            &&& d.claim_id == c.claim_id
            &&& d.customer_owner == c.customer_owner
            &&& d.agent_id == c.agent_id
            &&& d.agent_hostname == c.agent_hostname
            &&& d.mode == c.mode
            &&& d.workload_repo == c.workload_repo
            &&& d.workload_ref == c.workload_ref
            &&& d.btc == c.btc
            &&& d.billing.paid_until == c.billing.paid_until
            &&& d.billing.uncredited_sats == c.billing.uncredited_sats
        }),
{
}

/// A tick belongs to a claim in this state.
pub open spec fn tick_of(s: ClaimState, tick: TickView) -> bool {
    match tick {
        TickView::WantTxs(Look::Invoice) => s == ClaimState::InvoiceCreated,
        TickView::WantTxs(Look::Payment) => s == ClaimState::BtcMempoolSeen,
        TickView::WantTxs(Look::Settle) => s == ClaimState::OwnerUpdateDispatched || s
            == ClaimState::Active,
        TickView::WantPaymentTip(_) => s == ClaimState::BtcMempoolSeen,
        TickView::WantSettleTip(_) => s == ClaimState::OwnerUpdateDispatched || s
            == ClaimState::Active,
        TickView::WantSettleClock => s == ClaimState::OwnerUpdateDispatched || s
            == ClaimState::Active,
        TickView::WantOverdueClock => s == ClaimState::Active,
        TickView::WantHealth { .. } => s == ClaimState::OwnerUpdateDispatched,
        TickView::WantRevoke { .. } => s == ClaimState::OwnerUpdateDispatched || s
            == ClaimState::Active,
        _ => true,
    }
}

/// The transitions that ticks make.
pub open spec fn tick_edge(from: ClaimState, to: ClaimState) -> bool {
    ||| from == ClaimState::InvoiceCreated && to == ClaimState::BtcMempoolSeen
    ||| from == ClaimState::BtcMempoolSeen && to == ClaimState::BtcConfirmed
    ||| from == ClaimState::OwnerUpdateDispatched && to == ClaimState::Active
    ||| from == ClaimState::OwnerUpdateDispatched && to == ClaimState::Failed
    ||| from == ClaimState::Active && to == ClaimState::Failed
}

/// Ticks move claims along a few edges only: an invoice to its payment, a
/// payment to its confirmation, a dispatched owner to an active claim, and
/// either of these last two to failure. What a tick asks for always fits the
/// claim's state.
pub proof fn law_tick_edges(grace: u64, c: ClaimView, tick: TickView, reply: ReplyView)
    requires
        answers(tick, reply),
        tick_of(c.state, tick),
    ensures
        tick_of(c.state, first_ask(c)),
        next(grace, c, tick, reply).0.state != c.state ==> tick_edge(
            c.state,
            next(grace, c, tick, reply).0.state,
        ),
        next(grace, c, tick, reply).0 == c ==> tick_of(c.state, next(grace, c, tick, reply).1),
{
}

/// Within the grace window a claim is never reaped for an unsettled bind: the
/// tick goes on as if there were no bind.
pub proof fn law_no_reap_within_grace(grace: u64, c: ClaimView, bound_at: Timestamp, now: Moment)
    requires
        c.billing.optimistic_bind_at == Some(bound_at),
        elapsed(now, bound_at@) < grace,
    ensures
        next(grace, c, TickView::WantSettleClock, ReplyView::Clock(now)) == (c, settled_ask(c)),
{
}

/// Once the grace window is over an unsettled bind is reaped: the claim fails
/// at once where it has no agent, else access on its agent is revoked first.
pub proof fn law_reap_after_grace(grace: u64, c: ClaimView, bound_at: Timestamp, now: Moment)
    requires
        c.billing.optimistic_bind_at == Some(bound_at),
        elapsed(now, bound_at@) >= grace,
    ensures
        ({
            let (d, t) = next(grace, c, TickView::WantSettleClock, ReplyView::Clock(now));
            if option_text(c.agent_hostname).len() == 0 {
                d.state == ClaimState::Failed && d.billing.optimistic_bind_at is None
            } else {
                d == c && t is WantRevoke && t->WantRevoke_host == c.agent_hostname->0 && next(
                    grace,
                    c,
                    t,
                    ReplyView::Revoked(Ok(())),
                ).0.state == ClaimState::Failed
            }
        }),
{
}

/// A watcher that fails neither settles a bind nor reaps it: the tick goes on
/// as if there were no bind.
pub proof fn law_watcher_failure_is_no_reap(
    grace: u64,
    c: ClaimView,
    e: Seq<char>,
    found: Option<TxView>,
)
    ensures
        next(grace, c, TickView::WantTxs(Look::Settle), ReplyView::Txs(Err(e))) == (
            c,
            settled_ask(c),
        ),
        next(grace, c, TickView::WantSettleTip(found), ReplyView::Tip(Err(e))) == (
            c,
            settled_ask(c),
        ),
{
}

/// An active claim is not reaped before its paid time is over, and is reaped
/// after it.
pub proof fn law_reap_when_overdue(grace: u64, c: ClaimView, paid_until: Timestamp, now: Moment)
    requires
        c.billing.paid_until == Some(paid_until),
    ensures
        ({
            let (d, t) = next(grace, c, TickView::WantOverdueClock, ReplyView::Clock(now));
            if earlier(now, paid_until@) {
                d == c && t == idle("active; no automatic transition"@)
            } else {
                d.state == ClaimState::Failed || t is WantRevoke
            }
        }),
{
}

/// A failed claim is not advanced by ticks, nor is any claim that waits for an
/// operator.
pub proof fn law_failed_is_terminal(c: ClaimView)
    requires
        c.state != ClaimState::InvoiceCreated,
        c.state != ClaimState::BtcMempoolSeen,
        c.state != ClaimState::OwnerUpdateDispatched,
        c.state != ClaimState::Active,
    ensures
        first_ask(c) matches TickView::Done { advanced: false, .. },
{
}

/// A payment of any other amount than the exact one is not the claim's: it
/// neither advances an invoice nor is recorded.
pub proof fn law_only_the_exact_amount_pays(grace: u64, c: ClaimView, txs: Seq<TxView>)
    requires
        c.state == ClaimState::InvoiceCreated,
        forall|i: int|
            0 <= i < txs.len() ==> (#[trigger] txs[i]).received_sats != c.btc.exact_amount_sats,
    ensures
        next(grace, c, TickView::WantTxs(Look::Invoice), ReplyView::Txs(Ok(txs))).0 == c,
{
    crate::btc::law_search_finds_the_first(
        txs,
        pays_exactly(c.btc.exact_amount_sats, c.billing.last_payment_txid),
    );
}

// ── laws of whole ticks ───────────────────────────────────────────

/// A tick that is given one reply after another, as long as they answer what it
/// asks for.
pub open spec fn run(grace: u64, c: ClaimView, tick: TickView, replies: Seq<ReplyView>) -> (
    ClaimView,
    TickView,
)
    decreases replies.len(),
{
    if replies.len() == 0 || !answers(tick, replies[0]) {
        (c, tick)
    } else {
        let (d, t) = next(grace, c, tick, replies[0]);
        run(grace, d, t, replies.subrange(1, replies.len() as int))
    }
}

/// At this time a claim is to be reaped: its bind is unsettled past the grace
/// window, or it is active past its paid time.
pub open spec fn reap_due(grace: u64, c: ClaimView, now: Moment) -> bool {
    ||| c.billing.optimistic_bind_at matches Some(t) && elapsed(now, t@) >= grace
    ||| c.billing.paid_until matches Some(t) && !earlier(now, t@)
}

/// A reply that tells a time at which the claim is to be reaped.
pub open spec fn tells_due(grace: u64, c: ClaimView, reply: ReplyView) -> bool {
    reply matches ReplyView::Clock(now) && reap_due(grace, c, now)
}

/// What one reply may do, in short.
#[verifier::spinoff_prover]
#[verifier::rlimit(40)]
proof fn lemma_one_reply(grace: u64, c: ClaimView, tick: TickView, reply: ReplyView)
    requires
        answers(tick, reply),
        tick_of(c.state, tick),
    ensures
        ({
            let (d, t) = next(grace, c, tick, reply);
            &&& d == c || (t matches TickView::Done { advanced: true, .. })
            &&& d == c ==> tick_of(c.state, t)
            &&& d.state != c.state ==> tick_edge(c.state, d.state)
            &&& d.state == ClaimState::Failed ==> tick is WantRevoke || tells_due(grace, c, reply)
            &&& t is WantRevoke ==> tells_due(grace, c, reply)
        }),
{
}

proof fn lemma_run(
    grace: u64,
    c: ClaimView,
    tick: TickView,
    replies: Seq<ReplyView>,
    told: bool,
)
    requires
        tick_of(c.state, tick),
        tick is WantRevoke ==> told,
    ensures
        ({
            let (d, t) = run(grace, c, tick, replies);
            &&& d == c || (t matches TickView::Done { advanced: true, .. })
            &&& d.state != c.state ==> tick_edge(c.state, d.state)
            &&& d.state == ClaimState::Failed && c.state != ClaimState::Failed ==> told || exists|
                i: int,
            |
                0 <= i < replies.len() && tells_due(grace, c, #[trigger] replies[i])
        }),
    decreases replies.len(),
{
    if replies.len() > 0 && answers(tick, replies[0]) {
        let (d, t) = next(grace, c, tick, replies[0]);
        let rest = replies.subrange(1, replies.len() as int);
        lemma_one_reply(grace, c, tick, replies[0]);
        let now_told = told || tells_due(grace, c, replies[0]);
        if d == c {
            lemma_run(grace, c, t, rest, now_told);
            if exists|i: int| 0 <= i < rest.len() && tells_due(grace, c, #[trigger] rest[i]) {
                let i = choose|i: int|
                    0 <= i < rest.len() && tells_due(grace, c, #[trigger] rest[i]);
                assert(replies[i + 1] == rest[i]);
            }
        } else {
            assert(run(grace, d, t, rest) == (d, t));
        }
    }
}

/// A whole tick, whatever it is told: the claim is as it was unless the tick is
/// done and says so, its state moves along the edges of ticks only, and it is
/// failed only after a clock told that it was to be reaped.
pub proof fn law_whole_tick(grace: u64, c: ClaimView, replies: Seq<ReplyView>)
    ensures
        ({
            let (d, t) = run(grace, c, first_ask(c), replies);
            &&& d == c || (t matches TickView::Done { advanced: true, .. })
            &&& d.state != c.state ==> tick_edge(c.state, d.state)
            &&& d.state == ClaimState::Failed && c.state != ClaimState::Failed ==> exists|i: int|
                0 <= i < replies.len() && tells_due(grace, c, #[trigger] replies[i])
        }),
{
    lemma_run(grace, c, first_ask(c), replies, false);
}

/// The watcher was asked and failed.
pub open spec fn watcher_failed(replies: Seq<ReplyView>) -> bool {
    &&& replies.len() > 0
    &&& match replies[0] {
        ReplyView::Txs(Err(_)) => true,
        ReplyView::Txs(Ok(_)) => replies.len() > 1 && (replies[1] matches ReplyView::Tip(Err(_))),
        _ => false,
    }
}

/// A reply that tells a time at which an active claim's paid time is over.
pub open spec fn tells_overdue(c: ClaimView, reply: ReplyView) -> bool {
    &&& c.state == ClaimState::Active
    &&& reply matches ReplyView::Clock(now)
    &&& c.billing.paid_until matches Some(t)
    &&& !earlier(now, t@)
}

/// A tick that is past the question of a bind.
pub open spec fn past_settling(tick: TickView) -> bool {
    !(tick is WantTxs) && !(tick is WantPaymentTip) && !(tick is WantSettleTip) && !(
    tick is WantSettleClock)
}

proof fn lemma_run_past_settling(
    grace: u64,
    c: ClaimView,
    tick: TickView,
    replies: Seq<ReplyView>,
    told: bool,
)
    requires
        tick_of(c.state, tick),
        past_settling(tick),
        tick is WantRevoke ==> told,
        c.state != ClaimState::Failed,
    ensures
        run(grace, c, tick, replies).0.state == ClaimState::Failed ==> told || exists|i: int|
            0 <= i < replies.len() && tells_overdue(c, #[trigger] replies[i]),
    decreases replies.len(),
{
    if replies.len() > 0 && answers(tick, replies[0]) {
        let (d, t) = next(grace, c, tick, replies[0]);
        let rest = replies.subrange(1, replies.len() as int);
        lemma_one_reply(grace, c, tick, replies[0]);
        if d == c {
            let now_told = told || tells_overdue(c, replies[0]);
            lemma_run_past_settling(grace, c, t, rest, now_told);
            if exists|i: int| 0 <= i < rest.len() && tells_overdue(c, #[trigger] rest[i]) {
                let i = choose|i: int| 0 <= i < rest.len() && tells_overdue(c, #[trigger] rest[i]);
                assert(replies[i + 1] == rest[i]);
            }
        } else {
            assert(run(grace, d, t, rest) == (d, t));
        }
    }
}

/// A watcher that fails cannot fail a customer: a tick whose watcher failed
/// fails a claim only where its paid time is over, however long its bind has
/// been unsettled.
pub proof fn law_watcher_failure_fails_nobody(grace: u64, c: ClaimView, replies: Seq<ReplyView>)
    requires
        watcher_failed(replies),
        c.state != ClaimState::Failed,
    ensures
        run(grace, c, first_ask(c), replies).0.state == ClaimState::Failed ==> exists|i: int|
            0 <= i < replies.len() && tells_overdue(c, #[trigger] replies[i]),
{
    let first = first_ask(c);
    if answers(first, replies[0]) {
        let (d, t) = next(grace, c, first, replies[0]);
        let rest = replies.subrange(1, replies.len() as int);
        lemma_one_reply(grace, c, first, replies[0]);
        if d != c {
            assert(run(grace, d, t, rest) == (d, t));
        } else if past_settling(t) {
            lemma_run_past_settling(grace, c, t, rest, false);
            if exists|i: int| 0 <= i < rest.len() && tells_overdue(c, #[trigger] rest[i]) {
                let i = choose|i: int| 0 <= i < rest.len() && tells_overdue(c, #[trigger] rest[i]);
                assert(replies[i + 1] == rest[i]);
            }
        } else {
            assert(rest[0] == replies[1]);
            let (d2, t2) = next(grace, c, t, rest[0]);
            let rest2 = rest.subrange(1, rest.len() as int);
            lemma_one_reply(grace, c, t, rest[0]);
            assert(run(grace, c, t, rest) == run(grace, d2, t2, rest2));
            lemma_run_past_settling(grace, c, t2, rest2, false);
            if exists|i: int| 0 <= i < rest2.len() && tells_overdue(c, #[trigger] rest2[i]) {
                let i = choose|i: int| 0 <= i < rest2.len() && tells_overdue(c, #[trigger] rest2[i]);
                assert(replies[i + 2] == rest2[i]);
            }
        }
    }
}

} // verus!
