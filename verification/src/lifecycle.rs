//! The orchestrator's rules: how claims move on while nobody calls a tool.
//!
//! Each pass looks at the open claims of one state. A function here decides
//! for one claim; the caller reads the issues and writes what was decided.

use crate::btc::{
    confirmations_at, drop_tx, find_enough, find_tx, first_where, is_tx, keep_since, landed_since,
    lemma_landed_since, lemma_without_tx, not_before, pays_enough, tx_views, without_tx, AddressTx,
    TxView,
};
use crate::claim::{
    issue_body, state_name, BillingView, Claim, ClaimMode, ClaimState, ClaimView,
};
use crate::config::Config;
use crate::github::Issue;
use crate::steps::{
    may, must, no_steps, plan_view, push_may, push_must, IssueStep, PlannedStep, PlannedView,
    StepView,
};
use crate::text::{decimal, decimal_text, option_text, option_view, text_or_empty, views};
use crate::time::{earlier, hours_later, representable, rfc3339_of, Moment, Timestamp};
use crate::tools::{slug, state_label_text};
use vstd::prelude::*;

verus! {

// ── labels ────────────────────────────────────────────────────────

/// The label of a state.
pub fn state_label(s: ClaimState) -> (label: &'static str)
    ensures
        label@ == state_label_text(s),
{
    proof {
        reveal_strlit("state:");
        match s {
            ClaimState::Requested => {
                reveal_strlit("requested");
                reveal_strlit("state:requested");
                assert("state:requested"@ =~= state_label_text(s));
            },
            ClaimState::InvoiceCreated => {
                reveal_strlit("invoice_created");
                reveal_strlit("state:invoice-created");
                assert("state:invoice-created"@ =~= state_label_text(s));
            },
            ClaimState::BtcMempoolSeen => {
                reveal_strlit("btc_mempool_seen");
                reveal_strlit("state:btc-mempool-seen");
                assert("state:btc-mempool-seen"@ =~= state_label_text(s));
            },
            ClaimState::NodeAssignmentStarted => {
                reveal_strlit("node_assignment_started");
                reveal_strlit("state:node-assignment-started");
                assert("state:node-assignment-started"@ =~= state_label_text(s));
            },
            ClaimState::OwnerUpdateDispatched => {
                reveal_strlit("owner_update_dispatched");
                reveal_strlit("state:owner-update-dispatched");
                assert("state:owner-update-dispatched"@ =~= state_label_text(s));
            },
            ClaimState::ActivePendingConfirmation => {
                reveal_strlit("active_pending_confirmation");
                reveal_strlit("state:active-pending-confirmation");
                assert("state:active-pending-confirmation"@ =~= state_label_text(s));
            },
            ClaimState::BtcConfirmed => {
                reveal_strlit("btc_confirmed");
                reveal_strlit("state:btc-confirmed");
                assert("state:btc-confirmed"@ =~= state_label_text(s));
            },
            ClaimState::Active => {
                reveal_strlit("active");
                reveal_strlit("state:active");
                assert("state:active"@ =~= state_label_text(s));
            },
            ClaimState::Overdue => {
                reveal_strlit("overdue");
                reveal_strlit("state:overdue");
                assert("state:overdue"@ =~= state_label_text(s));
            },
            ClaimState::Shutdown => {
                reveal_strlit("shutdown");
                reveal_strlit("state:shutdown");
                assert("state:shutdown"@ =~= state_label_text(s));
            },
            ClaimState::PaymentFailed => {
                reveal_strlit("payment_failed");
                reveal_strlit("state:payment-failed");
                assert("state:payment-failed"@ =~= state_label_text(s));
            },
            ClaimState::BootFailed => {
                reveal_strlit("boot_failed");
                reveal_strlit("state:boot-failed");
                assert("state:boot-failed"@ =~= state_label_text(s));
            },
            ClaimState::OwnerUpdateFailed => {
                reveal_strlit("owner_update_failed");
                reveal_strlit("state:owner-update-failed");
                assert("state:owner-update-failed"@ =~= state_label_text(s));
            },
            ClaimState::AttestationFailed => {
                reveal_strlit("attestation_failed");
                reveal_strlit("state:attestation-failed");
                assert("state:attestation-failed"@ =~= state_label_text(s));
            },
            ClaimState::ShutdownFailed => {
                reveal_strlit("shutdown_failed");
                reveal_strlit("state:shutdown-failed");
                assert("state:shutdown-failed"@ =~= state_label_text(s));
            },
            ClaimState::NodeFailed => {
                reveal_strlit("node_failed");
                reveal_strlit("state:node-failed");
                assert("state:node-failed"@ =~= state_label_text(s));
            },
            ClaimState::ManualReview => {
                reveal_strlit("manual_review");
                reveal_strlit("state:manual-review");
                assert("state:manual-review"@ =~= state_label_text(s));
            },
            ClaimState::Failed => {
                reveal_strlit("failed");
                reveal_strlit("state:failed");
                assert("state:failed"@ =~= state_label_text(s));
            },
        }
    }
    match s {
        ClaimState::Requested => "state:requested",
        ClaimState::InvoiceCreated => "state:invoice-created",
        ClaimState::BtcMempoolSeen => "state:btc-mempool-seen",
        ClaimState::NodeAssignmentStarted => "state:node-assignment-started",
        ClaimState::OwnerUpdateDispatched => "state:owner-update-dispatched",
        ClaimState::ActivePendingConfirmation => "state:active-pending-confirmation",
        ClaimState::BtcConfirmed => "state:btc-confirmed",
        ClaimState::Active => "state:active",
        ClaimState::Overdue => "state:overdue",
        ClaimState::Shutdown => "state:shutdown",
        ClaimState::PaymentFailed => "state:payment-failed",
        ClaimState::BootFailed => "state:boot-failed",
        ClaimState::OwnerUpdateFailed => "state:owner-update-failed",
        ClaimState::AttestationFailed => "state:attestation-failed",
        ClaimState::ShutdownFailed => "state:shutdown-failed",
        ClaimState::NodeFailed => "state:node-failed",
        ClaimState::ManualReview => "state:manual-review",
        ClaimState::Failed => "state:failed",
    }
}

/// No two states share a label.
pub proof fn law_state_labels_differ(a: ClaimState, b: ClaimState)
    requires
        state_label_text(a) == state_label_text(b),
    ensures
        a == b,
{
    reveal_strlit("requested");
    reveal_strlit("invoice_created");
    reveal_strlit("btc_mempool_seen");
    reveal_strlit("node_assignment_started");
    reveal_strlit("owner_update_dispatched");
    reveal_strlit("active_pending_confirmation");
    reveal_strlit("btc_confirmed");
    reveal_strlit("active");
    reveal_strlit("overdue");
    reveal_strlit("shutdown");
    reveal_strlit("payment_failed");
    reveal_strlit("boot_failed");
    reveal_strlit("owner_update_failed");
    reveal_strlit("attestation_failed");
    reveal_strlit("shutdown_failed");
    reveal_strlit("node_failed");
    reveal_strlit("manual_review");
    reveal_strlit("failed");
    reveal_strlit("state:");
    let x = state_label_text(a);
    let y = state_label_text(b);
    assert(x.subrange(6, x.len() as int) =~= slug(state_name(a)));
    assert(y.subrange(6, y.len() as int) =~= slug(state_name(b)));
    assert(slug(state_name(a)).len() == slug(state_name(b)).len());
    assert(slug(state_name(a))[0] == slug(state_name(b))[0]);
}

/// No two states share a name.
pub proof fn law_state_names_differ(a: ClaimState, b: ClaimState)
    requires
        state_name(a) == state_name(b),
    ensures
        a == b,
{
    law_state_labels_differ(a, b);
}

// ── crediting time ────────────────────────────────────────────────

/// Where a new block starts: now, or at the end of the time already paid for.
pub open spec fn credit_base(now: Moment, current: Option<Timestamp>) -> Moment {
    match current {
        Some(t) => if earlier(now, t@) {
            t@
        } else {
            now
        },
        None => now,
    }
}

/// The end of the paid time after one more 24-hour block.
pub fn credit_24h(now: Timestamp, current: Option<Timestamp>) -> (paid_until: Timestamp)
    requires
        representable(hours_later(credit_base(now@, current), 24)),
    ensures
        paid_until@ == hours_later(credit_base(now@, current), 24),
{
    let base: Timestamp = match current {
        Some(t) => if now.is_before(&t) {
            t
        } else {
            now
        },
        None => now,
    };
    base.plus_hours(24)
}

/// A time, where the calendar still has the end of a block that is credited
/// from it.
pub open spec fn creditable_at(clock: Timestamp) -> Option<Timestamp> {
    if representable(hours_later(clock@, 24)) {
        Some(clock)
    } else {
        None
    }
}

/// A time, where a block can still be credited from it.
pub fn creditable(clock: Timestamp) -> (now: Option<Timestamp>)
    ensures
        now == creditable_at(clock),
{
    if clock.can_add_hours(24) {
        Some(clock)
    } else {
        None
    }
}

/// The clock, where a block can still be credited from now: what
/// [`creditable`] makes of the time that the clock shows.
pub fn creditable_now() -> (now: Option<Timestamp>)
    ensures
        exists|clock: Timestamp|
            representable(clock@) && now == #[trigger] creditable_at(clock),
        now matches Some(t) ==> representable(t@) && representable(hours_later(t@, 24)),
{
    let clock: Timestamp = Timestamp::now();
    let now: Option<Timestamp> = creditable(clock);
    assert(representable(clock@) && now == creditable_at(clock));
    now
}

// ── the order of work ─────────────────────────────────────────────

/// The states that a pass looks at, in order.
pub fn scan_order() -> (states: Vec<ClaimState>)
    ensures
        states@ == seq![
            ClaimState::InvoiceCreated,
            ClaimState::BtcMempoolSeen,
            ClaimState::Active,
            ClaimState::NodeAssignmentStarted,
        ],
{
    let mut states: Vec<ClaimState> = Vec::new();
    states.push(ClaimState::InvoiceCreated);
    states.push(ClaimState::BtcMempoolSeen);
    states.push(ClaimState::Active);
    states.push(ClaimState::NodeAssignmentStarted);
    states
}

/// `issue` put behind the issues of `s` with no greater number, from the end.
pub open spec fn placed(s: Seq<Issue>, issue: Issue) -> Seq<Issue>
    decreases s.len(),
{
    if s.len() > 0 && s.last().number > issue.number {
        placed(s.drop_last(), issue).push(s.last())
    } else {
        s.push(issue)
    }
}

/// The issues by number; issues with the same number keep their order.
pub open spec fn by_number(s: Seq<Issue>) -> Seq<Issue>
    decreases s.len(),
{
    if s.len() == 0 {
        s
    } else {
        placed(by_number(s.drop_last()), s.last())
    }
}

/// The place that [`placed`] gives an issue.
proof fn lemma_placed(s: Seq<Issue>, issue: Issue, k: int)
    requires
        0 <= k <= s.len(),
        k > 0 ==> s[k - 1].number <= issue.number,
        forall|j: int| k <= j < s.len() ==> (#[trigger] s[j]).number > issue.number,
    ensures
        placed(s, issue) == s.insert(k, issue),
    decreases s.len(),
{
    if k < s.len() {
        assert(s[s.len() - 1].number > issue.number);
        assert forall|j: int| k <= j < s.drop_last().len() implies (#[trigger] s.drop_last()[j]).number
            > issue.number by {
            assert(s.drop_last()[j] == s[j]);
        }
        lemma_placed(s.drop_last(), issue, k);
        assert(s.drop_last().insert(k, issue).push(s.last()) =~= s.insert(k, issue));
    } else {
        assert(s.push(issue) =~= s.insert(k, issue));
    }
}

/// The issues by number, oldest first.
pub fn oldest_first(issues: Vec<Issue>) -> (sorted: Vec<Issue>)
    ensures
        sorted@ == by_number(issues@),
{
    let ghost all = issues@;
    let mut rest: Vec<Issue> = issues;
    let mut sorted: Vec<Issue> = Vec::new();
    assert(by_number(all.take(0)) =~= Seq::<Issue>::empty());
    assert(all.subrange(0, all.len() as int) =~= all);
    while rest.len() > 0
        invariant
            rest.len() <= all.len(),
            rest@ == all.subrange(all.len() - rest@.len(), all.len() as int),
            sorted@ == by_number(all.take(all.len() - rest@.len())),
        decreases rest.len(),
    {
        let ghost n = all.len() - rest@.len();
        let issue: Issue = rest.remove(0);
        proof {
            assert(issue == all[n]);
            assert(rest@ =~= all.subrange(n + 1, all.len() as int));
            assert(all.take(n + 1).drop_last() =~= all.take(n));
        }
        let mut k: usize = sorted.len();
        while k > 0 && sorted[k - 1].number > issue.number
            invariant
                k <= sorted.len(),
                forall|j: int| k <= j < sorted.len() ==> (#[trigger] sorted@[j]).number > issue.number,
            decreases k,
        {
            k = k - 1;
        }
        proof {
            lemma_placed(sorted@, issue, k as int);
        }
        sorted.insert(k, issue);
    }
    assert(all.take(all.len() as int) =~= all);
    sorted
}

/// Numbers do not fall along the list.
pub open spec fn ascending(s: Seq<Issue>) -> bool {
    forall|i: int, j: int| 0 <= i <= j < s.len() ==> (#[trigger] s[i]).number <= (#[trigger] s[j]).number
}

proof fn lemma_placed_keeps_order(s: Seq<Issue>, issue: Issue)
    requires
        ascending(s),
    ensures
        ascending(placed(s, issue)),
        placed(s, issue).to_multiset() == s.to_multiset().insert(issue),
        forall|i: int|
            0 <= i < placed(s, issue).len() ==> (#[trigger] placed(s, issue)[i]) == issue
                || s.contains(placed(s, issue)[i]),
    decreases s.len(),
{
    broadcast use vstd::seq_lib::group_to_multiset_ensures;

    let p = placed(s, issue);
    if s.len() > 0 && s.last().number > issue.number {
        let front = s.drop_last();
        let q = placed(front, issue);
        lemma_placed_keeps_order(front, issue);
        assert(front.push(s.last()) =~= s);
        assert(p.to_multiset() =~= s.to_multiset().insert(issue));
        assert forall|i: int| 0 <= i < p.len() implies (#[trigger] p[i]) == issue || s.contains(
            p[i],
        ) by {
            if i < q.len() {
                if q[i] != issue {
                    let m = choose|m: int| 0 <= m < front.len() && front[m] == q[i];
                    assert(s[m] == p[i]);
                }
            } else {
                assert(s[s.len() - 1] == p[i]);
            }
        }
        assert forall|i: int, j: int| 0 <= i <= j < p.len() implies (#[trigger] p[i]).number <= (
        #[trigger] p[j]).number by {
            if j == q.len() && i < j {
                if q[i] != issue {
                    let m = choose|m: int| 0 <= m < front.len() && front[m] == q[i];
                    assert(s[m].number <= s[s.len() - 1].number);
                }
            }
        }
    } else {
        assert(p.to_multiset() =~= s.to_multiset().insert(issue));
        assert forall|i: int| 0 <= i < p.len() implies (#[trigger] p[i]) == issue || s.contains(
            p[i],
        ) by {
            if i < s.len() {
                assert(s[i] == p[i]);
            }
        }
    }
}

/// Oldest first: the numbers ascend, and no issue is lost or doubled.
pub proof fn law_oldest_first(s: Seq<Issue>)
    ensures
        ascending(by_number(s)),
        by_number(s).to_multiset() == s.to_multiset(),
    decreases s.len(),
{
    broadcast use vstd::seq_lib::group_to_multiset_ensures;

    if s.len() > 0 {
        law_oldest_first(s.drop_last());
        lemma_placed_keeps_order(by_number(s.drop_last()), s.last());
        assert(s.drop_last().push(s.last()) =~= s);
    }
}

// ── a pass ────────────────────────────────────────────────────────

/// The open issues that bear the label of a state.
#[derive(Clone, Debug)]
pub struct Listing {
    /// The state.
    pub state: ClaimState,
    /// The issues.
    pub issues: Vec<Issue>,
}

/// The issues that are listed under a state.
pub open spec fn listed_under(listings: Seq<Listing>, state: ClaimState) -> Seq<Issue>
    decreases listings.len(),
{
    if listings.len() == 0 {
        Seq::empty()
    } else {
        let front = listed_under(listings.drop_last(), state);
        if listings.last().state == state {
            front + listings.last().issues@
        } else {
            front
        }
    }
}

/// What a pass works on: the issues of each state that it looks at, in the
/// order of [`scan_order`], those that wait for a payment oldest first.
pub open spec fn pass_work(listings: Seq<Listing>) -> Seq<(ClaimState, Seq<Issue>)> {
    seq![
        (
            ClaimState::InvoiceCreated,
            by_number(listed_under(listings, ClaimState::InvoiceCreated)),
        ),
        (ClaimState::BtcMempoolSeen, listed_under(listings, ClaimState::BtcMempoolSeen)),
        (ClaimState::Active, listed_under(listings, ClaimState::Active)),
        (
            ClaimState::NodeAssignmentStarted,
            listed_under(listings, ClaimState::NodeAssignmentStarted),
        ),
    ]
}

/// The views of what a pass works on.
pub open spec fn work_views(work: Seq<Listing>) -> Seq<(ClaimState, Seq<Issue>)> {
    Seq::new(work.len(), |i: int| (work[i].state, work[i].issues@))
}

/// The payments that claims have recorded.
pub open spec fn recorded_payments(claims: Seq<ClaimView>) -> Seq<Seq<char>>
    decreases claims.len(),
{
    if claims.len() == 0 {
        Seq::empty()
    } else {
        let front = recorded_payments(claims.drop_last());
        match claims.last().billing.last_payment_txid {
            Some(txid) => front.push(txid),
            None => front,
        }
    }
}

/// What a pass does.
#[derive(Clone, Debug)]
pub struct Pass {
    /// What it works on, in order.
    pub work: Vec<Listing>,
    /// The payments that open claims have recorded, which are nobody else's.
    pub recorded: Vec<String>,
}

/// Plans a pass. `listings` holds the issues of the states that it looks at, as
/// they stood before it, and `open` every open claim.
pub fn plan_pass(listings: Vec<Listing>, open: &Vec<Claim>) -> (pass: Pass)
    ensures
        work_views(pass.work@) == pass_work(listings@),
        views(pass.recorded@) == recorded_payments(claim_views(open@)),
{
    let work: Vec<Listing> = order_work(listings);
    let recorded: Vec<String> = payments_of(open);
    Pass { work, recorded }
}

fn order_work(listings: Vec<Listing>) -> (work: Vec<Listing>)
    ensures
        work_views(work@) == pass_work(listings@),
{
    let ghost all = listings@;
    let mut rest: Vec<Listing> = listings;
    let mut waiting: Vec<Issue> = Vec::new();
    let mut seen: Vec<Issue> = Vec::new();
    let mut active: Vec<Issue> = Vec::new();
    let mut assigned: Vec<Issue> = Vec::new();
    assert(all.subrange(0, all.len() as int) =~= all);
    while rest.len() > 0
        invariant
            rest.len() <= all.len(),
            rest@ == all.subrange(all.len() - rest@.len(), all.len() as int),
            waiting@ == listed_under(
                all.take(all.len() - rest@.len()),
                ClaimState::InvoiceCreated,
            ),
            seen@ == listed_under(all.take(all.len() - rest@.len()), ClaimState::BtcMempoolSeen),
            active@ == listed_under(all.take(all.len() - rest@.len()), ClaimState::Active),
            assigned@ == listed_under(
                all.take(all.len() - rest@.len()),
                ClaimState::NodeAssignmentStarted,
            ),
        decreases rest.len(),
    {
        let ghost n = all.len() - rest@.len();
        let listing: Listing = rest.remove(0);
        proof {
            assert(listing == all[n]);
            assert(rest@ =~= all.subrange(n + 1, all.len() as int));
            assert(all.take(n + 1).drop_last() =~= all.take(n));
        }
        let mut issues: Vec<Issue> = listing.issues;
        match listing.state {
            ClaimState::InvoiceCreated => waiting.append(&mut issues),
            ClaimState::BtcMempoolSeen => seen.append(&mut issues),
            ClaimState::Active => active.append(&mut issues),
            ClaimState::NodeAssignmentStarted => assigned.append(&mut issues),
            _ => {},
        }
    }
    assert(all.take(all.len() as int) =~= all);
    let mut work: Vec<Listing> = Vec::new();
    work.push(Listing { state: ClaimState::InvoiceCreated, issues: oldest_first(waiting) });
    work.push(Listing { state: ClaimState::BtcMempoolSeen, issues: seen });
    work.push(Listing { state: ClaimState::Active, issues: active });
    work.push(Listing { state: ClaimState::NodeAssignmentStarted, issues: assigned });
    assert(work_views(work@) =~= pass_work(all));
    work
}

fn payments_of(claims: &Vec<Claim>) -> (recorded: Vec<String>)
    ensures
        views(recorded@) == recorded_payments(claim_views(claims@)),
{
    let ghost all = claim_views(claims@);
    let mut recorded: Vec<String> = Vec::new();
    let mut i: usize = 0;
    assert(views(recorded@) =~= recorded_payments(all.take(0)));
    while i < claims.len()
        invariant
            i <= claims.len(),
            all == claim_views(claims@),
            views(recorded@) == recorded_payments(all.take(i as int)),
        decreases claims.len() - i,
    {
        let ghost before = recorded@;
        proof {
            assert(all.take(i + 1).drop_last() =~= all.take(i as int));
            assert(all.take(i + 1).last() == claims@[i as int]@);
        }
        if let Some(txid) = &claims[i].billing.last_payment_txid {
            recorded.push(txid.clone());
            assert(views(recorded@) =~= views(before).push(txid@));
        }
        i = i + 1;
    }
    assert(all.take(all.len() as int) =~= all);
    recorded
}

/// How often an issue occurs in a list.
pub open spec fn times(s: Seq<Issue>, number: u64) -> nat
    decreases s.len(),
{
    if s.len() == 0 {
        0
    } else {
        times(s.drop_last(), number) + (if s.last().number == number {
            1nat
        } else {
            0nat
        })
    }
}

/// A pass looks at claims in this state.
pub open spec fn scanned(state: ClaimState) -> bool {
    ||| state == ClaimState::InvoiceCreated
    ||| state == ClaimState::BtcMempoolSeen
    ||| state == ClaimState::Active
    ||| state == ClaimState::NodeAssignmentStarted
}

/// How often an issue is listed under the states that a pass looks at.
pub open spec fn times_listed(listings: Seq<Listing>, number: u64) -> nat
    decreases listings.len(),
{
    if listings.len() == 0 {
        0
    } else {
        times_listed(listings.drop_last(), number) + (if scanned(listings.last().state) {
            times(listings.last().issues@, number)
        } else {
            0
        })
    }
}

/// How often a pass works on an issue.
pub open spec fn times_worked(work: Seq<(ClaimState, Seq<Issue>)>, number: u64) -> nat
    decreases work.len(),
{
    if work.len() == 0 {
        0
    } else {
        times_worked(work.drop_last(), number) + times(work.last().1, number)
    }
}

proof fn lemma_times_push(s: Seq<Issue>, issue: Issue, number: u64)
    ensures
        times(s.push(issue), number) == times(s, number) + (if issue.number == number {
            1nat
        } else {
            0nat
        }),
{
    assert(s.push(issue).drop_last() =~= s);
}

proof fn lemma_times_add(a: Seq<Issue>, b: Seq<Issue>, number: u64)
    ensures
        times(a + b, number) == times(a, number) + times(b, number),
    decreases b.len(),
{
    if b.len() == 0 {
        assert(a + b =~= a);
    } else {
        lemma_times_add(a, b.drop_last(), number);
        assert((a + b).drop_last() =~= a + b.drop_last());
    }
}

proof fn lemma_times_placed(s: Seq<Issue>, issue: Issue, number: u64)
    ensures
        times(placed(s, issue), number) == times(s.push(issue), number),
    decreases s.len(),
{
    lemma_times_push(s, issue, number);
    if s.len() > 0 && s.last().number > issue.number {
        let front = s.drop_last();
        lemma_times_placed(front, issue, number);
        lemma_times_push(front, issue, number);
        lemma_times_push(placed(front, issue), s.last(), number);
    }
}

proof fn lemma_times_sorted(s: Seq<Issue>, number: u64)
    ensures
        times(by_number(s), number) == times(s, number),
    decreases s.len(),
{
    if s.len() > 0 {
        let front = s.drop_last();
        lemma_times_sorted(front, number);
        lemma_times_placed(by_number(front), s.last(), number);
        lemma_times_push(by_number(front), s.last(), number);
    }
}

proof fn lemma_times_listed(listings: Seq<Listing>, number: u64)
    ensures
        times_listed(listings, number) == times(
            listed_under(listings, ClaimState::InvoiceCreated),
            number,
        ) + times(listed_under(listings, ClaimState::BtcMempoolSeen), number) + times(
            listed_under(listings, ClaimState::Active),
            number,
        ) + times(listed_under(listings, ClaimState::NodeAssignmentStarted), number),
    decreases listings.len(),
{
    if listings.len() > 0 {
        let front = listings.drop_last();
        let last = listings.last();
        lemma_times_listed(front, number);
        lemma_times_add(listed_under(front, last.state), last.issues@, number);
    }
}

/// A pass works on an issue exactly as often as it was listed, and under the
/// states that it was listed under. So an issue that is listed once is worked
/// on once, and its claim makes one transition at most.
pub proof fn law_one_transition_per_pass(listings: Seq<Listing>, number: u64)
    ensures
        times_worked(pass_work(listings), number) == times_listed(listings, number),
        forall|i: int|
            0 <= i < pass_work(listings).len() ==> times(
                (#[trigger] pass_work(listings)[i]).1,
                number,
            ) == times(listed_under(listings, pass_work(listings)[i].0), number),
{
    let work = pass_work(listings);
    lemma_times_listed(listings, number);
    lemma_times_sorted(listed_under(listings, ClaimState::InvoiceCreated), number);
    assert(work.drop_last().drop_last().drop_last().drop_last() =~= Seq::empty());
    reveal_with_fuel(times_worked, 5);
}

// ── invoice_created ───────────────────────────────────────────────

/// A claim whose payment was seen.
pub open spec fn seen_claim(c: ClaimView, txid: Seq<char>) -> ClaimView {
    ClaimView {
        state: ClaimState::BtcMempoolSeen,
        billing: BillingView { last_payment_txid: Some(txid), ..c.billing },
        ..c
    }
}

/// What the event history says of a payment.
pub open spec fn seen_comment(tx: TxView) -> Seq<char> {
    "Saw payment of "@ + decimal(tx.received_sats as nat) + " sats on tx `"@ + tx.txid
        + "` — proceeding to confirmation watch."@
}

/// Attributes a payment of at least the list price, of those on offer, to a
/// claim that waits for one. Returns what the event history says of it; without a payment the claim
/// stays as it is.
pub fn process_invoice_created(claim: &mut Claim, txs: &Vec<AddressTx>) -> (comment: Option<String>)
    ensures
        match first_where(
            tx_views(txs@),
            pays_enough(
                old(claim).btc.price_per_24h_sats,
                option_view(old(claim).billing.last_payment_txid),
            ),
        ) {
            Some(tx) => comment is Some && comment->0@ == seen_comment(tx) && final(claim)@
                == seen_claim(old(claim)@, tx.txid),
            None => comment is None && *final(claim) == *old(claim),
        },
        comment is Some <==> exists|i: int|
            0 <= i < txs@.len() && (#[trigger] txs@[i]).received_sats
                >= old(claim).btc.price_per_24h_sats && option_view(
                old(claim).billing.last_payment_txid,
            ) != Some(txs@[i].txid@),
{
    proof {
        let price = claim.btc.price_per_24h_sats;
        let seen = option_view(claim.billing.last_payment_txid);
        let all = tx_views(txs@);
        let wanted = pays_enough(price, seen);
        crate::btc::law_search_finds_the_first(all, wanted);
        assert forall|i: int| 0 <= i < txs@.len() implies #[trigger] txs@[i]@ == all[i] by {}
        assert forall|i: int|
            0 <= i < txs@.len() && (#[trigger] txs@[i]).received_sats >= price && seen != Some(
                txs@[i].txid@,
            ) implies wanted(all[i]) by {
            assert(all[i] == txs@[i]@);
        }
        if first_where(all, wanted) is Some {
            let t = first_where(all, wanted)->0;
            let k = choose|k: int| 0 <= k < all.len() && all[k] == t;
            assert(wanted(all[k]));
            assert(txs@[k]@ == all[k]);
        }
    }
    match find_enough(txs, claim.btc.price_per_24h_sats, &claim.billing.last_payment_txid) {
        None => None,
        Some(tx) => {
            let mut comment: String = "Saw payment of ".to_owned();
            comment.append(decimal_text(tx.received_sats).as_str());
            comment.append(" sats on tx `");
            comment.append(tx.txid.as_str());
            comment.append("` — proceeding to confirmation watch.");
            claim.state = ClaimState::BtcMempoolSeen;
            claim.billing.last_payment_txid = Some(tx.txid);
            Some(comment)
        },
    }
}

/// The views of a list of claims.
pub open spec fn claim_views(claims: Seq<Claim>) -> Seq<ClaimView> {
    Seq::new(claims.len(), |i: int| claims[i]@)
}

/// The transactions of a list that are none of `recorded`.
pub open spec fn unclaimed_txs(txs: Seq<TxView>, recorded: Seq<Seq<char>>) -> Seq<TxView>
    decreases recorded.len(),
{
    if recorded.len() == 0 {
        txs
    } else {
        without_tx(unclaimed_txs(txs, recorded.drop_last()), recorded.last())
    }
}

/// The transactions of a list that are none of `recorded`.
pub fn unclaimed(txs: Vec<AddressTx>, recorded: &Vec<String>) -> (left: Vec<AddressTx>)
    ensures
        tx_views(left@) == unclaimed_txs(tx_views(txs@), views(recorded@)),
{
    let ghost all = views(recorded@);
    let ghost offered = tx_views(txs@);
    let mut left: Vec<AddressTx> = txs;
    let mut i: usize = 0;
    while i < recorded.len()
        invariant
            i <= recorded.len(),
            all == views(recorded@),
            tx_views(left@) == unclaimed_txs(offered, all.take(i as int)),
        decreases recorded.len() - i,
    {
        proof {
            assert(all.take(i + 1).drop_last() =~= all.take(i as int));
            assert(all.take(i + 1).last() == recorded@[i as int]@);
        }
        left = drop_tx(&left, recorded[i].as_str());
        i = i + 1;
    }
    assert(all.take(all.len() as int) =~= all);
    left
}

/// What becomes of one claim after another, each with the second at which its
/// issue was opened: each takes the first payment that is enough for it and
/// was not mined before its issue was opened, and what it took is not offered
/// to the claims behind it.
pub open spec fn attributed(waiting: Seq<(ClaimView, u64)>, txs: Seq<TxView>) -> Seq<
    (ClaimView, Option<Seq<char>>),
>
    decreases waiting.len(),
{
    if waiting.len() == 0 {
        Seq::empty()
    } else {
        let (c, opened) = waiting[0];
        let rest = waiting.subrange(1, waiting.len() as int);
        match first_where(
            landed_since(txs, opened),
            pays_enough(c.btc.price_per_24h_sats, c.billing.last_payment_txid),
        ) {
            Some(tx) => seq![(seen_claim(c, tx.txid), Some(seen_comment(tx)))] + attributed(
                rest,
                without_tx(txs, tx.txid),
            ),
            None => seq![(c, None)] + attributed(rest, txs),
        }
    }
}

/// The views of claims that wait, each with the second at which its issue was
/// opened.
pub open spec fn waiting_views(waiting: Seq<(Claim, u64)>) -> Seq<(ClaimView, u64)> {
    Seq::new(waiting.len(), |i: int| (waiting[i].0@, waiting[i].1))
}

/// The views of claims and of what the event history says of each.
pub open spec fn outcome_views(outcomes: Seq<(Claim, Option<String>)>) -> Seq<
    (ClaimView, Option<Seq<char>>),
> {
    Seq::new(outcomes.len(), |i: int| (outcomes[i].0@, option_view(outcomes[i].1)))
}

/// Attributes payments to claims that wait for one, in their order. Each comes
/// with the second at which its issue was opened, and a payment that was mined
/// before counts for none of it. Each comes back with what the event history
/// says of it.
pub fn attribute_payments_since(waiting: Vec<(Claim, u64)>, txs: Vec<AddressTx>) -> (outcomes: Vec<
    (Claim, Option<String>),
>)
    ensures
        outcome_views(outcomes@) == attributed(waiting_views(waiting@), tx_views(txs@)),
{
    let ghost whole = attributed(waiting_views(waiting@), tx_views(txs@));
    let mut rest: Vec<(Claim, u64)> = waiting;
    let mut offered: Vec<AddressTx> = txs;
    let mut outcomes: Vec<(Claim, Option<String>)> = Vec::new();
    assert(outcome_views(outcomes@) + whole =~= whole);
    while rest.len() > 0
        invariant
            outcome_views(outcomes@) + attributed(waiting_views(rest@), tx_views(offered@))
                == whole,
        decreases rest.len(),
    {
        let ghost now_waiting = waiting_views(rest@);
        let ghost now_offered = tx_views(offered@);
        let ghost before = outcome_views(outcomes@);
        let (first, opened): (Claim, u64) = rest.remove(0);
        let mut claim: Claim = first;
        assert((claim@, opened) == now_waiting[0]);
        assert(waiting_views(rest@) =~= now_waiting.subrange(1, now_waiting.len() as int));
        let recent: Vec<AddressTx> = keep_since(&offered, opened);
        let comment: Option<String> = process_invoice_created(&mut claim, &recent);
        if comment.is_some() {
            if let Some(txid) = &claim.billing.last_payment_txid {
                offered = drop_tx(&offered, txid.as_str());
            }
        }
        let ghost step = (claim@, option_view(comment));
        outcomes.push((claim, comment));
        proof {
            let tail = attributed(waiting_views(rest@), tx_views(offered@));
            assert(attributed(now_waiting, now_offered) =~= seq![step] + tail);
            assert(outcome_views(outcomes@) =~= before.push(step));
            assert(before + (seq![step] + tail) =~= before.push(step) + tail);
        }
    }
    assert(outcome_views(outcomes@) + attributed(waiting_views(rest@), tx_views(offered@))
        =~= outcome_views(outcomes@));
    outcomes
}

// ── btc_mempool_seen ──────────────────────────────────────────────

/// The confirmations of a claim's recorded payment, where it is visible.
pub open spec fn payment_confirmations(c: ClaimView, txs: Seq<TxView>, tip: u64) -> Option<int> {
    match c.billing.last_payment_txid {
        None => None,
        Some(txid) => match first_where(txs, is_tx(txid)) {
            None => None,
            Some(tx) => Some(confirmations_at(tx.block_height, tip)),
        },
    }
}

/// The recorded payment has its confirmations.
pub open spec fn payment_confirmed(c: ClaimView, txs: Seq<TxView>, tip: u64) -> bool {
    payment_confirmations(c, txs, tip) matches Some(n) && n >= c.btc.required_confirmations
}

/// The confirmations of a claim's recorded payment, once they are enough.
pub fn settled_confirmations(claim: &Claim, txs: &Vec<AddressTx>, tip: u64) -> (confs: Option<u32>)
    ensures
        match confs {
            Some(n) => payment_confirmed(claim@, tx_views(txs@), tip) && payment_confirmations(
                claim@,
                tx_views(txs@),
                tip,
            ) == Some(n as int),
            None => !payment_confirmed(claim@, tx_views(txs@), tip),
        },
{
    let txid: String = match &claim.billing.last_payment_txid {
        Some(t) => t.clone(),
        None => return None,
    };
    let tx: AddressTx = match find_tx(txs, txid.as_str()) {
        Some(t) => t,
        None => return None,
    };
    let confs: u32 = tx.confirmations(tip);
    if confs < claim.btc.required_confirmations {
        None
    } else {
        Some(confs)
    }
}

/// What the event history says of a confirmed payment.
pub open spec fn credited_comment(txid: Seq<char>, confs: nat, paid_until: Moment) -> Seq<char> {
    "Tx `"@ + txid + "` reached "@ + decimal(confs) + " conf — claim active until `"@ + rfc3339_of(
        paid_until,
    ) + "`."@
}

/// Credits a block to a claim whose payment has its confirmations, and makes
/// it active. Returns what the event history says of it; any other claim stays
/// as it is.
pub fn process_btc_mempool_seen(
    claim: &mut Claim,
    txs: &Vec<AddressTx>,
    tip: u64,
    now: &Timestamp,
) -> (comment: Option<String>)
    requires
        payment_confirmed(old(claim)@, tx_views(txs@), tip) ==> representable(
            hours_later(credit_base(now@, old(claim).billing.paid_until), 24),
        ),
    ensures
        if payment_confirmed(old(claim)@, tx_views(txs@), tip) {
            let c = old(claim)@;
            let until = hours_later(credit_base(now@, c.billing.paid_until), 24);
            &&& comment is Some
            &&& comment->0@ == credited_comment(
                c.billing.last_payment_txid->0,
                payment_confirmations(c, tx_views(txs@), tip)->0 as nat,
                until,
            )
            &&& final(claim).billing.paid_until is Some
            &&& final(claim).billing.paid_until->0@ == until
            &&& final(claim)@ == (ClaimView {
                state: ClaimState::Active,
                billing: BillingView {
                    paid_until: final(claim).billing.paid_until,
                    ..c.billing
                },
                ..c
            })
        } else {
            comment is None && *final(claim) == *old(claim)
        },
        comment is Some && old(claim).billing.paid_until is None ==> {
            final(claim).billing.paid_until->0@.secs == now@.secs + 86_400
        },
{
    let confs: u32 = match settled_confirmations(claim, txs, tip) {
        Some(n) => n,
        None => return None,
    };
    let txid: String = text_or_empty(&claim.billing.last_payment_txid);
    let paid_until: Timestamp = credit_24h(*now, claim.billing.paid_until);
    claim.state = ClaimState::Active;
    claim.billing.paid_until = Some(paid_until);
    let mut comment: String = "Tx `".to_owned();
    comment.append(txid.as_str());
    comment.append("` reached ");
    comment.append(decimal_text(confs as u64).as_str());
    comment.append(" conf — claim active until `");
    comment.append(paid_until.to_rfc3339().as_str());
    comment.append("`.");
    Some(comment)
}

// ── active ────────────────────────────────────────────────────────

/// What an active claim needs.
#[derive(Clone, Copy, Debug, PartialEq, Eq, Structural)]
pub enum ActiveStep {
    /// A node: the boot workflow is to be dispatched.
    Boot,
    /// Nothing.
    Keep,
    /// To be marked overdue.
    Overdue,
}

/// What an active claim needs: a node before anything else, then nothing until
/// its paid time is over.
pub open spec fn active_need(c: ClaimView, now: Moment) -> ActiveStep {
    if c.agent_id is None {
        ActiveStep::Boot
    } else if c.billing.paid_until matches Some(p) && earlier(p@, now) {
        ActiveStep::Overdue
    } else {
        ActiveStep::Keep
    }
}

/// What the event history says of an overdue claim.
pub fn overdue_comment() -> (comment: &'static str)
    ensures
        comment@
            == "`paid_until` has passed — marking overdue. Operator action required (extend or shutdown)."@,
{
    "`paid_until` has passed — marking overdue. Operator action required (extend or shutdown)."
}

/// Decides for an active claim; one that is overdue is marked so.
pub fn process_active(claim: &mut Claim, now: &Timestamp) -> (step: ActiveStep)
    ensures
        step == active_need(old(claim)@, now@),
        final(claim)@ == if step == ActiveStep::Overdue {
            ClaimView { state: ClaimState::Overdue, ..old(claim)@ }
        } else {
            old(claim)@
        },
{
    if claim.agent_id.is_none() {
        return ActiveStep::Boot;
    }
    let expired: bool = match &claim.billing.paid_until {
        Some(p) => p.is_before(now),
        None => false,
    };
    if !expired {
        return ActiveStep::Keep;
    }
    claim.state = ClaimState::Overdue;
    ActiveStep::Overdue
}

/// What the event history says of a dispatched workflow.
pub open spec fn dispatched_text(workflow: Seq<char>, repo: Seq<char>, ref_: Seq<char>) -> Seq<
    char,
> {
    "Dispatched `"@ + workflow + "` on `"@ + repo + "` @ ref `"@ + ref_ + "`"@
}

fn dispatched(workflow: &str, repo: &str, ref_: &str) -> (out: String)
    ensures
        out@ == dispatched_text(workflow@, repo@, ref_@),
{
    let mut out: String = "Dispatched `".to_owned();
    out.append(workflow);
    out.append("` on `");
    out.append(repo);
    out.append("` @ ref `");
    out.append(ref_);
    out.append("`");
    out
}

/// Records that the boot workflow was dispatched for a claim. Returns what the
/// event history says of it.
pub fn dispatch_node_boot(cfg: &Config, claim: &mut Claim) -> (comment: String)
    ensures
        comment@ == dispatched_text(cfg@.ops_boot_workflow, cfg@.ops_repo, cfg@.ops_ref)
            + "; waiting for the workflow to provision a dd-agent."@,
        final(claim)@ == (ClaimView { state: ClaimState::NodeAssignmentStarted, ..old(claim)@ }),
{
    claim.state = ClaimState::NodeAssignmentStarted;
    let mut comment: String = dispatched(
        cfg.ops_boot_workflow.as_str(),
        cfg.ops_repo.as_str(),
        cfg.ops_ref.as_str(),
    );
    comment.append("; waiting for the workflow to provision a dd-agent.");
    comment
}

// ── node_assignment_started ───────────────────────────────────────

/// What a claim whose node is booting needs.
#[derive(Clone, Debug)]
pub enum AssignmentStep {
    /// To wait for the boot workflow.
    Wait,
    /// Nothing more: its sealed workload runs. Comes with what the event
    /// history says of it.
    Sealed(String),
    /// An owner to bind, and it has none.
    NoOwner,
    /// Its owner bound.
    Bind {
        /// The agent's host.
        agent_host: String,
        /// The owner to bind.
        agent_owner: String,
    },
}

/// What an [`AssignmentStep`] holds.
#[verifier::ext_equal]
pub enum AssignmentView {
    Wait,
    Sealed(Seq<char>),
    NoOwner,
    Bind { agent_host: Seq<char>, agent_owner: Seq<char> },
}

impl View for AssignmentStep {
    type V = AssignmentView;

    open spec fn view(&self) -> AssignmentView {
        match self {
            AssignmentStep::Wait => AssignmentView::Wait,
            AssignmentStep::Sealed(comment) => AssignmentView::Sealed(comment@),
            AssignmentStep::NoOwner => AssignmentView::NoOwner,
            AssignmentStep::Bind { agent_host, agent_owner } => AssignmentView::Bind {
                agent_host: agent_host@,
                agent_owner: agent_owner@,
            },
        }
    }
}

/// What a claim whose node is booting needs, and what becomes of it.
pub open spec fn assignment_need(c: ClaimView) -> (ClaimView, AssignmentView) {
    if c.agent_hostname is None {
        (c, AssignmentView::Wait)
    } else if c.mode == ClaimMode::Confidential {
        (
            ClaimView { state: ClaimState::Active, ..c },
            AssignmentView::Sealed(
                "Boot workflow reported agent ready; sealed claim is now active."@,
            ),
        )
    } else if option_text(c.customer_owner).len() == 0 {
        (c, AssignmentView::NoOwner)
    } else {
        (
            c,
            AssignmentView::Bind {
                agent_host: c.agent_hostname->0,
                agent_owner: c.customer_owner->0,
            },
        )
    }
}

/// Decides for a claim whose node is booting; a sealed one becomes active.
pub fn process_node_assignment_started(claim: &mut Claim) -> (step: AssignmentStep)
    ensures
        (final(claim)@, step@) == assignment_need(old(claim)@),
        match step {
            AssignmentStep::Wait => old(claim).agent_hostname is None && *final(claim) == *old(
                claim,
            ),
            AssignmentStep::Sealed(comment) => {
                &&& old(claim).agent_hostname is Some
                &&& old(claim).mode == ClaimMode::Confidential
                &&& comment@
                    == "Boot workflow reported agent ready; sealed claim is now active."@
                &&& final(claim)@ == (ClaimView { state: ClaimState::Active, ..old(claim)@ })
            },
            AssignmentStep::NoOwner => {
                &&& old(claim).agent_hostname is Some
                &&& old(claim).mode == ClaimMode::CustomerDeploy
                &&& option_text(old(claim)@.customer_owner).len() == 0
                &&& *final(claim) == *old(claim)
            },
            AssignmentStep::Bind { agent_host, agent_owner } => {
                &&& old(claim)@.agent_hostname == Some(agent_host@)
                &&& old(claim).mode == ClaimMode::CustomerDeploy
                &&& old(claim)@.customer_owner == Some(agent_owner@)
                &&& agent_owner@.len() > 0
                &&& *final(claim) == *old(claim)
            },
        },
{
    let agent_host: String = match &claim.agent_hostname {
        Some(h) => h.clone(),
        None => return AssignmentStep::Wait,
    };
    match claim.mode {
        ClaimMode::Confidential => {
            claim.state = ClaimState::Active;
            AssignmentStep::Sealed(
                "Boot workflow reported agent ready; sealed claim is now active.".to_owned(),
            )
        },
        ClaimMode::CustomerDeploy => {
            let agent_owner: String = text_or_empty(&claim.customer_owner);
            if agent_owner.as_str().is_empty() {
                return AssignmentStep::NoOwner;
            }
            AssignmentStep::Bind { agent_host, agent_owner }
        },
    }
}

/// Records that the owner-update workflow was dispatched for a claim. Returns
/// what the event history says of it.
pub fn dispatch_owner_update(cfg: &Config, claim: &mut Claim, agent_host: &str, agent_owner: &str)
    -> (comment: String)
    ensures
        comment@ == dispatched_text(cfg@.ops_owner_workflow, cfg@.ops_repo, cfg@.ops_ref)
            + " (agent_host=`"@ + agent_host@ + "`, agent_owner=`"@ + agent_owner@ + "`)."@,
        final(claim)@ == (ClaimView { state: ClaimState::OwnerUpdateDispatched, ..old(claim)@ }),
{
    claim.state = ClaimState::OwnerUpdateDispatched;
    let mut comment: String = dispatched(
        cfg.ops_owner_workflow.as_str(),
        cfg.ops_repo.as_str(),
        cfg.ops_ref.as_str(),
    );
    comment.append(" (agent_host=`");
    comment.append(agent_host);
    comment.append("`, agent_owner=`");
    comment.append(agent_owner);
    comment.append("`).");
    comment
}

// ── writing a transition ──────────────────────────────────────────

/// What a transition writes: the body, which must succeed, then labels, where
/// the state changed, and event history as far as they will.
pub open spec fn transition_plan(
    before: ClaimState,
    claim: ClaimView,
    comment: Seq<char>,
    manifest: Seq<char>,
) -> Seq<PlannedView> {
    let body = must(StepView::WriteBody(issue_body(claim, manifest)), "update_issue_body"@);
    if state_label_text(before) == state_label_text(claim.state) {
        seq![body, may(StepView::AddComment(comment))]
    } else {
        seq![
            body,
            may(StepView::RemoveLabel(state_label_text(before))),
            may(StepView::AddLabel(state_label_text(claim.state))),
            may(StepView::AddComment(comment)),
        ]
    }
}

/// What a transition writes to the issue of `claim`, whose manifest is now
/// written `manifest`.
pub fn transition(before: ClaimState, claim: &Claim, comment: &str, manifest: &str) -> (steps: Vec<
    PlannedStep,
>)
    ensures
        plan_view(steps@) == transition_plan(before, claim@, comment@, manifest@),
{
    let mut steps: Vec<PlannedStep> = no_steps();
    push_must(
        &mut steps,
        IssueStep::WriteBody(claim.to_issue_body(manifest)),
        "update_issue_body",
    );
    if before != claim.state {
        proof {
            if state_label_text(before) == state_label_text(claim.state) {
                law_state_labels_differ(before, claim.state);
            }
        }
        push_may(&mut steps, IssueStep::RemoveLabel(state_label(before).to_owned()));
        push_may(&mut steps, IssueStep::AddLabel(state_label(claim.state).to_owned()));
    }
    push_may(&mut steps, IssueStep::AddComment(comment.to_owned()));
    assert(plan_view(steps@) =~= transition_plan(before, claim@, comment@, manifest@));
    steps
}

// ── laws ──────────────────────────────────────────────────────────

/// Crediting never loses time: the new end lies a day behind now and behind
/// whatever was paid before, and two credits in a row add up to two days.
pub proof fn law_credit_stacks(now: Moment, current: Option<Timestamp>, credited: Timestamp)
    requires
        representable(now),
        current matches Some(t) ==> representable(t@),
        credited@ == hours_later(credit_base(now, current), 24),
    ensures
        credited@.secs >= now.secs + 86400,
        current matches Some(t) ==> credited@.secs >= t@.secs + 86400,
        current is None ==> credited@ == hours_later(now, 24),
        credit_base(now, Some(credited)) == credited@,
        hours_later(credit_base(now, Some(credited)), 24).secs == credit_base(now, current).secs
            + 2 * 86400,
{
}

/// A claim without a node is booted, however late it is: it is never marked
/// overdue before a node was tried for.
pub proof fn law_boot_comes_before_expiry(c: ClaimView, now: Moment)
    ensures
        c.agent_id is None ==> active_need(c, now) == ActiveStep::Boot,
        active_need(c, now) == ActiveStep::Overdue ==> c.billing.paid_until is Some && earlier(
            c.billing.paid_until->0@,
            now,
        ),
{
}

/// A payment is not attributed twice to the same claim: what was attributed is
/// no longer found.
pub proof fn law_no_double_attribution(c: ClaimView, txs: Seq<TxView>)
    ensures
        match first_where(txs, pays_enough(c.btc.price_per_24h_sats, c.billing.last_payment_txid)) {
            Some(tx) => {
                let d = seen_claim(c, tx.txid);
                &&& c.billing.last_payment_txid != Some(tx.txid)
                &&& (first_where(
                    txs,
                    pays_enough(d.btc.price_per_24h_sats, d.billing.last_payment_txid),
                ) matches Some(other) ==> other.txid != tx.txid)
            },
            None => true,
        },
{
    let wanted = pays_enough(c.btc.price_per_24h_sats, c.billing.last_payment_txid);
    crate::btc::law_search_finds_the_first(txs, wanted);
    match first_where(txs, wanted) {
        Some(tx) => {
            let d = seen_claim(c, tx.txid);
            crate::btc::law_search_finds_the_first(
                txs,
                pays_enough(d.btc.price_per_24h_sats, d.billing.last_payment_txid),
            );
        },
        None => {},
    }
}

/// The transaction `txid` is in a list.
pub open spec fn offers(txs: Seq<TxView>, txid: Seq<char>) -> bool {
    exists|i: int| 0 <= i < txs.len() && (#[trigger] txs[i]).txid == txid
}

/// The transaction `txid` is in a list, pays at least `sats` and was not mined
/// before `opened`.
pub open spec fn offers_since(txs: Seq<TxView>, txid: Seq<char>, sats: u64, opened: u64) -> bool {
    exists|i: int|
        0 <= i < txs.len() && (#[trigger] txs[i]).txid == txid && txs[i].received_sats >= sats
            && not_before(txs[i], opened)
}

/// A claim is attributed only what it may count: a payment that is on offer, is
/// enough for it, and was not mined before its issue was opened.
pub proof fn law_only_new_payments_count(
    waiting: Seq<(ClaimView, u64)>,
    txs: Seq<TxView>,
    i: int,
)
    requires
        0 <= i < waiting.len(),
    ensures
        attributed(waiting, txs).len() == waiting.len(),
        attributed(waiting, txs)[i].1 is Some ==> attributed(
            waiting,
            txs,
        )[i].0.billing.last_payment_txid is Some && offers_since(
            txs,
            attributed(waiting, txs)[i].0.billing.last_payment_txid->0,
            waiting[i].0.btc.price_per_24h_sats,
            waiting[i].1,
        ),
        attributed(waiting, txs)[i].1 is None ==> attributed(waiting, txs)[i].0 == waiting[i].0,
    decreases waiting.len(),
{
    let (c, opened) = waiting[0];
    let rest = waiting.subrange(1, waiting.len() as int);
    let recent = landed_since(txs, opened);
    let wanted = pays_enough(c.btc.price_per_24h_sats, c.billing.last_payment_txid);
    let all = attributed(waiting, txs);
    let left = match first_where(recent, wanted) {
        Some(tx) => without_tx(txs, tx.txid),
        None => txs,
    };
    let tail = attributed(rest, left);
    lemma_attributed_len(rest, left);
    assert(all.len() == 1 + tail.len());
    if i == 0 {
        crate::btc::law_search_finds_the_first(recent, wanted);
        lemma_landed_since(txs, opened);
        if first_where(recent, wanted) is Some {
            let tx = first_where(recent, wanted)->0;
            let k = choose|k: int| 0 <= k < recent.len() && recent[k] == tx;
            let m = choose|m: int| 0 <= m < txs.len() && txs[m] == recent[k];
            assert(txs[m].txid == tx.txid);
        }
    } else {
        assert(all[i] == tail[i - 1]);
        assert(rest[i - 1] == waiting[i]);
        law_only_new_payments_count(rest, left, i - 1);
        if all[i].1 is Some && first_where(recent, wanted) is Some {
            let taken = first_where(recent, wanted)->0.txid;
            let txid = all[i].0.billing.last_payment_txid->0;
            lemma_without_tx(txs, taken);
            let k = choose|k: int|
                0 <= k < left.len() && (#[trigger] left[k]).txid == txid && left[k].received_sats
                    >= waiting[i].0.btc.price_per_24h_sats && not_before(left[k], waiting[i].1);
            let m = choose|m: int| 0 <= m < txs.len() && txs[m] == left[k];
            assert(txs[m].txid == txid);
        }
    }
}

proof fn lemma_attributed_len(waiting: Seq<(ClaimView, u64)>, txs: Seq<TxView>)
    ensures
        attributed(waiting, txs).len() == waiting.len(),
    decreases waiting.len(),
{
    if waiting.len() > 0 {
        let (c, opened) = waiting[0];
        let rest = waiting.subrange(1, waiting.len() as int);
        let wanted = pays_enough(c.btc.price_per_24h_sats, c.billing.last_payment_txid);
        match first_where(landed_since(txs, opened), wanted) {
            Some(tx) => lemma_attributed_len(rest, without_tx(txs, tx.txid)),
            None => lemma_attributed_len(rest, txs),
        }
    }
}

/// Claims that wait together never share a payment: two of them that were
/// attributed one have different ones.
pub proof fn law_payments_are_not_shared(
    waiting: Seq<(ClaimView, u64)>,
    txs: Seq<TxView>,
    i: int,
    j: int,
)
    requires
        0 <= i < j < waiting.len(),
        attributed(waiting, txs)[i].1 is Some,
        attributed(waiting, txs)[j].1 is Some,
    ensures
        attributed(waiting, txs)[i].0.billing.last_payment_txid != attributed(
            waiting,
            txs,
        )[j].0.billing.last_payment_txid,
    decreases waiting.len(),
{
    let (c, opened) = waiting[0];
    let rest = waiting.subrange(1, waiting.len() as int);
    let recent = landed_since(txs, opened);
    let wanted = pays_enough(c.btc.price_per_24h_sats, c.billing.last_payment_txid);
    let all = attributed(waiting, txs);
    let left = match first_where(recent, wanted) {
        Some(tx) => without_tx(txs, tx.txid),
        None => txs,
    };
    let tail = attributed(rest, left);
    lemma_attributed_len(rest, left);
    assert(all[j] == tail[j - 1]);
    if i == 0 {
        let taken = first_where(recent, wanted)->0.txid;
        law_only_new_payments_count(rest, left, j - 1);
        lemma_without_tx(txs, taken);
        let txid = tail[j - 1].0.billing.last_payment_txid->0;
        let (d, since) = rest[j - 1];
        let k = choose|k: int|
            0 <= k < left.len() && (#[trigger] left[k]).txid == txid && left[k].received_sats
                >= d.btc.price_per_24h_sats && not_before(left[k], since);
        assert(left[k].txid != taken);
    } else {
        assert(all[i] == tail[i - 1]);
        law_payments_are_not_shared(rest, left, i - 1, j - 1);
    }
}

proof fn lemma_recorded_is_gone(txs: Seq<TxView>, recorded: Seq<Seq<char>>, i: int)
    requires
        0 <= i < recorded.len(),
    ensures
        !offers(unclaimed_txs(txs, recorded), recorded[i]),
    decreases recorded.len(),
{
    let front = recorded.drop_last();
    let left = unclaimed_txs(txs, front);
    let kept = without_tx(left, recorded.last());
    if i < front.len() {
        assert(front[i] == recorded[i]);
        lemma_recorded_is_gone(txs, front, i);
    }
    lemma_without_tx(left, recorded.last());
    if offers(kept, recorded[i]) {
        let k = choose|k: int| 0 <= k < kept.len() && (#[trigger] kept[k]).txid == recorded[i];
        let m = choose|m: int| 0 <= m < left.len() && left[m] == kept[k];
        assert(left[m].txid == recorded[i]);
    }
}

proof fn lemma_payment_is_recorded(open: Seq<ClaimView>, i: int) -> (k: int)
    requires
        0 <= i < open.len(),
        open[i].billing.last_payment_txid is Some,
    ensures
        0 <= k < recorded_payments(open).len(),
        recorded_payments(open)[k] == open[i].billing.last_payment_txid->0,
    decreases open.len(),
{
    let front = open.drop_last();
    if i < front.len() {
        assert(front[i] == open[i]);
        lemma_payment_is_recorded(front, i)
    } else {
        recorded_payments(front).len() as int
    }
}

/// A payment that an open claim has recorded is not on offer any more,
/// whatever state the claim is in.
pub proof fn law_recorded_payments_are_gone(txs: Seq<TxView>, open: Seq<ClaimView>, i: int)
    requires
        0 <= i < open.len(),
        open[i].billing.last_payment_txid is Some,
    ensures
        !offers(
            unclaimed_txs(txs, recorded_payments(open)),
            open[i].billing.last_payment_txid->0,
        ),
{
    let k = lemma_payment_is_recorded(open, i);
    lemma_recorded_is_gone(txs, recorded_payments(open), k);
}

} // verus!
