//! The claim manifest (`s12e.claim.v1`) and its place in an issue body.
//!
//! One claim is one customer's purchase of compute. The manifest is the
//! canonical state of the claim; it stands as a JSON code fence between two
//! marker comments inside a GitHub issue body. Everything around the markers
//! is presentation and is not read back.

use crate::text::{
    find, is_white, lemma_contains_either, lemma_found_behind, lemma_not_across,
    lemma_not_with_front, lemma_not_without, lemma_regroup, lemma_trim_ignores_first,
    lemma_trim_ignores_last, lemma_trim_keeps, occurs, occurs_at, option_view, position,
    starts_with, strip_prefix, strip_suffix, trim, trim_end, trimmed, trimmed_end, without_prefix,
    without_suffix,
};
use crate::time::{rfc3339_of, Timestamp};
use vstd::prelude::*;

verus! {

/// The schema this library reads and writes.
pub const CURRENT_SCHEMA: &'static str = "s12e.claim.v1";

/// The marker before the manifest.
pub const MANIFEST_OPEN: &'static str = "<!-- s12e:claim:v1:begin -->";

/// The marker behind the manifest.
pub const MANIFEST_CLOSE: &'static str = "<!-- s12e:claim:v1:end -->";

/// Where a claim stands.
#[derive(Clone, Copy, Debug, PartialEq, Eq, Structural)]
pub enum ClaimState {
    /// Asked for; no invoice yet.
    Requested,
    /// An invoice is out; waiting for a payment.
    InvoiceCreated,
    /// A payment was seen.
    BtcMempoolSeen,
    /// The boot workflow runs.
    NodeAssignmentStarted,
    /// The owner-update workflow runs.
    OwnerUpdateDispatched,
    /// In use ahead of confirmation.
    ActivePendingConfirmation,
    /// The payment has its confirmations.
    BtcConfirmed,
    /// In use.
    Active,
    /// The paid time is over.
    Overdue,
    /// Shut down.
    Shutdown,
    /// The payment failed.
    PaymentFailed,
    /// The boot workflow failed.
    BootFailed,
    /// The owner update failed.
    OwnerUpdateFailed,
    /// The attestation failed.
    AttestationFailed,
    /// The shutdown failed.
    ShutdownFailed,
    /// The node failed.
    NodeFailed,
    /// An operator must look.
    ManualReview,
    /// Reaped: access was revoked.
    Failed,
}

/// What the customer buys.
#[derive(Clone, Copy, Debug, PartialEq, Eq, Structural)]
pub enum ClaimMode {
    /// The customer's GitHub owner may deploy to the node.
    CustomerDeploy,
    /// The bot deploys a sealed workload from a public repository; no owner
    /// is bound.
    Confidential,
}

/// Why a node is no longer pristine, as its agent reports it.
#[derive(Clone, Copy, Debug, PartialEq, Eq, Structural, PartialOrd, Ord, Hash)]
pub enum TaintReason {
    /// A customer owner was bound.
    CustomerOwnerEnabled,
    /// A customer workload was deployed.
    CustomerWorkloadDeployed,
    /// Arbitrary execution was enabled.
    ArbitraryExecEnabled,
    /// An interactive shell was enabled.
    InteractiveShellEnabled,
}

/// What is to be paid, where, and when it counts as paid.
#[derive(Clone, Debug)]
pub struct BtcDetails {
    /// The address to pay to.
    pub address: String,
    /// The list price of one 24-hour block.
    pub price_per_24h_sats: u64,
    /// The price of one block for this claim: the list price plus a few sats
    /// that tell this claim's payment from those of others.
    pub exact_amount_sats: u64,
    /// Confirmations that a payment needs.
    pub required_confirmations: u32,
    /// How long an invoice waits for its payment.
    pub pending_timeout_secs: u64,
}

/// What was paid.
#[derive(Clone, Debug)]
pub struct Billing {
    /// When access lapses unless another payment extends it.
    pub paid_until: Option<Timestamp>,
    /// Sats received and not yet credited to a block.
    pub uncredited_sats: u64,
    /// The transaction last attributed to this claim.
    pub last_payment_txid: Option<String>,
    /// When the owner was bound ahead of confirmation, while that is unsettled.
    pub optimistic_bind_at: Option<Timestamp>,
}

/// What the agent last said of the node's integrity.
#[derive(Clone, Debug)]
pub struct Integrity {
    /// Whether the agent runs in confidential mode.
    pub confidential_mode: bool,
    /// What tainted the node.
    pub taint_reasons: Vec<TaintReason>,
}

/// One claim.
#[derive(Clone, Debug)]
pub struct Claim {
    /// The schema the manifest was written in.
    pub schema: String,
    /// The claim's identifier.
    pub claim_id: String,
    /// Where the claim stands.
    pub state: ClaimState,
    /// The GitHub owner to bind; none in confidential mode.
    pub customer_owner: Option<String>,
    /// The assigned agent.
    pub agent_id: Option<String>,
    /// The assigned agent's public host name.
    pub agent_hostname: Option<String>,
    /// What the customer bought.
    pub mode: ClaimMode,
    /// The repository of a sealed workload.
    pub workload_repo: Option<String>,
    /// The git ref of a sealed workload.
    pub workload_ref: Option<String>,
    /// What is to be paid.
    pub btc: BtcDetails,
    /// What was paid.
    pub billing: Billing,
    /// What the agent last said of the node.
    pub integrity: Integrity,
}

/// What a [`BtcDetails`] holds.
#[verifier::ext_equal]
pub struct BtcDetailsView {
    pub address: Seq<char>,
    pub price_per_24h_sats: u64,
    pub exact_amount_sats: u64,
    pub required_confirmations: u32,
    pub pending_timeout_secs: u64,
}

/// What a [`Billing`] holds.
#[verifier::ext_equal]
pub struct BillingView {
    pub paid_until: Option<Timestamp>,
    pub uncredited_sats: u64,
    pub last_payment_txid: Option<Seq<char>>,
    pub optimistic_bind_at: Option<Timestamp>,
}

/// What an [`Integrity`] holds.
#[verifier::ext_equal]
pub struct IntegrityView {
    pub confidential_mode: bool,
    pub taint_reasons: Seq<TaintReason>,
}

/// What a [`Claim`] holds.
#[verifier::ext_equal]
pub struct ClaimView {
    pub schema: Seq<char>,
    pub claim_id: Seq<char>,
    pub state: ClaimState,
    pub customer_owner: Option<Seq<char>>,
    pub agent_id: Option<Seq<char>>,
    pub agent_hostname: Option<Seq<char>>,
    pub mode: ClaimMode,
    pub workload_repo: Option<Seq<char>>,
    pub workload_ref: Option<Seq<char>>,
    pub btc: BtcDetailsView,
    pub billing: BillingView,
    pub integrity: IntegrityView,
}

impl View for BtcDetails {
    type V = BtcDetailsView;

    open spec fn view(&self) -> BtcDetailsView {
        BtcDetailsView {
            address: self.address@,
            price_per_24h_sats: self.price_per_24h_sats,
            exact_amount_sats: self.exact_amount_sats,
            required_confirmations: self.required_confirmations,
            pending_timeout_secs: self.pending_timeout_secs,
        }
    }
}

impl View for Billing {
    type V = BillingView;

    open spec fn view(&self) -> BillingView {
        BillingView {
            paid_until: self.paid_until,
            uncredited_sats: self.uncredited_sats,
            last_payment_txid: option_view(self.last_payment_txid),
            optimistic_bind_at: self.optimistic_bind_at,
        }
    }
}

impl View for Integrity {
    type V = IntegrityView;

    open spec fn view(&self) -> IntegrityView {
        IntegrityView {
            confidential_mode: self.confidential_mode,
            taint_reasons: self.taint_reasons@,
        }
    }
}

impl View for Claim {
    type V = ClaimView;

    open spec fn view(&self) -> ClaimView {
        ClaimView {
            schema: self.schema@,
            claim_id: self.claim_id@,
            state: self.state,
            customer_owner: option_view(self.customer_owner),
            agent_id: option_view(self.agent_id),
            agent_hostname: option_view(self.agent_hostname),
            mode: self.mode,
            workload_repo: option_view(self.workload_repo),
            workload_ref: option_view(self.workload_ref),
            btc: self.btc@,
            billing: self.billing@,
            integrity: self.integrity@,
        }
    }
}

// ── names ─────────────────────────────────────────────────────────

/// The name of a state in the manifest.
pub open spec fn state_name(s: ClaimState) -> Seq<char> {
    match s {
        ClaimState::Requested => "requested"@,
        ClaimState::InvoiceCreated => "invoice_created"@,
        ClaimState::BtcMempoolSeen => "btc_mempool_seen"@,
        ClaimState::NodeAssignmentStarted => "node_assignment_started"@,
        ClaimState::OwnerUpdateDispatched => "owner_update_dispatched"@,
        ClaimState::ActivePendingConfirmation => "active_pending_confirmation"@,
        ClaimState::BtcConfirmed => "btc_confirmed"@,
        ClaimState::Active => "active"@,
        ClaimState::Overdue => "overdue"@,
        ClaimState::Shutdown => "shutdown"@,
        ClaimState::PaymentFailed => "payment_failed"@,
        ClaimState::BootFailed => "boot_failed"@,
        ClaimState::OwnerUpdateFailed => "owner_update_failed"@,
        ClaimState::AttestationFailed => "attestation_failed"@,
        ClaimState::ShutdownFailed => "shutdown_failed"@,
        ClaimState::NodeFailed => "node_failed"@,
        ClaimState::ManualReview => "manual_review"@,
        ClaimState::Failed => "failed"@,
    }
}

/// The name of a mode in the manifest.
pub open spec fn mode_name(m: ClaimMode) -> Seq<char> {
    match m {
        ClaimMode::CustomerDeploy => "customer_deploy"@,
        ClaimMode::Confidential => "confidential"@,
    }
}

/// The name of a state in the manifest.
pub fn state_str(s: ClaimState) -> (name: &'static str)
    ensures
        name@ == state_name(s),
{
    match s {
        ClaimState::Requested => "requested",
        ClaimState::InvoiceCreated => "invoice_created",
        ClaimState::BtcMempoolSeen => "btc_mempool_seen",
        ClaimState::NodeAssignmentStarted => "node_assignment_started",
        ClaimState::OwnerUpdateDispatched => "owner_update_dispatched",
        ClaimState::ActivePendingConfirmation => "active_pending_confirmation",
        ClaimState::BtcConfirmed => "btc_confirmed",
        ClaimState::Active => "active",
        ClaimState::Overdue => "overdue",
        ClaimState::Shutdown => "shutdown",
        ClaimState::PaymentFailed => "payment_failed",
        ClaimState::BootFailed => "boot_failed",
        ClaimState::OwnerUpdateFailed => "owner_update_failed",
        ClaimState::AttestationFailed => "attestation_failed",
        ClaimState::ShutdownFailed => "shutdown_failed",
        ClaimState::NodeFailed => "node_failed",
        ClaimState::ManualReview => "manual_review",
        ClaimState::Failed => "failed",
    }
}

/// The name of a mode in the manifest.
pub fn mode_str(m: ClaimMode) -> (name: &'static str)
    ensures
        name@ == mode_name(m),
{
    match m {
        ClaimMode::CustomerDeploy => "customer_deploy",
        ClaimMode::Confidential => "confidential",
    }
}

// ── the issue body ────────────────────────────────────────────────

/// What is wrong with an issue body.
#[derive(Debug)]
pub enum ManifestError {
    /// There is no opening marker.
    MissingOpen,
    /// There is no closing marker behind the opening one.
    MissingClose,
    /// The text between the markers is not a code fence.
    MissingFence,
    /// The fenced text is no manifest, for this reason.
    Parse(String),
}

impl ManifestError {
    /// What the error says to a person.
    pub open spec fn text(self) -> Seq<char> {
        match self {
            ManifestError::MissingOpen => "issue body has no `"@ + MANIFEST_OPEN@ + "` marker"@,
            ManifestError::MissingClose => "issue body has no `"@ + MANIFEST_CLOSE@ + "` marker"@,
            ManifestError::MissingFence => "manifest fence (` ```json ... ``` `) malformed"@,
            ManifestError::Parse(reason) => "manifest JSON: "@ + reason@,
        }
    }

    /// What the error says to a person.
    pub fn message(&self) -> (out: String)
        ensures
            out@ == self.text(),
    {
        match self {
            ManifestError::MissingOpen => {
                let mut out: String = "issue body has no `".to_owned();
                out.append(MANIFEST_OPEN);
                out.append("` marker");
                out
            },
            ManifestError::MissingClose => {
                let mut out: String = "issue body has no `".to_owned();
                out.append(MANIFEST_CLOSE);
                out.append("` marker");
                out
            },
            ManifestError::MissingFence => {
                "manifest fence (` ```json ... ``` `) malformed".to_owned()
            },
            ManifestError::Parse(reason) => {
                let mut out: String = "manifest JSON: ".to_owned();
                out.append(reason.as_str());
                out
            },
        }
    }
}

/// A value in backticks, or a placeholder where there is none.
pub open spec fn quoted_or(value: Option<Seq<char>>, placeholder: Seq<char>) -> Seq<char> {
    match value {
        Some(v) => "`"@ + v + "`"@,
        None => placeholder,
    }
}

/// The `Paid until` entry of the summary.
pub open spec fn paid_until_text(t: Option<Timestamp>) -> Seq<char> {
    match t {
        Some(t) => rfc3339_of(t@),
        None => "_(not yet active)_"@,
    }
}

/// The part of an issue body that people read.
pub open spec fn summary(c: ClaimView) -> Seq<char> {
    "# Sats for Compute claim `"@ + c.claim_id + "`\n\n- **State:** `"@ + state_name(c.state)
        + "`\n- **Mode:** `"@ + mode_name(c.mode) + "`\n- **Customer owner:** "@ + quoted_or(
        c.customer_owner,
        "_(unset)_"@,
    ) + "\n- **Agent:** "@ + quoted_or(c.agent_id, "_(unassigned)_"@) + "\n- **Paid until:** "@
        + paid_until_text(c.billing.paid_until) + "\n\n"@
}

/// A manifest between its markers, with text before and behind.
pub open spec fn framed(above: Seq<char>, manifest: Seq<char>, below: Seq<char>) -> Seq<char> {
    above + MANIFEST_OPEN@ + "\n```json\n"@ + manifest + "\n```\n"@ + MANIFEST_CLOSE@ + below
}

/// The issue body of a claim whose manifest is written `manifest`.
pub open spec fn issue_body(c: ClaimView, manifest: Seq<char>) -> Seq<char> {
    framed(summary(c), manifest, "\n"@)
}

/// The text inside a code fence.
pub open spec fn unfenced(inner: Seq<char>) -> Result<Seq<char>, ManifestError> {
    let fence = trim(inner);
    let opened = if starts_with(fence, "```json"@) {
        without_prefix(fence, "```json"@)
    } else {
        without_prefix(fence, "```"@)
    };
    match opened {
        None => Err(ManifestError::MissingFence),
        Some(rest) => match without_suffix(trim_end(rest), "```"@) {
            None => Err(ManifestError::MissingFence),
            Some(json) => Ok(trim(json)),
        },
    }
}

/// The text of the manifest in an issue body: what stands in the code fence
/// between the first opening marker and the first closing marker behind it.
pub open spec fn manifest_of(body: Seq<char>) -> Result<Seq<char>, ManifestError> {
    match position(body, MANIFEST_OPEN@) {
        None => Err(ManifestError::MissingOpen),
        Some(i) => {
            let rest = body.subrange(i + MANIFEST_OPEN@.len(), body.len() as int);
            match position(rest, MANIFEST_CLOSE@) {
                None => Err(ManifestError::MissingClose),
                Some(j) => unfenced(rest.subrange(0, j)),
            }
        },
    }
}

impl Claim {
    /// A new claim in the `requested` state, with nothing bound or paid.
    pub fn new(claim_id: &str, mode: ClaimMode, btc: BtcDetails) -> (claim: Claim)
        ensures
            claim@ == new_claim(claim_id@, mode, btc@),
    {
        Claim {
            schema: CURRENT_SCHEMA.to_owned(),
            claim_id: claim_id.to_owned(),
            state: ClaimState::Requested,
            customer_owner: None,
            agent_id: None,
            agent_hostname: None,
            mode,
            workload_repo: None,
            workload_ref: None,
            btc,
            billing: Billing {
                paid_until: None,
                uncredited_sats: 0,
                last_payment_txid: None,
                optimistic_bind_at: None,
            },
            integrity: Integrity {
                confidential_mode: matches!(mode, ClaimMode::Confidential),
                taint_reasons: Vec::new(),
            },
        }
    }

    /// The issue body of this claim, whose manifest is written `manifest`.
    /// Read back, it gives that manifest again, as long as no marker stands in
    /// what it is made of, whatever people write above and below it.
    pub fn to_issue_body(&self, manifest: &str) -> (body: String)
        ensures
            body@ == issue_body(self@, manifest@),
            holds_no_marker(self@, manifest@) ==> manifest_of(body@) == Ok::<_, ManifestError>(
                trim(manifest@),
            ),
            forall|above: Seq<char>, below: Seq<char>|
                holds_no_marker(self@, manifest@) && !occurs(above, MANIFEST_OPEN@) ==> manifest_of(
                    #[trigger] (above + body@ + below),
                ) == Ok::<_, ManifestError>(trim(manifest@)),
    {
        let mut out: String = "# Sats for Compute claim `".to_owned();
        out.append(self.claim_id.as_str());
        out.append("`\n\n- **State:** `");
        out.append(state_str(self.state));
        out.append("`\n- **Mode:** `");
        out.append(mode_str(self.mode));
        out.append("`\n- **Customer owner:** ");
        out.append(quote(&self.customer_owner, "_(unset)_").as_str());
        out.append("\n- **Agent:** ");
        out.append(quote(&self.agent_id, "_(unassigned)_").as_str());
        out.append("\n- **Paid until:** ");
        let paid: String = match &self.billing.paid_until {
            Some(t) => t.to_rfc3339(),
            None => "_(not yet active)_".to_owned(),
        };
        out.append(paid.as_str());
        out.append("\n\n");
        assert(out@ == summary(self@));
        proof {
            if holds_no_marker(self@, manifest@) {
                lemma_summary_words_are_plain();
                lemma_summary_holds_no_open(self@);
                law_only_the_fence_counts(summary(self@), manifest@, "\n"@);
                assert forall|above: Seq<char>, below: Seq<char>|
                    !occurs(above, MANIFEST_OPEN@) implies manifest_of(
                    #[trigger] (above + issue_body(self@, manifest@) + below),
                ) == Ok::<_, ManifestError>(trim(manifest@)) by {
                    law_body_round_trip(above, self@, manifest@, below);
                }
            }
        }
        out.append(MANIFEST_OPEN);
        out.append("\n```json\n");
        out.append(manifest);
        out.append("\n```\n");
        out.append(MANIFEST_CLOSE);
        out.append("\n");
        out
    }

    /// The claim of a manifest that was parsed, or the fault that it is none,
    /// for the reason that the parser gave.
    pub fn from_manifest(parsed: Result<Claim, String>) -> (r: Result<Claim, ManifestError>)
        ensures
            match parsed {
                Ok(claim) => r == Ok::<_, ManifestError>(claim),
                Err(reason) => r == Err::<Claim, _>(ManifestError::Parse(reason)),
            },
    {
        match parsed {
            Ok(claim) => Ok(claim),
            Err(reason) => Err(ManifestError::Parse(reason)),
        }
    }

    /// The text of the manifest in an issue body.
    pub fn from_issue_body(body: &str) -> (manifest: Result<String, ManifestError>)
        ensures
            match manifest {
                Ok(m) => manifest_of(body@) == Ok::<_, ManifestError>(m@),
                Err(e) => manifest_of(body@) == Err::<Seq<char>, _>(e),
            },
    {
        let length: usize = body.unicode_len();
        let open_length: usize = MANIFEST_OPEN.unicode_len();
        let rest: &str = match find(body, MANIFEST_OPEN) {
            None => return Err(ManifestError::MissingOpen),
            Some(i) => body.substring_char(i + open_length, length),
        };
        let inner: &str = match find(rest, MANIFEST_CLOSE) {
            None => return Err(ManifestError::MissingClose),
            Some(j) => rest.substring_char(0, j),
        };
        let fence: &str = trimmed(inner);
        let opened: Option<&str> = match strip_prefix(fence, "```json") {
            Some(r) => Some(r),
            None => strip_prefix(fence, "```"),
        };
        let fenced: &str = match opened {
            None => return Err(ManifestError::MissingFence),
            Some(r) => trimmed_end(r),
        };
        match strip_suffix(fenced, "```") {
            None => Err(ManifestError::MissingFence),
            Some(json) => Ok(trimmed(json).to_owned()),
        }
    }
}

/// The claim that [`Claim::new`] makes.
pub open spec fn new_claim(claim_id: Seq<char>, mode: ClaimMode, btc: BtcDetailsView) -> ClaimView {
    ClaimView {
        schema: CURRENT_SCHEMA@,
        claim_id,
        state: ClaimState::Requested,
        customer_owner: None,
        agent_id: None,
        agent_hostname: None,
        mode,
        workload_repo: None,
        workload_ref: None,
        btc,
        billing: BillingView {
            paid_until: None,
            uncredited_sats: 0,
            last_payment_txid: None,
            optimistic_bind_at: None,
        },
        integrity: IntegrityView {
            confidential_mode: mode == ClaimMode::Confidential,
            taint_reasons: Seq::empty(),
        },
    }
}

fn quote(value: &Option<String>, placeholder: &str) -> (out: String)
    ensures
        out@ == quoted_or(option_view(*value), placeholder@),
{
    match value {
        Some(v) => {
            let mut out: String = "`".to_owned();
            out.append(v.as_str());
            out.append("`");
            out
        },
        None => placeholder.to_owned(),
    }
}

/// No marker stands in what an issue body is made of.
pub open spec fn holds_no_marker(c: ClaimView, manifest: Seq<char>) -> bool {
    &&& !occurs(c.claim_id, MANIFEST_OPEN@)
    &&& c.customer_owner matches Some(v) ==> !occurs(v, MANIFEST_OPEN@)
    &&& c.agent_id matches Some(v) ==> !occurs(v, MANIFEST_OPEN@)
    &&& !occurs(manifest, MANIFEST_CLOSE@)
}

// ── laws of the issue body ────────────────────────────────────────

proof fn lemma_markers()
    ensures
        MANIFEST_OPEN@.len() == 28,
        MANIFEST_CLOSE@.len() == 26,
        MANIFEST_OPEN@[0] == '<',
        MANIFEST_CLOSE@[0] == '<',
        forall|k: int| 0 < k < 28 ==> #[trigger] MANIFEST_OPEN@[k] != '<',
        forall|k: int| 0 < k < 26 ==> #[trigger] MANIFEST_CLOSE@[k] != '<',
        !MANIFEST_OPEN@.contains('`'),
        !MANIFEST_OPEN@.contains('\n'),
        !MANIFEST_CLOSE@.contains('\n'),
{
    reveal_strlit("<!-- s12e:claim:v1:begin -->");
    reveal_strlit("<!-- s12e:claim:v1:end -->");
}

/// What the fence around a manifest comes to.
proof fn lemma_unfenced(manifest: Seq<char>)
    ensures
        unfenced("\n```json\n"@ + manifest + "\n```\n"@) == Ok::<_, ManifestError>(trim(manifest)),
{
    reveal_strlit("\n```json\n");
    reveal_strlit("\n```\n");
    reveal_strlit("```json");
    reveal_strlit("```");
    let inner = "\n```json\n"@ + manifest + "\n```\n"@;
    let fence = "```json"@ + seq!['\n'] + manifest + seq!['\n'] + "```"@;
    assert(inner =~= (seq!['\n'] + fence).push('\n'));
    lemma_trim_ignores_last(seq!['\n'] + fence, '\n');
    lemma_trim_ignores_first('\n', fence);
    assert(fence[0] == "```json"@[0]);
    assert(fence.last() == "```"@[2]);
    lemma_trim_keeps(fence);
    assert(trim(inner) == fence);
    assert(fence.subrange(0, 7) =~= "```json"@);
    let rest = seq!['\n'] + manifest + seq!['\n'] + "```"@;
    assert(fence.subrange(7, fence.len() as int) =~= rest);
    assert(rest.last() == "```"@[2]);
    assert(trim_end(rest) == rest);
    assert(rest.subrange(rest.len() - 3, rest.len() as int) =~= "```"@);
    let json = (seq!['\n'] + manifest).push('\n');
    assert(rest.subrange(0, rest.len() - 3) =~= json);
    lemma_trim_ignores_last(seq!['\n'] + manifest, '\n');
    lemma_trim_ignores_first('\n', manifest);
}

/// Only the fence counts: whatever text stands above the opening marker and
/// below the closing one, the manifest is read back as it was written, up to
/// white space at its ends. The text above must not hold an opening marker,
/// nor the manifest a closing one.
pub proof fn law_only_the_fence_counts(above: Seq<char>, manifest: Seq<char>, below: Seq<char>)
    requires
        !occurs(above, MANIFEST_OPEN@),
        !occurs(manifest, MANIFEST_CLOSE@),
    ensures
        manifest_of(framed(above, manifest, below)) == Ok::<_, ManifestError>(trim(manifest)),
{
    lemma_markers();
    let body = framed(above, manifest, below);
    let inner = "\n```json\n"@ + manifest + "\n```\n"@;
    let rest = inner + MANIFEST_CLOSE@ + below;
    assert(body =~= above + MANIFEST_OPEN@ + rest);
    lemma_found_behind(above, MANIFEST_OPEN@, rest);
    assert(body.subrange((above.len() + 28) as int, body.len() as int) =~= rest);
    // no closing marker in the fence itself
    reveal_strlit("\n```json\n");
    reveal_strlit("\n```\n");
    let front = "\n```json\n"@.subrange(0, 8);
    let back = "\n```\n"@.subrange(1, 5);
    lemma_not_without(front, MANIFEST_CLOSE@);
    lemma_not_without(back, MANIFEST_CLOSE@);
    lemma_not_across(manifest, '\n', back, MANIFEST_CLOSE@);
    lemma_not_across(front, '\n', manifest + seq!['\n'] + back, MANIFEST_CLOSE@);
    assert(inner =~= front + seq!['\n'] + (manifest + seq!['\n'] + back));
    lemma_found_behind(inner, MANIFEST_CLOSE@, below);
    assert(rest.subrange(0, inner.len() as int) =~= inner);
    lemma_unfenced(manifest);
}

/// A manifest written into an issue body is read back, whatever people write
/// above and below the body, as long as neither the text above nor the claim's
/// own texts hold an opening marker and the manifest holds no closing one. It
/// comes back up to white space at its ends, so unchanged where it has none.
pub proof fn law_body_round_trip(
    above: Seq<char>,
    c: ClaimView,
    manifest: Seq<char>,
    below: Seq<char>,
)
    requires
        holds_no_marker(c, manifest),
        !occurs(above, MANIFEST_OPEN@),
        !paid_until_text(c.billing.paid_until).contains('<'),
    ensures
        manifest_of(above + issue_body(c, manifest) + below) == Ok::<_, ManifestError>(
            trim(manifest),
        ),
        manifest.len() > 0 && !is_white(manifest[0]) && !is_white(manifest.last())
            ==> manifest_of(above + issue_body(c, manifest) + below) == Ok::<_, ManifestError>(
            manifest,
        ),
{
    let open = MANIFEST_OPEN@;
    let s = summary(c);
    let tail = s.subrange(1, s.len() as int);
    lemma_markers();
    lemma_summary_holds_no_open(c);
    assert(s[0] == '#' && s.len() > 0) by {
        reveal_strlit("# Sats for Compute claim `");
    }
    assert(!open.contains('#')) by {
        reveal_strlit("<!-- s12e:claim:v1:begin -->");
    }
    assert(!occurs(tail, open)) by {
        if occurs(tail, open) {
            let i = choose|i: int| occurs_at(tail, open, i);
            assert(s.subrange(i + 1, i + 1 + open.len()) =~= tail.subrange(i, i + open.len()));
            assert(occurs_at(s, open, i + 1));
        }
    }
    lemma_not_across(above, '#', tail, open);
    assert(above + s =~= above + seq!['#'] + tail);
    assert(above + issue_body(c, manifest) + below =~= framed(above + s, manifest, "\n"@ + below));
    law_only_the_fence_counts(above + s, manifest, "\n"@ + below);
    if manifest.len() > 0 && !is_white(manifest[0]) && !is_white(manifest.last()) {
        lemma_trim_keeps(manifest);
    }
}

/// A value in backticks, or its placeholder, adds no opening marker to the text
/// behind it, where the value holds none.
proof fn lemma_quoted_adds_no_open(
    value: Option<Seq<char>>,
    placeholder: Seq<char>,
    tail: Seq<char>,
)
    requires
        value matches Some(v) ==> !occurs(v, MANIFEST_OPEN@),
        !placeholder.contains('<'),
        !occurs(tail, MANIFEST_OPEN@),
    ensures
        !occurs(quoted_or(value, placeholder) + tail, MANIFEST_OPEN@),
{
    lemma_markers();
    reveal_strlit("`");
    match value {
        Some(v) => {
            lemma_not_across(v, '`', tail, MANIFEST_OPEN@);
            lemma_not_with_front("`"@, v + seq!['`'] + tail, MANIFEST_OPEN@);
            assert(quoted_or(value, placeholder) + tail =~= "`"@ + (v + seq!['`'] + tail));
        },
        None => lemma_not_with_front(placeholder, tail, MANIFEST_OPEN@),
    }
}

/// The names of states and modes are plain words.
proof fn lemma_names_are_plain(s: ClaimState, m: ClaimMode)
    ensures
        !state_name(s).contains('<'),
        !mode_name(m).contains('<'),
{
    reveal_strlit("requested");
    reveal_strlit("invoice_created");
    reveal_strlit("btc_mempool_seen");
    reveal_strlit("node_assignment_started");
    reveal_strlit("owner_update_dispatched");
    reveal_strlit("active_pending_confirmation");
    reveal_strlit("btc_confirmed");
    reveal_strlit("active");
    reveal_strlit("overdue");
    reveal_strlit("shutdown");
    reveal_strlit("payment_failed");
    reveal_strlit("boot_failed");
    reveal_strlit("owner_update_failed");
    reveal_strlit("attestation_failed");
    reveal_strlit("shutdown_failed");
    reveal_strlit("node_failed");
    reveal_strlit("manual_review");
    reveal_strlit("failed");
    reveal_strlit("customer_deploy");
    reveal_strlit("confidential");
}

/// The fixed words of a summary.
proof fn lemma_summary_words_are_plain()
    ensures
        !"# Sats for Compute claim `"@.contains('<'),
        !"\n\n- **State:** `"@.contains('<'),
        "`\n\n- **State:** `"@ == seq!['`'] + "\n\n- **State:** `"@,
        !"`\n- **Mode:** `"@.contains('<'),
        !"`\n- **Customer owner:** "@.contains('<'),
        !"_(unset)_"@.contains('<'),
        !"\n- **Agent:** "@.contains('<'),
        !"_(unassigned)_"@.contains('<'),
        !"\n- **Paid until:** "@.contains('<'),
        !"\n\n"@.contains('<'),
        !"_(not yet active)_"@.contains('<'),
{
    reveal_strlit("# Sats for Compute claim `");
    reveal_strlit("\n\n- **State:** `");
    reveal_strlit("`\n\n- **State:** `");
    reveal_strlit("`\n- **Mode:** `");
    reveal_strlit("`\n- **Customer owner:** ");
    reveal_strlit("_(unset)_");
    reveal_strlit("\n- **Agent:** ");
    reveal_strlit("_(unassigned)_");
    reveal_strlit("\n- **Paid until:** ");
    reveal_strlit("\n\n");
    reveal_strlit("_(not yet active)_");
}

/// A summary holds no opening marker where the claim's own texts hold none.
proof fn lemma_summary_holds_no_open(c: ClaimView)
    requires
        !occurs(c.claim_id, MANIFEST_OPEN@),
        c.customer_owner matches Some(v) ==> !occurs(v, MANIFEST_OPEN@),
        c.agent_id matches Some(v) ==> !occurs(v, MANIFEST_OPEN@),
        !paid_until_text(c.billing.paid_until).contains('<'),
    ensures
        !occurs(summary(c), MANIFEST_OPEN@),
{
    lemma_markers();
    lemma_names_are_plain(c.state, c.mode);
    lemma_summary_words_are_plain();
    let open = MANIFEST_OPEN@;
    let owner = quoted_or(c.customer_owner, "_(unset)_"@);
    let agent = quoted_or(c.agent_id, "_(unassigned)_"@);
    let paid = paid_until_text(c.billing.paid_until);
    let head = "# Sats for Compute claim `"@;
    let tail = "\n- **Paid until:** "@ + paid + "\n\n"@;
    lemma_contains_either("\n- **Paid until:** "@, paid, '<');
    lemma_contains_either("\n- **Paid until:** "@ + paid, "\n\n"@, '<');
    lemma_not_without(tail, open);
    lemma_quoted_adds_no_open(c.agent_id, "_(unassigned)_"@, tail);
    let from_agent = "\n- **Agent:** "@ + (agent + tail);
    lemma_not_with_front("\n- **Agent:** "@, agent + tail, open);
    lemma_quoted_adds_no_open(c.customer_owner, "_(unset)_"@, from_agent);
    let m1 = "\n\n- **State:** `"@ + state_name(c.state);
    let m2 = m1 + "`\n- **Mode:** `"@;
    let m3 = m2 + mode_name(c.mode);
    let between = m3 + "`\n- **Customer owner:** "@;
    lemma_contains_either("\n\n- **State:** `"@, state_name(c.state), '<');
    lemma_contains_either(m1, "`\n- **Mode:** `"@, '<');
    lemma_contains_either(m2, mode_name(c.mode), '<');
    lemma_contains_either(m3, "`\n- **Customer owner:** "@, '<');
    let rest = between + (owner + from_agent);
    lemma_not_with_front(between, owner + from_agent, open);
    lemma_not_across(c.claim_id, '`', rest, open);
    let behind = c.claim_id + seq!['`'] + rest;
    lemma_not_with_front(head, behind, open);
    lemma_summary_regrouped(
        head,
        c.claim_id,
        seq!['`'],
        between,
        owner,
        "\n- **Agent:** "@,
        agent,
        tail,
    );
    let state_word = "\n\n- **State:** `"@;
    let paid_word = "\n- **Paid until:** "@;
    assert(summary(c) == head + c.claim_id + seq!['`'] + between + owner + "\n- **Agent:** "@ + agent
        + tail) by {
        let start = head + c.claim_id;
        lemma_regroup(start, seq!['`'], state_word);
        let ticked = start + seq!['`'];
        lemma_regroup(ticked, state_word, state_name(c.state));
        lemma_regroup(ticked, m1, "`\n- **Mode:** `"@);
        lemma_regroup(ticked, m2, mode_name(c.mode));
        lemma_regroup(ticked, m3, "`\n- **Customer owner:** "@);
        let upto = ticked + between + owner + "\n- **Agent:** "@ + agent;
        lemma_regroup(upto, paid_word, paid);
        lemma_regroup(upto, paid_word + paid, "\n\n"@);
    }
}

/// Eight texts, put together one by one or from behind.
proof fn lemma_summary_regrouped(
    a: Seq<char>,
    b: Seq<char>,
    c: Seq<char>,
    d: Seq<char>,
    e: Seq<char>,
    f: Seq<char>,
    g: Seq<char>,
    h: Seq<char>,
)
    ensures
        a + b + c + d + e + f + g + h == a + (b + c + (d + (e + (f + (g + h))))),
{
    let back = f + (g + h);
    lemma_regroup(a + b + c + d + e, f, g);
    lemma_regroup(a + b + c + d + e, f + g, h);
    lemma_regroup(f, g, h);
    lemma_regroup(a + b + c + d, e, back);
    lemma_regroup(a + b + c, d, e + back);
    lemma_regroup(a, b, c);
    lemma_regroup(a, b + c, d + (e + back));
}

} // verus!
