//! The operator's tools: what each request decides, what it answers, and what
//! it writes to the claim's issue.
//!
//! A tool runs in phases. Each phase is a function here; between two of them
//! the caller does the outside work that the first asked for.

use crate::claim::{
    issue_body, mode_name, mode_str, new_claim, state_name, state_str, BtcDetails, BtcDetailsView,
    Claim, ClaimMode, ClaimState, ClaimView, ManifestError, CURRENT_SCHEMA,
};
use crate::config::{Config, ConfigView};
use crate::github::{label_names, names_of, Issue};
use crate::json::{entries, insert_text, new_object};
use crate::percent::{percent_encode, percent_encoded};
use crate::steps::{
    may, must, no_steps, plan_view, push_may, push_must, IssueStep, PlannedStep, PlannedView,
    StepView,
};
use crate::text::{
    base_text, chars_of, contains_char, debug_quoted, debug_text, decimal,
    decimal_text, in_base, option_text, option_view, padded_text, same_text, signed_decimal,
    signed_decimal_text, starts_with, strip_prefix, text_or_empty, trim, trimmed, views,
    without_prefix, zero_padded,
};
use crate::time::{hours_later, representable, Moment, Timestamp};
use vstd::prelude::*;

verus! {

// ── answers that refuse ───────────────────────────────────────────

/// Why a tool refuses.
#[derive(Clone, Debug)]
pub enum ApiError {
    /// The bearer token is missing or wrong.
    Unauthorized,
    /// The request is not acceptable.
    BadRequest(String),
    /// Something behind the tool failed.
    Upstream(String),
}

/// What an [`ApiError`] holds.
#[verifier::ext_equal]
pub enum ApiErrorView {
    Unauthorized,
    BadRequest(Seq<char>),
    Upstream(Seq<char>),
}

impl View for ApiError {
    type V = ApiErrorView;

    open spec fn view(&self) -> ApiErrorView {
        match self {
            ApiError::Unauthorized => ApiErrorView::Unauthorized,
            ApiError::BadRequest(m) => ApiErrorView::BadRequest(m@),
            ApiError::Upstream(m) => ApiErrorView::Upstream(m@),
        }
    }
}

impl ApiError {
    /// The HTTP status of the answer.
    pub fn status(&self) -> (code: u16)
        ensures
            code == match self@ {
                ApiErrorView::Unauthorized => 401,
                ApiErrorView::BadRequest(_) => 400,
                ApiErrorView::Upstream(_) => 502int,
            },
    {
        match self {
            ApiError::Unauthorized => 401,
            ApiError::BadRequest(_) => 400,
            ApiError::Upstream(_) => 502,
        }
    }

    /// The `error` field of the answer.
    pub fn message(&self) -> (out: String)
        ensures
            out@ == match self@ {
                ApiErrorView::Unauthorized => "unauthorized"@,
                ApiErrorView::BadRequest(m) => m,
                ApiErrorView::Upstream(m) => m,
            },
    {
        match self {
            ApiError::Unauthorized => "unauthorized".to_owned(),
            ApiError::BadRequest(m) => m.clone(),
            ApiError::Upstream(m) => m.clone(),
        }
    }
}

/// A failure behind the tool, with what was being done.
pub open spec fn upstream_text(context: Seq<char>, error: Seq<char>) -> Seq<char> {
    context + ": "@ + error
}

/// A failure behind the tool, with what was being done.
pub fn upstream(context: &str, error: &str) -> (e: ApiError)
    ensures
        e@ == ApiErrorView::Upstream(upstream_text(context@, error@)),
{
    let mut m: String = context.to_owned();
    m.append(": ");
    m.append(error);
    ApiError::Upstream(m)
}

/// The refusal of a request on an issue whose body holds no manifest.
pub fn manifest_fault(error: &ManifestError) -> (e: ApiError)
    ensures
        e@ == ApiErrorView::Upstream(upstream_text("issue body manifest"@, error.text())),
{
    upstream("issue body manifest", error.message().as_str())
}

/// What becomes of a planned step: a failure ends the request where the step
/// has a context, and is passed over where it has none.
pub fn settle_step(context: &Option<String>, failure: Option<&str>) -> (r: Result<(), ApiError>)
    ensures
        match r {
            Ok(()) => failure is None || context is None,
            Err(e) => context is Some && failure is Some && e@ == ApiErrorView::Upstream(
                upstream_text(context->0@, failure->0@),
            ),
        },
{
    match (context, failure) {
        (Some(c), Some(f)) => Err(upstream(c.as_str(), f)),
        _ => Ok(()),
    }
}

// ── the bearer token ──────────────────────────────────────────────

/// The token in an `Authorization` header.
pub open spec fn bearer_token(header: Seq<char>) -> Option<Seq<char>> {
    if starts_with(header, "Bearer "@) {
        Some(trim(without_prefix(header, "Bearer "@)->0))
    } else if starts_with(header, "bearer "@) {
        Some(trim(without_prefix(header, "bearer "@)->0))
    } else {
        None
    }
}

/// The header names the expected token, which is not empty.
pub open spec fn admitted(header: Option<Seq<char>>, expected: Seq<char>) -> bool {
    header matches Some(h) && bearer_token(h) matches Some(t) && t.len() > 0 && t == expected
}

/// The view of an optional header.
pub open spec fn header_view(header: Option<&str>) -> Option<Seq<char>> {
    match header {
        Some(h) => Some(h@),
        None => None,
    }
}

/// Admits a request whose `Authorization` header is `Bearer` and the expected
/// token.
pub fn require_tool_token(header: Option<&str>, expected: &str) -> (r: Result<(), ApiError>)
    ensures
        r is Ok == admitted(header_view(header), expected@),
        r matches Err(e) ==> e@ == ApiErrorView::Unauthorized,
{
    let auth: &str = match header {
        Some(h) => h,
        None => return Err(ApiError::Unauthorized),
    };
    let token: &str = match strip_prefix(auth, "Bearer ") {
        Some(t) => trimmed(t),
        None => match strip_prefix(auth, "bearer ") {
            Some(t) => trimmed(t),
            None => return Err(ApiError::Unauthorized),
        },
    };
    if token.is_empty() || !same_text(token, expected) {
        return Err(ApiError::Unauthorized);
    }
    Ok(())
}

// ── labels ────────────────────────────────────────────────────────

/// A name with hyphens for underscores.
pub open spec fn slug(s: Seq<char>) -> Seq<char> {
    Seq::new(
        s.len(),
        |i: int|
            if s[i] == '_' {
                '-'
            } else {
                s[i]
            },
    )
}

/// A state's name as labels write it: hyphens for underscores.
pub fn label_state_slug(s: &str) -> (out: String)
    ensures
        out@ == slug(s@),
{
    let text: Vec<char> = chars_of(s);
    let mut out: String = String::new();
    let mut i: usize = 0;
    while i < text.len()
        invariant
            text@ == s@,
            i <= text.len(),
            out@ == slug(s@).take(i as int),
        decreases text.len() - i,
    {
        let c: char = text[i];
        proof {
            assert(slug(s@).take(i + 1) =~= slug(s@).take(i as int).push(slug(s@)[i as int]));
        }
        if c == '_' {
            out.push('-');
        } else {
            out.push(c);
        }
        i = i + 1;
    }
    assert(slug(s@).take(s@.len() as int) =~= slug(s@));
    out
}

/// The label of a state.
pub open spec fn state_label_text(s: ClaimState) -> Seq<char> {
    "state:"@ + slug(state_name(s))
}

/// The label of a state, made from its name.
pub fn label_of(s: ClaimState) -> (label: String)
    ensures
        label@ == state_label_text(s),
{
    let mut label: String = "state:".to_owned();
    label.append(label_state_slug(state_str(s)).as_str());
    label
}

/// The labels of a new claim.
pub open spec fn base_label_texts(mode: ClaimMode) -> Seq<Seq<char>> {
    seq![
        "s12e"@,
        "claim"@,
        "state:requested"@,
        "integrity:pristine"@,
        match mode {
            ClaimMode::CustomerDeploy => "mode:customer-deploy"@,
            ClaimMode::Confidential => "mode:confidential"@,
        },
    ]
}

/// The views of a list of literals.
pub open spec fn literal_views(list: Seq<&'static str>) -> Seq<Seq<char>> {
    Seq::new(list.len(), |i: int| list[i]@)
}

/// The labels of a new claim.
pub fn base_labels(mode: ClaimMode) -> (labels: Vec<&'static str>)
    ensures
        literal_views(labels@) == base_label_texts(mode),
{
    let mode_label: &'static str = match mode {
        ClaimMode::CustomerDeploy => "mode:customer-deploy",
        ClaimMode::Confidential => "mode:confidential",
    };
    let mut labels: Vec<&'static str> = Vec::new();
    labels.push("s12e");
    labels.push("claim");
    labels.push("state:requested");
    labels.push("integrity:pristine");
    labels.push(mode_label);
    assert(literal_views(labels@) =~= base_label_texts(mode));
    labels
}

// ── claim.create ──────────────────────────────────────────────────

/// A request for a claim.
#[derive(Clone, Debug)]
pub struct ClaimCreateReq {
    /// What the customer wants.
    pub mode: ClaimMode,
    /// The GitHub owner to bind; needed in customer-deploy mode.
    pub customer_owner: Option<String>,
    /// The repository of the sealed workload, `owner/repo`; needed in
    /// confidential mode.
    pub workload_repo: Option<String>,
    /// The git ref of the sealed workload; `main` if it is not given.
    pub workload_ref: Option<String>,
}

/// What a [`ClaimCreateReq`] holds.
#[verifier::ext_equal]
pub struct ClaimCreateView {
    pub mode: ClaimMode,
    pub customer_owner: Option<Seq<char>>,
    pub workload_repo: Option<Seq<char>>,
    pub workload_ref: Option<Seq<char>>,
}

impl View for ClaimCreateReq {
    type V = ClaimCreateView;

    open spec fn view(&self) -> ClaimCreateView {
        ClaimCreateView {
            mode: self.mode,
            customer_owner: option_view(self.customer_owner),
            workload_repo: option_view(self.workload_repo),
            workload_ref: option_view(self.workload_ref),
        }
    }
}

/// What is wrong with a request for a claim.
pub open spec fn create_fault(req: ClaimCreateView) -> Option<Seq<char>> {
    let repo = option_text(req.workload_repo);
    match req.mode {
        ClaimMode::CustomerDeploy => if option_text(req.customer_owner).len() == 0 {
            Some("customer_owner required for customer_deploy mode"@)
        } else {
            None
        },
        ClaimMode::Confidential => if repo.len() == 0 || !repo.contains('/') {
            Some("workload_repo (owner/repo) required for confidential mode"@)
        } else {
            None
        },
    }
}

/// The price of a block for one claim: the list price plus 1 to 9999 sats.
pub open spec fn perturbed_price(price: u64, suffix: u32) -> int {
    price + (suffix % 9999) + 1
}

/// The git ref to deploy: the one that was asked for, or `main`.
pub open spec fn ref_or_main(asked: Option<Seq<char>>) -> Seq<char> {
    if option_text(asked).len() > 0 {
        option_text(asked)
    } else {
        "main"@
    }
}

/// The claim that a request makes.
pub open spec fn created_claim(
    cfg: ConfigView,
    req: ClaimCreateView,
    claim_id: Seq<char>,
    suffix: u32,
) -> ClaimView {
    let btc = BtcDetailsView {
        address: cfg.sweep_address,
        price_per_24h_sats: cfg.price_per_24h_sats,
        exact_amount_sats: perturbed_price(cfg.price_per_24h_sats, suffix) as u64,
        required_confirmations: 1,
        pending_timeout_secs: cfg.pending_timeout_secs,
    };
    let fresh = new_claim(claim_id, req.mode, btc);
    match req.mode {
        ClaimMode::CustomerDeploy => ClaimView { customer_owner: req.customer_owner, ..fresh },
        ClaimMode::Confidential => ClaimView {
            workload_repo: req.workload_repo,
            workload_ref: Some(ref_or_main(req.workload_ref)),
            ..fresh
        },
    }
}

/// Checks a request for a claim.
pub fn check_create(req: &ClaimCreateReq) -> (r: Result<(), ApiError>)
    ensures
        match r {
            Ok(()) => create_fault(req@) is None,
            Err(e) => create_fault(req@) is Some && e@ == ApiErrorView::BadRequest(
                create_fault(req@)->0,
            ),
        },
{
    match req.mode {
        ClaimMode::CustomerDeploy => {
            if text_or_empty(&req.customer_owner).as_str().is_empty() {
                return Err(
                    ApiError::BadRequest(
                        "customer_owner required for customer_deploy mode".to_owned(),
                    ),
                );
            }
        },
        ClaimMode::Confidential => {
            let repo: String = text_or_empty(&req.workload_repo);
            if repo.as_str().is_empty() || !contains_char(repo.as_str(), '/') {
                return Err(
                    ApiError::BadRequest(
                        "workload_repo (owner/repo) required for confidential mode".to_owned(),
                    ),
                );
            }
        },
    }
    Ok(())
}

/// Makes a claim for an admitted and acceptable request. `claim_id` names it
/// and `suffix` sets its price apart from that of other claims.
pub fn claim_create(
    cfg: &Config,
    header: Option<&str>,
    req: ClaimCreateReq,
    claim_id: &str,
    suffix: u32,
) -> (r: Result<Claim, ApiError>)
    requires
        admitted(header_view(header), cfg.tool_api_token@) && create_fault(req@) is None
            ==> perturbed_price(cfg.price_per_24h_sats, suffix) <= u64::MAX,
    ensures
        match r {
            Ok(claim) => admitted(header_view(header), cfg.tool_api_token@) && create_fault(
                req@,
            ) is None && claim@ == created_claim(cfg@, req@, claim_id@, suffix) && (req.mode
                == ClaimMode::Confidential && (req@.workload_ref matches Some(r) && r.len() > 0)
                ==> claim@.workload_ref == req@.workload_ref),
            Err(e) => if !admitted(header_view(header), cfg.tool_api_token@) {
                e@ == ApiErrorView::Unauthorized
            } else {
                create_fault(req@) is Some && e@ == ApiErrorView::BadRequest(create_fault(req@)->0)
            },
        },
{
    if let Err(e) = require_tool_token(header, cfg.tool_api_token.as_str()) {
        return Err(e);
    }
    if let Err(e) = check_create(&req) {
        return Err(e);
    }
    let lsd: u64 = (suffix % 9999) as u64 + 1;
    let btc: BtcDetails = BtcDetails {
        address: cfg.sweep_address.clone(),
        price_per_24h_sats: cfg.price_per_24h_sats,
        exact_amount_sats: cfg.price_per_24h_sats + lsd,
        required_confirmations: 1,
        pending_timeout_secs: cfg.pending_timeout_secs,
    };
    let mut claim: Claim = Claim::new(claim_id, req.mode, btc);
    match req.mode {
        ClaimMode::CustomerDeploy => {
            claim.customer_owner = req.customer_owner;
        },
        ClaimMode::Confidential => {
            claim.workload_repo = req.workload_repo;
            let asked: String = text_or_empty(&req.workload_ref);
            claim.workload_ref = Some(
                if asked.as_str().is_empty() {
                    "main".to_owned()
                } else {
                    asked
                },
            );
        },
    }
    Ok(claim)
}

/// An issue to be opened.
#[derive(Clone, Debug)]
pub struct NewIssue {
    /// Its title.
    pub title: String,
    /// Its body.
    pub body: String,
    /// Its labels.
    pub labels: Vec<&'static str>,
}

/// The issue that a new claim opens; its manifest is written `manifest`.
pub fn new_issue(claim: &Claim, manifest: &str) -> (issue: NewIssue)
    ensures
        issue.title@ == "claim "@ + claim.claim_id@,
        issue.body@ == issue_body(claim@, manifest@),
        literal_views(issue.labels@) == base_label_texts(claim.mode),
{
    let mut title: String = "claim ".to_owned();
    title.append(claim.claim_id.as_str());
    NewIssue { title, body: claim.to_issue_body(manifest), labels: base_labels(claim.mode) }
}

/// The answer to a request for a claim.
#[derive(Clone, Debug)]
pub struct ClaimCreateResp {
    /// The claim.
    pub claim: Claim,
    /// The number of its issue.
    pub issue_number: u64,
    /// Where people read its issue.
    pub issue_url: String,
}

/// The answer to a request whose claim stands in `issue`.
pub fn claim_created(claim: Claim, issue: Issue) -> (resp: ClaimCreateResp)
    ensures
        resp.claim == claim,
        resp.issue_number == issue.number,
        resp.issue_url == issue.html_url,
{
    ClaimCreateResp { claim, issue_number: issue.number, issue_url: issue.html_url }
}

/// A claim's identifier: its second, and eight hexadecimal digits.
pub open spec fn claim_id_text(secs: int, suffix: u32) -> Seq<char> {
    "claim_"@ + signed_decimal(secs) + "_"@ + zero_padded(in_base(suffix as nat, 16, false), 8)
}

/// The identifier of a claim made at `secs` seconds since the epoch.
pub fn claim_id(secs: i64, suffix: u32) -> (id: String)
    ensures
        id@ == claim_id_text(secs as int, suffix),
{
    let mut id: String = "claim_".to_owned();
    id.append(signed_decimal_text(secs).as_str());
    id.append("_");
    id.append(padded_text(base_text(suffix as u64, 16, false), 8).as_str());
    id
}

/// The identifier of a claim made now. `counter` numbers the requests of this
/// process and `nanos` is the clock's fraction of a second.
pub fn generate_claim_id(counter: u32, nanos: u32) -> (id: String)
    ensures
        exists|now: Moment|
            representable(now) && id@ == claim_id_text(now.secs, mixed(counter, nanos)),
{
    let now: Timestamp = Timestamp::now();
    let id: String = claim_id(now.secs(), rand_suffix(counter, nanos));
    assert(representable(now@) && id@ == claim_id_text(now@.secs, mixed(counter, nanos)));
    id
}

/// A counter spread over 32 bits by a multiplication, with the clock mixed in.
pub open spec fn mixed(counter: u32, nanos: u32) -> u32 {
    ((counter * 2_654_435_761) % 0x1_0000_0000) as u32 ^ nanos
}

/// A suffix that keeps identifiers apart: `counter` numbers the requests of
/// this process and `nanos` is the clock's fraction of a second.
pub fn rand_suffix(counter: u32, nanos: u32) -> (suffix: u32)
    ensures
        suffix == mixed(counter, nanos),
{
    counter.wrapping_mul(2_654_435_761) ^ nanos
}

// ── claim.load ────────────────────────────────────────────────────

/// A request to read a claim.
#[derive(Clone, Debug)]
pub struct ClaimLoadReq {
    /// The number of the claim's issue.
    pub issue_number: u64,
}

/// The answer to a request to read a claim.
#[derive(Clone, Debug)]
pub struct ClaimLoadResp {
    /// The claim.
    pub claim: Claim,
    /// The number of its issue.
    pub issue_number: u64,
    /// Where people read its issue.
    pub issue_url: String,
    /// Whether the issue is open.
    pub state: String,
    /// The labels on the issue.
    pub labels: Vec<String>,
}

/// The answer to a request to read the claim in `issue`.
pub fn claim_loaded(claim: Claim, issue: Issue) -> (resp: ClaimLoadResp)
    ensures
        resp.claim == claim,
        resp.issue_number == issue.number,
        resp.issue_url == issue.html_url,
        resp.state == issue.state,
        views(resp.labels@) == label_names(issue.labels@),
{
    let labels: Vec<String> = names_of(&issue.labels);
    ClaimLoadResp {
        claim,
        issue_number: issue.number,
        issue_url: issue.html_url,
        state: issue.state,
        labels,
    }
}

// ── claim.update ──────────────────────────────────────────────────

/// A request to replace a claim's manifest.
#[derive(Clone, Debug)]
pub struct ClaimUpdateReq {
    /// The number of the claim's issue.
    pub issue_number: u64,
    /// The new manifest.
    pub claim: Claim,
    /// What the event history is to say besides.
    pub event_note: Option<String>,
}

/// The answer to a request to replace a claim's manifest.
#[derive(Clone, Debug)]
pub struct ClaimUpdateResp {
    /// The claim as it now stands.
    pub claim: Claim,
    /// The number of its issue.
    pub issue_number: u64,
    /// Where people read its issue.
    pub issue_url: String,
    /// The state before.
    pub previous_state: String,
    /// The state now.
    pub new_state: String,
    /// Whether the state changed.
    pub state_changed: bool,
}

/// What is wrong with the schema of a new manifest.
pub open spec fn schema_fault(schema: Seq<char>) -> Seq<char> {
    "claim.schema must be "@ + debug_quoted(CURRENT_SCHEMA@) + ", got "@ + debug_quoted(schema)
}

/// What is wrong with a manifest for another claim.
pub open spec fn id_fault(held: Seq<char>, given: Seq<char>) -> Seq<char> {
    "claim_id mismatch: issue holds "@ + debug_quoted(held) + ", request has "@ + debug_quoted(
        given,
    )
}

/// Refuses a manifest of another schema than the current one.
fn check_schema(schema: &str) -> (r: Result<(), ApiError>)
    ensures
        match r {
            Ok(()) => schema@ == CURRENT_SCHEMA@,
            Err(e) => schema@ != CURRENT_SCHEMA@ && e@ == ApiErrorView::BadRequest(
                schema_fault(schema@),
            ),
        },
{
    if same_text(schema, CURRENT_SCHEMA) {
        return Ok(());
    }
    let mut m: String = "claim.schema must be ".to_owned();
    m.append(debug_text(CURRENT_SCHEMA).as_str());
    m.append(", got ");
    m.append(debug_text(schema).as_str());
    Err(ApiError::BadRequest(m))
}

/// Admits a request to replace a manifest with one of the current schema.
pub fn admit_update(cfg: &Config, header: Option<&str>, req: &ClaimUpdateReq) -> (r: Result<
    (),
    ApiError,
>)
    ensures
        match r {
            Ok(()) => admitted(header_view(header), cfg.tool_api_token@) && req.claim.schema@
                == CURRENT_SCHEMA@,
            Err(e) => if !admitted(header_view(header), cfg.tool_api_token@) {
                e@ == ApiErrorView::Unauthorized
            } else {
                req.claim.schema@ != CURRENT_SCHEMA@ && e@ == ApiErrorView::BadRequest(
                    schema_fault(req.claim.schema@),
                )
            },
        },
{
    if let Err(e) = require_tool_token(header, cfg.tool_api_token.as_str()) {
        return Err(e);
    }
    check_schema(req.claim.schema.as_str())
}

/// What the event history says of an update.
pub open spec fn update_comment(
    before: ClaimState,
    after: ClaimState,
    note: Option<Seq<char>>,
) -> Seq<char> {
    let said = if before != after {
        "State: `"@ + state_name(before) + "` → `"@ + state_name(after) + "`"@
    } else {
        "Manifest updated (state unchanged: `"@ + state_name(after) + "`)"@
    };
    if option_text(note).len() > 0 {
        said + "\n\n"@ + option_text(note)
    } else {
        said
    }
}

/// What an update writes: the body, the labels where the state changes, and
/// the event history. Every step must succeed.
pub open spec fn update_steps(
    before: ClaimState,
    claim: ClaimView,
    note: Option<Seq<char>>,
    manifest: Seq<char>,
) -> Seq<PlannedView> {
    let old_label = state_label_text(before);
    let new_label = state_label_text(claim.state);
    let body = must(
        StepView::WriteBody(issue_body(claim, manifest)),
        "github update_issue_body"@,
    );
    let comment = must(
        StepView::AddComment(update_comment(before, claim.state, note)),
        "add_comment"@,
    );
    if before != claim.state {
        seq![
            body,
            must(StepView::RemoveLabel(old_label), "remove_label "@ + old_label),
            must(StepView::AddLabel(new_label), "add_labels "@ + new_label),
            comment,
        ]
    } else {
        seq![body, comment]
    }
}

/// Replaces the manifest of the claim `existing`, which stands in the issue at
/// `issue_url`. The new manifest is written `manifest`; it must be of the
/// current schema and for the same claim.
pub fn claim_update(existing: &Claim, issue_url: &str, req: ClaimUpdateReq, manifest: &str) -> (r:
    Result<(ClaimUpdateResp, Vec<PlannedStep>), ApiError>)
    ensures
        match r {
            Ok((resp, steps)) => {
                &&& req.claim.schema@ == CURRENT_SCHEMA@
                &&& existing.claim_id@ == req.claim.claim_id@
                &&& resp.claim == req.claim
                &&& resp.issue_number == req.issue_number
                &&& resp.issue_url@ == issue_url@
                &&& resp.previous_state@ == state_name(existing.state)
                &&& resp.new_state@ == state_name(req.claim.state)
                &&& resp.state_changed == (existing.state != req.claim.state)
                &&& plan_view(steps@) == update_steps(
                    existing.state,
                    req.claim@,
                    option_view(req.event_note),
                    manifest@,
                )
            },
            Err(e) => if req.claim.schema@ != CURRENT_SCHEMA@ {
                e@ == ApiErrorView::BadRequest(schema_fault(req.claim.schema@))
            } else {
                existing.claim_id@ != req.claim.claim_id@ && e@ == ApiErrorView::BadRequest(
                    id_fault(existing.claim_id@, req.claim.claim_id@),
                )
            },
        },
{
    if let Err(e) = check_schema(req.claim.schema.as_str()) {
        return Err(e);
    }
    if !same_text(existing.claim_id.as_str(), req.claim.claim_id.as_str()) {
        let mut m: String = "claim_id mismatch: issue holds ".to_owned();
        m.append(debug_text(existing.claim_id.as_str()).as_str());
        m.append(", request has ");
        m.append(debug_text(req.claim.claim_id.as_str()).as_str());
        return Err(ApiError::BadRequest(m));
    }
    let previous_state: &'static str = state_str(existing.state);
    let new_state: &'static str = state_str(req.claim.state);
    let state_changed: bool = existing.state != req.claim.state;
    let mut steps: Vec<PlannedStep> = no_steps();
    push_must(
        &mut steps,
        IssueStep::WriteBody(req.claim.to_issue_body(manifest)),
        "github update_issue_body",
    );
    let mut comment: String;
    if state_changed {
        let old_label: String = label_of(existing.state);
        let new_label: String = label_of(req.claim.state);
        let mut removing: String = "remove_label ".to_owned();
        removing.append(old_label.as_str());
        let mut adding: String = "add_labels ".to_owned();
        adding.append(new_label.as_str());
        push_must(&mut steps, IssueStep::RemoveLabel(old_label), removing.as_str());
        push_must(&mut steps, IssueStep::AddLabel(new_label), adding.as_str());
        comment = "State: `".to_owned();
        comment.append(previous_state);
        comment.append("` → `");
        comment.append(new_state);
        comment.append("`");
    } else {
        comment = "Manifest updated (state unchanged: `".to_owned();
        comment.append(new_state);
        comment.append("`)");
    }
    let note: String = text_or_empty(&req.event_note);
    if !note.as_str().is_empty() {
        comment.append("\n\n");
        comment.append(note.as_str());
    }
    push_must(&mut steps, IssueStep::AddComment(comment), "add_comment");
    assert(plan_view(steps@) =~= update_steps(
        existing.state,
        req.claim@,
        option_view(req.event_note),
        manifest@,
    ));
    let resp: ClaimUpdateResp = ClaimUpdateResp {
        claim: req.claim,
        issue_number: req.issue_number,
        issue_url: issue_url.to_owned(),
        previous_state: previous_state.to_owned(),
        new_state: new_state.to_owned(),
        state_changed,
    };
    Ok((resp, steps))
}

// ── btc.invoice ───────────────────────────────────────────────────

/// A request for an invoice.
#[derive(Clone, Debug)]
pub struct BtcInvoiceReq {
    /// The number of the claim's issue.
    pub issue_number: u64,
    /// How many 24-hour blocks to bill.
    pub blocks: u32,
}

/// The number of blocks where a request does not say.
pub fn default_blocks() -> (blocks: u32)
    ensures
        blocks == 1,
{
    1
}

/// The answer to a request for an invoice.
#[derive(Clone, Debug)]
pub struct BtcInvoiceResp {
    /// The address to pay to.
    pub address: String,
    /// The amount in sats.
    pub amount_sats: u64,
    /// The amount in bitcoin, with eight decimals.
    pub amount_btc: String,
    /// The payment URI.
    pub bip21_uri: String,
    /// The message in the URI: the claim's identifier.
    pub message: String,
    /// How many blocks are billed.
    pub blocks: u32,
    /// The claim's state after the request.
    pub state: String,
}

/// What a [`BtcInvoiceResp`] holds.
#[verifier::ext_equal]
pub struct InvoiceView {
    pub address: Seq<char>,
    pub amount_sats: u64,
    pub amount_btc: Seq<char>,
    pub bip21_uri: Seq<char>,
    pub message: Seq<char>,
    pub blocks: u32,
    pub state: Seq<char>,
}

impl View for BtcInvoiceResp {
    type V = InvoiceView;

    open spec fn view(&self) -> InvoiceView {
        InvoiceView {
            address: self.address@,
            amount_sats: self.amount_sats,
            amount_btc: self.amount_btc@,
            bip21_uri: self.bip21_uri@,
            message: self.message@,
            blocks: self.blocks,
            state: self.state@,
        }
    }
}

/// Sats in bitcoin, with eight decimals.
pub open spec fn btc_text(sats: nat) -> Seq<char> {
    decimal(sats / 100_000_000) + "."@ + zero_padded(decimal(sats % 100_000_000), 8)
}

/// Sats in bitcoin, with eight decimals: 50 000 sats are `0.00050000`.
pub fn format_btc(sats: u64) -> (out: String)
    ensures
        out@ == btc_text(sats as nat),
{
    let mut out: String = decimal_text(sats / 100_000_000);
    out.append(".");
    out.append(padded_text(decimal_text(sats % 100_000_000), 8).as_str());
    out
}

/// The payment URI of an amount for a claim.
pub open spec fn bip21(address: Seq<char>, sats: u64, claim_id: Seq<char>) -> Seq<char> {
    "bitcoin:"@ + address + "?amount="@ + btc_text(sats as nat) + "&label="@ + percent_encoded(
        "Sats for Compute"@,
    ) + "&message="@ + percent_encoded(claim_id)
}

/// What is said of an invoice over no block.
pub open spec fn no_blocks() -> Seq<char> {
    "blocks must be >= 1 (one 24-hour unit)"@
}

/// Refuses an invoice over no block.
fn check_blocks(blocks: u32) -> (r: Result<(), ApiError>)
    ensures
        match r {
            Ok(()) => blocks > 0,
            Err(e) => blocks == 0 && e@ == ApiErrorView::BadRequest(no_blocks()),
        },
{
    if blocks == 0 {
        Err(ApiError::BadRequest("blocks must be >= 1 (one 24-hour unit)".to_owned()))
    } else {
        Ok(())
    }
}

/// Admits a request for an invoice over at least one block.
pub fn admit_invoice(cfg: &Config, header: Option<&str>, req: &BtcInvoiceReq) -> (r: Result<
    (),
    ApiError,
>)
    ensures
        match r {
            Ok(()) => admitted(header_view(header), cfg.tool_api_token@) && req.blocks > 0,
            Err(e) => if !admitted(header_view(header), cfg.tool_api_token@) {
                e@ == ApiErrorView::Unauthorized
            } else {
                req.blocks == 0 && e@ == ApiErrorView::BadRequest(no_blocks())
            },
        },
{
    if let Err(e) = require_tool_token(header, cfg.tool_api_token.as_str()) {
        return Err(e);
    }
    check_blocks(req.blocks)
}

/// What an invoice costs.
pub open spec fn invoice_amount(claim: ClaimView, blocks: u32) -> int {
    claim.btc.exact_amount_sats * blocks
}

/// A claim once it has been invoiced: a claim that was only asked for now
/// waits for its payment, any other stays as it is.
pub open spec fn invoiced_claim(claim: ClaimView) -> ClaimView {
    if claim.state == ClaimState::Requested {
        ClaimView { state: ClaimState::InvoiceCreated, ..claim }
    } else {
        claim
    }
}

/// The invoice over `blocks` blocks of a claim.
pub open spec fn invoice(claim: ClaimView, blocks: u32) -> InvoiceView {
    let amount_sats = invoice_amount(claim, blocks) as u64;
    InvoiceView {
        address: claim.btc.address,
        amount_sats,
        amount_btc: btc_text(amount_sats as nat),
        bip21_uri: bip21(claim.btc.address, amount_sats, claim.claim_id),
        message: claim.claim_id,
        blocks,
        state: state_name(invoiced_claim(claim).state),
    }
}

/// What is said of an amount that is too large.
pub open spec fn amount_fault(claim: ClaimView, blocks: u32) -> Seq<char> {
    "blocks="@ + decimal(blocks as nat) + " × exact_amount_sats="@ + decimal(
        claim.btc.exact_amount_sats as nat,
    ) + " overflows u64"@
}

/// Invoices a claim over at least one block. The answer comes with whether the
/// claim's state changed, that is, whether [`invoice_steps`] are to be carried
/// out.
pub fn btc_invoice(claim: &mut Claim, req: &BtcInvoiceReq) -> (r: Result<
    (BtcInvoiceResp, bool),
    ApiError,
>)
    ensures
        match r {
            Ok((resp, advanced)) => {
                &&& req.blocks > 0
                &&& invoice_amount(old(claim)@, req.blocks) <= u64::MAX
                &&& resp@ == invoice(old(claim)@, req.blocks)
                &&& resp.amount_sats == old(claim).btc.exact_amount_sats * req.blocks
                &&& advanced == (old(claim).state == ClaimState::Requested)
                &&& final(claim)@ == invoiced_claim(old(claim)@)
            },
            Err(e) => {
                &&& if req.blocks == 0 {
                    e@ == ApiErrorView::BadRequest(no_blocks())
                } else {
                    invoice_amount(old(claim)@, req.blocks) > u64::MAX && e@
                        == ApiErrorView::BadRequest(amount_fault(old(claim)@, req.blocks))
                }
                &&& *final(claim) == *old(claim)
            },
        },
{
    if let Err(e) = check_blocks(req.blocks) {
        return Err(e);
    }
    let amount_sats: u64 = match claim.btc.exact_amount_sats.checked_mul(req.blocks as u64) {
        Some(n) => n,
        None => {
            let mut m: String = "blocks=".to_owned();
            m.append(decimal_text(req.blocks as u64).as_str());
            m.append(" × exact_amount_sats=");
            m.append(decimal_text(claim.btc.exact_amount_sats).as_str());
            m.append(" overflows u64");
            return Err(ApiError::BadRequest(m));
        },
    };
    let amount_btc: String = format_btc(amount_sats);
    let message: String = claim.claim_id.clone();
    let mut uri: String = "bitcoin:".to_owned();
    uri.append(claim.btc.address.as_str());
    uri.append("?amount=");
    uri.append(amount_btc.as_str());
    uri.append("&label=");
    uri.append(percent_encode("Sats for Compute").as_str());
    uri.append("&message=");
    uri.append(percent_encode(message.as_str()).as_str());
    let advanced: bool = claim.state == ClaimState::Requested;
    if advanced {
        claim.state = ClaimState::InvoiceCreated;
    }
    let resp: BtcInvoiceResp = BtcInvoiceResp {
        address: claim.btc.address.clone(),
        amount_sats,
        amount_btc,
        bip21_uri: uri,
        message,
        blocks: req.blocks,
        state: state_str(claim.state).to_owned(),
    };
    Ok((resp, advanced))
}

/// What the event history says of a first invoice.
pub open spec fn invoice_comment(amount: u64, blocks: u32) -> Seq<char> {
    "Generated BIP21 invoice for "@ + decimal(amount as nat) + " sats ("@ + decimal(blocks as nat)
        + " block(s)). State: `requested` → `invoice_created`. The orchestrator will now watch the address for payment."@
}

/// What a first invoice writes: the body, which must succeed, and then the
/// labels and the event history as far as they will.
pub open spec fn invoice_plan(
    claim: ClaimView,
    amount: u64,
    blocks: u32,
    manifest: Seq<char>,
) -> Seq<PlannedView> {
    seq![
        must(StepView::WriteBody(issue_body(claim, manifest)), "github update_issue_body"@),
        may(StepView::RemoveLabel("state:requested"@)),
        may(StepView::AddLabel("state:invoice-created"@)),
        may(StepView::AddComment(invoice_comment(amount, blocks))),
    ]
}

/// What a first invoice writes to the issue of `claim`, whose manifest is now
/// written `manifest`.
pub fn invoice_steps(claim: &Claim, resp: &BtcInvoiceResp, manifest: &str) -> (steps: Vec<
    PlannedStep,
>)
    ensures
        plan_view(steps@) == invoice_plan(claim@, resp.amount_sats, resp.blocks, manifest@),
{
    let mut steps: Vec<PlannedStep> = no_steps();
    push_must(
        &mut steps,
        IssueStep::WriteBody(claim.to_issue_body(manifest)),
        "github update_issue_body",
    );
    push_may(&mut steps, IssueStep::RemoveLabel("state:requested".to_owned()));
    push_may(&mut steps, IssueStep::AddLabel("state:invoice-created".to_owned()));
    let mut comment: String = "Generated BIP21 invoice for ".to_owned();
    comment.append(decimal_text(resp.amount_sats).as_str());
    comment.append(" sats (");
    comment.append(decimal_text(resp.blocks as u64).as_str());
    comment.append(
        " block(s)). State: `requested` → `invoice_created`. The orchestrator will now watch the address for payment.",
    );
    push_may(&mut steps, IssueStep::AddComment(comment));
    assert(plan_view(steps@) =~= invoice_plan(
        claim@,
        resp.amount_sats,
        resp.blocks,
        manifest@,
    ));
    steps
}

// ── workflow dispatches ───────────────────────────────────────────

/// A workflow to be run.
#[derive(Debug)]
pub struct WorkflowDispatch {
    /// The repository that holds the workflow.
    pub ops_repo: String,
    /// The workflow's file name.
    pub workflow: String,
    /// The git ref it runs from.
    pub ref_: String,
    /// Its inputs.
    pub inputs: serde_json::Map<String, serde_json::Value>,
}

/// What a [`WorkflowDispatch`] holds.
#[verifier::ext_equal]
pub struct DispatchView {
    pub ops_repo: Seq<char>,
    pub workflow: Seq<char>,
    pub ref_: Seq<char>,
    pub inputs: Map<Seq<char>, Option<Seq<char>>>,
}

impl View for WorkflowDispatch {
    type V = DispatchView;

    open spec fn view(&self) -> DispatchView {
        DispatchView {
            ops_repo: self.ops_repo@,
            workflow: self.workflow@,
            ref_: self.ref_@,
            inputs: entries(self.inputs),
        }
    }
}

/// Why a claim has no inputs for the boot workflow.
#[derive(Clone, Copy, Debug, PartialEq, Eq, Structural)]
pub enum BootError {
    /// A confidential claim does not say what to deploy.
    MissingWorkloadRepo,
}

impl BootError {
    /// What the error says to a person.
    pub fn message(&self) -> (out: &'static str)
        ensures
            out@ == "confidential claim missing workload_repo on manifest"@,
    {
        "confidential claim missing workload_repo on manifest"
    }
}

/// The claim says what the boot workflow is to deploy, if it must.
pub open spec fn bootable(claim: ClaimView) -> bool {
    claim.mode == ClaimMode::Confidential ==> option_text(claim.workload_repo).len() > 0
}

/// The inputs of the boot workflow. A customer-deploy claim names its owner
/// and no workload, a confidential one its workload and no owner, even where
/// one stands on the claim.
pub open spec fn boot_inputs(claim: ClaimView) -> Map<Seq<char>, Option<Seq<char>>> {
    let (owner, repo, ref_) = match claim.mode {
        ClaimMode::CustomerDeploy => (option_text(claim.customer_owner), ""@, ""@),
        ClaimMode::Confidential => (
            ""@,
            option_text(claim.workload_repo),
            match claim.workload_ref {
                Some(r) => r,
                None => "main"@,
            },
        ),
    };
    map![
        "claim_id"@ => Some(claim.claim_id),
        "mode"@ => Some(mode_name(claim.mode)),
        "customer_owner"@ => Some(owner),
        "workload_repo"@ => Some(repo),
        "workload_ref"@ => Some(ref_),
    ]
}

/// The inputs of the boot workflow for a claim.
pub fn build_boot_inputs(claim: &Claim) -> (r: Result<
    serde_json::Map<String, serde_json::Value>,
    BootError,
>)
    ensures
        match r {
            Ok(inputs) => bootable(claim@) && entries(inputs) == boot_inputs(claim@),
            Err(e) => !bootable(claim@) && e == BootError::MissingWorkloadRepo,
        },
{
    let mut inputs = new_object();
    insert_text(&mut inputs, "claim_id", claim.claim_id.as_str());
    insert_text(&mut inputs, "mode", mode_str(claim.mode));
    match claim.mode {
        ClaimMode::CustomerDeploy => {
            let owner: String = text_or_empty(&claim.customer_owner);
            insert_text(&mut inputs, "customer_owner", owner.as_str());
            insert_text(&mut inputs, "workload_repo", "");
            insert_text(&mut inputs, "workload_ref", "");
        },
        ClaimMode::Confidential => {
            let repo: String = text_or_empty(&claim.workload_repo);
            if repo.as_str().is_empty() {
                return Err(BootError::MissingWorkloadRepo);
            }
            insert_text(&mut inputs, "customer_owner", "");
            insert_text(&mut inputs, "workload_repo", repo.as_str());
            let ref_: String = match &claim.workload_ref {
                Some(r) => r.clone(),
                None => "main".to_owned(),
            };
            insert_text(&mut inputs, "workload_ref", ref_.as_str());
        },
    }
    Ok(inputs)
}

/// The inputs of the owner-update workflow.
pub open spec fn owner_update_inputs(
    claim_id: Seq<char>,
    agent_host: Seq<char>,
    agent_owner: Seq<char>,
) -> Map<Seq<char>, Option<Seq<char>>> {
    map![
        "claim_id"@ => Some(claim_id),
        "agent_host"@ => Some(agent_host),
        "agent_owner"@ => Some(agent_owner),
    ]
}

/// The inputs of the owner-update workflow. An empty owner revokes access.
pub fn build_owner_update_inputs(claim_id: &str, agent_host: &str, agent_owner: &str) -> (inputs:
    serde_json::Map<String, serde_json::Value>)
    ensures
        entries(inputs) == owner_update_inputs(claim_id@, agent_host@, agent_owner@),
{
    let mut inputs = new_object();
    insert_text(&mut inputs, "claim_id", claim_id);
    insert_text(&mut inputs, "agent_host", agent_host);
    insert_text(&mut inputs, "agent_owner", agent_owner);
    inputs
}

/// The run of the boot workflow for a claim.
pub open spec fn boot_dispatch(cfg: ConfigView, claim: ClaimView) -> DispatchView {
    DispatchView {
        ops_repo: cfg.ops_repo,
        workflow: cfg.ops_boot_workflow,
        ref_: cfg.ops_ref,
        inputs: boot_inputs(claim),
    }
}

/// The run of the owner-update workflow for a claim.
pub open spec fn owner_dispatch(
    cfg: ConfigView,
    claim_id: Seq<char>,
    agent_host: Seq<char>,
    agent_owner: Seq<char>,
) -> DispatchView {
    DispatchView {
        ops_repo: cfg.ops_repo,
        workflow: cfg.ops_owner_workflow,
        ref_: cfg.ops_ref,
        inputs: owner_update_inputs(claim_id, agent_host, agent_owner),
    }
}

/// The run of the boot workflow for a claim.
pub fn boot_call(cfg: &Config, claim: &Claim) -> (r: Result<WorkflowDispatch, BootError>)
    ensures
        match r {
            Ok(d) => bootable(claim@) && d@ == boot_dispatch(cfg@, claim@),
            Err(e) => !bootable(claim@),
        },
{
    match build_boot_inputs(claim) {
        Ok(inputs) => Ok(
            WorkflowDispatch {
                ops_repo: cfg.ops_repo.clone(),
                workflow: cfg.ops_boot_workflow.clone(),
                ref_: cfg.ops_ref.clone(),
                inputs,
            },
        ),
        Err(e) => Err(e),
    }
}

/// The run of the owner-update workflow for a claim.
pub fn owner_update_call(cfg: &Config, claim_id: &str, agent_host: &str, agent_owner: &str) -> (d:
    WorkflowDispatch)
    ensures
        d@ == owner_dispatch(cfg@, claim_id@, agent_host@, agent_owner@),
{
    WorkflowDispatch {
        ops_repo: cfg.ops_repo.clone(),
        workflow: cfg.ops_owner_workflow.clone(),
        ref_: cfg.ops_ref.clone(),
        inputs: build_owner_update_inputs(claim_id, agent_host, agent_owner),
    }
}

// ── node.boot ─────────────────────────────────────────────────────

/// A request to boot a node for a claim.
#[derive(Clone, Debug)]
pub struct NodeBootReq {
    /// The number of the claim's issue.
    pub issue_number: u64,
}

/// The answer to a request to boot a node.
#[derive(Debug)]
pub struct NodeBootResp {
    /// The claim.
    pub claim_id: String,
    /// The workflow run that was asked for.
    pub dispatch: WorkflowDispatch,
}

/// The workflow run that boots a node for a claim, and the answer once it was
/// dispatched.
pub fn node_boot(cfg: &Config, claim: &Claim) -> (r: Result<NodeBootResp, ApiError>)
    ensures
        match r {
            Ok(resp) => bootable(claim@) && resp.claim_id@ == claim.claim_id@ && resp.dispatch@
                == boot_dispatch(cfg@, claim@),
            Err(e) => !bootable(claim@) && e@ == ApiErrorView::BadRequest(
                "confidential claim missing workload_repo on manifest"@,
            ),
        },
{
    match boot_call(cfg, claim) {
        Ok(dispatch) => Ok(NodeBootResp { claim_id: claim.claim_id.clone(), dispatch }),
        Err(e) => Err(ApiError::BadRequest(e.message().to_owned())),
    }
}

// ── dd.dispatch_owner_update ──────────────────────────────────────

/// A request to bind a claim's owner on its agent.
#[derive(Clone, Debug)]
pub struct DdDispatchOwnerUpdateReq {
    /// The number of the claim's issue.
    pub issue_number: u64,
    /// The agent's host, where it is not the one on the claim.
    pub agent_host: Option<String>,
}

/// The answer to a request to bind a claim's owner.
#[derive(Debug)]
pub struct DdDispatchOwnerUpdateResp {
    /// The claim.
    pub claim_id: String,
    /// The workflow run that was asked for.
    pub dispatch: WorkflowDispatch,
}

/// The agent to bind on: the one in the request, or the one on the claim.
pub open spec fn bind_host(claim: ClaimView, asked: Option<Seq<char>>) -> Option<Seq<char>> {
    if option_text(asked).len() > 0 {
        asked
    } else {
        claim.agent_hostname
    }
}

/// What is wrong with a request to bind an owner.
pub open spec fn bind_fault(claim: ClaimView, asked: Option<Seq<char>>) -> Option<Seq<char>> {
    if claim.mode == ClaimMode::Confidential {
        Some("dd.dispatch_owner_update is not valid for confidential claims"@)
    } else if bind_host(claim, asked) is None {
        Some("agent_host required (none on request and none on claim manifest)"@)
    } else if claim.customer_owner is None {
        Some("claim.customer_owner is unset; can't dispatch owner-update without an owner"@)
    } else {
        None
    }
}

/// An owner update that is to be dispatched.
#[derive(Debug)]
pub struct OwnerUpdate {
    /// The agent to bind on.
    pub agent_host: String,
    /// The owner to bind.
    pub agent_owner: String,
    /// Whether the agent came with the request.
    pub overridden: bool,
    /// The answer once it was dispatched.
    pub resp: DdDispatchOwnerUpdateResp,
}

/// Prepares the binding of a claim's owner. The agent is written to the claim.
pub fn dd_dispatch_owner_update(
    cfg: &Config,
    claim: &mut Claim,
    req: &DdDispatchOwnerUpdateReq,
) -> (r: Result<OwnerUpdate, ApiError>)
    ensures
        match r {
            Ok(u) => {
                let asked = option_view(req.agent_host);
                &&& bind_fault(old(claim)@, asked) is None
                &&& u.agent_host@ == bind_host(old(claim)@, asked)->0
                &&& (asked matches Some(h) && h.len() > 0) ==> u.agent_host@ == asked->0
                    && final(claim)@.agent_hostname == asked
                &&& (asked matches Some(h) ==> h.len() == 0) ==> Some(u.agent_host@) == old(
                    claim,
                )@.agent_hostname && final(claim)@.agent_hostname == old(claim)@.agent_hostname
                &&& u.agent_owner@ == old(claim)@.customer_owner->0
                &&& u.overridden == (option_text(asked).len() > 0)
                &&& u.resp.claim_id@ == old(claim).claim_id@
                &&& u.resp.dispatch@ == owner_dispatch(
                    cfg@,
                    old(claim).claim_id@,
                    u.agent_host@,
                    u.agent_owner@,
                )
                &&& final(claim)@ == (ClaimView {
                    agent_hostname: bind_host(old(claim)@, asked),
                    ..old(claim)@
                })
            },
            Err(e) => {
                let fault = bind_fault(old(claim)@, option_view(req.agent_host));
                &&& fault is Some
                &&& e@ == ApiErrorView::BadRequest(fault->0)
                &&& *final(claim) == *old(claim)
            },
        },
{
    if claim.mode == ClaimMode::Confidential {
        return Err(
            ApiError::BadRequest(
                "dd.dispatch_owner_update is not valid for confidential claims".to_owned(),
            ),
        );
    }
    let asked: String = text_or_empty(&req.agent_host);
    let overridden: bool = !asked.as_str().is_empty();
    let agent_host: String = if overridden {
        asked
    } else {
        match &claim.agent_hostname {
            Some(h) => h.clone(),
            None => return Err(
                ApiError::BadRequest(
                    "agent_host required (none on request and none on claim manifest)".to_owned(),
                ),
            ),
        }
    };
    let agent_owner: String = match &claim.customer_owner {
        Some(o) => o.clone(),
        None => return Err(
            ApiError::BadRequest(
                "claim.customer_owner is unset; can't dispatch owner-update without an owner".to_owned(),
            ),
        ),
    };
    claim.agent_hostname = Some(agent_host.clone());
    let dispatch: WorkflowDispatch = owner_update_call(
        cfg,
        claim.claim_id.as_str(),
        agent_host.as_str(),
        agent_owner.as_str(),
    );
    let resp: DdDispatchOwnerUpdateResp = DdDispatchOwnerUpdateResp {
        claim_id: claim.claim_id.clone(),
        dispatch,
    };
    Ok(OwnerUpdate { agent_host, agent_owner, overridden, resp })
}

/// The states that wait for their owner to be bound.
pub open spec fn awaits_bind(s: ClaimState) -> bool {
    s == ClaimState::BtcMempoolSeen || s == ClaimState::BtcConfirmed
}

/// A claim whose owner update was dispatched at `now`. A bind ahead of
/// confirmation is marked, and the first bind pays for a day.
pub open spec fn bound_claim(claim: ClaimView, now: Timestamp, paid_until: Timestamp) -> ClaimView {
    ClaimView {
        state: ClaimState::OwnerUpdateDispatched,
        billing: crate::claim::BillingView {
            optimistic_bind_at: if claim.state == ClaimState::BtcMempoolSeen {
                Some(now)
            } else {
                claim.billing.optimistic_bind_at
            },
            paid_until: Some(
                match claim.billing.paid_until {
                    Some(t) => t,
                    None => paid_until,
                },
            ),
            ..claim.billing
        },
        ..claim
    }
}

/// Records that a claim's owner update was dispatched at `now`. Returns the
/// state before, where the claim was waiting for it; any other claim stays as
/// it is.
pub fn owner_update_sent(claim: &mut Claim, now: &Timestamp) -> (before: Option<ClaimState>)
    requires
        awaits_bind(old(claim).state) && old(claim).billing.paid_until is None ==> representable(
            hours_later(now@, 24),
        ),
    ensures
        match before {
            Some(s) => {
                &&& awaits_bind(old(claim).state)
                &&& s == old(claim).state
                &&& old(claim).billing.paid_until is Some ==> final(claim)@ == bound_claim(
                    old(claim)@,
                    *now,
                    old(claim).billing.paid_until->0,
                )
                &&& old(claim).billing.paid_until is None ==> final(claim)@ == bound_claim(
                    old(claim)@,
                    *now,
                    final(claim).billing.paid_until->0,
                ) && final(claim).billing.paid_until->0@ == hours_later(now@, 24)
            },
            None => !awaits_bind(old(claim).state) && *final(claim) == *old(claim),
        },
        before is Some && old(claim).billing.paid_until is None ==> {
            final(claim).billing.paid_until->0@.secs == now@.secs + 86_400
        },
{
    let before: ClaimState = claim.state;
    if before != ClaimState::BtcMempoolSeen && before != ClaimState::BtcConfirmed {
        return None;
    }
    claim.state = ClaimState::OwnerUpdateDispatched;
    if before == ClaimState::BtcMempoolSeen {
        claim.billing.optimistic_bind_at = Some(*now);
    }
    if claim.billing.paid_until.is_none() {
        claim.billing.paid_until = Some(now.plus_hours(24));
    }
    Some(before)
}

/// What the event history says of a dispatched owner update.
pub open spec fn bind_comment(
    dispatch: DispatchView,
    agent_host: Seq<char>,
    agent_owner: Seq<char>,
    before: ClaimState,
) -> Seq<char> {
    "Dispatched `"@ + dispatch.workflow + "` on `"@ + dispatch.ops_repo + "` for `"@ + agent_host
        + "` (owner=`"@ + agent_owner + "`). State: `"@ + state_name(before)
        + "` → `owner_update_dispatched`"@ + (if before == ClaimState::BtcMempoolSeen {
        " (optimistic 0-conf bind; tx must settle within grace window)"@
    } else {
        ""@
    }) + "."@
}

/// What a dispatched owner update writes. Where the claim was waiting for it:
/// the body, which must succeed, then labels and event history as far as they
/// will. Otherwise only an agent that came with the request is written down.
pub open spec fn bind_plan(
    claim: ClaimView,
    update: OwnerUpdate,
    before: Option<ClaimState>,
    manifest: Seq<char>,
) -> Seq<PlannedView> {
    match before {
        Some(s) => seq![
            must(StepView::WriteBody(issue_body(claim, manifest)), "github update_issue_body"@),
            may(StepView::RemoveLabel(state_label_text(s))),
            may(StepView::AddLabel(state_label_text(claim.state))),
            may(
                StepView::AddComment(
                    bind_comment(
                        update.resp.dispatch@,
                        update.agent_host@,
                        update.agent_owner@,
                        s,
                    ),
                ),
            ),
        ],
        None => if update.overridden {
            seq![may(StepView::WriteBody(issue_body(claim, manifest)))]
        } else {
            seq![]
        },
    }
}

/// What a dispatched owner update writes to the issue of `claim`, whose
/// manifest is now written `manifest`.
pub fn owner_update_steps(
    claim: &Claim,
    update: &OwnerUpdate,
    before: Option<ClaimState>,
    manifest: &str,
) -> (steps: Vec<PlannedStep>)
    ensures
        plan_view(steps@) == bind_plan(claim@, *update, before, manifest@),
{
    let mut steps: Vec<PlannedStep> = no_steps();
    match before {
        Some(s) => {
            push_must(
                &mut steps,
                IssueStep::WriteBody(claim.to_issue_body(manifest)),
                "github update_issue_body",
            );
            push_may(&mut steps, IssueStep::RemoveLabel(label_of(s)));
            push_may(&mut steps, IssueStep::AddLabel(label_of(claim.state)));
            let mut comment: String = "Dispatched `".to_owned();
            comment.append(update.resp.dispatch.workflow.as_str());
            comment.append("` on `");
            comment.append(update.resp.dispatch.ops_repo.as_str());
            comment.append("` for `");
            comment.append(update.agent_host.as_str());
            comment.append("` (owner=`");
            comment.append(update.agent_owner.as_str());
            comment.append("`). State: `");
            comment.append(state_str(s));
            comment.append("` → `owner_update_dispatched`");
            comment.append(
                if s == ClaimState::BtcMempoolSeen {
                    " (optimistic 0-conf bind; tx must settle within grace window)"
                } else {
                    ""
                },
            );
            comment.append(".");
            push_may(&mut steps, IssueStep::AddComment(comment));
        },
        None => {
            if update.overridden {
                push_may(&mut steps, IssueStep::WriteBody(claim.to_issue_body(manifest)));
            }
        },
    }
    assert(plan_view(steps@) =~= bind_plan(claim@, *update, before, manifest@));
    steps
}

// ── laws ──────────────────────────────────────────────────────────

/// A header made of `Bearer` and a token admits exactly that token, in either
/// case of the word; an empty token admits nobody.
pub proof fn law_bearer_admits(token: Seq<char>, expected: Seq<char>)
    requires
        trim(token) == token,
    ensures
        admitted(Some("Bearer "@ + token), expected) == (token.len() > 0 && token == expected),
        admitted(Some("bearer "@ + token), expected) == (token.len() > 0 && token == expected),
        !admitted(None, expected),
        expected.len() == 0 ==> !admitted(Some(token), expected),
{
    reveal_strlit("Bearer ");
    reveal_strlit("bearer ");
    let upper = "Bearer "@ + token;
    let lower = "bearer "@ + token;
    assert(upper.subrange(0, 7) =~= "Bearer "@);
    assert(upper.subrange(7, upper.len() as int) =~= token);
    assert(lower.subrange(0, 7) =~= "bearer "@);
    assert(lower.subrange(7, lower.len() as int) =~= token);
    assert(lower.subrange(0, 7)[0] != "Bearer "@[0]);
}

/// A claim that was made can be booted. A confidential one names its workload
/// and binds no owner; a customer-deploy one names its owner and no workload.
pub proof fn law_created_claims_boot(
    cfg: ConfigView,
    req: ClaimCreateView,
    claim_id: Seq<char>,
    suffix: u32,
)
    requires
        create_fault(req) is None,
    ensures
        ({
            let c = created_claim(cfg, req, claim_id, suffix);
            let owner = boot_inputs(c)["customer_owner"@]->0;
            let repo = boot_inputs(c)["workload_repo"@]->0;
            let ref_ = boot_inputs(c)["workload_ref"@]->0;
            &&& bootable(c)
            &&& req.mode == ClaimMode::Confidential ==> owner.len() == 0 && repo
                == req.workload_repo->0 && repo.contains('/') && ref_ == ref_or_main(
                req.workload_ref,
            )
            &&& req.mode == ClaimMode::CustomerDeploy ==> owner == req.customer_owner->0
                && owner.len() > 0 && repo.len() == 0 && ref_.len() == 0
        }),
{
    lemma_input_names_differ();
}

/// The boot workflow of a confidential claim is told no owner, whatever stands
/// on the claim, and that of a customer-deploy claim no workload.
pub proof fn law_boot_inputs_keep_to_the_mode(c: ClaimView)
    ensures
        c.mode == ClaimMode::Confidential ==> boot_inputs(c)["customer_owner"@] == Some(""@),
        c.mode == ClaimMode::CustomerDeploy ==> boot_inputs(c)["workload_repo"@] == Some(""@)
            && boot_inputs(c)["workload_ref"@] == Some(""@),
{
    lemma_input_names_differ();
}

proof fn lemma_input_names_differ()
    ensures
        "customer_owner"@ != "workload_repo"@,
        "customer_owner"@ != "workload_ref"@,
        "workload_repo"@ != "workload_ref"@,
        ""@.len() == 0,
{
    reveal_strlit("customer_owner");
    reveal_strlit("workload_repo");
    reveal_strlit("workload_ref");
    reveal_strlit("");
    assert("customer_owner"@.len() == 14);
    assert("workload_repo"@.len() == 13);
    assert("workload_ref"@.len() == 12);
}

/// What tells claims apart by their amount: the price of a claim lies 1 to
/// 9999 sats above the list price, and claims whose suffixes differ modulo
/// 9999 have different prices.
pub proof fn law_prices_tell_claims_apart(price: u64, a: u32, b: u32)
    ensures
        price < perturbed_price(price, a) <= price + 9999,
        perturbed_price(price, a) == perturbed_price(price, b) <==> a % 9999 == b % 9999,
{
}

/// Requests of one process that read the same clock still get different
/// suffixes.
pub proof fn law_suffixes_differ(a: u32, b: u32, nanos: u32)
    requires
        a != b,
    ensures
        mixed(a, nanos) != mixed(b, nanos),
{
    let x = ((a * 2_654_435_761) % 0x1_0000_0000) as u32;
    let y = ((b * 2_654_435_761) % 0x1_0000_0000) as u32;
    if x ^ nanos == y ^ nanos {
        assert(x == y) by (bit_vector)
            requires
                x ^ nanos == y ^ nanos,
        ;
        lemma_multiplier_is_invertible(a);
        lemma_multiplier_is_invertible(b);
    }
}

/// The multiplier has an inverse modulo 2 to the 32.
proof fn lemma_multiplier_is_invertible(n: u32)
    ensures
        (((n * 2_654_435_761) % 0x1_0000_0000) * 244_002_641) % 0x1_0000_0000 == n,
{
    let m = 0x1_0000_0000int;
    let p = n * 2_654_435_761;
    vstd::arithmetic::div_mod::lemma_mul_mod_noop_left(p, 244_002_641, m);
    assert(p * 244_002_641 == n + m * (n * 150_801_925)) by (nonlinear_arith)
        requires
            p == n * 2_654_435_761,
            m == 0x1_0000_0000int,
    ;
    vstd::arithmetic::div_mod::lemma_mod_multiples_vanish(n * 150_801_925, n as int, m);
    vstd::arithmetic::div_mod::lemma_small_mod(n as nat, m as nat);
}

/// Claims made in different seconds, or with different suffixes, have different
/// identifiers.
pub proof fn law_claim_ids_differ(secs: int, suffix: u32, other_secs: int, other_suffix: u32)
    requires
        claim_id_text(secs, suffix) == claim_id_text(other_secs, other_suffix),
    ensures
        secs == other_secs,
        suffix == other_suffix,
{
    let a = signed_decimal(secs);
    let b = signed_decimal(other_secs);
    let x = zero_padded(in_base(suffix as nat, 16, false), 8);
    let y = zero_padded(in_base(other_suffix as nat, 16, false), 8);
    lemma_suffix_numeral(suffix);
    lemma_suffix_numeral(other_suffix);
    reveal_strlit("claim_");
    reveal_strlit("_");
    let id = claim_id_text(secs, suffix);
    let other = claim_id_text(other_secs, other_suffix);
    assert(id.len() == a.len() + 15 && other.len() == b.len() + 15);
    assert(id.subrange(id.len() - 8, id.len() as int) =~= x);
    assert(other.subrange(other.len() - 8, other.len() as int) =~= y);
    assert(id.subrange(6, id.len() - 9) =~= a);
    assert(other.subrange(6, other.len() - 9) =~= b);
    crate::text::law_signed_decimal_is_injective(secs, other_secs);
}

proof fn lemma_suffix_numeral(suffix: u32)
    ensures
        zero_padded(in_base(suffix as nat, 16, false), 8).len() == 8,
        crate::text::numeral_value(zero_padded(in_base(suffix as nat, 16, false), 8), 16) == suffix,
{
    let s = in_base(suffix as nat, 16, false);
    assert(vstd::arithmetic::power::pow(16, 8) == 0x1_0000_0000) by {
        reveal_with_fuel(vstd::arithmetic::power::pow, 9);
    }
    crate::text::lemma_numeral_len(suffix as nat, 16, false, 8);
    crate::text::law_padding_keeps_the_value(s, 8, 16);
    crate::text::law_numeral_value(suffix as nat, 16, false);
}

/// The amount in bitcoin has exactly eight decimals, and its digits read as one
/// number are the sats.
pub proof fn law_btc_text_is_exact(sats: nat)
    ensures
        ({
            let whole = decimal(sats / 100_000_000);
            let frac = zero_padded(decimal(sats % 100_000_000), 8);
            &&& btc_text(sats) == whole + "."@ + frac
            &&& frac.len() == 8
            &&& crate::text::numeral_value(whole, 10) * 100_000_000 + crate::text::numeral_value(
                frac,
                10,
            ) == sats
        }),
{
    let w = sats / 100_000_000;
    let f = sats % 100_000_000;
    assert(vstd::arithmetic::power::pow(10, 8) == 100_000_000) by {
        reveal_with_fuel(vstd::arithmetic::power::pow, 9);
    }
    crate::text::law_numeral_value(w, 10, false);
    crate::text::law_numeral_value(f, 10, false);
    crate::text::lemma_numeral_len(f, 10, false, 8);
    crate::text::law_padding_keeps_the_value(decimal(f), 8, 10);
}

/// Invoicing again changes nothing: the state stays and, over as many blocks,
/// the invoice is the same.
pub proof fn law_invoicing_again_is_harmless(claim: ClaimView, blocks: u32)
    ensures
        invoiced_claim(invoiced_claim(claim)) == invoiced_claim(claim),
        invoice(invoiced_claim(claim), blocks) == invoice(claim, blocks),
{
}

/// An update first writes the new manifest and last an entry of the event
/// history, which is never empty; no step of it may fail in silence.
pub proof fn law_updates_are_recorded(
    existing: ClaimView,
    claim: ClaimView,
    note: Option<Seq<char>>,
    manifest: Seq<char>,
)
    ensures
        ({
            let steps = update_steps(existing.state, claim, note, manifest);
            &&& steps.len() >= 2
            &&& steps[0].step == StepView::WriteBody(issue_body(claim, manifest))
            &&& steps.last().step is AddComment
            &&& steps.last().step->AddComment_0.len() > 0
            &&& forall|i: int| 0 <= i < steps.len() ==> (#[trigger] steps[i]).context is Some
        }),
{
    reveal_strlit("State: `");
    reveal_strlit("Manifest updated (state unchanged: `");
}

/// No owner is ever bound to a confidential claim.
pub proof fn law_confidential_claims_bind_no_owner(claim: ClaimView, asked: Option<Seq<char>>)
    requires
        claim.mode == ClaimMode::Confidential,
    ensures
        bind_fault(claim, asked) is Some,
{
}

/// A dispatch does not move a deadline that is already set, and a bind is
/// marked as unsettled exactly where it came ahead of confirmation.
pub proof fn law_rebinding_keeps_the_deadline(
    claim: ClaimView,
    now: Timestamp,
    paid_until: Timestamp,
)
    requires
        awaits_bind(claim.state),
    ensures
        claim.billing.paid_until is Some ==> bound_claim(claim, now, paid_until).billing.paid_until
            == claim.billing.paid_until,
        claim.state == ClaimState::BtcMempoolSeen ==> bound_claim(
            claim,
            now,
            paid_until,
        ).billing.optimistic_bind_at == Some(now),
        claim.state == ClaimState::BtcConfirmed ==> bound_claim(
            claim,
            now,
            paid_until,
        ).billing.optimistic_bind_at == claim.billing.optimistic_bind_at,
        !awaits_bind(bound_claim(claim, now, paid_until).state),
{
}

} // verus!
