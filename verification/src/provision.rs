//! How a paid order gets its node.
//!
//! Like a tick, provisioning asks for one thing at a time: [`provision_start`]
//! begins it and [`provision_step`] takes each reply, until the order is active
//! or has failed.

use crate::config::{MarketConfig, MarketView};
use crate::gcp::{generate_startup_script, startup_script};
use crate::ids::{cuttable, id_shaped, random_id, short, short_id};
use crate::local::{plan_to_vm_size, vm_size};
use crate::models::{
    node_views, Node, NodeStatus, NodeView, Order, OrderStatus, OrderView, Plan, PlanView, Provider,
};
use crate::time::{hours_later, representable, rfc3339_of, Moment, Timestamp};
use crate::writes::{write_views, DbWrite, WriteView};
use vstd::prelude::*;

verus! {

/// An order in the making.
#[derive(Clone, Debug)]
pub struct Job {
    /// What was ordered.
    pub plan: Plan,
    /// When it was begun.
    pub now: Timestamp,
    /// When its time will be over.
    pub expires_at: Timestamp,
}

/// What a [`Job`] holds.
#[verifier::ext_equal]
pub struct JobView {
    pub plan: PlanView,
    pub now: Moment,
    pub expires_at: Moment,
}

impl View for Job {
    type V = JobView;

    open spec fn view(&self) -> JobView {
        JobView { plan: self.plan@, now: self.now@, expires_at: self.expires_at@ }
    }
}

/// Where provisioning stands: what it asks for, or that it is over.
#[derive(Clone, Debug)]
pub enum Provision {
    /// Asks for the order's plan.
    WantPlan,
    /// Asks for the warm nodes of the plan's provider, oldest first.
    WantWarm(Job),
    /// Asks for a warm machine to be handed over.
    WantReassign {
        /// The order in the making.
        job: Job,
        /// The node.
        warm: Node,
    },
    /// Asks whether the operator's host has room.
    WantCapacity(Job),
    /// Asks for a machine on the operator's host.
    WantLocal {
        /// The order in the making.
        job: Job,
        /// The machine's name.
        vm_name: String,
        /// Its size.
        size: &'static str,
    },
    /// Asks for a machine in Google's cloud.
    WantGcp {
        /// The order in the making.
        job: Job,
        /// The machine's name.
        vm_name: String,
        /// Its type.
        machine_type: String,
        /// Its disk.
        disk_gb: i64,
        /// The script that it runs.
        script: String,
    },
    /// Provisioning is over.
    Done,
}

/// What a [`Provision`] holds.
#[verifier::ext_equal]
pub enum ProvisionView {
    WantPlan,
    WantWarm(JobView),
    WantReassign { job: JobView, warm: NodeView },
    WantCapacity(JobView),
    WantLocal { job: JobView, vm_name: Seq<char>, size: Seq<char> },
    WantGcp {
        job: JobView,
        vm_name: Seq<char>,
        machine_type: Seq<char>,
        disk_gb: i64,
        script: Seq<char>,
    },
    Done,
}

impl View for Provision {
    type V = ProvisionView;

    open spec fn view(&self) -> ProvisionView {
        match self {
            Provision::WantPlan => ProvisionView::WantPlan,
            Provision::WantWarm(job) => ProvisionView::WantWarm(job@),
            Provision::WantReassign { job, warm } => ProvisionView::WantReassign {
                job: job@,
                warm: warm@,
            },
            Provision::WantCapacity(job) => ProvisionView::WantCapacity(job@),
            Provision::WantLocal { job, vm_name, size } => ProvisionView::WantLocal {
                job: job@,
                vm_name: vm_name@,
                size: size@,
            },
            Provision::WantGcp { job, vm_name, machine_type, disk_gb, script } => {
                ProvisionView::WantGcp {
                    job: job@,
                    vm_name: vm_name@,
                    machine_type: machine_type@,
                    disk_gb: *disk_gb,
                    script: script@,
                }
            },
            Provision::Done => ProvisionView::Done,
        }
    }
}

/// A reply to what provisioning asked for. A failure comes with its reason.
#[derive(Debug)]
pub enum ProvisionReply {
    /// The plan, if there is one, and the time.
    Plan(Option<Plan>, Timestamp),
    /// The warm nodes.
    Warm(Vec<Node>),
    /// Whether the machine was handed over.
    Reassigned(Result<(), String>),
    /// Whether the host has room.
    Capacity(Result<bool, String>),
    /// Whether the machine was made.
    Created(Result<(), String>),
}

/// What a [`ProvisionReply`] holds.
#[verifier::ext_equal]
pub enum ProvisionReplyView {
    Plan(Option<PlanView>, Moment),
    Warm(Seq<NodeView>),
    Reassigned(Result<(), Seq<char>>),
    Capacity(Result<bool, Seq<char>>),
    Created(Result<(), Seq<char>>),
}

impl View for ProvisionReply {
    type V = ProvisionReplyView;

    open spec fn view(&self) -> ProvisionReplyView {
        match self {
            ProvisionReply::Plan(Some(plan), now) => ProvisionReplyView::Plan(Some(plan@), now@),
            ProvisionReply::Plan(None, now) => ProvisionReplyView::Plan(None, now@),
            ProvisionReply::Warm(nodes) => ProvisionReplyView::Warm(node_views(nodes@)),
            ProvisionReply::Reassigned(Ok(_)) => ProvisionReplyView::Reassigned(Ok(())),
            ProvisionReply::Reassigned(Err(e)) => ProvisionReplyView::Reassigned(Err(e@)),
            ProvisionReply::Capacity(Ok(room)) => ProvisionReplyView::Capacity(Ok(*room)),
            ProvisionReply::Capacity(Err(e)) => ProvisionReplyView::Capacity(Err(e@)),
            ProvisionReply::Created(Ok(_)) => ProvisionReplyView::Created(Ok(())),
            ProvisionReply::Created(Err(e)) => ProvisionReplyView::Created(Err(e@)),
        }
    }
}

/// `reply` answers what `p` asks for.
pub open spec fn replies_to(p: ProvisionView, reply: ProvisionReplyView) -> bool {
    match p {
        ProvisionView::WantPlan => reply is Plan,
        ProvisionView::WantWarm(_) => reply is Warm,
        ProvisionView::WantReassign { .. } => reply is Reassigned,
        ProvisionView::WantCapacity(_) => reply is Capacity,
        ProvisionView::WantLocal { .. } => reply is Created,
        ProvisionView::WantGcp { .. } => reply is Created,
        ProvisionView::Done => false,
    }
}

// ── what provisioning decides ─────────────────────────────────────

/// The name of an order's machine.
pub open spec fn machine_name(order: OrderView) -> Seq<char> {
    "dd-mkt-"@ + short(order.id)
}

/// A machine in Google's cloud.
pub open spec fn gcp_ask(
    config: MarketView,
    order: OrderView,
    job: JobView,
    machine_type: Seq<char>,
    disk_gb: i64,
) -> ProvisionView {
    ProvisionView::WantGcp {
        job,
        vm_name: machine_name(order),
        machine_type,
        disk_gb,
        script: startup_script(config, order.github_handle, machine_name(order)),
    }
}

/// A new machine: for a local plan the host is asked for room first.
pub open spec fn cold_ask(config: MarketView, order: OrderView, job: JobView) -> ProvisionView {
    match job.plan.provider {
        Provider::Local => ProvisionView::WantCapacity(job),
        Provider::Gcp => gcp_ask(config, order, job, job.plan.machine_type, job.plan.disk_gb),
    }
}

/// A warm node that can be handed over as it is: a local one.
pub open spec fn handed_over(warm: Seq<NodeView>) -> bool {
    warm.len() > 0 && warm[0].provider == Provider::Local
}

/// A reply after which a new machine is needed, whose name is cut from the
/// order's identifier.
pub open spec fn goes_cold(p: ProvisionView, reply: ProvisionReplyView) -> bool {
    match (p, reply) {
        (ProvisionView::WantWarm(_), ProvisionReplyView::Warm(warm)) => !handed_over(warm),
        (ProvisionView::WantReassign { .. }, ProvisionReplyView::Reassigned(r)) => r is Err,
        (ProvisionView::WantCapacity(_), _) => true,
        _ => false,
    }
}

/// Whether a new machine is needed after a reply.
pub fn needs_new_machine(p: &Provision, reply: &ProvisionReply) -> (b: bool)
    ensures
        b == goes_cold(p@, reply@),
{
    match (p, reply) {
        (Provision::WantWarm(_), ProvisionReply::Warm(warm)) => {
            !(warm.len() > 0 && matches!(warm[0].provider, Provider::Local))
        },
        (Provision::WantReassign { .. }, ProvisionReply::Reassigned(r)) => r.is_err(),
        (Provision::WantCapacity(_), _) => true,
        _ => false,
    }
}

/// An entry of the event log about an order.
pub open spec fn order_event(
    order: OrderView,
    node_id: Option<Seq<char>>,
    event_type: Seq<char>,
    details: Seq<char>,
) -> WriteView {
    WriteView::Event { order_id: Some(order.id), node_id, event_type, details: Some(details) }
}

/// The writes for a warm node that was handed over.
pub open spec fn claimed_writes(order: OrderView, job: JobView, warm: NodeView) -> Seq<WriteView> {
    let expires_at = rfc3339_of(job.expires_at);
    seq![
        WriteView::ClaimWarmNode {
            node_id: warm.id,
            order_id: order.id,
            github_handle: order.github_handle,
            expires_at,
        },
        WriteView::OrderProvisioned { order_id: order.id, expires_at },
        order_event(order, Some(warm.id), "warm_claimed"@, "vm="@ + warm.vm_name),
    ]
}

/// The node of a new machine.
pub open spec fn new_node(
    order: OrderView,
    job: JobView,
    provider: Provider,
    vm_name: Seq<char>,
    node_id: Seq<char>,
) -> NodeView {
    NodeView {
        id: node_id,
        order_id: order.id,
        github_handle: order.github_handle,
        provider,
        vm_name,
        hostname: None,
        status: NodeStatus::Running,
        created_at: rfc3339_of(job.now),
        expires_at: rfc3339_of(job.expires_at),
    }
}

/// The writes for a machine that was made or could not be made.
pub open spec fn created_writes(
    order: OrderView,
    job: JobView,
    provider: Provider,
    vm_name: Seq<char>,
    result: Result<(), Seq<char>>,
    node_id: Seq<char>,
) -> Seq<WriteView> {
    match result {
        Ok(_) => seq![
            WriteView::InsertNode(new_node(order, job, provider, vm_name, node_id)),
            WriteView::OrderProvisioned {
                order_id: order.id,
                expires_at: rfc3339_of(job.expires_at),
            },
            order_event(
                order,
                Some(node_id),
                "provisioned"@,
                "provider="@ + provider.text() + ", vm="@ + vm_name,
            ),
        ],
        Err(e) => seq![
            WriteView::OrderFailed { order_id: order.id, error: e },
            order_event(order, None, "provision_failed"@, e),
        ],
    }
}

/// What a reply makes of provisioning, and what is written. `node_id` names a
/// node that is new.
pub open spec fn provision_next(
    config: MarketView,
    order: OrderView,
    p: ProvisionView,
    reply: ProvisionReplyView,
    node_id: Seq<char>,
) -> (ProvisionView, Seq<WriteView>) {
    match (p, reply) {
        (ProvisionView::WantPlan, ProvisionReplyView::Plan(None, _)) => (
            ProvisionView::Done,
            seq![WriteView::OrderFailed { order_id: order.id, error: "plan not found"@ }],
        ),
        (ProvisionView::WantPlan, ProvisionReplyView::Plan(Some(plan), now)) => (
            ProvisionView::WantWarm(
                JobView {
                    plan,
                    now,
                    expires_at: hours_later(now, plan.duration_hours as int),
                },
            ),
            seq![],
        ),
        (ProvisionView::WantWarm(job), ProvisionReplyView::Warm(warm)) => (
            if handed_over(warm) {
                ProvisionView::WantReassign { job, warm: warm[0] }
            } else {
                cold_ask(config, order, job)
            },
            seq![],
        ),
        (ProvisionView::WantReassign { job, warm }, ProvisionReplyView::Reassigned(Ok(_))) => (
            ProvisionView::Done,
            claimed_writes(order, job, warm),
        ),
        (ProvisionView::WantReassign { job, warm }, ProvisionReplyView::Reassigned(Err(_))) => (
            cold_ask(config, order, job),
            seq![],
        ),
        (ProvisionView::WantCapacity(job), ProvisionReplyView::Capacity(room)) => (
            if room == Ok::<bool, Seq<char>>(true) {
                ProvisionView::WantLocal {
                    job,
                    vm_name: machine_name(order),
                    size: vm_size(job.plan.machine_type),
                }
            } else {
                gcp_ask(config, order, job, "c3-standard-4"@, 256)
            },
            seq![],
        ),
        (ProvisionView::WantLocal { job, vm_name, .. }, ProvisionReplyView::Created(r)) => (
            ProvisionView::Done,
            created_writes(order, job, Provider::Local, vm_name, r, node_id),
        ),
        (ProvisionView::WantGcp { job, vm_name, .. }, ProvisionReplyView::Created(r)) => (
            ProvisionView::Done,
            created_writes(order, job, Provider::Gcp, vm_name, r, node_id),
        ),
        _ => (p, seq![]),
    }
}

// ── the functions ─────────────────────────────────────────────────

fn no_writes() -> (writes: Vec<DbWrite>)
    ensures
        write_views(writes@) == Seq::<WriteView>::empty(),
{
    let writes: Vec<DbWrite> = Vec::new();
    assert(write_views(writes@) =~= Seq::<WriteView>::empty());
    writes
}

/// Begins provisioning: the order is marked, and its plan is asked for.
pub fn provision_start(order: &Order) -> (r: (Provision, Vec<DbWrite>))
    ensures
        r.0@ == ProvisionView::WantPlan,
        write_views(r.1@) == seq![
            WriteView::OrderStatus { order_id: order.id@, status: OrderStatus::Provisioning },
        ],
{
    let mut writes: Vec<DbWrite> = Vec::new();
    writes.push(
        DbWrite::OrderStatus { order_id: order.id.clone(), status: OrderStatus::Provisioning },
    );
    assert(write_views(writes@) =~= seq![
        WriteView::OrderStatus { order_id: order.id@, status: OrderStatus::Provisioning },
    ]);
    (Provision::WantPlan, writes)
}

/// The reply of a plan at a time; none where the plan would run past the end
/// of the calendar.
pub open spec fn reply_at(plan: Option<Plan>, now: Timestamp) -> Option<ProvisionReply> {
    if plan matches Some(p) && !representable(hours_later(now@, p.duration_hours as int)) {
        None
    } else {
        Some(ProvisionReply::Plan(plan, now))
    }
}

/// The reply of a plan at `now`; none where the plan would run past the end of
/// the calendar.
pub fn plan_reply_at(plan: Option<Plan>, now: Timestamp) -> (reply: Option<ProvisionReply>)
    ensures
        reply == reply_at(plan, now),
{
    match &plan {
        Some(p) => {
            if !now.can_add_hours(p.duration_hours) {
                return None;
            }
        },
        None => {},
    }
    Some(ProvisionReply::Plan(plan, now))
}

/// The reply of a plan at the current time: what [`plan_reply_at`] makes of
/// the time that the clock shows.
pub fn plan_reply(plan: Option<Plan>) -> (reply: Option<ProvisionReply>)
    ensures
        exists|now: Timestamp| representable(now@) && reply == #[trigger] reply_at(plan, now),
        match reply {
            Some(ProvisionReply::Plan(p, now)) => p == plan && representable(now@) && (p matches Some(
                p,
            ) ==> representable(hours_later(now@, p.duration_hours as int))),
            Some(_) => false,
            None => plan is Some,
        },
{
    let now: Timestamp = Timestamp::now();
    let ghost asked = plan;
    let reply: Option<ProvisionReply> = plan_reply_at(plan, now);
    assert(representable(now@) && reply == reply_at(asked, now));
    reply
}

fn vm_name_of(order: &Order) -> (name: String)
    requires
        cuttable(order.id@),
    ensures
        name@ == machine_name(order@),
{
    let mut name: String = "dd-mkt-".to_owned();
    name.append(short_id(order.id.as_str()));
    name
}

fn want_gcp(config: &MarketConfig, order: &Order, job: Job, machine_type: String, disk_gb: i64) -> (
    p: Provision)
    requires
        cuttable(order.id@),
    ensures
        p@ == gcp_ask(config@, order@, job@, machine_type@, disk_gb),
{
    let vm_name: String = vm_name_of(order);
    let script: String = generate_startup_script(
        config,
        order.github_handle.as_str(),
        vm_name.as_str(),
    );
    Provision::WantGcp { job, vm_name, machine_type, disk_gb, script }
}

fn want_cold(config: &MarketConfig, order: &Order, job: Job) -> (p: Provision)
    requires
        cuttable(order.id@),
    ensures
        p@ == cold_ask(config@, order@, job@),
{
    match job.plan.provider {
        Provider::Local => Provision::WantCapacity(job),
        Provider::Gcp => {
            let machine_type: String = job.plan.machine_type.clone();
            let disk_gb: i64 = job.plan.disk_gb;
            want_gcp(config, order, job, machine_type, disk_gb)
        },
    }
}

fn event(order: &Order, node_id: Option<String>, event_type: &'static str, details: String) -> (w:
    DbWrite)
    ensures
        w@ == order_event(
            order@,
            crate::text::option_view(node_id),
            event_type@,
            details@,
        ),
{
    DbWrite::Event {
        order_id: Some(order.id.clone()),
        node_id,
        event_type,
        details: Some(details),
    }
}

/// The writes for a warm node that was handed over.
pub fn warm_claimed(order: &Order, job: &Job, warm: &Node) -> (writes: Vec<DbWrite>)
    ensures
        write_views(writes@) == claimed_writes(order@, job@, warm@),
{
    let expires_at: String = job.expires_at.to_rfc3339();
    let mut details: String = "vm=".to_owned();
    details.append(warm.vm_name.as_str());
    let mut writes: Vec<DbWrite> = Vec::new();
    writes.push(
        DbWrite::ClaimWarmNode {
            node_id: warm.id.clone(),
            order_id: order.id.clone(),
            github_handle: order.github_handle.clone(),
            expires_at: expires_at.clone(),
        },
    );
    writes.push(DbWrite::OrderProvisioned { order_id: order.id.clone(), expires_at });
    writes.push(event(order, Some(warm.id.clone()), "warm_claimed", details));
    assert(write_views(writes@) =~= claimed_writes(order@, job@, warm@));
    writes
}

/// The writes for a machine that was made or could not be made.
pub fn machine_created(
    order: &Order,
    job: &Job,
    provider: Provider,
    vm_name: String,
    result: Result<(), String>,
    node_id: &str,
) -> (writes: Vec<DbWrite>)
    ensures
        write_views(writes@) == created_writes(
            order@,
            job@,
            provider,
            vm_name@,
            match result {
                Ok(_) => Ok(()),
                Err(e) => Err(e@),
            },
            node_id@,
        ),
{
    let mut writes: Vec<DbWrite> = Vec::new();
    match result {
        Ok(_) => {
            let expires_at: String = job.expires_at.to_rfc3339();
            let mut details: String = "provider=".to_owned();
            details.append(provider.as_str());
            details.append(", vm=");
            details.append(vm_name.as_str());
            let node: Node = Node {
                id: node_id.to_owned(),
                order_id: order.id.clone(),
                github_handle: order.github_handle.clone(),
                provider,
                vm_name,
                hostname: None,
                status: NodeStatus::Running,
                created_at: job.now.to_rfc3339(),
                expires_at: expires_at.clone(),
            };
            writes.push(DbWrite::InsertNode(node));
            writes.push(DbWrite::OrderProvisioned { order_id: order.id.clone(), expires_at });
            writes.push(event(order, Some(node_id.to_owned()), "provisioned", details));
            assert(write_views(writes@) =~= created_writes(
                order@,
                job@,
                provider,
                vm_name@,
                Ok(()),
                node_id@,
            ));
        },
        Err(e) => {
            writes.push(DbWrite::OrderFailed { order_id: order.id.clone(), error: e.clone() });
            writes.push(event(order, None, "provision_failed", e));
            assert(write_views(writes@) =~= created_writes(
                order@,
                job@,
                provider,
                vm_name@,
                Err(e@),
                node_id@,
            ));
        },
    }
    writes
}

/// Takes the reply to what `p` asked for. `node_id` names a node that is new.
pub fn provision_step(
    config: &MarketConfig,
    order: &Order,
    p: Provision,
    reply: ProvisionReply,
    node_id: &str,
) -> (r: (Provision, Vec<DbWrite>))
    requires
        replies_to(p@, reply@),
        goes_cold(p@, reply@) ==> cuttable(order.id@),
        reply matches ProvisionReply::Plan(Some(plan), now) ==> representable(
            hours_later(now@, plan.duration_hours as int),
        ),
    ensures
        (r.0@, write_views(r.1@)) == provision_next(config@, order@, p@, reply@, node_id@),
{
    match (p, reply) {
        (Provision::WantPlan, ProvisionReply::Plan(None, _)) => {
            let mut writes: Vec<DbWrite> = Vec::new();
            writes.push(
                DbWrite::OrderFailed {
                    order_id: order.id.clone(),
                    error: "plan not found".to_owned(),
                },
            );
            assert(write_views(writes@) =~= seq![
                WriteView::OrderFailed { order_id: order.id@, error: "plan not found"@ },
            ]);
            (Provision::Done, writes)
        },
        (Provision::WantPlan, ProvisionReply::Plan(Some(plan), now)) => {
            let expires_at: Timestamp = now.plus_hours(plan.duration_hours);
            (Provision::WantWarm(Job { plan, now, expires_at }), no_writes())
        },
        (Provision::WantWarm(job), ProvisionReply::Warm(warm)) => {
            if warm.len() > 0 && warm[0].provider == Provider::Local {
                (Provision::WantReassign { job, warm: warm[0].copy() }, no_writes())
            } else {
                (want_cold(config, order, job), no_writes())
            }
        },
        (Provision::WantReassign { job, warm }, ProvisionReply::Reassigned(Ok(_))) => {
            (Provision::Done, warm_claimed(order, &job, &warm))
        },
        (Provision::WantReassign { job, .. }, ProvisionReply::Reassigned(Err(_))) => {
            (want_cold(config, order, job), no_writes())
        },
        (Provision::WantCapacity(job), ProvisionReply::Capacity(room)) => {
            let room: bool = match room {
                Ok(room) => room,
                Err(_) => false,
            };
            if room {
                let size: &'static str = plan_to_vm_size(job.plan.machine_type.as_str());
                (Provision::WantLocal { job, vm_name: vm_name_of(order), size }, no_writes())
            } else {
                (want_gcp(config, order, job, "c3-standard-4".to_owned(), 256), no_writes())
            }
        },
        (Provision::WantLocal { job, vm_name, .. }, ProvisionReply::Created(result)) => {
            (
                Provision::Done,
                machine_created(order, &job, Provider::Local, vm_name, result, node_id),
            )
        },
        (Provision::WantGcp { job, vm_name, .. }, ProvisionReply::Created(result)) => {
            (
                Provision::Done,
                machine_created(order, &job, Provider::Gcp, vm_name, result, node_id),
            )
        },
        (p, _) => (p, no_writes()),
    }
}

/// Takes the reply to what `p` asked for; a node that is new gets a random
/// identifier.
pub fn provision_order(
    config: &MarketConfig,
    order: &Order,
    p: Provision,
    reply: ProvisionReply,
) -> (r: (Provision, Vec<DbWrite>))
    requires
        replies_to(p@, reply@),
        goes_cold(p@, reply@) ==> cuttable(order.id@),
        reply matches ProvisionReply::Plan(Some(plan), now) ==> representable(
            hours_later(now@, plan.duration_hours as int),
        ),
    ensures
        exists|node_id: Seq<char>|
            id_shaped(node_id) && (r.0@, write_views(r.1@)) == provision_next(
                config@,
                order@,
                p@,
                reply@,
                node_id,
            ),
{
    let node_id: String = random_id();
    let r: (Provision, Vec<DbWrite>) = provision_step(config, order, p, reply, node_id.as_str());
    assert(id_shaped(node_id@) && (r.0@, write_views(r.1@)) == provision_next(
        config@,
        order@,
        p@,
        reply@,
        node_id@,
    ));
    r
}

// ── laws ──────────────────────────────────────────────────────────

/// How many more things provisioning can ask for.
pub open spec fn provision_asks_left(p: ProvisionView) -> nat {
    match p {
        ProvisionView::WantPlan => 5,
        ProvisionView::WantWarm(_) => 4,
        ProvisionView::WantReassign { .. } => 3,
        ProvisionView::WantCapacity(_) => 2,
        ProvisionView::WantLocal { .. } => 1,
        ProvisionView::WantGcp { .. } => 1,
        ProvisionView::Done => 0,
    }
}

/// Provisioning comes to an end: every reply leaves it fewer things to ask for.
pub proof fn law_provisioning_ends(
    config: MarketView,
    order: OrderView,
    p: ProvisionView,
    reply: ProvisionReplyView,
    node_id: Seq<char>,
)
    requires
        replies_to(p, reply),
    ensures
        provision_asks_left(provision_next(config, order, p, reply, node_id).0)
            < provision_asks_left(p),
{
}

/// The write settles an order.
pub open spec fn settles_order(w: WriteView, order_id: Seq<char>) -> bool {
    match w {
        WriteView::OrderProvisioned { order_id: id, .. } => id == order_id,
        WriteView::OrderFailed { order_id: id, .. } => id == order_id,
        _ => false,
    }
}

/// An order is settled when provisioning ends and not before: until then
/// nothing is written, and the last writes make it active or failed, once.
pub proof fn law_provisioning_settles_once(
    config: MarketView,
    order: OrderView,
    p: ProvisionView,
    reply: ProvisionReplyView,
    node_id: Seq<char>,
)
    requires
        replies_to(p, reply),
    ensures
        ({
            let (q, writes) = provision_next(config, order, p, reply, node_id);
            if q is Done {
                settle_once(writes, order.id)
            } else {
                writes.len() == 0
            }
        }),
{
    let (q, writes) = provision_next(config, order, p, reply, node_id);
    if q is Done {
        match (p, reply) {
            (ProvisionView::WantPlan, _) => {
                assert(settles_order(writes[0], order.id));
            },
            (ProvisionView::WantReassign { .. }, _) => {
                assert(settles_order(writes[1], order.id));
            },
            (_, ProvisionReplyView::Created(Ok(_))) => {
                assert(settles_order(writes[1], order.id));
            },
            _ => {
                assert(settles_order(writes[0], order.id));
            },
        }
    }
}

/// A warm local node is taken before anything else, and a warm node in the
/// cloud is never handed over.
pub proof fn law_warm_nodes_first(
    config: MarketView,
    order: OrderView,
    job: JobView,
    warm: Seq<NodeView>,
    node_id: Seq<char>,
)
    ensures
        ({
            let q = provision_next(
                config,
                order,
                ProvisionView::WantWarm(job),
                ProvisionReplyView::Warm(warm),
                node_id,
            ).0;
            &&& warm.len() > 0 && warm[0].provider == Provider::Local ==> q
                == (ProvisionView::WantReassign { job, warm: warm[0] })
            &&& warm.len() > 0 && warm[0].provider == Provider::Gcp ==> !(q is WantReassign)
            &&& warm.len() == 0 ==> !(q is WantReassign)
        }),
{
}

/// A node and its order end together: a new or handed-over node gets the very
/// expiry that its order gets.
pub proof fn law_node_and_order_expire_together(
    order: OrderView,
    job: JobView,
    warm: NodeView,
    provider: Provider,
    vm_name: Seq<char>,
    node_id: Seq<char>,
)
    ensures
        claimed_writes(order, job, warm)[0]->ClaimWarmNode_expires_at == claimed_writes(
            order,
            job,
            warm,
        )[1]->OrderProvisioned_expires_at,
        created_writes(
            order,
            job,
            provider,
            vm_name,
            Ok(()),
            node_id,
        )[0]->InsertNode_0.expires_at == created_writes(
            order,
            job,
            provider,
            vm_name,
            Ok(()),
            node_id,
        )[1]->OrderProvisioned_expires_at,
{
}

/// Provisioning that is given one reply after another, as long as they answer
/// what it asks for, and all that it writes.
pub open spec fn provision_run(
    config: MarketView,
    order: OrderView,
    p: ProvisionView,
    replies: Seq<ProvisionReplyView>,
    node_id: Seq<char>,
) -> (ProvisionView, Seq<WriteView>)
    decreases replies.len(),
{
    if replies.len() == 0 || !replies_to(p, replies[0]) {
        (p, seq![])
    } else {
        let (q, writes) = provision_next(config, order, p, replies[0], node_id);
        let (r, more) = provision_run(
            config,
            order,
            q,
            replies.subrange(1, replies.len() as int),
            node_id,
        );
        (r, writes + more)
    }
}

/// The writes settle an order exactly once.
pub open spec fn settle_once(writes: Seq<WriteView>, order_id: Seq<char>) -> bool {
    exists|i: int|
        0 <= i < writes.len() && settles_order(#[trigger] writes[i], order_id) && forall|j: int|
            0 <= j < writes.len() && j != i ==> !settles_order(#[trigger] writes[j], order_id)
}

/// The whole of provisioning, whatever it is told: once it is over, its writes
/// have made the order active or failed, exactly once, and before that it has
/// written nothing.
pub proof fn law_whole_provisioning(
    config: MarketView,
    order: OrderView,
    p: ProvisionView,
    replies: Seq<ProvisionReplyView>,
    node_id: Seq<char>,
)
    requires
        !(p is Done),
    ensures
        ({
            let (q, writes) = provision_run(config, order, p, replies, node_id);
            if q is Done {
                settle_once(writes, order.id)
            } else {
                writes.len() == 0
            }
        }),
    decreases replies.len(),
{
    if replies.len() > 0 && replies_to(p, replies[0]) {
        let (q, writes) = provision_next(config, order, p, replies[0], node_id);
        let rest = replies.subrange(1, replies.len() as int);
        law_provisioning_settles_once(config, order, p, replies[0], node_id);
        if q is Done {
            let (r, more) = provision_run(config, order, q, rest, node_id);
            assert(writes + more =~= writes);
        } else {
            law_whole_provisioning(config, order, q, rest, node_id);
            let (r, more) = provision_run(config, order, q, rest, node_id);
            assert(writes + more =~= more);
        }
    }
}

} // verus!
