//! The warm pool: machines that are made before anybody ordered them.
//!
//! A language model plans; the rules here say what becomes of its actions.

use crate::config::{MarketConfig, MarketView};
use crate::gcp::{generate_startup_script, startup_script};
use crate::ids::{cuttable, id_shaped, law_ids_are_cuttable, random_id, short, short_id};
use crate::models::{
    node_views, provider_named, Node, NodeStatus, NodeView, Provider,
};
use crate::text::{
    option_view, same_text, strip_prefix, strip_suffix, trim, trimmed,
    without_prefix, without_suffix,
};
use crate::time::{representable, rfc3339_of, Moment, Timestamp};
use crate::writes::{write_views, DbWrite, WriteView};
use vstd::prelude::*;

verus! {

/// What the model is told.
pub const SYSTEM_PROMPT: &'static str = r#"You are a capacity planner for a TDX node marketplace. Users pay Bitcoin to get confidential computing VMs.

Your job: decide how many warm (pre-provisioned, unassigned) VMs to keep ready so customers get instant allocation when they pay.

You will receive the current pool state as JSON. Respond with a JSON object containing:
- "actions": array of actions to take
- "reasoning": one sentence explaining your decision

Each action is one of:
- {"action": "create_warm", "provider": "local", "size": "small"}
- {"action": "create_warm", "provider": "gcp", "size": "tiny"}
- {"action": "destroy_warm", "provider": "local", "node_id": "..."}
- {"action": "none"}

Local sizes: tiny, small, medium, large
GCP sizes: tiny (c3-standard-4), standard (c3-standard-8)

Guidelines:
- Prefer local VMs (cheaper). Only pre-provision GCP if local is at capacity.
- Keep at least 1 warm local node if there's been any recent demand.
- Scale warm pool with demand: more orders recently = more warm nodes.
- Don't exceed pool_max total warm nodes.
- If no orders in weeks, scale down to 0 to save resources.
- Small is the most popular size. Default to small unless demand data shows otherwise.
- Consider time patterns: if most orders come during business hours and it's late night, fewer warm nodes needed.
- Warm GCP nodes cost real money. Only keep them warm if demand justifies it.

Respond with ONLY the JSON object, no markdown fences."#;

/// Whose a warm node is.
pub const UNCLAIMED: &'static str = "unclaimed";

/// Until when a warm node lasts.
pub const FAR_FUTURE: &'static str = "2099-01-01T00:00:00Z";

// ── the state that the model sees ─────────────────────────────────

/// An order as the model sees it.
#[derive(Clone, Debug)]
pub struct RecentOrder {
    /// Where it stands.
    pub status: String,
    /// What was ordered.
    pub plan_id: String,
    /// When it was paid.
    pub paid_at: Option<String>,
    /// When it was made.
    pub created_at: String,
    /// Who runs it.
    pub provider: String,
    /// The name of what was ordered.
    pub plan_name: String,
}

/// The state of the pool.
#[derive(Clone, Debug)]
pub struct PoolState {
    /// When it was taken.
    pub timestamp: String,
    /// Warm nodes on the operator's host.
    pub warm_nodes_local: i64,
    /// Warm nodes in Google's cloud.
    pub warm_nodes_gcp: i64,
    /// Nodes that run for somebody.
    pub active_nodes: usize,
    /// The latest orders.
    pub recent_orders: Vec<RecentOrder>,
    /// Whether the operator's host has room.
    pub local_capacity_available: bool,
    /// The most warm nodes.
    pub pool_max: usize,
}

/// How many nodes run for somebody.
pub open spec fn running(nodes: Seq<NodeView>) -> nat
    decreases nodes.len(),
{
    if nodes.len() == 0 {
        0
    } else {
        running(nodes.drop_last()) + if nodes.last().status == NodeStatus::Running {
            1nat
        } else {
            0
        }
    }
}

/// How many nodes run for somebody.
pub fn count_running(nodes: &Vec<Node>) -> (n: usize)
    ensures
        n == running(node_views(nodes@)),
{
    let mut n: usize = 0;
    let mut i: usize = 0;
    assert(node_views(nodes@).take(0) =~= Seq::<NodeView>::empty());
    while i < nodes.len()
        invariant
            i <= nodes.len(),
            n <= i,
            n == running(node_views(nodes@).take(i as int)),
        decreases nodes.len() - i,
    {
        let ghost upto = node_views(nodes@).take(i + 1);
        proof {
            assert(upto.drop_last() =~= node_views(nodes@).take(i as int));
            assert(upto.last() == nodes@[i as int]@);
        }
        if nodes[i].status == NodeStatus::Running {
            n = n + 1;
        }
        i = i + 1;
    }
    assert(node_views(nodes@).take(nodes@.len() as int) =~= node_views(nodes@));
    n
}

/// The state of the pool at `now`. A host whose room cannot be told has none.
pub fn pool_state(
    now: &Timestamp,
    warm_nodes_local: i64,
    warm_nodes_gcp: i64,
    nodes: &Vec<Node>,
    recent_orders: Vec<RecentOrder>,
    capacity: Result<bool, String>,
    pool_max: usize,
) -> (state: PoolState)
    ensures
        state.timestamp@ == rfc3339_of(now@),
        state.warm_nodes_local == warm_nodes_local,
        state.warm_nodes_gcp == warm_nodes_gcp,
        state.active_nodes == running(node_views(nodes@)),
        state.recent_orders == recent_orders,
        state.local_capacity_available == (capacity matches Ok(room) && room),
        state.pool_max == pool_max,
{
    PoolState {
        timestamp: now.to_rfc3339(),
        warm_nodes_local,
        warm_nodes_gcp,
        active_nodes: count_running(nodes),
        recent_orders,
        local_capacity_available: match capacity {
            Ok(room) => room,
            Err(_) => false,
        },
        pool_max,
    }
}

/// The state of the pool now.
pub fn gather_state(
    warm_nodes_local: i64,
    warm_nodes_gcp: i64,
    nodes: &Vec<Node>,
    recent_orders: Vec<RecentOrder>,
    capacity: Result<bool, String>,
    pool_max: usize,
) -> (state: PoolState)
    ensures
        exists|now: Moment| representable(now) && state.timestamp@ == rfc3339_of(now),
        state.warm_nodes_local == warm_nodes_local,
        state.warm_nodes_gcp == warm_nodes_gcp,
        state.active_nodes == running(node_views(nodes@)),
        state.recent_orders == recent_orders,
        state.local_capacity_available == (capacity matches Ok(room) && room),
        state.pool_max == pool_max,
{
    let now: Timestamp = Timestamp::now();
    let state: PoolState = pool_state(
        &now,
        warm_nodes_local,
        warm_nodes_gcp,
        nodes,
        recent_orders,
        capacity,
        pool_max,
    );
    assert(representable(now@) && state.timestamp@ == rfc3339_of(now@));
    state
}

// ── the model's answer ────────────────────────────────────────────

/// What the model is asked.
pub fn user_prompt(state_json: &str) -> (prompt: String)
    ensures
        prompt@ == "Current pool state:\n"@ + state_json@,
{
    let mut prompt: String = "Current pool state:\n".to_owned();
    prompt.append(state_json);
    prompt
}

/// A text without a prefix, or `other` where it does not have it.
pub open spec fn unprefixed_or(s: Seq<char>, prefix: Seq<char>, other: Seq<char>) -> Seq<char> {
    match without_prefix(s, prefix) {
        Some(rest) => rest,
        None => other,
    }
}

/// The plan in the model's answer: the answer without the white space around
/// it, without a plain opening fence and without a closing one. Where a fence
/// is missing, the search goes on from the whole answer.
pub open spec fn cleaned(content: Seq<char>) -> Seq<char> {
    let whole = trim(content);
    let opened = unprefixed_or(unprefixed_or(whole, "```json"@, whole), "```"@, whole);
    trim(
        match without_suffix(opened, "```"@) {
            Some(rest) => rest,
            None => whole,
        },
    )
}

/// The plan in the model's answer.
pub fn clean_reply(content: &str) -> (plan: String)
    ensures
        plan@ == cleaned(content@),
{
    let whole: &str = trimmed(content);
    let named: &str = match strip_prefix(whole, "```json") {
        Some(rest) => rest,
        None => whole,
    };
    let opened: &str = match strip_prefix(named, "```") {
        Some(rest) => rest,
        None => whole,
    };
    let closed: &str = match strip_suffix(opened, "```") {
        Some(rest) => rest,
        None => whole,
    };
    trimmed(closed).to_owned()
}

/// What the model wants done.
#[derive(Clone, Debug)]
pub struct PoolAction {
    /// What.
    pub action: String,
    /// With whom.
    pub provider: String,
    /// How large.
    pub size: String,
    /// To which node.
    pub node_id: Option<String>,
}

/// What the model answers.
#[derive(Clone, Debug)]
pub struct PoolPlan {
    /// What it wants done.
    pub actions: Vec<PoolAction>,
    /// Why.
    pub reasoning: String,
}

/// What a [`PoolAction`] holds.
#[verifier::ext_equal]
pub struct PoolActionView {
    pub action: Seq<char>,
    pub provider: Seq<char>,
    pub size: Seq<char>,
    pub node_id: Option<Seq<char>>,
}

impl View for PoolAction {
    type V = PoolActionView;

    open spec fn view(&self) -> PoolActionView {
        PoolActionView {
            action: self.action@,
            provider: self.provider@,
            size: self.size@,
            node_id: option_view(self.node_id),
        }
    }
}

// ── actions ───────────────────────────────────────────────────────

/// What an action comes to.
#[derive(Clone, Debug)]
pub enum PoolTask {
    /// Make a machine on the operator's host.
    CreateLocal {
        /// Its name.
        vm_name: String,
        /// Its size.
        size: String,
    },
    /// Make a machine in Google's cloud.
    CreateGcp {
        /// Its name.
        vm_name: String,
        /// Its type.
        machine_type: &'static str,
        /// Its disk.
        disk_gb: i64,
        /// The script that it runs.
        script: String,
    },
    /// Look for a warm node to destroy.
    FindWarm {
        /// With whom.
        provider: String,
        /// Which one.
        node_id: String,
    },
    /// Do nothing.
    Nothing,
    /// Report a fault.
    Refused(String),
}

/// What a [`PoolTask`] holds.
#[verifier::ext_equal]
pub enum PoolTaskView {
    CreateLocal { vm_name: Seq<char>, size: Seq<char> },
    CreateGcp { vm_name: Seq<char>, machine_type: Seq<char>, disk_gb: i64, script: Seq<char> },
    FindWarm { provider: Seq<char>, node_id: Seq<char> },
    Nothing,
    Refused(Seq<char>),
}

impl View for PoolTask {
    type V = PoolTaskView;

    open spec fn view(&self) -> PoolTaskView {
        match self {
            PoolTask::CreateLocal { vm_name, size } => PoolTaskView::CreateLocal {
                vm_name: vm_name@,
                size: size@,
            },
            PoolTask::CreateGcp { vm_name, machine_type, disk_gb, script } => {
                PoolTaskView::CreateGcp {
                    vm_name: vm_name@,
                    machine_type: machine_type@,
                    disk_gb: *disk_gb,
                    script: script@,
                }
            },
            PoolTask::FindWarm { provider, node_id } => PoolTaskView::FindWarm {
                provider: provider@,
                node_id: node_id@,
            },
            PoolTask::Nothing => PoolTaskView::Nothing,
            PoolTask::Refused(e) => PoolTaskView::Refused(e@),
        }
    }
}

/// The name of a warm machine.
pub open spec fn warm_name(fresh_id: Seq<char>) -> Seq<char> {
    "warm-"@ + short(fresh_id)
}

/// The type of a warm machine in Google's cloud.
pub open spec fn gcp_size(size: Seq<char>) -> Seq<char> {
    if size == "standard"@ {
        "c3-standard-8"@
    } else {
        "c3-standard-4"@
    }
}

/// What an action comes to; `fresh_id` names a new machine.
pub open spec fn task_of(config: MarketView, action: PoolActionView, fresh_id: Seq<char>) -> PoolTaskView {
    if action.action == "create_warm"@ {
        match provider_named(action.provider) {
            Provider::Local => PoolTaskView::CreateLocal {
                vm_name: warm_name(fresh_id),
                size: action.size,
            },
            Provider::Gcp => PoolTaskView::CreateGcp {
                vm_name: warm_name(fresh_id),
                machine_type: gcp_size(action.size),
                disk_gb: 256,
                script: startup_script(config, UNCLAIMED@, warm_name(fresh_id)),
            },
        }
    } else if action.action == "destroy_warm"@ {
        match action.node_id {
            Some(node_id) => PoolTaskView::FindWarm { provider: action.provider, node_id },
            None => PoolTaskView::Refused("destroy_warm requires node_id"@),
        }
    } else {
        PoolTaskView::Nothing
    }
}

/// What an action comes to; `fresh_id` names a new machine. An unknown action
/// comes to nothing.
pub fn plan_action(config: &MarketConfig, action: &PoolAction, fresh_id: &str) -> (task: PoolTask)
    requires
        action.action@ == "create_warm"@ ==> cuttable(fresh_id@),
    ensures
        task@ == task_of(config@, action@, fresh_id@),
{
    if same_text(action.action.as_str(), "create_warm") {
        let mut vm_name: String = "warm-".to_owned();
        vm_name.append(short_id(fresh_id));
        match Provider::from_str(action.provider.as_str()) {
            Provider::Local => PoolTask::CreateLocal { vm_name, size: action.size.clone() },
            Provider::Gcp => {
                let machine_type: &'static str = if same_text(action.size.as_str(), "standard") {
                    "c3-standard-8"
                } else {
                    "c3-standard-4"
                };
                let script: String = generate_startup_script(config, UNCLAIMED, vm_name.as_str());
                PoolTask::CreateGcp { vm_name, machine_type, disk_gb: 256, script }
            },
        }
    } else if same_text(action.action.as_str(), "destroy_warm") {
        match &action.node_id {
            Some(node_id) => PoolTask::FindWarm {
                provider: action.provider.clone(),
                node_id: node_id.clone(),
            },
            None => PoolTask::Refused("destroy_warm requires node_id".to_owned()),
        }
    } else {
        PoolTask::Nothing
    }
}

/// What an action comes to; a new machine gets a random name.
pub fn execute_action(config: &MarketConfig, action: &PoolAction) -> (task: PoolTask)
    ensures
        exists|fresh_id: Seq<char>|
            id_shaped(fresh_id) && task@ == task_of(config@, action@, fresh_id),
{
    let fresh_id: String = random_id();
    proof {
        law_ids_are_cuttable(fresh_id@);
    }
    let task: PoolTask = plan_action(config, action, fresh_id.as_str());
    assert(id_shaped(fresh_id@) && task@ == task_of(config@, action@, fresh_id@));
    task
}

/// The node of a warm machine that was made at `now`.
pub open spec fn warm_node(
    provider: Provider,
    vm_name: Seq<char>,
    now: Moment,
    node_id: Seq<char>,
) -> NodeView {
    NodeView {
        id: node_id,
        order_id: Seq::empty(),
        github_handle: UNCLAIMED@,
        provider,
        vm_name,
        hostname: None,
        status: NodeStatus::Warm,
        created_at: rfc3339_of(now),
        expires_at: FAR_FUTURE@,
    }
}

/// The writes for a warm machine that was made.
pub open spec fn warm_writes(
    provider: Provider,
    vm_name: Seq<char>,
    now: Moment,
    node_id: Seq<char>,
) -> Seq<WriteView> {
    seq![
        WriteView::InsertNode(warm_node(provider, vm_name, now, node_id)),
        WriteView::Event {
            order_id: None,
            node_id: Some(node_id),
            event_type: "warm_created"@,
            details: Some(provider.text()),
        },
    ]
}

/// The writes for a warm machine that was made at `now`; `node_id` names its
/// node.
pub fn warm_created(provider: Provider, vm_name: String, now: &Timestamp, node_id: &str) -> (writes:
    Vec<DbWrite>)
    ensures
        write_views(writes@) == warm_writes(provider, vm_name@, now@, node_id@),
{
    let node: Node = Node {
        id: node_id.to_owned(),
        order_id: String::new(),
        github_handle: UNCLAIMED.to_owned(),
        provider,
        vm_name,
        hostname: None,
        status: NodeStatus::Warm,
        created_at: now.to_rfc3339(),
        expires_at: FAR_FUTURE.to_owned(),
    };
    let mut writes: Vec<DbWrite> = Vec::new();
    writes.push(DbWrite::InsertNode(node));
    writes.push(
        DbWrite::Event {
            order_id: None,
            node_id: Some(node_id.to_owned()),
            event_type: "warm_created",
            details: Some(provider.as_str().to_owned()),
        },
    );
    assert(write_views(writes@) =~= warm_writes(provider, vm_name@, now@, node_id@));
    writes
}

/// The writes for a warm machine that was made just now; its node gets a random
/// identifier.
pub fn record_warm(provider: Provider, vm_name: String) -> (writes: Vec<DbWrite>)
    ensures
        exists|now: Moment, node_id: Seq<char>|
            representable(now) && #[trigger] id_shaped(node_id) && write_views(writes@)
                == #[trigger] warm_writes(provider, vm_name@, now, node_id),
{
    let now: Timestamp = Timestamp::now();
    let node_id: String = random_id();
    let writes: Vec<DbWrite> = warm_created(provider, vm_name, &now, node_id.as_str());
    assert(representable(now@) && id_shaped(node_id@) && write_views(writes@) == warm_writes(
        provider,
        vm_name@,
        now@,
        node_id@,
    ));
    writes
}

/// The warm node to destroy: the one that was named, or else the first.
pub open spec fn destroyed(warm: Seq<NodeView>, node_id: Seq<char>) -> Option<NodeView> {
    match named_node(warm, node_id) {
        Some(node) => Some(node),
        None => if warm.len() > 0 {
            Some(warm[0])
        } else {
            None
        },
    }
}

/// The first node with an identifier.
pub open spec fn named_node(nodes: Seq<NodeView>, node_id: Seq<char>) -> Option<NodeView>
    decreases nodes.len(),
{
    if nodes.len() == 0 {
        None
    } else if nodes[0].id == node_id {
        Some(nodes[0])
    } else {
        named_node(nodes.subrange(1, nodes.len() as int), node_id)
    }
}

/// The view of an optional node.
pub open spec fn node_option(node: Option<Node>) -> Option<NodeView> {
    match node {
        Some(n) => Some(n@),
        None => None,
    }
}

/// The warm node to destroy: the one that was named, or else the first.
pub fn pick_warm(warm: &Vec<Node>, node_id: &str) -> (node: Option<Node>)
    ensures
        node_option(node) == destroyed(node_views(warm@), node_id@),
{
    let ghost all = node_views(warm@);
    let mut i: usize = 0;
    assert(all.subrange(0, all.len() as int) =~= all);
    while i < warm.len()
        invariant
            all == node_views(warm@),
            i <= warm.len(),
            named_node(all, node_id@) == named_node(
                all.subrange(i as int, all.len() as int),
                node_id@,
            ),
        decreases warm.len() - i,
    {
        let ghost rest = all.subrange(i as int, all.len() as int);
        proof {
            assert(rest[0] == warm@[i as int]@);
            assert(rest.subrange(1, rest.len() as int) =~= all.subrange(i + 1, all.len() as int));
        }
        if same_text(warm[i].id.as_str(), node_id) {
            return Some(warm[i].copy());
        }
        i = i + 1;
    }
    if warm.len() > 0 {
        return Some(warm[0].copy());
    }
    None
}

/// The writes for a warm node that was destroyed.
pub fn warm_destroyed(node: &Node) -> (writes: Vec<DbWrite>)
    ensures
        write_views(writes@) == seq![
            WriteView::NodeStatus { node_id: node.id@, status: NodeStatus::Deleted },
            WriteView::Event {
                order_id: None,
                node_id: Some(node.id@),
                event_type: "warm_destroyed"@,
                details: None,
            },
        ],
{
    let mut writes: Vec<DbWrite> = Vec::new();
    writes.push(
        DbWrite::NodeStatus { node_id: node.id.clone(), status: NodeStatus::Deleted },
    );
    writes.push(
        DbWrite::Event {
            order_id: None,
            node_id: Some(node.id.clone()),
            event_type: "warm_destroyed",
            details: None,
        },
    );
    assert(write_views(writes@) =~= seq![
        WriteView::NodeStatus { node_id: node.id@, status: NodeStatus::Deleted },
        WriteView::Event {
            order_id: None,
            node_id: Some(node.id@),
            event_type: "warm_destroyed"@,
            details: None,
        },
    ]);
    writes
}

/// The write for an action that failed.
pub fn action_failed(error: &str) -> (write: DbWrite)
    ensures
        write@ == (WriteView::Event {
            order_id: None,
            node_id: None,
            event_type: "pool_action_failed"@,
            details: Some(error@),
        }),
{
    DbWrite::Event {
        order_id: None,
        node_id: None,
        event_type: "pool_action_failed",
        details: Some(error.to_owned()),
    }
}

// ── laws ──────────────────────────────────────────────────────────

/// Only nodes of the list are destroyed, and the one that was named if it is
/// there.
pub proof fn law_destroys_what_was_named(warm: Seq<NodeView>, node_id: Seq<char>)
    ensures
        destroyed(warm, node_id) matches Some(node) ==> warm.contains(node),
        (exists|i: int| 0 <= i < warm.len() && (#[trigger] warm[i]).id == node_id) ==> (destroyed(
            warm,
            node_id,
        ) matches Some(node) && node.id == node_id),
        destroyed(warm, node_id) is None <==> warm.len() == 0,
{
    lemma_named_node(warm, node_id);
    if warm.len() > 0 {
        assert(warm.contains(warm[0]));
    }
}

proof fn lemma_named_node(nodes: Seq<NodeView>, node_id: Seq<char>)
    ensures
        named_node(nodes, node_id) matches Some(node) ==> nodes.contains(node) && node.id
            == node_id,
        (exists|i: int| 0 <= i < nodes.len() && (#[trigger] nodes[i]).id == node_id)
            ==> named_node(nodes, node_id) is Some,
    decreases nodes.len(),
{
    if nodes.len() > 0 {
        let rest = nodes.subrange(1, nodes.len() as int);
        lemma_named_node(rest, node_id);
        assert(nodes.contains(nodes[0]));
        if let Some(node) = named_node(rest, node_id) {
            let i = choose|i: int| 0 <= i < rest.len() && rest[i] == node;
            assert(nodes[i + 1] == node);
        }
        if nodes[0].id != node_id && exists|i: int|
            0 <= i < nodes.len() && (#[trigger] nodes[i]).id == node_id {
            let i = choose|i: int| 0 <= i < nodes.len() && (#[trigger] nodes[i]).id == node_id;
            assert(rest[i - 1].id == node_id);
        }
    }
}

/// A warm machine is nobody's: it serves no order and bears no customer's name.
pub proof fn law_warm_nodes_are_unclaimed(
    provider: Provider,
    vm_name: Seq<char>,
    now: Moment,
    node_id: Seq<char>,
)
    ensures
        warm_node(provider, vm_name, now, node_id).status == NodeStatus::Warm,
        warm_node(provider, vm_name, now, node_id).order_id.len() == 0,
        warm_node(provider, vm_name, now, node_id).github_handle == "unclaimed"@,
{
}

} // verus!
