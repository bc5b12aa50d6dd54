//! What the marketplace's operations are for: laws over what goes into them
//! and what comes out.

use crate::btcpay::WebhookPayload;
use crate::config::MarketView;
use crate::db::price_list;
use crate::gcp::{instance, startup_script};
use crate::local::{create_command, room_left, ssh_call, vm_size};
use crate::models::{
    node_status_named, order_status_named, provider_named, NodeStatus, NodeView, Order, OrderStatus,
    OrderView, Plan, PlanView, Provider,
};
use crate::pool::{cleaned, destroyed, running, task_of, PoolActionView, PoolTaskView};
use crate::provision::{
    provision_next, provision_run, replies_to, JobView, ProvisionReplyView, ProvisionView,
};
use crate::routes::{admin_value, is_admin, order_fault, payment_writes, pending_order, OrderForm};
use crate::templates::{
    badge_class, card, cards, node_row, node_rows, order_page, order_row, order_rows,
    payment_section, sats_text,
};
use crate::text::{decimal, occurs, occurs_at, signed_decimal, starts_with, trim};
use crate::time::{rfc3339, Moment};
use crate::writes::WriteView;
use vstd::prelude::*;

verus! {

// ── provisioning ──────────────────────────────────────────────────

/// The name of an order's machine.
pub open spec fn machine_of(order: OrderView) -> Seq<char> {
    "dd-mkt-"@ + crate::ids::short(order.id)
}

/// A write of provisioning that is about this order and gives it its time:
/// from `now` until the moment `until`, as RFC 3339 texts.
pub open spec fn serves(w: WriteView, order: OrderView, now: Moment, until: Moment) -> bool {
    match w {
        WriteView::ClaimWarmNode { order_id, github_handle, expires_at, .. } => {
            &&& order_id == order.id
            &&& github_handle == order.github_handle
            &&& expires_at == rfc3339(until.secs, until.nanos)
        },
        WriteView::OrderProvisioned { order_id, expires_at } => {
            &&& order_id == order.id
            &&& expires_at == rfc3339(until.secs, until.nanos)
        },
        WriteView::InsertNode(node) => {
            &&& node.order_id == order.id
            &&& node.github_handle == order.github_handle
            &&& node.vm_name == machine_of(order)
            &&& node.hostname is None
            &&& node.status == NodeStatus::Running
            &&& node.created_at == rfc3339(now.secs, now.nanos)
            &&& node.expires_at == rfc3339(until.secs, until.nanos)
        },
        WriteView::OrderFailed { order_id, .. } => order_id == order.id,
        WriteView::Event { order_id, .. } => order_id == Some(order.id),
        _ => false,
    }
}

/// Provisioning is at work on a job that ends at `until`.
spec fn works_until(p: ProvisionView, order: OrderView, now: Moment, until: Moment) -> bool {
    match p {
        ProvisionView::WantPlan => false,
        ProvisionView::WantWarm(job) => job.now == now && job.expires_at == until,
        ProvisionView::WantReassign { job, .. } => job.now == now && job.expires_at == until,
        ProvisionView::WantCapacity(job) => job.now == now && job.expires_at == until,
        ProvisionView::WantLocal { job, vm_name, .. } => job.now == now && job.expires_at == until
            && vm_name == machine_of(order),
        ProvisionView::WantGcp { job, vm_name, .. } => job.now == now && job.expires_at == until
            && vm_name == machine_of(order),
        ProvisionView::Done => true,
    }
}

proof fn lemma_works_until(
    config: MarketView,
    order: OrderView,
    p: ProvisionView,
    replies: Seq<ProvisionReplyView>,
    node_id: Seq<char>,
    now: Moment,
    until: Moment,
)
    requires
        works_until(p, order, now, until),
    ensures
        forall|i: int|
            0 <= i < provision_run(config, order, p, replies, node_id).1.len() ==> serves(
                #[trigger] provision_run(config, order, p, replies, node_id).1[i],
                order,
                now,
                until,
            ),
    decreases replies.len(),
{
    if replies.len() > 0 && replies_to(p, replies[0]) {
        let rest = replies.subrange(1, replies.len() as int);
        let (q, writes) = provision_next(config, order, p, replies[0], node_id);
        lemma_works_until(config, order, q, rest, node_id, now, until);
        let more = provision_run(config, order, q, rest, node_id).1;
        let all = provision_run(config, order, p, replies, node_id).1;
        assert(all == writes + more);
        assert forall|i: int| 0 <= i < all.len() implies serves(
            #[trigger] all[i],
            order,
            now,
            until,
        ) by {
            if i < writes.len() {
                assert(all[i] == writes[i]);
                assert(writes.len() <= 3);
            } else {
                assert(all[i] == more[i - writes.len()]);
            }
        }
    }
}

/// An order is served for exactly the hours of its plan: whatever provisioning
/// is told after the plan, each expiry that it writes, on the order and on its
/// node, is that many hours of 3600 seconds after it was begun, and all that it
/// writes is about this order and its owner.
pub proof fn law_orders_run_for_the_hours_of_their_plan(
    config: MarketView,
    order: OrderView,
    plan: PlanView,
    now: Moment,
    replies: Seq<ProvisionReplyView>,
    node_id: Seq<char>,
    i: int,
)
    requires
        0 <= now.nanos < 1_000_000_000,
    ensures
        ({
            let told = seq![ProvisionReplyView::Plan(Some(plan), now)] + replies;
            let writes = provision_run(
                config,
                order,
                ProvisionView::WantPlan,
                told,
                node_id,
            ).1;
            let until = Moment {
                secs: now.secs + 3600 * plan.duration_hours,
                nanos: now.nanos,
            };
            0 <= i < writes.len() ==> serves(writes[i], order, now, until)
        }),
{
    let told = seq![ProvisionReplyView::Plan(Some(plan), now)] + replies;
    let until = Moment { secs: now.secs + 3600 * plan.duration_hours, nanos: now.nanos };
    let (q, writes) = provision_next(config, order, ProvisionView::WantPlan, told[0], node_id);
    assert(told.subrange(1, told.len() as int) =~= replies);
    assert(works_until(q, order, now, until));
    lemma_works_until(config, order, q, replies, node_id, now, until);
    let more = provision_run(config, order, q, replies, node_id).1;
    assert(writes + more =~= more);
}

/// An order whose plan is gone fails.
pub proof fn law_orders_without_a_plan_fail(
    config: MarketView,
    order: OrderView,
    now: Moment,
    node_id: Seq<char>,
)
    ensures
        ({
            let (q, writes) = provision_next(
                config,
                order,
                ProvisionView::WantPlan,
                ProvisionReplyView::Plan(None, now),
                node_id,
            );
            &&& q is Done
            &&& writes.len() == 1 && writes[0] is OrderFailed && writes[0]->OrderFailed_order_id
                == order.id
        }),
{
}

/// What provisioning does with each reply. The first warm node is handed over
/// where it is local. Else a cloud plan gets a cloud machine of its own type
/// and disk, and a local plan a local machine of its own size where there is
/// room, and a small cloud machine where there is none or none can be told.
pub proof fn law_provisioning_follows_the_plan(
    config: MarketView,
    order: OrderView,
    job: JobView,
    warm: Seq<NodeView>,
    node: NodeView,
    room: Result<bool, Seq<char>>,
    e: Seq<char>,
    node_id: Seq<char>,
)
    ensures
        ({
            let told = provision_next(
                config,
                order,
                ProvisionView::WantWarm(job),
                ProvisionReplyView::Warm(warm),
                node_id,
            );
            let refused = provision_next(
                config,
                order,
                ProvisionView::WantReassign { job, warm: node },
                ProvisionReplyView::Reassigned(Err(e)),
                node_id,
            );
            let roomy = provision_next(
                config,
                order,
                ProvisionView::WantCapacity(job),
                ProvisionReplyView::Capacity(room),
                node_id,
            );
            let local = warm.len() > 0 && warm[0].provider == Provider::Local;
            &&& local ==> told.0 == (ProvisionView::WantReassign { job, warm: warm[0] })
            &&& !local ==> starts_cold(config, order, job, told.0)
            &&& starts_cold(config, order, job, refused.0)
            &&& (room matches Ok(yes) && yes) ==> roomy.0 == (ProvisionView::WantLocal {
                job,
                vm_name: machine_of(order),
                size: vm_size(job.plan.machine_type),
            })
            &&& !(room matches Ok(yes) && yes) ==> asks_cloud(
                config,
                order,
                job,
                "c3-standard-4"@,
                256,
                roomy.0,
            )
        }),
{
}

/// A cloud machine of this type and disk is asked for, that starts as the
/// customer's.
pub open spec fn asks_cloud(
    config: MarketView,
    order: OrderView,
    job: JobView,
    machine_type: Seq<char>,
    disk_gb: i64,
    p: ProvisionView,
) -> bool {
    p == (ProvisionView::WantGcp {
        job,
        vm_name: machine_of(order),
        machine_type,
        disk_gb,
        script: startup_script(config, order.github_handle, machine_of(order)),
    })
}

/// A new machine is asked for: for a local plan the host's room first.
pub open spec fn starts_cold(
    config: MarketView,
    order: OrderView,
    job: JobView,
    p: ProvisionView,
) -> bool {
    match job.plan.provider {
        Provider::Local => p == ProvisionView::WantCapacity(job),
        Provider::Gcp => asks_cloud(
            config,
            order,
            job,
            job.plan.machine_type,
            job.plan.disk_gb,
            p,
        ),
    }
}

/// A machine that was made becomes the order's node, with the provider that
/// made it; a warm node that was handed over becomes the order's; and a machine
/// that could not be made fails the order for that reason.
pub proof fn law_provisioning_ends_with_the_node(
    config: MarketView,
    order: OrderView,
    job: JobView,
    warm: NodeView,
    vm_name: Seq<char>,
    text: Seq<char>,
    disk_gb: i64,
    script: Seq<char>,
    e: Seq<char>,
    node_id: Seq<char>,
)
    ensures
        ({
            let local = ProvisionView::WantLocal { job, vm_name, size: text };
            let cloud = ProvisionView::WantGcp {
                job,
                vm_name,
                machine_type: text,
                disk_gb,
                script,
            };
            let ok = ProvisionReplyView::Created(Ok(()));
            let bad = ProvisionReplyView::Created(Err(e));
            let (p, made_local) = provision_next(config, order, local, ok, node_id);
            let (q, made_cloud) = provision_next(config, order, cloud, ok, node_id);
            let (r, claimed) = provision_next(
                config,
                order,
                ProvisionView::WantReassign { job, warm },
                ProvisionReplyView::Reassigned(Ok(())),
                node_id,
            );
            &&& p is Done && q is Done && r is Done
            &&& made_local[0] is InsertNode && made_local[0]->InsertNode_0.provider
                == Provider::Local && made_local[0]->InsertNode_0.id == node_id
                && made_local[0]->InsertNode_0.vm_name == vm_name
            &&& made_cloud[0] is InsertNode && made_cloud[0]->InsertNode_0.provider
                == Provider::Gcp && made_cloud[0]->InsertNode_0.id == node_id
                && made_cloud[0]->InsertNode_0.vm_name == vm_name
            &&& made_local[1] is OrderProvisioned && made_cloud[1] is OrderProvisioned
            &&& claimed[0] is ClaimWarmNode && claimed[0]->ClaimWarmNode_node_id == warm.id
            &&& claimed[1] is OrderProvisioned
            &&& provision_next(config, order, local, bad, node_id).1[0] == (
            WriteView::OrderFailed { order_id: order.id, error: e })
            &&& provision_next(config, order, cloud, bad, node_id).1[0] == (
            WriteView::OrderFailed { order_id: order.id, error: e })
        }),
{
}

/// A local machine type is `kvm-` and its size; any other is small.
pub proof fn law_machine_types_name_sizes(size: Seq<char>)
    ensures
        size == "tiny"@ || size == "small"@ || size == "medium"@ || size == "large"@ ==> vm_size(
            "kvm-"@ + size,
        ) == size,
        !(size == "tiny"@ || size == "medium"@ || size == "large"@) ==> vm_size("kvm-"@ + size)
            == "small"@,
{
    reveal_strlit("kvm-");
    reveal_strlit("tiny");
    reveal_strlit("small");
    reveal_strlit("medium");
    reveal_strlit("large");
    reveal_strlit("kvm-tiny");
    reveal_strlit("kvm-medium");
    reveal_strlit("kvm-large");
    let t = "kvm-"@ + size;
    assert(t.subrange(4, t.len() as int) =~= size);
    assert("kvm-tiny"@.subrange(4, 8) =~= "tiny"@);
    assert("kvm-medium"@.subrange(4, 10) =~= "medium"@);
    assert("kvm-large"@.subrange(4, 9) =~= "large"@);
    assert("kvm-"@ + "tiny"@ =~= "kvm-tiny"@);
    assert("kvm-"@ + "medium"@ =~= "kvm-medium"@);
    assert("kvm-"@ + "large"@ =~= "kvm-large"@);
    assert(size == "small"@ ==> t[4] == 's');
    assert("kvm-tiny"@[4] == 't' && "kvm-medium"@[4] == 'm' && "kvm-large"@[4] == 'l');
}

// ── orders and payments ───────────────────────────────────────────

/// An order is refused exactly where its handle is empty, holds something other
/// than letters, numbers and hyphens, or its plan is unknown; else it waits for
/// the payment of its plan's price, for the handle that was given.
pub proof fn law_orders_are_taken_as_filled_in(
    form: OrderForm,
    plan: Option<&Plan>,
    order_id: Seq<char>,
    now: Moment,
)
    ensures
        ({
            let handle = trim(form.github_handle@);
            order_fault(form, plan) is None <==> plan is Some && handle.len() > 0 && forall|i: int|
                0 <= i < handle.len() ==> crate::text::alphanumeric(#[trigger] handle[i])
                    || handle[i] == '-'
        }),
        plan matches Some(p) ==> {
            let o = pending_order(trim(form.github_handle@), p@, order_id, now);
            &&& o.id == order_id
            &&& o.github_handle == trim(form.github_handle@)
            &&& o.plan_id == p.id@
            &&& o.price_sats == p.price_sats
            &&& o.status == OrderStatus::PendingPayment
            &&& o.created_at == rfc3339(now.secs, now.nanos)
            &&& o.btcpay_invoice_id is None && o.paid_at is None && o.provisioned_at is None
                && o.expires_at is None && o.error_message is None
        },
{
}

/// A settled invoice pays the order that waits for it, that order only, and
/// only once; no other report has an effect.
pub proof fn law_settled_invoices_pay_their_order(payload: WebhookPayload, order: Option<&Order>)
    ensures
        ({
            let writes = payment_writes(payload, order);
            let settled = payload.event_type@ == "InvoiceSettled"@ || payload.event_type@
                == "InvoicePaymentSettled"@;
            if settled && order is Some && order->0.status == OrderStatus::PendingPayment {
                &&& writes.len() == 2
                &&& writes[0] == (WriteView::OrderPaid { order_id: order->0.id@ })
                &&& writes[1] is Event && writes[1]->Event_order_id == Some(order->0.id@)
                &&& writes[1]->Event_details == Some(payload.invoice_id@)
            } else {
                writes.len() == 0
            }
        }),
{
}

/// The first cookie of the administrator's name counts.
pub proof fn law_the_first_admin_cookie_counts(cookies: Seq<Seq<char>>)
    ensures
        match admin_value(cookies) {
            Some(v) => exists|i: int|
                0 <= i < cookies.len() && trim(#[trigger] cookies[i]) == "dd_market_admin="@ + v
                    && forall|j: int|
                    0 <= j < i ==> !starts_with(
                        trim(#[trigger] cookies[j]),
                        "dd_market_admin="@,
                    ),
            None => forall|j: int|
                0 <= j < cookies.len() ==> !starts_with(
                    trim(#[trigger] cookies[j]),
                    "dd_market_admin="@,
                ),
        },
    decreases cookies.len(),
{
    let name = "dd_market_admin="@;
    if cookies.len() > 0 {
        let first = trim(cookies[0]);
        if starts_with(first, name) {
            let v = first.subrange(name.len() as int, first.len() as int);
            assert(first =~= name + v);
        } else {
            let rest = cookies.subrange(1, cookies.len() as int);
            law_the_first_admin_cookie_counts(rest);
            match admin_value(rest) {
                Some(v) => {
                    let i = choose|i: int|
                        0 <= i < rest.len() && trim(#[trigger] rest[i]) == name + v && forall|
                            j: int,
                        |
                            0 <= j < i ==> !starts_with(trim(#[trigger] rest[j]), name);
                    assert(cookies[i + 1] == rest[i]);
                    assert forall|j: int| 0 <= j < i + 1 implies !starts_with(
                        trim(#[trigger] cookies[j]),
                        name,
                    ) by {
                        if j > 0 {
                            assert(cookies[j] == rest[j - 1]);
                        }
                    }
                },
                None => {
                    assert forall|j: int| 0 <= j < cookies.len() implies !starts_with(
                        trim(#[trigger] cookies[j]),
                        name,
                    ) by {
                        if j > 0 {
                            assert(cookies[j] == rest[j - 1]);
                        }
                    }
                },
            }
        }
    }
}

/// Where no bearer token is given, the cookie decides: the administrator is who
/// presents the password in it, and nobody where there is none.
pub proof fn law_the_cookie_decides_without_a_token(
    password: Seq<char>,
    authorization: Option<Seq<char>>,
    cookie: Seq<char>,
)
    requires
        authorization matches Some(a) ==> !starts_with(a, "Bearer "@),
    ensures
        is_admin(Some(password), authorization, Some(cookie)) == (admin_value(
            crate::text::pieces(cookie, ';'),
        ) == Some(password)),
        !is_admin(Some(password), authorization, None),
{
}

// ── names ─────────────────────────────────────────────────────────

/// A name that is none falls back: to a local provider, a failed order, a
/// deleted node.
pub proof fn law_unknown_names_fall_back(s: Seq<char>)
    ensures
        provider_named(s) == Provider::Gcp <==> s == "gcp"@,
        (forall|x: OrderStatus| s != #[trigger] x.text()) ==> order_status_named(s)
            == OrderStatus::Failed,
        (forall|x: NodeStatus| s != #[trigger] x.text()) ==> node_status_named(s)
            == NodeStatus::Deleted,
{
    reveal_strlit("local");
    reveal_strlit("gcp");
    assert("local"@.len() == 5 && "gcp"@.len() == 3);
    if forall|x: OrderStatus| s != #[trigger] x.text() {
        assert(s != OrderStatus::PendingPayment.text());
        assert(s != OrderStatus::Paid.text());
        assert(s != OrderStatus::Provisioning.text());
        assert(s != OrderStatus::Active.text());
        assert(s != OrderStatus::Expired.text());
        assert(s != OrderStatus::Failed.text());
    }
    if forall|x: NodeStatus| s != #[trigger] x.text() {
        assert(s != NodeStatus::Warm.text());
        assert(s != NodeStatus::Provisioning.text());
        assert(s != NodeStatus::Running.text());
        assert(s != NodeStatus::Stopped.text());
        assert(s != NodeStatus::Deleted.text());
    }
}

// ── the warm pool ─────────────────────────────────────────────────

/// An action is carried out as it was named: a new machine with the provider
/// and of the size that were asked for, unclaimed; a node to destroy by its
/// identifier, with the provider that was named. Anything else does nothing.
pub proof fn law_pool_actions_do_what_they_name(
    config: MarketView,
    a: PoolActionView,
    fresh_id: Seq<char>,
)
    ensures
        ({
            let t = task_of(config, a, fresh_id);
            let name = "warm-"@ + crate::ids::short(fresh_id);
            let create = a.action == "create_warm"@;
            let destroy = a.action == "destroy_warm"@;
            &&& create && a.provider != "gcp"@ ==> t == (PoolTaskView::CreateLocal {
                vm_name: name,
                size: a.size,
            })
            &&& create && a.provider == "gcp"@ ==> t is CreateGcp && t->CreateGcp_vm_name == name
                && t->CreateGcp_disk_gb == 256 && t->CreateGcp_machine_type == (if a.size
                == "standard"@ {
                "c3-standard-8"@
            } else {
                "c3-standard-4"@
            }) && t->CreateGcp_script == startup_script(config, "unclaimed"@, name)
            &&& destroy && a.node_id is Some ==> t == (PoolTaskView::FindWarm {
                provider: a.provider,
                node_id: a.node_id->0,
            })
            &&& destroy && a.node_id is None ==> t is Refused
            &&& !create && !destroy ==> t is Nothing
        }),
{
    law_unknown_names_fall_back(a.provider);
    reveal_strlit("create_warm");
    reveal_strlit("destroy_warm");
    assert("create_warm"@[0] != "destroy_warm"@[0]);
}

/// Where the named node is not warm any more, the first warm one goes.
pub proof fn law_the_first_warm_node_goes_else(warm: Seq<NodeView>, node_id: Seq<char>)
    requires
        warm.len() > 0,
        forall|i: int| 0 <= i < warm.len() ==> (#[trigger] warm[i]).id != node_id,
    ensures
        destroyed(warm, node_id) == Some(warm[0]),
{
    lemma_not_named(warm, node_id);
}

proof fn lemma_not_named(warm: Seq<NodeView>, node_id: Seq<char>)
    requires
        forall|i: int| 0 <= i < warm.len() ==> (#[trigger] warm[i]).id != node_id,
    ensures
        crate::pool::named_node(warm, node_id) is None,
    decreases warm.len(),
{
    if warm.len() > 0 {
        let rest = warm.subrange(1, warm.len() as int);
        assert forall|i: int| 0 <= i < rest.len() implies (#[trigger] rest[i]).id != node_id by {
            assert(rest[i] == warm[i + 1]);
        }
        lemma_not_named(rest, node_id);
    }
}

/// Only running nodes are counted, each once.
pub proof fn law_running_nodes_are_counted(nodes: Seq<NodeView>, node: NodeView)
    ensures
        running(Seq::empty()) == 0,
        running(nodes.push(node)) == running(nodes) + (if node.status == NodeStatus::Running {
            1nat
        } else {
            0nat
        }),
{
    assert(nodes.push(node).drop_last() =~= nodes);
}

/// A plan without fences is taken as it is, and one in plain fences without
/// them; white space around it does not count.
#[verifier::spinoff_prover]
pub proof fn law_fences_around_a_plan_do_not_count(plan: Seq<char>)
    requires
        trim(plan) == plan,
        plan.len() > 0,
        plan[0] == '{',
        plan.last() == '}',
    ensures
        cleaned(plan) == plan,
        cleaned("```\n"@ + plan + "\n```"@) == plan,
{
    reveal_strlit("```json");
    reveal_strlit("```");
    reveal_strlit("```\n");
    reveal_strlit("\n```");
    assert(plan.len() >= 3 ==> plan.subrange(plan.len() - 3, plan.len() as int)[2] == '}');
    assert(plan.len() >= 3 ==> plan.subrange(0, 3)[0] == '{');
    assert(plan.len() >= 7 ==> plan.subrange(0, 7)[0] == '{');
    let fenced = "```\n"@ + plan + "\n```"@;
    assert(fenced[0] == '`' && fenced.last() == '`');
    crate::text::lemma_trim_keeps(fenced);
    assert(fenced.len() >= 7 ==> fenced.subrange(0, 7)[3] == '\n');
    assert(fenced.subrange(0, 3) =~= "```"@);
    let inner = fenced.subrange(3, fenced.len() as int);
    assert(inner.subrange(inner.len() - 3, inner.len() as int) =~= "```"@);
    let text = (seq!['\n'] + plan).push('\n');
    assert(inner.subrange(0, inner.len() - 3) =~= text);
    crate::text::lemma_trim_ignores_last(seq!['\n'] + plan, '\n');
    crate::text::lemma_trim_ignores_first('\n', plan);
}

// ── plans and machines ────────────────────────────────────────────

/// Plans of the same machine differ in their time only, a day or thirty, and
/// cost the same for each day.
#[verifier::spinoff_prover]
pub proof fn law_machines_cost_the_same_each_day(i: int, j: int)
    requires
        0 <= i < price_list().len(),
        0 <= j < price_list().len(),
        price_list()[i].machine_type == price_list()[j].machine_type,
    ensures
        ({
            let a = price_list()[i];
            let b = price_list()[j];
            &&& a.duration_hours == 24 || a.duration_hours == 720
            &&& a.duration_hours == b.duration_hours ==> a.price_sats == b.price_sats
            &&& a.duration_hours == 24 && b.duration_hours == 720 ==> b.price_sats == 30
                * a.price_sats
            &&& a.vcpus == b.vcpus && a.ram_gb == b.ram_gb && a.disk_gb == b.disk_gb
            &&& a.provider == b.provider && a.active && b.active
        }),
{
    reveal_strlit("kvm-tiny");
    reveal_strlit("kvm-small");
    reveal_strlit("kvm-medium");
    reveal_strlit("kvm-large");
    reveal_strlit("c3-standard-4");
    reveal_strlit("c3-standard-8");
    assert("kvm-tiny"@[4] == 't' && "kvm-small"@[4] == 's' && "kvm-medium"@[4] == 'm'
        && "kvm-large"@[4] == 'l');
    assert("c3-standard-4"@[12] == '4' && "c3-standard-8"@[12] == '8');
    assert("kvm-tiny"@[0] == 'k' && "kvm-small"@[0] == 'k' && "kvm-medium"@[0] == 'k'
        && "kvm-large"@[0] == 'k' && "c3-standard-4"@[0] == 'c' && "c3-standard-8"@[0] == 'c');
}

/// A cloud machine is made as it was asked for, in the operator's project and
/// zone, and every one is a TDX machine.
pub proof fn law_cloud_machines_are_as_asked(
    config: MarketView,
    vm_name: Seq<char>,
    machine_type: Seq<char>,
    disk_gb: i64,
    script: Seq<char>,
    handle: Seq<char>,
)
    requires
        config.gcp_project_id is Some,
        disk_gb >= 0,
    ensures
        ({
            let r = instance(config, vm_name, machine_type, disk_gb, script, handle);
            &&& r.name == vm_name
            &&& r.startup_script == script
            &&& r.owner_label == crate::text::lowercase(handle)
            &&& crate::text::numeral_value(r.disk_size_gb, 10) == disk_gb
            &&& occurs(r.url, config.gcp_project_id->0)
            &&& occurs(r.url, config.gcp_zone)
            &&& crate::text::ends_with(r.machine_type, machine_type)
            &&& occurs(r.machine_type, config.gcp_zone)
            &&& r.fixed.confidential_type == "TDX"@
        }),
{
    let r = instance(config, vm_name, machine_type, disk_gb, script, handle);
    crate::text::law_numeral_value(disk_gb as nat, 10, false);
    let a = "https://compute.googleapis.com/compute/v1/projects/"@;
    let p = config.gcp_project_id->0;
    let z = config.gcp_zone;
    lemma_occurs(a, p, "/zones/"@ + z + "/instances"@);
    assert(r.url =~= a + p + ("/zones/"@ + z + "/instances"@));
    lemma_occurs(a + p + "/zones/"@, z, "/instances"@);
    lemma_occurs("zones/"@, z, "/machineTypes/"@ + machine_type);
    assert(r.machine_type =~= "zones/"@ + z + ("/machineTypes/"@ + machine_type));
    assert(r.machine_type.subrange(
        r.machine_type.len() - machine_type.len(),
        r.machine_type.len() as int,
    ) =~= machine_type);
}

proof fn lemma_occurs(a: Seq<char>, p: Seq<char>, b: Seq<char>)
    ensures
        occurs(a + p + b, p),
{
    let s = a + p + b;
    assert(s.subrange(a.len() as int, (a.len() + p.len()) as int) =~= p);
    assert(occurs_at(s, p, a.len() as int));
}

/// The host has room for another machine as long as it runs fewer than twenty;
/// white space around the number does not count.
pub proof fn law_the_host_holds_twenty_machines(stdout: Seq<char>, n: nat)
    requires
        trim(stdout) == decimal(n),
        n <= i64::MAX,
    ensures
        room_left(stdout) == (n < 20),
{
    crate::text_laws::law_numbers_are_read_back(n, i64::MAX as u64);
}

/// A machine is made on the operator's host, under the name, of the size and
/// for the owner that were asked for.
#[verifier::spinoff_prover]
pub proof fn law_local_machines_are_as_asked(
    config: MarketView,
    vm_name: Seq<char>,
    size: Seq<char>,
    handle: Seq<char>,
    user: Seq<char>,
    host: Seq<char>,
)
    ensures
        ({
            let command = create_command(config, vm_name, size, handle);
            let call = ssh_call(user, host, command);
            &&& occurs(command, " --name "@ + vm_name)
            &&& occurs(command, " --size "@ + size)
            &&& occurs(command, "DD_OWNER="@ + handle)
            &&& crate::text::ends_with(command, "DD_REGISTER_URL="@ + config.dd_register_url)
            &&& call.last() == command
            &&& call[call.len() - 2] == user + "@"@ + host
        }),
{
    let command = create_command(config, vm_name, size, handle);
    reveal_strlit("dd-vm.sh create --name ");
    reveal_strlit(" --name ");
    reveal_strlit(" --env DD_OWNER=");
    reveal_strlit("DD_OWNER=");
    reveal_strlit(" --env DD_REGISTER_URL=");
    reveal_strlit("DD_REGISTER_URL=");
    let head = "dd-vm.sh create"@;
    reveal_strlit("dd-vm.sh create");
    assert("dd-vm.sh create --name "@ =~= head + " --name "@);
    assert(" --env DD_OWNER="@ =~= " --env "@ + "DD_OWNER="@) by {
        reveal_strlit(" --env ");
    }
    assert(" --env DD_REGISTER_URL="@ =~= " --env "@ + "DD_REGISTER_URL="@) by {
        reveal_strlit(" --env ");
    }
    let sized = " --size "@ + size;
    let owned = "DD_OWNER="@ + handle;
    let told = "DD_REGISTER_URL="@ + config.dd_register_url;
    let named = " --name "@ + vm_name;
    let last = " --env "@ + told;
    assert(command =~= head + named + (sized + " --env "@ + owned + last));
    lemma_occurs(head, named, sized + " --env "@ + owned + last);
    assert(command =~= head + named + sized + (" --env "@ + owned + last));
    lemma_occurs(head + named, sized, " --env "@ + owned + last);
    assert(command =~= head + named + sized + " --env "@ + owned + last);
    lemma_occurs(head + named + sized + " --env "@, owned, last);
    assert(command.subrange(command.len() - told.len(), command.len() as int) =~= told);
}

// ── pages ─────────────────────────────────────────────────────────

/// Amounts below a thousand are told as they are, below a million in whole
/// thousands, and from there in the given millions.
pub proof fn law_amounts_are_told_in_their_unit(sats: i64, millions: Seq<char>)
    ensures
        sats < 1_000 ==> sats_text(sats, millions) == signed_decimal(sats as int) + " sats"@,
        1_000 <= sats < 1_000_000 ==> exists|k: int|
            k * 1_000 <= sats < (k + 1) * 1_000 && sats_text(sats, millions) == #[trigger]
                signed_decimal(k) + "k sats"@,
        sats >= 1_000_000 ==> sats_text(sats, millions) == millions + "M sats"@,
{
    if 1_000 <= sats < 1_000_000 {
        let k = sats as int / 1_000;
        assert(k * 1_000 <= sats < (k + 1) * 1_000);
        assert(sats_text(sats, millions) == signed_decimal(k) + "k sats"@);
    }
}

/// A page shows what it is about: the order's own identifier, owner and plan,
/// its payment and its node.
#[verifier::spinoff_prover]
pub proof fn law_the_order_page_shows_the_order(
    order: OrderView,
    payment: Seq<char>,
    node: Seq<char>,
)
    ensures
        occurs(order_page(order, payment, node), order.id),
        occurs(order_page(order, payment, node), order.github_handle),
        occurs(order_page(order, payment, node), payment),
        occurs(order_page(order, payment, node), node),
{
    let page = order_page(order, payment, node);
    let a = crate::templates::PAGE_HEAD@ + "Order "@;
    assert(page.subrange(a.len() as int, (a.len() + order.id.len()) as int) =~= order.id);
    assert(occurs_at(page, order.id, a.len() as int));
    let b = a + order.id + " — DD Market</title>"@ + crate::templates::STYLE@
        + crate::templates::ORDER_BODY@ + crate::ids::short(order.id)
        + "</h2>\n    <p>Status: "@ + crate::templates::badge(order.status.text())
        + "</p>\n    <p>GitHub: <strong>"@;
    let h = order.github_handle;
    assert(page.subrange(b.len() as int, (b.len() + h.len()) as int) =~= h);
    assert(occurs_at(page, h, b.len() as int));
    let c = b + h + "</strong></p>\n    <p>Plan: "@ + order.plan_id + "</p>\n    <p>Created: "@
        + order.created_at + "</p>\n  </div>\n  "@;
    assert(page.subrange(c.len() as int, (c.len() + payment.len()) as int) =~= payment);
    assert(occurs_at(page, payment, c.len() as int));
    let d = c + payment + "\n  "@;
    assert(page.subrange(d.len() as int, (d.len() + node.len()) as int) =~= node);
    assert(occurs_at(page, node, d.len() as int));
}

/// Every plan of a provider has its card on the landing page, and every order
/// and node its row in the administrator's tables.
pub proof fn law_lists_leave_nobody_out(
    plans: Seq<PlanView>,
    orders: Seq<OrderView>,
    nodes: Seq<NodeView>,
    millions: Seq<Seq<char>>,
    provider: Provider,
    i: int,
)
    ensures
        0 <= i < plans.len() && plans[i].provider == provider ==> occurs(
            cards(plans, millions, provider),
            card(plans[i], millions[i]),
        ),
        0 <= i < orders.len() ==> occurs(
            order_rows(orders, millions),
            order_row(orders[i], millions[i]),
        ),
        0 <= i < nodes.len() ==> occurs(node_rows(nodes), node_row(nodes[i])),
{
    if 0 <= i < plans.len() && plans[i].provider == provider {
        lemma_card(plans, millions, provider, i);
    }
    if 0 <= i < orders.len() {
        lemma_order_row(orders, millions, i);
    }
    if 0 <= i < nodes.len() {
        lemma_node_row(nodes, i);
    }
}

proof fn lemma_in_front(front: Seq<char>, back: Seq<char>, p: Seq<char>)
    requires
        occurs(front, p),
    ensures
        occurs(front + back, p),
{
    let i = choose|i: int| occurs_at(front, p, i);
    assert((front + back).subrange(i, i + p.len()) =~= front.subrange(i, i + p.len()));
    assert(occurs_at(front + back, p, i));
}

proof fn lemma_behind(front: Seq<char>, p: Seq<char>)
    ensures
        occurs(front + p, p),
{
    lemma_occurs(front, p, Seq::empty());
    assert(front + p + Seq::<char>::empty() =~= front + p);
}

proof fn lemma_card(plans: Seq<PlanView>, millions: Seq<Seq<char>>, provider: Provider, i: int)
    requires
        0 <= i < plans.len(),
        plans[i].provider == provider,
    ensures
        occurs(cards(plans, millions, provider), card(plans[i], millions[i])),
    decreases plans.len(),
{
    let front = plans.drop_last();
    let before = cards(front, millions, provider);
    let last = card(plans.last(), millions[plans.len() - 1]);
    if i < front.len() {
        assert(front[i] == plans[i]);
        lemma_card(front, millions, provider, i);
        lemma_in_front(before, last, card(plans[i], millions[i]));
    } else {
        lemma_behind(before, last);
    }
}

proof fn lemma_order_row(orders: Seq<OrderView>, millions: Seq<Seq<char>>, i: int)
    requires
        0 <= i < orders.len(),
    ensures
        occurs(order_rows(orders, millions), order_row(orders[i], millions[i])),
    decreases orders.len(),
{
    let front = orders.drop_last();
    let before = order_rows(front, millions);
    let last = order_row(orders.last(), millions[orders.len() - 1]);
    if i < front.len() {
        assert(front[i] == orders[i]);
        lemma_order_row(front, millions, i);
        lemma_in_front(before, last, order_row(orders[i], millions[i]));
    } else {
        lemma_behind(before, last);
    }
}

proof fn lemma_node_row(nodes: Seq<NodeView>, i: int)
    requires
        0 <= i < nodes.len(),
    ensures
        occurs(node_rows(nodes), node_row(nodes[i])),
    decreases nodes.len(),
{
    let front = nodes.drop_last();
    let before = node_rows(front);
    let last = node_row(nodes.last());
    if i < front.len() {
        assert(front[i] == nodes[i]);
        lemma_node_row(front, i);
        lemma_in_front(before, last, node_row(nodes[i]));
    } else {
        lemma_behind(before, last);
    }
}

/// A card names its plan and price, and a payment is asked for at its address.
#[verifier::spinoff_prover]
pub proof fn law_cards_and_payments_name_the_price(
    plan: PlanView,
    url: Seq<char>,
    millions: Seq<char>,
)
    ensures
        occurs(card(plan, millions), plan.id),
        occurs(card(plan, millions), sats_text(plan.price_sats, millions)),
        occurs(
            payment_section(plan.price_sats, url, millions),
            sats_text(plan.price_sats, millions),
        ),
        occurs(payment_section(plan.price_sats, url, millions), url),
{
    let c = card(plan, millions);
    let price = sats_text(plan.price_sats, millions);
    let a = "<div class=\"card plan\" onclick=\"selectPlan('"@;
    assert(c.subrange(a.len() as int, (a.len() + plan.id.len()) as int) =~= plan.id);
    assert(occurs_at(c, plan.id, a.len() as int));
    let tail = "</div>\n            </div>"@;
    let at = c.len() - tail.len() - price.len();
    assert(c.subrange(at, at + price.len()) =~= price);
    assert(occurs_at(c, price, at));
    let s = payment_section(plan.price_sats, url, millions);
    let b =
        "<div class=\"card\">\n                <h2>Payment</h2>\n                <p>Amount: <strong>"@;
    assert(s.subrange(b.len() as int, (b.len() + price.len()) as int) =~= price);
    assert(occurs_at(s, price, b.len() as int));
    let d = b + price + "</strong></p>\n                <p><a href=\""@;
    assert(s.subrange(d.len() as int, (d.len() + url.len()) as int) =~= url);
    assert(occurs_at(s, url, d.len() as int));
}

/// Prices and sizes follow the machine: local memory and disk grow with the
/// processors, and so does the price of a day, of which the smallest machine
/// has its own; a cloud machine costs more by a fixed amount.
#[verifier::spinoff_prover]
pub proof fn law_prices_follow_the_machine(i: int)
    requires
        0 <= i < price_list().len(),
    ensures
        ({
            let p = price_list()[i];
            let days = if p.duration_hours == 24 {
                1int
            } else {
                30int
            };
            &&& price_list().len() == 9
            &&& p.provider == Provider::Local ==> p.ram_gb == 2 * p.vcpus && p.disk_gb == 20
                * p.vcpus
            &&& p.provider == Provider::Gcp ==> p.ram_gb == 4 * p.vcpus && p.disk_gb == 256
            &&& p.machine_type == "kvm-tiny"@ ==> p.vcpus == 1 && p.price_sats == 7_200 * days
            &&& p.machine_type == "kvm-small"@ ==> p.vcpus == 2 && p.price_sats == 12_000 * days
            &&& p.machine_type == "kvm-medium"@ ==> p.vcpus == 4 && p.price_sats == 24_000 * days
            &&& p.machine_type == "kvm-large"@ ==> p.vcpus == 8 && p.price_sats == 48_000 * days
            &&& p.machine_type == "c3-standard-4"@ ==> p.vcpus == 4 && p.price_sats == 48_000
                * days
            &&& p.machine_type == "c3-standard-8"@ ==> p.vcpus == 8 && p.price_sats == 72_000
                * days
            &&& p.provider == Provider::Gcp <==> p.machine_type[0] == 'c'
        }),
{
    reveal_strlit("kvm-tiny");
    reveal_strlit("kvm-small");
    reveal_strlit("kvm-medium");
    reveal_strlit("kvm-large");
    reveal_strlit("c3-standard-4");
    reveal_strlit("c3-standard-8");
    assert("kvm-tiny"@[4] == 't' && "kvm-small"@[4] == 's' && "kvm-medium"@[4] == 'm'
        && "kvm-large"@[4] == 'l');
    assert("c3-standard-4"@[12] == '4' && "c3-standard-8"@[12] == '8');
    assert("kvm-tiny"@[0] == 'k' && "kvm-small"@[0] == 'k' && "kvm-medium"@[0] == 'k'
        && "kvm-large"@[0] == 'k' && "c3-standard-4"@[0] == 'c' && "c3-standard-8"@[0] == 'c');
}

/// What is no number leaves room, as if nothing ran.
pub proof fn law_an_unreadable_count_leaves_room(stdout: Seq<char>)
    requires
        crate::text::parsed(trim(stdout), i64::MAX as u64) is Err,
    ensures
        room_left(stdout),
{
}

/// A machine is handed over by its own name, to its new owner.
pub proof fn law_machines_are_handed_over_by_name(
    config: MarketView,
    vm_name: Seq<char>,
    handle: Seq<char>,
)
    ensures
        ({
            let command = crate::local::reassign_command(config, vm_name, handle);
            &&& occurs(command, crate::local::FIND_MACHINE@ + vm_name)
            &&& occurs(command, crate::local::RESTART_AGENT@ + handle + " DD_REGISTER_URL="@)
            &&& occurs(command, " DD_REGISTER_URL="@ + config.dd_register_url)
        }),
{
    let command = crate::local::reassign_command(config, vm_name, handle);
    let find = crate::local::FIND_MACHINE@ + vm_name;
    let url = " DD_REGISTER_URL="@;
    let start = crate::local::RESTART_AGENT@ + handle;
    let tail = " nohup /usr/local/bin/dd-agent > /var/log/dd-agent.log 2>&1 &'"@;
    let back = config.dd_register_url + tail;
    assert(command =~= Seq::<char>::empty() + find + (start + url + back));
    lemma_occurs(Seq::empty(), find, start + url + back);
    assert(command =~= find + (start + url) + back);
    lemma_occurs(find, start + url, back);
    assert(command =~= find + start + (url + config.dd_register_url) + tail);
    lemma_occurs(find + start, url + config.dd_register_url, tail);
}

/// A cloud machine's agent starts as its owner's, registers where the operator
/// says, and is reached under the machine's own name.
#[verifier::spinoff_prover]
pub proof fn law_cloud_agents_start_as_their_owner(
    config: MarketView,
    handle: Seq<char>,
    vm_name: Seq<char>,
)
    ensures
        ({
            let script = startup_script(config, handle, vm_name);
            &&& occurs(
                script,
                crate::gcp::SCRIPT_HEAD@ + config.dd_binary_url + crate::gcp::SCRIPT_OWNER@ + handle
                    + crate::gcp::SCRIPT_REGISTER@ + config.dd_register_url,
            )
            &&& crate::text::ends_with(
                script,
                crate::gcp::SCRIPT_CALLBACK@ + vm_name + "."@ + config.dd_cf_domain
                    + crate::gcp::SCRIPT_TAIL@,
            )
        }),
{
    let script = startup_script(config, handle, vm_name);
    let head = crate::gcp::SCRIPT_HEAD@ + config.dd_binary_url + crate::gcp::SCRIPT_OWNER@ + handle
        + crate::gcp::SCRIPT_REGISTER@ + config.dd_register_url;
    assert(script.subrange(0, head.len() as int) =~= head);
    assert(occurs_at(script, head, 0));
    let tail = crate::gcp::SCRIPT_CALLBACK@ + vm_name + "."@ + config.dd_cf_domain
        + crate::gcp::SCRIPT_TAIL@;
    assert(script.subrange(script.len() - tail.len(), script.len() as int) =~= tail);
}

/// A warm machine that was made becomes a warm node of its own provider and
/// name, made now and not to expire.
pub proof fn law_warm_machines_become_warm_nodes(
    provider: Provider,
    vm_name: Seq<char>,
    now: Moment,
    node_id: Seq<char>,
)
    ensures
        ({
            let writes = crate::pool::warm_writes(provider, vm_name, now, node_id);
            &&& writes.len() == 2
            &&& writes[0] == WriteView::InsertNode(
                NodeView {
                    id: node_id,
                    order_id: Seq::empty(),
                    github_handle: "unclaimed"@,
                    provider,
                    vm_name,
                    hostname: None,
                    status: NodeStatus::Warm,
                    created_at: rfc3339(now.secs, now.nanos),
                    expires_at: "2099-01-01T00:00:00Z"@,
                },
            )
            &&& writes[1] is Event && writes[1]->Event_node_id == Some(node_id)
        }),
{
}

/// A plan can be provisioned from a time exactly where the calendar has its
/// end, and that plan and time are what provisioning is told.
pub proof fn law_plans_are_told_with_the_time(
    plan: Option<Plan>,
    now: crate::time::Timestamp,
)
    requires
        0 <= now@.nanos < 1_000_000_000,
    ensures
        ({
            let r = crate::provision::reply_at(plan, now);
            let fits = plan matches Some(p) ==> -8_334_601_228_800 <= now@.secs + 3600
                * p.duration_hours <= 8_210_266_876_799;
            &&& fits ==> r == Some(crate::provision::ProvisionReply::Plan(plan, now))
            &&& !fits ==> r is None
        }),
{
}

/// A status is told in words: its name, with capitals and spaces.
#[verifier::spinoff_prover]
pub proof fn law_labels_are_names_in_words(x: OrderStatus, i: int)
    requires
        0 <= i < x.text().len(),
    ensures
        x.label_text().len() == x.text().len(),
        x.text()[i] == '_' ==> x.label_text()[i] == ' ',
        x.text()[i] != '_' ==> (x.label_text()[i] == x.text()[i] || x.label_text()[i] as u32 + 32
            == x.text()[i] as u32),
        i == 0 ==> x.label_text()[i] != x.text()[i],
{
    reveal_strlit("pending_payment");
    reveal_strlit("paid");
    reveal_strlit("provisioning");
    reveal_strlit("active");
    reveal_strlit("expired");
    reveal_strlit("failed");
    reveal_strlit("Pending Payment");
    reveal_strlit("Paid");
    reveal_strlit("Provisioning");
    reveal_strlit("Active");
    reveal_strlit("Expired");
    reveal_strlit("Failed");
}

/// What works is green, what is under way blue, what waits for a payment
/// yellow, what is lost red, and anything else gray.
pub proof fn law_badges_tell_how_it_stands(order: OrderStatus, node: NodeStatus)
    ensures
        badge_class(order.text()) == match order {
            OrderStatus::PendingPayment => "badge-yellow"@,
            OrderStatus::Paid | OrderStatus::Provisioning => "badge-blue"@,
            OrderStatus::Active => "badge-green"@,
            OrderStatus::Expired => "badge-gray"@,
            OrderStatus::Failed => "badge-red"@,
        },
        badge_class(node.text()) == match node {
            NodeStatus::Running => "badge-green"@,
            NodeStatus::Provisioning => "badge-blue"@,
            NodeStatus::Deleted => "badge-red"@,
            NodeStatus::Warm | NodeStatus::Stopped => "badge-gray"@,
        },
{
    lemma_status_names();
}

proof fn lemma_status_names()
    ensures
        "pending_payment"@.len() == 15 && "provisioning"@.len() == 12 && "running"@.len() == 7,
        "paid"@.len() == 4 && "paid"@[0] == 'p' && "warm"@.len() == 4 && "warm"@[0] == 'w',
        "active"@.len() == 6 && "active"@[0] == 'a' && "failed"@.len() == 6 && "failed"@[0] == 'f',
        "expired"@.len() == 7 && "expired"@[0] == 'e' && "running"@[0] == 'r',
        "stopped"@.len() == 7 && "stopped"@[0] == 's' && "deleted"@.len() == 7 && "deleted"@[0]
            == 'd',
{
    reveal_strlit("pending_payment");
    reveal_strlit("provisioning");
    reveal_strlit("running");
    reveal_strlit("paid");
    reveal_strlit("warm");
    reveal_strlit("active");
    reveal_strlit("failed");
    reveal_strlit("expired");
    reveal_strlit("stopped");
    reveal_strlit("deleted");
}

/// The landing page shows both lists of plans, and the pool's page its counts
/// and both of its tables; every warm node and recent order has its row there.
#[verifier::spinoff_prover]
pub proof fn law_pages_show_their_lists(
    local: Seq<char>,
    cloud: Seq<char>,
    warm_local: i64,
    warm_gcp: i64,
    config: MarketView,
    nodes: Seq<NodeView>,
    recent: Seq<crate::pool::RecentOrder>,
    i: int,
)
    ensures
        occurs(crate::templates::landing_page(local, cloud), local),
        occurs(crate::templates::landing_page(local, cloud), cloud),
        ({
            let page = crate::templates::pool_page(warm_local, warm_gcp, local, cloud, config);
            &&& occurs(page, local)
            &&& occurs(page, cloud)
            &&& occurs(page, "Warm local: <strong>"@ + signed_decimal(warm_local as int))
            &&& occurs(page, "Warm GCP: <strong>"@ + signed_decimal(warm_gcp as int))
        }),
        0 <= i < nodes.len() ==> occurs(
            crate::templates::warm_rows(nodes),
            crate::templates::warm_row(nodes[i]),
        ),
        0 <= i < recent.len() ==> occurs(
            crate::templates::recent_rows(recent),
            crate::templates::recent_row(recent[i]),
        ),
{
    let page = crate::templates::landing_page(local, cloud);
    let a = crate::templates::PAGE_HEAD@ + "DD Market — TDX Node Marketplace</title>"@
        + crate::templates::STYLE@ + crate::templates::LANDING_FORM@;
    assert(page.subrange(a.len() as int, (a.len() + local.len()) as int) =~= local);
    assert(occurs_at(page, local, a.len() as int));
    let b = a + local + crate::templates::LANDING_CLOUD@;
    assert(page.subrange(b.len() as int, (b.len() + cloud.len()) as int) =~= cloud);
    assert(occurs_at(page, cloud, b.len() as int));
    lemma_pool_page(local, cloud, warm_local, warm_gcp, config);
    if 0 <= i < nodes.len() {
        lemma_warm_row(nodes, i);
    }
    if 0 <= i < recent.len() {
        lemma_recent_row(recent, i);
    }
}

#[verifier::spinoff_prover]
proof fn lemma_pool_page(
    warm: Seq<char>,
    recent: Seq<char>,
    warm_local: i64,
    warm_gcp: i64,
    config: MarketView,
)
    ensures
        ({
            let page = crate::templates::pool_page(warm_local, warm_gcp, warm, recent, config);
            &&& occurs(page, warm)
            &&& occurs(page, recent)
            &&& occurs(page, "Warm local: <strong>"@ + signed_decimal(warm_local as int))
            &&& occurs(page, "Warm GCP: <strong>"@ + signed_decimal(warm_gcp as int))
        }),
{
    let page = crate::templates::pool_page(warm_local, warm_gcp, warm, recent, config);
    let here = signed_decimal(warm_local as int);
    let there = signed_decimal(warm_gcp as int);
    let first = "s</strong></p>\n    <p>Warm local: <strong>"@;
    let second = "</strong> &middot; Warm GCP: <strong>"@;
    let a = crate::templates::PAGE_HEAD@ + "Pool — DD Market</title>"@ + crate::templates::STYLE@
        + crate::templates::POOL_BODY@ + config.openrouter_model
        + "</strong> &middot; Max: <strong>"@ + decimal(config.pool_max as nat)
        + "</strong> &middot; Interval: <strong>"@ + decimal(config.pool_interval_secs as nat);
    let b = a + first + here;
    let c = b + second + there;
    let d = c + crate::templates::POOL_WARM@;
    let e = d + warm + crate::templates::POOL_RECENT@;
    reveal_strlit("s</strong></p>\n    <p>Warm local: <strong>");
    reveal_strlit("Warm local: <strong>");
    reveal_strlit("</strong> &middot; Warm GCP: <strong>");
    reveal_strlit("Warm GCP: <strong>");
    let p = "Warm local: <strong>"@ + here;
    let q = "Warm GCP: <strong>"@ + there;
    let at = (b.len() - p.len()) as int;
    assert(page.subrange(at, at + p.len()) =~= p);
    assert(occurs_at(page, p, at));
    let to = (c.len() - q.len()) as int;
    assert(page.subrange(to, to + q.len()) =~= q);
    assert(occurs_at(page, q, to));
    assert(page.subrange(d.len() as int, (d.len() + warm.len()) as int) =~= warm);
    assert(occurs_at(page, warm, d.len() as int));
    assert(page.subrange(e.len() as int, (e.len() + recent.len()) as int) =~= recent);
    assert(occurs_at(page, recent, e.len() as int));
}

proof fn lemma_warm_row(nodes: Seq<NodeView>, i: int)
    requires
        0 <= i < nodes.len(),
    ensures
        occurs(crate::templates::warm_rows(nodes), crate::templates::warm_row(nodes[i])),
    decreases nodes.len(),
{
    let front = nodes.drop_last();
    let before = crate::templates::warm_rows(front);
    let last = crate::templates::warm_row(nodes.last());
    if i < front.len() {
        assert(front[i] == nodes[i]);
        lemma_warm_row(front, i);
        lemma_in_front(before, last, crate::templates::warm_row(nodes[i]));
    } else {
        lemma_behind(before, last);
    }
}

proof fn lemma_recent_row(orders: Seq<crate::pool::RecentOrder>, i: int)
    requires
        0 <= i < orders.len(),
    ensures
        occurs(crate::templates::recent_rows(orders), crate::templates::recent_row(orders[i])),
    decreases orders.len(),
{
    let front = orders.drop_last();
    let before = crate::templates::recent_rows(front);
    let last = crate::templates::recent_row(orders.last());
    if i < front.len() {
        assert(front[i] == orders[i]);
        lemma_recent_row(front, i);
        lemma_in_front(before, last, crate::templates::recent_row(orders[i]));
    } else {
        lemma_behind(before, last);
    }
}

/// A row shows its node: whose it is, its machine and when it expires; and an
/// order's row its owner, plan and price.
#[verifier::spinoff_prover]
pub proof fn law_rows_show_what_they_are_about(n: NodeView, o: OrderView, millions: Seq<char>)
    ensures
        occurs(node_row(n), n.github_handle),
        occurs(node_row(n), n.vm_name),
        occurs(node_row(n), n.expires_at),
        occurs(order_row(o, millions), o.id),
        occurs(order_row(o, millions), o.github_handle),
        occurs(order_row(o, millions), o.plan_id),
        occurs(order_row(o, millions), sats_text(o.price_sats, millions)),
{
    let td = "</td>\n                <td>"@;
    let r = node_row(n);
    let a = "<tr>\n                <td>"@ + crate::ids::short(n.id) + td;
    assert(r.subrange(a.len() as int, (a.len() + n.github_handle.len()) as int)
        =~= n.github_handle);
    assert(occurs_at(r, n.github_handle, a.len() as int));
    let b = a + n.github_handle + td;
    assert(r.subrange(b.len() as int, (b.len() + n.vm_name.len()) as int) =~= n.vm_name);
    assert(occurs_at(r, n.vm_name, b.len() as int));
    let end = "</td>\n            </tr>"@;
    let at = (r.len() - end.len() - n.expires_at.len()) as int;
    assert(r.subrange(at, at + n.expires_at.len()) =~= n.expires_at);
    assert(occurs_at(r, n.expires_at, at));
    let s = order_row(o, millions);
    let c = "<tr>\n                <td><a href=\"/order/"@;
    assert(s.subrange(c.len() as int, (c.len() + o.id.len()) as int) =~= o.id);
    assert(occurs_at(s, o.id, c.len() as int));
    let d = c + o.id + "\">"@ + crate::ids::short(o.id) + "</a></td>\n                <td>"@;
    assert(s.subrange(d.len() as int, (d.len() + o.github_handle.len()) as int)
        =~= o.github_handle);
    assert(occurs_at(s, o.github_handle, d.len() as int));
    let e = d + o.github_handle + td;
    assert(s.subrange(e.len() as int, (e.len() + o.plan_id.len()) as int) =~= o.plan_id);
    assert(occurs_at(s, o.plan_id, e.len() as int));
    let price = sats_text(o.price_sats, millions);
    let to = (s.len() - end.len() - o.created_at.len() - td.len() - price.len()) as int;
    assert(s.subrange(to, to + price.len()) =~= price);
    assert(occurs_at(s, price, to));
}

} // verus!
