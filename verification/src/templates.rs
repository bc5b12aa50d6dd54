//! The marketplace's pages.
//!
//! Prices of a million sats and more are written with two decimals, which the
//! caller computes: `millions` is the number of millions, rounded to two
//! decimals.

use crate::config::{MarketConfig, MarketView};
use crate::db::plan_views;
use crate::ids::{cuttable, short, short_id};
use crate::models::{
    node_views, Node, NodeView, Order, OrderView, Plan, PlanView, Provider,
};
use crate::pool::RecentOrder;
use crate::text::{
    decimal, decimal_text, option_view, same_text, signed_decimal, signed_decimal_text, views,
};
use crate::tools::header_view;
use vstd::prelude::*;

verus! {

// ── fixed parts ───────────────────────────────────────────────────

/// The style of every page.
pub const STYLE: &'static str = r#"
<style>
  * { box-sizing: border-box; margin: 0; padding: 0; }
  body { font-family: -apple-system, system-ui, sans-serif; background: #0a0a0a; color: #e0e0e0; }
  .container { max-width: 800px; margin: 0 auto; padding: 2rem; }
  h1 { font-size: 2rem; margin-bottom: 0.5rem; }
  h2 { font-size: 1.4rem; margin: 1.5rem 0 0.5rem; }
  p { margin: 0.5rem 0; color: #999; }
  a { color: #60a5fa; text-decoration: none; }
  a:hover { text-decoration: underline; }
  .card { background: #1a1a1a; border: 1px solid #333; border-radius: 8px; padding: 1.5rem; margin: 1rem 0; }
  .plans { display: grid; grid-template-columns: repeat(auto-fill, minmax(220px, 1fr)); gap: 1rem; }
  .plan { cursor: pointer; transition: border-color 0.2s; }
  .plan:hover, .plan.selected { border-color: #60a5fa; }
  .plan h3 { font-size: 1.1rem; margin-bottom: 0.5rem; }
  .plan .specs { font-size: 0.85rem; color: #888; }
  .plan .price { font-size: 1.2rem; font-weight: bold; color: #f59e0b; margin-top: 0.5rem; }
  .plan .provider { font-size: 0.75rem; color: #666; text-transform: uppercase; }
  input, select, button { font-size: 1rem; padding: 0.6rem 1rem; border-radius: 6px; border: 1px solid #333; background: #111; color: #e0e0e0; }
  input:focus, select:focus { outline: none; border-color: #60a5fa; }
  button { background: #2563eb; border: none; cursor: pointer; font-weight: 600; }
  button:hover { background: #1d4ed8; }
  .form-group { margin: 1rem 0; }
  label { display: block; margin-bottom: 0.3rem; font-weight: 500; }
  table { width: 100%; border-collapse: collapse; margin: 1rem 0; }
  th, td { padding: 0.6rem; text-align: left; border-bottom: 1px solid #222; }
  th { color: #888; font-weight: 500; }
  .badge { display: inline-block; padding: 0.2rem 0.6rem; border-radius: 4px; font-size: 0.8rem; font-weight: 600; }
  .badge-green { background: #064e3b; color: #34d399; }
  .badge-yellow { background: #78350f; color: #fbbf24; }
  .badge-red { background: #7f1d1d; color: #f87171; }
  .badge-blue { background: #1e3a5f; color: #60a5fa; }
  .badge-gray { background: #333; color: #999; }
  .header { display: flex; justify-content: space-between; align-items: center; margin-bottom: 2rem; border-bottom: 1px solid #222; padding-bottom: 1rem; }
  .header nav a { margin-left: 1.5rem; }
</style>
"#;

/// The start of every page, up to its title.
pub const PAGE_HEAD: &'static str = r#"<!DOCTYPE html>
<html><head><meta charset="utf-8"><meta name="viewport" content="width=device-width, initial-scale=1">
<title>"#;

/// The landing page from its head to the local plans.
pub const LANDING_FORM: &'static str = r#"</head>
<body>
<div class="container">
  <div class="header">
    <h1>DD Market</h1>
    <nav><a href="/admin/orders">Admin</a></nav>
  </div>
  <p>Get a confidential TDX node with dd-agent, assigned to your GitHub identity. Pay with Bitcoin.</p>

  <form method="POST" action="/order" id="orderForm">
    <div class="form-group">
      <label for="github_handle">GitHub username or org</label>
      <input type="text" id="github_handle" name="github_handle" required pattern="[a-zA-Z0-9][a-zA-Z0-9-]*" placeholder="your-github-handle" style="width:100%">
    </div>

    <h2>Baremetal Nodes</h2>
    <div class="plans">"#;

/// The landing page between local and cloud plans.
pub const LANDING_CLOUD: &'static str = r#"</div>

    <h2>Cloud Nodes (GCP)</h2>
    <div class="plans">"#;

/// The end of the landing page.
pub const LANDING_TAIL: &'static str = r#"</div>

    <input type="hidden" id="plan_id" name="plan_id" required>
    <div style="margin-top:1.5rem">
      <button type="submit">Pay with Bitcoin</button>
    </div>
  </form>
</div>
<script>
function selectPlan(id) {
  document.getElementById('plan_id').value = id;
  document.querySelectorAll('.plan').forEach(p => p.classList.remove('selected'));
  event.currentTarget.classList.add('selected');
}
</script>
</body></html>"#;

/// The order page from its head to the order's short identifier.
pub const ORDER_BODY: &'static str = r#"
<meta http-equiv="refresh" content="15">
</head>
<body>
<div class="container">
  <div class="header">
    <h1>DD Market</h1>
    <nav><a href="/">Home</a></nav>
  </div>
  <div class="card">
    <h2>Order "#;

/// The page of orders from its head to its rows.
pub const ORDERS_BODY: &'static str = r#"</head>
<body>
<div class="container">
  <div class="header">
    <h1>Admin</h1>
    <nav><a href="/">Home</a> <a href="/admin/nodes">Nodes</a> <a href="/admin/pool">Pool</a></nav>
  </div>
  <h2>Orders</h2>
  <table>
    <tr><th>ID</th><th>GitHub</th><th>Plan</th><th>Status</th><th>Price</th><th>Created</th></tr>
    "#;

/// The end of a page that ends with a table.
pub const TABLE_END: &'static str = r#"
  </table>
</div>
</body></html>"#;

/// The page of nodes from its head to its rows.
pub const NODES_BODY: &'static str = r#"</head>
<body>
<div class="container">
  <div class="header">
    <h1>Admin</h1>
    <nav><a href="/">Home</a> <a href="/admin/orders">Orders</a> <a href="/admin/pool">Pool</a></nav>
  </div>
  <h2>Nodes</h2>
  <table>
    <tr><th>ID</th><th>GitHub</th><th>VM</th><th>Provider</th><th>Hostname</th><th>Status</th><th>Expires</th></tr>
    "#;

/// The page of the pool from its head to the model.
pub const POOL_BODY: &'static str = r#"
<meta http-equiv="refresh" content="30">
</head>
<body>
<div class="container">
  <div class="header">
    <h1>Admin</h1>
    <nav><a href="/">Home</a> <a href="/admin/orders">Orders</a> <a href="/admin/nodes">Nodes</a></nav>
  </div>

  <h2>Warm Pool</h2>
  <div class="card">
    <p>Model: <strong>"#;

/// The page of the pool from the count of warm cloud nodes to their rows.
pub const POOL_WARM: &'static str = r#"</strong></p>
  </div>

  <h2>Warm Nodes</h2>
  <table>
    <tr><th>ID</th><th>VM</th><th>Provider</th><th>Status</th><th>Created</th></tr>
    "#;

/// The page of the pool between warm nodes and orders.
pub const POOL_RECENT: &'static str = r#"
  </table>

  <h2>Recent Orders (LLM context)</h2>
  <table>
    <tr><th>Plan</th><th>Provider</th><th>Status</th><th>Paid At</th></tr>
    "#;

// ── parts ─────────────────────────────────────────────────────────

/// The colour of a status.
pub open spec fn badge_class(status: Seq<char>) -> Seq<char> {
    if status == "active"@ || status == "running"@ {
        "badge-green"@
    } else if status == "paid"@ || status == "provisioning"@ {
        "badge-blue"@
    } else if status == "pending_payment"@ {
        "badge-yellow"@
    } else if status == "failed"@ || status == "deleted"@ {
        "badge-red"@
    } else {
        "badge-gray"@
    }
}

/// A status as a badge.
pub open spec fn badge(status: Seq<char>) -> Seq<char> {
    "<span class=\"badge "@
        + badge_class(status)
        + "\">"@
        + status
        + "</span>"@
}

/// A status as a badge.
pub fn status_badge(status: &str) -> (out: String)
    ensures
        out@ == badge(status@),
{
    let class: &'static str = if same_text(status, "active") || same_text(status, "running") {
        "badge-green"
    } else if same_text(status, "paid") || same_text(status, "provisioning") {
        "badge-blue"
    } else if same_text(status, "pending_payment") {
        "badge-yellow"
    } else if same_text(status, "failed") || same_text(status, "deleted") {
        "badge-red"
    } else {
        "badge-gray"
    };
    let mut out: String = "<span class=\"badge ".to_owned();
    out.append(class);
    out.append("\">");
    out.append(status);
    out.append("</span>");
    out
}

/// An amount as people read it; `millions` is its number of millions.
pub open spec fn sats_text(sats: i64, millions: Seq<char>) -> Seq<char> {
    if sats >= 1_000_000 {
        millions + "M sats"@
    } else if sats >= 1_000 {
        signed_decimal(sats as int / 1_000) + "k sats"@
    } else {
        signed_decimal(sats as int) + " sats"@
    }
}

/// An amount as people read it; `millions` is its number of millions.
pub fn format_sats(sats: i64, millions: &str) -> (out: String)
    ensures
        out@ == sats_text(sats, millions@),
{
    if sats >= 1_000_000 {
        let mut out: String = millions.to_owned();
        out.append("M sats");
        out
    } else if sats >= 1_000 {
        let mut out: String = signed_decimal_text(sats / 1_000);
        out.append("k sats");
        out
    } else {
        let mut out: String = signed_decimal_text(sats);
        out.append(" sats");
        out
    }
}

/// A text, or a dash where there is none.
pub open spec fn or_dash(s: Option<Seq<char>>) -> Seq<char> {
    match s {
        Some(s) => s,
        None => "-"@,
    }
}

fn text_or_dash(s: &Option<String>) -> (out: String)
    ensures
        out@ == or_dash(option_view(*s)),
{
    match s {
        Some(s) => s.clone(),
        None => "-".to_owned(),
    }
}

// ── the landing page ──────────────────────────────────────────────

/// A plan to choose.
pub open spec fn card(plan: PlanView, millions: Seq<char>) -> Seq<char> {
    "<div class=\"card plan\" onclick=\"selectPlan('"@
        + plan.id
        + "')\">\n                <div class=\"provider\">"@
        + plan.provider.text()
        + "</div>\n                <h3>"@
        + plan.name
        + "</h3>\n                <div class=\"specs\">"@
        + signed_decimal(plan.vcpus as int)
        + " vCPU &middot; "@
        + signed_decimal(plan.ram_gb as int)
        + "GB RAM &middot; "@
        + signed_decimal(plan.disk_gb as int)
        + "GB disk &middot; "@
        + signed_decimal(plan.duration_hours as int)
        + "h</div>\n                <div class=\"price\">"@
        + sats_text(plan.price_sats, millions)
        + "</div>\n            </div>"@
}

fn plan_card(plan: &Plan, millions: &str) -> (out: String)
    ensures
        out@ == card(plan@, millions@),
{
    let mut out: String = "<div class=\"card plan\" onclick=\"selectPlan('".to_owned();
    out.append(plan.id.as_str());
    out.append("')\">\n                <div class=\"provider\">");
    out.append(plan.provider.as_str());
    out.append("</div>\n                <h3>");
    out.append(plan.name.as_str());
    out.append("</h3>\n                <div class=\"specs\">");
    out.append(signed_decimal_text(plan.vcpus).as_str());
    out.append(" vCPU &middot; ");
    out.append(signed_decimal_text(plan.ram_gb).as_str());
    out.append("GB RAM &middot; ");
    out.append(signed_decimal_text(plan.disk_gb).as_str());
    out.append("GB disk &middot; ");
    out.append(signed_decimal_text(plan.duration_hours).as_str());
    out.append("h</div>\n                <div class=\"price\">");
    out.append(format_sats(plan.price_sats, millions).as_str());
    out.append("</div>\n            </div>");
    out
}

/// The plans of a provider to choose from.
pub open spec fn cards(plans: Seq<PlanView>, millions: Seq<Seq<char>>, provider: Provider) -> Seq<
    char,
>
    decreases plans.len(),
{
    if plans.len() == 0 {
        Seq::empty()
    } else {
        let before = cards(plans.drop_last(), millions, provider);
        if plans.last().provider == provider {
            before + card(plans.last(), millions[plans.len() - 1])
        } else {
            before
        }
    }
}

/// The landing page.
pub open spec fn landing_page(local: Seq<char>, cloud: Seq<char>) -> Seq<char> {
    PAGE_HEAD@
        + "DD Market — TDX Node Marketplace</title>"@
        + STYLE@
        + LANDING_FORM@
        + local
        + LANDING_CLOUD@
        + cloud
        + LANDING_TAIL@
}

/// The landing page: the plans of either provider, and a form to order one.
pub fn landing(plans: &[Plan], millions: &[String]) -> (out: String)
    requires
        plans@.len() == millions@.len(),
    ensures
        out@ == landing_page(
            cards(plan_views(plans@), views(millions@), Provider::Local),
            cards(plan_views(plans@), views(millions@), Provider::Gcp),
        ),
{
    let ghost all = plan_views(plans@);
    let ghost prices = views(millions@);
    let mut local: String = String::new();
    let mut cloud: String = String::new();
    let mut i: usize = 0;
    assert(all.take(0) =~= Seq::<PlanView>::empty());
    while i < plans.len()
        invariant
            all == plan_views(plans@),
            prices == views(millions@),
            plans@.len() == millions@.len(),
            i <= plans.len(),
            local@ == cards(all.take(i as int), prices, Provider::Local),
            cloud@ == cards(all.take(i as int), prices, Provider::Gcp),
        decreases plans.len() - i,
    {
        proof {
            assert(all.take(i + 1).drop_last() =~= all.take(i as int));
            assert(all.take(i + 1).last() == plans@[i as int]@);
        }
        let html: String = plan_card(&plans[i], millions[i].as_str());
        match plans[i].provider {
            Provider::Local => local.append(html.as_str()),
            Provider::Gcp => cloud.append(html.as_str()),
        }
        i = i + 1;
    }
    assert(all.take(all.len() as int) =~= all);
    let mut out: String = PAGE_HEAD.to_owned();
    out.append("DD Market — TDX Node Marketplace</title>");
    out.append(STYLE);
    out.append(LANDING_FORM);
    out.append(local.as_str());
    out.append(LANDING_CLOUD);
    out.append(cloud.as_str());
    out.append(LANDING_TAIL);
    out
}

// ── the order page ────────────────────────────────────────────────

/// How an order is paid.
pub open spec fn payment_section(price_sats: i64, url: Seq<char>, millions: Seq<char>) -> Seq<
    char,
> {
    "<div class=\"card\">\n                <h2>Payment</h2>\n                <p>Amount: <strong>"@
        + sats_text(price_sats, millions)
        + "</strong></p>\n                <p><a href=\""@
        + url
        + "\" target=\"_blank\">Open payment page &rarr;</a></p>\n                <iframe src=\""@
        + url
        + "\" style=\"width:100%;height:400px;border:1px solid #333;border-radius:8px;margin-top:1rem\" allow=\"clipboard-write\"></iframe>\n            </div>"@
}

fn payment_html(price_sats: i64, url: &str, millions: &str) -> (out: String)
    ensures
        out@ == payment_section(price_sats, url@, millions@),
{
    let mut out: String = "<div class=\"card\">\n                <h2>Payment</h2>\n                <p>Amount: <strong>".to_owned();
    out.append(format_sats(price_sats, millions).as_str());
    out.append("</strong></p>\n                <p><a href=\"");
    out.append(url);
    out.append("\" target=\"_blank\">Open payment page &rarr;</a></p>\n                <iframe src=\"");
    out.append(url);
    out.append("\" style=\"width:100%;height:400px;border:1px solid #333;border-radius:8px;margin-top:1rem\" allow=\"clipboard-write\"></iframe>\n            </div>");
    out
}

/// Where a node answers.
pub open spec fn host_link(host: Seq<char>) -> Seq<char> {
    "<p>URL: <a href=\"https://"@
        + host
        + "\" target=\"_blank\">https://"@
        + host
        + "</a></p>"@
}

fn host_html(host: &str) -> (out: String)
    ensures
        out@ == host_link(host@),
{
    let mut out: String = "<p>URL: <a href=\"https://".to_owned();
    out.append(host);
    out.append("\" target=\"_blank\">https://");
    out.append(host);
    out.append("</a></p>");
    out
}

/// The node of an order.
pub open spec fn node_section(node: NodeView) -> Seq<char> {
    "<div class=\"card\">\n                <h2>Node</h2>\n                <p>VM: <code>"@
        + node.vm_name
        + "</code> &middot; Provider: "@
        + node.provider.text()
        + " &middot; Status: "@
        + badge(node.status.text())
        + "</p>\n                "@
        + (match node.hostname {
            Some(h) => host_link(h),
            None => Seq::empty(),
        })
        + "\n                <p>Expires: "@
        + node.expires_at
        + "</p>\n            </div>"@
}

fn node_html(node: &Node) -> (out: String)
    ensures
        out@ == node_section(node@),
{
    let link: String = match &node.hostname {
        Some(h) => host_html(h.as_str()),
        None => String::new(),
    };
    let mut out: String = "<div class=\"card\">\n                <h2>Node</h2>\n                <p>VM: <code>".to_owned();
    out.append(node.vm_name.as_str());
    out.append("</code> &middot; Provider: ");
    out.append(node.provider.as_str());
    out.append(" &middot; Status: ");
    out.append(status_badge(node.status.as_str()).as_str());
    out.append("</p>\n                ");
    out.append(link.as_str());
    out.append("\n                <p>Expires: ");
    out.append(node.expires_at.as_str());
    out.append("</p>\n            </div>");
    out
}

/// The order page; `payment` and `node` are its sections.
pub open spec fn order_page(order: OrderView, payment: Seq<char>, node: Seq<char>) -> Seq<char> {
    PAGE_HEAD@
        + "Order "@
        + order.id
        + " — DD Market</title>"@
        + STYLE@
        + ORDER_BODY@
        + short(order.id)
        + "</h2>\n    <p>Status: "@
        + badge(order.status.text())
        + "</p>\n    <p>GitHub: <strong>"@
        + order.github_handle
        + "</strong></p>\n    <p>Plan: "@
        + order.plan_id
        + "</p>\n    <p>Created: "@
        + order.created_at
        + "</p>\n  </div>\n  "@
        + payment
        + "\n  "@
        + node
        + "\n</div>\n</body></html>"@
}

/// The order page: where the order stands, how it is paid, and its node.
pub fn order_status(
    order: &Order,
    node: Option<&Node>,
    checkout_url: Option<&str>,
    millions: &str,
) -> (out: String)
    requires
        cuttable(order.id@),
    ensures
        out@ == order_page(
            order@,
            match header_view(checkout_url) {
                Some(url) => payment_section(order.price_sats, url, millions@),
                None => Seq::empty(),
            },
            match node {
                Some(n) => node_section(n@),
                None => Seq::empty(),
            },
        ),
{
    let payment: String = match checkout_url {
        Some(url) => payment_html(order.price_sats, url, millions),
        None => String::new(),
    };
    let node_html: String = match node {
        Some(n) => node_html(n),
        None => String::new(),
    };
    let mut out: String = PAGE_HEAD.to_owned();
    out.append("Order ");
    out.append(order.id.as_str());
    out.append(" — DD Market</title>");
    out.append(STYLE);
    out.append(ORDER_BODY);
    out.append(short_id(order.id.as_str()));
    out.append("</h2>\n    <p>Status: ");
    out.append(status_badge(order.status.as_str()).as_str());
    out.append("</p>\n    <p>GitHub: <strong>");
    out.append(order.github_handle.as_str());
    out.append("</strong></p>\n    <p>Plan: ");
    out.append(order.plan_id.as_str());
    out.append("</p>\n    <p>Created: ");
    out.append(order.created_at.as_str());
    out.append("</p>\n  </div>\n  ");
    out.append(payment.as_str());
    out.append("\n  ");
    out.append(node_html.as_str());
    out.append("\n</div>\n</body></html>");
    out
}

// ── the page of orders ────────────────────────────────────────────

/// The views of a list of orders.
pub open spec fn order_views(orders: Seq<Order>) -> Seq<OrderView> {
    Seq::new(orders.len(), |i: int| orders[i]@)
}

/// An order in a table.
pub open spec fn order_row(o: OrderView, millions: Seq<char>) -> Seq<char> {
    "<tr>\n                <td><a href=\"/order/"@
        + o.id
        + "\">"@
        + short(o.id)
        + "</a></td>\n                <td>"@
        + o.github_handle
        + "</td>\n                <td>"@
        + o.plan_id
        + "</td>\n                <td>"@
        + badge(o.status.text())
        + "</td>\n                <td>"@
        + sats_text(o.price_sats, millions)
        + "</td>\n                <td>"@
        + o.created_at
        + "</td>\n            </tr>"@
}

fn order_row_html(o: &Order, millions: &str) -> (out: String)
    requires
        cuttable(o.id@),
    ensures
        out@ == order_row(o@, millions@),
{
    let mut out: String = "<tr>\n                <td><a href=\"/order/".to_owned();
    out.append(o.id.as_str());
    out.append("\">");
    out.append(short_id(o.id.as_str()));
    out.append("</a></td>\n                <td>");
    out.append(o.github_handle.as_str());
    out.append("</td>\n                <td>");
    out.append(o.plan_id.as_str());
    out.append("</td>\n                <td>");
    out.append(status_badge(o.status.as_str()).as_str());
    out.append("</td>\n                <td>");
    out.append(format_sats(o.price_sats, millions).as_str());
    out.append("</td>\n                <td>");
    out.append(o.created_at.as_str());
    out.append("</td>\n            </tr>");
    out
}

/// Orders in a table.
pub open spec fn order_rows(orders: Seq<OrderView>, millions: Seq<Seq<char>>) -> Seq<char>
    decreases orders.len(),
{
    if orders.len() == 0 {
        Seq::empty()
    } else {
        order_rows(orders.drop_last(), millions) + order_row(
            orders.last(),
            millions[orders.len() - 1],
        )
    }
}

/// The page of orders.
pub open spec fn orders_page(rows: Seq<char>) -> Seq<char> {
    PAGE_HEAD@
        + "Admin — DD Market</title>"@
        + STYLE@
        + ORDERS_BODY@
        + rows
        + TABLE_END@
}

/// The page of orders.
pub fn admin_orders(orders: &[Order], millions: &[String]) -> (out: String)
    requires
        orders@.len() == millions@.len(),
        forall|i: int| 0 <= i < orders@.len() ==> cuttable((#[trigger] orders@[i]).id@),
    ensures
        out@ == orders_page(order_rows(order_views(orders@), views(millions@))),
{
    let ghost all = order_views(orders@);
    let ghost prices = views(millions@);
    let mut rows: String = String::new();
    let mut i: usize = 0;
    assert(all.take(0) =~= Seq::<OrderView>::empty());
    while i < orders.len()
        invariant
            all == order_views(orders@),
            prices == views(millions@),
            orders@.len() == millions@.len(),
            forall|i: int| 0 <= i < orders@.len() ==> cuttable((#[trigger] orders@[i]).id@),
            i <= orders.len(),
            rows@ == order_rows(all.take(i as int), prices),
        decreases orders.len() - i,
    {
        proof {
            assert(all.take(i + 1).drop_last() =~= all.take(i as int));
            assert(all.take(i + 1).last() == orders@[i as int]@);
        }
        rows.append(order_row_html(&orders[i], millions[i].as_str()).as_str());
        i = i + 1;
    }
    assert(all.take(all.len() as int) =~= all);
    let mut out: String = PAGE_HEAD.to_owned();
    out.append("Admin — DD Market</title>");
    out.append(STYLE);
    out.append(ORDERS_BODY);
    out.append(rows.as_str());
    out.append(TABLE_END);
    out
}

// ── the page of nodes ─────────────────────────────────────────────

/// A node in a table.
pub open spec fn node_row(n: NodeView) -> Seq<char> {
    "<tr>\n                <td>"@
        + short(n.id)
        + "</td>\n                <td>"@
        + n.github_handle
        + "</td>\n                <td>"@
        + n.vm_name
        + "</td>\n                <td>"@
        + n.provider.text()
        + "</td>\n                <td>"@
        + or_dash(n.hostname)
        + "</td>\n                <td>"@
        + badge(n.status.text())
        + "</td>\n                <td>"@
        + n.expires_at
        + "</td>\n            </tr>"@
}

fn node_row_html(n: &Node) -> (out: String)
    requires
        cuttable(n.id@),
    ensures
        out@ == node_row(n@),
{
    let mut out: String = "<tr>\n                <td>".to_owned();
    out.append(short_id(n.id.as_str()));
    out.append("</td>\n                <td>");
    out.append(n.github_handle.as_str());
    out.append("</td>\n                <td>");
    out.append(n.vm_name.as_str());
    out.append("</td>\n                <td>");
    out.append(n.provider.as_str());
    out.append("</td>\n                <td>");
    out.append(text_or_dash(&n.hostname).as_str());
    out.append("</td>\n                <td>");
    out.append(status_badge(n.status.as_str()).as_str());
    out.append("</td>\n                <td>");
    out.append(n.expires_at.as_str());
    out.append("</td>\n            </tr>");
    out
}

/// Nodes in a table.
pub open spec fn node_rows(nodes: Seq<NodeView>) -> Seq<char>
    decreases nodes.len(),
{
    if nodes.len() == 0 {
        Seq::empty()
    } else {
        node_rows(nodes.drop_last()) + node_row(nodes.last())
    }
}

/// The page of nodes.
pub open spec fn nodes_page(rows: Seq<char>) -> Seq<char> {
    PAGE_HEAD@
        + "Nodes — DD Market</title>"@
        + STYLE@
        + NODES_BODY@
        + rows
        + TABLE_END@
}

/// The page of nodes.
pub fn admin_nodes(nodes: &[Node]) -> (out: String)
    requires
        forall|i: int| 0 <= i < nodes@.len() ==> cuttable((#[trigger] nodes@[i]).id@),
    ensures
        out@ == nodes_page(node_rows(node_views(nodes@))),
{
    let ghost all = node_views(nodes@);
    let mut rows: String = String::new();
    let mut i: usize = 0;
    assert(all.take(0) =~= Seq::<NodeView>::empty());
    while i < nodes.len()
        invariant
            all == node_views(nodes@),
            forall|i: int| 0 <= i < nodes@.len() ==> cuttable((#[trigger] nodes@[i]).id@),
            i <= nodes.len(),
            rows@ == node_rows(all.take(i as int)),
        decreases nodes.len() - i,
    {
        proof {
            assert(all.take(i + 1).drop_last() =~= all.take(i as int));
            assert(all.take(i + 1).last() == nodes@[i as int]@);
        }
        rows.append(node_row_html(&nodes[i]).as_str());
        i = i + 1;
    }
    assert(all.take(all.len() as int) =~= all);
    let mut out: String = PAGE_HEAD.to_owned();
    out.append("Nodes — DD Market</title>");
    out.append(STYLE);
    out.append(NODES_BODY);
    out.append(rows.as_str());
    out.append(TABLE_END);
    out
}

// ── the page of the pool ──────────────────────────────────────────

/// A warm node in a table.
pub open spec fn warm_row(n: NodeView) -> Seq<char> {
    "<tr>\n                <td>"@
        + short(n.id)
        + "</td>\n                <td>"@
        + n.vm_name
        + "</td>\n                <td>"@
        + n.provider.text()
        + "</td>\n                <td>"@
        + badge(n.status.text())
        + "</td>\n                <td>"@
        + n.created_at
        + "</td>\n            </tr>"@
}

fn warm_row_html(n: &Node) -> (out: String)
    requires
        cuttable(n.id@),
    ensures
        out@ == warm_row(n@),
{
    let mut out: String = "<tr>\n                <td>".to_owned();
    out.append(short_id(n.id.as_str()));
    out.append("</td>\n                <td>");
    out.append(n.vm_name.as_str());
    out.append("</td>\n                <td>");
    out.append(n.provider.as_str());
    out.append("</td>\n                <td>");
    out.append(status_badge(n.status.as_str()).as_str());
    out.append("</td>\n                <td>");
    out.append(n.created_at.as_str());
    out.append("</td>\n            </tr>");
    out
}

/// Warm nodes in a table.
pub open spec fn warm_rows(nodes: Seq<NodeView>) -> Seq<char>
    decreases nodes.len(),
{
    if nodes.len() == 0 {
        Seq::empty()
    } else {
        warm_rows(nodes.drop_last()) + warm_row(nodes.last())
    }
}

/// A recent order in a table.
pub open spec fn recent_row(o: RecentOrder) -> Seq<char> {
    "<tr>\n                <td>"@
        + o.plan_name@
        + "</td>\n                <td>"@
        + o.provider@
        + "</td>\n                <td>"@
        + badge(o.status@)
        + "</td>\n                <td>"@
        + or_dash(option_view(o.paid_at))
        + "</td>\n            </tr>"@
}

fn recent_row_html(o: &RecentOrder) -> (out: String)
    ensures
        out@ == recent_row(*o),
{
    let mut out: String = "<tr>\n                <td>".to_owned();
    out.append(o.plan_name.as_str());
    out.append("</td>\n                <td>");
    out.append(o.provider.as_str());
    out.append("</td>\n                <td>");
    out.append(status_badge(o.status.as_str()).as_str());
    out.append("</td>\n                <td>");
    out.append(text_or_dash(&o.paid_at).as_str());
    out.append("</td>\n            </tr>");
    out
}

/// Recent orders in a table.
pub open spec fn recent_rows(orders: Seq<RecentOrder>) -> Seq<char>
    decreases orders.len(),
{
    if orders.len() == 0 {
        Seq::empty()
    } else {
        recent_rows(orders.drop_last()) + recent_row(orders.last())
    }
}

/// The page of the pool.
pub open spec fn pool_page(
    warm_local: i64,
    warm_gcp: i64,
    warm: Seq<char>,
    recent: Seq<char>,
    config: MarketView,
) -> Seq<char> {
    PAGE_HEAD@
        + "Pool — DD Market</title>"@
        + STYLE@
        + POOL_BODY@
        + config.openrouter_model
        + "</strong> &middot; Max: <strong>"@
        + decimal(config.pool_max as nat)
        + "</strong> &middot; Interval: <strong>"@
        + decimal(config.pool_interval_secs as nat)
        + "s</strong></p>\n    <p>Warm local: <strong>"@
        + signed_decimal(warm_local as int)
        + "</strong> &middot; Warm GCP: <strong>"@
        + signed_decimal(warm_gcp as int)
        + POOL_WARM@
        + warm
        + POOL_RECENT@
        + recent
        + TABLE_END@
}

/// Appends the rows of warm nodes.
fn append_warm(rows: &mut String, nodes: &[Node])
    requires
        forall|i: int| 0 <= i < nodes@.len() ==> cuttable((#[trigger] nodes@[i]).id@),
    ensures
        final(rows)@ == old(rows)@ + warm_rows(node_views(nodes@)),
{
    let ghost all = node_views(nodes@);
    let ghost before = rows@;
    let mut i: usize = 0;
    assert(all.take(0) =~= Seq::<NodeView>::empty());
    assert(before + warm_rows(all.take(0)) =~= before);
    while i < nodes.len()
        invariant
            all == node_views(nodes@),
            forall|i: int| 0 <= i < nodes@.len() ==> cuttable((#[trigger] nodes@[i]).id@),
            i <= nodes.len(),
            rows@ == before + warm_rows(all.take(i as int)),
        decreases nodes.len() - i,
    {
        let ghost done = warm_rows(all.take(i as int));
        proof {
            assert(all.take(i + 1).drop_last() =~= all.take(i as int));
            assert(all.take(i + 1).last() == nodes@[i as int]@);
            assert(before + done + warm_row(nodes@[i as int]@) =~= before + (done + warm_row(
                nodes@[i as int]@,
            )));
        }
        rows.append(warm_row_html(&nodes[i]).as_str());
        i = i + 1;
    }
    assert(all.take(all.len() as int) =~= all);
}

/// The page of the pool: the warm nodes, local ones first, and the latest
/// orders.
pub fn admin_pool(
    warm_local: i64,
    warm_gcp: i64,
    warm_nodes_local: &[Node],
    warm_nodes_gcp: &[Node],
    recent_orders: &[RecentOrder],
    config: &MarketConfig,
) -> (out: String)
    requires
        forall|i: int|
            0 <= i < warm_nodes_local@.len() ==> cuttable((#[trigger] warm_nodes_local@[i]).id@),
        forall|i: int|
            0 <= i < warm_nodes_gcp@.len() ==> cuttable((#[trigger] warm_nodes_gcp@[i]).id@),
    ensures
        out@ == pool_page(
            warm_local,
            warm_gcp,
            warm_rows(node_views(warm_nodes_local@)) + warm_rows(node_views(warm_nodes_gcp@)),
            recent_rows(recent_orders@),
            config@,
        ),
{
    let mut warm: String = String::new();
    append_warm(&mut warm, warm_nodes_local);
    append_warm(&mut warm, warm_nodes_gcp);
    assert(warm@ =~= warm_rows(node_views(warm_nodes_local@)) + warm_rows(
        node_views(warm_nodes_gcp@),
    ));
    let mut recent: String = String::new();
    let mut i: usize = 0;
    assert(recent_orders@.take(0) =~= Seq::<RecentOrder>::empty());
    while i < recent_orders.len()
        invariant
            i <= recent_orders.len(),
            recent@ == recent_rows(recent_orders@.take(i as int)),
        decreases recent_orders.len() - i,
    {
        proof {
            assert(recent_orders@.take(i + 1).drop_last() =~= recent_orders@.take(i as int));
        }
        recent.append(recent_row_html(&recent_orders[i]).as_str());
        i = i + 1;
    }
    assert(recent_orders@.take(recent_orders@.len() as int) =~= recent_orders@);
    let mut out: String = PAGE_HEAD.to_owned();
    out.append("Pool — DD Market</title>");
    out.append(STYLE);
    out.append(POOL_BODY);
    out.append(config.openrouter_model.as_str());
    out.append("</strong> &middot; Max: <strong>");
    out.append(decimal_text(config.pool_max as u64).as_str());
    out.append("</strong> &middot; Interval: <strong>");
    out.append(decimal_text(config.pool_interval_secs).as_str());
    out.append("s</strong></p>\n    <p>Warm local: <strong>");
    out.append(signed_decimal_text(warm_local).as_str());
    out.append("</strong> &middot; Warm GCP: <strong>");
    out.append(signed_decimal_text(warm_gcp).as_str());
    out.append(POOL_WARM);
    out.append(warm.as_str());
    out.append(POOL_RECENT);
    out.append(recent.as_str());
    out.append(TABLE_END);
    out
}

} // verus!
