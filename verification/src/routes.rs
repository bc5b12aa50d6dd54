//! The marketplace's requests: ordering, paying, administration.

use crate::btcpay::{constant_time_eq, is_settlement, settles, BtcPayClient, WebhookPayload};
use crate::btcpay::{signature_digest, webhook_digest};
use crate::ids::{cuttable, id_shaped, random_id};
use crate::models::{Node, Order, OrderStatus, OrderView, Plan, PlanView};
use crate::templates;
use crate::templates::{node_section, order_page, payment_section};
use crate::text::{
    alphanumeric, chars_of, is_alphanumeric, option_view, pieces, split, strip_prefix, trim,
    trimmed, views, without_prefix,
};
use crate::time::{representable, rfc3339_of, Moment, Timestamp};
use crate::tools::header_view;
use crate::writes::{write_views, DbWrite, WriteView};
use vstd::prelude::*;
use vstd::utf8::encode_utf8_decode_utf8;

verus! {

/// An answer that is no page.
#[derive(Clone, Debug)]
pub enum Answer {
    /// Go elsewhere.
    Redirect(String),
    /// A status and a plain text.
    Text(u16, String),
}

/// What an [`Answer`] holds.
#[verifier::ext_equal]
pub enum AnswerView {
    Redirect(Seq<char>),
    Text(u16, Seq<char>),
}

impl View for Answer {
    type V = AnswerView;

    open spec fn view(&self) -> AnswerView {
        match self {
            Answer::Redirect(to) => AnswerView::Redirect(to@),
            Answer::Text(status, text) => AnswerView::Text(*status, text@),
        }
    }
}

// ── ordering ──────────────────────────────────────────────────────

/// What a customer fills in.
#[derive(Clone, Debug)]
pub struct OrderForm {
    /// Who orders.
    pub github_handle: String,
    /// What.
    pub plan_id: String,
}

/// A handle: letters, numbers and hyphens, at least one.
pub open spec fn is_handle(s: Seq<char>) -> bool {
    s.len() > 0 && forall|i: int|
        0 <= i < s.len() ==> alphanumeric(#[trigger] s[i]) || s[i] == '-'
}

/// Whether `s` is a handle.
pub fn valid_handle(s: &str) -> (ok: bool)
    ensures
        ok == is_handle(s@),
{
    let text: Vec<char> = chars_of(s);
    if text.len() == 0 {
        return false;
    }
    let mut i: usize = 0;
    while i < text.len()
        invariant
            text@ == s@,
            i <= text.len(),
            forall|k: int| 0 <= k < i ==> alphanumeric(#[trigger] s@[k]) || s@[k] == '-',
        decreases text.len() - i,
    {
        if !is_alphanumeric(text[i]) && text[i] != '-' {
            assert(!(alphanumeric(s@[i as int]) || s@[i as int] == '-'));
            return false;
        }
        i = i + 1;
    }
    true
}

/// An order that waits for its payment.
pub open spec fn pending_order(
    handle: Seq<char>,
    plan: PlanView,
    order_id: Seq<char>,
    now: Moment,
) -> OrderView {
    OrderView {
        id: order_id,
        github_handle: handle,
        plan_id: plan.id,
        status: OrderStatus::PendingPayment,
        btcpay_invoice_id: None,
        price_sats: plan.price_sats,
        created_at: rfc3339_of(now),
        paid_at: None,
        provisioned_at: None,
        expires_at: None,
        error_message: None,
    }
}

/// An order that waits for its payment; it is made at `now` and named
/// `order_id`.
pub fn new_order(handle: &str, plan: &Plan, order_id: &str, now: &Timestamp) -> (order: Order)
    ensures
        order@ == pending_order(handle@, plan@, order_id@, now@),
{
    Order {
        id: order_id.to_owned(),
        github_handle: handle.to_owned(),
        plan_id: plan.id.clone(),
        status: OrderStatus::PendingPayment,
        btcpay_invoice_id: None,
        price_sats: plan.price_sats,
        created_at: now.to_rfc3339(),
        paid_at: None,
        provisioned_at: None,
        expires_at: None,
        error_message: None,
    }
}

/// What is wrong with an order; `plan` is the plan that it names.
pub open spec fn order_fault(form: OrderForm, plan: Option<&Plan>) -> Option<Seq<char>> {
    if !is_handle(trim(form.github_handle@)) {
        Some("invalid github handle"@)
    } else if plan is None {
        Some("invalid plan"@)
    } else {
        None
    }
}

/// Makes an order out of a form; `plan` is the plan that it names.
pub fn create_order(form: &OrderForm, plan: Option<&Plan>, order_id: &str, now: &Timestamp) -> (r:
    Result<Order, Answer>)
    ensures
        match r {
            Ok(order) => order_fault(*form, plan) is None && order@ == pending_order(
                trim(form.github_handle@),
                plan->0@,
                order_id@,
                now@,
            ),
            Err(a) => order_fault(*form, plan) is Some && a@ == AnswerView::Text(
                400,
                order_fault(*form, plan)->0,
            ),
        },
{
    let handle: &str = trimmed(form.github_handle.as_str());
    if !valid_handle(handle) {
        return Err(Answer::Text(400, "invalid github handle".to_owned()));
    }
    match plan {
        None => Err(Answer::Text(400, "invalid plan".to_owned())),
        Some(plan) => Ok(new_order(handle, plan, order_id, now)),
    }
}

/// Makes an order out of a form, now and with a random identifier.
pub fn place_order(form: &OrderForm, plan: Option<&Plan>) -> (r: Result<Order, Answer>)
    ensures
        match r {
            Ok(order) => order_fault(*form, plan) is None && exists|order_id: Seq<char>, now: Moment|
                #[trigger] id_shaped(order_id) && #[trigger] representable(now) && order@
                    == pending_order(trim(form.github_handle@), plan->0@, order_id, now),
            Err(a) => order_fault(*form, plan) is Some && a@ == AnswerView::Text(
                400,
                order_fault(*form, plan)->0,
            ),
        },
{
    let order_id: String = random_id();
    let now: Timestamp = Timestamp::now();
    let r: Result<Order, Answer> = create_order(form, plan, order_id.as_str(), &now);
    assert(id_shaped(order_id@) && representable(now@));
    r
}

/// What becomes of an order once its invoice was asked for: the customer is
/// sent to it, or the order failed.
pub fn invoice_made(order_id: &str, invoice: Result<String, String>) -> (r: (Vec<DbWrite>, Answer))
    ensures
        match invoice {
            Ok(id) => write_views(r.0@) == seq![
                WriteView::OrderInvoice { order_id: order_id@, invoice_id: id@ },
                WriteView::Event {
                    order_id: Some(order_id@),
                    node_id: None,
                    event_type: "invoice_created"@,
                    details: Some(id@),
                },
            ] && r.1@ == AnswerView::Redirect("/order/"@ + order_id@),
            Err(e) => write_views(r.0@) == seq![
                WriteView::OrderFailed { order_id: order_id@, error: e@ },
            ] && r.1@ == AnswerView::Text(500, "payment error: "@ + e@),
        },
{
    let mut writes: Vec<DbWrite> = Vec::new();
    match invoice {
        Ok(id) => {
            writes.push(
                DbWrite::OrderInvoice { order_id: order_id.to_owned(), invoice_id: id.clone() },
            );
            writes.push(
                DbWrite::Event {
                    order_id: Some(order_id.to_owned()),
                    node_id: None,
                    event_type: "invoice_created",
                    details: Some(id.clone()),
                },
            );
            assert(write_views(writes@) =~= seq![
                WriteView::OrderInvoice { order_id: order_id@, invoice_id: id@ },
                WriteView::Event {
                    order_id: Some(order_id@),
                    node_id: None,
                    event_type: "invoice_created"@,
                    details: Some(id@),
                },
            ]);
            let mut to: String = "/order/".to_owned();
            to.append(order_id);
            (writes, Answer::Redirect(to))
        },
        Err(e) => {
            writes.push(DbWrite::OrderFailed { order_id: order_id.to_owned(), error: e.clone() });
            assert(write_views(writes@) =~= seq![
                WriteView::OrderFailed { order_id: order_id@, error: e@ },
            ]);
            let mut text: String = "payment error: ".to_owned();
            text.append(e.as_str());
            (writes, Answer::Text(500, text))
        },
    }
}

/// The page of an order, or that there is none. An order with an invoice can be
/// paid there; `millions` is its price in millions of sats.
pub fn order_status(
    order: Option<&Order>,
    node: Option<&Node>,
    client: &BtcPayClient,
    millions: &str,
) -> (r: Result<String, Answer>)
    requires
        order matches Some(o) ==> cuttable(o.id@),
    ensures
        match r {
            Ok(page) => order is Some && page@ == order_page(
                order->0@,
                match order->0@.btcpay_invoice_id {
                    Some(id) => payment_section(
                        order->0.price_sats,
                        client.base_url@ + "/i/"@ + id,
                        millions@,
                    ),
                    None => Seq::empty(),
                },
                match node {
                    Some(n) => node_section(n@),
                    None => Seq::empty(),
                },
            ),
            Err(a) => order is None && a@ == AnswerView::Text(404, "order not found"@),
        },
{
    let order: &Order = match order {
        Some(o) => o,
        None => return Err(Answer::Text(404, "order not found".to_owned())),
    };
    match &order.btcpay_invoice_id {
        Some(id) => {
            let url: String = client.checkout_url(id.as_str());
            Ok(templates::order_status(order, node, Some(url.as_str()), millions))
        },
        None => Ok(templates::order_status(order, node, None, millions)),
    }
}

// ── the payment webhook ───────────────────────────────────────────

/// Whether a report bears the server's signature; a missing one counts as
/// empty.
pub fn webhook_admitted(client: &BtcPayClient, body: &[u8], signature: Option<&str>) -> (ok: bool)
    ensures
        ok == (signature_digest(
            match signature {
                Some(s) => s@,
                None => ""@,
            },
        ) == webhook_digest(client.webhook_secret@, body@)),
        webhook_digest(client.webhook_secret@, body@).len() == 64,
{
    let signature: &str = match signature {
        Some(s) => s,
        None => "",
    };
    client.verify_webhook(body, signature)
}

/// The status of the answer to a report.
pub fn webhook_status(admitted: bool, readable: bool) -> (status: u16)
    ensures
        status == if !admitted {
            401
        } else if !readable {
            400
        } else {
            200int
        },
{
    if !admitted {
        401
    } else if !readable {
        400
    } else {
        200
    }
}

/// What a report writes; `order` is the order of its invoice. Only a settled
/// invoice of an order that waits for its payment has an effect.
pub open spec fn payment_writes(
    payload: WebhookPayload,
    order: Option<&Order>,
) -> Seq<WriteView> {
    if is_settlement(payload.event_type@) && order is Some && order->0.status
        == OrderStatus::PendingPayment {
        seq![
            WriteView::OrderPaid { order_id: order->0.id@ },
            WriteView::Event {
                order_id: Some(order->0.id@),
                node_id: None,
                event_type: "payment_settled"@,
                details: Some(payload.invoice_id@),
            },
        ]
    } else {
        seq![]
    }
}

/// What a report writes; `order` is the order of its invoice.
pub fn btcpay_webhook(payload: &WebhookPayload, order: Option<&Order>) -> (writes: Vec<DbWrite>)
    ensures
        write_views(writes@) == payment_writes(*payload, order),
{
    let mut writes: Vec<DbWrite> = Vec::new();
    if settles(payload) {
        if let Some(order) = order {
            if order.status == OrderStatus::PendingPayment {
                writes.push(DbWrite::OrderPaid { order_id: order.id.clone() });
                writes.push(
                    DbWrite::Event {
                        order_id: Some(order.id.clone()),
                        node_id: None,
                        event_type: "payment_settled",
                        details: Some(payload.invoice_id.clone()),
                    },
                );
            }
        }
    }
    assert(write_views(writes@) =~= payment_writes(*payload, order));
    writes
}

/// What becomes of a report: the status of its answer, and what it writes. One
/// that is not `admitted`, or holds no payload, writes nothing.
pub fn webhook_outcome(
    admitted: bool,
    payload: Option<&WebhookPayload>,
    order: Option<&Order>,
) -> (r: (u16, Vec<DbWrite>))
    ensures
        !admitted ==> r.0 == 401 && write_views(r.1@) == Seq::<WriteView>::empty(),
        admitted && payload is None ==> r.0 == 400 && write_views(r.1@)
            == Seq::<WriteView>::empty(),
        admitted && payload is Some ==> r.0 == 200 && write_views(r.1@) == payment_writes(
            *payload->0,
            order,
        ),
{
    let status: u16 = webhook_status(admitted, payload.is_some());
    let mut writes: Vec<DbWrite> = Vec::new();
    assert(write_views(writes@) =~= Seq::<WriteView>::empty());
    if admitted {
        if let Some(report) = payload {
            writes = btcpay_webhook(report, order);
        }
    }
    (status, writes)
}

// ── administration ────────────────────────────────────────────────

/// The value of the first of some cookies that is the administrator's.
pub open spec fn admin_value(cookies: Seq<Seq<char>>) -> Option<Seq<char>>
    decreases cookies.len(),
{
    if cookies.len() == 0 {
        None
    } else {
        match without_prefix(trim(cookies[0]), "dd_market_admin="@) {
            Some(value) => Some(value),
            None => admin_value(cookies.subrange(1, cookies.len() as int)),
        }
    }
}

/// A request is the administrator's. Without a password every request is. A
/// `Bearer` header decides where there is one, else the cookie.
pub open spec fn is_admin(
    password: Option<Seq<char>>,
    authorization: Option<Seq<char>>,
    cookie: Option<Seq<char>>,
) -> bool {
    match password {
        None => true,
        Some(p) => {
            let token = match authorization {
                Some(a) => without_prefix(a, "Bearer "@),
                None => None,
            };
            let value = match cookie {
                Some(c) => admin_value(pieces(c, ';')),
                None => None,
            };
            match (token, value) {
                (Some(t), _) => t == p,
                (None, Some(v)) => v == p,
                (None, None) => false,
            }
        },
    }
}

fn same_secret(given: &str, password: &str) -> (same: bool)
    ensures
        same == (given@ == password@),
{
    proof {
        encode_utf8_decode_utf8(given@);
        encode_utf8_decode_utf8(password@);
    }
    constant_time_eq(given.as_bytes(), password.as_bytes())
}

/// The value of the administrator's cookie in a `Cookie` header.
pub fn admin_cookie(cookie: &str) -> (value: Option<String>)
    ensures
        option_view(value) == admin_value(pieces(cookie@, ';')),
{
    let parts: Vec<String> = split(cookie, ';');
    let ghost all = views(parts@);
    let mut i: usize = 0;
    assert(all.subrange(0, all.len() as int) =~= all);
    while i < parts.len()
        invariant
            all == views(parts@),
            i <= parts.len(),
            admin_value(all) == admin_value(all.subrange(i as int, all.len() as int)),
            all == pieces(cookie@, ';'),
        decreases parts.len() - i,
    {
        let ghost rest = all.subrange(i as int, all.len() as int);
        proof {
            assert(rest[0] == parts@[i as int]@);
            assert(rest.subrange(1, rest.len() as int) =~= all.subrange(i + 1, all.len() as int));
        }
        if let Some(value) = strip_prefix(trimmed(parts[i].as_str()), "dd_market_admin=") {
            return Some(value.to_owned());
        }
        i = i + 1;
    }
    None
}

/// Whether a request is the administrator's.
pub fn check_admin(
    password: &Option<String>,
    authorization: Option<&str>,
    cookie: Option<&str>,
) -> (ok: bool)
    ensures
        ok == is_admin(option_view(*password), header_view(authorization), header_view(cookie)),
{
    let password: &str = match password {
        Some(p) => p.as_str(),
        None => return true,
    };
    if let Some(auth) = authorization {
        if let Some(token) = strip_prefix(auth, "Bearer ") {
            return same_secret(token, password);
        }
    }
    if let Some(cookie) = cookie {
        if let Some(value) = admin_cookie(cookie) {
            return same_secret(value.as_str(), password);
        }
    }
    false
}

/// The answer to a liveness check: status and service.
pub fn health() -> (h: (&'static str, &'static str))
    ensures
        h.0@ == "ok"@,
        h.1@ == "dd-market"@,
{
    ("ok", "dd-market")
}

// ── laws ──────────────────────────────────────────────────────────

/// A payment counts once: an order that is no longer waiting is not touched by
/// another report, nor is any order by a report of another event.
pub proof fn law_payments_count_once(payload: WebhookPayload, order: &Order)
    ensures
        order.status != OrderStatus::PendingPayment ==> payment_writes(payload, Some(order)).len()
            == 0,
        !is_settlement(payload.event_type@) ==> payment_writes(payload, Some(order)).len() == 0,
        payment_writes(payload, None).len() == 0,
{
}

/// A password admits who presents it as a bearer token, whatever the cookies
/// say, and nobody who presents another.
pub proof fn law_admin_token_decides(
    password: Seq<char>,
    token: Seq<char>,
    cookie: Option<Seq<char>>,
)
    ensures
        is_admin(Some(password), Some("Bearer "@ + token), cookie) == (token == password),
        !is_admin(Some(password), None, None),
        is_admin(None, None, cookie),
{
    reveal_strlit("Bearer ");
    let header = "Bearer "@ + token;
    assert(header.subrange(0, 7) =~= "Bearer "@);
    assert(header.subrange(7, header.len() as int) =~= token);
}

} // verus!
