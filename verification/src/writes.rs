//! What a decision asks to be written to the marketplace's database.

use crate::models::{Node, NodeStatus, NodeView, Order, OrderStatus, OrderView};
use crate::text::option_view;
use vstd::prelude::*;

verus! {

/// One thing to write.
#[derive(Clone, Debug)]
pub enum DbWrite {
    /// A new order.
    InsertOrder(Order),
    /// The order's status.
    OrderStatus {
        /// The order.
        order_id: String,
        /// Its status.
        status: OrderStatus,
    },
    /// The order's invoice.
    OrderInvoice {
        /// The order.
        order_id: String,
        /// Its invoice.
        invoice_id: String,
    },
    /// The order is paid, as of the time of writing.
    OrderPaid {
        /// The order.
        order_id: String,
    },
    /// The order is active, as of the time of writing.
    OrderProvisioned {
        /// The order.
        order_id: String,
        /// When its time is over.
        expires_at: String,
    },
    /// The order failed.
    OrderFailed {
        /// The order.
        order_id: String,
        /// Why.
        error: String,
    },
    /// A new node.
    InsertNode(Node),
    /// The node's status.
    NodeStatus {
        /// The node.
        node_id: String,
        /// Its status.
        status: NodeStatus,
    },
    /// A warm node now runs for an order.
    ClaimWarmNode {
        /// The node.
        node_id: String,
        /// The order.
        order_id: String,
        /// Whose it now is.
        github_handle: String,
        /// When its time is over.
        expires_at: String,
    },
    /// An entry of the event log.
    Event {
        /// The order, if it is about one.
        order_id: Option<String>,
        /// The node, if it is about one.
        node_id: Option<String>,
        /// What happened.
        event_type: &'static str,
        /// More of it.
        details: Option<String>,
    },
}

/// What a [`DbWrite`] holds.
#[verifier::ext_equal]
pub enum WriteView {
    InsertOrder(OrderView),
    OrderStatus { order_id: Seq<char>, status: OrderStatus },
    OrderInvoice { order_id: Seq<char>, invoice_id: Seq<char> },
    OrderPaid { order_id: Seq<char> },
    OrderProvisioned { order_id: Seq<char>, expires_at: Seq<char> },
    OrderFailed { order_id: Seq<char>, error: Seq<char> },
    InsertNode(NodeView),
    NodeStatus { node_id: Seq<char>, status: NodeStatus },
    ClaimWarmNode {
        node_id: Seq<char>,
        order_id: Seq<char>,
        github_handle: Seq<char>,
        expires_at: Seq<char>,
    },
    Event {
        order_id: Option<Seq<char>>,
        node_id: Option<Seq<char>>,
        event_type: Seq<char>,
        details: Option<Seq<char>>,
    },
}

impl View for DbWrite {
    type V = WriteView;

    open spec fn view(&self) -> WriteView {
        match self {
            DbWrite::InsertOrder(order) => WriteView::InsertOrder(order@),
            DbWrite::OrderStatus { order_id, status } => WriteView::OrderStatus {
                order_id: order_id@,
                status: *status,
            },
            DbWrite::OrderInvoice { order_id, invoice_id } => WriteView::OrderInvoice {
                order_id: order_id@,
                invoice_id: invoice_id@,
            },
            DbWrite::OrderPaid { order_id } => WriteView::OrderPaid { order_id: order_id@ },
            DbWrite::OrderProvisioned { order_id, expires_at } => WriteView::OrderProvisioned {
                order_id: order_id@,
                expires_at: expires_at@,
            },
            DbWrite::OrderFailed { order_id, error } => WriteView::OrderFailed {
                order_id: order_id@,
                error: error@,
            },
            DbWrite::InsertNode(node) => WriteView::InsertNode(node@),
            DbWrite::NodeStatus { node_id, status } => WriteView::NodeStatus {
                node_id: node_id@,
                status: *status,
            },
            DbWrite::ClaimWarmNode { node_id, order_id, github_handle, expires_at } => {
                WriteView::ClaimWarmNode {
                    node_id: node_id@,
                    order_id: order_id@,
                    github_handle: github_handle@,
                    expires_at: expires_at@,
                }
            },
            DbWrite::Event { order_id, node_id, event_type, details } => WriteView::Event {
                order_id: option_view(*order_id),
                node_id: option_view(*node_id),
                event_type: event_type@,
                details: option_view(*details),
            },
        }
    }
}

/// The views of a list of writes.
pub open spec fn write_views(writes: Seq<DbWrite>) -> Seq<WriteView> {
    Seq::new(writes.len(), |i: int| writes[i]@)
}

} // verus!
