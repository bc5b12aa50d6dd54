//! What the node marketplace sells and keeps: plans, orders, nodes.

use crate::text::{clone_option, option_view, same_text};
use vstd::prelude::*;

verus! {

/// Who runs a node.
#[derive(Clone, Copy, Debug, PartialEq, Eq, Structural)]
pub enum Provider {
    /// The operator's own machines.
    Local,
    /// Google's cloud.
    Gcp,
}

impl Provider {
    /// Its name in the database.
    pub open spec fn text(self) -> Seq<char> {
        match self {
            Provider::Local => "local"@,
            Provider::Gcp => "gcp"@,
        }
    }

    /// Its name in the database.
    pub fn as_str(&self) -> (name: &'static str)
        ensures
            name@ == self.text(),
    {
        match self {
            Provider::Local => "local",
            Provider::Gcp => "gcp",
        }
    }

    /// What a name in the database stands for; an unknown one stands for
    /// `Local`.
    pub fn from_str(s: &str) -> (out: Provider)
        ensures
            out == provider_named(s@),
    {
        if same_text(s, "local") {
            return Provider::Local;
        }
        if same_text(s, "gcp") {
            return Provider::Gcp;
        }
        Provider::Local
    }
}

/// What a name in the database stands for.
pub open spec fn provider_named(s: Seq<char>) -> Provider {
    if s == "local"@ {
        Provider::Local
    } else if s == "gcp"@ {
        Provider::Gcp
    } else {
        Provider::Local
    }
}

/// Where an order stands.
#[derive(Clone, Copy, Debug, PartialEq, Eq, Structural)]
pub enum OrderStatus {
    /// Waiting for its payment.
    PendingPayment,
    /// Paid; waiting for its node.
    Paid,
    /// Its node is being made.
    Provisioning,
    /// Its node runs.
    Active,
    /// Its time is over.
    Expired,
    /// It came to nothing.
    Failed,
}

impl OrderStatus {
    /// Its name in the database.
    pub open spec fn text(self) -> Seq<char> {
        match self {
            OrderStatus::PendingPayment => "pending_payment"@,
            OrderStatus::Paid => "paid"@,
            OrderStatus::Provisioning => "provisioning"@,
            OrderStatus::Active => "active"@,
            OrderStatus::Expired => "expired"@,
            OrderStatus::Failed => "failed"@,
        }
    }

    /// Its name in the database.
    pub fn as_str(&self) -> (name: &'static str)
        ensures
            name@ == self.text(),
    {
        match self {
            OrderStatus::PendingPayment => "pending_payment",
            OrderStatus::Paid => "paid",
            OrderStatus::Provisioning => "provisioning",
            OrderStatus::Active => "active",
            OrderStatus::Expired => "expired",
            OrderStatus::Failed => "failed",
        }
    }

    /// What a name in the database stands for; an unknown one stands for
    /// `Failed`.
    pub fn from_str(s: &str) -> (out: OrderStatus)
        ensures
            out == order_status_named(s@),
    {
        if same_text(s, "pending_payment") {
            return OrderStatus::PendingPayment;
        }
        if same_text(s, "paid") {
            return OrderStatus::Paid;
        }
        if same_text(s, "provisioning") {
            return OrderStatus::Provisioning;
        }
        if same_text(s, "active") {
            return OrderStatus::Active;
        }
        if same_text(s, "expired") {
            return OrderStatus::Expired;
        }
        if same_text(s, "failed") {
            return OrderStatus::Failed;
        }
        OrderStatus::Failed
    }

    /// The status as people read it.
    pub open spec fn label_text(self) -> Seq<char> {
        match self {
            OrderStatus::PendingPayment => "Pending Payment"@,
            OrderStatus::Paid => "Paid"@,
            OrderStatus::Provisioning => "Provisioning"@,
            OrderStatus::Active => "Active"@,
            OrderStatus::Expired => "Expired"@,
            OrderStatus::Failed => "Failed"@,
        }
    }

    /// The status as people read it.
    pub fn label(&self) -> (label: &'static str)
        ensures
            label@ == self.label_text(),
    {
        match self {
            OrderStatus::PendingPayment => "Pending Payment",
            OrderStatus::Paid => "Paid",
            OrderStatus::Provisioning => "Provisioning",
            OrderStatus::Active => "Active",
            OrderStatus::Expired => "Expired",
            OrderStatus::Failed => "Failed",
        }
    }
}

/// What a name in the database stands for.
pub open spec fn order_status_named(s: Seq<char>) -> OrderStatus {
    if s == "pending_payment"@ {
        OrderStatus::PendingPayment
    } else if s == "paid"@ {
        OrderStatus::Paid
    } else if s == "provisioning"@ {
        OrderStatus::Provisioning
    } else if s == "active"@ {
        OrderStatus::Active
    } else if s == "expired"@ {
        OrderStatus::Expired
    } else if s == "failed"@ {
        OrderStatus::Failed
    } else {
        OrderStatus::Failed
    }
}

/// Where a node stands.
#[derive(Clone, Copy, Debug, PartialEq, Eq, Structural)]
pub enum NodeStatus {
    /// Ready, and nobody's.
    Warm,
    /// Being made.
    Provisioning,
    /// Somebody's.
    Running,
    /// Stopped.
    Stopped,
    /// Gone.
    Deleted,
}

impl NodeStatus {
    /// Its name in the database.
    pub open spec fn text(self) -> Seq<char> {
        match self {
            NodeStatus::Warm => "warm"@,
            NodeStatus::Provisioning => "provisioning"@,
            NodeStatus::Running => "running"@,
            NodeStatus::Stopped => "stopped"@,
            NodeStatus::Deleted => "deleted"@,
        }
    }

    /// Its name in the database.
    pub fn as_str(&self) -> (name: &'static str)
        ensures
            name@ == self.text(),
    {
        match self {
            NodeStatus::Warm => "warm",
            NodeStatus::Provisioning => "provisioning",
            NodeStatus::Running => "running",
            NodeStatus::Stopped => "stopped",
            NodeStatus::Deleted => "deleted",
        }
    }

    /// What a name in the database stands for; an unknown one stands for
    /// `Deleted`.
    pub fn from_str(s: &str) -> (out: NodeStatus)
        ensures
            out == node_status_named(s@),
    {
        if same_text(s, "warm") {
            return NodeStatus::Warm;
        }
        if same_text(s, "provisioning") {
            return NodeStatus::Provisioning;
        }
        if same_text(s, "running") {
            return NodeStatus::Running;
        }
        if same_text(s, "stopped") {
            return NodeStatus::Stopped;
        }
        if same_text(s, "deleted") {
            return NodeStatus::Deleted;
        }
        NodeStatus::Deleted
    }
}

/// What a name in the database stands for.
pub open spec fn node_status_named(s: Seq<char>) -> NodeStatus {
    if s == "warm"@ {
        NodeStatus::Warm
    } else if s == "provisioning"@ {
        NodeStatus::Provisioning
    } else if s == "running"@ {
        NodeStatus::Running
    } else if s == "stopped"@ {
        NodeStatus::Stopped
    } else if s == "deleted"@ {
        NodeStatus::Deleted
    } else {
        NodeStatus::Deleted
    }
}

/// What is for sale.
#[derive(Clone, Debug)]
pub struct Plan {
    /// Its identifier.
    pub id: String,
    /// Its name.
    pub name: String,
    /// The machine behind it.
    pub machine_type: String,
    /// Its processors.
    pub vcpus: i64,
    /// Its memory.
    pub ram_gb: i64,
    /// Its disk.
    pub disk_gb: i64,
    /// How long it lasts.
    pub duration_hours: i64,
    /// What it costs.
    pub price_sats: i64,
    /// Who runs it.
    pub provider: Provider,
    /// Whether it is on offer.
    pub active: bool,
}

/// What a [`Plan`] holds.
#[verifier::ext_equal]
pub struct PlanView {
    pub id: Seq<char>,
    pub name: Seq<char>,
    pub machine_type: Seq<char>,
    pub vcpus: i64,
    pub ram_gb: i64,
    pub disk_gb: i64,
    pub duration_hours: i64,
    pub price_sats: i64,
    pub provider: Provider,
    pub active: bool,
}

impl View for Plan {
    type V = PlanView;

    open spec fn view(&self) -> PlanView {
        PlanView {
            id: self.id@,
            name: self.name@,
            machine_type: self.machine_type@,
            vcpus: self.vcpus,
            ram_gb: self.ram_gb,
            disk_gb: self.disk_gb,
            duration_hours: self.duration_hours,
            price_sats: self.price_sats,
            provider: self.provider,
            active: self.active,
        }
    }
}

/// An order.
#[derive(Clone, Debug)]
pub struct Order {
    /// Its identifier.
    pub id: String,
    /// Who it is for.
    pub github_handle: String,
    /// What was ordered.
    pub plan_id: String,
    /// Where it stands.
    pub status: OrderStatus,
    /// Its invoice.
    pub btcpay_invoice_id: Option<String>,
    /// What it costs.
    pub price_sats: i64,
    /// When it was made.
    pub created_at: String,
    /// When it was paid.
    pub paid_at: Option<String>,
    /// When its node was ready.
    pub provisioned_at: Option<String>,
    /// When its time is over.
    pub expires_at: Option<String>,
    /// Why it came to nothing.
    pub error_message: Option<String>,
}

/// What a [`Order`] holds.
#[verifier::ext_equal]
pub struct OrderView {
    pub id: Seq<char>,
    pub github_handle: Seq<char>,
    pub plan_id: Seq<char>,
    pub status: OrderStatus,
    pub btcpay_invoice_id: Option<Seq<char>>,
    pub price_sats: i64,
    pub created_at: Seq<char>,
    pub paid_at: Option<Seq<char>>,
    pub provisioned_at: Option<Seq<char>>,
    pub expires_at: Option<Seq<char>>,
    pub error_message: Option<Seq<char>>,
}

impl View for Order {
    type V = OrderView;

    open spec fn view(&self) -> OrderView {
        OrderView {
            id: self.id@,
            github_handle: self.github_handle@,
            plan_id: self.plan_id@,
            status: self.status,
            btcpay_invoice_id: option_view(self.btcpay_invoice_id),
            price_sats: self.price_sats,
            created_at: self.created_at@,
            paid_at: option_view(self.paid_at),
            provisioned_at: option_view(self.provisioned_at),
            expires_at: option_view(self.expires_at),
            error_message: option_view(self.error_message),
        }
    }
}

/// A node.
#[derive(Clone, Debug)]
pub struct Node {
    /// Its identifier.
    pub id: String,
    /// The order it serves.
    pub order_id: String,
    /// Whose it is.
    pub github_handle: String,
    /// Who runs it.
    pub provider: Provider,
    /// Its machine's name.
    pub vm_name: String,
    /// Where it answers.
    pub hostname: Option<String>,
    /// Where it stands.
    pub status: NodeStatus,
    /// When it was made.
    pub created_at: String,
    /// When its time is over.
    pub expires_at: String,
}

/// What a [`Node`] holds.
#[verifier::ext_equal]
pub struct NodeView {
    pub id: Seq<char>,
    pub order_id: Seq<char>,
    pub github_handle: Seq<char>,
    pub provider: Provider,
    pub vm_name: Seq<char>,
    pub hostname: Option<Seq<char>>,
    pub status: NodeStatus,
    pub created_at: Seq<char>,
    pub expires_at: Seq<char>,
}

impl View for Node {
    type V = NodeView;

    open spec fn view(&self) -> NodeView {
        NodeView {
            id: self.id@,
            order_id: self.order_id@,
            github_handle: self.github_handle@,
            provider: self.provider,
            vm_name: self.vm_name@,
            hostname: option_view(self.hostname),
            status: self.status,
            created_at: self.created_at@,
            expires_at: self.expires_at@,
        }
    }
}

impl Node {
    /// A copy.
    pub fn copy(&self) -> (out: Node)
        ensures
            out == *self,
    {
        Node {
            id: self.id.clone(),
            order_id: self.order_id.clone(),
            github_handle: self.github_handle.clone(),
            provider: self.provider,
            vm_name: self.vm_name.clone(),
            hostname: clone_option(&self.hostname),
            status: self.status,
            created_at: self.created_at.clone(),
            expires_at: self.expires_at.clone(),
        }
    }
}

/// The views of a list of nodes.
pub open spec fn node_views(nodes: Seq<Node>) -> Seq<NodeView> {
    Seq::new(nodes.len(), |i: int| nodes[i]@)
}

/// The name of a provider stands for it again.
pub proof fn law_provider_names_round_trip(x: Provider)
    ensures
        provider_named(x.text()) == x,
{
    reveal_strlit("local");
    reveal_strlit("gcp");
    match x {
        Provider::Local => {
            assert("local"@[0] != "gcp"@[0]);
        },
        Provider::Gcp => {
            assert("gcp"@[0] != "local"@[0]);
        },
    }
}

/// The name of an order's status stands for it again.
pub proof fn law_order_status_names_round_trip(x: OrderStatus)
    ensures
        order_status_named(x.text()) == x,
{
    reveal_strlit("pending_payment");
    reveal_strlit("paid");
    reveal_strlit("provisioning");
    reveal_strlit("active");
    reveal_strlit("expired");
    reveal_strlit("failed");
    match x {
        OrderStatus::PendingPayment => {
            assert("pending_payment"@.len() != "paid"@.len());
            assert("pending_payment"@.len() != "provisioning"@.len());
            assert("pending_payment"@[0] != "active"@[0]);
            assert("pending_payment"@[0] != "expired"@[0]);
            assert("pending_payment"@[0] != "failed"@[0]);
        },
        OrderStatus::Paid => {
            assert("paid"@.len() != "pending_payment"@.len());
            assert("paid"@.len() != "provisioning"@.len());
            assert("paid"@[0] != "active"@[0]);
            assert("paid"@[0] != "expired"@[0]);
            assert("paid"@[0] != "failed"@[0]);
        },
        OrderStatus::Provisioning => {
            assert("provisioning"@.len() != "pending_payment"@.len());
            assert("provisioning"@.len() != "paid"@.len());
            assert("provisioning"@[0] != "active"@[0]);
            assert("provisioning"@[0] != "expired"@[0]);
            assert("provisioning"@[0] != "failed"@[0]);
        },
        OrderStatus::Active => {
            assert("active"@[0] != "pending_payment"@[0]);
            assert("active"@[0] != "paid"@[0]);
            assert("active"@[0] != "provisioning"@[0]);
            assert("active"@[0] != "expired"@[0]);
            assert("active"@[0] != "failed"@[0]);
        },
        OrderStatus::Expired => {
            assert("expired"@[0] != "pending_payment"@[0]);
            assert("expired"@[0] != "paid"@[0]);
            assert("expired"@[0] != "provisioning"@[0]);
            assert("expired"@[0] != "active"@[0]);
            assert("expired"@[0] != "failed"@[0]);
        },
        OrderStatus::Failed => {
            assert("failed"@[0] != "pending_payment"@[0]);
            assert("failed"@[0] != "paid"@[0]);
            assert("failed"@[0] != "provisioning"@[0]);
            assert("failed"@[0] != "active"@[0]);
            assert("failed"@[0] != "expired"@[0]);
        },
    }
}

/// The name of a node's status stands for it again.
pub proof fn law_node_status_names_round_trip(x: NodeStatus)
    ensures
        node_status_named(x.text()) == x,
{
    reveal_strlit("warm");
    reveal_strlit("provisioning");
    reveal_strlit("running");
    reveal_strlit("stopped");
    reveal_strlit("deleted");
    match x {
        NodeStatus::Warm => {
            assert("warm"@[0] != "provisioning"@[0]);
            assert("warm"@[0] != "running"@[0]);
            assert("warm"@[0] != "stopped"@[0]);
            assert("warm"@[0] != "deleted"@[0]);
        },
        NodeStatus::Provisioning => {
            assert("provisioning"@[0] != "warm"@[0]);
            assert("provisioning"@[0] != "running"@[0]);
            assert("provisioning"@[0] != "stopped"@[0]);
            assert("provisioning"@[0] != "deleted"@[0]);
        },
        NodeStatus::Running => {
            assert("running"@[0] != "warm"@[0]);
            assert("running"@[0] != "provisioning"@[0]);
            assert("running"@[0] != "stopped"@[0]);
            assert("running"@[0] != "deleted"@[0]);
        },
        NodeStatus::Stopped => {
            assert("stopped"@[0] != "warm"@[0]);
            assert("stopped"@[0] != "provisioning"@[0]);
            assert("stopped"@[0] != "running"@[0]);
            assert("stopped"@[0] != "deleted"@[0]);
        },
        NodeStatus::Deleted => {
            assert("deleted"@[0] != "warm"@[0]);
            assert("deleted"@[0] != "provisioning"@[0]);
            assert("deleted"@[0] != "running"@[0]);
            assert("deleted"@[0] != "stopped"@[0]);
        },
    }
}

} // verus!
