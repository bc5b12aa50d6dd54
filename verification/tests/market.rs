//! The node marketplace.

use hmac::{Hmac, Mac};
use satsforcompute::btcpay::{constant_time_eq, settles, BtcPayClient, WebhookPayload};
use satsforcompute::config::MarketConfig;
use satsforcompute::db::seed_plans;
use satsforcompute::gcp::{
    create_instance, delete_instance, generate_startup_script, operation_result,
};
use satsforcompute::ids::short_id;
use satsforcompute::local::{
    call_fault, check_capacity, create_vm, destroy_vm, has_capacity, plan_to_vm_size, reassign_vm,
};
use satsforcompute::models::{Node, NodeStatus, Order, OrderStatus, Plan, Provider};
use satsforcompute::pool::{
    action_failed, clean_reply, count_running, execute_action, gather_state, pick_warm,
    plan_action, record_warm, user_prompt, warm_created, warm_destroyed, PoolAction, PoolTask,
    RecentOrder, SYSTEM_PROMPT,
};
use satsforcompute::provision::{
    needs_new_machine, plan_reply, plan_reply_at, provision_order, provision_start,
    provision_step, Provision, ProvisionReply,
};
use satsforcompute::routes::{
    admin_cookie, btcpay_webhook, check_admin, create_order, health, invoice_made, order_status,
    place_order, valid_handle, webhook_admitted, webhook_outcome, webhook_status, Answer,
    OrderForm,
};
use satsforcompute::templates;
use satsforcompute::time::Timestamp;
use satsforcompute::writes::DbWrite;
use sha2::Sha256;

fn market() -> MarketConfig {
    MarketConfig {
        btcpay_url: "https://pay.example//".into(),
        btcpay_api_key: "key".into(),
        btcpay_store_id: "store".into(),
        btcpay_webhook_secret: "testsecret".into(),
        dd_register_url: "wss://register".into(),
        dd_binary_url: "https://bin/dd-agent".into(),
        dd_cf_api_token: Some("cft".into()),
        dd_cf_account_id: None,
        dd_cf_zone_id: Some("zone".into()),
        dd_cf_domain: "dd.example".into(),
        dd_github_client_id: Some("cid".into()),
        dd_github_client_secret: None,
        gcp_project_id: Some("proj".into()),
        gcp_zone: "us-central1-a".into(),
        baremetal_host: Some("metal".into()),
        baremetal_user: "ops".into(),
        pool_interval_secs: 300,
        pool_max: 4,
        openrouter_model: "model-x".into(),
        openrouter_api_key: "orkey".into(),
        admin_password: Some("hunter2".into()),
    }
}

fn plan(provider: Provider) -> Plan {
    Plan {
        id: "p1".into(),
        name: "Small".into(),
        machine_type: if provider == Provider::Gcp {
            "c3-standard-8".into()
        } else {
            "kvm-medium".into()
        },
        vcpus: 2,
        ram_gb: 4,
        disk_gb: 40,
        duration_hours: 24,
        price_sats: 12_000,
        provider,
        active: true,
    }
}

fn order() -> Order {
    Order {
        id: "0123456789abcdef".into(),
        github_handle: "Alice-1".into(),
        plan_id: "p1".into(),
        status: OrderStatus::Paid,
        btcpay_invoice_id: Some("inv".into()),
        price_sats: 12_000,
        created_at: "2026-04-25T12:00:00+00:00".into(),
        paid_at: None,
        provisioned_at: None,
        expires_at: None,
        error_message: None,
    }
}

fn node(id: &str, provider: Provider, status: NodeStatus) -> Node {
    Node {
        id: id.into(),
        order_id: "".into(),
        github_handle: "unclaimed".into(),
        provider,
        vm_name: "warm-1".into(),
        hostname: None,
        status,
        created_at: "c".into(),
        expires_at: "e".into(),
    }
}

fn noon() -> Timestamp {
    Timestamp::new(1_777_118_400, 0).unwrap()
}

fn client() -> BtcPayClient {
    BtcPayClient {
        base_url: String::new(),
        api_key: String::new(),
        store_id: String::new(),
        webhook_secret: "testsecret".into(),
    }
}

/// A write as text.
fn write_text(w: &DbWrite) -> String {
    match w {
        DbWrite::InsertOrder(o) => format!("order {}", o.id),
        DbWrite::OrderStatus { order_id, status } => format!("{order_id} {}", status.as_str()),
        DbWrite::OrderInvoice {
            order_id,
            invoice_id,
        } => format!("{order_id} invoice {invoice_id}"),
        DbWrite::OrderPaid { order_id } => format!("{order_id} paid"),
        DbWrite::OrderProvisioned {
            order_id,
            expires_at,
        } => format!("{order_id} until {expires_at}"),
        DbWrite::OrderFailed { order_id, error } => format!("{order_id} failed {error}"),
        DbWrite::InsertNode(n) => format!(
            "node {} {} {} {} {} {} {}",
            n.id,
            n.order_id,
            n.github_handle,
            n.provider.as_str(),
            n.vm_name,
            n.status.as_str(),
            n.expires_at
        ),
        DbWrite::NodeStatus { node_id, status } => format!("{node_id} {}", status.as_str()),
        DbWrite::ClaimWarmNode {
            node_id,
            order_id,
            github_handle,
            expires_at,
        } => format!("{node_id} for {order_id} of {github_handle} until {expires_at}"),
        DbWrite::Event {
            order_id,
            node_id,
            event_type,
            details,
        } => format!(
            "event {event_type} {} {} {}",
            order_id.as_deref().unwrap_or("-"),
            node_id.as_deref().unwrap_or("-"),
            details.as_deref().unwrap_or("-")
        ),
    }
}

fn writes_text(writes: &[DbWrite]) -> Vec<String> {
    writes.iter().map(write_text).collect()
}

#[test]
fn test_verify_webhook_signature() {
    let client = client();
    let body = b"test body";
    let mut mac = Hmac::<Sha256>::new_from_slice(b"testsecret").unwrap();
    mac.update(body);
    let sig = format!("sha256={}", hex::encode(mac.finalize().into_bytes()));
    assert!(client.verify_webhook(body, &sig));
    assert!(!client.verify_webhook(body, "sha256=0000"));
    assert!(client.verify_webhook(body, sig.strip_prefix("sha256=").unwrap()));
    assert!(!client.verify_webhook(b"another body", &sig));
    assert!(webhook_admitted(&client, body, Some(&sig)));
    assert!(!webhook_admitted(&client, body, None));
    assert!(!webhook_admitted(&client, body, Some("")));
    assert!(!client.verify_webhook(body, ""));
}

#[test]
fn a_known_signature_is_accepted() {
    // The second vector of RFC 4231.
    let mut c = client();
    c.webhook_secret = "Jefe".into();
    assert!(c.verify_webhook(
        b"what do ya want for nothing?",
        "5bdcc146bf60754e6a042426089575c75a003f089d2739839dec58b964ec3843"
    ));
}

#[test]
fn test_parse_webhook() {
    let body = br#"{"invoiceId":"abc123","type":"InvoiceSettled"}"#;
    let v: serde_json::Value = serde_json::from_slice(body).unwrap();
    let payload = WebhookPayload {
        invoice_id: v["invoiceId"].as_str().unwrap().into(),
        event_type: v["type"].as_str().unwrap().into(),
    };
    assert_eq!(payload.invoice_id, "abc123");
    assert_eq!(payload.event_type, "InvoiceSettled");
    assert!(settles(&payload));
}

#[test]
fn secrets_are_compared_byte_by_byte() {
    assert!(constant_time_eq(b"abc", b"abc"));
    assert!(!constant_time_eq(b"abc", b"abd"));
    assert!(!constant_time_eq(b"abc", b"ab"));
    assert!(constant_time_eq(b"", b""));
}

#[test]
fn btcpay_requests() {
    let c = BtcPayClient::new(&market());
    assert_eq!(c.base_url, "https://pay.example");
    assert_eq!(
        c.invoices_url(),
        "https://pay.example/api/v1/stores/store/invoices"
    );
    assert_eq!(c.authorization(), "token key");
    assert_eq!(c.checkout_url("inv"), "https://pay.example/i/inv");
    let req = c.create_invoice("0.00012000", "o1", "alice");
    assert_eq!(req.amount, "0.00012000");
    assert_eq!(req.currency, "BTC");
    assert_eq!(req.order_id, "o1");
    assert_eq!(req.github_handle, "alice");
    assert_eq!(req.expiration_minutes, 60);
}

#[test]
fn names_round_trip() {
    for p in [Provider::Local, Provider::Gcp] {
        assert_eq!(Provider::from_str(p.as_str()), p);
    }
    for s in [
        OrderStatus::PendingPayment,
        OrderStatus::Paid,
        OrderStatus::Provisioning,
        OrderStatus::Active,
        OrderStatus::Expired,
        OrderStatus::Failed,
    ] {
        assert_eq!(OrderStatus::from_str(s.as_str()), s);
    }
    for s in [
        NodeStatus::Warm,
        NodeStatus::Provisioning,
        NodeStatus::Running,
        NodeStatus::Stopped,
        NodeStatus::Deleted,
    ] {
        assert_eq!(NodeStatus::from_str(s.as_str()), s);
    }
    assert_eq!(Provider::from_str("aws"), Provider::Local);
    assert_eq!(OrderStatus::from_str("?"), OrderStatus::Failed);
    assert_eq!(NodeStatus::from_str("?"), NodeStatus::Deleted);
    assert_eq!(OrderStatus::PendingPayment.label(), "Pending Payment");
    assert_eq!(OrderStatus::Expired.label(), "Expired");
}

#[test]
fn an_empty_database_gets_the_price_list() {
    assert!(seed_plans(1).is_empty());
    let plans = seed_plans(0);
    assert_eq!(plans.len(), 9);
    assert_eq!(plans[0].id, "local-tiny-24h");
    assert_eq!(plans[0].price_sats, 7_200);
    assert_eq!(plans[8].id, "gcp-tiny-720h");
    assert_eq!(plans[8].price_sats, 1_440_000);
    assert_eq!(plans[8].duration_hours, 720);
    assert_eq!(plans[8].provider, Provider::Gcp);
    let ids: std::collections::HashSet<_> = plans.iter().map(|p| p.id.clone()).collect();
    assert_eq!(ids.len(), 9);
}

#[test]
fn sizes_of_local_machines() {
    assert_eq!(plan_to_vm_size("kvm-tiny"), "tiny");
    assert_eq!(plan_to_vm_size("kvm-small"), "small");
    assert_eq!(plan_to_vm_size("kvm-medium"), "medium");
    assert_eq!(plan_to_vm_size("kvm-large"), "large");
    assert_eq!(plan_to_vm_size("other"), "small");
}

#[test]
fn calls_on_the_local_host() {
    let cfg = market();
    let args = create_vm(&cfg, "vm1", "small", "alice").unwrap();
    assert_eq!(
        args[..5],
        [
            "-o",
            "StrictHostKeyChecking=no",
            "-o",
            "ConnectTimeout=10",
            "ops@metal"
        ]
    );
    assert_eq!(
        args[5],
        "dd-vm.sh create --name vm1 --size small --env DD_OWNER=alice --env \
         DD_REGISTER_URL=wss://register"
    );
    assert_eq!(
        destroy_vm(&cfg, "vm1").unwrap()[5],
        "dd-vm.sh destroy --name vm1"
    );
    let cmd = &reassign_vm(&cfg, "vm1", "alice").unwrap()[5];
    assert!(cmd.starts_with("VM_IP=$(virsh domifaddr dd-vm-vm1 2>/dev/null | grep -oP '(\\d+\\.)+\\d+' | head -1) && \\\n        ssh "));
    assert!(cmd.ends_with("DD_OWNER=alice DD_REGISTER_URL=wss://register nohup /usr/local/bin/dd-agent > /var/log/dd-agent.log 2>&1 &'"));
    assert_eq!(
        check_capacity(&cfg).unwrap()[5],
        "virsh list --all | grep -c 'dd-vm-' || echo 0"
    );
    let mut bare = market();
    bare.baremetal_host = None;
    assert_eq!(
        create_vm(&bare, "v", "s", "h").unwrap_err(),
        "BAREMETAL_HOST not configured"
    );
    assert!(check_capacity(&bare).is_none());
    assert!(has_capacity("19\n"));
    assert!(!has_capacity(" 20 "));
    assert!(has_capacity("-3") && has_capacity("many") && has_capacity(""));
    assert!(has_capacity("99999999999999999999"));
    assert_eq!(
        call_fault("dd-vm.sh create", "no disk"),
        "dd-vm.sh create failed: no disk"
    );
}

#[test]
fn machines_in_the_cloud() {
    let cfg = market();
    let script = generate_startup_script(&cfg, "alice", "vm1");
    assert!(script.starts_with("#!/bin/bash\nset -euo pipefail\n"));
    assert!(script.contains("-o /usr/local/bin/dd-agent \"https://bin/dd-agent\" -H"));
    assert!(script.contains("DD_OWNER=\"alice\" \\\n"));
    assert!(script.contains("DD_CF_ACCOUNT_ID=\"\" \\\n"));
    assert!(script
        .contains("DD_GITHUB_CALLBACK_URL=\"https://vm1.dd.example/auth/github/callback\" \\\n"));
    let req = create_instance(&cfg, "vm1", "c3-standard-4", 256, &script, "ALICE-Ä").unwrap();
    assert_eq!(
        req.url,
        "https://compute.googleapis.com/compute/v1/projects/proj/zones/us-central1-a/instances"
    );
    assert_eq!(
        req.machine_type,
        "zones/us-central1-a/machineTypes/c3-standard-4"
    );
    assert_eq!(req.disk_size_gb, "256");
    assert_eq!(req.owner_label, "alice-ä");
    assert_eq!(req.fixed.confidential_type, "TDX");
    assert_eq!(req.fixed.on_host_maintenance, "TERMINATE");
    assert!(req.fixed.boot && req.fixed.auto_delete);
    assert_eq!(
        req.fixed.source_image,
        "projects/ubuntu-os-cloud/global/images/family/ubuntu-2404-lts-amd64"
    );
    assert_eq!(req.fixed.access_type, "ONE_TO_ONE_NAT");
    assert_eq!(req.fixed.access_name, "External NAT");
    assert_eq!(req.fixed.script_key, "startup-script");
    assert_eq!(req.fixed.managed_key, "devopsdefender");
    assert_eq!(req.fixed.managed_label, "managed");
    assert_eq!(req.fixed.source_key, "dd_source");
    assert_eq!(req.fixed.source_label, "marketplace");
    assert_eq!(req.fixed.owner_key, "dd_owner");
    assert_eq!(req.fixed.tag, "dd-agent");
    assert_eq!(req.startup_script, script);
    assert_eq!(
        delete_instance(&cfg, "vm1").unwrap(),
        "https://compute.googleapis.com/compute/v1/projects/proj/zones/us-central1-a/instances/vm1"
    );
    let mut bare = market();
    bare.gcp_project_id = None;
    assert_eq!(
        delete_instance(&bare, "v").unwrap_err(),
        "GCP_PROJECT_ID not configured"
    );
    assert!(create_instance(&bare, "v", "m", 1, "s", "h").is_err());
    assert!(operation_result(None).is_ok());
    assert_eq!(
        operation_result(Some(vec!["a".into(), "b".into(), "c".into()])).unwrap_err(),
        "gcp error: a, b, c"
    );
    assert_eq!(operation_result(Some(vec![])).unwrap_err(), "gcp error: ");
}

fn step(p: Provision, reply: ProvisionReply) -> (Provision, Vec<DbWrite>) {
    provision_step(&market(), &order(), p, reply, "node-id-1")
}

#[test]
fn a_warm_local_node_is_handed_over() {
    let (p, writes) = provision_start(&order());
    assert_eq!(writes_text(&writes), vec!["0123456789abcdef provisioning"]);
    let (p, writes) = step(p, ProvisionReply::Plan(Some(plan(Provider::Local)), noon()));
    assert!(writes.is_empty());
    let warm = vec![
        node("w1", Provider::Local, NodeStatus::Warm),
        node("w2", Provider::Local, NodeStatus::Warm),
    ];
    let (p, _) = step(p, ProvisionReply::Warm(warm));
    assert!(matches!(&p, Provision::WantReassign { warm, .. } if warm.id == "w1"));
    assert!(!needs_new_machine(&p, &ProvisionReply::Reassigned(Ok(()))));
    let (p, writes) = step(p, ProvisionReply::Reassigned(Ok(())));
    assert!(matches!(p, Provision::Done));
    assert_eq!(
        writes_text(&writes),
        vec![
            "w1 for 0123456789abcdef of Alice-1 until 2026-04-26T12:00:00+00:00",
            "0123456789abcdef until 2026-04-26T12:00:00+00:00",
            "event warm_claimed 0123456789abcdef w1 vm=warm-1",
        ]
    );
}

#[test]
fn a_local_order_falls_back_to_the_cloud() {
    let (p, _) = provision_start(&order());
    let (p, _) = step(p, ProvisionReply::Plan(Some(plan(Provider::Local)), noon()));
    assert!(needs_new_machine(&p, &ProvisionReply::Warm(vec![])));
    let warm = vec![node("w1", Provider::Local, NodeStatus::Warm)];
    assert!(!needs_new_machine(&p, &ProvisionReply::Warm(warm.clone())));
    let (p, _) = step(p, ProvisionReply::Warm(warm));
    let refused = ProvisionReply::Reassigned(Err("ssh".into()));
    assert!(needs_new_machine(&p, &refused));
    let (p, _) = step(p, refused);
    assert!(matches!(p, Provision::WantCapacity(_)));
    let (q, _) = step(p.clone(), ProvisionReply::Capacity(Ok(true)));
    assert!(
        matches!(&q, Provision::WantLocal { vm_name, size, .. } if vm_name == "dd-mkt-01234567" && *size == "medium")
    );
    let (q, writes) = step(q, ProvisionReply::Created(Ok(())));
    assert!(matches!(q, Provision::Done));
    assert_eq!(
        writes_text(&writes),
        vec![
            "node node-id-1 0123456789abcdef Alice-1 local dd-mkt-01234567 running 2026-04-26T12:00:00+00:00",
            "0123456789abcdef until 2026-04-26T12:00:00+00:00",
            "event provisioned 0123456789abcdef node-id-1 provider=local, vm=dd-mkt-01234567",
        ]
    );
    for room in [Ok(false), Err("ssh".to_string())] {
        let (q, _) = step(p.clone(), ProvisionReply::Capacity(room));
        assert!(
            matches!(&q, Provision::WantGcp { machine_type, disk_gb: 256, .. } if machine_type == "c3-standard-4")
        );
        let (_, writes) = step(q, ProvisionReply::Created(Err("quota".into())));
        assert_eq!(
            writes_text(&writes),
            vec![
                "0123456789abcdef failed quota",
                "event provision_failed 0123456789abcdef - quota",
            ]
        );
    }
}

#[test]
fn a_cloud_order_never_takes_a_warm_node() {
    let (p, _) = provision_start(&order());
    let (p, _) = step(p, ProvisionReply::Plan(Some(plan(Provider::Gcp)), noon()));
    let warm = vec![node("w1", Provider::Gcp, NodeStatus::Warm)];
    assert!(needs_new_machine(&p, &ProvisionReply::Warm(warm.clone())));
    let (p, _) = step(p, ProvisionReply::Warm(warm));
    match &p {
        Provision::WantGcp {
            vm_name,
            machine_type,
            disk_gb,
            script,
            ..
        } => {
            assert_eq!(vm_name, "dd-mkt-01234567");
            assert_eq!(machine_type, "c3-standard-8");
            assert_eq!(*disk_gb, 40);
            assert_eq!(
                *script,
                generate_startup_script(&market(), "Alice-1", "dd-mkt-01234567")
            );
        }
        other => panic!("expected WantGcp, got {other:?}"),
    }
    let (_, writes) = provision_order(&market(), &order(), p, ProvisionReply::Created(Ok(())));
    match &writes[0] {
        DbWrite::InsertNode(n) => {
            assert_eq!(n.id.len(), 36);
            assert_eq!(n.provider, Provider::Gcp);
            assert_eq!(n.created_at, "2026-04-25T12:00:00+00:00");
        }
        other => panic!("expected InsertNode, got {other:?}"),
    }
}

#[test]
fn an_order_without_plan_fails() {
    let (p, _) = provision_start(&order());
    let (p, writes) = step(p, ProvisionReply::Plan(None, noon()));
    assert!(matches!(p, Provision::Done));
    assert_eq!(
        writes_text(&writes),
        vec!["0123456789abcdef failed plan not found"]
    );
    assert!(matches!(
        plan_reply(Some(plan(Provider::Local))),
        Some(ProvisionReply::Plan(Some(_), _))
    ));
    let mut endless = plan(Provider::Local);
    endless.duration_hours = i64::MAX;
    assert!(plan_reply(Some(endless)).is_none());
    assert!(plan_reply(None).is_some());
    // The last second that a plan of a day can start in, and the next one.
    let day = plan(Provider::Local);
    assert_eq!(day.duration_hours, 24);
    let last = Timestamp::new(8_210_266_876_799 - 86_400, 0).unwrap();
    match plan_reply_at(Some(day.clone()), last) {
        Some(ProvisionReply::Plan(Some(p), now)) => {
            assert_eq!(p.id, day.id);
            assert_eq!(now, last);
        }
        other => panic!("expected the plan, got {other:?}"),
    }
    let late = Timestamp::new(8_210_266_876_800 - 86_400, 0).unwrap();
    assert!(plan_reply_at(Some(day), late).is_none());
    assert!(matches!(
        plan_reply_at(None, late),
        Some(ProvisionReply::Plan(None, now)) if now == late
    ));
}

fn pool_action(action: &str, provider: &str, size: &str, node_id: Option<&str>) -> PoolAction {
    PoolAction {
        action: action.into(),
        provider: provider.into(),
        size: size.into(),
        node_id: node_id.map(|s| s.to_string()),
    }
}

#[test]
fn pool_actions_come_to_tasks() {
    let cfg = market();
    let id = "abcdefgh-rest";
    match plan_action(&cfg, &pool_action("create_warm", "local", "large", None), id) {
        PoolTask::CreateLocal { vm_name, size } => {
            assert_eq!(vm_name, "warm-abcdefgh");
            assert_eq!(size, "large");
        }
        other => panic!("{other:?}"),
    }
    for (size, expected) in [("standard", "c3-standard-8"), ("tiny", "c3-standard-4")] {
        match plan_action(&cfg, &pool_action("create_warm", "gcp", size, None), id) {
            PoolTask::CreateGcp {
                vm_name,
                machine_type,
                disk_gb,
                script,
            } => {
                assert_eq!(machine_type, expected);
                assert_eq!(disk_gb, 256);
                assert_eq!(
                    script,
                    generate_startup_script(&cfg, "unclaimed", &vm_name)
                );
            }
            other => panic!("{other:?}"),
        }
    }
    assert!(matches!(
        plan_action(&cfg, &pool_action("destroy_warm", "gcp", "", Some("n")), id),
        PoolTask::FindWarm { provider, node_id } if provider == "gcp" && node_id == "n"
    ));
    assert!(matches!(
        plan_action(&cfg, &pool_action("destroy_warm", "gcp", "", None), id),
        PoolTask::Refused(e) if e == "destroy_warm requires node_id"
    ));
    for action in ["none", "reboot"] {
        assert!(matches!(
            plan_action(&cfg, &pool_action(action, "", "", None), id),
            PoolTask::Nothing
        ));
    }
    match execute_action(&cfg, &pool_action("create_warm", "local", "small", None)) {
        PoolTask::CreateLocal { vm_name, .. } => {
            assert_eq!(vm_name.len(), 13);
            assert!(vm_name[5..].chars().all(|c| c.is_ascii_hexdigit()));
        }
        other => panic!("{other:?}"),
    }
}

#[test]
fn warm_nodes_are_recorded_and_destroyed() {
    assert_eq!(
        writes_text(&warm_created(Provider::Gcp, "warm-1".into(), &noon(), "n1")),
        vec![
            "node n1  unclaimed gcp warm-1 warm 2099-01-01T00:00:00Z",
            "event warm_created - n1 gcp",
        ]
    );
    match &record_warm(Provider::Local, "warm-2".into())[0] {
        DbWrite::InsertNode(n) => {
            assert_eq!(n.id.len(), 36);
            assert_eq!(n.status, NodeStatus::Warm);
            assert!(n.created_at.ends_with("+00:00"));
        }
        other => panic!("{other:?}"),
    }
    let warm = vec![
        node("a", Provider::Local, NodeStatus::Warm),
        node("b", Provider::Local, NodeStatus::Warm),
    ];
    assert_eq!(pick_warm(&warm, "b").unwrap().id, "b");
    assert_eq!(pick_warm(&warm, "z").unwrap().id, "a");
    assert!(pick_warm(&vec![], "a").is_none());
    assert_eq!(
        writes_text(&warm_destroyed(&warm[1])),
        vec!["b deleted", "event warm_destroyed - b -"]
    );
    assert_eq!(
        write_text(&action_failed("boom")),
        "event pool_action_failed - - boom"
    );
}

#[test]
fn the_pool_state_counts_what_runs() {
    let nodes = vec![
        node("a", Provider::Local, NodeStatus::Running),
        node("b", Provider::Local, NodeStatus::Warm),
        node("c", Provider::Gcp, NodeStatus::Running),
    ];
    assert_eq!(count_running(&nodes), 2);
    let state = gather_state(1, 0, &nodes, vec![], Err("ssh".into()), 4);
    assert_eq!(state.active_nodes, 2);
    assert_eq!(state.warm_nodes_local, 1);
    assert!(!state.local_capacity_available);
    assert_eq!(state.pool_max, 4);
    assert!(state.timestamp.ends_with("+00:00"));
    assert!(gather_state(1, 0, &nodes, vec![], Ok(true), 4).local_capacity_available);
    assert_eq!(user_prompt("{}"), "Current pool state:\n{}");
    assert!(SYSTEM_PROMPT.starts_with("You are a capacity planner for a TDX node marketplace."));
    assert!(SYSTEM_PROMPT.ends_with("no markdown fences."));
}

#[test]
fn replies_of_the_model_are_cleaned() {
    assert_eq!(clean_reply("  {\"a\":1}\n"), "{\"a\":1}");
    assert_eq!(clean_reply("```\n{}\n```"), "{}");
    // Where the fence names its language, only the closing fence comes off.
    assert_eq!(clean_reply("```json\n{}\n```"), "```json\n{}");
    assert_eq!(clean_reply("```\n{}"), "```\n{}");
}

#[test]
fn orders_need_a_handle_and_a_plan() {
    let p = plan(Provider::Local);
    let form = |handle: &str| OrderForm {
        github_handle: handle.into(),
        plan_id: "p1".into(),
    };
    let o = create_order(&form("  alice-1 "), Some(&p), "o1", &noon()).unwrap();
    assert_eq!(o.github_handle, "alice-1");
    assert_eq!(o.id, "o1");
    assert_eq!(o.plan_id, "p1");
    assert_eq!(o.status, OrderStatus::PendingPayment);
    assert_eq!(o.price_sats, 12_000);
    assert_eq!(o.created_at, "2026-04-25T12:00:00+00:00");
    assert!(o.btcpay_invoice_id.is_none());
    for bad in ["", "   ", "a b", "a_b", "a.b"] {
        match create_order(&form(bad), Some(&p), "o1", &noon()) {
            Err(Answer::Text(400, m)) => assert_eq!(m, "invalid github handle"),
            _ => panic!("expected a refusal of {bad:?}"),
        }
    }
    match create_order(&form("alice"), None, "o1", &noon()) {
        Err(Answer::Text(400, m)) => assert_eq!(m, "invalid plan"),
        _ => panic!("expected a refusal"),
    }
    assert!(valid_handle("é9-"));
    assert!(!valid_handle("é!"));
    let placed = place_order(&form("alice"), Some(&p)).unwrap();
    assert_eq!(placed.id.len(), 36);
    assert_eq!(short_id(&placed.id), &placed.id[..8]);
    assert_eq!(placed.id.as_bytes()[8], b'-');
}

#[test]
fn invoices_send_the_customer_on() {
    let (writes, answer) = invoice_made("o1", Ok("inv".into()));
    assert_eq!(
        writes_text(&writes),
        vec!["o1 invoice inv", "event invoice_created o1 - inv"]
    );
    assert!(matches!(answer, Answer::Redirect(to) if to == "/order/o1"));
    let (writes, answer) = invoice_made("o1", Err("down".into()));
    assert_eq!(writes_text(&writes), vec!["o1 failed down"]);
    assert!(matches!(answer, Answer::Text(500, m) if m == "payment error: down"));
}

#[test]
fn settled_invoices_pay_waiting_orders_once() {
    let mut o = order();
    o.status = OrderStatus::PendingPayment;
    for event in ["InvoiceSettled", "InvoicePaymentSettled"] {
        let payload = WebhookPayload {
            invoice_id: "inv".into(),
            event_type: event.into(),
        };
        assert_eq!(
            writes_text(&btcpay_webhook(&payload, Some(&o))),
            vec![
                "0123456789abcdef paid",
                "event payment_settled 0123456789abcdef - inv",
            ]
        );
        assert!(btcpay_webhook(&payload, None).is_empty());
        assert!(btcpay_webhook(&payload, Some(&order())).is_empty());
    }
    let other = WebhookPayload {
        invoice_id: "inv".into(),
        event_type: "InvoiceCreated".into(),
    };
    assert!(btcpay_webhook(&other, Some(&o)).is_empty());
    assert_eq!(webhook_status(false, true), 401);
    assert_eq!(webhook_status(true, false), 400);
    assert_eq!(webhook_status(true, true), 200);
    // A settlement counts only where it is signed and readable.
    let settled = WebhookPayload {
        invoice_id: "inv".into(),
        event_type: "InvoiceSettled".into(),
    };
    let (status, writes) = webhook_outcome(false, Some(&settled), Some(&o));
    assert_eq!((status, writes.len()), (401, 0));
    let (status, writes) = webhook_outcome(true, None, Some(&o));
    assert_eq!((status, writes.len()), (400, 0));
    let (status, writes) = webhook_outcome(true, Some(&settled), Some(&o));
    assert_eq!((status, writes.len()), (200, 2));
    let (status, writes) = webhook_outcome(true, Some(&settled), None);
    assert_eq!((status, writes.len()), (200, 0));
}

#[test]
fn administrators_are_known_by_token_or_cookie() {
    let pw = Some("hunter2".to_string());
    assert!(check_admin(&None, None, None));
    assert!(!check_admin(&pw, None, None));
    assert!(check_admin(&pw, Some("Bearer hunter2"), None));
    // A bearer token decides, whatever the cookie says.
    assert!(!check_admin(
        &pw,
        Some("Bearer nope"),
        Some("dd_market_admin=hunter2")
    ));
    assert!(check_admin(
        &pw,
        Some("Basic x"),
        Some("a=b; dd_market_admin=hunter2 ;c")
    ));
    assert!(!check_admin(
        &pw,
        None,
        Some("dd_market_admin=no; dd_market_admin=hunter2")
    ));
    assert_eq!(admin_cookie("x; dd_market_admin=v"), Some("v".to_string()));
    assert_eq!(admin_cookie("x"), None);
    assert_eq!(health(), ("ok", "dd-market"));
}

#[test]
fn pages_are_written_to_the_letter() {
    assert_eq!(
        templates::status_badge("running"),
        "<span class=\"badge badge-green\">running</span>"
    );
    assert_eq!(
        templates::status_badge("paid"),
        "<span class=\"badge badge-blue\">paid</span>"
    );
    assert!(templates::status_badge("pending_payment").contains("badge-yellow"));
    assert!(templates::status_badge("expired").contains("badge-gray"));
    assert!(templates::status_badge("deleted").contains("badge-red"));
    assert!(templates::status_badge("?").contains("badge-gray"));
    assert_eq!(templates::format_sats(999, ""), "999 sats");
    assert_eq!(templates::format_sats(1_999, ""), "1k sats");
    assert_eq!(templates::format_sats(1_440_000, "1.44"), "1.44M sats");
    assert_eq!(templates::format_sats(-5, ""), "-5 sats");

    let page = templates::landing(
        &[plan(Provider::Local), plan(Provider::Gcp)],
        &["".into(), "".into()],
    );
    assert!(page.starts_with("<!DOCTYPE html>\n<html><head>"));
    assert!(page.contains("<title>DD Market — TDX Node Marketplace</title>\n<style>"));
    assert!(page.contains(
        "<div class=\"card plan\" onclick=\"selectPlan('p1')\">\n                <div \
         class=\"provider\">local</div>\n                <h3>Small</h3>\n                <div \
         class=\"specs\">2 vCPU &middot; 4GB RAM &middot; 40GB disk &middot; 24h</div>\n                \
         <div class=\"price\">12k sats</div>\n            </div></div>\n\n    <h2>Cloud Nodes"
    ));
    assert!(page.contains("function selectPlan(id) {\n  document"));
    assert!(page.ends_with("</body></html>"));
}

#[test]
fn the_order_page_shows_payment_and_node() {
    let o = order();
    let mut n = node("nodeid12345", Provider::Local, NodeStatus::Running);
    n.hostname = Some("h.example".into());
    let c = BtcPayClient::new(&market());
    let page = order_status(Some(&o), Some(&n), &c, "").unwrap();
    assert!(page.contains("<title>Order 0123456789abcdef — DD Market</title>"));
    assert!(page.contains("<h2>Order 01234567</h2>"));
    assert!(page.contains("<strong>12k sats</strong>"));
    assert!(page.contains("<a href=\"https://pay.example/i/inv\" target=\"_blank\">"));
    assert!(page.contains("<p>URL: <a href=\"https://h.example\" target=\"_blank\">https://h.example</a></p>"));
    assert!(page.contains("<p>Expires: e</p>"));
    let page = templates::order_status(&o, None, None, "");
    assert!(!page.contains("<h2>Payment</h2>") && !page.contains("<h2>Node</h2>"));
    match order_status(None, None, &c, "") {
        Err(Answer::Text(404, m)) => assert_eq!(m, "order not found"),
        _ => panic!("expected a refusal"),
    }
}

#[test]
fn the_admin_pages_list_rows() {
    let page = templates::admin_orders(&[order()], &["".into()]);
    assert!(page.contains("<td><a href=\"/order/0123456789abcdef\">01234567</a></td>"));
    assert!(page.contains("<td>12k sats</td>"));
    let page = templates::admin_nodes(&[node("nodeid12345", Provider::Gcp, NodeStatus::Stopped)]);
    assert!(page.contains("<td>nodeid12</td>\n                <td>unclaimed</td>"));
    assert!(page.contains("<td>-</td>"));
    let recent = RecentOrder {
        status: "paid".into(),
        plan_id: "p1".into(),
        paid_at: None,
        created_at: "c".into(),
        provider: "local".into(),
        plan_name: "Small".into(),
    };
    let page = templates::admin_pool(
        3,
        -1,
        &[node("locallocal", Provider::Local, NodeStatus::Warm)],
        &[node("cloudcloud", Provider::Gcp, NodeStatus::Warm)],
        &[recent],
        &market(),
    );
    assert!(page.contains("<p>Model: <strong>model-x</strong> &middot; Max: <strong>4</strong> &middot; Interval: <strong>300s</strong></p>"));
    assert!(page.contains("<p>Warm local: <strong>3</strong> &middot; Warm GCP: <strong>-1</strong></p>"));
    let local = page.find("localloc").unwrap();
    let cloud = page.find("cloudclo").unwrap();
    assert!(local < cloud);
    assert!(page.contains("<td>Small</td>\n                <td>local</td>\n                <td><span class=\"badge badge-blue\">paid</span></td>\n                <td>-</td>"));
}
