//! Nodes in Google's cloud.

use crate::config::{MarketConfig, MarketView};
use crate::text::{
    lowercase, lowercase_text, option_text, signed_decimal, signed_decimal_text,
    text_or_empty, views,
};
use vstd::prelude::*;

verus! {

// ── the startup script ────────────────────────────────────────────
// The pieces of the script, each up to the next value that is filled in.

pub const SCRIPT_HEAD: &'static str = r#"#!/bin/bash
set -euo pipefail
export DEBIAN_FRONTEND=noninteractive

apt-get update -q
apt-get install -y podman
systemctl enable --now podman.socket

curl -fsSL -o /usr/local/bin/cloudflared \
  https://github.com/cloudflare/cloudflared/releases/latest/download/cloudflared-linux-amd64
chmod +x /usr/local/bin/cloudflared

curl -fsSL -o /usr/local/bin/dd-agent ""#;

pub const SCRIPT_OWNER: &'static str = r#"" -H "Accept: application/octet-stream"
chmod +x /usr/local/bin/dd-agent

DD_OWNER=""#;

pub const SCRIPT_REGISTER: &'static str = r#"" \
DD_AGENT_MODE=agent \
DD_ENV=production \
DD_REGISTER_URL=""#;

pub const SCRIPT_CF_TOKEN: &'static str = r#"" \
DD_CF_API_TOKEN=""#;

pub const SCRIPT_CF_ACCOUNT: &'static str = r#"" \
DD_CF_ACCOUNT_ID=""#;

pub const SCRIPT_CF_ZONE: &'static str = r#"" \
DD_CF_ZONE_ID=""#;

pub const SCRIPT_CF_DOMAIN: &'static str = r#"" \
DD_CF_DOMAIN=""#;

pub const SCRIPT_GITHUB_ID: &'static str = r#"" \
DD_GITHUB_CLIENT_ID=""#;

pub const SCRIPT_GITHUB_SECRET: &'static str = r#"" \
DD_GITHUB_CLIENT_SECRET=""#;

pub const SCRIPT_CALLBACK: &'static str = r#"" \
DD_GITHUB_CALLBACK_URL="https://"#;

pub const SCRIPT_TAIL: &'static str = r#"/auth/github/callback" \
DD_BOOT_CMD=bash \
DD_BOOT_APP=shell \
nohup /usr/local/bin/dd-agent > /var/log/dd-agent.log 2>&1 &
"#;

/// The script that a new machine runs: it installs an agent for
/// `github_handle`.
pub open spec fn startup_script(
    config: MarketView,
    github_handle: Seq<char>,
    vm_name: Seq<char>,
) -> Seq<char> {
    SCRIPT_HEAD@
        + config.dd_binary_url
        + SCRIPT_OWNER@
        + github_handle
        + SCRIPT_REGISTER@
        + config.dd_register_url
        + SCRIPT_CF_TOKEN@
        + option_text(config.dd_cf_api_token)
        + SCRIPT_CF_ACCOUNT@
        + option_text(config.dd_cf_account_id)
        + SCRIPT_CF_ZONE@
        + option_text(config.dd_cf_zone_id)
        + SCRIPT_CF_DOMAIN@
        + config.dd_cf_domain
        + SCRIPT_GITHUB_ID@
        + option_text(config.dd_github_client_id)
        + SCRIPT_GITHUB_SECRET@
        + option_text(config.dd_github_client_secret)
        + SCRIPT_CALLBACK@
        + vm_name
        + "."@
        + config.dd_cf_domain
        + SCRIPT_TAIL@
}

/// The script that a new machine runs: it installs an agent for
/// `github_handle`.
pub fn generate_startup_script(config: &MarketConfig, github_handle: &str, vm_name: &str) -> (out:
    String)
    ensures
        out@ == startup_script(config@, github_handle@, vm_name@),
{
    let mut out: String = SCRIPT_HEAD.to_owned();
    out.append(config.dd_binary_url.as_str());
    out.append(SCRIPT_OWNER);
    out.append(github_handle);
    out.append(SCRIPT_REGISTER);
    out.append(config.dd_register_url.as_str());
    out.append(SCRIPT_CF_TOKEN);
    out.append(text_or_empty(&config.dd_cf_api_token).as_str());
    out.append(SCRIPT_CF_ACCOUNT);
    out.append(text_or_empty(&config.dd_cf_account_id).as_str());
    out.append(SCRIPT_CF_ZONE);
    out.append(text_or_empty(&config.dd_cf_zone_id).as_str());
    out.append(SCRIPT_CF_DOMAIN);
    out.append(config.dd_cf_domain.as_str());
    out.append(SCRIPT_GITHUB_ID);
    out.append(text_or_empty(&config.dd_github_client_id).as_str());
    out.append(SCRIPT_GITHUB_SECRET);
    out.append(text_or_empty(&config.dd_github_client_secret).as_str());
    out.append(SCRIPT_CALLBACK);
    out.append(vm_name);
    out.append(".");
    out.append(config.dd_cf_domain.as_str());
    out.append(SCRIPT_TAIL);
    out
}

// ── instances ─────────────────────────────────────────────────────

/// What is said where there is no project.
pub open spec fn no_project() -> Seq<char> {
    "GCP_PROJECT_ID not configured"@
}

/// What is the same for every machine.
#[derive(Clone, Debug)]
pub struct Fixed {
    /// The kind of confidential computing.
    pub confidential_type: &'static str,
    /// What happens to it when its host is maintained.
    pub on_host_maintenance: &'static str,
    /// Whether its disk is the one that it boots from.
    pub boot: bool,
    /// Whether its disk goes with it.
    pub auto_delete: bool,
    /// The image on its disk.
    pub source_image: &'static str,
    /// The kind of its access to the network.
    pub access_type: &'static str,
    /// The name of its access to the network.
    pub access_name: &'static str,
    /// Under which key its metadata hold the script.
    pub script_key: &'static str,
    /// The key of the label that tells that it is managed.
    pub managed_key: &'static str,
    /// That label.
    pub managed_label: &'static str,
    /// The key of the label that tells where it came from.
    pub source_key: &'static str,
    /// That label.
    pub source_label: &'static str,
    /// The key of the label that tells its owner.
    pub owner_key: &'static str,
    /// Its tag.
    pub tag: &'static str,
}

/// What a [`Fixed`] holds.
#[verifier::ext_equal]
pub struct FixedView {
    pub confidential_type: Seq<char>,
    pub on_host_maintenance: Seq<char>,
    pub boot: bool,
    pub auto_delete: bool,
    pub source_image: Seq<char>,
    pub access_type: Seq<char>,
    pub access_name: Seq<char>,
    pub script_key: Seq<char>,
    pub managed_key: Seq<char>,
    pub managed_label: Seq<char>,
    pub source_key: Seq<char>,
    pub source_label: Seq<char>,
    pub owner_key: Seq<char>,
    pub tag: Seq<char>,
}

impl View for Fixed {
    type V = FixedView;

    open spec fn view(&self) -> FixedView {
        FixedView {
            confidential_type: self.confidential_type@,
            on_host_maintenance: self.on_host_maintenance@,
            boot: self.boot,
            auto_delete: self.auto_delete,
            source_image: self.source_image@,
            access_type: self.access_type@,
            access_name: self.access_name@,
            script_key: self.script_key@,
            managed_key: self.managed_key@,
            managed_label: self.managed_label@,
            source_key: self.source_key@,
            source_label: self.source_label@,
            owner_key: self.owner_key@,
            tag: self.tag@,
        }
    }
}

/// Every machine is a TDX machine that boots Ubuntu from a disk of its own, is
/// stopped when its host is maintained, has an address outside, and bears the
/// marketplace's labels and the agents' tag.
pub open spec fn fixed_parts() -> FixedView {
    FixedView {
        confidential_type: "TDX"@,
        on_host_maintenance: "TERMINATE"@,
        boot: true,
        auto_delete: true,
        source_image: "projects/ubuntu-os-cloud/global/images/family/ubuntu-2404-lts-amd64"@,
        access_type: "ONE_TO_ONE_NAT"@,
        access_name: "External NAT"@,
        script_key: "startup-script"@,
        managed_key: "devopsdefender"@,
        managed_label: "managed"@,
        source_key: "dd_source"@,
        source_label: "marketplace"@,
        owner_key: "dd_owner"@,
        tag: "dd-agent"@,
    }
}

fn fixed() -> (f: Fixed)
    ensures
        f@ == fixed_parts(),
{
    Fixed {
        confidential_type: "TDX",
        on_host_maintenance: "TERMINATE",
        boot: true,
        auto_delete: true,
        source_image: "projects/ubuntu-os-cloud/global/images/family/ubuntu-2404-lts-amd64",
        access_type: "ONE_TO_ONE_NAT",
        access_name: "External NAT",
        script_key: "startup-script",
        managed_key: "devopsdefender",
        managed_label: "managed",
        source_key: "dd_source",
        source_label: "marketplace",
        owner_key: "dd_owner",
        tag: "dd-agent",
    }
}

/// A machine to be made.
#[derive(Clone, Debug)]
pub struct InstanceRequest {
    /// Where to ask for it.
    pub url: String,
    /// Its name.
    pub name: String,
    /// Its type, with the zone.
    pub machine_type: String,
    /// The size of its disk.
    pub disk_size_gb: String,
    /// The script that it runs.
    pub startup_script: String,
    /// The label that tells its owner.
    pub owner_label: String,
    /// What is the same for every machine.
    pub fixed: Fixed,
}

/// What an [`InstanceRequest`] holds.
#[verifier::ext_equal]
pub struct InstanceView {
    pub url: Seq<char>,
    pub name: Seq<char>,
    pub machine_type: Seq<char>,
    pub disk_size_gb: Seq<char>,
    pub startup_script: Seq<char>,
    pub owner_label: Seq<char>,
    pub fixed: FixedView,
}

impl View for InstanceRequest {
    type V = InstanceView;

    open spec fn view(&self) -> InstanceView {
        InstanceView {
            url: self.url@,
            name: self.name@,
            machine_type: self.machine_type@,
            disk_size_gb: self.disk_size_gb@,
            startup_script: self.startup_script@,
            owner_label: self.owner_label@,
            fixed: self.fixed@,
        }
    }
}

/// Where the instances of a zone are.
pub open spec fn instances_at(project: Seq<char>, zone: Seq<char>) -> Seq<char> {
    "https://compute.googleapis.com/compute/v1/projects/"@ + project + "/zones/"@ + zone
        + "/instances"@
}

/// The request for a machine.
pub open spec fn instance(
    config: MarketView,
    vm_name: Seq<char>,
    machine_type: Seq<char>,
    disk_gb: i64,
    script: Seq<char>,
    github_handle: Seq<char>,
) -> InstanceView {
    InstanceView {
        url: instances_at(option_text(config.gcp_project_id), config.gcp_zone),
        name: vm_name,
        machine_type: "zones/"@ + config.gcp_zone + "/machineTypes/"@ + machine_type,
        disk_size_gb: signed_decimal(disk_gb as int),
        startup_script: script,
        owner_label: lowercase(github_handle),
        fixed: fixed_parts(),
    }
}

fn instances_url(project: &str, zone: &str) -> (url: String)
    ensures
        url@ == instances_at(project@, zone@),
{
    let mut url: String = "https://compute.googleapis.com/compute/v1/projects/".to_owned();
    url.append(project);
    url.append("/zones/");
    url.append(zone);
    url.append("/instances");
    url
}

/// The request for a machine, or the fault that there is no project.
pub fn create_instance(
    config: &MarketConfig,
    vm_name: &str,
    machine_type: &str,
    disk_gb: i64,
    startup_script: &str,
    github_handle: &str,
) -> (r: Result<InstanceRequest, String>)
    ensures
        match r {
            Ok(req) => config@.gcp_project_id is Some && req@ == instance(
                config@,
                vm_name@,
                machine_type@,
                disk_gb,
                startup_script@,
                github_handle@,
            ),
            Err(e) => config@.gcp_project_id is None && e@ == no_project(),
        },
{
    match &config.gcp_project_id {
        None => Err("GCP_PROJECT_ID not configured".to_owned()),
        Some(project) => {
            let mut typ: String = "zones/".to_owned();
            typ.append(config.gcp_zone.as_str());
            typ.append("/machineTypes/");
            typ.append(machine_type);
            Ok(
                InstanceRequest {
                    url: instances_url(project.as_str(), config.gcp_zone.as_str()),
                    name: vm_name.to_owned(),
                    machine_type: typ,
                    disk_size_gb: signed_decimal_text(disk_gb),
                    startup_script: startup_script.to_owned(),
                    owner_label: lowercase_text(github_handle),
                    fixed: fixed(),
                },
            )
        },
    }
}

/// Texts put together with `, ` between them.
pub open spec fn joined(list: Seq<Seq<char>>) -> Seq<char>
    decreases list.len(),
{
    if list.len() == 0 {
        Seq::empty()
    } else if list.len() == 1 {
        list[0]
    } else {
        joined(list.drop_last()) + ", "@ + list.last()
    }
}

/// What an operation that was started comes to: an operation that carries
/// errors failed.
pub fn operation_result(errors: Option<Vec<String>>) -> (r: Result<(), String>)
    ensures
        match r {
            Ok(()) => errors is None,
            Err(e) => errors is Some && e@ == "gcp error: "@ + joined(views(errors->0@)),
        },
{
    let list: Vec<String> = match errors {
        None => return Ok(()),
        Some(list) => list,
    };
    let mut text: String = String::new();
    let mut i: usize = 0;
    assert(views(list@).take(0) =~= Seq::<Seq<char>>::empty());
    while i < list.len()
        invariant
            i <= list.len(),
            text@ == joined(views(list@).take(i as int)),
        decreases list.len() - i,
    {
        let ghost upto = views(list@).take(i + 1);
        proof {
            assert(upto.drop_last() =~= views(list@).take(i as int));
            assert(upto.last() == list@[i as int]@);
        }
        if i > 0 {
            text.append(", ");
        }
        text.append(list[i].as_str());
        proof {
            if i == 0 {
                assert(Seq::<char>::empty() + list@[0]@ =~= list@[0]@);
            }
        }
        i = i + 1;
    }
    assert(views(list@).take(list@.len() as int) =~= views(list@));
    let mut e: String = "gcp error: ".to_owned();
    e.append(text.as_str());
    Err(e)
}

/// Where a machine is deleted, or the fault that there is no project.
pub fn delete_instance(config: &MarketConfig, vm_name: &str) -> (r: Result<String, String>)
    ensures
        match r {
            Ok(url) => config@.gcp_project_id is Some && url@ == instances_at(
                config@.gcp_project_id->0,
                config@.gcp_zone,
            ) + "/"@ + vm_name@,
            Err(e) => config@.gcp_project_id is None && e@ == no_project(),
        },
{
    match &config.gcp_project_id {
        None => Err("GCP_PROJECT_ID not configured".to_owned()),
        Some(project) => {
            let mut url: String = instances_url(project.as_str(), config.gcp_zone.as_str());
            url.append("/");
            url.append(vm_name);
            Ok(url)
        },
    }
}

} // verus!
