//! Nodes on the operator's own host, which is reached over ssh.

use crate::config::{MarketConfig, MarketView};
use crate::text::{parse_number, parsed, same_text, trim, trimmed, views};
use vstd::prelude::*;

verus! {

/// The size that a machine type of a plan stands for.
pub open spec fn vm_size(machine_type: Seq<char>) -> Seq<char> {
    if machine_type == "kvm-tiny"@ {
        "tiny"@
    } else if machine_type == "kvm-medium"@ {
        "medium"@
    } else if machine_type == "kvm-large"@ {
        "large"@
    } else {
        "small"@
    }
}

/// The size that a machine type of a plan stands for; `small` for an unknown
/// one.
pub fn plan_to_vm_size(machine_type: &str) -> (size: &'static str)
    ensures
        size@ == vm_size(machine_type@),
{
    if same_text(machine_type, "kvm-tiny") {
        "tiny"
    } else if same_text(machine_type, "kvm-medium") {
        "medium"
    } else if same_text(machine_type, "kvm-large") {
        "large"
    } else {
        "small"
    }
}

/// What is said where there is no host.
pub open spec fn no_host() -> Seq<char> {
    "BAREMETAL_HOST not configured"@
}

/// The arguments of the ssh call that runs `command` on `host`.
pub open spec fn ssh_call(user: Seq<char>, host: Seq<char>, command: Seq<char>) -> Seq<Seq<char>> {
    seq![
        "-o"@,
        "StrictHostKeyChecking=no"@,
        "-o"@,
        "ConnectTimeout=10"@,
        user + "@"@ + host,
        command,
    ]
}

/// A call on the host is its ssh arguments, or the fault that there is no host.
pub open spec fn is_host_call(
    config: MarketView,
    command: Seq<char>,
    r: Result<Vec<String>, String>,
) -> bool {
    match r {
        Ok(args) => config.baremetal_host is Some && views(args@) == ssh_call(
            config.baremetal_user,
            config.baremetal_host->0,
            command,
        ),
        Err(e) => config.baremetal_host is None && e@ == no_host(),
    }
}

/// The arguments of the ssh call that runs `command` on the operator's host.
pub fn ssh_args(config: &MarketConfig, command: String) -> (r: Result<Vec<String>, String>)
    ensures
        is_host_call(config@, command@, r),
{
    match &config.baremetal_host {
        None => Err("BAREMETAL_HOST not configured".to_owned()),
        Some(host) => {
            let mut target: String = config.baremetal_user.clone();
            target.append("@");
            target.append(host.as_str());
            let mut args: Vec<String> = Vec::new();
            args.push("-o".to_owned());
            args.push("StrictHostKeyChecking=no".to_owned());
            args.push("-o".to_owned());
            args.push("ConnectTimeout=10".to_owned());
            args.push(target);
            args.push(command);
            assert(views(args@) =~= ssh_call(
                config@.baremetal_user,
                config@.baremetal_host->0,
                command@,
            ));
            Ok(args)
        },
    }
}

/// The command that makes a machine.
pub open spec fn create_command(
    config: MarketView,
    vm_name: Seq<char>,
    size: Seq<char>,
    github_handle: Seq<char>,
) -> Seq<char> {
    "dd-vm.sh create --name "@ + vm_name + " --size "@ + size + " --env DD_OWNER="@ + github_handle
        + " --env DD_REGISTER_URL="@ + config.dd_register_url
}

/// The ssh call that makes a machine for `github_handle`.
pub fn create_vm(config: &MarketConfig, vm_name: &str, size: &str, github_handle: &str) -> (r:
    Result<Vec<String>, String>)
    ensures
        is_host_call(config@, create_command(config@, vm_name@, size@, github_handle@), r),
{
    let mut command: String = "dd-vm.sh create --name ".to_owned();
    command.append(vm_name);
    command.append(" --size ");
    command.append(size);
    command.append(" --env DD_OWNER=");
    command.append(github_handle);
    command.append(" --env DD_REGISTER_URL=");
    command.append(config.dd_register_url.as_str());
    ssh_args(config, command)
}

/// The ssh call that destroys a machine.
pub fn destroy_vm(config: &MarketConfig, vm_name: &str) -> (r: Result<Vec<String>, String>)
    ensures
        is_host_call(config@, "dd-vm.sh destroy --name "@ + vm_name@, r),
{
    let mut command: String = "dd-vm.sh destroy --name ".to_owned();
    command.append(vm_name);
    ssh_args(config, command)
}

/// How the address of a machine is found, up to its name.
pub const FIND_MACHINE: &'static str = "VM_IP=$(virsh domifaddr dd-vm-";

/// How an agent is restarted on it, up to its owner.
pub const RESTART_AGENT: &'static str = r#" 2>/dev/null | grep -oP '(\d+\.)+\d+' | head -1) && \
        ssh -o StrictHostKeyChecking=no "root@$VM_IP" \
        'pkill dd-agent; sleep 1; DD_OWNER="#;

/// The command that hands a machine over: its agent is restarted for its new
/// owner.
pub open spec fn reassign_command(
    config: MarketView,
    vm_name: Seq<char>,
    github_handle: Seq<char>,
) -> Seq<char> {
    FIND_MACHINE@ + vm_name + RESTART_AGENT@ + github_handle + " DD_REGISTER_URL="@
        + config.dd_register_url
        + " nohup /usr/local/bin/dd-agent > /var/log/dd-agent.log 2>&1 &'"@
}

/// The ssh call that hands a warm machine to `github_handle`.
pub fn reassign_vm(config: &MarketConfig, vm_name: &str, github_handle: &str) -> (r: Result<
    Vec<String>,
    String,
>)
    ensures
        is_host_call(config@, reassign_command(config@, vm_name@, github_handle@), r),
{
    let mut command: String = FIND_MACHINE.to_owned();
    command.append(vm_name);
    command.append(RESTART_AGENT);
    command.append(github_handle);
    command.append(" DD_REGISTER_URL=");
    command.append(config.dd_register_url.as_str());
    command.append(" nohup /usr/local/bin/dd-agent > /var/log/dd-agent.log 2>&1 &'");
    ssh_args(config, command)
}

/// The command that counts the machines on the host.
pub open spec fn count_command() -> Seq<char> {
    "virsh list --all | grep -c 'dd-vm-' || echo 0"@
}

/// The ssh call that counts the machines on the host; none where there is no
/// host, and so no room.
pub fn check_capacity(config: &MarketConfig) -> (r: Option<Vec<String>>)
    ensures
        match r {
            Some(args) => is_host_call(config@, count_command(), Ok(args)),
            None => config@.baremetal_host is None,
        },
{
    match ssh_args(config, "virsh list --all | grep -c 'dd-vm-' || echo 0".to_owned()) {
        Ok(args) => Some(args),
        Err(_) => None,
    }
}

/// The count of machines leaves room for one more: it is not a number of 20 or
/// more. What is no number counts as none.
pub open spec fn room_left(stdout: Seq<char>) -> bool {
    !(parsed(trim(stdout), i64::MAX as u64) matches Ok(n) && n >= 20)
}

/// Whether the host has room for one more machine, by the output of the count.
pub fn has_capacity(stdout: &str) -> (room: bool)
    ensures
        room == room_left(stdout@),
{
    match parse_number(trimmed(stdout), i64::MAX as u64) {
        Ok(n) => n < 20,
        Err(_) => true,
    }
}

/// What a failed call says: what failed, and what it printed.
pub fn call_fault(what: &str, stderr: &str) -> (e: String)
    ensures
        e@ == what@ + " failed: "@ + stderr@,
{
    let mut e: String = what.to_owned();
    e.append(" failed: ");
    e.append(stderr);
    e
}

} // verus!
