//! What the marketplace's database starts with.

use crate::models::{Plan, PlanView, Provider};
use vstd::prelude::*;

verus! {

/// A plan on offer.
pub open spec fn offered(
    id: Seq<char>,
    name: Seq<char>,
    machine_type: Seq<char>,
    vcpus: i64,
    ram_gb: i64,
    disk_gb: i64,
    duration_hours: i64,
    price_sats: i64,
    provider: Provider,
) -> PlanView {
    PlanView {
        id,
        name,
        machine_type,
        vcpus,
        ram_gb,
        disk_gb,
        duration_hours,
        price_sats,
        provider,
        active: true,
    }
}

/// The plans that a new database offers: the operator's own machines, and
/// Google's cloud for what they cannot hold.
pub open spec fn price_list() -> Seq<PlanView> {
    seq![
        offered(
            "local-tiny-24h"@,
            "Tiny (24h)"@,
            "kvm-tiny"@,
            1,
            2,
            20,
            24,
            7_200,
            Provider::Local,
        ),
        offered(
            "local-small-24h"@,
            "Small (24h)"@,
            "kvm-small"@,
            2,
            4,
            40,
            24,
            12_000,
            Provider::Local,
        ),
        offered(
            "local-medium-24h"@,
            "Medium (24h)"@,
            "kvm-medium"@,
            4,
            8,
            80,
            24,
            24_000,
            Provider::Local,
        ),
        offered(
            "local-large-24h"@,
            "Large (24h)"@,
            "kvm-large"@,
            8,
            16,
            160,
            24,
            48_000,
            Provider::Local,
        ),
        offered(
            "local-small-720h"@,
            "Small (30d)"@,
            "kvm-small"@,
            2,
            4,
            40,
            720,
            360_000,
            Provider::Local,
        ),
        offered(
            "local-medium-720h"@,
            "Medium (30d)"@,
            "kvm-medium"@,
            4,
            8,
            80,
            720,
            720_000,
            Provider::Local,
        ),
        offered(
            "gcp-tiny-24h"@,
            "GCP Tiny (24h)"@,
            "c3-standard-4"@,
            4,
            16,
            256,
            24,
            48_000,
            Provider::Gcp,
        ),
        offered(
            "gcp-standard-24h"@,
            "GCP Standard (24h)"@,
            "c3-standard-8"@,
            8,
            32,
            256,
            24,
            72_000,
            Provider::Gcp,
        ),
        offered(
            "gcp-tiny-720h"@,
            "GCP Tiny (30d)"@,
            "c3-standard-4"@,
            4,
            16,
            256,
            720,
            1_440_000,
            Provider::Gcp,
        ),
    ]
}

/// The views of a list of plans.
pub open spec fn plan_views(plans: Seq<Plan>) -> Seq<PlanView> {
    Seq::new(plans.len(), |i: int| plans[i]@)
}

fn offer(
    id: &str,
    name: &str,
    machine_type: &str,
    vcpus: i64,
    ram_gb: i64,
    disk_gb: i64,
    duration_hours: i64,
    price_sats: i64,
    provider: Provider,
) -> (plan: Plan)
    ensures
        plan@ == offered(
            id@,
            name@,
            machine_type@,
            vcpus,
            ram_gb,
            disk_gb,
            duration_hours,
            price_sats,
            provider,
        ),
{
    Plan {
        id: id.to_owned(),
        name: name.to_owned(),
        machine_type: machine_type.to_owned(),
        vcpus,
        ram_gb,
        disk_gb,
        duration_hours,
        price_sats,
        provider,
        active: true,
    }
}

/// The plans to put into a database that holds `count` plans: the price list
/// into an empty one, nothing into any other.
pub fn seed_plans(count: i64) -> (plans: Vec<Plan>)
    ensures
        plan_views(plans@) == if count > 0 {
            Seq::<PlanView>::empty()
        } else {
            price_list()
        },
{
    let mut plans: Vec<Plan> = Vec::new();
    if count > 0 {
        assert(plan_views(plans@) =~= Seq::<PlanView>::empty());
        return plans;
    }
    plans.push(
        offer("local-tiny-24h", "Tiny (24h)", "kvm-tiny", 1, 2, 20, 24, 7_200, Provider::Local),
    );
    plans.push(
        offer("local-small-24h", "Small (24h)", "kvm-small", 2, 4, 40, 24, 12_000, Provider::Local),
    );
    plans.push(
        offer("local-medium-24h", "Medium (24h)", "kvm-medium", 4, 8, 80, 24, 24_000, Provider::Local),
    );
    plans.push(
        offer("local-large-24h", "Large (24h)", "kvm-large", 8, 16, 160, 24, 48_000, Provider::Local),
    );
    plans.push(
        offer("local-small-720h", "Small (30d)", "kvm-small", 2, 4, 40, 720, 360_000, Provider::Local),
    );
    plans.push(
        offer("local-medium-720h", "Medium (30d)", "kvm-medium", 4, 8, 80, 720, 720_000, Provider::Local),
    );
    plans.push(
        offer("gcp-tiny-24h", "GCP Tiny (24h)", "c3-standard-4", 4, 16, 256, 24, 48_000, Provider::Gcp),
    );
    plans.push(
        offer("gcp-standard-24h", "GCP Standard (24h)", "c3-standard-8", 8, 32, 256, 24, 72_000, Provider::Gcp),
    );
    plans.push(
        offer("gcp-tiny-720h", "GCP Tiny (30d)", "c3-standard-4", 4, 16, 256, 720, 1_440_000, Provider::Gcp),
    );
    assert(plan_views(plans@) =~= price_list());
    plans
}

/// No two plans of the price list share an identifier, and every one costs
/// something and lasts.
pub proof fn law_price_list_is_sound(i: int, j: int)
    requires
        0 <= i < j < price_list().len(),
    ensures
        price_list()[i].id != price_list()[j].id,
        price_list()[i].price_sats > 0,
        price_list()[i].duration_hours > 0,
        price_list()[j].price_sats > 0,
        price_list()[j].duration_hours > 0,
{
    reveal_strlit("local-tiny-24h");
    reveal_strlit("local-small-24h");
    reveal_strlit("local-medium-24h");
    reveal_strlit("local-large-24h");
    reveal_strlit("local-small-720h");
    reveal_strlit("local-medium-720h");
    reveal_strlit("gcp-tiny-24h");
    reveal_strlit("gcp-standard-24h");
    reveal_strlit("gcp-tiny-720h");
    let a = price_list()[i].id;
    let b = price_list()[j].id;
    assert(a.len() != b.len() || a[6] != b[6]);
}

} // verus!
