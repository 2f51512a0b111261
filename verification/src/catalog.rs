//! The catalog of offered services and plans: a read-only lookup from
//! `(service_id, plan_id)` to the effective plan capabilities the lifecycle
//! engine consults.

use vstd::prelude::*;
use crate::binding::BindingType;

verus! {

/// The catalog: every service this broker offers.
pub struct Catalog {
    pub services: Vec<Service>,
}

/// A service offering.
pub struct Service {
    pub name: String,
    pub id: String,
    pub description: String,
    pub tags: Vec<String>,
    pub permissions: Vec<Permission>,
    pub bindable: bool,
    pub instances_retrievable: Option<bool>,
    pub bindings_retrievable: Option<bool>,
    pub allow_context_updates: Option<bool>,
    pub metadata: Vec<(String, String)>,
    pub plan_updateable: Option<bool>,
    pub plans: Vec<ServicePlan>,
}

/// A capability a service demands of the platform; it decides the shape of
/// the service's bindings.
#[derive(Clone, Copy, Debug, PartialEq, Eq, Structural)]
pub enum Permission {
    SyslogDrain,
    RouteForwarding,
    VolumeMount,
}

/// A plan of a service.
pub struct ServicePlan {
    pub id: String,
    pub name: String,
    pub description: String,
    pub metadata: Vec<(String, String)>,
    pub free: Option<bool>,
    pub bindable: Option<bool>,
    pub plan_updateable: Option<bool>,
    pub maximum_polling_duration: Option<u64>,
    pub maintenance_info: Option<MaintenanceInfo>,
}

/// A version tag against which stale update requests are detected.
#[derive(Debug)]
pub struct MaintenanceInfo {
    pub version: String,
    pub description: Option<String>,
}

/// What a plan lookup yields: the plan's capabilities with service-level
/// defaults already applied.
pub struct PlanInfo {
    pub bindable: bool,
    pub plan_updateable: bool,
    pub maintenance_info_version: Option<String>,
    pub maximum_polling_duration: Option<u64>,
    pub shape: BindingType,
}

pub struct PlanEntryView {
    pub id: Seq<char>,
    pub bindable: Option<bool>,
    pub plan_updateable: Option<bool>,
    pub maintenance_info_version: Option<Seq<char>>,
    pub maximum_polling_duration: Option<u64>,
}

impl View for ServicePlan {
    type V = PlanEntryView;

    open spec fn view(&self) -> PlanEntryView {
        PlanEntryView {
            id: self.id@,
            bindable: self.bindable,
            plan_updateable: self.plan_updateable,
            maintenance_info_version: match self.maintenance_info {
                Some(mi) => Some(mi.version@),
                None => None,
            },
            maximum_polling_duration: self.maximum_polling_duration,
        }
    }
}

pub struct ServiceView {
    pub id: Seq<char>,
    pub bindable: bool,
    pub plan_updateable: Option<bool>,
    pub permissions: Seq<Permission>,
    pub plans: Seq<PlanEntryView>,
}

impl View for Service {
    type V = ServiceView;

    open spec fn view(&self) -> ServiceView {
        ServiceView {
            id: self.id@,
            bindable: self.bindable,
            plan_updateable: self.plan_updateable,
            permissions: self.permissions@,
            plans: self.plans@.map(|i: int, p: ServicePlan| p@),
        }
    }
}

impl View for Catalog {
    type V = Seq<ServiceView>;

    open spec fn view(&self) -> Seq<ServiceView> {
        self.services@.map(|i: int, s: Service| s@)
    }
}

pub struct PlanView {
    pub bindable: bool,
    pub plan_updateable: bool,
    pub maintenance_info_version: Option<Seq<char>>,
    pub maximum_polling_duration: Option<u64>,
    pub shape: BindingType,
}

impl View for PlanInfo {
    type V = PlanView;

    open spec fn view(&self) -> PlanView {
        PlanView {
            bindable: self.bindable,
            plan_updateable: self.plan_updateable,
            maintenance_info_version: match self.maintenance_info_version {
                Some(v) => Some(v@),
                None => None,
            },
            maximum_polling_duration: self.maximum_polling_duration,
            shape: self.shape,
        }
    }
}

/// An optional flag, read with a default.
pub open spec fn spec_opt_or(o: Option<bool>, d: bool) -> bool {
    match o {
        Some(b) => b,
        None => d,
    }
}

/// The binding shape a service's capability demands imply.
pub open spec fn spec_shape(perms: Seq<Permission>) -> BindingType {
    if perms.contains(Permission::VolumeMount) {
        BindingType::VolumeServices
    } else if perms.contains(Permission::RouteForwarding) {
        BindingType::RouteServices
    } else if perms.contains(Permission::SyslogDrain) {
        BindingType::LogDrain
    } else {
        BindingType::Credentials
    }
}

/// The first plan with the given id.
pub open spec fn spec_find_plan(plans: Seq<PlanEntryView>, plan_id: Seq<char>) -> Option<
    PlanEntryView,
>
    decreases plans.len(),
{
    if plans.len() == 0 {
        None
    } else if plans[0].id == plan_id {
        Some(plans[0])
    } else {
        spec_find_plan(plans.drop_first(), plan_id)
    }
}

/// The first service with the given id.
pub open spec fn spec_find_service(services: Seq<ServiceView>, service_id: Seq<char>) -> Option<
    ServiceView,
>
    decreases services.len(),
{
    if services.len() == 0 {
        None
    } else if services[0].id == service_id {
        Some(services[0])
    } else {
        spec_find_service(services.drop_first(), service_id)
    }
}

/// A plan's capabilities with its service's defaults applied.
pub open spec fn spec_effective(s: ServiceView, p: PlanEntryView) -> PlanView {
    PlanView {
        bindable: spec_opt_or(p.bindable, s.bindable),
        plan_updateable: spec_opt_or(p.plan_updateable, spec_opt_or(s.plan_updateable, false)),
        maintenance_info_version: p.maintenance_info_version,
        maximum_polling_duration: p.maximum_polling_duration,
        shape: spec_shape(s.permissions),
    }
}

/// What the catalog yields for a `(service_id, plan_id)` pair.
pub open spec fn spec_catalog_find(
    services: Seq<ServiceView>,
    service_id: Seq<char>,
    plan_id: Seq<char>,
) -> Option<PlanView> {
    match spec_find_service(services, service_id) {
        None => None,
        Some(s) => match spec_find_plan(s.plans, plan_id) {
            None => None,
            Some(p) => Some(spec_effective(s, p)),
        },
    }
}

fn opt_or(o: &Option<bool>, d: bool) -> (r: bool)
    ensures
        r == spec_opt_or(*o, d),
{
    match o {
        Some(b) => *b,
        None => d,
    }
}

fn contains_perm(perms: &Vec<Permission>, p: Permission) -> (r: bool)
    ensures
        r == perms@.contains(p),
{
    let mut i: usize = 0;
    while i < perms.len()
        invariant
            i <= perms@.len(),
            forall|j: int| 0 <= j < i ==> perms@[j] != p,
        decreases perms@.len() - i,
    {
        if perms[i] == p {
            return true;
        }
        i = i + 1;
    }
    false
}

fn shape_of(perms: &Vec<Permission>) -> (r: BindingType)
    ensures
        r == spec_shape(perms@),
{
    if contains_perm(perms, Permission::VolumeMount) {
        BindingType::VolumeServices
    } else if contains_perm(perms, Permission::RouteForwarding) {
        BindingType::RouteServices
    } else if contains_perm(perms, Permission::SyslogDrain) {
        BindingType::LogDrain
    } else {
        BindingType::Credentials
    }
}

impl Catalog {
    /// Looks a `(service_id, plan_id)` pair up; absence of either id is
    /// reported as `None`, a client error, not a server fault.
    pub fn find(&self, service_id: &String, plan_id: &String) -> (r: Option<PlanInfo>)
        ensures
            match r {
                Some(info) => spec_catalog_find(self@, service_id@, plan_id@) == Some(info@),
                None => spec_catalog_find(self@, service_id@, plan_id@) is None,
            },
    {
        let ghost all = self@;
        proof {
            assert(all.skip(0) =~= all);
        }
        let mut i: usize = 0;
        while i < self.services.len()
            invariant
                all == self@,
                i <= self.services@.len(),
                all.len() == self.services@.len(),
                spec_find_service(all.skip(i as int), service_id@) == spec_find_service(
                    all,
                    service_id@,
                ),
            decreases self.services@.len() - i,
        {
            proof {
                assert(all.skip(i as int)[0] == all[i as int]);
            }
            if self.services[i].id == *service_id {
                proof {
                    assert(spec_find_service(all.skip(i as int), service_id@) == Some(
                        all[i as int],
                    ));
                }
                return self.find_plan_in(i, plan_id);
            }
            proof {
                assert(all.skip(i as int).drop_first() =~= all.skip(i as int + 1));
            }
            i = i + 1;
        }
        proof {
            assert(all.skip(i as int) =~= Seq::<ServiceView>::empty());
        }
        None
    }

    fn find_plan_in(&self, si: usize, plan_id: &String) -> (r: Option<PlanInfo>)
        requires
            si < self.services@.len(),
            spec_find_service(self@, self.services@[si as int]@.id) == Some(
                self.services@[si as int]@,
            ),
        ensures
            match r {
                Some(info) => spec_catalog_find(self@, self.services@[si as int]@.id, plan_id@)
                    == Some(info@),
                None => spec_catalog_find(self@, self.services@[si as int]@.id, plan_id@) is None,
            },
    {
        let service = &self.services[si];
        let ghost sv = self.services@[si as int]@;
        proof {
            assert(sv.plans.skip(0) =~= sv.plans);
        }
        let mut j: usize = 0;
        while j < service.plans.len()
            invariant
                sv == service@,
                si < self.services@.len(),
                sv == self.services@[si as int]@,
                spec_find_service(self@, sv.id) == Some(sv),
                j <= service.plans@.len(),
                sv.plans.len() == service.plans@.len(),
                spec_find_plan(sv.plans.skip(j as int), plan_id@) == spec_find_plan(
                    sv.plans,
                    plan_id@,
                ),
            decreases service.plans@.len() - j,
        {
            proof {
                assert(sv.plans.skip(j as int)[0] == sv.plans[j as int]);
            }
            if service.plans[j].id == *plan_id {
                let plan = &service.plans[j];
                let info = PlanInfo {
                    bindable: opt_or(&plan.bindable, service.bindable),
                    plan_updateable: opt_or(
                        &plan.plan_updateable,
                        opt_or(&service.plan_updateable, false),
                    ),
                    maintenance_info_version: match &plan.maintenance_info {
                        Some(mi) => Some(mi.version.clone()),
                        None => None,
                    },
                    maximum_polling_duration: plan.maximum_polling_duration,
                    shape: shape_of(&service.permissions),
                };
                proof {
                    assert(sv.plans.skip(j as int)[0] == sv.plans[j as int]);
                    assert(spec_find_plan(sv.plans, plan_id@) == Some(sv.plans[j as int]));
                    assert(info@ == spec_effective(sv, sv.plans[j as int]));
                }
                return Some(info);
            }
            proof {
                assert(sv.plans.skip(j as int).drop_first() =~= sv.plans.skip(j as int + 1));
            }
            j = j + 1;
        }
        proof {
            assert(sv.plans.skip(j as int) =~= Seq::<PlanEntryView>::empty());
        }
        None
    }
}

} // verus!
