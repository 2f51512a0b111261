//! Service instance resources: the request and response bodies and the query
//! parameters of the instance endpoints.

use vstd::prelude::*;
use crate::catalog::MaintenanceInfo;
use crate::kv::{opt_kv, opt_str_view};

verus! {

/// Query parameters of a provision request.
#[derive(Debug)]
pub struct ProvisionParams {
    pub accepts_incomplete: Option<bool>,
}

/// Body of a provision request.
#[derive(Debug)]
pub struct ServiceInstanceRequestBody {
    pub service_id: String,
    pub plan_id: String,
    pub context: Option<Vec<(String, String)>>,
    pub organization_guid: String,
    pub space_guid: String,
    pub parameters: Option<Vec<(String, String)>>,
    pub maintenance_info: Option<MaintenanceInfo>,
}

/// Body of a provision or update response.
#[derive(Debug)]
pub struct CreatedServiceIstance {
    pub dashboard_url: Option<String>,
    pub operation: Option<String>,
    pub metadata: Option<ServiceInstanceMetadata>,
}

#[derive(Debug)]
pub struct ServiceInstanceMetadata {
    pub labels: Vec<(String, String)>,
}

/// Query parameters of an instance fetch.
#[derive(Debug)]
pub struct ServiceFetchParams {
    pub service: Option<String>,
    pub plan_id: Option<String>,
}

/// Body of an instance fetch response.
#[derive(Debug)]
pub struct ServiceIstance {
    pub service_id: Option<String>,
    pub plan_id: Option<String>,
    pub dashboard_url: Option<String>,
    pub operation: Option<String>,
    pub metadata: Option<ServiceInstanceMetadata>,
}

/// Body of an update request.
#[derive(Debug)]
pub struct ServiceUpdateRequestBody {
    pub service_id: String,
    pub plan_id: Option<String>,
    pub context: Option<Vec<(String, String)>>,
    pub parameters: Option<Vec<(String, String)>>,
    pub previous_values: Option<PreviousValues>,
    pub maintenance_info: Option<MaintenanceInfo>,
}

/// What the platform believes the instance looked like before an update.
#[derive(Debug)]
pub struct PreviousValues {
    pub service_id: Option<String>,
    pub plan_id: Option<String>,
    pub organization_id: Option<String>,
    pub space_id: Option<String>,
    pub maintenance_info: Option<MaintenanceInfo>,
}

/// Query parameters of a deprovision request.
#[derive(Debug)]
pub struct ServiceDeleteParams {
    pub service_id: String,
    pub plan_id: String,
    pub accepts_incomplete: Option<bool>,
}

pub struct CreatedServiceIstanceView {
    pub dashboard_url: Option<Seq<char>>,
    pub operation: Option<Seq<char>>,
    pub metadata: Option<Seq<(Seq<char>, Seq<char>)>>,
}

impl View for CreatedServiceIstance {
    type V = CreatedServiceIstanceView;

    open spec fn view(&self) -> CreatedServiceIstanceView {
        CreatedServiceIstanceView {
            dashboard_url: opt_str_view(self.dashboard_url),
            operation: opt_str_view(self.operation),
            metadata: match self.metadata {
                Some(m) => opt_kv(Some(m.labels)),
                None => None,
            },
        }
    }
}

pub struct ServiceIstanceView {
    pub service_id: Option<Seq<char>>,
    pub plan_id: Option<Seq<char>>,
    pub dashboard_url: Option<Seq<char>>,
    pub operation: Option<Seq<char>>,
    pub metadata: Option<Seq<(Seq<char>, Seq<char>)>>,
}

impl View for ServiceIstance {
    type V = ServiceIstanceView;

    open spec fn view(&self) -> ServiceIstanceView {
        ServiceIstanceView {
            service_id: opt_str_view(self.service_id),
            plan_id: opt_str_view(self.plan_id),
            dashboard_url: opt_str_view(self.dashboard_url),
            operation: opt_str_view(self.operation),
            metadata: match self.metadata {
                Some(m) => opt_kv(Some(m.labels)),
                None => None,
            },
        }
    }
}

} // verus!
