//! Service binding resources: the four binding shapes, the request and
//! response bodies, and the query parameters of the binding endpoints.

use vstd::prelude::*;
use crate::kv::{opt_kv, opt_str_view};

verus! {

/// The four shapes a binding can take; exactly one shape's field is populated
/// in a binding body.
#[derive(Clone, Copy, Debug, PartialEq, Eq, Structural)]
pub enum BindingType {
    Credentials,
    LogDrain,
    RouteServices,
    VolumeServices,
}

/// Query parameters of a bind request.
#[derive(Debug)]
pub struct ProvisionParams {
    pub accepts_incomplete: Option<bool>,
}

/// Body of a bind request.
#[derive(Debug)]
pub struct BindingRequestBody {
    pub service_id: String,
    pub plan_id: String,
    pub context: Option<Vec<(String, String)>>,
    pub bind_resource: Option<BindResource>,
    pub parameters: Option<Vec<(String, String)>>,
}

/// The resource a binding is being created for.
#[derive(Debug)]
pub struct BindResource {
    pub app_guid: Option<String>,
    pub route: Option<String>,
}

/// Body of a bind response: one shape's field populated, the rest absent.
#[derive(Debug)]
pub struct Binding {
    pub metadata: Option<BindingMetadata>,
    pub credentials: Option<Vec<(String, String)>>,
    pub syslog_drain_url: Option<String>,
    pub route_service_url: Option<String>,
    pub volume_mounts: Option<VolumeMount>,
    pub endpoints: Option<Vec<Endpoint>>,
}

#[derive(Debug)]
pub struct BindingMetadata {
    pub expires_at: String,
}

#[derive(Debug)]
pub struct VolumeMount {
    pub driver: String,
    pub container_dir: String,
    pub mode: VolumeMode,
    pub device_type: DeviceType,
    pub device: Device,
}

#[derive(Clone, Copy, Debug, PartialEq, Eq, Structural)]
pub enum VolumeMode {
    R,
    RW,
}

#[derive(Clone, Copy, Debug, PartialEq, Eq, Structural)]
pub enum DeviceType {
    Shared,
}

#[derive(Debug)]
pub struct Device {
    pub volume_id: String,
    pub mount_config: Option<Vec<(String, String)>>,
}

#[derive(Debug)]
pub struct Endpoint {
    pub host: String,
    pub ports: Vec<String>,
    pub protocol: Option<Protocol>,
}

#[derive(Clone, Copy, Debug, PartialEq, Eq, Structural)]
pub enum Protocol {
    TCP,
    UDP,
    All,
}

impl Default for Protocol {
    fn default() -> (r: Self)
        ensures
            r == Protocol::TCP,
    {
        Protocol::TCP
    }
}

/// Query parameters of a binding fetch.
#[derive(Debug)]
pub struct BindingFetchParams {
    pub service: Option<String>,
    pub plan_id: Option<String>,
}

/// Query parameters of an unbind request.
#[derive(Debug)]
pub struct BindingDeleteParams {
    pub service_id: String,
    pub plan_id: String,
    pub accepts_incomplete: Option<bool>,
}

pub struct DeviceView {
    pub volume_id: Seq<char>,
    pub mount_config: Option<Seq<(Seq<char>, Seq<char>)>>,
}

impl View for Device {
    type V = DeviceView;

    open spec fn view(&self) -> DeviceView {
        DeviceView {
            volume_id: self.volume_id@,
            mount_config: opt_kv(self.mount_config),
        }
    }
}

pub struct VolumeMountView {
    pub driver: Seq<char>,
    pub container_dir: Seq<char>,
    pub mode: VolumeMode,
    pub device_type: DeviceType,
    pub device: DeviceView,
}

impl View for VolumeMount {
    type V = VolumeMountView;

    open spec fn view(&self) -> VolumeMountView {
        VolumeMountView {
            driver: self.driver@,
            container_dir: self.container_dir@,
            mode: self.mode,
            device_type: self.device_type,
            device: self.device@,
        }
    }
}

pub struct EndpointView {
    pub host: Seq<char>,
    pub ports: Seq<Seq<char>>,
    pub protocol: Option<Protocol>,
}

impl View for Endpoint {
    type V = EndpointView;

    open spec fn view(&self) -> EndpointView {
        EndpointView {
            host: self.host@,
            ports: self.ports@.map(|i: int, p: String| p@),
            protocol: self.protocol,
        }
    }
}

pub struct BindingView {
    pub metadata: Option<Seq<char>>,
    pub credentials: Option<Seq<(Seq<char>, Seq<char>)>>,
    pub syslog_drain_url: Option<Seq<char>>,
    pub route_service_url: Option<Seq<char>>,
    pub volume_mounts: Option<VolumeMountView>,
    pub endpoints: Option<Seq<EndpointView>>,
}

impl View for Binding {
    type V = BindingView;

    open spec fn view(&self) -> BindingView {
        BindingView {
            metadata: match self.metadata {
                Some(m) => Some(m.expires_at@),
                None => None,
            },
            credentials: opt_kv(self.credentials),
            syslog_drain_url: opt_str_view(self.syslog_drain_url),
            route_service_url: opt_str_view(self.route_service_url),
            volume_mounts: match self.volume_mounts {
                Some(v) => Some(v@),
                None => None,
            },
            endpoints: match self.endpoints {
                Some(e) => Some(e@.map(|i: int, x: Endpoint| x@)),
                None => None,
            },
        }
    }
}

} // verus!
