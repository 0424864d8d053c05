//! The pod template that a component is projected onto.
//!
//! These types hold the part of the orchestrator's pod specification that a
//! schematic can fill. A field of the orchestrator's type that has no
//! counterpart here is never set.

use vstd::prelude::*;

verus! {

/// A port number or a port name.
#[derive(Clone, Debug, PartialEq)]
pub enum IntOrString {
    Int(i32),
    String(String),
}

/// An `IntOrString` with its name as a text.
pub enum IntOrStringView {
    Int(i32),
    String(Seq<char>),
}

impl DeepView for IntOrString {
    type V = IntOrStringView;

    open spec fn deep_view(&self) -> IntOrStringView {
        match self {
            IntOrString::Int(i) => IntOrStringView::Int(*i),
            IntOrString::String(s) => IntOrStringView::String(s@),
        }
    }
}

impl View for IntOrString {
    type V = IntOrStringView;

    open spec fn view(&self) -> IntOrStringView {
        self.deep_view()
    }
}

/// One header of an HTTP request.
#[derive(Clone, Debug, PartialEq)]
pub struct HTTPHeader {
    pub name: String,
    pub value: String,
}

/// An `HTTPHeader` as texts.
pub struct HTTPHeaderView {
    pub name: Seq<char>,
    pub value: Seq<char>,
}

impl DeepView for HTTPHeader {
    type V = HTTPHeaderView;

    open spec fn deep_view(&self) -> HTTPHeaderView {
        HTTPHeaderView { name: self.name@, value: self.value@ }
    }
}

impl View for HTTPHeader {
    type V = HTTPHeaderView;

    open spec fn view(&self) -> HTTPHeaderView {
        self.deep_view()
    }
}

/// A health check that sends an HTTP GET request.
#[derive(Clone, Debug, PartialEq)]
pub struct HTTPGetAction {
    pub http_headers: Option<Vec<HTTPHeader>>,
    pub path: Option<String>,
    pub port: IntOrString,
}

/// The mathematical value of an `HTTPGetAction`.
#[verifier::ext_equal]
pub struct HTTPGetActionView {
    pub http_headers: Option<Seq<HTTPHeaderView>>,
    pub path: Option<Seq<char>>,
    pub port: IntOrStringView,
}

impl DeepView for HTTPGetAction {
    type V = HTTPGetActionView;

    open spec fn deep_view(&self) -> HTTPGetActionView {
        HTTPGetActionView {
            http_headers: self.http_headers.deep_view(),
            path: self.path.deep_view(),
            port: self.port@,
        }
    }
}

impl View for HTTPGetAction {
    type V = HTTPGetActionView;

    open spec fn view(&self) -> HTTPGetActionView {
        self.deep_view()
    }
}

/// A health check that opens a TCP connection.
#[derive(Clone, Debug, PartialEq)]
pub struct TCPSocketAction {
    pub port: IntOrString,
}

/// The mathematical value of a `TCPSocketAction`.
pub struct TCPSocketActionView {
    pub port: IntOrStringView,
}

impl DeepView for TCPSocketAction {
    type V = TCPSocketActionView;

    open spec fn deep_view(&self) -> TCPSocketActionView {
        TCPSocketActionView { port: self.port@ }
    }
}

impl View for TCPSocketAction {
    type V = TCPSocketActionView;

    open spec fn view(&self) -> TCPSocketActionView {
        self.deep_view()
    }
}

/// A health check that runs a command in the container.
#[derive(Clone, Debug, PartialEq)]
pub struct ExecAction {
    pub command: Option<Vec<String>>,
}

/// The mathematical value of an `ExecAction`.
#[verifier::ext_equal]
pub struct ExecActionView {
    pub command: Option<Seq<Seq<char>>>,
}

impl DeepView for ExecAction {
    type V = ExecActionView;

    open spec fn deep_view(&self) -> ExecActionView {
        ExecActionView { command: self.command.deep_view() }
    }
}

impl View for ExecAction {
    type V = ExecActionView;

    open spec fn view(&self) -> ExecActionView {
        self.deep_view()
    }
}

/// A periodic health check of a container.
#[derive(Clone, Debug, PartialEq)]
pub struct Probe {
    /// The command to run, which the orchestrator knows as `exec`.
    pub exec_: Option<ExecAction>,
    pub failure_threshold: Option<i32>,
    pub http_get: Option<HTTPGetAction>,
    pub initial_delay_seconds: Option<i32>,
    pub period_seconds: Option<i32>,
    pub success_threshold: Option<i32>,
    pub tcp_socket: Option<TCPSocketAction>,
    pub timeout_seconds: Option<i32>,
}

/// The mathematical value of a `Probe`.
#[verifier::ext_equal]
pub struct ProbeView {
    pub exec_: Option<ExecActionView>,
    pub failure_threshold: Option<i32>,
    pub http_get: Option<HTTPGetActionView>,
    pub initial_delay_seconds: Option<i32>,
    pub period_seconds: Option<i32>,
    pub success_threshold: Option<i32>,
    pub tcp_socket: Option<TCPSocketActionView>,
    pub timeout_seconds: Option<i32>,
}

impl DeepView for Probe {
    type V = ProbeView;

    open spec fn deep_view(&self) -> ProbeView {
        ProbeView {
            exec_: self.exec_.deep_view(),
            failure_threshold: self.failure_threshold,
            http_get: self.http_get.deep_view(),
            initial_delay_seconds: self.initial_delay_seconds,
            period_seconds: self.period_seconds,
            success_threshold: self.success_threshold,
            tcp_socket: self.tcp_socket.deep_view(),
            timeout_seconds: self.timeout_seconds,
        }
    }
}

impl View for Probe {
    type V = ProbeView;

    open spec fn view(&self) -> ProbeView {
        self.deep_view()
    }
}

/// A place other than the pod template from which a variable takes its
/// value. A schematic cannot name one yet, so it has no parts.
#[derive(Clone, Copy, Debug, PartialEq, Eq, Structural)]
pub struct EnvVarSource {}

/// An environment variable of a container.
#[derive(Clone, Debug, PartialEq)]
pub struct EnvVar {
    pub name: String,
    pub value: Option<String>,
    pub value_from: Option<EnvVarSource>,
}

/// An `EnvVar` as texts.
pub struct EnvVarView {
    pub name: Seq<char>,
    pub value: Option<Seq<char>>,
    pub value_from: Option<EnvVarSource>,
}

impl DeepView for EnvVar {
    type V = EnvVarView;

    open spec fn deep_view(&self) -> EnvVarView {
        EnvVarView {
            name: self.name@,
            value: self.value.deep_view(),
            value_from: self.value_from,
        }
    }
}

impl View for EnvVar {
    type V = EnvVarView;

    open spec fn view(&self) -> EnvVarView {
        self.deep_view()
    }
}

/// A network port that a container exposes.
#[derive(Clone, Debug, PartialEq)]
pub struct ContainerPort {
    pub container_port: i32,
    pub name: Option<String>,
    pub protocol: Option<String>,
}

/// The mathematical value of a `ContainerPort`.
pub struct ContainerPortView {
    pub container_port: i32,
    pub name: Option<Seq<char>>,
    pub protocol: Option<Seq<char>>,
}

impl DeepView for ContainerPort {
    type V = ContainerPortView;

    open spec fn deep_view(&self) -> ContainerPortView {
        ContainerPortView {
            container_port: self.container_port,
            name: self.name.deep_view(),
            protocol: self.protocol.deep_view(),
        }
    }
}

impl View for ContainerPort {
    type V = ContainerPortView;

    open spec fn view(&self) -> ContainerPortView {
        self.deep_view()
    }
}

/// An amount of one named resource, in the orchestrator's quantity syntax.
#[derive(Clone, Debug, PartialEq)]
pub struct ResourceQuantity {
    pub name: String,
    pub quantity: String,
}

/// A `ResourceQuantity` as texts.
pub struct ResourceQuantityView {
    pub name: Seq<char>,
    pub quantity: Seq<char>,
}

impl DeepView for ResourceQuantity {
    type V = ResourceQuantityView;

    open spec fn deep_view(&self) -> ResourceQuantityView {
        ResourceQuantityView { name: self.name@, quantity: self.quantity@ }
    }
}

impl View for ResourceQuantity {
    type V = ResourceQuantityView;

    open spec fn view(&self) -> ResourceQuantityView {
        self.deep_view()
    }
}

/// No resource is named twice in `entries`.
pub open spec fn names_distinct(entries: Seq<ResourceQuantityView>) -> bool {
    forall|i: int, j: int|
        0 <= i < j < entries.len() ==> (#[trigger] entries[i]).name != (#[trigger] entries[j]).name
}

/// The compute resources that a container asks for and is limited to. Each
/// list stands for a map from resource name to quantity.
#[derive(Clone, Debug, PartialEq)]
pub struct ResourceRequirements {
    pub limits: Option<Vec<ResourceQuantity>>,
    pub requests: Option<Vec<ResourceQuantity>>,
}

/// The mathematical value of a `ResourceRequirements`.
#[verifier::ext_equal]
pub struct ResourceRequirementsView {
    pub limits: Option<Seq<ResourceQuantityView>>,
    pub requests: Option<Seq<ResourceQuantityView>>,
}

impl ResourceRequirementsView {
    /// Each list names a resource at most once, so that it is a map.
    pub open spec fn well_formed(self) -> bool {
        &&& self.limits matches Some(limits) ==> names_distinct(limits)
        &&& self.requests matches Some(requests) ==> names_distinct(requests)
    }
}

impl DeepView for ResourceRequirements {
    type V = ResourceRequirementsView;

    open spec fn deep_view(&self) -> ResourceRequirementsView {
        ResourceRequirementsView {
            limits: self.limits.deep_view(),
            requests: self.requests.deep_view(),
        }
    }
}

impl View for ResourceRequirements {
    type V = ResourceRequirementsView;

    open spec fn view(&self) -> ResourceRequirementsView {
        self.deep_view()
    }
}

/// One container of a pod.
#[derive(Clone, Debug, PartialEq)]
pub struct Container {
    pub name: String,
    pub image: Option<String>,
    pub resources: Option<ResourceRequirements>,
    pub ports: Option<Vec<ContainerPort>>,
    pub env: Option<Vec<EnvVar>>,
    pub liveness_probe: Option<Probe>,
    pub readiness_probe: Option<Probe>,
}

/// The mathematical value of a `Container`.
#[verifier::ext_equal]
pub struct ContainerView {
    pub name: Seq<char>,
    pub image: Option<Seq<char>>,
    pub resources: Option<ResourceRequirementsView>,
    pub ports: Option<Seq<ContainerPortView>>,
    pub env: Option<Seq<EnvVarView>>,
    pub liveness_probe: Option<ProbeView>,
    pub readiness_probe: Option<ProbeView>,
}

impl DeepView for Container {
    type V = ContainerView;

    open spec fn deep_view(&self) -> ContainerView {
        ContainerView {
            name: self.name@,
            image: self.image.deep_view(),
            resources: self.resources.deep_view(),
            ports: self.ports.deep_view(),
            env: self.env.deep_view(),
            liveness_probe: self.liveness_probe.deep_view(),
            readiness_probe: self.readiness_probe.deep_view(),
        }
    }
}

impl View for Container {
    type V = ContainerView;

    open spec fn view(&self) -> ContainerView {
        self.deep_view()
    }
}

/// The specification of a pod: its containers, in order.
#[derive(Clone, Debug, PartialEq)]
pub struct PodSpec {
    pub containers: Vec<Container>,
}

/// The mathematical value of a `PodSpec`.
#[verifier::ext_equal]
pub struct PodSpecView {
    pub containers: Seq<ContainerView>,
}

impl DeepView for PodSpec {
    type V = PodSpecView;

    open spec fn deep_view(&self) -> PodSpecView {
        PodSpecView { containers: self.containers.deep_view() }
    }
}

impl View for PodSpec {
    type V = PodSpecView;

    open spec fn view(&self) -> PodSpecView {
        self.deep_view()
    }
}

} // verus!
