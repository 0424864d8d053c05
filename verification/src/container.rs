//! Containers of a component, with their ports and environment, and their
//! encoding as containers of a pod.

use crate::pod;
use crate::probe::{HealthProbe, HealthProbeView};
use crate::resources::{Resources, ResourcesView};
use vstd::prelude::*;

verus! {

/// PortProtocol is a protocol used when attaching to ports.
#[derive(Clone, Copy, Debug, PartialEq, Eq, Structural)]
pub enum PortProtocol {
    TCP,
    UDP,
    SCTP,
}

impl PortProtocol {
    /// The token that names the protocol: its name in upper case.
    pub open spec fn spec_as_str(self) -> Seq<char> {
        match self {
            PortProtocol::UDP => "UDP"@,
            PortProtocol::SCTP => "SCTP"@,
            PortProtocol::TCP => "TCP"@,
        }
    }

    /// The token that names the protocol.
    pub fn as_str(&self) -> (r: &str)
        ensures
            r@ == self.spec_as_str(),
    {
        match self {
            PortProtocol::UDP => "UDP",
            PortProtocol::SCTP => "SCTP",
            PortProtocol::TCP => "TCP",
        }
    }

    /// The token that names the protocol, as an owned string.
    pub fn to_string(&self) -> (r: String)
        ensures
            r@ == self.spec_as_str(),
    {
        self.as_str().to_owned()
    }
}

impl Default for PortProtocol {
    fn default() -> (r: Self)
        ensures
            r == PortProtocol::TCP,
    {
        PortProtocol::TCP
    }
}

/// The tokens, letter by letter. No two protocols share one.
pub proof fn lemma_protocol_tokens()
    ensures
        PortProtocol::TCP.spec_as_str() == seq!['T', 'C', 'P'],
        PortProtocol::UDP.spec_as_str() == seq!['U', 'D', 'P'],
        PortProtocol::SCTP.spec_as_str() == seq!['S', 'C', 'T', 'P'],
        forall|a: PortProtocol, b: PortProtocol| a.spec_as_str() == b.spec_as_str() ==> a == b,
{
    reveal_strlit("TCP");
    reveal_strlit("UDP");
    reveal_strlit("SCTP");
    assert("TCP"@ =~= seq!['T', 'C', 'P']);
    assert("UDP"@ =~= seq!['U', 'D', 'P']);
    assert("SCTP"@ =~= seq!['S', 'C', 'T', 'P']);
    assert("TCP"@[0] != "UDP"@[0]);
}

/// Port describes a port on a Container.
#[derive(Clone, Debug)]
pub struct Port {
    pub name: String,
    pub container_port: i32,
    pub protocol: PortProtocol,
}

/// The mathematical value of a `Port`.
pub struct PortView {
    pub name: Seq<char>,
    pub container_port: i32,
    pub protocol: PortProtocol,
}

impl DeepView for Port {
    type V = PortView;

    open spec fn deep_view(&self) -> PortView {
        PortView { name: self.name@, container_port: self.container_port, protocol: self.protocol }
    }
}

impl View for Port {
    type V = PortView;

    open spec fn view(&self) -> PortView {
        self.deep_view()
    }
}

impl PortView {
    /// The pod's port: the same number and name, and the protocol by its token.
    pub open spec fn to_container_port(self) -> pod::ContainerPortView {
        pod::ContainerPortView {
            container_port: self.container_port,
            name: Some(self.name),
            protocol: Some(self.protocol.spec_as_str()),
        }
    }
}

impl Port {
    /// The pod's port for this port.
    pub fn to_container_port(&self) -> (r: pod::ContainerPort)
        ensures
            r@ == self@.to_container_port(),
    {
        pod::ContainerPort {
            container_port: self.container_port,
            name: Some(self.name.clone()),
            protocol: Some(self.protocol.to_string()),
        }
    }
}

/// Env describes an environment variable for a container.
#[derive(Clone, Debug)]
pub struct Env {
    pub name: String,
    pub value: Option<String>,
    pub from_param: Option<String>,
}

/// An `Env` as texts.
pub struct EnvView {
    pub name: Seq<char>,
    pub value: Option<Seq<char>>,
    pub from_param: Option<Seq<char>>,
}

impl DeepView for Env {
    type V = EnvView;

    open spec fn deep_view(&self) -> EnvView {
        EnvView {
            name: self.name@,
            value: self.value.deep_view(),
            from_param: self.from_param.deep_view(),
        }
    }
}

impl View for Env {
    type V = EnvView;

    open spec fn view(&self) -> EnvView {
        self.deep_view()
    }
}

impl EnvView {
    /// The pod's variable: the same name, and the literal value if there is
    /// one. A reference to a parameter is not resolved: it puts no value and
    /// no source of a value in its place.
    pub open spec fn to_env_var(self) -> pod::EnvVarView {
        pod::EnvVarView { name: self.name, value: self.value, value_from: None }
    }
}

impl Env {
    /// The pod's variable for this variable.
    pub fn to_env_var(&self) -> (r: pod::EnvVar)
        ensures
            r@ == self@.to_env_var(),
    {
        pod::EnvVar { name: self.name.clone(), value: self.value.clone(), value_from: None }
    }
}

/// Container describes the container configuration for a Component.
#[derive(Clone, Debug)]
pub struct Container {
    pub name: String,
    pub image: String,
    pub resources: Resources,
    pub env: Vec<Env>,
    pub ports: Vec<Port>,
    pub liveness_probe: Option<HealthProbe>,
    pub readiness_probe: Option<HealthProbe>,
}

/// The mathematical value of a `Container`.
#[verifier::ext_equal]
pub struct ContainerView {
    pub name: Seq<char>,
    pub image: Seq<char>,
    pub resources: ResourcesView,
    pub env: Seq<EnvView>,
    pub ports: Seq<PortView>,
    pub liveness_probe: Option<HealthProbeView>,
    pub readiness_probe: Option<HealthProbeView>,
}

impl DeepView for Container {
    type V = ContainerView;

    open spec fn deep_view(&self) -> ContainerView {
        ContainerView {
            name: self.name@,
            image: self.image@,
            resources: self.resources@,
            env: self.env.deep_view(),
            ports: self.ports.deep_view(),
            liveness_probe: self.liveness_probe.deep_view(),
            readiness_probe: self.readiness_probe.deep_view(),
        }
    }
}

impl View for Container {
    type V = ContainerView;

    open spec fn view(&self) -> ContainerView {
        self.deep_view()
    }
}

impl ContainerView {
    /// The pod's container: name and image as they stand, the resource
    /// requests, one port for each port and one variable for each variable,
    /// in their order, and each probe exactly if the container has it.
    pub open spec fn to_pod_container(self) -> pod::ContainerView {
        pod::ContainerView {
            name: self.name,
            image: Some(self.image),
            resources: Some(self.resources.to_resource_requirements()),
            ports: Some(self.ports.map_values(|p: PortView| p.to_container_port())),
            env: Some(self.env.map_values(|e: EnvView| e.to_env_var())),
            liveness_probe: match self.liveness_probe {
                Some(p) => Some(p.to_probe()),
                None => None,
            },
            readiness_probe: match self.readiness_probe {
                Some(p) => Some(p.to_probe()),
                None => None,
            },
        }
    }
}

impl Container {
    /// The pod's container for this container.
    pub fn to_pod_container(&self) -> (r: pod::Container)
        ensures
            r@ == self@.to_pod_container(),
    {
        let mut ports: Vec<pod::ContainerPort> = Vec::new();
        let mut i: usize = 0;
        while i < self.ports.len()
            invariant
                i <= self.ports.len(),
                ports.len() == i,
                forall|j: int|
                    0 <= j < i ==> (#[trigger] ports[j])@ == self.ports[j]@.to_container_port(),
            decreases self.ports.len() - i,
        {
            ports.push(self.ports[i].to_container_port());
            i = i + 1;
        }
        let mut env: Vec<pod::EnvVar> = Vec::new();
        let mut k: usize = 0;
        while k < self.env.len()
            invariant
                k <= self.env.len(),
                env.len() == k,
                forall|j: int| 0 <= j < k ==> (#[trigger] env[j])@ == self.env[j]@.to_env_var(),
            decreases self.env.len() - k,
        {
            env.push(self.env[k].to_env_var());
            k = k + 1;
        }
        assert(ports.deep_view() =~= self@.to_pod_container().ports->Some_0);
        assert(env.deep_view() =~= self@.to_pod_container().env->Some_0);
        pod::Container {
            name: self.name.clone(),
            image: Some(self.image.clone()),
            resources: Some(self.resources.to_resource_requirements()),
            ports: Some(ports),
            env: Some(env),
            liveness_probe: match &self.liveness_probe {
                Some(p) => Some(p.to_probe()),
                None => None,
            },
            readiness_probe: match &self.readiness_probe {
                Some(p) => Some(p.to_probe()),
                None => None,
            },
        }
    }
}

} // verus!
