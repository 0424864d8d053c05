//! The component schematic, and its projection onto a pod specification.

use crate::container::{Container, ContainerView};
use crate::parameter::{Parameter, ParameterView, WorkloadSetting, WorkloadSettingView};
use crate::pod;
use vstd::prelude::*;

verus! {

/// The default workload type if none is present.
pub const DEFAULT_WORKLOAD_TYPE: &'static str = "core.hydra.io/v1alpha1.Singleton";

/// Component describes the "spec" of a Hydra component schematic.
///
/// The wrapper of the schematic is provided by the Kubernetes library natively.
#[derive(Clone, Debug)]
pub struct Component {
    pub workload_type: String,
    pub os_type: String,
    pub arch: String,
    pub parameters: Vec<Parameter>,
    pub containers: Vec<Container>,
    pub workload_settings: Vec<WorkloadSetting>,
}

/// The mathematical value of a `Component`.
#[verifier::ext_equal]
pub struct ComponentView {
    pub workload_type: Seq<char>,
    pub os_type: Seq<char>,
    pub arch: Seq<char>,
    pub parameters: Seq<ParameterView>,
    pub containers: Seq<ContainerView>,
    pub workload_settings: Seq<WorkloadSettingView>,
}

impl DeepView for Component {
    type V = ComponentView;

    open spec fn deep_view(&self) -> ComponentView {
        ComponentView {
            workload_type: self.workload_type@,
            os_type: self.os_type@,
            arch: self.arch@,
            parameters: self.parameters.deep_view(),
            containers: self.containers.deep_view(),
            workload_settings: self.workload_settings.deep_view(),
        }
    }
}

impl View for Component {
    type V = ComponentView;

    open spec fn view(&self) -> ComponentView {
        self.deep_view()
    }
}

impl ComponentView {
    /// The component that names nothing: a singleton workload for Linux on
    /// amd64, without parameters, containers or workload settings.
    pub open spec fn spec_default() -> ComponentView {
        ComponentView {
            workload_type: DEFAULT_WORKLOAD_TYPE@,
            os_type: "linux"@,
            arch: "amd64"@,
            parameters: Seq::empty(),
            containers: Seq::empty(),
            workload_settings: Seq::empty(),
        }
    }

    /// The pod specification of the component: one container for each of its
    /// containers, in their order, and nothing else.
    pub open spec fn to_pod_spec(self) -> pod::PodSpecView {
        pod::PodSpecView {
            containers: self.containers.map_values(|c: ContainerView| c.to_pod_container()),
        }
    }
}

impl Component {
    /// to_pod_spec generates a pod specification.
    pub fn to_pod_spec(&self) -> (r: pod::PodSpec)
        ensures
            r@ == self@.to_pod_spec(),
    {
        let mut containers: Vec<pod::Container> = Vec::new();
        let mut i: usize = 0;
        while i < self.containers.len()
            invariant
                i <= self.containers.len(),
                containers.len() == i,
                forall|j: int|
                    0 <= j < i ==> (#[trigger] containers[j])@
                        == self.containers[j]@.to_pod_container(),
            decreases self.containers.len() - i,
        {
            containers.push(self.containers[i].to_pod_container());
            i = i + 1;
        }
        assert(containers.deep_view() =~= self@.to_pod_spec().containers);
        pod::PodSpec { containers }
    }
}

/// Projecting a component twice gives the same pod specification: whatever
/// two calls of `to_pod_spec` return for one component has one value.
pub proof fn lemma_projection_repeats(c: Component, first: pod::PodSpec, second: pod::PodSpec)
    requires
        call_ensures(Component::to_pod_spec, (&c,), first),
        call_ensures(Component::to_pod_spec, (&c,), second),
    ensures
        first@ == second@,
        first@ == c@.to_pod_spec(),
{
}

/// Projection keeps order. The pod has as many containers as the component,
/// and the container at each place comes from the component's container at
/// that place; within it, the port and the variable at each place come from
/// the container's port and variable at that place.
pub proof fn lemma_projection_keeps_order(c: ComponentView)
    ensures
        c.to_pod_spec().containers.len() == c.containers.len(),
        forall|i: int|
            0 <= i < c.containers.len() ==> {
                let from = #[trigger] c.containers[i];
                let to = c.to_pod_spec().containers[i];
                &&& to == from.to_pod_container()
                &&& to.name == from.name
                &&& to.ports is Some
                &&& to.ports->Some_0.len() == from.ports.len()
                &&& forall|k: int|
                    0 <= k < from.ports.len() ==> to.ports->Some_0[k]
                        == (#[trigger] from.ports[k]).to_container_port()
                &&& to.env is Some
                &&& to.env->Some_0.len() == from.env.len()
                &&& forall|k: int|
                    0 <= k < from.env.len() ==> to.env->Some_0[k]
                        == (#[trigger] from.env[k]).to_env_var()
            },
{
}

impl Default for Component {
    fn default() -> (r: Self)
        ensures
            r@ == ComponentView::spec_default(),
    {
        Component {
            workload_type: DEFAULT_WORKLOAD_TYPE.to_owned(),
            os_type: "linux".to_owned(),
            arch: "amd64".to_owned(),
            parameters: Vec::new(),
            containers: Vec::new(),
            workload_settings: Vec::new(),
        }
    }
}

/// Application defines a Hydra application
#[derive(Clone, Debug)]
pub struct Application {}

/// Trait describes Hydra traits.
///
/// Hydra traits are ops-oriented "add-ons" that can be attached to Components of the appropriate workloadType.
/// For example, an autoscaler trait can attach to a workloadType (such as ReplicableService) that can be
/// scaled up and down.
#[derive(Clone, Debug)]
pub struct Trait {}

/// HydraStatus is the status of a Hydra object, per Kubernetes.
#[derive(Clone, Debug)]
pub struct HydraStatus {
    pub phase: Option<String>,
}

impl Default for HydraStatus {
    fn default() -> (r: Self)
        ensures
            r.phase is None,
    {
        HydraStatus { phase: None }
    }
}

/// Status is a convenience for an optional HydraStatus.
pub type Status = Option<HydraStatus>;

} // verus!
