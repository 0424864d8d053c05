//! The resources that a container of a component requires.

use crate::pod::{
    names_distinct, ResourceQuantity, ResourceQuantityView, ResourceRequirements,
    ResourceRequirementsView,
};
use vstd::prelude::*;

verus! {

/// AccessMode defines the access modes for file systems.
///
/// Currently, only read/write and read-only are supported.
#[derive(Clone, Copy, Debug, PartialEq, Eq, Structural)]
pub enum AccessMode {
    RW,
    RO,
}

impl Default for AccessMode {
    fn default() -> (r: Self)
        ensures
            r == AccessMode::RW,
    {
        AccessMode::RW
    }
}

/// SharingPolicy defines whether a filesystem can be shared across containers.
///
/// An Exclusive filesystem can only be attached to one container.
#[derive(Clone, Copy, Debug, PartialEq, Eq, Structural)]
pub enum SharingPolicy {
    Shared,
    Exclusive,
}

impl Default for SharingPolicy {
    fn default() -> (r: Self)
        ensures
            r == SharingPolicy::Exclusive,
    {
        SharingPolicy::Exclusive
    }
}

/// Path describes a path that is attached to a Container.
///
/// It specifies not only the location, but also the requirements.
#[derive(Clone, Debug)]
pub struct Path {
    pub name: String,
    pub path: String,
    pub access_mode: AccessMode,
    pub sharing_policy: SharingPolicy,
}

/// The mathematical value of a `Path`.
pub struct PathView {
    pub name: Seq<char>,
    pub path: Seq<char>,
    pub access_mode: AccessMode,
    pub sharing_policy: SharingPolicy,
}

impl DeepView for Path {
    type V = PathView;

    open spec fn deep_view(&self) -> PathView {
        PathView {
            name: self.name@,
            path: self.path@,
            access_mode: self.access_mode,
            sharing_policy: self.sharing_policy,
        }
    }
}

impl View for Path {
    type V = PathView;

    open spec fn view(&self) -> PathView {
        self.deep_view()
    }
}

/// CPU describes a CPU resource allocation for a container.
///
/// It indicates how much CPU (core count) is required for this container to operate.
#[derive(Clone, Debug)]
pub struct CPU {
    pub required: String,
}

impl DeepView for CPU {
    type V = Seq<char>;

    /// The required quantity.
    open spec fn deep_view(&self) -> Seq<char> {
        self.required@
    }
}

impl View for CPU {
    type V = Seq<char>;

    open spec fn view(&self) -> Seq<char> {
        self.deep_view()
    }
}

/// Memory describes the memory allocation for a container.
///
/// It indicates the required amount of memory for a container to operate.
#[derive(Clone, Debug)]
pub struct Memory {
    pub required: String,
}

impl DeepView for Memory {
    type V = Seq<char>;

    /// The required quantity.
    open spec fn deep_view(&self) -> Seq<char> {
        self.required@
    }
}

impl View for Memory {
    type V = Seq<char>;

    open spec fn view(&self) -> Seq<char> {
        self.deep_view()
    }
}

/// GPU describes a Container's need for a GPU.
///
/// It indicates how many (if any) GPU cores a container needs to operate.
#[derive(Clone, Debug)]
pub struct GPU {
    pub required: String,
}

impl DeepView for GPU {
    type V = Seq<char>;

    /// The required quantity.
    open spec fn deep_view(&self) -> Seq<char> {
        self.required@
    }
}

impl View for GPU {
    type V = Seq<char>;

    open spec fn view(&self) -> Seq<char> {
        self.deep_view()
    }
}

/// Resources defines the resources required by a container.
#[derive(Clone, Debug)]
pub struct Resources {
    pub cpu: CPU,
    pub memory: Memory,
    pub gpu: GPU,
    pub paths: Vec<Path>,
}

/// The mathematical value of a `Resources`: the three required quantities
/// and the paths.
#[verifier::ext_equal]
pub struct ResourcesView {
    pub cpu: Seq<char>,
    pub memory: Seq<char>,
    pub gpu: Seq<char>,
    pub paths: Seq<PathView>,
}

impl DeepView for Resources {
    type V = ResourcesView;

    open spec fn deep_view(&self) -> ResourcesView {
        ResourcesView {
            cpu: self.cpu@,
            memory: self.memory@,
            gpu: self.gpu@,
            paths: self.paths.deep_view(),
        }
    }
}

impl View for Resources {
    type V = ResourcesView;

    open spec fn view(&self) -> ResourcesView {
        self.deep_view()
    }
}

impl ResourcesView {
    /// The resources of a container that names none: one CPU, one gigabyte
    /// of memory, no GPU and no paths.
    pub open spec fn spec_default() -> ResourcesView {
        ResourcesView { cpu: "1"@, memory: "1G"@, gpu: "0"@, paths: Seq::empty() }
    }

    /// The requests of a container with these resources: the CPU quantity
    /// under `cpu` and the memory quantity under `memory`, as they stand.
    /// There are no limits, and neither the GPU nor the paths are carried.
    pub open spec fn to_resource_requirements(self) -> ResourceRequirementsView {
        ResourceRequirementsView {
            limits: None,
            requests: Some(
                seq![
                    ResourceQuantityView { name: "cpu"@, quantity: self.cpu },
                    ResourceQuantityView { name: "memory"@, quantity: self.memory },
                ],
            ),
        }
    }
}

impl Resources {
    /// The resource requirements of a container with these resources.
    pub fn to_resource_requirements(&self) -> (r: ResourceRequirements)
        ensures
            r@ == self@.to_resource_requirements(),
            r@.well_formed(),
    {
        let mut requests: Vec<ResourceQuantity> = Vec::new();
        requests.push(
            ResourceQuantity { name: "cpu".to_owned(), quantity: self.cpu.required.clone() },
        );
        requests.push(
            ResourceQuantity { name: "memory".to_owned(), quantity: self.memory.required.clone() },
        );
        proof {
            assert(requests.deep_view() =~= self@.to_resource_requirements().requests->Some_0);
            lemma_requests_well_formed(self@);
        }
        ResourceRequirements { limits: None, requests: Some(requests) }
    }
}

/// The requests of any resources name `cpu` and `memory` once each, so that
/// they are a map with exactly these two keys.
pub proof fn lemma_requests_well_formed(r: ResourcesView)
    ensures
        r.to_resource_requirements().well_formed(),
        r.to_resource_requirements().requests->Some_0.len() == 2,
{
    reveal_strlit("cpu");
    reveal_strlit("memory");
    let entries = r.to_resource_requirements().requests->Some_0;
    assert(entries[0].name.len() != entries[1].name.len());
    assert(names_distinct(entries));
}

impl Default for Resources {
    fn default() -> (r: Self)
        ensures
            r@ == ResourcesView::spec_default(),
    {
        Resources {
            cpu: CPU { required: "1".to_owned() },
            memory: Memory { required: "1G".to_owned() },
            gpu: GPU { required: "0".to_owned() },
            paths: Vec::new(),
        }
    }
}

} // verus!
