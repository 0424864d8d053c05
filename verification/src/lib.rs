//! Component schematics for Hydra, and their projection onto a pod template.
//!
//! A schematic describes the containers of an application component. The
//! types of the schematic stand in `component`, `container`, `parameter`,
//! `probe` and `resources`; `pod` holds the pod template that
//! `Component::to_pod_spec` fills from a schematic, and `gvk` the identifiers
//! of resource types.

pub mod component;
pub mod container;
pub mod gvk;
pub mod parameter;
pub mod pod;
pub mod probe;
pub mod resources;
pub mod text;

pub use crate::component::{
    Application, Component, HydraStatus, Status, Trait, DEFAULT_WORKLOAD_TYPE,
};
pub use crate::container::{Container, Env, Port, PortProtocol};
pub use crate::gvk::{FormatError, GroupVersionKind};
pub use crate::parameter::{default_required, Parameter, ParameterType, WorkloadSetting};
pub use crate::probe::{Exec, HealthProbe, HttpGet, HttpHeader, TcpSocket};
pub use crate::resources::{AccessMode, Memory, Path, Resources, SharingPolicy, CPU, GPU};
