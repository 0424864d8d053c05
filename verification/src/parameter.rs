//! Parameters of a component, and the settings of its workload.

use vstd::prelude::*;

verus! {

/// A JSON value of any shape, as `serde_json` holds it. The schematic only
/// carries such a value: nothing here looks inside it.
#[verifier::external_type_specification]
#[verifier::external_body]
pub struct ExJsonValue(serde_json::Value);

/// ParameterType defines the types of parameters for a Parameters object.
///
/// These roughly correlate with JSON Schema primitive types.
#[derive(Clone, Copy, Debug, PartialEq, Eq, Structural)]
pub enum ParameterType {
    Boolean,
    String,
    Number,
    Null,
}

/// Supplies the default value for all required fields.
pub fn default_required() -> (r: bool)
    ensures
        !r,
{
    false
}

/// Parameter describes a configurable unit on a Component or Application.
///
/// Parameters have primitive types, and may be marked as required. Default values
/// may be provided as well.
#[derive(Clone, Debug)]
pub struct Parameter {
    pub name: String,
    pub description: Option<String>,
    pub parameter_type: ParameterType,
    pub required: bool,
    pub default: Option<serde_json::Value>,
}

/// The mathematical value of a `Parameter`. The default value is carried as
/// it is.
pub struct ParameterView {
    pub name: Seq<char>,
    pub description: Option<Seq<char>>,
    pub parameter_type: ParameterType,
    pub required: bool,
    pub default: Option<serde_json::Value>,
}

impl DeepView for Parameter {
    type V = ParameterView;

    open spec fn deep_view(&self) -> ParameterView {
        ParameterView {
            name: self.name@,
            description: self.description.deep_view(),
            parameter_type: self.parameter_type,
            required: self.required,
            default: self.default,
        }
    }
}

impl View for Parameter {
    type V = ParameterView;

    open spec fn view(&self) -> ParameterView {
        self.deep_view()
    }
}

/// Workload settings describe the configuration for a workload.
///
/// This information is passed to the underlying workload defined by Component::worload_type.
#[derive(Clone, Debug)]
pub struct WorkloadSetting {
    pub name: String,
    pub description: Option<String>,
    pub parameter_type: ParameterType,
    pub required: bool,
    pub default: Option<serde_json::Value>,
    pub from_param: Option<String>,
}

/// The mathematical value of a `WorkloadSetting`. The default value is
/// carried as it is.
pub struct WorkloadSettingView {
    pub name: Seq<char>,
    pub description: Option<Seq<char>>,
    pub parameter_type: ParameterType,
    pub required: bool,
    pub default: Option<serde_json::Value>,
    pub from_param: Option<Seq<char>>,
}

impl DeepView for WorkloadSetting {
    type V = WorkloadSettingView;

    open spec fn deep_view(&self) -> WorkloadSettingView {
        WorkloadSettingView {
            name: self.name@,
            description: self.description.deep_view(),
            parameter_type: self.parameter_type,
            required: self.required,
            default: self.default,
            from_param: self.from_param.deep_view(),
        }
    }
}

impl View for WorkloadSetting {
    type V = WorkloadSettingView;

    open spec fn view(&self) -> WorkloadSettingView {
        self.deep_view()
    }
}

} // verus!
