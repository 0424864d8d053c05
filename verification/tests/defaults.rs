use hydra_schematic::{
    default_required, AccessMode, Component, HealthProbe, HydraStatus, ParameterType,
    PortProtocol, Resources, SharingPolicy, Status, DEFAULT_WORKLOAD_TYPE,
};

#[test]
fn default_workload_type_is_the_singleton() {
    assert_eq!(DEFAULT_WORKLOAD_TYPE, "core.hydra.io/v1alpha1.Singleton");
}

#[test]
fn default_component() {
    let c = Component::default();
    assert_eq!(c.workload_type, "core.hydra.io/v1alpha1.Singleton");
    assert_eq!(c.os_type, "linux");
    assert_eq!(c.arch, "amd64");
    assert!(c.parameters.is_empty());
    assert!(c.containers.is_empty());
    assert!(c.workload_settings.is_empty());
}

#[test]
fn default_resources() {
    let r = Resources::default();
    assert_eq!(r.cpu.required, "1");
    assert_eq!(r.memory.required, "1G");
    assert_eq!(r.gpu.required, "0");
    assert!(r.paths.is_empty());
}

#[test]
fn default_health_probe() {
    let p = HealthProbe::default();
    assert!(p.exec_.is_none());
    assert!(p.http_get.is_none());
    assert!(p.tcp_socket.is_none());
    assert_eq!(p.initial_delay_seconds, 0);
    assert_eq!(p.period_seconds, 10);
    assert_eq!(p.timeout_seconds, 1);
    assert_eq!(p.success_threshold, 1);
    assert_eq!(p.failure_threshold, 3);
}

#[test]
fn default_port_protocol_is_tcp() {
    assert_eq!(PortProtocol::default(), PortProtocol::TCP);
}

#[test]
fn default_access_mode_is_read_write() {
    assert_eq!(AccessMode::default(), AccessMode::RW);
}

#[test]
fn default_sharing_policy_is_exclusive() {
    assert_eq!(SharingPolicy::default(), SharingPolicy::Exclusive);
}

#[test]
fn parameters_are_not_required_by_default() {
    assert!(!default_required());
}

#[test]
fn default_status_has_no_phase() {
    assert!(HydraStatus::default().phase.is_none());
    let status: Status = Some(HydraStatus::default());
    assert!(status.unwrap().phase.is_none());
}

#[test]
fn port_protocol_tokens() {
    assert_eq!(PortProtocol::TCP.as_str(), "TCP");
    assert_eq!(PortProtocol::UDP.as_str(), "UDP");
    assert_eq!(PortProtocol::SCTP.as_str(), "SCTP");
    assert_eq!(PortProtocol::TCP.to_string(), "TCP");
    assert_eq!(PortProtocol::UDP.to_string(), "UDP");
    assert_eq!(PortProtocol::SCTP.to_string(), "SCTP");
}

#[test]
fn enums_compare_by_variant() {
    assert_ne!(PortProtocol::TCP, PortProtocol::UDP);
    assert_ne!(AccessMode::RW, AccessMode::RO);
    assert_ne!(SharingPolicy::Shared, SharingPolicy::Exclusive);
    assert_ne!(ParameterType::Boolean, ParameterType::Null);
    assert_eq!(ParameterType::String, ParameterType::String);
    assert_eq!(ParameterType::Number, ParameterType::Number);
}
