//! Health probes of a container, and their encoding as pod probes.

use crate::pod::{
    ExecAction, ExecActionView, HTTPGetAction, HTTPGetActionView, HTTPHeader, HTTPHeaderView,
    IntOrString, IntOrStringView, Probe, ProbeView, TCPSocketAction, TCPSocketActionView,
};
use vstd::prelude::*;

verus! {

/// Exec describes a shell command, as an array, for execution in a Container.
#[derive(Clone, Debug)]
pub struct Exec {
    pub command: Vec<String>,
}

/// The mathematical value of an `Exec`: the words of its command.
#[verifier::ext_equal]
pub struct ExecView {
    pub command: Seq<Seq<char>>,
}

impl DeepView for Exec {
    type V = ExecView;

    open spec fn deep_view(&self) -> ExecView {
        ExecView { command: self.command.deep_view() }
    }
}

impl View for Exec {
    type V = ExecView;

    open spec fn view(&self) -> ExecView {
        self.deep_view()
    }
}

impl ExecView {
    /// The pod's exec action with the same command.
    pub open spec fn to_exec_action(self) -> ExecActionView {
        ExecActionView { command: Some(self.command) }
    }
}

impl Exec {
    /// The pod's exec action with the same command.
    pub fn to_exec_action(&self) -> (r: ExecAction)
        ensures
            r@ == self@.to_exec_action(),
    {
        let command = self.command.clone();
        assert(command@ =~= self.command@);
        ExecAction { command: Some(command) }
    }
}

/// HttpHeader describes an HTTP header.
///
/// Headers are not stored as a map of name/value because the same header is allowed
/// multiple times.
#[derive(Clone, Debug)]
pub struct HttpHeader {
    pub name: String,
    pub value: String,
}

/// An `HttpHeader` as texts.
pub struct HttpHeaderView {
    pub name: Seq<char>,
    pub value: Seq<char>,
}

impl DeepView for HttpHeader {
    type V = HttpHeaderView;

    open spec fn deep_view(&self) -> HttpHeaderView {
        HttpHeaderView { name: self.name@, value: self.value@ }
    }
}

impl View for HttpHeader {
    type V = HttpHeaderView;

    open spec fn view(&self) -> HttpHeaderView {
        self.deep_view()
    }
}

impl HttpHeaderView {
    /// The pod's header with the same name and value.
    pub open spec fn to_kube_header(self) -> HTTPHeaderView {
        HTTPHeaderView { name: self.name, value: self.value }
    }
}

impl HttpHeader {
    /// The pod's header with the same name and value.
    pub fn to_kube_header(&self) -> (r: HTTPHeader)
        ensures
            r@ == self@.to_kube_header(),
    {
        HTTPHeader { name: self.name.clone(), value: self.value.clone() }
    }
}

/// HttpGet describes an HTTP GET request used to probe a container.
#[derive(Clone, Debug)]
pub struct HttpGet {
    pub path: String,
    pub port: i32,
    pub http_headers: Vec<HttpHeader>,
}

/// The mathematical value of an `HttpGet`.
#[verifier::ext_equal]
pub struct HttpGetView {
    pub path: Seq<char>,
    pub port: i32,
    pub http_headers: Seq<HttpHeaderView>,
}

impl DeepView for HttpGet {
    type V = HttpGetView;

    open spec fn deep_view(&self) -> HttpGetView {
        HttpGetView {
            path: self.path@,
            port: self.port,
            http_headers: self.http_headers.deep_view(),
        }
    }
}

impl View for HttpGet {
    type V = HttpGetView;

    open spec fn view(&self) -> HttpGetView {
        self.deep_view()
    }
}

impl HttpGetView {
    /// The pod's HTTP GET action: the same path, the port as a number, and
    /// the headers one for one, in their order.
    pub open spec fn to_http_get_action(self) -> HTTPGetActionView {
        HTTPGetActionView {
            http_headers: Some(
                Seq::new(self.http_headers.len(), |i: int| self.http_headers[i].to_kube_header()),
            ),
            path: Some(self.path),
            port: IntOrStringView::Int(self.port),
        }
    }
}

impl HttpGet {
    /// The pod's HTTP GET action for this request.
    pub fn to_http_get_action(&self) -> (r: HTTPGetAction)
        ensures
            r@ == self@.to_http_get_action(),
    {
        let mut headers: Vec<HTTPHeader> = Vec::new();
        let n = self.http_headers.len();
        let mut i: usize = 0;
        while i < n
            invariant
                n == self.http_headers.len(),
                i <= n,
                headers.len() == i,
                forall|j: int|
                    0 <= j < i ==> (#[trigger] headers[j])@ == self.http_headers[j]@.to_kube_header(),
            decreases n - i,
        {
            headers.push(self.http_headers[i].to_kube_header());
            i = i + 1;
        }
        assert(headers.deep_view() =~= self@.to_http_get_action().http_headers->Some_0);
        HTTPGetAction {
            http_headers: Some(headers),
            path: Some(self.path.clone()),
            port: IntOrString::Int(self.port),
        }
    }
}

/// TcpSocket defines a socket used for health probing.
#[derive(Clone, Debug)]
pub struct TcpSocket {
    pub port: i32,
}

/// The mathematical value of a `TcpSocket`.
pub struct TcpSocketView {
    pub port: i32,
}

impl DeepView for TcpSocket {
    type V = TcpSocketView;

    open spec fn deep_view(&self) -> TcpSocketView {
        TcpSocketView { port: self.port }
    }
}

impl View for TcpSocket {
    type V = TcpSocketView;

    open spec fn view(&self) -> TcpSocketView {
        self.deep_view()
    }
}

impl TcpSocketView {
    /// The pod's TCP socket action, with the port as a number.
    pub open spec fn to_tcp_socket_action(self) -> TCPSocketActionView {
        TCPSocketActionView { port: IntOrStringView::Int(self.port) }
    }
}

impl TcpSocket {
    /// The pod's TCP socket action for this socket.
    pub fn to_tcp_socket_action(&self) -> (r: TCPSocketAction)
        ensures
            r@ == self@.to_tcp_socket_action(),
    {
        TCPSocketAction { port: IntOrString::Int(self.port) }
    }
}

/// HealthProbe describes a probe used to check on the health of a Container.
#[derive(Clone, Debug)]
pub struct HealthProbe {
    /// The command to run, on the wire under `exec`.
    pub exec_: Option<Exec>,
    pub http_get: Option<HttpGet>,
    pub tcp_socket: Option<TcpSocket>,
    pub initial_delay_seconds: i32,
    pub period_seconds: i32,
    pub timeout_seconds: i32,
    pub success_threshold: i32,
    pub failure_threshold: i32,
}

/// The mathematical value of a `HealthProbe`.
#[verifier::ext_equal]
pub struct HealthProbeView {
    pub exec_: Option<ExecView>,
    pub http_get: Option<HttpGetView>,
    pub tcp_socket: Option<TcpSocketView>,
    pub initial_delay_seconds: i32,
    pub period_seconds: i32,
    pub timeout_seconds: i32,
    pub success_threshold: i32,
    pub failure_threshold: i32,
}

impl DeepView for HealthProbe {
    type V = HealthProbeView;

    open spec fn deep_view(&self) -> HealthProbeView {
        HealthProbeView {
            exec_: self.exec_.deep_view(),
            http_get: self.http_get.deep_view(),
            tcp_socket: self.tcp_socket.deep_view(),
            initial_delay_seconds: self.initial_delay_seconds,
            period_seconds: self.period_seconds,
            timeout_seconds: self.timeout_seconds,
            success_threshold: self.success_threshold,
            failure_threshold: self.failure_threshold,
        }
    }
}

impl View for HealthProbe {
    type V = HealthProbeView;

    open spec fn view(&self) -> HealthProbeView {
        self.deep_view()
    }
}

impl HealthProbeView {
    /// The probe that names nothing: no action, no initial delay, a period
    /// of ten seconds, a timeout of one second, one success to pass and
    /// three failures to fail.
    pub open spec fn spec_default() -> HealthProbeView {
        HealthProbeView {
            exec_: None,
            http_get: None,
            tcp_socket: None,
            initial_delay_seconds: 0,
            period_seconds: 10,
            timeout_seconds: 1,
            success_threshold: 1,
            failure_threshold: 3,
        }
    }

    /// The pod's probe: each of the five numbers is set, and each action is
    /// there exactly if it is there in the health probe.
    pub open spec fn to_probe(self) -> ProbeView {
        ProbeView {
            exec_: match self.exec_ {
                Some(e) => Some(e.to_exec_action()),
                None => None,
            },
            failure_threshold: Some(self.failure_threshold),
            http_get: match self.http_get {
                Some(g) => Some(g.to_http_get_action()),
                None => None,
            },
            initial_delay_seconds: Some(self.initial_delay_seconds),
            period_seconds: Some(self.period_seconds),
            success_threshold: Some(self.success_threshold),
            tcp_socket: match self.tcp_socket {
                Some(t) => Some(t.to_tcp_socket_action()),
                None => None,
            },
            timeout_seconds: Some(self.timeout_seconds),
        }
    }
}

impl HealthProbe {
    /// The pod's probe for this health probe.
    pub fn to_probe(&self) -> (r: Probe)
        ensures
            r@ == self@.to_probe(),
    {
        Probe {
            failure_threshold: Some(self.failure_threshold),
            period_seconds: Some(self.period_seconds),
            timeout_seconds: Some(self.timeout_seconds),
            success_threshold: Some(self.success_threshold),
            initial_delay_seconds: Some(self.initial_delay_seconds),
            exec_: match &self.exec_ {
                Some(e) => Some(e.to_exec_action()),
                None => None,
            },
            http_get: match &self.http_get {
                Some(g) => Some(g.to_http_get_action()),
                None => None,
            },
            tcp_socket: match &self.tcp_socket {
                Some(t) => Some(t.to_tcp_socket_action()),
                None => None,
            },
        }
    }
}

impl Default for HealthProbe {
    fn default() -> (r: Self)
        ensures
            r@ == HealthProbeView::spec_default(),
    {
        HealthProbe {
            exec_: None,
            http_get: None,
            tcp_socket: None,
            initial_delay_seconds: 0,
            period_seconds: 10,
            timeout_seconds: 1,
            success_threshold: 1,
            failure_threshold: 3,
        }
    }
}

} // verus!
