//! Choosing the transport and judging what happens on it.
//!
//! Three tiers can be configured: a VM socket, a socket in the local file
//! system, and an IP address. Exactly one is used: the most trusted one
//! that is configured. If it fails, the run fails; a less trusted tier is
//! never tried in its place.

use vstd::prelude::*;
use vstd::string::*;
use crate::error::TransportError;
use crate::manifest::ConfigError;
use crate::settings::GlobalSettings;

verus! {

/// The kinds of transport, most trusted first.
#[derive(Clone, Copy, Debug, PartialEq, Eq, Structural)]
pub enum TransportTier {
    VmSocket,
    LocalSocket,
    Ip,
}

/// The addresses given on the command line, one per tier at most.
#[derive(Clone, Debug)]
pub struct TransportConfig {
    /// The context identifier of the VM socket's peer.
    pub vsock_address: Option<u32>,
    /// The path of the local socket.
    pub unix_socket: Option<String>,
    /// The IP address.
    pub ip_address: Option<String>,
}

/// The address that is used.
#[derive(Clone, Debug)]
pub enum Endpoint {
    VmSocket { cid: u32, port: u32 },
    LocalSocket { path: String },
    Ip { address: String, tcp_port: u16 },
}

/// An endpoint as contracts see it.
pub enum EndpointView {
    VmSocket { cid: u32, port: u32 },
    LocalSocket { path: Seq<char> },
    Ip { address: Seq<char>, tcp_port: u16 },
}

/// The largest port of the IP transport.
pub const IP_PORT_MAX: u32 = 65535;

impl View for Endpoint {
    type V = EndpointView;

    open spec fn view(&self) -> EndpointView {
        match *self {
            Endpoint::VmSocket { cid, port } => EndpointView::VmSocket { cid, port },
            Endpoint::LocalSocket { path } => EndpointView::LocalSocket { path: path@ },
            Endpoint::Ip { address, tcp_port } => EndpointView::Ip { address: address@, tcp_port },
        }
    }
}

/// The tier that is used when addresses for these tiers are configured.
pub open spec fn preferred_tier(vm_socket: bool, local_socket: bool, ip: bool) -> Option<
    TransportTier,
> {
    if vm_socket {
        Some(TransportTier::VmSocket)
    } else if local_socket {
        Some(TransportTier::LocalSocket)
    } else if ip {
        Some(TransportTier::Ip)
    } else {
        None
    }
}

/// The position of a tier in the order of trust: smaller is more trusted.
pub open spec fn rank(tier: TransportTier) -> nat {
    match tier {
        TransportTier::VmSocket => 0,
        TransportTier::LocalSocket => 1,
        TransportTier::Ip => 2,
    }
}

/// The tier of an endpoint.
pub open spec fn tier_of(endpoint: EndpointView) -> TransportTier {
    match endpoint {
        EndpointView::VmSocket { .. } => TransportTier::VmSocket,
        EndpointView::LocalSocket { .. } => TransportTier::LocalSocket,
        EndpointView::Ip { .. } => TransportTier::Ip,
    }
}

/// Whether a listener on this endpoint leaves a file behind.
pub open spec fn leaves_artifact(endpoint: EndpointView) -> bool {
    endpoint is LocalSocket
}

impl TransportConfig {
    /// The tier this configuration selects.
    pub open spec fn tier(&self) -> Option<TransportTier> {
        preferred_tier(
            self.vsock_address is Some,
            self.unix_socket is Some,
            self.ip_address is Some,
        )
    }

    /// What is wrong with this configuration for `port`, if anything: no
    /// address at all, or a port that the IP transport does not have. The
    /// port matters only where the IP transport is the one selected.
    pub open spec fn fault(&self, port: u32) -> Option<ConfigError> {
        match self.tier() {
            None => Some(ConfigError::NoTransportAddress),
            Some(TransportTier::Ip) => if port > IP_PORT_MAX {
                Some(ConfigError::PortOutOfRange { port })
            } else {
                None
            },
            Some(_) => None,
        }
    }

    /// The endpoint this configuration selects for `port`.
    pub open spec fn endpoint(&self, port: u32) -> Option<EndpointView> {
        if self.vsock_address is Some {
            Some(EndpointView::VmSocket { cid: self.vsock_address->0, port })
        } else if self.unix_socket is Some {
            Some(EndpointView::LocalSocket { path: self.unix_socket->0@ })
        } else if self.ip_address is Some && port <= IP_PORT_MAX {
            Some(EndpointView::Ip { address: self.ip_address->0@, tcp_port: port as u16 })
        } else {
            None
        }
    }
}

/// What was found at the path of a local socket before binding.
#[derive(Clone, Copy, Debug, PartialEq, Eq, Structural)]
pub enum PathProbe {
    /// Nothing exists at the path.
    Free,
    /// Something exists, and a connection to it was answered.
    Live,
    /// Something exists, and nothing answers there.
    Stale,
}

/// How to bind.
#[derive(Clone, Copy, Debug, PartialEq, Eq, Structural)]
pub enum BindDecision {
    /// Bind.
    Bind,
    /// Remove what is at the path, then bind.
    RemoveThenBind,
    /// Do not bind.
    Refuse { error: TransportError },
}

/// How to bind a listener on a tier, given what was found at its path.
/// Only a local socket has a path; what is found there is removed only if
/// nothing answers.
pub open spec fn bind_decision(tier: TransportTier, probe: PathProbe) -> BindDecision {
    if tier != TransportTier::LocalSocket {
        BindDecision::Bind
    } else {
        match probe {
            PathProbe::Free => BindDecision::Bind,
            PathProbe::Stale => BindDecision::RemoveThenBind,
            PathProbe::Live => BindDecision::Refuse { error: TransportError::AddressInUse },
        }
    }
}

/// What a connection attempt has come to so far.
#[derive(Clone, Copy, Debug, PartialEq, Eq, Structural)]
pub enum ConnectAttempt {
    /// The connection stands.
    Connected,
    /// The peer refused.
    Refused,
    /// The address cannot be reached.
    Unreachable,
    /// No answer yet.
    Pending,
}

/// What to make of a connection attempt.
#[derive(Clone, Copy, Debug, PartialEq, Eq, Structural)]
pub enum ConnectVerdict {
    /// Use the connection.
    Proceed,
    /// Keep waiting.
    Wait,
    /// Give up.
    Fail { error: TransportError },
}

/// What to make of a connection attempt after `elapsed` seconds with a
/// timeout of `timeout` seconds. Waiting ends with a timeout, which is
/// told apart from a refusal and from an unreachable address.
pub open spec fn connect_verdict(attempt: ConnectAttempt, elapsed: u64, timeout: u32)
    -> ConnectVerdict {
    match attempt {
        ConnectAttempt::Connected => ConnectVerdict::Proceed,
        ConnectAttempt::Refused => ConnectVerdict::Fail { error: TransportError::Refused },
        ConnectAttempt::Unreachable => ConnectVerdict::Fail { error: TransportError::Unreachable },
        ConnectAttempt::Pending => if elapsed >= timeout {
            ConnectVerdict::Fail { error: TransportError::Timeout }
        } else {
            ConnectVerdict::Wait
        },
    }
}

/// Selects the transport and judges what happens on it.
#[derive(Debug)]
pub struct TransportNegotiator {
    endpoint: Endpoint,
    timeout_seconds: u32,
}

impl TransportNegotiator {
    /// The endpoint in use.
    pub closed spec fn chosen(&self) -> EndpointView {
        self.endpoint@
    }

    /// The seconds a connection attempt may take.
    pub closed spec fn timeout(&self) -> u32 {
        self.timeout_seconds
    }

    /// Selects the endpoint: the VM socket if its address is given, else
    /// the local socket if its path is given, else the IP address. With no
    /// address at all there is nothing to select, and the IP transport
    /// needs a port of its own range.
    pub fn new(config: TransportConfig, settings: &GlobalSettings) -> (made: Result<
        TransportNegotiator,
        ConfigError,
    >)
        ensures
            match made {
                Ok(negotiator) => {
                    &&& config.fault(settings.socket_port) is None
                    &&& config.endpoint(settings.socket_port) == Some(negotiator.chosen())
                    &&& config.tier() == Some(tier_of(negotiator.chosen()))
                    &&& negotiator.timeout() == settings.timeout_seconds
                },
                Err(e) => config.fault(settings.socket_port) == Some(e),
            },
    {
        let port = settings.socket_port;
        let endpoint = match config.vsock_address {
            Some(cid) => Endpoint::VmSocket { cid, port },
            None => match config.unix_socket {
                Some(path) => Endpoint::LocalSocket { path },
                None => match config.ip_address {
                    Some(address) => {
                        if port > IP_PORT_MAX {
                            return Err(ConfigError::PortOutOfRange { port });
                        }
                        Endpoint::Ip { address, tcp_port: port as u16 }
                    },
                    None => {
                        return Err(ConfigError::NoTransportAddress);
                    },
                },
            },
        };
        Ok(TransportNegotiator { endpoint, timeout_seconds: settings.timeout_seconds })
    }

    /// The endpoint in use.
    pub fn endpoint(&self) -> (endpoint: &Endpoint)
        ensures
            endpoint@ == self.chosen(),
    {
        &self.endpoint
    }

    /// The seconds a connection attempt may take.
    pub fn timeout_seconds(&self) -> (seconds: u32)
        ensures
            seconds == self.timeout(),
    {
        self.timeout_seconds
    }

    /// The tier in use.
    pub fn tier(&self) -> (tier: TransportTier)
        ensures
            tier == tier_of(self.chosen()),
    {
        match self.endpoint {
            Endpoint::VmSocket { .. } => TransportTier::VmSocket,
            Endpoint::LocalSocket { .. } => TransportTier::LocalSocket,
            Endpoint::Ip { .. } => TransportTier::Ip,
        }
    }

    /// Whether a listener on the endpoint leaves a file that must be
    /// removed at exit.
    pub fn leaves_artifact(&self) -> (leaves: bool)
        ensures
            leaves == leaves_artifact(self.chosen()),
    {
        match self.endpoint {
            Endpoint::LocalSocket { .. } => true,
            _ => false,
        }
    }

    /// Whether the path of the endpoint is to be looked at before binding.
    pub fn needs_probe(&self) -> (needed: bool)
        ensures
            needed == (tier_of(self.chosen()) == TransportTier::LocalSocket),
    {
        self.leaves_artifact()
    }

    /// How to bind, given what was found at the endpoint's path.
    pub fn decide_bind(&self, probe: PathProbe) -> (decision: BindDecision)
        ensures
            decision == bind_decision(tier_of(self.chosen()), probe),
    {
        match self.endpoint {
            Endpoint::LocalSocket { .. } => match probe {
                PathProbe::Free => BindDecision::Bind,
                PathProbe::Stale => BindDecision::RemoveThenBind,
                PathProbe::Live => BindDecision::Refuse { error: TransportError::AddressInUse },
            },
            _ => BindDecision::Bind,
        }
    }

    /// What to make of a connection attempt after `elapsed` seconds.
    pub fn judge_connect(&self, attempt: ConnectAttempt, elapsed: u64) -> (verdict: ConnectVerdict)
        ensures
            verdict == connect_verdict(attempt, elapsed, self.timeout()),
    {
        match attempt {
            ConnectAttempt::Connected => ConnectVerdict::Proceed,
            ConnectAttempt::Refused => ConnectVerdict::Fail { error: TransportError::Refused },
            ConnectAttempt::Unreachable => ConnectVerdict::Fail {
                error: TransportError::Unreachable,
            },
            ConnectAttempt::Pending => {
                if elapsed >= self.timeout_seconds as u64 {
                    ConnectVerdict::Fail { error: TransportError::Timeout }
                } else {
                    ConnectVerdict::Wait
                }
            },
        }
    }
}

/// The tier in use is the most trusted one that is configured: no
/// configured tier is more trusted than it.
pub proof fn lemma_strict_priority(vm_socket: bool, local_socket: bool, ip: bool)
    ensures
        match preferred_tier(vm_socket, local_socket, ip) {
            Some(tier) => {
                &&& vm_socket ==> rank(tier) <= rank(TransportTier::VmSocket)
                &&& local_socket ==> rank(tier) <= rank(TransportTier::LocalSocket)
                &&& ip ==> rank(tier) <= rank(TransportTier::Ip)
                &&& tier == TransportTier::VmSocket ==> vm_socket
                &&& tier == TransportTier::LocalSocket ==> local_socket
                &&& tier == TransportTier::Ip ==> ip
            },
            None => !vm_socket && !local_socket && !ip,
        },
{
}

/// Less trusted addresses play no part: with a more trusted address
/// configured, the selection is the same whether or not they are given.
pub proof fn lemma_no_fallback(local_socket: bool, ip: bool, other_ip: bool)
    ensures
        preferred_tier(true, local_socket, ip) == Some(TransportTier::VmSocket),
        preferred_tier(false, true, ip) == preferred_tier(false, true, other_ip),
{
}

/// What exists at a local socket's path is removed only if nothing
/// answers there, and a live socket is never taken over.
pub proof fn lemma_rebind_only_when_stale(tier: TransportTier, probe: PathProbe)
    ensures
        bind_decision(tier, probe) == BindDecision::RemoveThenBind <==> tier
            == TransportTier::LocalSocket && probe == PathProbe::Stale,
        tier == TransportTier::LocalSocket && probe == PathProbe::Live ==> bind_decision(tier, probe)
            is Refuse,
{
}

/// A timeout is reported only after the configured time has passed
/// without an answer, and never for a refusal or an unreachable address.
pub proof fn lemma_timeout_is_distinct(attempt: ConnectAttempt, elapsed: u64, timeout: u32)
    ensures
        connect_verdict(attempt, elapsed, timeout) == (ConnectVerdict::Fail {
            error: TransportError::Timeout,
        }) <==> attempt == ConnectAttempt::Pending && elapsed >= timeout,
{
}

} // verus!
