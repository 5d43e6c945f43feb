use vstd::prelude::*;
use vstd::string::*;

use crate::text::{decimal, decimal_text};

verus! {

/// The state of a TCP port as a probe reports it.
#[derive(PartialEq, Eq, Structural, Clone, Copy, Debug)]
pub enum PortStatus {
    Open,
    Closed,
}

/// Why a port check could not be carried out at all.
#[derive(PartialEq, Eq, Structural, Clone, Copy, Debug)]
pub enum PortCheckError {
    /// `host:port` is not a socket address.
    AddressParse,
}

/// What one connect-with-timeout attempt came to.
#[derive(PartialEq, Eq, Structural, Clone, Copy, Debug)]
pub enum ConnectAttempt {
    Connected,
    /// Refused, timed out, unreachable: every failure is alike here.
    Failed,
}

/// One TCP port probe: the target host, the port and the bounded wait.
#[derive(Debug)]
pub struct PortProbe {
    pub host: String,
    pub port: u16,
    pub timeout_ms: u64,
}

impl View for PortProbe {
    type V = (Seq<char>, u16, u64);

    open spec fn view(&self) -> (Seq<char>, u16, u64) {
        (self.host@, self.port, self.timeout_ms)
    }
}

/// The probe of `port` on `host`, waiting at most `timeout_ms`.
pub open spec fn port_probe_spec(host: Seq<char>, port: u16, timeout_ms: u64) -> (Seq<char>, u16, u64) {
    (host, port, timeout_ms)
}

/// The text of the socket address that a probe connects to: `host:port`.
pub open spec fn socket_addr_spec(host: Seq<char>, port: u16) -> Seq<char> {
    host + seq![':'] + decimal(port as nat)
}

/// The status that a port check reports: `None` when the address does not
/// parse, else the outcome of the one connect attempt.
pub open spec fn port_verdict_spec(attempt: Option<ConnectAttempt>) -> Result<PortStatus, PortCheckError> {
    match attempt {
        None => Err(PortCheckError::AddressParse),
        Some(ConnectAttempt::Connected) => Ok(PortStatus::Open),
        Some(ConnectAttempt::Failed) => Ok(PortStatus::Closed),
    }
}

/// Builds the probe of `port` on `host` with a wait of `timeout_ms`.
pub fn port_probe(host: &str, port: u16, timeout_ms: u64) -> (r: PortProbe)
    ensures
        r@ == port_probe_spec(host@, port, timeout_ms),
{
    PortProbe { host: String::from_str(host), port, timeout_ms }
}

impl PortProbe {
    /// The socket address text of this probe.
    pub fn addr_text(&self) -> (r: String)
        ensures
            r@ == socket_addr_spec(self.host@, self.port),
    {
        socket_addr_text(self.host.as_str(), self.port)
    }
}

/// Writes the socket address `host:port`.
pub fn socket_addr_text(host: &str, port: u16) -> (r: String)
    ensures
        r@ == socket_addr_spec(host@, port),
{
    let mut r = String::from_str(host);
    proof {
        reveal_strlit(":");
    }
    r.append(":");
    let digits = decimal_text(port as u64);
    r.append(digits.as_str());
    r
}

/// Decides a port check: an address that does not parse is an error, any
/// failed connection is `Closed`, and a connection made is `Open`.
pub fn port_verdict(attempt: Option<ConnectAttempt>) -> (r: Result<PortStatus, PortCheckError>)
    ensures
        r == port_verdict_spec(attempt),
        r == Err::<PortStatus, PortCheckError>(PortCheckError::AddressParse) <==> attempt is None,
        r == Ok::<PortStatus, PortCheckError>(PortStatus::Open) <==> attempt == Some(ConnectAttempt::Connected),
        r == Ok::<PortStatus, PortCheckError>(PortStatus::Closed) <==> attempt == Some(ConnectAttempt::Failed),
{
    match attempt {
        None => Err(PortCheckError::AddressParse),
        Some(ConnectAttempt::Connected) => Ok(PortStatus::Open),
        Some(ConnectAttempt::Failed) => Ok(PortStatus::Closed),
    }
}

impl PortStatus {
    /// The word printed for this status.
    pub fn label(&self) -> (r: &'static str)
        ensures
            *self == PortStatus::Open ==> r@ == "OPEN"@,
            *self == PortStatus::Closed ==> r@ == "CLOSED"@,
    {
        match self {
            PortStatus::Open => "OPEN",
            PortStatus::Closed => "CLOSED",
        }
    }
}

} // verus!
