//! Host diagnostics: the plans, arguments and verdicts of DNS, ping, TCP port,
//! HTTP header and port-range probes, and of the bundled full check.

pub mod bundle;
pub mod http;
pub mod ping;
pub mod port;
pub mod scan;
pub mod text;
