use vstd::prelude::*;
use vstd::string::*;

use crate::port::{port_probe, port_probe_spec, PortProbe};

verus! {

/// Echo requests sent by the full check.
pub const FULL_CHECK_PING_COUNT: u8 = 3;

/// Wait of each port probe of the full check.
pub const FULL_CHECK_PORT_TIMEOUT_MS: u64 = 800;

/// Wait of each header fetch of the full check.
pub const FULL_CHECK_HTTP_TIMEOUT_MS: u64 = 1500;

/// One step of a health check.
#[derive(Debug)]
pub enum Probe {
    Resolve { host: String },
    Ping { host: String, count: u8 },
    Port(PortProbe),
    Http { url: String, timeout_ms: u64 },
}

/// A step of a health check as a value.
pub enum ProbeView {
    Resolve(Seq<char>),
    Ping(Seq<char>, u8),
    Port((Seq<char>, u16, u64)),
    Http(Seq<char>, u64),
}

impl View for Probe {
    type V = ProbeView;

    open spec fn view(&self) -> ProbeView {
        match self {
            Probe::Resolve { host } => ProbeView::Resolve(host@),
            Probe::Ping { host, count } => ProbeView::Ping(host@, *count),
            Probe::Port(p) => ProbeView::Port(p@),
            Probe::Http { url, timeout_ms } => ProbeView::Http(url@, *timeout_ms),
        }
    }
}

/// The stage of the full check that a step belongs to: name resolution,
/// ping, common ports, then web checks.
pub open spec fn stage_spec(p: ProbeView) -> nat {
    match p {
        ProbeView::Resolve(_) => 1,
        ProbeView::Ping(_, _) => 2,
        ProbeView::Port(_) => 3,
        ProbeView::Http(_, _) => 4,
    }
}

/// The steps of the full check of `host`, in the order they run: resolve,
/// ping three times, probe ports 22, 80 and 443, then fetch the headers over
/// `http://` and `https://`.
pub open spec fn full_check_spec(host: Seq<char>) -> Seq<ProbeView> {
    seq![
        ProbeView::Resolve(host),
        ProbeView::Ping(host, FULL_CHECK_PING_COUNT),
        ProbeView::Port(port_probe_spec(host, 22, FULL_CHECK_PORT_TIMEOUT_MS)),
        ProbeView::Port(port_probe_spec(host, 80, FULL_CHECK_PORT_TIMEOUT_MS)),
        ProbeView::Port(port_probe_spec(host, 443, FULL_CHECK_PORT_TIMEOUT_MS)),
        ProbeView::Http("http://"@ + host, FULL_CHECK_HTTP_TIMEOUT_MS),
        ProbeView::Http("https://"@ + host, FULL_CHECK_HTTP_TIMEOUT_MS),
    ]
}

impl Probe {
    /// The stage this step belongs to, from 1 to 4.
    pub fn stage(&self) -> (r: u8)
        ensures
            r as nat == stage_spec(self@),
    {
        match self {
            Probe::Resolve { .. } => 1,
            Probe::Ping { .. } => 2,
            Probe::Port(_) => 3,
            Probe::Http { .. } => 4,
        }
    }
}

fn prefixed(prefix: &str, host: &str) -> (r: String)
    ensures
        r@ == prefix@ + host@,
{
    let mut r = String::from_str(prefix);
    r.append(host);
    r
}

/// Plans the full check of `host`. The plan is fixed by `host` alone: no step
/// waits on how an earlier one went, so every stage runs whatever fails.
pub fn full_check_plan(host: &str) -> (r: Vec<Probe>)
    ensures
        r@.map_values(|p: Probe| p@) == full_check_spec(host@),
{
    let mut r: Vec<Probe> = Vec::new();
    r.push(Probe::Resolve { host: String::from_str(host) });
    r.push(Probe::Ping { host: String::from_str(host), count: FULL_CHECK_PING_COUNT });
    r.push(Probe::Port(port_probe(host, 22, FULL_CHECK_PORT_TIMEOUT_MS)));
    r.push(Probe::Port(port_probe(host, 80, FULL_CHECK_PORT_TIMEOUT_MS)));
    r.push(Probe::Port(port_probe(host, 443, FULL_CHECK_PORT_TIMEOUT_MS)));
    r.push(Probe::Http { url: prefixed("http://", host), timeout_ms: FULL_CHECK_HTTP_TIMEOUT_MS });
    r.push(Probe::Http { url: prefixed("https://", host), timeout_ms: FULL_CHECK_HTTP_TIMEOUT_MS });
    assert(r@.map_values(|p: Probe| p@) =~= full_check_spec(host@));
    r
}

/// Some step of `plan` belongs to stage `s`.
pub open spec fn covers_stage(plan: Seq<ProbeView>, s: nat) -> bool {
    exists|i: int| 0 <= i < plan.len() && #[trigger] stage_spec(plan[i]) == s
}

/// The full check covers all four stages, each at least once, and runs them
/// in order: a step never comes before a step of an earlier stage.
pub proof fn lemma_full_check_runs_every_stage(host: Seq<char>)
    ensures
        full_check_spec(host).len() == 7,
        covers_stage(full_check_spec(host), 1),
        covers_stage(full_check_spec(host), 2),
        covers_stage(full_check_spec(host), 3),
        covers_stage(full_check_spec(host), 4),
        forall|i: int, j: int| 0 <= i <= j < 7 ==> stage_spec(#[trigger] full_check_spec(host)[i]) <= stage_spec(#[trigger] full_check_spec(host)[j]),
{
    let plan = full_check_spec(host);
    assert(stage_spec(plan[0]) == 1);
    assert(stage_spec(plan[1]) == 2);
    assert(stage_spec(plan[2]) == 3);
    assert(stage_spec(plan[5]) == 4);
}

} // verus!
