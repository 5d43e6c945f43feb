use vstd::prelude::*;

use crate::port::{port_probe, port_probe_spec, PortProbe};

verus! {

/// The ports of the inclusive range `start..=end`, in ascending order.
pub open spec fn port_range(start: u16, end: u16) -> Seq<u16> {
    if start > end {
        Seq::empty()
    } else {
        Seq::new((end - start + 1) as nat, |i: int| (start + i) as u16)
    }
}

/// The ports that a scan of `start..=end` probes, one each, in ascending order;
/// none when `start > end`.
pub fn scan_ports(start: u16, end: u16) -> (r: Vec<u16>)
    ensures
        r@ == port_range(start, end),
{
    let mut r: Vec<u16> = Vec::new();
    if start > end {
        return r;
    }
    let mut p: u16 = start;
    loop
        invariant_except_break
            start <= p <= end,
            r@ == port_range(start, end).take(p - start),
        ensures
            r@ == port_range(start, end),
        decreases end - p,
    {
        r.push(p);
        assert(r@ == port_range(start, end).take(p - start + 1));
        if p == end {
            assert(r@ == port_range(start, end));
            break;
        }
        p = p + 1;
    }
    r
}

/// The probes of a scan of `start..=end` on `host`: one per port, in port order,
/// each with the same wait.
pub open spec fn scan_spec(host: Seq<char>, start: u16, end: u16, timeout_ms: u64) -> Seq<(Seq<char>, u16, u64)> {
    port_range(start, end).map_values(|p: u16| port_probe_spec(host, p, timeout_ms))
}

/// Plans a scan of the ports `start..=end` on `host`: one probe per port, in
/// ascending order, with no early exit; no probe at all when `start > end`.
pub fn scan_plan(host: &str, start: u16, end: u16, timeout_ms: u64) -> (r: Vec<PortProbe>)
    ensures
        r@.map_values(|q: PortProbe| q@) == scan_spec(host@, start, end, timeout_ms),
{
    let ports = scan_ports(start, end);
    let mut r: Vec<PortProbe> = Vec::new();
    let mut i: usize = 0;
    while i < ports.len()
        invariant
            i <= ports@.len(),
            ports@ == port_range(start, end),
            r@.len() == i,
            forall|j: int| 0 <= j < i ==> #[trigger] r@[j]@ == port_probe_spec(host@, ports@[j], timeout_ms),
        decreases ports@.len() - i,
    {
        r.push(port_probe(host, ports[i], timeout_ms));
        i = i + 1;
    }
    assert(r@.map_values(|q: PortProbe| q@) =~= scan_spec(host@, start, end, timeout_ms));
    r
}

/// A scan whose start lies above its end probes nothing.
pub proof fn lemma_scan_reversed_range_is_empty(host: Seq<char>, start: u16, end: u16, timeout_ms: u64)
    requires
        start > end,
    ensures
        scan_spec(host, start, end, timeout_ms).len() == 0,
{
}

/// A scan whose start equals its end makes exactly one probe, the same one
/// that a direct check of that port with the same wait makes.
pub proof fn lemma_scan_single_port_is_direct_check(host: Seq<char>, port: u16, timeout_ms: u64)
    ensures
        scan_spec(host, port, port, timeout_ms) == seq![port_probe_spec(host, port, timeout_ms)],
{
    assert(scan_spec(host, port, port, timeout_ms) =~= seq![port_probe_spec(host, port, timeout_ms)]);
}

} // verus!
