use vstd::prelude::*;

verus! {

/// First port of the dynamic/private range.
pub const FIRST_DYNAMIC_PORT: u16 = 49152;

/// End (exclusive) of the ports that are probed.
pub const PORT_SCAN_END: u16 = 65535;

pub open spec fn in_scan_range(p: int) -> bool {
    FIRST_DYNAMIC_PORT <= p < PORT_SCAN_END
}

/// Probes the ports of the dynamic range in ascending order and returns the
/// first one for which `probe` (a bind attempt that releases the socket at
/// once) succeeds, or `None` when every port refused.
pub fn find_available_port<F: Fn(u16) -> bool>(probe: F) -> (r: Option<u16>)
    requires
        forall|p: u16| #[trigger] probe.requires((p,)),
    ensures
        match r {
            Some(p) => {
                &&& in_scan_range(p as int)
                &&& probe.ensures((p,), true)
                &&& forall|q: u16| FIRST_DYNAMIC_PORT <= q < p ==> #[trigger] probe.ensures((q,), false)
            },
            None => forall|q: u16| #[trigger] in_scan_range(q as int) ==> probe.ensures((q,), false),
        },
{
    let mut port: u16 = FIRST_DYNAMIC_PORT;
    while port < PORT_SCAN_END
        invariant
            FIRST_DYNAMIC_PORT <= port <= PORT_SCAN_END,
            forall|p: u16| #[trigger] probe.requires((p,)),
            forall|q: u16| FIRST_DYNAMIC_PORT <= q < port ==> #[trigger] probe.ensures((q,), false),
        decreases PORT_SCAN_END - port,
    {
        if probe(port) {
            return Some(port);
        }
        port = port + 1;
    }
    assert forall|q: u16| #[trigger] in_scan_range(q as int) implies probe.ensures((q,), false) by {
        assert(FIRST_DYNAMIC_PORT <= q < port);
    }
    None
}

/// Concurrent flows get distinct ports. `ports[i]` is the port allocated to
/// the `i`-th flow, which its probe reported free (`reported_free(i, ports[i])`);
/// a port held by the live listener of an earlier flow is never reported free
/// to a later one, which is what the system's exclusive bind gives (a flow
/// that loses the race between its probe and its listener's bind publishes
/// the "server start failed" failure instead of sharing the port). Then no port is allocated twice, and the `n` flows hold
/// `n` distinct ports.
pub proof fn lemma_ports_distinct(ports: Seq<u16>, reported_free: spec_fn(int, u16) -> bool)
    requires
        forall|i: int| 0 <= i < ports.len() ==> #[trigger] reported_free(i, ports[i]),
        forall|i: int, j: int|
            0 <= j < i < ports.len() ==> !(#[trigger] reported_free(i, ports[j])),
    ensures
        ports.no_duplicates(),
        ports.to_set().len() == ports.len(),
{
    assert forall|a: int, b: int| 0 <= a < ports.len() && 0 <= b < ports.len() && a != b implies ports[a]
        != ports[b] by {
        if a < b {
            assert(reported_free(b, ports[b]));
            assert(!reported_free(b, ports[a]));
        } else {
            assert(reported_free(a, ports[a]));
            assert(!reported_free(a, ports[b]));
        }
    }
    ports.unique_seq_to_set();
}

} // verus!
