use vstd::prelude::*;

verus! {

/// The allocated port, shared read-only with the UI layer.
pub struct FreePort(pub u16);

/// Returns the allocated port held by `state`.
pub fn get_port(state: &FreePort) -> (r: u16)
    ensures
        r == state.0,
{
    state.0
}

/// Why no port could be allocated.
#[derive(Debug, Clone, Copy, PartialEq, Eq, Structural)]
pub enum PortError {
    /// Every candidate of the range was found occupied (or the range was empty).
    NoFreePort,
}

/// Every answer that `probe` can give for port `q` says that it is free.
pub open spec fn always_free<F: Fn(u16) -> bool>(probe: F, q: u16) -> bool {
    forall|b: bool| #[trigger] probe.ensures((q,), b) ==> b
}

/// Every answer that `probe` can give for port `q` says that it is taken.
pub open spec fn always_occupied<F: Fn(u16) -> bool>(probe: F, q: u16) -> bool {
    forall|b: bool| #[trigger] probe.ensures((q,), b) ==> !b
}

/// Scans `[low, high)` in ascending order and returns the first candidate for
/// which `probe` reports that it could be bound.
///
/// `probe(p)` stands for a transient bind of `127.0.0.1:p`, released at once;
/// its answer may depend on the machine, so the contract speaks of the
/// answers that the probe gave.
pub fn find_port<F: Fn(u16) -> bool>(low: u16, high: u16, probe: F) -> (r: Result<u16, PortError>)
    requires
        forall|p: u16| low <= p < high ==> #[trigger] probe.requires((p,)),
    ensures
        match r {
            Ok(p) => {
                &&& low <= p < high
                &&& probe.ensures((p,), true)
                &&& forall|q: u16| low <= q < p ==> #[trigger] probe.ensures((q,), false)
            },
            Err(e) => {
                &&& e == PortError::NoFreePort
                &&& forall|q: u16| low <= q < high ==> #[trigger] probe.ensures((q,), false)
            },
        },
        // a range holding a port that the probe can only report free yields a port
        (exists|q: u16| low <= q < high && #[trigger] always_free(probe, q)) ==> r is Ok,
        // a range whose ports the probe can only report occupied yields no port
        (forall|q: u16| low <= q < high ==> #[trigger] always_occupied(probe, q))
            ==> r == Err::<u16, PortError>(PortError::NoFreePort),
{
    let mut candidate: u16 = low;
    while candidate < high
        invariant
            low <= candidate,
            candidate <= high || candidate == low,
            forall|p: u16| low <= p < high ==> #[trigger] probe.requires((p,)),
            forall|q: u16| low <= q < candidate && q < high ==> #[trigger] probe.ensures((q,), false),
        decreases high - candidate,
    {
        let free = probe(candidate);
        if free {
            proof {
                assert(always_occupied(probe, candidate) ==> !free);
            }
            return Ok(candidate);
        }
        candidate = candidate + 1;
    }
    proof {
        assert forall|q: u16| low <= q < high implies !always_free(probe, q) by {
            assert(probe.ensures((q,), false));
        }
    }
    Err(PortError::NoFreePort)
}

} // verus!
