//! The order in which listening ports are tried at startup. Binding is done by
//! the caller; this module says which port to try next after each failure.
use vstd::prelude::*;

verus! {

/// The first port of the scan used when no port is asked for.
pub const SCAN_START: u16 = 8000;

/// The end of the scan, excluded.
pub const SCAN_END: u16 = 9000;

/// The port to try after `tried` failed (or the first one, for `None`): an
/// asked-for port is tried once and nothing after it; otherwise the ports
/// from 8000 up to 8999 are tried in ascending order.
pub open spec fn next_candidate_spec(preferred: Option<u16>, tried: Option<u16>) -> Option<u16> {
    match (preferred, tried) {
        (Some(p), None) => Some(p),
        (Some(_), Some(_)) => None,
        (None, None) => Some(SCAN_START),
        (None, Some(t)) => if t + 1 < SCAN_END {
            Some((t + 1) as u16)
        } else {
            None
        },
    }
}

/// The port to try next; `None` when no port is left.
pub fn next_candidate(preferred: Option<u16>, tried: Option<u16>) -> (r: Option<u16>)
    ensures
        r == next_candidate_spec(preferred, tried),
{
    match preferred {
        Some(p) => match tried {
            None => Some(p),
            Some(_) => None,
        },
        None => match tried {
            None => Some(SCAN_START),
            Some(t) => if t < SCAN_END - 1 {
                Some(t + 1)
            } else {
                None
            },
        },
    }
}

/// The port acquired when trying from `cand` on, where the ports in `busy`
/// fail to bind and all others bind.
pub open spec fn acquire_from(preferred: Option<u16>, busy: Set<u16>, cand: Option<u16>) -> Option<u16>
    decreases
            match cand {
                Some(c) => 65536 - c,
                None => 0,
            },
{
    match cand {
        None => None,
        Some(c) => if busy.contains(c) {
            acquire_from(preferred, busy, next_candidate_spec(preferred, Some(c)))
        } else {
            Some(c)
        },
    }
}

/// The port acquired by following `next_candidate` from the start, where the
/// ports in `busy` fail to bind and all others bind.
pub open spec fn acquired(preferred: Option<u16>, busy: Set<u16>) -> Option<u16> {
    acquire_from(preferred, busy, next_candidate_spec(preferred, None))
}

/// An asked-for port that is in use gives no port: no other port is tried.
pub proof fn lemma_requested_port_busy(p: u16, busy: Set<u16>)
    requires
        busy.contains(p),
    ensures
        acquired(Some(p), busy) == None::<u16>,
{
    assert(acquire_from(Some(p), busy, None) == None::<u16>);
}

/// An asked-for port that is free is the port acquired.
pub proof fn lemma_requested_port_free(p: u16, busy: Set<u16>)
    requires
        !busy.contains(p),
    ensures
        acquired(Some(p), busy) == Some(p),
{
}

proof fn lemma_scan_exhausted_from(busy: Set<u16>, c: u16)
    requires
        SCAN_START <= c < SCAN_END,
        forall|q: u16| SCAN_START <= q < SCAN_END ==> busy.contains(q),
    ensures
        acquire_from(None, busy, Some(c)) == None::<u16>,
    decreases SCAN_END - c,
{
    if c + 1 < SCAN_END {
        lemma_scan_exhausted_from(busy, (c + 1) as u16);
    } else {
        assert(acquire_from(None, busy, None) == None::<u16>);
    }
}

/// With no port asked for and every port of the scan in use, no port is acquired.
pub proof fn lemma_scan_exhausted(busy: Set<u16>)
    requires
        forall|q: u16| SCAN_START <= q < SCAN_END ==> busy.contains(q),
    ensures
        acquired(None, busy) == None::<u16>,
{
    lemma_scan_exhausted_from(busy, SCAN_START);
}

proof fn lemma_first_free_from(busy: Set<u16>, c: u16, f: u16)
    requires
        SCAN_START <= c <= f < SCAN_END,
        !busy.contains(f),
        forall|q: u16| SCAN_START <= q < f ==> busy.contains(q),
    ensures
        acquire_from(None, busy, Some(c)) == Some(f),
    decreases f - c,
{
    if c < f {
        lemma_first_free_from(busy, (c + 1) as u16, f);
    }
}

/// With no port asked for, the port acquired is the lowest free port of the
/// scan: with 8000 to 8004 in use and 8005 free, it is 8005.
pub proof fn lemma_first_free_port(busy: Set<u16>, f: u16)
    requires
        SCAN_START <= f < SCAN_END,
        !busy.contains(f),
        forall|q: u16| SCAN_START <= q < f ==> busy.contains(q),
    ensures
        acquired(None, busy) == Some(f),
{
    lemma_first_free_from(busy, SCAN_START, f);
}

} // verus!
