//! One reading of the host, as the sampler hands it over at a tick.

use crate::process::ProcessInfo;
use vstd::prelude::*;

verus! {

/// The traffic of one network interface since the reading before.
#[derive(Clone, Copy, Debug, PartialEq, Eq)]
pub struct NetInfo {
    /// Bytes received.
    pub received: u64,
    /// Bytes transmitted.
    pub transmitted: u64,
}

/// A point-in-time reading. Each tick brings a fresh one that replaces the last.
#[derive(Debug)]
pub struct Snapshot {
    /// Load of all cores together, in percent.
    pub cpu_percent: u64,
    /// Memory in use, in percent of what is installed.
    pub mem_percent: u64,
    /// The network interfaces, one entry each.
    pub interfaces: Vec<NetInfo>,
    /// The process table, in no particular order.
    pub processes: Vec<ProcessInfo>,
}

/// The bytes received on all of `interfaces` together.
pub open spec fn total_received(interfaces: Seq<NetInfo>) -> nat
    decreases interfaces.len(),
{
    if interfaces.len() == 0 {
        0
    } else {
        total_received(interfaces.drop_last()) + interfaces.last().received as nat
    }
}

/// The bytes transmitted on all of `interfaces` together.
pub open spec fn total_transmitted(interfaces: Seq<NetInfo>) -> nat
    decreases interfaces.len(),
{
    if interfaces.len() == 0 {
        0
    } else {
        total_transmitted(interfaces.drop_last()) + interfaces.last().transmitted as nat
    }
}

/// Both traffic totals are numbers that a sample can hold.
pub open spec fn traffic_fits(interfaces: Seq<NetInfo>) -> bool {
    total_received(interfaces) <= u64::MAX && total_transmitted(interfaces) <= u64::MAX
}

proof fn lemma_totals_grow(interfaces: Seq<NetInfo>, upto: int)
    requires
        0 <= upto <= interfaces.len(),
    ensures
        total_received(interfaces.take(upto)) <= total_received(interfaces),
        total_transmitted(interfaces.take(upto)) <= total_transmitted(interfaces),
    decreases interfaces.len() - upto,
{
    if upto < interfaces.len() {
        lemma_totals_grow(interfaces, upto + 1);
        assert(interfaces.take(upto + 1).drop_last() =~= interfaces.take(upto));
    } else {
        assert(interfaces.take(upto) =~= interfaces);
    }
}

/// Adds up the traffic of all interfaces: bytes received, then bytes transmitted.
/// Returns `None` where either total is too large for a sample.
pub fn network_totals(interfaces: &Vec<NetInfo>) -> (totals: Option<(u64, u64)>)
    ensures
        match totals {
            Some((received, transmitted)) => received == total_received(interfaces@)
                && transmitted == total_transmitted(interfaces@),
            None => !traffic_fits(interfaces@),
        },
{
    let mut received: u64 = 0;
    let mut transmitted: u64 = 0;
    let mut i: usize = 0;
    while i < interfaces.len()
        invariant
            i <= interfaces.len(),
            received == total_received(interfaces@.take(i as int)),
            transmitted == total_transmitted(interfaces@.take(i as int)),
        decreases interfaces.len() - i,
    {
        proof {
            assert(interfaces@.take(i + 1).drop_last() =~= interfaces@.take(i as int));
            lemma_totals_grow(interfaces@, i + 1);
        }
        let more_received = received.checked_add(interfaces[i].received);
        let more_transmitted = transmitted.checked_add(interfaces[i].transmitted);
        match (more_received, more_transmitted) {
            (Some(r), Some(t)) => {
                received = r;
                transmitted = t;
            },
            _ => {
                return None;
            },
        }
        i += 1;
    }
    assert(interfaces@.take(i as int) =~= interfaces@);
    Some((received, transmitted))
}

} // verus!
