//! The notify broadcaster: for each template that comes out of the channel it
//! takes the next job version from the tracker and addresses the job to every
//! connection that is registered at that moment.

use crate::tracker::JobTracker;
use vstd::prelude::*;

verus! {

/// A job on its way to one miner connection.
#[derive(Debug, Clone, Copy, PartialEq, Eq, Structural)]
pub struct Delivery {
    /// The connection that gets the job.
    pub connection: u64,
    /// The version of the job.
    pub version: u64,
}

/// The deliveries of one job: one for each connection, in the registry's
/// order, all with the same version.
pub open spec fn deliveries_of(version: u64, connections: Seq<u64>) -> Seq<Delivery> {
    Seq::new(
        connections.len(),
        |i: int| (Delivery { connection: connections[i], version: version }),
    )
}

/// Addresses the job of `version` to each of `connections`.
pub fn address_job(version: u64, connections: &Vec<u64>) -> (r: Vec<Delivery>)
    ensures
        r@ == deliveries_of(version, connections@),
{
    let mut out: Vec<Delivery> = Vec::new();
    let mut i: usize = 0;
    while i < connections.len()
        invariant
            i <= connections.len(),
            out@ == deliveries_of(version, connections@.subrange(0, i as int)),
        decreases connections.len() - i,
    {
        out.push(Delivery { connection: connections[i], version: version });
        i = i + 1;
        assert(out@ =~= deliveries_of(version, connections@.subrange(0, i as int)));
    }
    assert(connections@.subrange(0, i as int) =~= connections@);
    out
}

/// Handles one template notification: binds the next job version to the
/// template and addresses the job to every registered connection. When the
/// tracker has no version left, nothing is sent and the tracker stays as it
/// is.
pub fn broadcast<T>(tracker: &mut JobTracker<T>, template: T, connections: &Vec<u64>) -> (r:
    Option<Vec<Delivery>>)
    requires
        old(tracker).well_formed(),
    ensures
        final(tracker).well_formed(),
        old(tracker)@.len() < u64::MAX ==> final(tracker)@ == old(tracker)@.push(template)
            && r is Some && r->0@ == deliveries_of(
            (old(tracker)@.len() + 1) as u64,
            connections@,
        ),
        old(tracker)@.len() >= u64::MAX ==> final(tracker)@ == old(tracker)@ && r is None,
{
    match tracker.next_version(template) {
        Some(version) => Some(address_job(version, connections)),
        None => None,
    }
}

/// Every registered connection gets the job exactly once, and nobody else
/// gets it.
pub proof fn every_connection_is_served_once(version: u64, connections: Seq<u64>)
    ensures
        deliveries_of(version, connections).len() == connections.len(),
        forall|i: int|
            0 <= i < connections.len() ==> (#[trigger] deliveries_of(version, connections)[i])
                == (Delivery { connection: connections[i], version: version }),
{
}

} // verus!
