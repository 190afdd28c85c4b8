//! Pose snapshots.
//!
//! After every successfully applied instruction the service broadcasts the
//! robot's pose: for each of the four legs, in ascending leg-id order, the
//! chain of joint vertices that forward kinematics reports, from the hip
//! attachment down to the paw tip.

use vstd::prelude::*;

verus! {

/// The forward-kinematics vertex chain of one leg.
pub struct LegChain<V> {
    /// The id of the leg this chain belongs to (0 through 3).
    pub leg: u8,
    /// Joint positions from hip to paw tip.
    pub vertices: Vec<V>,
}

/// A full pose: one vertex chain per leg.
pub struct PoseSnapshot<V> {
    pub chains: Vec<LegChain<V>>,
}

impl<V> PoseSnapshot<V> {
    /// Well-formedness: exactly four chains, the chain at position `i`
    /// belonging to leg `i`, so the legs appear in ascending id order.
    pub open spec fn wf(self) -> bool {
        &&& self.chains@.len() == 4
        &&& forall|i: int| 0 <= i < 4 ==> #[trigger] self.chains@[i].leg == i as u8
    }
}

/// Assembles the snapshot from the four legs' vertex chains, handed over in
/// leg-id order. The result always holds exactly four chains, labelled 0
/// through 3 in that order, each carrying the vertices it was given.
pub fn assemble<V>(chain0: Vec<V>, chain1: Vec<V>, chain2: Vec<V>, chain3: Vec<V>) -> (s:
    PoseSnapshot<V>)
    ensures
        s.wf(),
        s.chains@[0].vertices@ == chain0@,
        s.chains@[1].vertices@ == chain1@,
        s.chains@[2].vertices@ == chain2@,
        s.chains@[3].vertices@ == chain3@,
{
    let mut chains: Vec<LegChain<V>> = Vec::new();
    chains.push(LegChain { leg: 0, vertices: chain0 });
    chains.push(LegChain { leg: 1, vertices: chain1 });
    chains.push(LegChain { leg: 2, vertices: chain2 });
    chains.push(LegChain { leg: 3, vertices: chain3 });
    PoseSnapshot { chains }
}

/// A well-formed snapshot always has exactly four chains and lists the legs
/// in strictly ascending id order; which instruction produced it has no
/// bearing on that shape.
pub proof fn lemma_snapshot_shape<V>(s: PoseSnapshot<V>)
    requires
        s.wf(),
    ensures
        s.chains@.len() == 4,
        forall|i: int, j: int|
            0 <= i < j < s.chains@.len() ==> (#[trigger] s.chains@[i].leg)
                < (#[trigger] s.chains@[j].leg),
{
}

} // verus!
