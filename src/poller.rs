use vstd::prelude::*;
use crate::fork::{BlockHeader, ForkStep, ForkWalk, connects_descending};

verus! {

/// What a polling tick does after it has read the node's best block hash.
#[derive(Clone, Debug)]
pub enum TickAction {
    /// The tip is the one recorded: nothing to do.
    Unchanged,
    /// No tip was recorded yet: the new one is recorded, nothing to reconcile.
    Recorded,
    /// The tip moved: resolve the fork from `new_tip` back to `old_tip`, then apply,
    /// refresh fees, notify and rebroadcast.
    Resolve { new_tip: String, old_tip: String },
}

/// The best block hash last recorded by the poller; empty means not yet observed.
pub struct TipTracker {
    pub tip: String,
}

impl TipTracker {
    pub fn new() -> (r: TipTracker)
        ensures
            r.tip@ == Seq::<char>::empty(),
    {
        TipTracker { tip: String::new() }
    }

    /// Records the node's best block hash and says what the tick has to do.
    pub fn observe(&mut self, best: String) -> (r: TickAction)
        ensures
            old(self).tip@ == best@ ==> r == TickAction::Unchanged && final(self).tip
                == old(self).tip,
            old(self).tip@ != best@ ==> final(self).tip == best,
            old(self).tip@ != best@ && old(self).tip@.len() == 0 ==> r == TickAction::Recorded,
            old(self).tip@ != best@ && old(self).tip@.len() != 0 ==> r == (TickAction::Resolve {
                new_tip: best,
                old_tip: old(self).tip,
            }),
    {
        if self.tip == best {
            return TickAction::Unchanged;
        }
        let old_tip = self.tip.clone();
        let new_tip = best.clone();
        self.tip = best;
        if old_tip.as_str().is_empty() {
            TickAction::Recorded
        } else {
            TickAction::Resolve { new_tip, old_tip }
        }
    }
}

/// Where a tick whose tip moved stands.
#[derive(Clone, Copy, Debug, PartialEq, Eq, Structural)]
pub enum TickStage {
    Resolve,
    Apply,
    RefreshFees,
    Notify,
    Rebroadcast,
    Done,
}

pub open spec fn spec_next_stage(s: TickStage, ok: bool) -> TickStage {
    match s {
        TickStage::Resolve => if ok { TickStage::Apply } else { TickStage::Done },
        TickStage::Apply => if ok { TickStage::RefreshFees } else { TickStage::Done },
        TickStage::RefreshFees => TickStage::Notify,
        TickStage::Notify => TickStage::Rebroadcast,
        _ => TickStage::Done,
    }
}

impl TickStage {
    /// The stage after this one, given whether its remote work succeeded. A failed
    /// resolution or apply ends the tick; the fee refresh and the notification cannot
    /// fail; the rebroadcast sweep closes the tick.
    pub fn next(self, ok: bool) -> (r: TickStage)
        ensures
            r == spec_next_stage(self, ok),
    {
        match self {
            TickStage::Resolve => if ok { TickStage::Apply } else { TickStage::Done },
            TickStage::Apply => if ok { TickStage::RefreshFees } else { TickStage::Done },
            TickStage::RefreshFees => TickStage::Notify,
            TickStage::Notify => TickStage::Rebroadcast,
            _ => TickStage::Done,
        }
    }
}

/// The order in which a walk's events reach the chain-watch consumer: every disconnect
/// in emission order, then every connect in reverse emission order.
pub open spec fn in_apply_order(
    disconnects: Seq<BlockHeader>,
    connects: Seq<(String, u32)>,
    r: Seq<ForkStep>,
) -> bool {
    &&& r.len() == disconnects.len() + connects.len()
    &&& forall|i: int| 0 <= i < disconnects.len() ==> r[i] == ForkStep::Disconnect(disconnects[i])
    &&& forall|k: int|
        disconnects.len() <= k < r.len() ==> #[trigger] r[k] == ForkStep::Connect(
            connects[r.len() - 1 - k].0,
            connects[r.len() - 1 - k].1,
        )
}

/// Buffers a walk's events into the order in which they are applied.
pub fn apply_order(walk: &ForkWalk) -> (r: Vec<ForkStep>)
    requires
        walk.disconnects@.len() + walk.connects@.len() <= usize::MAX,
    ensures
        in_apply_order(walk.disconnects@, walk.connects@, r@),
{
    let mut r: Vec<ForkStep> = Vec::new();
    let nd = walk.disconnects.len();
    let nc = walk.connects.len();
    let mut i: usize = 0;
    while i < nd
        invariant
            i <= nd,
            nd == walk.disconnects@.len(),
            r@.len() == i,
            forall|k: int| 0 <= k < i ==> r@[k] == ForkStep::Disconnect(walk.disconnects@[k]),
        decreases nd - i,
    {
        r.push(ForkStep::Disconnect(walk.disconnects[i].duplicate()));
        i = i + 1;
    }
    let mut j: usize = 0;
    while j < nc
        invariant
            j <= nc,
            nd == walk.disconnects@.len(),
            nc == walk.connects@.len(),
            nd + nc <= usize::MAX,
            r@.len() == nd + j,
            forall|k: int| 0 <= k < nd ==> r@[k] == ForkStep::Disconnect(walk.disconnects@[k]),
            forall|k: int|
                nd <= k < nd + j ==> #[trigger] r@[k] == ForkStep::Connect(
                    walk.connects@[nd + nc - 1 - k].0,
                    walk.connects@[nd + nc - 1 - k].1,
                ),
        decreases nc - j,
    {
        let c = &walk.connects[nc - 1 - j];
        r.push(ForkStep::Connect(c.0.clone(), c.1));
        j = j + 1;
    }
    r
}

/// Applied in order, the connects of a walk go up in height: a parent is always
/// connected before its child.
pub proof fn lemma_connects_applied_ascending(
    disconnects: Seq<BlockHeader>,
    connects: Seq<(String, u32)>,
    r: Seq<ForkStep>,
)
    requires
        connects_descending(connects),
        in_apply_order(disconnects, connects, r),
    ensures
        forall|a: int, b: int|
            disconnects.len() <= a < b < r.len() ==> (r[a] is Connect && r[b] is Connect
                && r[a]->Connect_1 < r[b]->Connect_1),
{
    assert forall|a: int, b: int| disconnects.len() <= a < b < r.len() implies (r[a] is Connect
        && r[b] is Connect && r[a]->Connect_1 < r[b]->Connect_1) by {
        let n = r.len();
        assert(r[a] == ForkStep::Connect(connects[n - 1 - a].0, connects[n - 1 - a].1));
        assert(r[b] == ForkStep::Connect(connects[n - 1 - b].0, connects[n - 1 - b].1));
    }
}

} // verus!
