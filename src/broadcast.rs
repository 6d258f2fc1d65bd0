use vstd::prelude::*;

verus! {

/// A transaction the node must keep announcing: its id and its serialized form in hex.
#[derive(Clone, Debug)]
pub struct PendingTx {
    pub txid: String,
    pub raw_hex: String,
}

impl PendingTx {
    pub fn duplicate(&self) -> (r: PendingTx)
        ensures
            r == *self,
    {
        PendingTx { txid: self.txid.clone(), raw_hex: self.raw_hex.clone() }
    }
}

/// No two entries share an id.
pub open spec fn unique_ids(s: Seq<PendingTx>) -> bool {
    forall|i: int, j: int| 0 <= i < j < s.len() ==> s[i].txid@ != s[j].txid@
}

/// Some entry has id `id`.
pub open spec fn has_id(s: Seq<PendingTx>, id: Seq<char>) -> bool {
    exists|i: int| 0 <= i < s.len() && #[trigger] s[i].txid@ == id
}

/// `s` holds exactly one entry with id `id`, and it is `tx`.
pub open spec fn holds_once(s: Seq<PendingTx>, id: Seq<char>, tx: PendingTx) -> bool {
    exists|i: int|
        0 <= i < s.len() && s[i] == tx && (forall|j: int|
            0 <= j < s.len() && #[trigger] s[j].txid@ == id ==> j == i)
}

/// `new` is `old` after submitting `tx`: an entry with the same id is replaced in place,
/// else `tx` is added at the end.
pub open spec fn submitted(old: Seq<PendingTx>, new: Seq<PendingTx>, tx: PendingTx) -> bool {
    if has_id(old, tx.txid@) {
        exists|i: int|
            0 <= i < old.len() && old[i].txid@ == tx.txid@ && new == old.update(i, tx)
    } else {
        new == old.push(tx)
    }
}

/// `new` is `old` without the entry of id `id` (if there was one), order kept.
pub open spec fn evicted(old: Seq<PendingTx>, new: Seq<PendingTx>, id: Seq<char>) -> bool {
    if has_id(old, id) {
        exists|i: int| 0 <= i < old.len() && old[i].txid@ == id && new == old.remove(i)
    } else {
        new == old
    }
}

/// The transactions kept for rebroadcast, in order of first submission, keyed by id.
pub struct PendingBroadcasts {
    pub entries: Vec<PendingTx>,
}

impl PendingBroadcasts {
    pub open spec fn wf(&self) -> bool {
        unique_ids(self.entries@)
    }

    pub fn new() -> (r: PendingBroadcasts)
        ensures
            r.wf(),
            r.entries@.len() == 0,
    {
        PendingBroadcasts { entries: Vec::new() }
    }

    fn position(&self, id: &String) -> (r: Option<usize>)
        requires
            self.wf(),
        ensures
            r is None ==> !has_id(self.entries@, id@),
            r is Some ==> r->0 < self.entries@.len() && self.entries@[r->0 as int].txid@ == id@,
    {
        let mut i: usize = 0;
        while i < self.entries.len()
            invariant
                i <= self.entries@.len(),
                forall|k: int| 0 <= k < i ==> self.entries@[k].txid@ != id@,
            decreases self.entries@.len() - i,
        {
            if self.entries[i].txid == *id {
                return Some(i);
            }
            i = i + 1;
        }
        None
    }

    /// Keeps `tx` for rebroadcast, replacing an entry with the same id.
    pub fn submit(&mut self, tx: PendingTx)
        requires
            old(self).wf(),
        ensures
            final(self).wf(),
            submitted(old(self).entries@, final(self).entries@, tx),
    {
        match self.position(&tx.txid) {
            Some(i) => {
                self.entries.set(i, tx);
            },
            None => {
                self.entries.push(tx);
            },
        }
    }

    /// Drops the entry with id `id`; says whether there was one.
    pub fn evict(&mut self, id: &String) -> (r: bool)
        requires
            old(self).wf(),
        ensures
            final(self).wf(),
            r == has_id(old(self).entries@, id@),
            evicted(old(self).entries@, final(self).entries@, id@),
    {
        match self.position(id) {
            Some(i) => {
                let _ = self.entries.remove(i);
                true
            },
            None => false,
        }
    }

    /// The batch of one rebroadcast sweep: every kept transaction, none removed.
    pub fn rebroadcast_all(&self) -> (r: Vec<PendingTx>)
        ensures
            r@ == self.entries@,
    {
        let mut r: Vec<PendingTx> = Vec::new();
        let mut i: usize = 0;
        while i < self.entries.len()
            invariant
                i <= self.entries@.len(),
                r@ == self.entries@.subrange(0, i as int),
            decreases self.entries@.len() - i,
        {
            r.push(self.entries[i].duplicate());
            i = i + 1;
        }
        r
    }
}

/// After `tx` is submitted, the set holds exactly one entry of its id, and it is `tx`;
/// every later sweep, which hands out the set as it stands, holds it once too.
pub proof fn lemma_submit_keeps_one(old: Seq<PendingTx>, new: Seq<PendingTx>, tx: PendingTx)
    requires
        unique_ids(old),
        submitted(old, new, tx),
    ensures
        unique_ids(new),
        holds_once(new, tx.txid@, tx),
{
    if has_id(old, tx.txid@) {
        let i = choose|i: int|
            0 <= i < old.len() && old[i].txid@ == tx.txid@ && new == old.update(i, tx);
        assert(new[i] == tx);
    } else {
        assert(new[old.len() as int] == tx);
    }
}

} // verus!
