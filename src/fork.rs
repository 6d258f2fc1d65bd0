use vstd::prelude::*;

verus! {

/// A block header as reported by the node.
#[derive(Clone, Debug)]
pub struct BlockHeader {
    pub hash: String,
    pub previous_hash: String,
    pub height: u32,
}

impl BlockHeader {
    pub fn duplicate(&self) -> (r: BlockHeader)
        ensures
            r == *self,
    {
        BlockHeader {
            hash: self.hash.clone(),
            previous_hash: self.previous_hash.clone(),
            height: self.height,
        }
    }
}

/// One block-level event of a fork resolution.
#[derive(Clone, Debug)]
pub enum ForkStep {
    /// A block of the losing chain, to be rolled back.
    Disconnect(BlockHeader),
    /// A block of the winning chain (hash and height), to be applied.
    Connect(String, u32),
}

/// What the walk waits for next.
#[derive(Clone, Debug)]
pub enum Request {
    /// The header of the newly observed tip.
    CurrentHeader(String),
    /// The header of the previously recorded tip; it may not resolve.
    TargetHeader(String),
    /// The parent of the current-chain cursor.
    CurrentParent(String),
    /// The parent of the target-chain cursor.
    TargetParent(String),
    /// The walk is complete.
    Finished,
    /// A header could not be had, or did not match what was asked for.
    Failed,
}

pub open spec fn connects_descending(s: Seq<(String, u32)>) -> bool {
    forall|i: int, j: int| 0 <= i < j < s.len() ==> s[i].1 > s[j].1
}

pub open spec fn disconnects_descending(s: Seq<BlockHeader>) -> bool {
    forall|i: int, j: int| 0 <= i < j < s.len() ==> s[i].height > s[j].height
}

/// Events so far end with a connect at height `h`.
pub open spec fn last_connect_at(s: Seq<(String, u32)>, h: int) -> bool {
    s.len() > 0 && s.last().1 == h
}

/// Events so far end with a disconnect at height `h`.
pub open spec fn last_disconnect_at(s: Seq<BlockHeader>, h: int) -> bool {
    s.len() > 0 && s.last().height == h
}

/// Every disconnect so far lies above height `h`.
pub open spec fn disconnects_above(s: Seq<BlockHeader>, h: int) -> bool {
    s.len() == 0 || s.last().height > h
}

/// The state in which the walk takes its next decision, with cursors `c` and `t`.
pub open spec fn ready_to_decide(
    c: BlockHeader,
    t: Option<BlockHeader>,
    connects: Seq<(String, u32)>,
    disconnects: Seq<BlockHeader>,
) -> bool {
    &&& connects_descending(connects)
    &&& disconnects_descending(disconnects)
    &&& last_connect_at(connects, c.height as int)
    &&& match t {
        None => disconnects.len() == 0,
        Some(t) => disconnects_above(disconnects, t.height as int),
    }
}

/// The decision taken from cursors `c` and `t` with the events so far, as `post` records it.
pub open spec fn decided(
    c: BlockHeader,
    t: Option<BlockHeader>,
    connects: Seq<(String, u32)>,
    disconnects: Seq<BlockHeader>,
    post: ForkWalk,
) -> bool {
    let step_cur = (c.previous_hash, (c.height - 1) as u32);
    &&& post.cur == Some(c)
    &&& post.tgt == t
    // both cursors advance only where they stand level and apart
    &&& post.both == (t is Some && t->0.hash@ != c.previous_hash@ && c.height > 1
        && t->0.height == c.height && t->0.previous_hash@ != c.previous_hash@)
    &&& if t is Some && t->0.hash@ == c.previous_hash@ {
        // the target cursor is the parent of the current one
        post.request == Request::Finished && post.connects@ == connects && post.disconnects@
            == disconnects
    } else if c.height <= 1 {
        // the walk-back floor
        post.request == Request::Finished && post.connects@ == connects && post.disconnects@
            == disconnects
    } else if t is None || t->0.height < c.height {
        post.request == Request::CurrentParent(c.previous_hash) && post.connects@ == connects.push(
            step_cur,
        ) && post.disconnects@ == disconnects
    } else {
        let t = t->0;
        &&& post.disconnects@ == disconnects.push(t)
        &&& if t.previous_hash@ == c.previous_hash@ {
            // common ancestor found
            post.request == Request::Finished && post.connects@ == connects.push(step_cur)
        } else if t.height > c.height {
            post.request == Request::TargetParent(t.previous_hash) && post.connects@ == connects
        } else {
            post.request == Request::CurrentParent(c.previous_hash) && post.connects@
                == connects.push(step_cur)
        }
    }
}

/// Reconciliation of a newly observed tip (`current`) with the previously recorded one
/// (`target`). The walk asks for one header at a time (`request`); whoever drives it
/// fetches that header and hands it to `feed`. Connects and disconnects are each
/// collected in emission order.
pub struct ForkWalk {
    pub target_hash: String,
    pub cur: Option<BlockHeader>,
    pub tgt: Option<BlockHeader>,
    /// After the current cursor's parent, the target cursor's parent is fetched too.
    pub both: bool,
    pub request: Request,
    pub connects: Vec<(String, u32)>,
    pub disconnects: Vec<BlockHeader>,
}

impl ForkWalk {
    /// The walk is waiting for a header.
    pub open spec fn awaiting(&self) -> bool {
        !(self.request is Finished) && !(self.request is Failed)
    }

    /// Height of the header that the walk asks for, where the walk knows it.
    pub open spec fn requested_height(&self) -> Option<int> {
        match self.request {
            Request::CurrentParent(_) => Some(self.cur->0.height - 1),
            Request::TargetParent(_) => Some(self.tgt->0.height - 1),
            _ => None,
        }
    }

    pub open spec fn wf(&self) -> bool {
        &&& connects_descending(self.connects@)
        &&& disconnects_descending(self.disconnects@)
        &&& (self.both ==> self.request is CurrentParent)
        &&& match self.request {
            Request::CurrentHeader(h) => {
                &&& h@ != self.target_hash@
                &&& self.cur is None
                &&& self.tgt is None
                &&& self.connects@.len() == 0
                &&& self.disconnects@.len() == 0
            },
            Request::TargetHeader(h) => {
                &&& h == self.target_hash
                &&& self.cur is Some
                &&& self.tgt is None
                &&& last_connect_at(self.connects@, self.cur->0.height as int)
                &&& self.disconnects@.len() == 0
            },
            Request::CurrentParent(h) => {
                let c = self.cur->0;
                &&& self.cur is Some
                &&& c.height >= 2
                &&& h == c.previous_hash
                &&& last_connect_at(self.connects@, c.height - 1)
                &&& if self.both {
                    &&& self.tgt is Some
                    &&& self.tgt->0.height == c.height
                    &&& last_disconnect_at(self.disconnects@, c.height as int)
                } else {
                    match self.tgt {
                        None => self.disconnects@.len() == 0,
                        Some(t) => t.height < c.height && disconnects_above(
                            self.disconnects@,
                            t.height as int,
                        ),
                    }
                }
            },
            Request::TargetParent(h) => {
                let c = self.cur->0;
                let t = self.tgt->0;
                &&& self.cur is Some
                &&& self.tgt is Some
                &&& t.height > c.height
                &&& c.height >= 1
                &&& h == t.previous_hash
                &&& last_connect_at(self.connects@, c.height as int)
                &&& last_disconnect_at(self.disconnects@, t.height as int)
            },
            _ => true,
        }
    }

    /// Starts a walk from the new tip `current_hash` back to the old tip `target_hash`.
    /// Equal tips need no events: the walk is finished at once.
    pub fn new(current_hash: String, target_hash: String) -> (r: ForkWalk)
        ensures
            r.wf(),
            r.target_hash == target_hash,
            r.cur is None,
            r.tgt is None,
            r.connects@.len() == 0,
            r.disconnects@.len() == 0,
            current_hash@ == target_hash@ ==> r.request == Request::Finished,
            current_hash@ != target_hash@ ==> r.request == Request::CurrentHeader(current_hash),
    {
        let request = if current_hash == target_hash {
            Request::Finished
        } else {
            Request::CurrentHeader(current_hash)
        };
        ForkWalk {
            target_hash,
            cur: None,
            tgt: None,
            both: false,
            request,
            connects: Vec::new(),
            disconnects: Vec::new(),
        }
    }

    /// The answer fits the request: the header asked for, one below the cursor it extends.
    /// The old tip's header alone may be missing.
    pub open spec fn accepts(&self, answer: Option<BlockHeader>) -> bool {
        match self.request {
            Request::CurrentHeader(h) => answer is Some && answer->0.hash@ == h@,
            Request::TargetHeader(h) => answer is None || answer->0.hash@ == h@,
            Request::CurrentParent(h) => answer is Some && answer->0.hash@ == h@
                && answer->0.height == self.cur->0.height - 1,
            Request::TargetParent(h) => answer is Some && answer->0.hash@ == h@
                && answer->0.height == self.tgt->0.height - 1,
            _ => false,
        }
    }

    /// Hands the walk the answer to its request (`None`: the header could not be had).
    /// An answer that does not fit ends the walk as failed, with its events kept.
    pub fn feed(&mut self, answer: Option<BlockHeader>)
        requires
            old(self).wf(),
            old(self).awaiting(),
        ensures
            final(self).wf(),
            final(self).target_hash == old(self).target_hash,
            !old(self).accepts(answer) ==> {
                &&& final(self).request == Request::Failed
                &&& final(self).connects@ == old(self).connects@
                &&& final(self).disconnects@ == old(self).disconnects@
            },
            old(self).accepts(answer) ==> match old(self).request {
                Request::CurrentHeader(h) => {
                    let a = answer->0;
                    &&& final(self).cur == answer
                    &&& final(self).tgt is None
                    &&& !final(self).both
                    &&& final(self).connects@ == old(self).connects@.push((h, a.height))
                    &&& final(self).disconnects@ == old(self).disconnects@
                    &&& if a.previous_hash@ == old(self).target_hash@ || a.height <= 1 {
                        final(self).request == Request::Finished
                    } else {
                        final(self).request == Request::TargetHeader(old(self).target_hash)
                    }
                },
                Request::TargetHeader(_) => decided(
                    old(self).cur->0,
                    answer,
                    old(self).connects@,
                    old(self).disconnects@,
                    *final(self),
                ),
                Request::CurrentParent(_) => if old(self).both {
                    &&& final(self).cur == answer
                    &&& final(self).tgt == old(self).tgt
                    &&& !final(self).both
                    &&& final(self).request == Request::TargetParent(
                        old(self).tgt->0.previous_hash,
                    )
                    &&& final(self).connects@ == old(self).connects@
                    &&& final(self).disconnects@ == old(self).disconnects@
                } else {
                    decided(
                        answer->0,
                        old(self).tgt,
                        old(self).connects@,
                        old(self).disconnects@,
                        *final(self),
                    )
                },
                Request::TargetParent(_) => decided(
                    old(self).cur->0,
                    answer,
                    old(self).connects@,
                    old(self).disconnects@,
                    *final(self),
                ),
                _ => true,
            },
    {
        let fits = match (&self.request, &answer) {
            (Request::CurrentHeader(h), Some(a)) => a.hash == *h,
            (Request::TargetHeader(h), Some(a)) => a.hash == *h,
            (Request::TargetHeader(_), None) => true,
            (Request::CurrentParent(h), Some(a)) => match &self.cur {
                Some(c) => a.hash == *h && c.height >= 1 && a.height == c.height - 1,
                None => false,
            },
            (Request::TargetParent(h), Some(a)) => match &self.tgt {
                Some(t) => a.hash == *h && t.height >= 1 && a.height == t.height - 1,
                None => false,
            },
            _ => false,
        };
        if !fits {
            self.request = Request::Failed;
            self.both = false;
            return;
        }
        let started = match &self.request {
            Request::CurrentHeader(h) => Some(h.clone()),
            _ => None,
        };
        match &self.request {
            Request::CurrentHeader(_) => {
                let h = match started {
                    Some(h) => h,
                    None => {
                        return;
                    },
                };
                let a = match answer {
                    Some(a) => a,
                    None => {
                        return;
                    },
                };
                self.connects.push((h, a.height));
                if a.previous_hash == self.target_hash || a.height <= 1 {
                    self.request = Request::Finished;
                } else {
                    self.request = Request::TargetHeader(self.target_hash.clone());
                }
                self.cur = Some(a);
            },
            Request::TargetHeader(_) => {
                self.tgt = answer;
                self.decide();
            },
            Request::CurrentParent(_) => {
                self.cur = answer;
                if self.both {
                    self.both = false;
                    let next = match &self.tgt {
                        Some(t) => t.previous_hash.clone(),
                        None => {
                            return;
                        },
                    };
                    self.request = Request::TargetParent(next);
                } else {
                    self.decide();
                }
            },
            Request::TargetParent(_) => {
                self.tgt = answer;
                self.decide();
            },
            _ => {},
        }
    }

    /// Takes the next decision from the two cursors.
    fn decide(&mut self)
        requires
            old(self).cur is Some,
            ready_to_decide(
                old(self).cur->0,
                old(self).tgt,
                old(self).connects@,
                old(self).disconnects@,
            ),
        ensures
            final(self).target_hash == old(self).target_hash,
            decided(
                old(self).cur->0,
                old(self).tgt,
                old(self).connects@,
                old(self).disconnects@,
                *final(self),
            ),
            final(self).wf(),
    {
        self.both = false;
        let c = match &self.cur {
            Some(c) => c.duplicate(),
            None => {
                return;
            },
        };
        let t = match &self.tgt {
            Some(t) => Some(t.duplicate()),
            None => None,
        };
        let ghost connects0 = self.connects@;
        let ghost disconnects0 = self.disconnects@;
        if let Some(t) = &t {
            if t.hash == c.previous_hash {
                self.request = Request::Finished;
                return;
            }
        }
        if c.height <= 1 {
            self.request = Request::Finished;
            return;
        }
        let below_cur = match &t {
            None => true,
            Some(t) => t.height < c.height,
        };
        if below_cur {
            self.connects.push((c.previous_hash.clone(), c.height - 1));
            self.request = Request::CurrentParent(c.previous_hash);
            return;
        }
        let t = match t {
            Some(t) => t,
            None => {
                return;
            },
        };
        self.disconnects.push(t.duplicate());
        if t.previous_hash == c.previous_hash {
            self.connects.push((c.previous_hash.clone(), c.height - 1));
            self.request = Request::Finished;
        } else if t.height > c.height {
            self.request = Request::TargetParent(t.previous_hash);
        } else {
            self.connects.push((c.previous_hash.clone(), c.height - 1));
            self.request = Request::CurrentParent(c.previous_hash);
            self.both = true;
        }
    }
}

/// Within one walk, connects and disconnects each come in strictly descending height,
/// in every state the walk can reach.
pub proof fn lemma_steps_descending(w: ForkWalk)
    requires
        w.wf(),
    ensures
        connects_descending(w.connects@),
        disconnects_descending(w.disconnects@),
{
}

/// The walk never asks for a header below height 1: a parent is asked for only of a
/// header at height 2 or more, and `feed` takes it only at one height below.
pub proof fn lemma_requests_above_floor(w: ForkWalk, answer: Option<BlockHeader>)
    requires
        w.wf(),
    ensures
        w.requested_height() is Some ==> w.requested_height()->0 >= 1,
        w.requested_height() is Some && w.accepts(answer) ==> answer->0.height
            == w.requested_height()->0,
{
}

} // verus!
