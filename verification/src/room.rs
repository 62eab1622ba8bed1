use vstd::prelude::*;

use crate::connection_registry::{send_to_handle, SessionTx};

verus! {

/// One client of a room and its delivery handle.
pub struct RoomEntry {
    pub id: String,
    pub tx: SessionTx,
}

/// A single broadcast group: every client joined to it, by identifier.
pub struct Room {
    pub clients: Vec<RoomEntry>,
}

impl Room {
    /// No identifier occurs twice.
    pub open spec fn wf(&self) -> bool {
        forall|i1: int, i2: int|
            0 <= i1 < i2 < self.clients@.len() ==> (#[trigger] self.clients@[i1]).id@
                != (#[trigger] self.clients@[i2]).id@
    }

    /// Whether the identifier is joined to the room.
    pub open spec fn joined(&self, id: Seq<char>) -> bool {
        exists|i: int| 0 <= i < self.clients@.len() && (#[trigger] self.clients@[i]).id@ == id
    }

    pub fn new() -> (r: Room)
        ensures
            r.wf(),
            r.clients@.len() == 0,
            forall|id: Seq<char>| !r.joined(id),
    {
        Room { clients: Vec::new() }
    }

    /// The index of the client, if one is joined.
    fn find(&self, id: &String) -> (r: Option<usize>)
        ensures
            match r {
                Some(i) => i < self.clients@.len() && self.clients@[i as int].id@ == id@,
                None => !self.joined(id@),
            },
    {
        let mut i: usize = 0;
        while i < self.clients.len()
            invariant
                i <= self.clients@.len(),
                forall|k: int| 0 <= k < i ==> (#[trigger] self.clients@[k]).id@ != id@,
            decreases self.clients@.len() - i,
        {
            if self.clients[i].id == *id {
                return Some(i);
            }
            i = i + 1;
        }
        None
    }

    /// Joins the client, replacing a handle already held under the same
    /// identifier.
    pub fn join(&mut self, id: String, tx: SessionTx)
        requires
            old(self).wf(),
        ensures
            final(self).wf(),
            forall|x: Seq<char>|
                final(self).joined(x) <==> (old(self).joined(x) || x == id@),
    {
        let found = self.find(&id);
        let entry = RoomEntry { id, tx };
        match found {
            Some(i) => {
                let ghost eid = entry.id@;
                self.clients.set(i, entry);
                proof {
                    assert forall|x: Seq<char>| final(self).joined(x) implies (old(self).joined(x)
                        || x == eid) by {
                        let w = choose|w: int|
                            0 <= w < self.clients@.len() && (#[trigger] self.clients@[w]).id@ == x;
                        if w != i {
                            assert(old(self).clients@[w] == self.clients@[w]);
                        }
                    }
                    assert forall|x: Seq<char>| (old(self).joined(x) || x == eid) implies final(self).joined(x) by {
                        if x == eid {
                            assert(self.clients@[i as int].id@ == x);
                        } else {
                            let w = choose|w: int|
                                0 <= w < old(self).clients@.len() && (#[trigger] old(
                                    self,
                                ).clients@[w]).id@ == x;
                            assert(self.clients@[w].id@ == x);
                        }
                    }
                }
            },
            None => {
                let ghost eid = entry.id@;
                self.clients.push(entry);
                proof {
                    assert forall|x: Seq<char>| final(self).joined(x) implies (old(self).joined(x)
                        || x == eid) by {
                        let w = choose|w: int|
                            0 <= w < self.clients@.len() && (#[trigger] self.clients@[w]).id@ == x;
                        if w < old(self).clients@.len() {
                            assert(old(self).clients@[w] == self.clients@[w]);
                        }
                    }
                    assert forall|x: Seq<char>| (old(self).joined(x) || x == eid) implies final(self).joined(x) by {
                        if x == eid {
                            assert(self.clients@[self.clients@.len() - 1].id@ == x);
                        } else {
                            let w = choose|w: int|
                                0 <= w < old(self).clients@.len() && (#[trigger] old(
                                    self,
                                ).clients@[w]).id@ == x;
                            assert(self.clients@[w].id@ == x);
                        }
                    }
                }
            },
        }
    }

    /// Leaves the room; other clients are untouched, an absent identifier
    /// changes nothing.
    pub fn leave(&mut self, id: &String)
        requires
            old(self).wf(),
        ensures
            final(self).wf(),
            forall|x: Seq<char>|
                final(self).joined(x) <==> (old(self).joined(x) && x != id@),
    {
        let found = self.find(id);
        match found {
            Some(i) => {
                self.clients.swap_remove(i);
                proof {
                    let pre = old(self).clients@;
                    let post = self.clients@;
                    assert forall|x: Seq<char>| final(self).joined(x) implies (old(self).joined(x)
                        && x != id@) by {
                        let w = choose|w: int|
                            0 <= w < post.len() && (#[trigger] post[w]).id@ == x;
                        if w == i {
                            assert(post[w] == pre[pre.len() - 1]);
                        } else {
                            assert(post[w] == pre[w]);
                        }
                    }
                    assert forall|x: Seq<char>| (old(self).joined(x) && x != id@) implies final(self).joined(x) by {
                        let w = choose|w: int|
                            0 <= w < pre.len() && (#[trigger] pre[w]).id@ == x;
                        if w == pre.len() - 1 {
                            if w != i {
                                assert(post[i as int] == pre[w]);
                            }
                        } else {
                            if w != i {
                                assert(post[w] == pre[w]);
                            }
                        }
                    }
                }
            },
            None => {},
        }
    }

    /// Best-effort delivery to every joined client; returns the identifiers
    /// delivered to, each exactly once.
    pub fn broadcast(&self, msg: &str) -> (r: Vec<String>)
        requires
            self.wf(),
        ensures
            forall|k: int|
                0 <= k < r@.len() ==> self.joined((#[trigger] r@[k])@),
            forall|x: Seq<char>|
                self.joined(x) ==> exists|k: int| 0 <= k < r@.len() && (#[trigger] r@[k])@ == x,
            forall|k1: int, k2: int| 0 <= k1 < k2 < r@.len() ==> r@[k1]@ != r@[k2]@,
    {
        let mut out: Vec<String> = Vec::new();
        let mut i: usize = 0;
        while i < self.clients.len()
            invariant
                self.wf(),
                i <= self.clients@.len(),
                out@.len() == i,
                forall|k: int| 0 <= k < i ==> (#[trigger] out@[k])@ == self.clients@[k].id@,
            decreases self.clients@.len() - i,
        {
            let e = &self.clients[i];
            let _ok = send_to_handle(&e.tx, msg);
            out.push(e.id.clone());
            i = i + 1;
        }
        proof {
            assert forall|x: Seq<char>| self.joined(x) implies exists|k: int|
                0 <= k < out@.len() && (#[trigger] out@[k])@ == x by {
                let w = choose|w: int|
                    0 <= w < self.clients@.len() && (#[trigger] self.clients@[w]).id@ == x;
                assert(out@[w]@ == x);
            }
        }
        out
    }

    /// Best-effort delivery to every joined client but the excluded one;
    /// returns the identifiers delivered to, each exactly once.
    pub fn broadcast_except(&self, msg: &str, exclude_id: &String) -> (r: Vec<String>)
        requires
            self.wf(),
        ensures
            forall|k: int|
                0 <= k < r@.len() ==> self.joined((#[trigger] r@[k])@) && r@[k]@ != exclude_id@,
            forall|x: Seq<char>|
                self.joined(x) && x != exclude_id@ ==> exists|k: int|
                    0 <= k < r@.len() && (#[trigger] r@[k])@ == x,
            forall|k1: int, k2: int| 0 <= k1 < k2 < r@.len() ==> r@[k1]@ != r@[k2]@,
    {
        let mut out: Vec<String> = Vec::new();
        let ghost mut src: Seq<int> = Seq::empty();
        let mut i: usize = 0;
        while i < self.clients.len()
            invariant
                self.wf(),
                i <= self.clients@.len(),
                src.len() == out@.len(),
                forall|k: int|
                    0 <= k < out@.len() ==> 0 <= #[trigger] src[k] < i
                        && self.clients@[src[k]].id@ == out@[k]@ && out@[k]@ != exclude_id@,
                forall|k1: int, k2: int| 0 <= k1 < k2 < src.len() ==> src[k1] < src[k2],
                forall|e: int|
                    0 <= e < i && (#[trigger] self.clients@[e]).id@ != exclude_id@ ==> exists|
                        k: int,
                    | 0 <= k < out@.len() && (#[trigger] out@[k])@ == self.clients@[e].id@,
            decreases self.clients@.len() - i,
        {
            let e = &self.clients[i];
            if !(e.id == *exclude_id) {
                let _ok = send_to_handle(&e.tx, msg);
                let ghost out0 = out@;
                let ghost src0 = src;
                out.push(e.id.clone());
                proof {
                    src = src.push(i as int);
                    assert(out@ == out0.push(out@[out0.len() as int]));
                    assert(out@[out0.len() as int]@ == self.clients@[i as int].id@);
                    assert forall|k: int| 0 <= k < out@.len() implies 0 <= #[trigger] src[k] < i
                        + 1 && self.clients@[src[k]].id@ == out@[k]@ && out@[k]@ != exclude_id@ by {
                        if k < out0.len() {
                            assert(out@[k] == out0[k]);
                            assert(src[k] == src0[k]);
                            assert(0 <= src0[k] < i && self.clients@[src0[k]].id@ == out0[k]@
                                && out0[k]@ != exclude_id@);
                        } else {
                            assert(src[k] == i as int);
                        }
                    }
                    assert forall|k1: int, k2: int| 0 <= k1 < k2 < src.len() implies src[k1]
                        < src[k2] by {
                        if k2 < src0.len() {
                            assert(src[k1] == src0[k1] && src[k2] == src0[k2]);
                        } else {
                            assert(src[k2] == i as int);
                            assert(0 <= src0[k1] < i && self.clients@[src0[k1]].id@ == out0[k1]@);
                        }
                    }
                    assert forall|e2: int|
                        0 <= e2 < i + 1 && (#[trigger] self.clients@[e2]).id@ != exclude_id@
                        implies exists|k: int|
                        0 <= k < out@.len() && (#[trigger] out@[k])@ == self.clients@[e2].id@ by {
                        if e2 < i {
                            let k = choose|k: int|
                                0 <= k < out0.len() && (#[trigger] out0[k])@
                                    == self.clients@[e2].id@;
                            assert(out@[k]@ == self.clients@[e2].id@);
                        } else {
                            assert(out@[out0.len() as int]@ == self.clients@[e2].id@);
                        }
                    }
                }
            } else {
                proof {
                    assert forall|e2: int|
                        0 <= e2 < i + 1 && (#[trigger] self.clients@[e2]).id@ != exclude_id@
                        implies exists|k: int|
                        0 <= k < out@.len() && (#[trigger] out@[k])@ == self.clients@[e2].id@ by {
                        assert(e2 < i);
                    }
                }
            }
            i = i + 1;
        }
        proof {
            assert(i == self.clients@.len());
            assert forall|k: int| 0 <= k < out@.len() implies self.joined((#[trigger] out@[k])@)
                && out@[k]@ != exclude_id@ by {
                assert(0 <= src[k] < i && self.clients@[src[k]].id@ == out@[k]@ && out@[k]@
                    != exclude_id@);
            }
            assert forall|k1: int, k2: int| 0 <= k1 < k2 < out@.len() implies out@[k1]@
                != out@[k2]@ by {
                assert(0 <= src[k1] < i && self.clients@[src[k1]].id@ == out@[k1]@);
                assert(0 <= src[k2] < i && self.clients@[src[k2]].id@ == out@[k2]@);
                assert(src[k1] < src[k2]);
                assert(self.clients@[src[k1]].id@ != self.clients@[src[k2]].id@);
            }
            assert forall|x: Seq<char>| self.joined(x) && x != exclude_id@ implies exists|k: int|
                0 <= k < out@.len() && (#[trigger] out@[k])@ == x by {
                let w = choose|w: int|
                    0 <= w < self.clients@.len() && (#[trigger] self.clients@[w]).id@ == x;
                assert(self.clients@[w].id@ != exclude_id@);
            }
        }
        out
    }
}

} // verus!
