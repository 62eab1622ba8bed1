use vstd::prelude::*;

verus! {

/// The outbound delivery handle of one session: the sending half of that
/// connection's unbounded outbound queue.
pub type SessionTx = tokio::sync::mpsc::UnboundedSender<String>;

/// Declares tokio's `UnboundedSender` to the verifier; its values are
/// opaque and only pass through.
#[verifier::external_type_specification]
#[verifier::external_body]
#[verifier::reject_recursive_types(T)]
pub struct ExUnboundedSender<T>(tokio::sync::mpsc::UnboundedSender<T>);

/// Relies on `tokio::sync::mpsc::UnboundedSender::send`: queues the message
/// for the session's outbound loop, failing only when the receiving half is
/// gone. Whether it succeeds depends on runtime state, so nothing is assumed
/// of the outcome.
#[verifier::external_body]
pub(crate) fn send_to_handle(tx: &SessionTx, msg: &str) -> bool {
    tx.send(msg.to_string()).is_ok()
}

/// One registry entry: a session of a game and its delivery handle.
pub struct RegistryEntry {
    pub game_id: String,
    pub session_id: String,
    pub tx: SessionTx,
}

/// The per-process connection registry: which session belongs to which game,
/// and how to deliver a message to it. One entry per live
/// `(game identifier, session identifier)` pair; an entry is created on
/// connection upgrade and removed on disconnect, so memory stays bounded by
/// the live sessions.
pub struct ConnectionRegistry {
    pub entries: Vec<RegistryEntry>,
}

impl ConnectionRegistry {
    /// No `(game, session)` pair occurs twice.
    pub open spec fn wf(&self) -> bool {
        forall|i1: int, i2: int|
            0 <= i1 < i2 < self.entries@.len() ==> !((#[trigger] self.entries@[i1]).game_id@
                == (#[trigger] self.entries@[i2]).game_id@ && self.entries@[i1].session_id@
                == self.entries@[i2].session_id@)
    }

    /// Whether the session is registered under the game.
    pub open spec fn registered(&self, g: Seq<char>, s: Seq<char>) -> bool {
        exists|i: int|
            0 <= i < self.entries@.len() && (#[trigger] self.entries@[i]).game_id@ == g
                && self.entries@[i].session_id@ == s
    }

    pub fn new() -> (r: ConnectionRegistry)
        ensures
            r.wf(),
            r.entries@.len() == 0,
            forall|g: Seq<char>, s: Seq<char>| !r.registered(g, s),
    {
        ConnectionRegistry { entries: Vec::new() }
    }

    /// The index of the entry for the pair, if one exists.
    fn find(&self, game_id: &String, session_id: &String) -> (r: Option<usize>)
        ensures
            match r {
                Some(i) => i < self.entries@.len() && self.entries@[i as int].game_id@ == game_id@
                    && self.entries@[i as int].session_id@ == session_id@,
                None => !self.registered(game_id@, session_id@),
            },
    {
        let mut i: usize = 0;
        while i < self.entries.len()
            invariant
                i <= self.entries@.len(),
                forall|k: int|
                    0 <= k < i ==> !((#[trigger] self.entries@[k]).game_id@ == game_id@
                        && self.entries@[k].session_id@ == session_id@),
            decreases self.entries@.len() - i,
        {
            let e = &self.entries[i];
            if e.game_id == *game_id && e.session_id == *session_id {
                return Some(i);
            }
            i = i + 1;
        }
        None
    }

    /// Registers the session's delivery handle under the game; a handle
    /// already held for the same pair is replaced.
    pub fn add(&mut self, game_id: &String, session_id: &String, tx: SessionTx)
        requires
            old(self).wf(),
        ensures
            final(self).wf(),
            forall|g: Seq<char>, s: Seq<char>|
                final(self).registered(g, s) <==> (old(self).registered(g, s) || (g == game_id@
                    && s == session_id@)),
    {
        let entry = RegistryEntry { game_id: game_id.clone(), session_id: session_id.clone(), tx };
        let found = self.find(game_id, session_id);
        match found {
            Some(i) => {
                self.entries.set(i, entry);
                proof {
                    assert forall|g: Seq<char>, s: Seq<char>|
                        final(self).registered(g, s) implies (old(self).registered(g, s) || (g
                        == game_id@ && s == session_id@)) by {
                        let w = choose|w: int|
                            0 <= w < self.entries@.len() && (#[trigger] self.entries@[w]).game_id@
                                == g && self.entries@[w].session_id@ == s;
                        if w != i {
                            assert(old(self).entries@[w] == self.entries@[w]);
                        }
                    }
                    assert forall|g: Seq<char>, s: Seq<char>|
                        (old(self).registered(g, s) || (g == game_id@ && s == session_id@))
                        implies final(self).registered(g, s) by {
                        if g == game_id@ && s == session_id@ {
                            assert(self.entries@[i as int].game_id@ == g);
                        } else {
                            let w = choose|w: int|
                                0 <= w < old(self).entries@.len() && (#[trigger] old(
                                    self,
                                ).entries@[w]).game_id@ == g && old(self).entries@[w].session_id@
                                    == s;
                            assert(self.entries@[w].game_id@ == g);
                        }
                    }
                }
            },
            None => {
                self.entries.push(entry);
                proof {
                    assert forall|g: Seq<char>, s: Seq<char>|
                        final(self).registered(g, s) implies (old(self).registered(g, s) || (g
                        == game_id@ && s == session_id@)) by {
                        let w = choose|w: int|
                            0 <= w < self.entries@.len() && (#[trigger] self.entries@[w]).game_id@
                                == g && self.entries@[w].session_id@ == s;
                        if w < old(self).entries@.len() {
                            assert(old(self).entries@[w] == self.entries@[w]);
                        }
                    }
                    assert forall|g: Seq<char>, s: Seq<char>|
                        (old(self).registered(g, s) || (g == game_id@ && s == session_id@))
                        implies final(self).registered(g, s) by {
                        if g == game_id@ && s == session_id@ {
                            assert(self.entries@[self.entries@.len() - 1].game_id@ == g);
                        } else {
                            let w = choose|w: int|
                                0 <= w < old(self).entries@.len() && (#[trigger] old(
                                    self,
                                ).entries@[w]).game_id@ == g && old(self).entries@[w].session_id@
                                    == s;
                            assert(self.entries@[w].game_id@ == g);
                        }
                    }
                }
            },
        }
    }

    /// Deregisters the session from the game; other sessions and games are
    /// untouched. Removing an absent pair changes nothing.
    pub fn remove(&mut self, game_id: &String, session_id: &String)
        requires
            old(self).wf(),
        ensures
            final(self).wf(),
            forall|g: Seq<char>, s: Seq<char>|
                final(self).registered(g, s) <==> (old(self).registered(g, s) && !(g == game_id@
                    && s == session_id@)),
    {
        let found = self.find(game_id, session_id);
        match found {
            Some(i) => {
                self.entries.swap_remove(i);
                proof {
                    let pre = old(self).entries@;
                    let post = self.entries@;
                    assert forall|g: Seq<char>, s: Seq<char>|
                        final(self).registered(g, s) implies (old(self).registered(g, s) && !(g
                        == game_id@ && s == session_id@)) by {
                        let w = choose|w: int|
                            0 <= w < post.len() && (#[trigger] post[w]).game_id@ == g
                                && post[w].session_id@ == s;
                        if w == i {
                            assert(post[w] == pre[pre.len() - 1]);
                        } else {
                            assert(post[w] == pre[w]);
                        }
                    }
                    assert forall|g: Seq<char>, s: Seq<char>|
                        (old(self).registered(g, s) && !(g == game_id@ && s == session_id@))
                        implies final(self).registered(g, s) by {
                        let w = choose|w: int|
                            0 <= w < pre.len() && (#[trigger] pre[w]).game_id@ == g
                                && pre[w].session_id@ == s;
                        if w == pre.len() - 1 {
                            if w != i {
                                assert(post[i as int] == pre[w]);
                            }
                        } else {
                            if w != i {
                                assert(post[w] == pre[w]);
                            }
                        }
                    }
                }
            },
            None => {},
        }
    }

    /// Best-effort delivery to one registered session, used for replies that
    /// go only to the intent's originating session. Returns whether the pair
    /// was registered; a closed handle is skipped silently.
    pub fn send_to(&self, game_id: &String, session_id: &String, msg: &str) -> (r: bool)
        ensures
            r == self.registered(game_id@, session_id@),
    {
        let found = self.find(game_id, session_id);
        match found {
            Some(i) => {
                let _ok = send_to_handle(&self.entries[i].tx, msg);
                true
            },
            None => false,
        }
    }

    /// Best-effort fanout: delivers the message to every session registered
    /// under the game except the excluded one, and returns the session
    /// identifiers it delivered to — each registered non-excluded session
    /// exactly once. A closed handle is skipped, never blocking the rest.
    #[verifier::rlimit(50)]
    pub fn broadcast_except(&self, game_id: &String, msg: &str, exclude_session_id: &String) -> (r:
        Vec<String>)
        requires
            self.wf(),
        ensures
            forall|k: int|
                0 <= k < r@.len() ==> self.registered(game_id@, (#[trigger] r@[k])@) && r@[k]@
                    != exclude_session_id@,
            forall|s: Seq<char>|
                self.registered(game_id@, s) && s != exclude_session_id@ ==> exists|k: int|
                    0 <= k < r@.len() && (#[trigger] r@[k])@ == s,
            forall|k1: int, k2: int| 0 <= k1 < k2 < r@.len() ==> r@[k1]@ != r@[k2]@,
    {
        let mut out: Vec<String> = Vec::new();
        let ghost mut src: Seq<int> = Seq::empty();
        let mut i: usize = 0;
        while i < self.entries.len()
            invariant
                self.wf(),
                i <= self.entries@.len(),
                src.len() == out@.len(),
                forall|k: int|
                    0 <= k < out@.len() ==> 0 <= #[trigger] src[k] < i
                        && self.entries@[src[k]].game_id@ == game_id@
                        && self.entries@[src[k]].session_id@ == out@[k]@ && out@[k]@
                        != exclude_session_id@,
                forall|k1: int, k2: int| 0 <= k1 < k2 < src.len() ==> src[k1] < src[k2],
                forall|e: int|
                    0 <= e < i && (#[trigger] self.entries@[e]).game_id@ == game_id@
                        && self.entries@[e].session_id@ != exclude_session_id@ ==> exists|k: int|
                        0 <= k < out@.len() && (#[trigger] out@[k])@
                            == self.entries@[e].session_id@,
            decreases self.entries@.len() - i,
        {
            let e = &self.entries[i];
            if e.game_id == *game_id && !(e.session_id == *exclude_session_id) {
                let _ok = send_to_handle(&e.tx, msg);
                let ghost out0 = out@;
                let ghost src0 = src;
                out.push(e.session_id.clone());
                proof {
                    src = src.push(i as int);
                    assert(out@ == out0.push(out@[out0.len() as int]));
                    assert(out@[out0.len() as int]@ == self.entries@[i as int].session_id@);
                    assert forall|k: int| 0 <= k < out@.len() implies 0 <= #[trigger] src[k] < i
                        + 1 && self.entries@[src[k]].game_id@ == game_id@
                        && self.entries@[src[k]].session_id@ == out@[k]@ && out@[k]@
                        != exclude_session_id@ by {
                        if k < out0.len() {
                            assert(out@[k] == out0[k]);
                            assert(src[k] == src0[k]);
                            assert(0 <= src0[k] < i && self.entries@[src0[k]].game_id@ == game_id@
                                && self.entries@[src0[k]].session_id@ == out0[k]@ && out0[k]@
                                != exclude_session_id@);
                        } else {
                            assert(src[k] == i as int);
                            assert(out@[k]@ == self.entries@[i as int].session_id@);
                        }
                    }
                    assert forall|k1: int, k2: int| 0 <= k1 < k2 < src.len() implies src[k1]
                        < src[k2] by {
                        if k2 < src0.len() {
                            assert(src[k1] == src0[k1] && src[k2] == src0[k2]);
                        } else {
                            assert(src[k2] == i as int);
                            assert(0 <= src0[k1] < i && self.entries@[src0[k1]].game_id@
                                == game_id@ && self.entries@[src0[k1]].session_id@ == out0[k1]@);
                        }
                    }
                    assert forall|e2: int|
                        0 <= e2 < i + 1 && (#[trigger] self.entries@[e2]).game_id@ == game_id@
                            && self.entries@[e2].session_id@ != exclude_session_id@ implies exists|
                        k: int,
                    |
                        0 <= k < out@.len() && (#[trigger] out@[k])@
                            == self.entries@[e2].session_id@ by {
                        if e2 < i {
                            let k = choose|k: int|
                                0 <= k < out0.len() && (#[trigger] out0[k])@
                                    == self.entries@[e2].session_id@;
                            assert(out@[k]@ == self.entries@[e2].session_id@);
                        } else {
                            assert(out@[out0.len() as int]@ == self.entries@[e2].session_id@);
                        }
                    }
                }
            } else {
                proof {
                    assert forall|e2: int|
                        0 <= e2 < i + 1 && (#[trigger] self.entries@[e2]).game_id@ == game_id@
                            && self.entries@[e2].session_id@ != exclude_session_id@ implies exists|
                        k: int,
                    |
                        0 <= k < out@.len() && (#[trigger] out@[k])@
                            == self.entries@[e2].session_id@ by {
                        assert(e2 < i);
                    }
                }
            }
            i = i + 1;
        }
        proof {
            assert(i == self.entries@.len());
            assert forall|k: int| 0 <= k < out@.len() implies self.registered(
                game_id@,
                (#[trigger] out@[k])@,
            ) && out@[k]@ != exclude_session_id@ by {
                assert(0 <= src[k] < i && self.entries@[src[k]].game_id@ == game_id@
                    && self.entries@[src[k]].session_id@ == out@[k]@ && out@[k]@
                    != exclude_session_id@);
            }
            assert forall|k1: int, k2: int| 0 <= k1 < k2 < out@.len() implies out@[k1]@
                != out@[k2]@ by {
                assert(0 <= src[k1] < i && self.entries@[src[k1]].game_id@ == game_id@
                    && self.entries@[src[k1]].session_id@ == out@[k1]@);
                assert(0 <= src[k2] < i && self.entries@[src[k2]].game_id@ == game_id@
                    && self.entries@[src[k2]].session_id@ == out@[k2]@);
                assert(src[k1] < src[k2]);
                assert(!(self.entries@[src[k1]].game_id@ == self.entries@[src[k2]].game_id@
                    && self.entries@[src[k1]].session_id@ == self.entries@[src[k2]].session_id@));
            }
            assert forall|s: Seq<char>|
                self.registered(game_id@, s) && s != exclude_session_id@ implies exists|k: int|
                0 <= k < out@.len() && (#[trigger] out@[k])@ == s by {
                let w = choose|w: int|
                    0 <= w < self.entries@.len() && (#[trigger] self.entries@[w]).game_id@
                        == game_id@ && self.entries@[w].session_id@ == s;
                assert(self.entries@[w].session_id@ != exclude_session_id@);
            }
        }
        out
    }
}

} // verus!
