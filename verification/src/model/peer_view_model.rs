//! The set of connected peers shown in the side panel.

use vstd::prelude::*;

use crate::text::{str_eq, views};

verus! {

/// The peers, each at most once.
#[derive(Clone, Debug)]
pub struct PeerViewModel {
    peers: Vec<String>,
}

impl Default for PeerViewModel {
    fn default() -> (m: PeerViewModel)
        ensures
            m.wf(),
            m@ == Set::<Seq<char>>::empty(),
    {
        let m = PeerViewModel { peers: Vec::new() };
        assert(views(m.peers@).to_set() =~= Set::<Seq<char>>::empty());
        m
    }
}

impl View for PeerViewModel {
    type V = Set<Seq<char>>;

    closed spec fn view(&self) -> Set<Seq<char>> {
        views(self.peers@).to_set()
    }
}

impl PeerViewModel {
    /// No peer occurs twice.
    pub closed spec fn wf(&self) -> bool {
        views(self.peers@).no_duplicates()
    }

    /// The peers, in the order they were added, each once.
    pub fn peers(&self) -> (r: &Vec<String>)
        requires
            self.wf(),
        ensures
            views(r@).to_set() == self@,
            views(r@).no_duplicates(),
    {
        &self.peers
    }

    fn position_of(&self, peer: &str) -> (r: Option<usize>)
        ensures
            match r {
                Some(i) => i < self.peers@.len() && self.peers@[i as int]@ == peer@,
                None => !self@.contains(peer@),
            },
    {
        let mut i: usize = 0;
        while i < self.peers.len()
            invariant
                i <= self.peers@.len(),
                forall|j: int| 0 <= j < i ==> self.peers@[j]@ != peer@,
            decreases self.peers@.len() - i,
        {
            if str_eq(self.peers[i].as_str(), peer) {
                return Some(i);
            }
            i = i + 1;
        }
        proof {
            if self@.contains(peer@) {
                let j = views(self.peers@).index_of(peer@);
                assert(views(self.peers@)[j] == self.peers@[j]@);
            }
        }
        None
    }

    /// Adds a peer; `true` when it was not there yet.
    pub fn addPeer(&mut self, peer: String) -> (added: bool)
        requires
            old(self).wf(),
        ensures
            final(self).wf(),
            added == !old(self)@.contains(peer@),
            final(self)@ == old(self)@.insert(peer@),
    {
        match self.position_of(peer.as_str()) {
            Some(i) => {
                proof {
                    assert(views(self.peers@)[i as int] == peer@);
                    assert(self@.insert(peer@) =~= self@);
                }
                false
            },
            None => {
                let ghost before = views(self.peers@);
                self.peers.push(peer);
                proof {
                    assert(views(self.peers@) =~= before.push(peer@));
                    assert(views(self.peers@).to_set() =~= before.to_set().insert(peer@)) by {
                        before.lemma_push_to_set_commute(peer@);
                    }
                }
                true
            },
        }
    }

    /// Removes a peer; `true` when it was there.
    pub fn removePeer(&mut self, peer: &str) -> (removed: bool)
        requires
            old(self).wf(),
        ensures
            final(self).wf(),
            removed == old(self)@.contains(peer@),
            final(self)@ == old(self)@.remove(peer@),
    {
        match self.position_of(peer) {
            Some(i) => {
                let ghost before = views(self.peers@);
                proof {
                    assert(before[i as int] == peer@);
                }
                self.peers.remove(i);
                proof {
                    let after = views(self.peers@);
                    assert(after =~= before.remove(i as int));
                    assert forall|x: Seq<char>| #[trigger] after.to_set().contains(x) == before.to_set().remove(peer@).contains(x) by {
                        if after.contains(x) {
                            let j = after.index_of(x);
                            if j < i {
                                assert(before[j] == x);
                            } else {
                                assert(before[j + 1] == x);
                            }
                        }
                        if before.contains(x) && x != peer@ {
                            let j = before.index_of(x);
                            if j < i {
                                assert(after[j] == x);
                            } else {
                                assert(j != i);
                                assert(after[j - 1] == x);
                            }
                        }
                    }
                    assert(after.to_set() =~= before.to_set().remove(peer@));
                }
                true
            },
            None => {
                proof {
                    assert(self@.remove(peer@) =~= self@);
                }
                false
            },
        }
    }
}

/// Removing a peer right after adding it gives back the set that was there,
/// when the peer was not in it.
pub proof fn law_remove_undoes_add(s: Set<Seq<char>>, peer: Seq<char>)
    requires
        !s.contains(peer),
    ensures
        s.insert(peer).remove(peer) == s,
{
    assert(s.insert(peer).remove(peer) =~= s);
}

} // verus!
