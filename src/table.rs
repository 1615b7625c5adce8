//! The peer session table: at most one session per peer id.
use vstd::prelude::*;
use crate::message::{IceCandidateInit, CandidateView};

verus! {

/// Negotiation state of one peer session. A peer without a session is `Closed`.
#[derive(Clone, Copy, Debug, PartialEq, Eq, Structural)]
pub enum PeerState {
    New,
    OfferSent,
    AwaitingOffer,
    AnswerExchanged,
    Established,
    Closed,
}

/// One peer's session.
#[derive(Debug)]
pub struct PeerSession {
    pub peer: String,
    pub polite: bool,
    pub state: PeerState,
    /// Remote candidates held back until the remote description is applied.
    pub pending: Vec<IceCandidateInit>,
    /// A local answer was requested and has not been sent yet.
    pub reply_pending: bool,
}

pub ghost struct SessionView {
    pub polite: bool,
    pub state: PeerState,
    pub pending: Seq<CandidateView>,
    pub reply_pending: bool,
}

pub open spec fn candidates_view(v: Seq<IceCandidateInit>) -> Seq<CandidateView> {
    v.map_values(|c: IceCandidateInit| c@)
}

impl View for PeerSession {
    type V = SessionView;

    open spec fn view(&self) -> SessionView {
        SessionView {
            polite: self.polite,
            state: self.state,
            pending: candidates_view(self.pending@),
            reply_pending: self.reply_pending,
        }
    }
}

/// Errors of the table's lookups and insertions.
#[derive(Clone, Copy, Debug, PartialEq, Eq, Structural)]
pub enum TableError {
    AlreadyExists,
    NotFound,
}

/// The sessions, keyed by peer id.
pub struct SessionTable {
    pub sessions: Vec<PeerSession>,
}

pub open spec fn has_peer(s: Seq<PeerSession>, k: Seq<char>) -> bool {
    exists|i: int| 0 <= i < s.len() && #[trigger] s[i].peer@ == k
}

pub open spec fn table_map(s: Seq<PeerSession>) -> Map<Seq<char>, SessionView> {
    Map::new(
        |k: Seq<char>| has_peer(s, k),
        |k: Seq<char>| s[choose|i: int| 0 <= i < s.len() && #[trigger] s[i].peer@ == k]@,
    )
}

pub open spec fn unique_peers(s: Seq<PeerSession>) -> bool {
    forall|i: int, j: int|
        0 <= i < s.len() && 0 <= j < s.len() && #[trigger] s[i].peer@ == #[trigger] s[j].peer@ ==> i == j
}

pub proof fn lemma_entry(s: Seq<PeerSession>, i: int)
    requires
        unique_peers(s),
        0 <= i < s.len(),
    ensures
        table_map(s).contains_key(s[i].peer@),
        table_map(s)[s[i].peer@] == s[i]@,
{
    let k = s[i].peer@;
    assert(has_peer(s, k));
    let j = choose|j: int| 0 <= j < s.len() && #[trigger] s[j].peer@ == k;
    assert(s[j].peer@ == s[i].peer@);
}

impl View for SessionTable {
    type V = Map<Seq<char>, SessionView>;

    open spec fn view(&self) -> Map<Seq<char>, SessionView> {
        table_map(self.sessions@)
    }
}

impl SessionTable {
    pub open spec fn wf(&self) -> bool {
        unique_peers(self.sessions@)
    }

    pub fn new() -> (r: SessionTable)
        ensures
            r.wf(),
            r@ == Map::<Seq<char>, SessionView>::empty(),
    {
        let r = SessionTable { sessions: Vec::new() };
        assert(r@ =~= Map::<Seq<char>, SessionView>::empty());
        r
    }

    /// Position of `peer`'s session, if it has one.
    pub fn find(&self, peer: &String) -> (r: Option<usize>)
        requires
            self.wf(),
        ensures
            r.is_none() <==> !self@.contains_key(peer@),
            r matches Some(i) ==> i < self.sessions@.len() && self.sessions@[i as int].peer@ == peer@,
    {
        let mut i: usize = 0;
        while i < self.sessions.len()
            invariant
                i <= self.sessions@.len(),
                forall|j: int| 0 <= j < i ==> #[trigger] self.sessions@[j].peer@ != peer@,
            decreases self.sessions@.len() - i,
        {
            if self.sessions[i].peer == *peer {
                return Some(i);
            }
            i = i + 1;
        }
        None
    }

    /// Whether `peer` has a session.
    pub fn contains(&self, peer: &String) -> (r: bool)
        requires
            self.wf(),
        ensures
            r == self@.contains_key(peer@),
    {
        self.find(peer).is_some()
    }

    /// The session of `peer`.
    pub fn get(&self, peer: &String) -> (r: Result<&PeerSession, TableError>)
        requires
            self.wf(),
        ensures
            self@.contains_key(peer@) <==> r.is_ok(),
            r matches Ok(s) ==> s.peer@ == peer@ && s@ == self@[peer@],
            r matches Err(e) ==> e == TableError::NotFound,
    {
        match self.find(peer) {
            Some(i) => {
                proof { lemma_entry(self.sessions@, i as int); }
                Ok(&self.sessions[i])
            },
            None => Err(TableError::NotFound),
        }
    }

    /// Adds a session in `state` for `peer`, unless `peer` already has one.
    pub fn insert_if_absent(&mut self, peer: String, polite: bool, state: PeerState) -> (r: Result<(), TableError>)
        requires
            old(self).wf(),
        ensures
            final(self).wf(),
            old(self)@.contains_key(peer@) ==> r == Err::<(), TableError>(TableError::AlreadyExists)
                && final(self)@ == old(self)@,
            !old(self)@.contains_key(peer@) ==> r is Ok && final(self)@ == old(self)@.insert(
                peer@,
                SessionView { polite, state, pending: Seq::empty(), reply_pending: false },
            ),
    {
        if self.contains(&peer) {
            return Err(TableError::AlreadyExists);
        }
        let ghost s0 = self.sessions@;
        let session = PeerSession { peer, polite, state, pending: Vec::new(), reply_pending: false };
        self.sessions.push(session);
        let ghost s1 = self.sessions@;
        proof {
            assert forall|i: int, j: int|
                0 <= i < s1.len() && 0 <= j < s1.len() && #[trigger] s1[i].peer@ == #[trigger] s1[j].peer@
                implies i == j by {
                if i < s0.len() && j == s0.len() {
                    assert(has_peer(s0, s1[i].peer@));
                }
                if j < s0.len() && i == s0.len() {
                    assert(has_peer(s0, s1[j].peer@));
                }
            }
            let m = old(self)@.insert(
                s1[s0.len() as int].peer@,
                SessionView { polite, state, pending: Seq::empty(), reply_pending: false },
            );
            assert(candidates_view(Seq::<IceCandidateInit>::empty()) =~= Seq::empty());
            assert forall|k: Seq<char>| #[trigger] m.contains_key(k) <==> has_peer(s1, k) by {
                if has_peer(s1, k) {
                    let i = choose|i: int| 0 <= i < s1.len() && #[trigger] s1[i].peer@ == k;
                    if i < s0.len() {
                        assert(s0[i].peer@ == k);
                    }
                }
                if has_peer(s0, k) {
                    let i = choose|i: int| 0 <= i < s0.len() && #[trigger] s0[i].peer@ == k;
                    assert(s1[i].peer@ == k);
                }
                if k == s1[s0.len() as int].peer@ {
                    assert(has_peer(s1, k));
                }
            }
            assert forall|k: Seq<char>| #[trigger] m.contains_key(k) implies table_map(s1)[k] == m[k] by {
                let i = choose|i: int| 0 <= i < s1.len() && #[trigger] s1[i].peer@ == k;
                lemma_entry(s1, i);
                if i < s0.len() {
                    assert(s0[i] == s1[i]);
                    lemma_entry(s0, i);
                }
            }
            assert(table_map(s1) =~= m);
        }
        Ok(())
    }

    /// Drops `peer`'s session; reports whether there was one.
    pub fn remove(&mut self, peer: &String) -> (r: bool)
        requires
            old(self).wf(),
        ensures
            final(self).wf(),
            r == old(self)@.contains_key(peer@),
            final(self)@ == old(self)@.remove(peer@),
    {
        match self.find(peer) {
            None => {
                assert(old(self)@.remove(peer@) =~= old(self)@);
                false
            },
            Some(idx) => {
                let ghost s0 = self.sessions@;
                self.sessions.remove(idx);
                let ghost s1 = self.sessions@;
                proof {
                    assert forall|i: int| 0 <= i < s1.len() implies #[trigger] s1[i] == s0[if i < idx { i } else { i + 1 }] by {}
                    assert forall|i: int, j: int|
                        0 <= i < s1.len() && 0 <= j < s1.len() && #[trigger] s1[i].peer@ == #[trigger] s1[j].peer@
                        implies i == j by {
                        let a = if i < idx { i } else { i + 1 };
                        let b = if j < idx { j } else { j + 1 };
                        assert(s0[a].peer@ == s0[b].peer@);
                    }
                    let m = old(self)@.remove(peer@);
                    assert forall|k: Seq<char>| #[trigger] m.contains_key(k) <==> has_peer(s1, k) by {
                        if has_peer(s1, k) {
                            let i = choose|i: int| 0 <= i < s1.len() && #[trigger] s1[i].peer@ == k;
                            let a = if i < idx { i } else { i + 1 };
                            assert(s0[a].peer@ == k);
                            assert(has_peer(s0, k));
                            assert(a != idx);
                        }
                        if m.contains_key(k) {
                            let i = choose|i: int| 0 <= i < s0.len() && #[trigger] s0[i].peer@ == k;
                            assert(i != idx);
                            let b = if i < idx { i } else { i - 1 };
                            assert(s1[b].peer@ == k);
                        }
                    }
                    assert forall|k: Seq<char>| #[trigger] m.contains_key(k) implies table_map(s1)[k] == m[k] by {
                        let i = choose|i: int| 0 <= i < s1.len() && #[trigger] s1[i].peer@ == k;
                        lemma_entry(s1, i);
                        let a = if i < idx { i } else { i + 1 };
                        lemma_entry(s0, a);
                    }
                    assert(table_map(s1) =~= m);
                }
                true
            },
        }
    }
    /// Puts `s` in place of the session at `i`, which belongs to the same peer,
    /// and hands the previous one back.
    pub fn replace_at(&mut self, i: usize, s: PeerSession) -> (r: PeerSession)
        requires
            old(self).wf(),
            i < old(self).sessions@.len(),
            s.peer@ == old(self).sessions@[i as int].peer@,
        ensures
            final(self).wf(),
            r == old(self).sessions@[i as int],
            final(self).sessions@ == old(self).sessions@.update(i as int, s),
            final(self)@ == old(self)@.insert(s.peer@, s@),
            old(self)@.contains_key(s.peer@),
            old(self)@[s.peer@] == r@,
    {
        let ghost s0 = self.sessions@;
        let ghost sv = s;
        let r = self.sessions.remove(i);
        self.sessions.insert(i, s);
        let ghost s1 = self.sessions@;
        proof {
            assert(s1 =~= s0.update(i as int, sv));
            lemma_entry(s0, i as int);
            assert forall|a: int, b: int|
                0 <= a < s1.len() && 0 <= b < s1.len() && #[trigger] s1[a].peer@ == #[trigger] s1[b].peer@
                implies a == b by {
                assert(s0[a].peer@ == s0[b].peer@);
            }
            let m = table_map(s0).insert(sv.peer@, sv@);
            assert forall|k: Seq<char>| #[trigger] m.contains_key(k) <==> has_peer(s1, k) by {
                if has_peer(s1, k) {
                    let a = choose|a: int| 0 <= a < s1.len() && #[trigger] s1[a].peer@ == k;
                    assert(s0[a].peer@ == k);
                }
                if has_peer(s0, k) {
                    let a = choose|a: int| 0 <= a < s0.len() && #[trigger] s0[a].peer@ == k;
                    assert(s1[a].peer@ == k);
                }
                if k == sv.peer@ {
                    assert(s1[i as int].peer@ == k);
                }
            }
            assert forall|k: Seq<char>| #[trigger] m.contains_key(k) implies table_map(s1)[k] == m[k] by {
                let a = choose|a: int| 0 <= a < s1.len() && #[trigger] s1[a].peer@ == k;
                lemma_entry(s1, a);
                if a != i {
                    lemma_entry(s0, a);
                }
            }
            assert(table_map(s1) =~= m);
        }
        r
    }
    /// Sets the negotiation state and the reply flag of the session at `i`.
    pub fn set_status(&mut self, i: usize, state: PeerState, reply_pending: bool)
        requires
            old(self).wf(),
            i < old(self).sessions@.len(),
        ensures
            final(self).wf(),
            ({
                let k = old(self).sessions@[i as int].peer@;
                &&& old(self)@.contains_key(k)
                &&& final(self)@ == old(self)@.insert(k, SessionView { state, reply_pending, ..old(self)@[k] })
            }),
    {
        let peer = self.sessions[i].peer.clone();
        let polite = self.sessions[i].polite;
        let hole = PeerSession { peer: peer.clone(), polite, state, pending: Vec::new(), reply_pending };
        let prev = self.replace_at(i, hole);
        let next = PeerSession { peer, polite, state, pending: prev.pending, reply_pending };
        self.replace_at(i, next);
    }

    /// Appends `c` to the held-back candidates of the session at `i`.
    pub fn push_pending(&mut self, i: usize, c: IceCandidateInit)
        requires
            old(self).wf(),
            i < old(self).sessions@.len(),
        ensures
            final(self).wf(),
            ({
                let k = old(self).sessions@[i as int].peer@;
                &&& old(self)@.contains_key(k)
                &&& final(self)@ == old(self)@.insert(
                    k,
                    SessionView { pending: old(self)@[k].pending.push(c@), ..old(self)@[k] },
                )
            }),
    {
        let peer = self.sessions[i].peer.clone();
        let polite = self.sessions[i].polite;
        let state = self.sessions[i].state;
        let reply_pending = self.sessions[i].reply_pending;
        let hole = PeerSession { peer: peer.clone(), polite, state, pending: Vec::new(), reply_pending };
        let prev = self.replace_at(i, hole);
        let mut pending = prev.pending;
        let ghost p0 = pending@;
        pending.push(c);
        assert(candidates_view(pending@) =~= candidates_view(p0).push(c@));
        let next = PeerSession { peer, polite, state, pending, reply_pending };
        self.replace_at(i, next);
    }
}

} // verus!
