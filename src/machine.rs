//! The signaling state machine. It takes inbound signaling messages and the
//! peer-connection engine's reports as events, keeps the session table, and
//! answers each event with the actions to perform, in order.
use vstd::prelude::*;
use crate::message::{
    SdpType, SessionDescription, IceCandidateInit, SignalMessage, DescriptionView, CandidateView,
    MessageView, EnvelopeView, opt_candidate_view,
};
use crate::table::{PeerState, PeerSession, SessionView, SessionTable, candidates_view, lemma_entry};

verus! {

/// What the state machine reacts to.
#[derive(Debug)]
pub enum Event {
    /// A message that arrived from the relay.
    Signal(SignalMessage),
    /// The engine produced a local offer or answer and set it as local description.
    LocalDescription { peer: String, data: SessionDescription },
    /// The engine discovered a local candidate; `None` ends the candidates.
    LocalCandidate { peer: String, data: Option<IceCandidateInit> },
    /// The engine reports the peer's data channel open and usable.
    ChannelOpen { peer: String },
    /// Creating or setting a description failed for the peer.
    EngineFailed { peer: String },
}

/// What the caller must do, in the order given.
#[derive(Debug)]
pub enum Action {
    /// Create the peer connection; an offerer also opens the data channel and
    /// creates an offer, an answerer waits for the remote's data channel.
    OpenPeer { peer: String, offerer: bool },
    /// Apply `data` as remote description; with `reply`, create and set a local answer.
    ApplyRemote { peer: String, data: SessionDescription, reply: bool },
    /// Submit a remote candidate to the engine.
    AddCandidate { peer: String, candidate: IceCandidateInit },
    /// Send a message to the relay.
    Send(crate::message::SignalEnvelope),
    /// Release the peer connection and any channel bound to it.
    ClosePeer { peer: String },
    /// Hand the peer's open data channel to the bridge.
    BridgeChannel { peer: String },
}

pub ghost enum EventView {
    Signal(MessageView),
    LocalDescription { peer: Seq<char>, data: DescriptionView },
    LocalCandidate { peer: Seq<char>, data: Option<CandidateView> },
    ChannelOpen { peer: Seq<char> },
    EngineFailed { peer: Seq<char> },
}

pub ghost enum ActionView {
    OpenPeer { peer: Seq<char>, offerer: bool },
    ApplyRemote { peer: Seq<char>, data: DescriptionView, reply: bool },
    AddCandidate { peer: Seq<char>, candidate: CandidateView },
    Send(EnvelopeView),
    ClosePeer { peer: Seq<char> },
    BridgeChannel { peer: Seq<char> },
}

impl View for Event {
    type V = EventView;

    open spec fn view(&self) -> EventView {
        match self {
            Event::Signal(m) => EventView::Signal(m@),
            Event::LocalDescription { peer, data } => EventView::LocalDescription { peer: peer@, data: data@ },
            Event::LocalCandidate { peer, data } => EventView::LocalCandidate {
                peer: peer@,
                data: opt_candidate_view(*data),
            },
            Event::ChannelOpen { peer } => EventView::ChannelOpen { peer: peer@ },
            Event::EngineFailed { peer } => EventView::EngineFailed { peer: peer@ },
        }
    }
}

impl View for Action {
    type V = ActionView;

    open spec fn view(&self) -> ActionView {
        match self {
            Action::OpenPeer { peer, offerer } => ActionView::OpenPeer { peer: peer@, offerer: *offerer },
            Action::ApplyRemote { peer, data, reply } => ActionView::ApplyRemote {
                peer: peer@,
                data: data@,
                reply: *reply,
            },
            Action::AddCandidate { peer, candidate } => ActionView::AddCandidate {
                peer: peer@,
                candidate: candidate@,
            },
            Action::Send(e) => ActionView::Send(e@),
            Action::ClosePeer { peer } => ActionView::ClosePeer { peer: peer@ },
            Action::BridgeChannel { peer } => ActionView::BridgeChannel { peer: peer@ },
        }
    }
}

pub type Sessions = Map<Seq<char>, SessionView>;

pub open spec fn actions_view(v: Seq<Action>) -> Seq<ActionView> {
    v.map_values(|a: Action| a@)
}

/// Sending `m` to the relay; the relay connection is named after the peer.
pub open spec fn send(peer: Seq<char>, m: MessageView) -> ActionView {
    ActionView::Send(EnvelopeView { connection_id: peer, message: m })
}

/// Submitting the held-back candidates, oldest first.
pub open spec fn flush(peer: Seq<char>, pending: Seq<CandidateView>) -> Seq<ActionView> {
    pending.map_values(|c: CandidateView| ActionView::AddCandidate { peer, candidate: c })
}

/// The remote description has been applied in this state.
pub open spec fn remote_set(st: PeerState) -> bool {
    st == PeerState::AnswerExchanged || st == PeerState::Established
}

/// What holds of every session the machine keeps.
pub open spec fn session_ok(s: SessionView) -> bool {
    &&& s.state != PeerState::Closed
    &&& s.state == PeerState::AwaitingOffer ==> s.polite
    &&& (s.state == PeerState::New || s.state == PeerState::OfferSent) ==> !s.polite
    &&& remote_set(s.state) ==> s.pending.len() == 0
    &&& s.reply_pending ==> s.polite
}

pub open spec fn sessions_ok(m: Sessions) -> bool {
    forall|k: Seq<char>| #[trigger] m.contains_key(k) ==> session_ok(m[k])
}

pub open spec fn unchanged(m: Sessions) -> (Sessions, Seq<ActionView>) {
    (m, Seq::empty())
}

pub open spec fn step_add(m: Sessions, peer: Seq<char>, polite: bool) -> (Sessions, Seq<ActionView>) {
    if m.contains_key(peer) {
        unchanged(m)
    } else {
        let state = if polite { PeerState::AwaitingOffer } else { PeerState::New };
        (
            m.insert(peer, SessionView { polite, state, pending: Seq::empty(), reply_pending: false }),
            seq![ActionView::OpenPeer { peer, offerer: !polite }],
        )
    }
}

pub open spec fn step_remove(m: Sessions, peer: Seq<char>) -> (Sessions, Seq<ActionView>) {
    if m.contains_key(peer) {
        (m.remove(peer), seq![ActionView::ClosePeer { peer }])
    } else {
        unchanged(m)
    }
}

/// An offer is taken while awaiting one, an answer after our offer went out;
/// any other description is discarded.
pub open spec fn step_description(m: Sessions, peer: Seq<char>, data: DescriptionView) -> (Sessions, Seq<ActionView>) {
    if !m.contains_key(peer) {
        unchanged(m)
    } else {
        let s = m[peer];
        let is_offer = data.sdp_type == SdpType::Offer;
        if (is_offer && s.state == PeerState::AwaitingOffer) || (data.sdp_type == SdpType::Answer
            && s.state == PeerState::OfferSent) {
            (
                m.insert(
                    peer,
                    SessionView {
                        state: PeerState::AnswerExchanged,
                        pending: Seq::empty(),
                        reply_pending: is_offer,
                        ..s
                    },
                ),
                seq![ActionView::ApplyRemote { peer, data, reply: is_offer }] + flush(peer, s.pending),
            )
        } else {
            unchanged(m)
        }
    }
}

/// A remote candidate goes to the engine once the remote description is
/// applied, and is held back before that.
pub open spec fn step_candidate(m: Sessions, peer: Seq<char>, data: Option<CandidateView>) -> (Sessions, Seq<ActionView>) {
    match data {
        None => unchanged(m),
        Some(c) => if !m.contains_key(peer) {
            unchanged(m)
        } else if remote_set(m[peer].state) {
            (m, seq![ActionView::AddCandidate { peer, candidate: c }])
        } else {
            (m.insert(peer, SessionView { pending: m[peer].pending.push(c), ..m[peer] }), Seq::empty())
        },
    }
}

pub open spec fn step_local_description(m: Sessions, peer: Seq<char>, data: DescriptionView) -> (Sessions, Seq<ActionView>) {
    if !m.contains_key(peer) {
        unchanged(m)
    } else {
        let s = m[peer];
        let out = seq![send(peer, MessageView::SessionDescription { peer, data })];
        if data.sdp_type == SdpType::Offer && s.state == PeerState::New && !s.polite {
            (m.insert(peer, SessionView { state: PeerState::OfferSent, ..s }), out)
        } else if data.sdp_type == SdpType::Answer && s.reply_pending {
            (m.insert(peer, SessionView { reply_pending: false, ..s }), out)
        } else {
            unchanged(m)
        }
    }
}

pub open spec fn step_local_candidate(m: Sessions, peer: Seq<char>, data: Option<CandidateView>) -> (Sessions, Seq<ActionView>) {
    if m.contains_key(peer) {
        (m, seq![send(peer, MessageView::IceCandidate { peer, data })])
    } else {
        unchanged(m)
    }
}

pub open spec fn step_channel_open(m: Sessions, peer: Seq<char>) -> (Sessions, Seq<ActionView>) {
    if m.contains_key(peer) && m[peer].state == PeerState::AnswerExchanged {
        (
            m.insert(peer, SessionView { state: PeerState::Established, ..m[peer] }),
            seq![ActionView::BridgeChannel { peer }],
        )
    } else {
        unchanged(m)
    }
}

/// The next sessions and the actions, for one event.
pub open spec fn step(m: Sessions, e: EventView) -> (Sessions, Seq<ActionView>) {
    match e {
        EventView::Signal(msg) => match msg {
            MessageView::AddPeer { peer, polite } => step_add(m, peer, polite),
            MessageView::RemovePeer { peer } => step_remove(m, peer),
            MessageView::SessionDescription { peer, data } => step_description(m, peer, data),
            MessageView::IceCandidate { peer, data } => step_candidate(m, peer, data),
        },
        EventView::LocalDescription { peer, data } => step_local_description(m, peer, data),
        EventView::LocalCandidate { peer, data } => step_local_candidate(m, peer, data),
        EventView::ChannelOpen { peer } => step_channel_open(m, peer),
        EventView::EngineFailed { peer } => step_remove(m, peer),
    }
}

/// The state of `peer`: `Closed` when it has no session.
pub open spec fn state_spec(m: Sessions, peer: Seq<char>) -> PeerState {
    if m.contains_key(peer) { m[peer].state } else { PeerState::Closed }
}

/// The signaling state machine: the session table and its transitions.
pub struct Signaling {
    pub table: SessionTable,
}

impl View for Signaling {
    type V = Sessions;

    open spec fn view(&self) -> Sessions {
        self.table@
    }
}

fn flush_into(out: &mut Vec<Action>, peer: &String, pending: Vec<IceCandidateInit>)
    ensures
        actions_view(final(out)@) == actions_view(old(out)@) + flush(peer@, candidates_view(pending@)),
{
    let ghost orig = pending@;
    let n = pending.len();
    let ghost start = actions_view(out@);
    let mut rest = pending;
    let mut k: usize = 0;
    while rest.len() > 0
        invariant
            k <= orig.len(),
            orig.len() == n,
            rest@ == orig.skip(k as int),
            actions_view(out@) == start + flush(peer@, candidates_view(orig.take(k as int))),
        decreases rest@.len(),
    {
        let ghost before = out@;
        let c = rest.remove(0);
        out.push(Action::AddCandidate { peer: peer.clone(), candidate: c });
        proof {
            assert(c == orig[k as int]);
            assert(orig.take(k + 1) =~= orig.take(k as int).push(c));
            assert(candidates_view(orig.take(k + 1)) =~= candidates_view(orig.take(k as int)).push(c@));
            assert(actions_view(out@) =~= actions_view(before).push(out@.last()@));
            assert(flush(peer@, candidates_view(orig.take(k + 1))) =~= flush(
                peer@,
                candidates_view(orig.take(k as int)),
            ).push(ActionView::AddCandidate { peer: peer@, candidate: c@ }));
            assert(rest@ =~= orig.skip(k + 1));
        }
        k = k + 1;
    }
    assert(orig.take(k as int) =~= orig);
}

impl Signaling {
    pub open spec fn wf(&self) -> bool {
        self.table.wf() && sessions_ok(self@)
    }

    /// A machine without sessions.
    pub fn new() -> (r: Signaling)
        ensures
            r.wf(),
            r@ == Sessions::empty(),
    {
        Signaling { table: SessionTable::new() }
    }

    /// The state of `peer`'s session, `Closed` when there is none.
    pub fn state_of(&self, peer: &String) -> (r: PeerState)
        requires
            self.wf(),
        ensures
            r == state_spec(self@, peer@),
    {
        match self.table.get(peer) {
            Ok(s) => s.state,
            Err(_) => PeerState::Closed,
        }
    }

    /// Whether `peer` has a session.
    pub fn has_peer(&self, peer: &String) -> (r: bool)
        requires
            self.wf(),
        ensures
            r == self@.contains_key(peer@),
    {
        self.table.contains(peer)
    }

    fn on_add(&mut self, peer: String, polite: bool) -> (r: Vec<Action>)
        requires
            old(self).wf(),
        ensures
            final(self).wf(),
            (final(self)@, actions_view(r@)) == step_add(old(self)@, peer@, polite),
    {
        let mut out: Vec<Action> = Vec::new();
        let state = if polite { PeerState::AwaitingOffer } else { PeerState::New };
        match self.table.insert_if_absent(peer.clone(), polite, state) {
            Ok(()) => {
                out.push(Action::OpenPeer { peer, offerer: !polite });
                assert(actions_view(out@) =~= seq![ActionView::OpenPeer { peer: peer@, offerer: !polite }]);
            },
            Err(_) => {
                assert(actions_view(out@) =~= Seq::<ActionView>::empty());
            },
        }
        out
    }

    fn on_remove(&mut self, peer: String) -> (r: Vec<Action>)
        requires
            old(self).wf(),
        ensures
            final(self).wf(),
            (final(self)@, actions_view(r@)) == step_remove(old(self)@, peer@),
    {
        let mut out: Vec<Action> = Vec::new();
        if self.table.remove(&peer) {
            out.push(Action::ClosePeer { peer });
            assert(actions_view(out@) =~= seq![ActionView::ClosePeer { peer: peer@ }]);
        } else {
            assert(actions_view(out@) =~= Seq::<ActionView>::empty());
        }
        out
    }
    fn on_description(&mut self, peer: String, data: SessionDescription) -> (r: Vec<Action>)
        requires
            old(self).wf(),
        ensures
            final(self).wf(),
            (final(self)@, actions_view(r@)) == step_description(old(self)@, peer@, data@),
    {
        let mut out: Vec<Action> = Vec::new();
        let ghost m = self@;
        match self.table.find(&peer) {
            None => {
                assert(actions_view(out@) =~= Seq::<ActionView>::empty());
                out
            },
            Some(i) => {
                proof { lemma_entry(self.table.sessions@, i as int); }
                let st = self.table.sessions[i].state;
                let polite = self.table.sessions[i].polite;
                let is_offer = data.sdp_type == SdpType::Offer;
                if (is_offer && st == PeerState::AwaitingOffer) || (data.sdp_type == SdpType::Answer && st
                    == PeerState::OfferSent) {
                    let fresh = PeerSession {
                        peer: peer.clone(),
                        polite,
                        state: PeerState::AnswerExchanged,
                        pending: Vec::new(),
                        reply_pending: is_offer,
                    };
                    let prev = self.table.replace_at(i, fresh);
                    let ghost dv = data@;
                    out.push(Action::ApplyRemote { peer: peer.clone(), data, reply: is_offer });
                    assert(actions_view(out@) =~= seq![ActionView::ApplyRemote { peer: peer@, data: dv, reply: is_offer }]);
                    flush_into(&mut out, &peer, prev.pending);
                    proof {
                        let s = m[peer@];
                        assert(candidates_view(Seq::<IceCandidateInit>::empty()) =~= Seq::empty());
                        assert(self@ == m.insert(peer@, SessionView {
                            state: PeerState::AnswerExchanged,
                            pending: Seq::empty(),
                            reply_pending: is_offer,
                            ..s
                        }));
                        assert forall|k: Seq<char>| #[trigger] self@.contains_key(k) implies session_ok(self@[k]) by {
                            if k != peer@ {
                                assert(m.contains_key(k));
                            }
                        }
                    }
                } else {
                    assert(actions_view(out@) =~= Seq::<ActionView>::empty());
                }
                out
            },
        }
    }

    fn on_candidate(&mut self, peer: String, data: Option<IceCandidateInit>) -> (r: Vec<Action>)
        requires
            old(self).wf(),
        ensures
            final(self).wf(),
            (final(self)@, actions_view(r@)) == step_candidate(old(self)@, peer@, opt_candidate_view(data)),
    {
        let mut out: Vec<Action> = Vec::new();
        let ghost m = self@;
        assert(actions_view(out@) =~= Seq::<ActionView>::empty());
        match data {
            None => out,
            Some(c) => match self.table.find(&peer) {
                None => out,
                Some(i) => {
                    proof { lemma_entry(self.table.sessions@, i as int); }
                    let st = self.table.sessions[i].state;
                    if st == PeerState::AnswerExchanged || st == PeerState::Established {
                        let ghost cv = c@;
                        out.push(Action::AddCandidate { peer, candidate: c });
                        assert(actions_view(out@) =~= seq![ActionView::AddCandidate { peer: peer@, candidate: cv }]);
                    } else {
                        self.table.push_pending(i, c);
                        proof {
                            assert forall|k: Seq<char>| #[trigger] self@.contains_key(k) implies session_ok(self@[k]) by {
                                if k != peer@ {
                                    assert(m.contains_key(k));
                                }
                            }
                        }
                    }
                    out
                },
            },
        }
    }

    fn on_local_description(&mut self, peer: String, data: SessionDescription) -> (r: Vec<Action>)
        requires
            old(self).wf(),
        ensures
            final(self).wf(),
            (final(self)@, actions_view(r@)) == step_local_description(old(self)@, peer@, data@),
    {
        let mut out: Vec<Action> = Vec::new();
        let ghost m = self@;
        assert(actions_view(out@) =~= Seq::<ActionView>::empty());
        match self.table.find(&peer) {
            None => out,
            Some(i) => {
                proof { lemma_entry(self.table.sessions@, i as int); }
                let st = self.table.sessions[i].state;
                let polite = self.table.sessions[i].polite;
                let reply_pending = self.table.sessions[i].reply_pending;
                let offer_out = data.sdp_type == SdpType::Offer && st == PeerState::New && !polite;
                let answer_out = data.sdp_type == SdpType::Answer && reply_pending;
                if offer_out || answer_out {
                    if offer_out {
                        self.table.set_status(i, PeerState::OfferSent, reply_pending);
                    } else {
                        self.table.set_status(i, st, false);
                    }
                    let ghost dv = data@;
                    let msg = SignalMessage::SessionDescription { peer: peer.clone(), data };
                    out.push(Action::Send(msg.to_signal_message_action(peer.as_str())));
                    proof {
                        assert(actions_view(out@) =~= seq![
                            send(peer@, MessageView::SessionDescription { peer: peer@, data: dv }),
                        ]);
                        assert forall|k: Seq<char>| #[trigger] self@.contains_key(k) implies session_ok(self@[k]) by {
                            if k != peer@ {
                                assert(m.contains_key(k));
                            }
                        }
                    }
                }
                out
            },
        }
    }

    fn on_local_candidate(&mut self, peer: String, data: Option<IceCandidateInit>) -> (r: Vec<Action>)
        requires
            old(self).wf(),
        ensures
            final(self).wf(),
            (final(self)@, actions_view(r@)) == step_local_candidate(old(self)@, peer@, opt_candidate_view(data)),
    {
        let mut out: Vec<Action> = Vec::new();
        if self.table.contains(&peer) {
            let ghost dv = opt_candidate_view(data);
            let msg = SignalMessage::IceCandidate { peer: peer.clone(), data };
            out.push(Action::Send(msg.to_signal_message_action(peer.as_str())));
            assert(actions_view(out@) =~= seq![send(peer@, MessageView::IceCandidate { peer: peer@, data: dv })]);
        } else {
            assert(actions_view(out@) =~= Seq::<ActionView>::empty());
        }
        out
    }

    fn on_channel_open(&mut self, peer: String) -> (r: Vec<Action>)
        requires
            old(self).wf(),
        ensures
            final(self).wf(),
            (final(self)@, actions_view(r@)) == step_channel_open(old(self)@, peer@),
    {
        let mut out: Vec<Action> = Vec::new();
        let ghost m = self@;
        assert(actions_view(out@) =~= Seq::<ActionView>::empty());
        match self.table.find(&peer) {
            None => out,
            Some(i) => {
                proof { lemma_entry(self.table.sessions@, i as int); }
                let st = self.table.sessions[i].state;
                let reply_pending = self.table.sessions[i].reply_pending;
                if st == PeerState::AnswerExchanged {
                    self.table.set_status(i, PeerState::Established, reply_pending);
                    out.push(Action::BridgeChannel { peer });
                    proof {
                        assert(actions_view(out@) =~= seq![ActionView::BridgeChannel { peer: peer@ }]);
                        assert forall|k: Seq<char>| #[trigger] self@.contains_key(k) implies session_ok(self@[k]) by {
                            if k != peer@ {
                                assert(m.contains_key(k));
                            }
                        }
                    }
                }
                out
            },
        }
    }

    /// Processes one event: updates the sessions and returns the actions to
    /// perform, in order.
    pub fn handle(&mut self, event: Event) -> (r: Vec<Action>)
        requires
            old(self).wf(),
        ensures
            final(self).wf(),
            (final(self)@, actions_view(r@)) == step(old(self)@, event@),
    {
        match event {
            Event::Signal(msg) => match msg {
                SignalMessage::AddPeer { peer, polite } => self.on_add(peer, polite),
                SignalMessage::RemovePeer { peer } => self.on_remove(peer),
                SignalMessage::SessionDescription { peer, data } => self.on_description(peer, data),
                SignalMessage::IceCandidate { peer, data } => self.on_candidate(peer, data),
            },
            Event::LocalDescription { peer, data } => self.on_local_description(peer, data),
            Event::LocalCandidate { peer, data } => self.on_local_candidate(peer, data),
            Event::ChannelOpen { peer } => self.on_channel_open(peer),
            Event::EngineFailed { peer } => self.on_remove(peer),
        }
    }
}

} // verus!
