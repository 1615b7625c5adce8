//! Properties of the signaling state machine over sequences of events.
use vstd::prelude::*;
use crate::message::{SdpType, DescriptionView, MessageView};
use crate::table::PeerState;
use crate::machine::{Sessions, EventView, ActionView, step, unchanged, sessions_ok, remote_set};

verus! {

/// The sessions after running `es` from `m`, one event after the other.
pub open spec fn run(m: Sessions, es: Seq<EventView>) -> Sessions
    decreases es.len(),
{
    if es.len() == 0 {
        m
    } else {
        step(run(m, es.drop_last()), es.last()).0
    }
}

pub open spec fn signals(msgs: Seq<MessageView>) -> Seq<EventView> {
    msgs.map_values(|x: MessageView| EventView::Signal(x))
}

/// Peers announced by some message of `msgs` and not removed by a later one.
pub open spec fn announced(msgs: Seq<MessageView>) -> Set<Seq<char>> {
    Set::new(
        |p: Seq<char>|
            exists|i: int|
                0 <= i < msgs.len() && #[trigger] msgs[i] is AddPeer && msgs[i].peer() == p && forall|j: int|
                    i < j < msgs.len() ==> !(#[trigger] msgs[j] is RemovePeer && msgs[j].peer() == p),
    )
}

/// Whether `a` sends the relay a description of kind `t` about `peer`.
pub open spec fn sends_description(a: ActionView, peer: Seq<char>, t: SdpType) -> bool {
    match a {
        ActionView::Send(e) => match e.message {
            MessageView::SessionDescription { peer: p, data } => p == peer && data.sdp_type == t,
            _ => false,
        },
        _ => false,
    }
}

/// Starting without sessions, after any sequence of relay messages exactly the
/// peers that were added and not removed since have a session.
pub proof fn lemma_sessions_follow_announcements(msgs: Seq<MessageView>)
    ensures
        run(Sessions::empty(), signals(msgs)).dom() == announced(msgs),
    decreases msgs.len(),
{
    if msgs.len() == 0 {
        assert(announced(msgs) =~= Set::empty());
        assert(run(Sessions::empty(), signals(msgs)).dom() =~= Set::empty());
    } else {
        let prev = msgs.drop_last();
        let last = msgs.last();
        let n = msgs.len() - 1;
        lemma_sessions_follow_announcements(prev);
        assert(signals(msgs).drop_last() =~= signals(prev));
        let m0 = run(Sessions::empty(), signals(prev));
        let m1 = run(Sessions::empty(), signals(msgs));
        assert(m1 == step(m0, EventView::Signal(last)).0);
        assert forall|p: Seq<char>| announced(msgs).contains(p) <==> #[trigger] m1.dom().contains(p) by {
            if announced(msgs).contains(p) {
                let i = choose|i: int|
                    0 <= i < msgs.len() && #[trigger] msgs[i] is AddPeer && msgs[i].peer() == p && forall|j: int|
                        i < j < msgs.len() ==> !(#[trigger] msgs[j] is RemovePeer && msgs[j].peer() == p);
                if i < n {
                    assert(prev[i] == msgs[i]);
                    assert forall|j: int| i < j < prev.len() implies !(#[trigger] prev[j] is RemovePeer
                        && prev[j].peer() == p) by {
                        assert(prev[j] == msgs[j]);
                    }
                    assert(announced(prev).contains(p));
                    assert(!(msgs[n] is RemovePeer && msgs[n].peer() == p));
                }
            }
            if m1.dom().contains(p) {
                if last is AddPeer && last.peer() == p {
                    assert(msgs[n] == last);
                } else {
                    assert(m0.dom().contains(p));
                    assert(announced(prev).contains(p));
                    let i = choose|i: int|
                        0 <= i < prev.len() && #[trigger] prev[i] is AddPeer && prev[i].peer() == p && forall|j: int|
                            i < j < prev.len() ==> !(#[trigger] prev[j] is RemovePeer && prev[j].peer() == p);
                    assert(msgs[i] == prev[i]);
                    assert forall|j: int| i < j < msgs.len() implies !(#[trigger] msgs[j] is RemovePeer
                        && msgs[j].peer() == p) by {
                        if j < n {
                            assert(prev[j] == msgs[j]);
                        }
                    }
                }
            }
        }
        assert(m1.dom() =~= announced(msgs));
    }
}

/// An offer goes out only for a peer that is not polite and whose session is
/// still `New`, that is before any remote description was applied; the
/// session then moves to `OfferSent`. An answer goes out only for a polite peer.
pub proof fn lemma_offer_only_from_impolite(m: Sessions, e: EventView, peer: Seq<char>)
    requires
        sessions_ok(m),
    ensures
        ({
            let (m1, out) = step(m, e);
            (exists|i: int| 0 <= i < out.len() && sends_description(#[trigger] out[i], peer, SdpType::Offer))
                ==> m.contains_key(peer) && !m[peer].polite && m[peer].state == PeerState::New
                && m1[peer].state == PeerState::OfferSent
        }),
        ({
            let out = step(m, e).1;
            (exists|i: int| 0 <= i < out.len() && sends_description(#[trigger] out[i], peer, SdpType::Answer))
                ==> m.contains_key(peer) && m[peer].polite
        }),
{
    let out = step(m, e).1;
    assert forall|i: int, t: SdpType| 0 <= i < out.len() && #[trigger] sends_description(out[i], peer, t) implies
        m.contains_key(peer) && (t == SdpType::Offer ==> !m[peer].polite && m[peer].state == PeerState::New
        && step(m, e).0[peer].state == PeerState::OfferSent) && (t == SdpType::Answer ==> m[peer].polite) by {
        match e {
            EventView::Signal(MessageView::SessionDescription { peer: p, data }) => {
                if m.contains_key(p) && out.len() > 0 && i > 0 {
                    assert(out[i] is AddCandidate);
                }
            },
            _ => {},
        }
    }
}

/// A description of kind answer for a peer whose remote description is
/// already applied changes nothing and asks for nothing.
pub proof fn lemma_repeated_answer_ignored(m: Sessions, peer: Seq<char>, data: DescriptionView)
    requires
        m.contains_key(peer),
        remote_set(m[peer].state),
        data.sdp_type == SdpType::Answer,
    ensures
        step(m, EventView::Signal(MessageView::SessionDescription { peer, data })) == unchanged(m),
{
}

/// Removing a peer that has no session changes nothing and asks for nothing.
pub proof fn lemma_remove_unknown_peer(m: Sessions, peer: Seq<char>)
    requires
        !m.contains_key(peer),
    ensures
        step(m, EventView::Signal(MessageView::RemovePeer { peer })) == unchanged(m),
{
}

} // verus!
