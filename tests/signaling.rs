use webrtc_socket::machine::{Action, Event, Signaling};
use webrtc_socket::message::{IceCandidateInit, SdpType, SessionDescription, SignalMessage};
use webrtc_socket::table::{PeerState, SessionTable, TableError};

fn s(x: &str) -> String {
    x.to_string()
}

fn desc(t: SdpType, sdp: &str) -> SessionDescription {
    SessionDescription { sdp_type: t, sdp: s(sdp) }
}

fn cand(c: &str) -> IceCandidateInit {
    IceCandidateInit { candidate: s(c), sdp_mid: Some(s("0")), sdp_mline_index: Some(0), username_fragment: None }
}

fn add(peer: &str, polite: bool) -> Event {
    Event::Signal(SignalMessage::AddPeer { peer: s(peer), polite })
}

fn remove(peer: &str) -> Event {
    Event::Signal(SignalMessage::RemovePeer { peer: s(peer) })
}

fn remote(peer: &str, t: SdpType) -> Event {
    Event::Signal(SignalMessage::SessionDescription { peer: s(peer), data: desc(t, "remote-sdp") })
}

fn sends(actions: &[Action]) -> usize {
    actions.iter().filter(|a| matches!(a, Action::Send(_))).count()
}

fn sent_description(a: &Action, peer: &str, t: SdpType) -> bool {
    match a {
        Action::Send(e) => {
            e.connection_id == peer
                && matches!(&e.message, SignalMessage::SessionDescription { peer: p, data } if p == peer && data.sdp_type == t)
        }
        _ => false,
    }
}

#[test]
fn impolite_peer_offers_then_takes_answer() {
    let mut m = Signaling::new();
    let out = m.handle(add("A", false));
    assert_eq!(out.len(), 1);
    assert!(matches!(&out[0], Action::OpenPeer { peer, offerer: true } if peer == "A"));
    assert_eq!(m.state_of(&s("A")), PeerState::New);

    let out = m.handle(Event::LocalDescription { peer: s("A"), data: desc(SdpType::Offer, "local-offer") });
    assert_eq!(out.len(), 1);
    assert!(sent_description(&out[0], "A", SdpType::Offer));
    assert_eq!(m.state_of(&s("A")), PeerState::OfferSent);

    let out = m.handle(remote("A", SdpType::Answer));
    assert_eq!(out.len(), 1);
    assert!(matches!(&out[0], Action::ApplyRemote { peer, reply: false, .. } if peer == "A"));
    assert_eq!(sends(&out), 0);
    assert_eq!(m.state_of(&s("A")), PeerState::AnswerExchanged);
}

#[test]
fn polite_peer_waits_for_offer_and_answers_once() {
    let mut m = Signaling::new();
    let out = m.handle(add("B", true));
    assert_eq!(sends(&out), 0);
    assert!(matches!(&out[0], Action::OpenPeer { peer, offerer: false } if peer == "B"));
    assert_eq!(m.state_of(&s("B")), PeerState::AwaitingOffer);

    // a locally made offer is never sent for a polite peer
    let out = m.handle(Event::LocalDescription { peer: s("B"), data: desc(SdpType::Offer, "x") });
    assert_eq!(sends(&out), 0);

    let out = m.handle(remote("B", SdpType::Offer));
    assert_eq!(sends(&out), 0);
    assert!(matches!(&out[0], Action::ApplyRemote { peer, reply: true, .. } if peer == "B"));
    assert_eq!(m.state_of(&s("B")), PeerState::AnswerExchanged);

    let out = m.handle(Event::LocalDescription { peer: s("B"), data: desc(SdpType::Answer, "local-answer") });
    assert_eq!(out.len(), 1);
    assert!(sent_description(&out[0], "B", SdpType::Answer));

    let out = m.handle(Event::LocalDescription { peer: s("B"), data: desc(SdpType::Answer, "again") });
    assert_eq!(out.len(), 0);
}

#[test]
fn repeated_answer_is_ignored() {
    let mut m = Signaling::new();
    m.handle(add("A", false));
    m.handle(Event::LocalDescription { peer: s("A"), data: desc(SdpType::Offer, "o") });
    m.handle(remote("A", SdpType::Answer));
    let out = m.handle(remote("A", SdpType::Answer));
    assert!(out.is_empty());
    assert_eq!(m.state_of(&s("A")), PeerState::AnswerExchanged);
}

#[test]
fn remove_unknown_peer_is_noop() {
    let mut m = Signaling::new();
    m.handle(add("A", true));
    let out = m.handle(remove("Z"));
    assert!(out.is_empty());
    assert!(m.has_peer(&s("A")));
    assert_eq!(m.state_of(&s("Z")), PeerState::Closed);
}

#[test]
fn sessions_follow_add_and_remove() {
    let mut m = Signaling::new();
    m.handle(add("A", true));
    m.handle(add("B", false));
    let again = m.handle(add("A", false));
    assert!(again.is_empty());
    let out = m.handle(remove("A"));
    assert!(matches!(&out[0], Action::ClosePeer { peer } if peer == "A"));
    m.handle(add("C", true));
    m.handle(remove("C"));
    m.handle(add("C", true));
    assert!(!m.has_peer(&s("A")));
    assert!(m.has_peer(&s("B")));
    assert!(m.has_peer(&s("C")));
    assert_eq!(m.state_of(&s("A")), PeerState::Closed);
}

#[test]
fn early_candidates_are_held_until_remote_description() {
    let mut m = Signaling::new();
    m.handle(add("B", true));
    let early = m.handle(Event::Signal(SignalMessage::IceCandidate { peer: s("B"), data: Some(cand("c1")) }));
    assert!(early.is_empty());
    m.handle(Event::Signal(SignalMessage::IceCandidate { peer: s("B"), data: Some(cand("c2")) }));
    let out = m.handle(remote("B", SdpType::Offer));
    assert_eq!(out.len(), 3);
    assert!(matches!(&out[1], Action::AddCandidate { candidate, .. } if candidate.candidate == "c1"));
    assert!(matches!(&out[2], Action::AddCandidate { candidate, .. } if candidate.candidate == "c2"));
    let late = m.handle(Event::Signal(SignalMessage::IceCandidate { peer: s("B"), data: Some(cand("c3")) }));
    assert_eq!(late.len(), 1);
    assert!(matches!(&late[0], Action::AddCandidate { peer, candidate } if peer == "B" && candidate.candidate == "c3"));
}

#[test]
fn candidates_for_unknown_peer_or_end_marker_are_dropped() {
    let mut m = Signaling::new();
    let out = m.handle(Event::Signal(SignalMessage::IceCandidate { peer: s("Q"), data: Some(cand("c")) }));
    assert!(out.is_empty());
    m.handle(add("Q", true));
    let out = m.handle(Event::Signal(SignalMessage::IceCandidate { peer: s("Q"), data: None }));
    assert!(out.is_empty());
}

#[test]
fn local_candidates_are_relayed_including_end_marker() {
    let mut m = Signaling::new();
    m.handle(add("A", false));
    let out = m.handle(Event::LocalCandidate { peer: s("A"), data: Some(cand("l1")) });
    assert_eq!(sends(&out), 1);
    let out = m.handle(Event::LocalCandidate { peer: s("A"), data: None });
    assert_eq!(out.len(), 1);
    assert!(matches!(&out[0], Action::Send(e) if e.connection_id == "A"
        && matches!(&e.message, SignalMessage::IceCandidate { data: None, .. })));
    let out = m.handle(Event::LocalCandidate { peer: s("nobody"), data: None });
    assert!(out.is_empty());
}

#[test]
fn channel_attaches_once_after_negotiation() {
    let mut m = Signaling::new();
    m.handle(add("A", false));
    assert!(m.handle(Event::ChannelOpen { peer: s("A") }).is_empty());
    m.handle(Event::LocalDescription { peer: s("A"), data: desc(SdpType::Offer, "o") });
    m.handle(remote("A", SdpType::Answer));
    let out = m.handle(Event::ChannelOpen { peer: s("A") });
    assert!(matches!(&out[0], Action::BridgeChannel { peer } if peer == "A"));
    assert_eq!(m.state_of(&s("A")), PeerState::Established);
    assert!(m.handle(Event::ChannelOpen { peer: s("A") }).is_empty());
}

#[test]
fn engine_failure_tears_down_only_that_peer() {
    let mut m = Signaling::new();
    m.handle(add("A", false));
    m.handle(add("B", true));
    let out = m.handle(Event::EngineFailed { peer: s("A") });
    assert!(matches!(&out[0], Action::ClosePeer { peer } if peer == "A"));
    assert!(!m.has_peer(&s("A")));
    assert!(m.has_peer(&s("B")));
}

#[test]
fn table_insert_get_remove() {
    let mut t = SessionTable::new();
    assert_eq!(t.insert_if_absent(s("p"), true, PeerState::AwaitingOffer), Ok(()));
    assert_eq!(t.insert_if_absent(s("p"), false, PeerState::New), Err(TableError::AlreadyExists));
    assert!(t.get(&s("p")).unwrap().polite);
    assert_eq!(t.get(&s("q")).err(), Some(TableError::NotFound));
    assert!(t.remove(&s("p")));
    assert!(!t.remove(&s("p")));
    assert!(!t.contains(&s("p")));
}
