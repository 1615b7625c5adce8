//! Signaling messages exchanged with the relay.
use vstd::prelude::*;

verus! {

/// Kind of a session description.
#[derive(Clone, Copy, Debug, PartialEq, Eq, Structural)]
pub enum SdpType {
    Offer,
    Answer,
    Pranswer,
    Rollback,
}

/// A session description: its kind and its SDP text.
#[derive(Debug)]
pub struct SessionDescription {
    pub sdp_type: SdpType,
    pub sdp: String,
}

/// A descriptor of one network path offered by an endpoint.
#[derive(Debug)]
pub struct IceCandidateInit {
    pub candidate: String,
    pub sdp_mid: Option<String>,
    pub sdp_mline_index: Option<u16>,
    pub username_fragment: Option<String>,
}

/// One signaling event. `IceCandidate` with `data: None` is the
/// end-of-candidates marker.
#[derive(Debug)]
pub enum SignalMessage {
    AddPeer { peer: String, polite: bool },
    RemovePeer { peer: String },
    SessionDescription { peer: String, data: SessionDescription },
    IceCandidate { peer: String, data: Option<IceCandidateInit> },
}

/// A message together with the relay connection it travels on.
#[derive(Debug)]
pub struct SignalEnvelope {
    pub connection_id: String,
    pub message: SignalMessage,
}

pub ghost struct DescriptionView {
    pub sdp_type: SdpType,
    pub sdp: Seq<char>,
}

pub ghost struct CandidateView {
    pub candidate: Seq<char>,
    pub sdp_mid: Option<Seq<char>>,
    pub sdp_mline_index: Option<u16>,
    pub username_fragment: Option<Seq<char>>,
}

pub ghost enum MessageView {
    AddPeer { peer: Seq<char>, polite: bool },
    RemovePeer { peer: Seq<char> },
    SessionDescription { peer: Seq<char>, data: DescriptionView },
    IceCandidate { peer: Seq<char>, data: Option<CandidateView> },
}

pub ghost struct EnvelopeView {
    pub connection_id: Seq<char>,
    pub message: MessageView,
}

pub open spec fn opt_str_view(o: Option<String>) -> Option<Seq<char>> {
    match o {
        Some(s) => Some(s@),
        None => None,
    }
}

impl View for SessionDescription {
    type V = DescriptionView;

    open spec fn view(&self) -> DescriptionView {
        DescriptionView { sdp_type: self.sdp_type, sdp: self.sdp@ }
    }
}

impl View for IceCandidateInit {
    type V = CandidateView;

    open spec fn view(&self) -> CandidateView {
        CandidateView {
            candidate: self.candidate@,
            sdp_mid: opt_str_view(self.sdp_mid),
            sdp_mline_index: self.sdp_mline_index,
            username_fragment: opt_str_view(self.username_fragment),
        }
    }
}

pub open spec fn opt_candidate_view(o: Option<IceCandidateInit>) -> Option<CandidateView> {
    match o {
        Some(c) => Some(c@),
        None => None,
    }
}

impl View for SignalMessage {
    type V = MessageView;

    open spec fn view(&self) -> MessageView {
        match self {
            SignalMessage::AddPeer { peer, polite } => MessageView::AddPeer { peer: peer@, polite: *polite },
            SignalMessage::RemovePeer { peer } => MessageView::RemovePeer { peer: peer@ },
            SignalMessage::SessionDescription { peer, data } => MessageView::SessionDescription {
                peer: peer@,
                data: data@,
            },
            SignalMessage::IceCandidate { peer, data } => MessageView::IceCandidate {
                peer: peer@,
                data: opt_candidate_view(*data),
            },
        }
    }
}

impl View for SignalEnvelope {
    type V = EnvelopeView;

    open spec fn view(&self) -> EnvelopeView {
        EnvelopeView { connection_id: self.connection_id@, message: self.message@ }
    }
}

impl MessageView {
    /// The peer a message is about.
    pub open spec fn peer(self) -> Seq<char> {
        match self {
            MessageView::AddPeer { peer, .. } => peer,
            MessageView::RemovePeer { peer } => peer,
            MessageView::SessionDescription { peer, .. } => peer,
            MessageView::IceCandidate { peer, .. } => peer,
        }
    }
}

impl SignalMessage {
    /// The peer this message is about.
    pub fn peer(&self) -> (r: &String)
        ensures
            r@ == self@.peer(),
    {
        match self {
            SignalMessage::AddPeer { peer, .. } => peer,
            SignalMessage::RemovePeer { peer } => peer,
            SignalMessage::SessionDescription { peer, .. } => peer,
            SignalMessage::IceCandidate { peer, .. } => peer,
        }
    }

    /// Wraps this message for sending on the relay connection `connection_id`.
    pub fn to_signal_message_action(self, connection_id: &str) -> (r: SignalEnvelope)
        ensures
            r@ == (EnvelopeView { connection_id: connection_id@, message: self@ }),
    {
        SignalEnvelope { connection_id: connection_id.to_owned(), message: self }
    }
}

} // verus!
