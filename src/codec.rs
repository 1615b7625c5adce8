//! The signaling wire format: each message is one JSON object carrying
//! `action`, `connectionId`, an `event` tag and the event's fields.
use vstd::prelude::*;
use crate::message::{
    SdpType, SessionDescription, IceCandidateInit, SignalMessage, SignalEnvelope, DescriptionView,
    CandidateView, MessageView, EnvelopeView,
};
use crate::json::{
    JsonScalar, JsonValue, JsonObject, ScalarView, ValueView, ObjectView, lookup, find_field, pairs_view,
};

verus! {

/// Why a JSON object is not a signaling message.
#[derive(Clone, Copy, Debug, PartialEq, Eq, Structural)]
pub enum DecodeError {
    /// A required member is absent.
    MissingField,
    /// A member holds a value of the wrong kind.
    WrongType,
    /// The `event` tag names no known event.
    UnknownEvent,
    /// The description's `type` is not a known kind.
    UnknownSdpType,
    /// The `action` is not `message`.
    NotAMessage,
}

pub open spec fn as_str(v: Option<ScalarView>) -> Result<Seq<char>, DecodeError> {
    match v {
        None => Err(DecodeError::MissingField),
        Some(ScalarView::Str(s)) => Ok(s),
        Some(_) => Err(DecodeError::WrongType),
    }
}

pub open spec fn as_bool(v: Option<ScalarView>) -> Result<bool, DecodeError> {
    match v {
        None => Err(DecodeError::MissingField),
        Some(ScalarView::Bool(b)) => Ok(b),
        Some(_) => Err(DecodeError::WrongType),
    }
}

/// An optional string: absent and `null` both mean none.
pub open spec fn as_opt_str(v: Option<ScalarView>) -> Result<Option<Seq<char>>, DecodeError> {
    match v {
        None => Ok(None),
        Some(ScalarView::Null) => Ok(None),
        Some(ScalarView::Str(s)) => Ok(Some(s)),
        Some(_) => Err(DecodeError::WrongType),
    }
}

pub open spec fn as_opt_u16(v: Option<ScalarView>) -> Result<Option<u16>, DecodeError> {
    match v {
        None => Ok(None),
        Some(ScalarView::Null) => Ok(None),
        Some(ScalarView::Number(n)) => if n <= 0xffff {
            Ok(Some(n as u16))
        } else {
            Err(DecodeError::WrongType)
        },
        Some(_) => Err(DecodeError::WrongType),
    }
}

/// A top-level member seen as a scalar; an object there is of the wrong kind.
pub open spec fn top_scalar(v: Option<ValueView>) -> Option<ScalarView> {
    match v {
        None => None,
        Some(ValueView::Scalar(s)) => Some(s),
        Some(ValueView::Object(_)) => Some(ScalarView::Other),
    }
}

pub open spec fn sdp_type_name(t: SdpType) -> Seq<char> {
    match t {
        SdpType::Offer => "offer"@,
        SdpType::Answer => "answer"@,
        SdpType::Pranswer => "pranswer"@,
        SdpType::Rollback => "rollback"@,
    }
}

pub open spec fn sdp_type_of(s: Seq<char>) -> Result<SdpType, DecodeError> {
    if s == "offer"@ {
        Ok(SdpType::Offer)
    } else if s == "answer"@ {
        Ok(SdpType::Answer)
    } else if s == "pranswer"@ {
        Ok(SdpType::Pranswer)
    } else if s == "rollback"@ {
        Ok(SdpType::Rollback)
    } else {
        Err(DecodeError::UnknownSdpType)
    }
}

pub open spec fn description_of(o: Seq<(Seq<char>, ScalarView)>) -> Result<DescriptionView, DecodeError> {
    match as_str(lookup(o, "type"@)) {
        Err(e) => Err(e),
        Ok(t) => match sdp_type_of(t) {
            Err(e) => Err(e),
            Ok(sdp_type) => match as_str(lookup(o, "sdp"@)) {
                Err(e) => Err(e),
                Ok(sdp) => Ok(DescriptionView { sdp_type, sdp }),
            },
        },
    }
}

pub open spec fn candidate_of(o: Seq<(Seq<char>, ScalarView)>) -> Result<CandidateView, DecodeError> {
    match as_str(lookup(o, "candidate"@)) {
        Err(e) => Err(e),
        Ok(candidate) => match as_opt_str(lookup(o, "sdpMid"@)) {
            Err(e) => Err(e),
            Ok(sdp_mid) => match as_opt_u16(lookup(o, "sdpMLineIndex"@)) {
                Err(e) => Err(e),
                Ok(sdp_mline_index) => match as_opt_str(lookup(o, "usernameFragment"@)) {
                    Err(e) => Err(e),
                    Ok(username_fragment) => Ok(
                        CandidateView { candidate, sdp_mid, sdp_mline_index, username_fragment },
                    ),
                },
            },
        },
    }
}

/// The `data` of a `session-description` event.
pub open spec fn description_data_of(v: Option<ValueView>) -> Result<DescriptionView, DecodeError> {
    match v {
        None => Err(DecodeError::MissingField),
        Some(ValueView::Object(f)) => description_of(f),
        Some(_) => Err(DecodeError::WrongType),
    }
}

/// The `data` of an `ice-candidate` event: absent or `null` is the
/// end-of-candidates marker.
pub open spec fn candidate_data_of(v: Option<ValueView>) -> Result<Option<CandidateView>, DecodeError> {
    match v {
        None => Ok(None),
        Some(ValueView::Scalar(ScalarView::Null)) => Ok(None),
        Some(ValueView::Object(f)) => match candidate_of(f) {
            Err(e) => Err(e),
            Ok(c) => Ok(Some(c)),
        },
        Some(_) => Err(DecodeError::WrongType),
    }
}

/// The message an object carries, from its `event` tag and that event's members.
pub open spec fn message_of(o: ObjectView) -> Result<MessageView, DecodeError> {
    match as_str(top_scalar(lookup(o, "event"@))) {
        Err(e) => Err(e),
        Ok(event) => match as_str(top_scalar(lookup(o, "peer"@))) {
            Err(e) => Err(e),
            Ok(peer) => if event == "add-peer"@ {
                match as_bool(top_scalar(lookup(o, "polite"@))) {
                    Err(e) => Err(e),
                    Ok(polite) => Ok(MessageView::AddPeer { peer, polite }),
                }
            } else if event == "remove-peer"@ {
                Ok(MessageView::RemovePeer { peer })
            } else if event == "session-description"@ {
                match description_data_of(lookup(o, "data"@)) {
                    Err(e) => Err(e),
                    Ok(data) => Ok(MessageView::SessionDescription { peer, data }),
                }
            } else if event == "ice-candidate"@ {
                match candidate_data_of(lookup(o, "data"@)) {
                    Err(e) => Err(e),
                    Ok(data) => Ok(MessageView::IceCandidate { peer, data }),
                }
            } else {
                Err(DecodeError::UnknownEvent)
            },
        },
    }
}

/// The envelope an object carries: `action` must be `message`.
pub open spec fn envelope_of(o: ObjectView) -> Result<EnvelopeView, DecodeError> {
    match as_str(top_scalar(lookup(o, "action"@))) {
        Err(e) => Err(e),
        Ok(action) => if action != "message"@ {
            Err(DecodeError::NotAMessage)
        } else {
            match as_str(top_scalar(lookup(o, "connectionId"@))) {
                Err(e) => Err(e),
                Ok(connection_id) => match message_of(o) {
                    Err(e) => Err(e),
                    Ok(message) => Ok(EnvelopeView { connection_id, message }),
                },
            }
        },
    }
}

pub open spec fn opt_str_scalar(o: Option<Seq<char>>) -> ScalarView {
    match o {
        None => ScalarView::Null,
        Some(s) => ScalarView::Str(s),
    }
}

pub open spec fn description_fields(d: DescriptionView) -> Seq<(Seq<char>, ScalarView)> {
    seq![("type"@, ScalarView::Str(sdp_type_name(d.sdp_type))), ("sdp"@, ScalarView::Str(d.sdp))]
}

pub open spec fn candidate_fields(c: CandidateView) -> Seq<(Seq<char>, ScalarView)> {
    seq![
        ("candidate"@, ScalarView::Str(c.candidate)),
        ("sdpMid"@, opt_str_scalar(c.sdp_mid)),
        ("sdpMLineIndex"@, match c.sdp_mline_index {
            None => ScalarView::Null,
            Some(n) => ScalarView::Number(n as u64),
        }),
        ("usernameFragment"@, opt_str_scalar(c.username_fragment)),
    ]
}

pub open spec fn event_tag(m: MessageView) -> Seq<char> {
    match m {
        MessageView::AddPeer { .. } => "add-peer"@,
        MessageView::RemovePeer { .. } => "remove-peer"@,
        MessageView::SessionDescription { .. } => "session-description"@,
        MessageView::IceCandidate { .. } => "ice-candidate"@,
    }
}

/// The members that follow `event` and `peer`.
pub open spec fn event_fields(m: MessageView) -> ObjectView {
    match m {
        MessageView::AddPeer { polite, .. } => seq![("polite"@, ValueView::Scalar(ScalarView::Bool(polite)))],
        MessageView::RemovePeer { .. } => Seq::empty(),
        MessageView::SessionDescription { data, .. } => seq![("data"@, ValueView::Object(description_fields(data)))],
        MessageView::IceCandidate { data, .. } => seq![("data"@, match data {
            None => ValueView::Scalar(ScalarView::Null),
            Some(c) => ValueView::Object(candidate_fields(c)),
        })],
    }
}

/// The JSON object of an envelope.
pub open spec fn envelope_json(e: EnvelopeView) -> ObjectView {
    seq![
        ("action"@, ValueView::Scalar(ScalarView::Str("message"@))),
        ("connectionId"@, ValueView::Scalar(ScalarView::Str(e.connection_id))),
        ("event"@, ValueView::Scalar(ScalarView::Str(event_tag(e.message)))),
        ("peer"@, ValueView::Scalar(ScalarView::Str(e.message.peer()))),
    ] + event_fields(e.message)
}

proof fn lemma_names_distinct()
    ensures
        "polite"@ != "action"@,
        "data"@ != "peer"@,
        "pranswer"@ != "rollback"@,
        "action"@.len() == 6,
        "polite"@.len() == 6,
        "data"@.len() == 4,
        "connectionId"@.len() == 12,
        "event"@.len() == 5,
        "peer"@.len() == 4,
        "type"@.len() == 4,
        "sdp"@.len() == 3,
        "candidate"@.len() == 9,
        "sdpMid"@.len() == 6,
        "sdpMLineIndex"@.len() == 13,
        "usernameFragment"@.len() == 16,
        "add-peer"@.len() == 8,
        "remove-peer"@.len() == 11,
        "session-description"@.len() == 19,
        "ice-candidate"@.len() == 13,
        "offer"@.len() == 5,
        "answer"@.len() == 6,
        "pranswer"@.len() == 8,
        "rollback"@.len() == 8,
{
    reveal_strlit("polite");
    reveal_strlit("action");
    reveal_strlit("data");
    reveal_strlit("peer");
    reveal_strlit("pranswer");
    reveal_strlit("rollback");
    reveal_strlit("connectionId");
    reveal_strlit("event");
    reveal_strlit("type");
    reveal_strlit("sdp");
    reveal_strlit("candidate");
    reveal_strlit("sdpMid");
    reveal_strlit("sdpMLineIndex");
    reveal_strlit("usernameFragment");
    reveal_strlit("add-peer");
    reveal_strlit("remove-peer");
    reveal_strlit("session-description");
    reveal_strlit("ice-candidate");
    reveal_strlit("offer");
    reveal_strlit("answer");
    assert("polite"@[0] != "action"@[0]);
    assert("data"@[0] != "peer"@[0]);
    assert("pranswer"@[0] != "rollback"@[0]);
}

/// Decoding the object that encodes an envelope gives the envelope back; in
/// particular a candidate's `data` comes back as none or as the same
/// descriptor, as it went out.
pub proof fn lemma_round_trip(e: EnvelopeView)
    ensures
        envelope_of(envelope_json(e)) == Ok::<EnvelopeView, DecodeError>(e),
{
    lemma_names_distinct();
    let o = envelope_json(e);
    crate::json::lemma_lookup_first(o, "action"@, 0);
    crate::json::lemma_lookup_first(o, "connectionId"@, 1);
    crate::json::lemma_lookup_first(o, "event"@, 2);
    crate::json::lemma_lookup_first(o, "peer"@, 3);
    assert(o[0].0 == "action"@ && o[1].0 == "connectionId"@ && o[2].0 == "event"@ && o[3].0 == "peer"@);
    if event_fields(e.message).len() > 0 {
        assert(o[4] == event_fields(e.message)[0]);
    }
    match e.message {
        MessageView::AddPeer { .. } => {
            crate::json::lemma_lookup_first(o, "polite"@, 4);
        },
        MessageView::RemovePeer { .. } => {},
        MessageView::SessionDescription { data, .. } => {
            crate::json::lemma_lookup_first(o, "data"@, 4);
            let f = description_fields(data);
            crate::json::lemma_lookup_first(f, "type"@, 0);
            crate::json::lemma_lookup_first(f, "sdp"@, 1);
        },
        MessageView::IceCandidate { data, .. } => {
            crate::json::lemma_lookup_first(o, "data"@, 4);
            match data {
                None => {},
                Some(c) => {
                    let f = candidate_fields(c);
                    crate::json::lemma_lookup_first(f, "candidate"@, 0);
                    crate::json::lemma_lookup_first(f, "sdpMid"@, 1);
                    crate::json::lemma_lookup_first(f, "sdpMLineIndex"@, 2);
                    crate::json::lemma_lookup_first(f, "usernameFragment"@, 3);
                },
            }
        },
    }
}

pub open spec fn str_res(r: Result<String, DecodeError>) -> Result<Seq<char>, DecodeError> {
    match r {
        Ok(s) => Ok(s@),
        Err(e) => Err(e),
    }
}

pub open spec fn opt_str_res(r: Result<Option<String>, DecodeError>) -> Result<Option<Seq<char>>, DecodeError> {
    match r {
        Ok(s) => Ok(crate::message::opt_str_view(s)),
        Err(e) => Err(e),
    }
}

pub open spec fn opt_scalar(v: Option<&JsonScalar>) -> Option<ScalarView> {
    match v {
        Some(x) => Some(x@),
        None => None,
    }
}

fn same(s: &String, lit: &str) -> (r: bool)
    ensures
        r == (s@ == lit@),
{
    let l = lit.to_owned();
    *s == l
}

fn scalar_str(v: Option<&JsonScalar>) -> (r: Result<String, DecodeError>)
    ensures
        str_res(r) == as_str(opt_scalar(v)),
{
    match v {
        None => Err(DecodeError::MissingField),
        Some(JsonScalar::Str(s)) => Ok(s.clone()),
        Some(_) => Err(DecodeError::WrongType),
    }
}

fn scalar_opt_str(v: Option<&JsonScalar>) -> (r: Result<Option<String>, DecodeError>)
    ensures
        opt_str_res(r) == as_opt_str(opt_scalar(v)),
{
    match v {
        None => Ok(None),
        Some(JsonScalar::Null) => Ok(None),
        Some(JsonScalar::Str(s)) => Ok(Some(s.clone())),
        Some(_) => Err(DecodeError::WrongType),
    }
}

fn scalar_opt_u16(v: Option<&JsonScalar>) -> (r: Result<Option<u16>, DecodeError>)
    ensures
        r == as_opt_u16(opt_scalar(v)),
{
    match v {
        None => Ok(None),
        Some(JsonScalar::Null) => Ok(None),
        Some(JsonScalar::Number(n)) => if *n <= 0xffff {
            Ok(Some(*n as u16))
        } else {
            Err(DecodeError::WrongType)
        },
        Some(_) => Err(DecodeError::WrongType),
    }
}

fn top_str(o: &Vec<(String, JsonValue)>, k: &str) -> (r: Result<String, DecodeError>)
    ensures
        str_res(r) == as_str(top_scalar(lookup(pairs_view(o@), k@))),
{
    match find_field(o, &k.to_owned()) {
        None => Err(DecodeError::MissingField),
        Some(JsonValue::Scalar(s)) => scalar_str(Some(s)),
        Some(JsonValue::Object(_)) => Err(DecodeError::WrongType),
    }
}

fn top_bool(o: &Vec<(String, JsonValue)>, k: &str) -> (r: Result<bool, DecodeError>)
    ensures
        r == as_bool(top_scalar(lookup(pairs_view(o@), k@))),
{
    match find_field(o, &k.to_owned()) {
        None => Err(DecodeError::MissingField),
        Some(JsonValue::Scalar(JsonScalar::Bool(b))) => Ok(*b),
        Some(_) => Err(DecodeError::WrongType),
    }
}

fn sdp_type_from(s: &String) -> (r: Result<SdpType, DecodeError>)
    ensures
        r == sdp_type_of(s@),
{
    if same(s, "offer") {
        Ok(SdpType::Offer)
    } else if same(s, "answer") {
        Ok(SdpType::Answer)
    } else if same(s, "pranswer") {
        Ok(SdpType::Pranswer)
    } else if same(s, "rollback") {
        Ok(SdpType::Rollback)
    } else {
        Err(DecodeError::UnknownSdpType)
    }
}

fn description_from(f: &Vec<(String, JsonScalar)>) -> (r: Result<SessionDescription, DecodeError>)
    ensures
        match r {
            Ok(d) => description_of(pairs_view(f@)) == Ok::<DescriptionView, DecodeError>(d@),
            Err(e) => description_of(pairs_view(f@)) == Err::<DescriptionView, DecodeError>(e),
        },
{
    let t = scalar_str(find_field(f, &"type".to_owned()))?;
    let sdp_type = sdp_type_from(&t)?;
    let sdp = scalar_str(find_field(f, &"sdp".to_owned()))?;
    Ok(SessionDescription { sdp_type, sdp })
}

fn candidate_from(f: &Vec<(String, JsonScalar)>) -> (r: Result<IceCandidateInit, DecodeError>)
    ensures
        match r {
            Ok(c) => candidate_of(pairs_view(f@)) == Ok::<CandidateView, DecodeError>(c@),
            Err(e) => candidate_of(pairs_view(f@)) == Err::<CandidateView, DecodeError>(e),
        },
{
    let candidate = scalar_str(find_field(f, &"candidate".to_owned()))?;
    let sdp_mid = scalar_opt_str(find_field(f, &"sdpMid".to_owned()))?;
    let sdp_mline_index = scalar_opt_u16(find_field(f, &"sdpMLineIndex".to_owned()))?;
    let username_fragment = scalar_opt_str(find_field(f, &"usernameFragment".to_owned()))?;
    Ok(IceCandidateInit { candidate, sdp_mid, sdp_mline_index, username_fragment })
}

/// The message an object carries; the error says why there is none.
pub fn decode_message(o: &JsonObject) -> (r: Result<SignalMessage, DecodeError>)
    ensures
        match r {
            Ok(m) => message_of(o@) == Ok::<MessageView, DecodeError>(m@),
            Err(e) => message_of(o@) == Err::<MessageView, DecodeError>(e),
        },
{
    let f = &o.fields;
    let event = top_str(f, "event")?;
    let peer = top_str(f, "peer")?;
    if same(&event, "add-peer") {
        let polite = top_bool(f, "polite")?;
        Ok(SignalMessage::AddPeer { peer, polite })
    } else if same(&event, "remove-peer") {
        Ok(SignalMessage::RemovePeer { peer })
    } else if same(&event, "session-description") {
        match find_field(f, &"data".to_owned()) {
            None => Err(DecodeError::MissingField),
            Some(JsonValue::Object(d)) => {
                let data = description_from(d)?;
                Ok(SignalMessage::SessionDescription { peer, data })
            },
            Some(_) => Err(DecodeError::WrongType),
        }
    } else if same(&event, "ice-candidate") {
        match find_field(f, &"data".to_owned()) {
            None => Ok(SignalMessage::IceCandidate { peer, data: None }),
            Some(JsonValue::Scalar(JsonScalar::Null)) => Ok(SignalMessage::IceCandidate { peer, data: None }),
            Some(JsonValue::Object(d)) => {
                let c = candidate_from(d)?;
                Ok(SignalMessage::IceCandidate { peer, data: Some(c) })
            },
            Some(_) => Err(DecodeError::WrongType),
        }
    } else {
        Err(DecodeError::UnknownEvent)
    }
}

/// The envelope an object carries; the error says why there is none.
pub fn decode(o: &JsonObject) -> (r: Result<SignalEnvelope, DecodeError>)
    ensures
        match r {
            Ok(e) => envelope_of(o@) == Ok::<EnvelopeView, DecodeError>(e@),
            Err(e) => envelope_of(o@) == Err::<EnvelopeView, DecodeError>(e),
        },
{
    let action = top_str(&o.fields, "action")?;
    if !same(&action, "message") {
        return Err(DecodeError::NotAMessage);
    }
    let connection_id = top_str(&o.fields, "connectionId")?;
    let message = decode_message(o)?;
    Ok(SignalEnvelope { connection_id, message })
}

fn str_scalar(s: &String) -> (r: JsonScalar)
    ensures
        r@ == ScalarView::Str(s@),
{
    JsonScalar::Str(s.clone())
}

fn opt_str_json(o: &Option<String>) -> (r: JsonScalar)
    ensures
        r@ == opt_str_scalar(crate::message::opt_str_view(*o)),
{
    match o {
        None => JsonScalar::Null,
        Some(s) => str_scalar(s),
    }
}

fn sdp_type_json(t: SdpType) -> (r: JsonScalar)
    ensures
        r@ == ScalarView::Str(sdp_type_name(t)),
{
    let name = match t {
        SdpType::Offer => "offer",
        SdpType::Answer => "answer",
        SdpType::Pranswer => "pranswer",
        SdpType::Rollback => "rollback",
    };
    JsonScalar::Str(name.to_owned())
}

fn description_json(d: &SessionDescription) -> (r: Vec<(String, JsonScalar)>)
    ensures
        pairs_view(r@) == description_fields(d@),
{
    let mut f: Vec<(String, JsonScalar)> = Vec::new();
    f.push(("type".to_owned(), sdp_type_json(d.sdp_type)));
    f.push(("sdp".to_owned(), str_scalar(&d.sdp)));
    assert(pairs_view(f@) =~= description_fields(d@));
    f
}

fn candidate_json(c: &IceCandidateInit) -> (r: Vec<(String, JsonScalar)>)
    ensures
        pairs_view(r@) == candidate_fields(c@),
{
    let mut f: Vec<(String, JsonScalar)> = Vec::new();
    f.push(("candidate".to_owned(), str_scalar(&c.candidate)));
    f.push(("sdpMid".to_owned(), opt_str_json(&c.sdp_mid)));
    let index = match c.sdp_mline_index {
        None => JsonScalar::Null,
        Some(n) => JsonScalar::Number(n as u64),
    };
    f.push(("sdpMLineIndex".to_owned(), index));
    f.push(("usernameFragment".to_owned(), opt_str_json(&c.username_fragment)));
    assert(pairs_view(f@) =~= candidate_fields(c@));
    f
}

/// The JSON object of an envelope.
pub fn encode(e: &SignalEnvelope) -> (r: JsonObject)
    ensures
        r@ == envelope_json(e@),
{
    let mut f: Vec<(String, JsonValue)> = Vec::new();
    f.push(("action".to_owned(), JsonValue::Scalar(JsonScalar::Str("message".to_owned()))));
    f.push(("connectionId".to_owned(), JsonValue::Scalar(str_scalar(&e.connection_id))));
    let (tag, peer) = match &e.message {
        SignalMessage::AddPeer { peer, .. } => ("add-peer", peer),
        SignalMessage::RemovePeer { peer } => ("remove-peer", peer),
        SignalMessage::SessionDescription { peer, .. } => ("session-description", peer),
        SignalMessage::IceCandidate { peer, .. } => ("ice-candidate", peer),
    };
    f.push(("event".to_owned(), JsonValue::Scalar(JsonScalar::Str(tag.to_owned()))));
    f.push(("peer".to_owned(), JsonValue::Scalar(str_scalar(peer))));
    let ghost head = f@;
    match &e.message {
        SignalMessage::AddPeer { polite, .. } => {
            f.push(("polite".to_owned(), JsonValue::Scalar(JsonScalar::Bool(*polite))));
        },
        SignalMessage::RemovePeer { .. } => {},
        SignalMessage::SessionDescription { data, .. } => {
            f.push(("data".to_owned(), JsonValue::Object(description_json(data))));
        },
        SignalMessage::IceCandidate { data, .. } => {
            let v = match data {
                None => JsonValue::Scalar(JsonScalar::Null),
                Some(c) => JsonValue::Object(candidate_json(c)),
            };
            f.push(("data".to_owned(), v));
        },
    }
    proof {
        assert(pairs_view(head) =~= seq![
            ("action"@, ValueView::Scalar(ScalarView::Str("message"@))),
            ("connectionId"@, ValueView::Scalar(ScalarView::Str(e@.connection_id))),
            ("event"@, ValueView::Scalar(ScalarView::Str(event_tag(e@.message)))),
            ("peer"@, ValueView::Scalar(ScalarView::Str(e@.message.peer()))),
        ]);
        assert(pairs_view(f@) =~= pairs_view(head) + event_fields(e@.message));
    }
    JsonObject { fields: f }
}

/// The greeting sent once when the relay connection opens.
pub fn announce() -> (r: JsonObject)
    ensures
        r@ == seq![("action"@, ValueView::Scalar(ScalarView::Str("announce"@)))],
{
    let mut f: Vec<(String, JsonValue)> = Vec::new();
    f.push(("action".to_owned(), JsonValue::Scalar(JsonScalar::Str("announce".to_owned()))));
    assert(pairs_view(f@) =~= seq![("action"@, ValueView::Scalar(ScalarView::Str("announce"@)))]);
    JsonObject { fields: f }
}

} // verus!
