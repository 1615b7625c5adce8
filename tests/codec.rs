use webrtc_socket::codec::{announce, decode, decode_message, encode, DecodeError};
use webrtc_socket::json::{JsonObject, JsonScalar, JsonValue};
use webrtc_socket::message::{IceCandidateInit, SdpType, SessionDescription, SignalEnvelope, SignalMessage};

fn s(x: &str) -> String {
    x.to_string()
}

fn top(fields: Vec<(&str, JsonValue)>) -> JsonObject {
    JsonObject { fields: fields.into_iter().map(|(k, v)| (s(k), v)).collect() }
}

fn st(x: &str) -> JsonValue {
    JsonValue::Scalar(JsonScalar::Str(s(x)))
}

fn field<'a>(o: &'a JsonObject, k: &str) -> &'a JsonValue {
    &o.fields.iter().find(|(n, _)| n == k).unwrap().1
}

#[test]
fn candidate_none_round_trips() {
    let e = SignalMessage::IceCandidate { peer: s("p"), data: None }.to_signal_message_action("p");
    let o = encode(&e);
    assert!(matches!(field(&o, "data"), JsonValue::Scalar(JsonScalar::Null)));
    let back = decode(&o).unwrap();
    assert_eq!(back.connection_id, "p");
    assert!(matches!(back.message, SignalMessage::IceCandidate { ref peer, data: None } if peer == "p"));
}

#[test]
fn candidate_some_round_trips() {
    let c = IceCandidateInit {
        candidate: s("candidate:1 1 udp 2122260223 10.0.0.2 50000 typ host"),
        sdp_mid: Some(s("0")),
        sdp_mline_index: Some(3),
        username_fragment: None,
    };
    let e = SignalEnvelope { connection_id: s("conn"), message: SignalMessage::IceCandidate { peer: s("p"), data: Some(c) } };
    let o = encode(&e);
    assert!(matches!(field(&o, "event"), JsonValue::Scalar(JsonScalar::Str(t)) if t == "ice-candidate"));
    let back = decode(&o).unwrap();
    match back.message {
        SignalMessage::IceCandidate { peer, data: Some(d) } => {
            assert_eq!(peer, "p");
            assert_eq!(d.candidate, "candidate:1 1 udp 2122260223 10.0.0.2 50000 typ host");
            assert_eq!(d.sdp_mid.as_deref(), Some("0"));
            assert_eq!(d.sdp_mline_index, Some(3));
            assert_eq!(d.username_fragment, None);
        }
        other => panic!("unexpected {:?}", other),
    }
}

#[test]
fn description_and_add_peer_round_trip() {
    let e = SignalMessage::SessionDescription { peer: s("A"), data: SessionDescription { sdp_type: SdpType::Answer, sdp: s("v=0") } }
        .to_signal_message_action("A");
    let o = encode(&e);
    assert_eq!(o.fields[0].0, "action");
    assert!(matches!(&o.fields[0].1, JsonValue::Scalar(JsonScalar::Str(a)) if a == "message"));
    assert_eq!(o.fields[1].0, "connectionId");
    assert!(matches!(decode(&o).unwrap().message,
        SignalMessage::SessionDescription { ref data, .. } if data.sdp_type == SdpType::Answer && data.sdp == "v=0"));

    let e = SignalMessage::AddPeer { peer: s("B"), polite: true }.to_signal_message_action("c");
    let o = encode(&e);
    assert!(matches!(field(&o, "polite"), JsonValue::Scalar(JsonScalar::Bool(true))));
    assert!(matches!(decode(&o).unwrap().message, SignalMessage::AddPeer { ref peer, polite: true } if peer == "B"));
}

#[test]
fn relay_message_without_envelope_decodes() {
    let o = top(vec![("event", st("remove-peer")), ("peer", st("X"))]);
    assert!(matches!(decode_message(&o), Ok(SignalMessage::RemovePeer { ref peer }) if peer == "X"));
    let o = top(vec![
        ("event", st("session-description")),
        ("peer", st("X")),
        ("data", JsonValue::Object(vec![(s("type"), JsonScalar::Str(s("offer"))), (s("sdp"), JsonScalar::Str(s("v=0")))])),
    ]);
    assert!(matches!(decode_message(&o), Ok(SignalMessage::SessionDescription { ref data, .. }) if data.sdp_type == SdpType::Offer));
}

#[test]
fn decode_errors() {
    let o = top(vec![("peer", st("X"))]);
    assert_eq!(decode_message(&o).err(), Some(DecodeError::MissingField));
    let o = top(vec![("event", JsonValue::Scalar(JsonScalar::Number(1))), ("peer", st("X"))]);
    assert_eq!(decode_message(&o).err(), Some(DecodeError::WrongType));
    let o = top(vec![("event", st("shout")), ("peer", st("X"))]);
    assert_eq!(decode_message(&o).err(), Some(DecodeError::UnknownEvent));
    let o = top(vec![
        ("event", st("session-description")),
        ("peer", st("X")),
        ("data", JsonValue::Object(vec![(s("type"), JsonScalar::Str(s("bogus"))), (s("sdp"), JsonScalar::Str(s("")))])),
    ]);
    assert_eq!(decode_message(&o).err(), Some(DecodeError::UnknownSdpType));
    let o = top(vec![("action", st("announce"))]);
    assert_eq!(decode(&o).err(), Some(DecodeError::NotAMessage));
    let o = top(vec![("event", st("add-peer")), ("peer", st("X")), ("polite", st("yes"))]);
    assert_eq!(decode_message(&o).err(), Some(DecodeError::WrongType));
    let o = top(vec![
        ("event", st("ice-candidate")),
        ("peer", st("X")),
        ("data", JsonValue::Object(vec![(s("candidate"), JsonScalar::Str(s("c"))), (s("sdpMLineIndex"), JsonScalar::Number(70000))])),
    ]);
    assert_eq!(decode_message(&o).err(), Some(DecodeError::WrongType));
}

#[test]
fn greeting_is_announce() {
    let o = announce();
    assert_eq!(o.fields.len(), 1);
    assert_eq!(o.fields[0].0, "action");
    assert!(matches!(&o.fields[0].1, JsonValue::Scalar(JsonScalar::Str(a)) if a == "announce"));
}
