use lgtvctl::config::Config;
use lgtvctl::manifest::webos_manifest;
use lgtvctl::webos::{
    frame_action, invalid_binary_json, invalid_json, message_id, next_message, request_message,
    start_pairing, Frame, FrameAction, IncomingMessage, NextMessage, Outcome, OutgoingMessage,
    PairResult, Payload, Phase, Registration, Reply, RequestSpec, Session, WebOsClient,
};
use lgtvctl::LgtvctlError;
use std::time::Duration;

fn client(key: Option<&str>) -> WebOsClient {
    let mut c = Config::default();
    c.host = Some("192.168.0.116".to_string());
    c.client_key = key.map(|k| k.to_string());
    WebOsClient::new(c)
}

fn reply(id: &str, kind: &str, key: Option<&str>) -> IncomingMessage {
    IncomingMessage {
        id: Some(id.to_string()),
        kind: Some(kind.to_string()),
        client_key: key.map(|k| k.to_string()),
        text: format!("{{\"id\":\"{id}\",\"type\":\"{kind}\"}}"),
        payload: null_reply(),
    }
}

fn null_reply() -> Reply {
    Reply { text: "null".to_string(), return_value: None, mute: None, muted: None }
}

fn status_request() -> RequestSpec {
    RequestSpec { name: "status".to_string(), uri: "ssap://audio/getVolume".to_string(), payload: None }
}

fn is_uuid(u: &str) -> bool {
    u.len() == 36
        && u.char_indices().all(|(i, c)| {
            if [8, 13, 18, 23].contains(&i) { c == '-' } else { c.is_ascii_digit() || ('a'..='f').contains(&c) }
        })
        && u.as_bytes()[14] == b'4'
}

#[test]
fn url_uses_host_and_port() {
    assert_eq!(client(None).url(), Ok("wss://192.168.0.116:3001/".to_string()));
    assert_eq!(WebOsClient::new(Config::default()).url(), Err(LgtvctlError::MissingHost));
}

#[test]
fn message_ids_are_prefix_and_uuid() {
    let a = message_id("status");
    let b = message_id("status");
    assert!(a.starts_with("status_"));
    assert!(is_uuid(&a["status_".len()..]), "{a}");
    assert_ne!(a, b);
}

#[test]
fn pairing_accepts_the_registered_reply() {
    let (session, message) = start_pairing();
    let id = message.id().to_string();
    assert!(id.starts_with("register_"));
    assert!(matches!(message, OutgoingMessage::Register { registration: Registration::Prompt, .. }));
    assert_eq!(session, Session::Pairing { id: id.clone() });
    let (session, out) = session.advance(reply("other", "registered", Some("k")));
    assert_eq!(out, Outcome::Wait);
    let (session, out) = session.advance(reply(&id, "response", None));
    assert_eq!(out, Outcome::Wait);
    let (session, out) = session.advance(reply(&id, "registered", Some("KEY")));
    assert_eq!(out, Outcome::Paired(PairResult { client_key: "KEY".to_string() }));
    assert_eq!(session, Session::Finished);
}

#[test]
fn pairing_without_key_or_with_error_fails() {
    let (session, message) = start_pairing();
    let id = message.id().to_string();
    let (_, out) = session.advance(reply(&id, "registered", None));
    assert_eq!(out, Outcome::Failed(LgtvctlError::MissingClientKey));
    let (session, message) = start_pairing();
    let id = message.id().to_string();
    let err = reply(&id, "error", None);
    let text = err.text.clone();
    let (next, out) = session.advance(err);
    assert_eq!(out, Outcome::Failed(LgtvctlError::Protocol(text)));
    assert_eq!(next, Session::Finished);
}

#[test]
fn request_registers_then_sends() {
    assert_eq!(
        client(None).start_request(status_request()).err(),
        Some(LgtvctlError::MissingClientKeyConfig)
    );
    assert_eq!(
        client(Some("   ")).start_request(status_request()).err(),
        Some(LgtvctlError::MissingClientKeyConfig)
    );
    let (session, message) = client(Some("KEY")).start_request(status_request()).unwrap();
    let reg_id = message.id().to_string();
    assert!(reg_id.starts_with("register_"));
    match &message {
        OutgoingMessage::Register { registration: Registration::ClientKey(k), .. } => assert_eq!(k, "KEY"),
        other => panic!("unexpected {other:?}"),
    }
    let (session, out) = session.advance(reply("x", "registered", None));
    assert_eq!(out, Outcome::Wait);
    let (session, out) = session.advance(reply(&reg_id, "registered", None));
    let req_id = match out {
        Outcome::Send(OutgoingMessage::Request { id, uri, payload }) => {
            assert_eq!(uri, "ssap://audio/getVolume");
            assert_eq!(payload, None);
            id
        }
        other => panic!("unexpected {other:?}"),
    };
    assert!(req_id.starts_with("status_"));
    assert_eq!(session, Session::AwaitingResponse { id: req_id.clone(), name: "status".to_string() });
    assert_eq!(session.phase(), Phase::Response("status".to_string()));
    let (session, out) = session.advance(reply(&reg_id, "response", None));
    assert_eq!(out, Outcome::Wait);
    let mut answer = reply(&req_id, "response", None);
    answer.payload = Reply { text: "{\"volume\":5}".to_string(), return_value: Some(true), mute: None, muted: None };
    let (session, out) = session.advance(answer);
    assert_eq!(
        out,
        Outcome::Responded(Reply { text: "{\"volume\":5}".to_string(), return_value: Some(true), mute: None, muted: None })
    );
    assert!(session.is_finished());
    let (_, out) = session.advance(reply(&req_id, "response", None));
    assert_eq!(out, Outcome::Wait);
}

#[test]
fn request_error_reply_fails() {
    let (session, message) = client(Some("KEY")).start_request(status_request()).unwrap();
    let err = reply(message.id(), "error", None);
    let text = err.text.clone();
    let (_, out) = session.advance(err);
    assert_eq!(out, Outcome::Failed(LgtvctlError::Protocol(text)));
}

#[test]
fn request_message_carries_payload() {
    let r = RequestSpec {
        name: "volume_set".to_string(),
        uri: "ssap://audio/setVolume".to_string(),
        payload: Some(Payload::Volume(15)),
    };
    let (id, m) = request_message(r);
    assert!(id.starts_with("volume_set_"));
    assert_eq!(m, OutgoingMessage::Request { id, uri: "ssap://audio/setVolume".to_string(), payload: Some(Payload::Volume(15)) });
}

#[test]
fn timeouts_per_phase() {
    let c = client(Some("KEY"));
    assert_eq!(c.phase_timeout(&Phase::Pair), Duration::from_millis(60000));
    assert_eq!(c.phase_timeout(&Phase::Connect), Duration::from_millis(3000));
    assert_eq!(c.phase_timeout(&Phase::Auth), Duration::from_millis(3000));
    assert_eq!(
        c.timeout_error(Phase::Pair),
        LgtvctlError::Timeout { operation: "pair".to_string(), timeout_ms: 60000 }
    );
    assert_eq!(
        c.timeout_error(Phase::Response("status".to_string())),
        LgtvctlError::Timeout { operation: "status".to_string(), timeout_ms: 3000 }
    );
    assert_eq!(
        c.timeout_error(Phase::Connect),
        LgtvctlError::Timeout { operation: "connect".to_string(), timeout_ms: 3000 }
    );
    assert_eq!(
        c.timeout_error(Phase::Auth),
        LgtvctlError::Timeout { operation: "auth".to_string(), timeout_ms: 3000 }
    );
}

#[test]
fn frames_decide_what_happens() {
    assert!(matches!(frame_action(Frame::Text("{}".to_string())), FrameAction::DecodeText(t) if t == "{}"));
    assert!(matches!(frame_action(Frame::Binary(vec![1])), FrameAction::DecodeBytes(b) if b == vec![1]));
    assert!(matches!(frame_action(Frame::Ping(vec![7])), FrameAction::Pong(b) if b == vec![7]));
    assert!(matches!(frame_action(Frame::Pong), FrameAction::Skip));
    assert!(matches!(frame_action(Frame::Other), FrameAction::Skip));
    match frame_action(Frame::End) {
        FrameAction::Fail(e) => assert_eq!(e, LgtvctlError::Protocol("websocket closed by TV".to_string())),
        _ => panic!("end of stream must fail"),
    }
    match frame_action(Frame::Close("None".to_string())) {
        FrameAction::Fail(e) => assert_eq!(e, LgtvctlError::Protocol("websocket closed by TV: None".to_string())),
        _ => panic!("close must fail"),
    }
    assert_eq!(
        invalid_json("expected value", "xyz"),
        LgtvctlError::Protocol("invalid JSON from TV: expected value; raw=xyz".to_string())
    );
    assert_eq!(
        invalid_binary_json("eof"),
        LgtvctlError::Protocol("invalid binary JSON from TV: eof".to_string())
    );
}

#[test]
fn manifest_asks_for_the_permissions() {
    let m = webos_manifest();
    assert_eq!(m.manifest_version, 1);
    assert_eq!(m.app_version, "0.5.0");
    assert_eq!(m.app_id, "com.fanciertech.lgtvctl");
    assert_eq!(m.vendor_id, "com.fanciertech");
    assert_eq!(m.permissions.len(), 24);
    assert_eq!(m.permissions[0], "LAUNCH");
    assert_eq!(m.permissions[10], "CONTROL_POWER");
    assert_eq!(m.permissions[23], "WRITE_NOTIFICATION_TOAST");
    assert_eq!(m.app_names[1], ("en-US".to_string(), "lgtvctl".to_string()));
    assert_eq!(m.vendor_names, vec![(String::new(), "Fancier Tech".to_string())]);
}

#[test]
fn text_frames_are_decoded() {
    let text = r#"{"id":"register_1","type":"registered","payload":{"client-key":"K1","returnValue":true,"mute":false}}"#;
    match next_message(Frame::Text(text.to_string())) {
        NextMessage::Message(m) => {
            assert_eq!(m.id.as_deref(), Some("register_1"));
            assert_eq!(m.kind.as_deref(), Some("registered"));
            assert_eq!(m.client_key.as_deref(), Some("K1"));
            assert_eq!(m.payload.return_value, Some(true));
            assert_eq!(m.payload.mute, Some(false));
            assert_eq!(m.payload.muted, None);
            let value: serde_json::Value = serde_json::from_str(text).unwrap();
            assert_eq!(m.payload.text, value["payload"].to_string());
            assert_eq!(m.text, value.to_string());
        }
        other => panic!("unexpected {other:?}"),
    }
}

#[test]
fn decoding_reads_only_fields_of_the_right_type() {
    match next_message(Frame::Binary(br#"{"id":7,"type":"response","payload":{"mute":"yes"}}"#.to_vec())) {
        NextMessage::Message(m) => {
            assert_eq!(m.id, None);
            assert_eq!(m.kind.as_deref(), Some("response"));
            assert_eq!(m.client_key, None);
            assert_eq!(m.payload.mute, None);
            assert_eq!(m.payload.text, r#"{"mute":"yes"}"#);
        }
        other => panic!("unexpected {other:?}"),
    }
    match next_message(Frame::Text(r#"{"id":"a"}"#.to_string())) {
        NextMessage::Message(m) => assert_eq!(m.payload, null_reply()),
        other => panic!("unexpected {other:?}"),
    }
}

#[test]
fn undecodable_frames_are_protocol_errors() {
    let complaint = serde_json::from_str::<serde_json::Value>("nope").unwrap_err().to_string();
    assert_eq!(
        next_message(Frame::Text("nope".to_string())),
        NextMessage::Fail(LgtvctlError::Protocol(format!("invalid JSON from TV: {complaint}; raw=nope")))
    );
    let complaint = serde_json::from_slice::<serde_json::Value>(b"{").unwrap_err().to_string();
    assert_eq!(
        next_message(Frame::Binary(b"{".to_vec())),
        NextMessage::Fail(LgtvctlError::Protocol(format!("invalid binary JSON from TV: {complaint}")))
    );
    assert_eq!(next_message(Frame::Ping(vec![1, 2])), NextMessage::Pong(vec![1, 2]));
    assert_eq!(next_message(Frame::Pong), NextMessage::Skip);
    assert_eq!(
        next_message(Frame::End),
        NextMessage::Fail(LgtvctlError::Protocol("websocket closed by TV".to_string()))
    );
}

#[test]
fn only_sending_starts_a_new_phase() {
    assert!(Outcome::Send(OutgoingMessage::Request { id: "x".to_string(), uri: "u".to_string(), payload: None }).starts_new_phase());
    assert!(!Outcome::Wait.starts_new_phase());
    assert!(!Outcome::Responded(null_reply()).starts_new_phase());
    assert!(!Outcome::Failed(LgtvctlError::MissingClientKey).starts_new_phase());
}
