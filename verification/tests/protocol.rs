use rustcraft::frame::{decode, encode};
use rustcraft::machine::step;
use rustcraft::ConnectionPhase;

const STATUS_JSON: &str = "{\"version\":{\"name\":\"1.20.1\",\"protocol\":763},\"players\":{\"max\":10,\"online\":0,\"sample\":[]},\"description\":{\"text\":\"Welcome to RustCraft!\"}}";
const UUID: &str = "00000000-0000-0000-0000-000000000000";
const USERNAME: &str = "TestPlayer";

#[test]
fn encode_exact_bytes() {
    let frame = encode(0x07, &[1, 2]);
    assert_eq!(frame, vec![3, 0x07, 1, 2]);
}

#[test]
fn encode_empty_payload() {
    let frame = encode(0x01, &[]);
    assert_eq!(frame, vec![1, 0x01]);
}

#[test]
fn decode_round_trip() {
    let frame = encode(0x02, &[9, 8, 7, 6]);
    let (opcode, payload) = decode(&frame).unwrap();
    assert_eq!(opcode, 0x02);
    assert_eq!(payload, vec![9, 8, 7, 6]);
}

#[test]
fn decode_empty_buffer() {
    assert!(decode(&[]).is_none());
}

#[test]
fn decode_missing_opcode() {
    assert!(decode(&[1]).is_none());
    assert!(decode(&[0, 0]).is_none());
}

#[test]
fn decode_declared_length_too_long() {
    assert!(decode(&[5, 0x00, 1]).is_none());
}

#[test]
fn handshake_indicator_one_yields_status() {
    let r = step(ConnectionPhase::Handshake, &[0x00, 0, 0, 0, 0, 1]);
    assert_eq!(r.next, ConnectionPhase::Status);
    assert!(r.response.is_none());
    assert!(!r.disconnect);
}

#[test]
fn handshake_indicator_two_yields_login() {
    let r = step(ConnectionPhase::Handshake, &[0x00, 0, 0, 0, 0, 2]);
    assert_eq!(r.next, ConnectionPhase::Login);
    assert!(r.response.is_none());
    assert!(!r.disconnect);
}

#[test]
fn handshake_other_indicator_keeps_phase() {
    let r = step(ConnectionPhase::Handshake, &[0x00, 0, 0, 0, 0, 7]);
    assert_eq!(r.next, ConnectionPhase::Handshake);
    assert!(r.response.is_none());
    assert!(!r.disconnect);
}

#[test]
fn handshake_other_opcode_ignored() {
    let r = step(ConnectionPhase::Handshake, &[0x03, 0, 0, 0, 0, 1]);
    assert_eq!(r.next, ConnectionPhase::Handshake);
    assert!(r.response.is_none());
    assert!(!r.disconnect);
}

#[test]
fn undersized_handshake_disconnects() {
    let r = step(ConnectionPhase::Handshake, &[0x00, 0]);
    assert_eq!(r.next, ConnectionPhase::Handshake);
    assert!(r.response.is_none());
    assert!(r.disconnect);
}

#[test]
fn empty_buffer_is_skipped() {
    for phase in [ConnectionPhase::Handshake, ConnectionPhase::Status, ConnectionPhase::Login] {
        let r = step(phase, &[]);
        assert_eq!(r.next, phase);
        assert!(r.response.is_none());
        assert!(!r.disconnect);
    }
}

#[test]
fn status_request_returns_json_frame() {
    let r = step(ConnectionPhase::Status, &[0x00, 0x00]);
    assert_eq!(r.next, ConnectionPhase::Status);
    assert!(!r.disconnect);
    let response = r.response.expect("status request must be answered");
    let expected_payload = STATUS_JSON.as_bytes();
    assert_eq!(response[0] as usize, expected_payload.len() + 1);
    assert_eq!(response[1], 0x00);
    assert_eq!(&response[2..], expected_payload);
}

#[test]
fn status_payload_parses_as_fixed_shape_json() {
    let r = step(ConnectionPhase::Status, &[0x00, 0x00]);
    let response = r.response.expect("status request must be answered");
    let v: serde_json::Value = serde_json::from_slice(&response[2..]).expect("payload is JSON");
    assert!(v["version"]["name"].is_string());
    assert_eq!(v["version"]["protocol"].as_i64(), Some(763));
    assert_eq!(v["players"]["max"].as_i64(), Some(10));
    assert_eq!(v["players"]["online"].as_i64(), Some(0));
    assert_eq!(v["players"]["sample"].as_array().map(|a| a.len()), Some(0));
    assert!(v["description"]["text"].is_string());
}

#[test]
fn ping_echoes_request_verbatim() {
    let request = [0x01, 0xde, 0xad, 0xbe, 0xef, 0x00, 0x42];
    let r = step(ConnectionPhase::Status, &request);
    assert_eq!(r.next, ConnectionPhase::Status);
    assert!(!r.disconnect);
    assert_eq!(r.response.expect("ping must be answered"), request.to_vec());
}

#[test]
fn status_unknown_opcode_ignored() {
    let r = step(ConnectionPhase::Status, &[0x05, 1, 2, 3]);
    assert_eq!(r.next, ConnectionPhase::Status);
    assert!(r.response.is_none());
    assert!(!r.disconnect);
}

#[test]
fn login_start_returns_identity_and_enters_play() {
    let r = step(ConnectionPhase::Login, &[0x00, 0x00]);
    assert_eq!(r.next, ConnectionPhase::Play);
    assert!(!r.disconnect);
    let response = r.response.expect("login start must be answered");
    let mut expected_payload = UUID.as_bytes().to_vec();
    expected_payload.extend_from_slice(USERNAME.as_bytes());
    assert_eq!(response[0] as usize, expected_payload.len() + 1);
    assert_eq!(response[1], 0x02);
    assert_eq!(&response[2..], &expected_payload[..]);
    let (opcode, payload) = decode(&response).unwrap();
    assert_eq!(opcode, 0x02);
    assert!(payload.starts_with(UUID.as_bytes()));
    assert!(payload.ends_with(USERNAME.as_bytes()));
}

#[test]
fn login_unknown_opcode_ignored() {
    let r = step(ConnectionPhase::Login, &[0x01, 5]);
    assert_eq!(r.next, ConnectionPhase::Login);
    assert!(r.response.is_none());
    assert!(!r.disconnect);
}

#[test]
fn play_terminates_processing() {
    let r = step(ConnectionPhase::Play, &[0x00, 0x00]);
    assert_eq!(r.next, ConnectionPhase::Play);
    assert!(r.response.is_none());
    assert!(r.disconnect);
    let r2 = step(ConnectionPhase::Play, &[]);
    assert_eq!(r2.next, ConnectionPhase::Play);
    assert!(r2.response.is_none());
    assert!(r2.disconnect);
}

#[test]
fn status_query_scenario() {
    let r1 = step(ConnectionPhase::Handshake, &[0x00, 0x00, 0, 0, 0, 1]);
    assert_eq!(r1.next, ConnectionPhase::Status);
    assert!(r1.response.is_none());
    let r2 = step(r1.next, &[0x00, 0x00]);
    let response = r2.response.expect("status request must be answered");
    assert_eq!(response[1], 0x00);
    assert_eq!(response.len(), response[0] as usize + 1);
    let v: serde_json::Value = serde_json::from_slice(&response[2..]).expect("payload is JSON");
    assert_eq!(v["version"]["protocol"].as_i64(), Some(763));
}

#[test]
fn full_login_session_never_revisits_a_phase() {
    let mut phase = ConnectionPhase::Handshake;
    let mut seen = vec![phase];
    let r1 = step(phase, &[0x00, 0, 0, 0, 0, 2]);
    phase = r1.next;
    assert!(!seen.contains(&phase));
    seen.push(phase);
    assert_eq!(phase, ConnectionPhase::Login);
    let r2 = step(phase, &[0x00, 0x00]);
    phase = r2.next;
    assert!(!seen.contains(&phase));
    seen.push(phase);
    assert_eq!(phase, ConnectionPhase::Play);
    let r3 = step(phase, &[0x00]);
    assert_eq!(r3.next, ConnectionPhase::Play);
    assert!(r3.disconnect);
}
