use vstd::prelude::*;
use vstd::slice::slice_to_vec;
use vstd::utf8::{encode_utf8, is_ascii_chars, is_ascii_chars_encode_utf8};

use crate::frame::{encode, frame_bytes};
use crate::phase::ConnectionPhase;

verus! {

/// Opcode shared by handshake, status request and login start frames.
pub const OPCODE_ZERO: u8 = 0x00;

/// Opcode of a ping request while in the Status phase.
pub const OPCODE_PING_REQUEST: u8 = 0x01;

/// Opcode of the login success response frame.
pub const OPCODE_LOGIN_SUCCESS: u8 = 0x02;

/// Offset within the raw handshake buffer where the client places the
/// indicator byte asking for its next phase.
pub const HANDSHAKE_INDICATOR_OFFSET: usize = 5;

/// The phase a handshake indicator byte asks for: 1 asks for Status, 2
/// asks for Login, and any other value leaves the connection in Handshake.
pub open spec fn handshake_target(indicator: u8) -> ConnectionPhase {
    if indicator == 1 {
        ConnectionPhase::Status
    } else if indicator == 2 {
        ConnectionPhase::Login
    } else {
        ConnectionPhase::Handshake
    }
}

/// Reads the requested next phase out of a handshake frame's raw buffer.
/// Produces no response frame.
pub fn handle_handshake(buffer: &[u8]) -> (next: ConnectionPhase)
    requires
        buffer@.len() > HANDSHAKE_INDICATOR_OFFSET,
    ensures
        next == handshake_target(buffer@[HANDSHAKE_INDICATOR_OFFSET as int]),
{
    let indicator: u8 = buffer[HANDSHAKE_INDICATOR_OFFSET];
    if indicator == 1 {
        ConnectionPhase::Status
    } else if indicator == 2 {
        ConnectionPhase::Login
    } else {
        ConnectionPhase::Handshake
    }
}

/// The fixed status descriptor, as the JSON text every status response
/// carries: version name and protocol number, player counts, an empty
/// player sample, and the server description.
pub open spec fn status_json_chars() -> Seq<char> {
    "{\"version\":{\"name\":\"1.20.1\",\"protocol\":763},\"players\":{\"max\":10,\"online\":0,\"sample\":[]},\"description\":{\"text\":\"Welcome to RustCraft!\"}}"@
}

/// Payload of every status response frame: the UTF-8 bytes of the fixed
/// JSON status descriptor.
pub open spec fn status_payload() -> Seq<u8> {
    encode_utf8(status_json_chars())
}

/// The status descriptor is ASCII, one byte per character, and short
/// enough for a one-byte length prefix.
pub proof fn lemma_status_payload_len()
    ensures
        status_payload().len() == 135,
{
    reveal_strlit(
        "{\"version\":{\"name\":\"1.20.1\",\"protocol\":763},\"players\":{\"max\":10,\"online\":0,\"sample\":[]},\"description\":{\"text\":\"Welcome to RustCraft!\"}}",
    );
    assert(is_ascii_chars(status_json_chars()));
    is_ascii_chars_encode_utf8(status_json_chars());
}

/// Builds the status response: a frame with opcode 0 whose payload is the
/// fixed JSON status descriptor.
pub fn handle_status() -> (response: Vec<u8>)
    ensures
        response@ == frame_bytes(OPCODE_ZERO, status_payload()),
{
    let json: &str =
        "{\"version\":{\"name\":\"1.20.1\",\"protocol\":763},\"players\":{\"max\":10,\"online\":0,\"sample\":[]},\"description\":{\"text\":\"Welcome to RustCraft!\"}}";
    proof {
        lemma_status_payload_len();
    }
    encode(OPCODE_ZERO, json.as_bytes())
}

/// Builds the ping response: the received buffer echoed back verbatim,
/// byte for byte.
pub fn handle_ping(buffer: &[u8]) -> (response: Vec<u8>)
    ensures
        response@ == buffer@,
{
    slice_to_vec(buffer)
}

/// The fixed placeholder UUID text returned to every logging-in client.
pub open spec fn login_uuid_chars() -> Seq<char> {
    "00000000-0000-0000-0000-000000000000"@
}

/// The fixed placeholder username returned to every logging-in client.
pub open spec fn login_username_chars() -> Seq<char> {
    "TestPlayer"@
}

/// Payload of the login success frame: the UTF-8 bytes of the fixed UUID
/// text followed immediately by the fixed username text, no delimiter.
pub open spec fn login_payload() -> Seq<u8> {
    encode_utf8(login_uuid_chars()) + encode_utf8(login_username_chars())
}

/// Both identity texts are ASCII, so the login payload is one byte per
/// character and fits a one-byte length prefix.
pub proof fn lemma_login_payload_len()
    ensures
        encode_utf8(login_uuid_chars()).len() == 36,
        encode_utf8(login_username_chars()).len() == 10,
        login_payload().len() == 46,
{
    reveal_strlit("00000000-0000-0000-0000-000000000000");
    reveal_strlit("TestPlayer");
    assert(is_ascii_chars(login_uuid_chars()));
    assert(is_ascii_chars(login_username_chars()));
    is_ascii_chars_encode_utf8(login_uuid_chars());
    is_ascii_chars_encode_utf8(login_username_chars());
}

/// Builds the login success response: a frame with opcode 2 carrying the
/// fixed placeholder identity. The login start payload is ignored: no real
/// credential parsing happens in this scope.
pub fn handle_login_start() -> (response: Vec<u8>)
    ensures
        response@ == frame_bytes(OPCODE_LOGIN_SUCCESS, login_payload()),
{
    let uuid: &str = "00000000-0000-0000-0000-000000000000";
    let username: &str = "TestPlayer";
    let mut payload: Vec<u8> = Vec::new();
    payload.extend_from_slice(uuid.as_bytes());
    payload.extend_from_slice(username.as_bytes());
    proof {
        lemma_login_payload_len();
        assert(payload@ =~= login_payload());
    }
    encode(OPCODE_LOGIN_SUCCESS, payload.as_slice())
}

} // verus!
