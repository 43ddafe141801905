use vstd::prelude::*;
use vstd::slice::{slice_subrange, slice_to_vec};

verus! {

/// Longest payload one length byte can declare: the length byte counts the
/// opcode together with the payload, so the payload itself is capped one
/// below the largest byte value.
pub const MAX_PAYLOAD_LEN: usize = 254;

/// The wire form of one frame: a length byte counting the opcode plus the
/// payload, then the opcode, then the payload.
pub open spec fn frame_bytes(opcode: u8, payload: Seq<u8>) -> Seq<u8> {
    seq![(payload.len() + 1) as u8, opcode] + payload
}

/// What decoding a raw buffer yields: the opcode and payload of the frame
/// at its front, or nothing when the buffer is empty, has no opcode byte,
/// or declares more bytes than are available.
pub open spec fn decoded(buf: Seq<u8>) -> Option<(u8, Seq<u8>)> {
    if buf.len() >= 2 && buf[0] >= 1 && buf.len() >= 1 + buf[0] {
        Some((buf[1], buf.subrange(2, 1 + buf[0] as int)))
    } else {
        None
    }
}

/// Builds the wire form of a frame from its opcode and payload.
pub fn encode(opcode: u8, payload: &[u8]) -> (frame: Vec<u8>)
    requires
        payload@.len() <= MAX_PAYLOAD_LEN,
    ensures
        frame@ == frame_bytes(opcode, payload@),
{
    let mut frame: Vec<u8> = Vec::new();
    frame.push((payload.len() + 1) as u8);
    frame.push(opcode);
    frame.extend_from_slice(payload);
    proof {
        assert(frame@ =~= frame_bytes(opcode, payload@));
    }
    frame
}

/// Reads the frame at the front of a raw buffer, if the buffer holds a
/// complete one.
pub fn decode(buf: &[u8]) -> (r: Option<(u8, Vec<u8>)>)
    ensures
        match r {
            Some(f) => decoded(buf@) == Some((f.0, f.1@)),
            None => decoded(buf@) is None,
        },
{
    if buf.len() >= 2 {
        let declared: usize = buf[0] as usize;
        if declared >= 1 && buf.len() >= 1 + declared {
            let payload = slice_to_vec(slice_subrange(buf, 2, 1 + declared));
            Some((buf[1], payload))
        } else {
            None
        }
    } else {
        None
    }
}

/// Framing is lossless: decoding the wire form of any frame whose payload
/// the length byte can represent yields that frame's opcode and payload.
pub proof fn lemma_encode_decode(opcode: u8, payload: Seq<u8>)
    requires
        payload.len() <= MAX_PAYLOAD_LEN,
    ensures
        decoded(frame_bytes(opcode, payload)) == Some((opcode, payload)),
{
    let wire = frame_bytes(opcode, payload);
    assert(wire[0] == payload.len() + 1);
    assert(wire.subrange(2, 1 + wire[0] as int) =~= payload);
}

} // verus!
