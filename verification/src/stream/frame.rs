//! The frame that carries one datagram over a byte stream: a two-byte
//! big-endian length and as many bytes of payload.

use vstd::prelude::*;

verus! {

/// The longest payload that a frame can carry.
pub const MAX_PAYLOAD: usize = 65535;

/// How many bytes the reassembly buffer may hold while it waits for a frame
/// to become whole.
pub const BUFFER_CAP: usize = 65535;

/// The frame that carries `payload`.
pub open spec fn spec_frame(payload: Seq<u8>) -> Seq<u8> {
    seq![(payload.len() / 256) as u8, (payload.len() % 256) as u8] + payload
}

/// The payload length that the first two bytes of `b` declare.
pub open spec fn declared_len(b: Seq<u8>) -> int {
    b[0] as int * 256 + b[1] as int
}

/// Whether `b` starts with a whole frame.
pub open spec fn front_complete(b: Seq<u8>) -> bool {
    b.len() >= 2 && b.len() >= declared_len(b) + 2
}

/// The payload of the frame that `b` starts with.
pub open spec fn front_payload(b: Seq<u8>) -> Seq<u8> {
    b.subrange(2, 2 + declared_len(b))
}

/// What is left of `b` behind the frame that it starts with.
pub open spec fn after_front(b: Seq<u8>) -> Seq<u8> {
    b.skip(2 + declared_len(b))
}

/// The payloads of the whole frames that `b` holds, front to back.
pub open spec fn frames_of(b: Seq<u8>) -> Seq<Seq<u8>>
    decreases b.len(),
{
    if front_complete(b) {
        seq![front_payload(b)] + frames_of(after_front(b))
    } else {
        Seq::empty()
    }
}

/// What is left of `b` behind its whole frames: the part of a frame that has
/// not arrived in full.
pub open spec fn residue(b: Seq<u8>) -> Seq<u8>
    decreases b.len(),
{
    if front_complete(b) {
        residue(after_front(b))
    } else {
        b
    }
}

/// The frames of `payloads`, one after the other.
pub open spec fn frame_all(payloads: Seq<Seq<u8>>) -> Seq<u8>
    decreases payloads.len(),
{
    if payloads.len() == 0 {
        Seq::empty()
    } else {
        spec_frame(payloads[0]) + frame_all(payloads.skip(1))
    }
}

/// Whether each of `payloads` is short enough for a frame.
pub open spec fn all_fit(payloads: Seq<Seq<u8>>) -> bool {
    forall|i: int| 0 <= i < payloads.len() ==> (#[trigger] payloads[i]).len() <= MAX_PAYLOAD
}

/// Appends the frame of `payload` to `out`, and tells whether it did: a
/// payload that is too long for a frame leaves `out` as it is.
pub fn push_frame(out: &mut Vec<u8>, payload: &[u8]) -> (framed: bool)
    ensures
        framed == (payload@.len() <= MAX_PAYLOAD),
        final(out)@ == if framed {
            old(out)@ + spec_frame(payload@)
        } else {
            old(out)@
        },
{
    let len: usize = payload.len();
    if len > MAX_PAYLOAD {
        return false;
    }
    out.push((len / 256) as u8);
    out.push((len % 256) as u8);
    out.extend_from_slice(payload);
    true
}

/// The frame of a payload starts with the payload's length, exactly, in two
/// bytes with the high byte first.
pub proof fn lemma_frame_declares_length(payload: Seq<u8>)
    requires
        payload.len() <= MAX_PAYLOAD,
    ensures
        spec_frame(payload).len() == payload.len() + 2,
        declared_len(spec_frame(payload)) == payload.len(),
        spec_frame(payload).skip(2) == payload,
{
}

/// A frame is whole at the front of whatever follows it, and is read back as
/// it was written.
pub proof fn lemma_frame_front(payload: Seq<u8>, rest: Seq<u8>)
    requires
        payload.len() <= MAX_PAYLOAD,
    ensures
        front_complete(spec_frame(payload) + rest),
        declared_len(spec_frame(payload) + rest) == payload.len(),
        front_payload(spec_frame(payload) + rest) == payload,
        after_front(spec_frame(payload) + rest) == rest,
{
}

/// A whole frame at the front of a buffer stays what it is when more bytes
/// arrive behind it.
pub proof fn lemma_front_stays(b: Seq<u8>, more: Seq<u8>)
    requires
        front_complete(b),
    ensures
        front_complete(b + more),
        front_payload(b + more) == front_payload(b),
        after_front(b + more) == after_front(b) + more,
{
}

/// A buffer with a whole frame at its front is that frame and what is left
/// behind it.
pub proof fn lemma_front_splits(b: Seq<u8>)
    requires
        front_complete(b),
    ensures
        b == spec_frame(front_payload(b)) + after_front(b),
        front_payload(b).len() == declared_len(b),
        front_payload(b).len() <= MAX_PAYLOAD,
{
}

/// Reading back what was framed gives the payloads that went in, in their
/// order and with nothing left over.
pub proof fn lemma_frames_of_frame_all(payloads: Seq<Seq<u8>>)
    requires
        all_fit(payloads),
    ensures
        frames_of(frame_all(payloads)) == payloads,
        residue(frame_all(payloads)) == Seq::<u8>::empty(),
    decreases payloads.len(),
{
    if payloads.len() > 0 {
        let rest = payloads.skip(1);
        lemma_frames_of_frame_all(rest);
        lemma_frame_front(payloads[0], frame_all(rest));
    }
}

/// Bytes that arrive later take no frame away: the frames that `b` holds are
/// the first frames of `b` with `more` behind it, and `more` is only ever
/// added to what `b` left over.
pub proof fn lemma_frames_of_append(b: Seq<u8>, more: Seq<u8>)
    ensures
        frames_of(b + more) == frames_of(b) + frames_of(residue(b) + more),
        residue(b + more) == residue(residue(b) + more),
    decreases b.len(),
{
    if front_complete(b) {
        lemma_front_stays(b, more);
        lemma_frames_of_append(after_front(b), more);
    }
}

} // verus!
