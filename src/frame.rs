//! The binary frame: `[L: u8][L bytes of session id][payload]`.
use vstd::prelude::*;
use vstd::utf8::{valid_utf8, decode_utf8, encode_utf8, encode_utf8_valid_utf8, encode_utf8_decode_utf8};
use vstd::string::StringSliceAdditionalSpecFns;

verus! {

/// The longest session id a frame can carry, in bytes.
pub const MAX_ID_LEN: usize = 255;

/// Why a frame could not be built.
#[derive(Debug, Clone, Copy, PartialEq, Eq, Structural)]
pub enum FrameError {
    /// The session id is longer than 255 bytes.
    IdTooLong,
}

/// A decoded frame: the session id bytes and the payload.
#[derive(Debug, Clone)]
pub struct Frame {
    pub session_id: Vec<u8>,
    pub payload: Vec<u8>,
}

/// The bytes of the frame for `id` and `payload`.
pub open spec fn frame_bytes(id: Seq<u8>, payload: Seq<u8>) -> Seq<u8> {
    seq![id.len() as u8] + id + payload
}

/// A byte string is too short to be a frame: empty, or shorter than `1 + L`.
pub open spec fn is_malformed(b: Seq<u8>) -> bool {
    b.len() == 0 || b.len() < 1 + b[0]
}

/// The session id and payload that a well-formed frame carries.
pub open spec fn frame_parts(b: Seq<u8>) -> Option<(Seq<u8>, Seq<u8>)> {
    if is_malformed(b) {
        None
    } else {
        Some((b.subrange(1, 1 + b[0]), b.subrange(1 + b[0], b.len() as int)))
    }
}

/// Builds the frame for a session id given as bytes.
pub fn encode_frame(id: &[u8], payload: &[u8]) -> (r: Result<Vec<u8>, FrameError>)
    ensures
        r is Ok <==> id@.len() <= MAX_ID_LEN,
        r matches Ok(f) ==> f@ == frame_bytes(id@, payload@),
{
    if id.len() > MAX_ID_LEN {
        return Err(FrameError::IdTooLong);
    }
    let mut f: Vec<u8> = Vec::new();
    f.push(id.len() as u8);
    let mut i: usize = 0;
    while i < id.len()
        invariant
            i <= id@.len(),
            f@ == seq![id@.len() as u8] + id@.subrange(0, i as int),
        decreases id.len() - i,
    {
        f.push(id[i]);
        proof {
            assert(id@.subrange(0, i + 1) =~= id@.subrange(0, i as int).push(id@[i as int]));
        }
        i += 1;
    }
    let mut j: usize = 0;
    while j < payload.len()
        invariant
            i == id@.len(),
            j <= payload@.len(),
            f@ == seq![id@.len() as u8] + id@ + payload@.subrange(0, j as int),
        decreases payload.len() - j,
    {
        f.push(payload[j]);
        proof {
            assert(payload@.subrange(0, j + 1) =~= payload@.subrange(0, j as int).push(
                payload@[j as int],
            ));
        }
        j += 1;
    }
    proof {
        assert(id@.subrange(0, i as int) =~= id@);
        assert(payload@.subrange(0, j as int) =~= payload@);
        assert(f@ =~= frame_bytes(id@, payload@));
    }
    Ok(f)
}

/// Builds the frame for a session id given as text (its UTF-8 bytes).
pub fn encode_session_frame(session_id: &str, payload: &[u8]) -> (r: Result<Vec<u8>, FrameError>)
    ensures
        r is Ok <==> session_id.spec_bytes().len() <= MAX_ID_LEN,
        r matches Ok(f) ==> f@ == frame_bytes(session_id.spec_bytes(), payload@),
{
    encode_frame(session_id.as_bytes(), payload)
}

fn copy_range(b: &[u8], lo: usize, hi: usize) -> (r: Vec<u8>)
    requires
        lo <= hi <= b@.len(),
    ensures
        r@ == b@.subrange(lo as int, hi as int),
{
    let mut r: Vec<u8> = Vec::new();
    let mut i: usize = lo;
    while i < hi
        invariant
            lo <= i <= hi,
            hi <= b@.len(),
            r@ == b@.subrange(lo as int, i as int),
        decreases hi - i,
    {
        r.push(b[i]);
        proof {
            assert(b@.subrange(lo as int, i + 1) =~= b@.subrange(lo as int, i as int).push(
                b@[i as int],
            ));
        }
        i += 1;
    }
    r
}

/// Splits a frame into session id and payload; `None` for a malformed frame.
pub fn decode_frame(data: &[u8]) -> (r: Option<Frame>)
    ensures
        r is None <==> is_malformed(data@),
        r matches Some(f) ==> frame_parts(data@) == Some((f.session_id@, f.payload@)),
{
    if data.len() == 0 {
        return None;
    }
    let id_len = data[0] as usize;
    if data.len() < 1 + id_len {
        return None;
    }
    let session_id = copy_range(data, 1, 1 + id_len);
    let payload = copy_range(data, 1 + id_len, data.len());
    Some(Frame { session_id, payload })
}

/// Decoding the frame built for an id of at most 255 bytes gives back the id
/// and the payload; a byte string shorter than `1 + L` decodes to nothing.
pub proof fn lemma_frame_round_trip(id: Seq<u8>, payload: Seq<u8>, short: Seq<u8>)
    requires
        id.len() <= MAX_ID_LEN,
        is_malformed(short),
    ensures
        frame_parts(frame_bytes(id, payload)) == Some((id, payload)),
        frame_parts(short) is None,
{
    let b = frame_bytes(id, payload);
    assert(b[0] == id.len() as u8);
    assert(b.subrange(1, 1 + b[0]) =~= id);
    assert(b.subrange(1 + b[0], b.len() as int) =~= payload);
}

/// The same law for a session id given as text: the id's UTF-8 bytes come
/// back, and they decode to the same characters.
pub proof fn lemma_session_frame_round_trip(session_id: Seq<char>, payload: Seq<u8>)
    requires
        encode_utf8(session_id).len() <= MAX_ID_LEN,
    ensures
        frame_parts(frame_bytes(encode_utf8(session_id), payload)) matches Some((i, p)) && p
            == payload && valid_utf8(i) && decode_utf8(i) == session_id,
{
    lemma_frame_round_trip(encode_utf8(session_id), payload, seq![]);
    encode_utf8_valid_utf8(session_id);
    encode_utf8_decode_utf8(session_id);
}

/// A name for what `String::from_utf8_lossy` makes of a byte string.
pub uninterp spec fn lossy_text(b: Seq<u8>) -> Seq<char>;

/// Relies on `String::from_utf8_lossy`: the result depends on the bytes alone,
/// and valid UTF-8 is decoded as it stands.
#[verifier::external_body]
pub(crate) fn text_of_bytes(b: &[u8]) -> (r: String)
    ensures
        r@ == lossy_text(b@),
        valid_utf8(b@) ==> r@ == decode_utf8(b@),
{
    String::from_utf8_lossy(b).into_owned()
}

} // verus!
