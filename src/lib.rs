//! Decoding of GDL90 datalink frames and encoding of GDL90 control-panel messages.
//!
//! | 1 byte (0x7E)    | 1 byte       | N bytes      | 2 bytes              | 1 byte (0x7E) |
//! |------------------|--------------|--------------|----------------------|---------------|
//! | Start Flag byte  | Message ID   | Message Data | Frame Check Sequence | End Flag byte |
//!
//! Inside a frame every `0x7E` or `0x7D` of the message or of the frame check sequence is sent
//! as `0x7D` followed by the byte XOR `0x20`.
use vstd::prelude::*;

use crate::crc::{crc_of, gdl90_crc};
use crate::datalink::{decode_message, schema_len, Gdl90DatalinkMessage};

pub mod ascii;
pub mod control;
pub mod crc;
pub mod datalink;
pub mod types;

verus! {

/// Marks a byte that was XORed with `0x20`.
pub const GDL90_ESCAPEBYTE: u8 = 0x7D;

/// Flag byte that opens and closes a frame.
pub const GDL90_MAGIC: u8 = 0x7E;

/// Why a frame could not be decoded.
#[derive(Debug, Clone, Copy, PartialEq, Eq, Structural)]
pub enum FrameError {
    /// No flag byte opens a frame.
    MissingStartFlag,
    /// No flag byte closes the frame.
    MissingEndFlag,
    /// The frame ends right after an escape byte.
    TruncatedEscape,
    /// The frame holds fewer than the two bytes of the frame check sequence.
    MissingFrameCheck,
    /// The frame check sequence does not match the message.
    ChecksumMismatch { transmitted: u16, computed: u16 },
    /// The message body is shorter than its schema.
    BodyTooShort,
}

/// The bytes that the stuffed bytes `s` stand for: each escape byte is dropped and the byte
/// after it XORed with `0x20`. `None` when `s` ends in an escape byte with nothing after it.
pub open spec fn unescape(s: Seq<u8>) -> Option<Seq<u8>>
    decreases s.len(),
{
    if s.len() == 0 {
        Some(Seq::empty())
    } else if s[0] == GDL90_ESCAPEBYTE {
        if s.len() == 1 {
            None
        } else {
            match unescape(s.subrange(2, s.len() as int)) {
                Some(rest) => Some(seq![s[1] ^ 0x20u8] + rest),
                None => None,
            }
        }
    } else {
        match unescape(s.drop_first()) {
            Some(rest) => Some(seq![s[0]] + rest),
            None => None,
        }
    }
}

/// Byte stuffing: each flag or escape byte of `s` becomes an escape byte followed by the byte
/// XOR `0x20`.
pub open spec fn escape(s: Seq<u8>) -> Seq<u8>
    decreases s.len(),
{
    if s.len() == 0 {
        Seq::empty()
    } else if s[0] == GDL90_ESCAPEBYTE || s[0] == GDL90_MAGIC {
        seq![GDL90_ESCAPEBYTE, s[0] ^ 0x20u8] + escape(s.drop_first())
    } else {
        seq![s[0]] + escape(s.drop_first())
    }
}

/// `e` is properly stuffed: it holds no flag byte, and each escape byte in it is followed by
/// the stuffed form of a flag or escape byte (`0x5E` or `0x5D`).
pub open spec fn is_stuffed(e: Seq<u8>) -> bool
    decreases e.len(),
{
    if e.len() == 0 {
        true
    } else if e[0] == GDL90_MAGIC {
        false
    } else if e[0] == GDL90_ESCAPEBYTE {
        e.len() >= 2 && (e[1] == 0x5Du8 || e[1] == 0x5Eu8) && is_stuffed(e.subrange(2, e.len() as int))
    } else {
        is_stuffed(e.drop_first())
    }
}

proof fn lemma_unescape_escape(s: Seq<u8>)
    ensures
        unescape(escape(s)) == Some(s),
        is_stuffed(escape(s)),
    decreases s.len(),
{
    if s.len() > 0 {
        let e = escape(s);
        let rest = s.drop_first();
        lemma_unescape_escape(rest);
        let s0 = s[0];
        if s0 == GDL90_ESCAPEBYTE || s0 == GDL90_MAGIC {
            assert(e.subrange(2, e.len() as int) =~= escape(rest));
            assert((s0 ^ 0x20u8) ^ 0x20u8 == s0) by (bit_vector);
            assert(s0 == 0x7Du8 ==> s0 ^ 0x20u8 == 0x5Du8) by (bit_vector);
            assert(s0 == 0x7Eu8 ==> s0 ^ 0x20u8 == 0x5Eu8) by (bit_vector);
            assert(seq![(s0 ^ 0x20u8) ^ 0x20u8] + rest =~= s);
        } else {
            assert(e.drop_first() =~= escape(rest));
            assert(seq![s0] + rest =~= s);
        }
    }
}

proof fn lemma_escape_unescape(e: Seq<u8>)
    requires
        is_stuffed(e),
    ensures
        unescape(e) matches Some(u) && escape(u) == e,
    decreases e.len(),
{
    if e.len() > 0 {
        if e[0] == GDL90_ESCAPEBYTE {
            let tail = e.subrange(2, e.len() as int);
            lemma_escape_unescape(tail);
            let u = unescape(e)->0;
            let e1 = e[1];
            assert(e1 == 0x5Du8 ==> e1 ^ 0x20u8 == 0x7Du8) by (bit_vector);
            assert(e1 == 0x5Eu8 ==> e1 ^ 0x20u8 == 0x7Eu8) by (bit_vector);
            assert((e1 ^ 0x20u8) ^ 0x20u8 == e1) by (bit_vector);
            assert(u.drop_first() =~= unescape(tail)->0);
            assert(escape(u) =~= e);
        } else {
            let tail = e.drop_first();
            lemma_escape_unescape(tail);
            let u = unescape(e)->0;
            assert(u.drop_first() =~= unescape(tail)->0);
            assert(escape(u) =~= e);
        }
    }
}

/// Byte stuffing is undone by [`unescape`], and its output is properly stuffed; and a properly
/// stuffed sequence is exactly the stuffing of what it unescapes to. So stuffing is a bijection
/// between all byte sequences and the properly stuffed ones, which hold no flag byte.
pub proof fn lemma_escape_round_trip(s: Seq<u8>, e: Seq<u8>)
    ensures
        unescape(escape(s)) == Some(s),
        is_stuffed(escape(s)),
        is_stuffed(e) ==> (unescape(e) matches Some(u) && escape(u) == e),
{
    lemma_unescape_escape(s);
    if is_stuffed(e) {
        lemma_escape_unescape(e);
    }
}

/// A properly stuffed sequence holds no flag byte.
pub proof fn lemma_stuffed_has_no_flag(e: Seq<u8>)
    requires
        is_stuffed(e),
    ensures
        forall|i: int| 0 <= i < e.len() ==> #[trigger] e[i] != GDL90_MAGIC,
    decreases e.len(),
{
    if e.len() > 0 {
        if e[0] == GDL90_ESCAPEBYTE {
            let tail = e.subrange(2, e.len() as int);
            lemma_stuffed_has_no_flag(tail);
            assert forall|i: int| 0 <= i < e.len() implies #[trigger] e[i] != GDL90_MAGIC by {
                if i >= 2 {
                    assert(e[i] == tail[i - 2]);
                }
            }
        } else {
            let tail = e.drop_first();
            lemma_stuffed_has_no_flag(tail);
            assert forall|i: int| 0 <= i < e.len() implies #[trigger] e[i] != GDL90_MAGIC by {
                if i >= 1 {
                    assert(e[i] == tail[i - 1]);
                }
            }
        }
    }
}

/// `prefix` put in front of the bytes that `tail` holds, if it holds any.
pub open spec fn prepend(prefix: Seq<u8>, tail: Option<Seq<u8>>) -> Option<Seq<u8>> {
    match tail {
        Some(t) => Some(prefix + t),
        None => None,
    }
}

/// Removes the byte stuffing from `data`: discards each escape byte and XORs the byte after it
/// with `0x20`. `None` when `data` ends in an escape byte with nothing after it.
pub fn remove_escapes(data: Vec<u8>) -> (r: Option<Vec<u8>>)
    ensures
        r.is_none() == unescape(data@).is_none(),
        r matches Some(v) ==> unescape(data@) == Some(v@),
{
    let mut result: Vec<u8> = Vec::new();
    let mut i: usize = 0;
    proof {
        assert(data@.subrange(0, data@.len() as int) =~= data@);
        if let Some(t) = unescape(data@) {
            assert(Seq::<u8>::empty() + t =~= t);
        }
    }
    while i < data.len()
        invariant
            i <= data@.len(),
            unescape(data@) == prepend(result@, unescape(data@.subrange(i as int, data@.len() as int))),
        decreases data@.len() - i,
    {
        let ghost rest = data@.subrange(i as int, data@.len() as int);
        let byte = data[i];
        if byte == GDL90_ESCAPEBYTE {
            if i + 1 >= data.len() {
                assert(rest.len() == 1);
                return None;
            }
            let escaped: u8 = data[i + 1] ^ 0x20;
            assert(rest.subrange(2, rest.len() as int) =~= data@.subrange(i + 2, data@.len() as int));
            assert(result@.push(escaped) + unescape(data@.subrange(i + 2, data@.len() as int))->0
                =~= result@ + (seq![escaped] + unescape(data@.subrange(i + 2, data@.len() as int))->0));
            result.push(escaped);
            i = i + 2;
        } else {
            assert(rest.drop_first() =~= data@.subrange(i + 1, data@.len() as int));
            assert(result@.push(byte) + unescape(data@.subrange(i + 1, data@.len() as int))->0
                =~= result@ + (seq![byte] + unescape(data@.subrange(i + 1, data@.len() as int))->0));
            result.push(byte);
            i = i + 1;
        }
    }
    assert(data@.subrange(i as int, data@.len() as int) =~= Seq::<u8>::empty());
    assert(result@ + Seq::<u8>::empty() =~= result@);
    Some(result)
}

/// Index of the first flag byte of `buf` at or after `from`; `buf.len()` when there is none.
pub open spec fn flag_index(buf: Seq<u8>, from: int) -> int
    decreases buf.len() - from,
{
    if from < 0 || from >= buf.len() {
        buf.len() as int
    } else if buf[from] == GDL90_MAGIC {
        from
    } else {
        flag_index(buf, from + 1)
    }
}

/// Finds the first flag byte of `buf` at or after `from`.
fn find_flag(buf: &[u8], from: usize) -> (r: usize)
    requires
        from <= buf@.len(),
    ensures
        r == flag_index(buf@, from as int),
        from <= r <= buf@.len(),
{
    let mut i: usize = from;
    while i < buf.len() && buf[i] != GDL90_MAGIC
        invariant
            from <= i <= buf@.len(),
            flag_index(buf@, i as int) == flag_index(buf@, from as int),
        decreases buf@.len() - i,
    {
        i = i + 1;
    }
    i
}

/// The message body and frame check sequence of the first frame in `buf`: bytes before the
/// first flag are skipped, the next flag closes the frame, the stuffing is removed, and the
/// last two bytes left are the frame check sequence (least significant byte first), which must
/// match the checksum of the body before them.
pub open spec fn frame_of(buf: Seq<u8>) -> Result<(Seq<u8>, u16), FrameError> {
    let start = flag_index(buf, 0);
    let end = flag_index(buf, start + 1);
    if start >= buf.len() {
        Err(FrameError::MissingStartFlag)
    } else if end >= buf.len() {
        Err(FrameError::MissingEndFlag)
    } else {
        match unescape(buf.subrange(start + 1, end)) {
            None => Err(FrameError::TruncatedEscape),
            Some(u) => if u.len() < 2 {
                Err(FrameError::MissingFrameCheck)
            } else {
                let body = u.subrange(0, u.len() - 2);
                let fcs = (u[u.len() - 2] + 256 * u[u.len() - 1]) as u16;
                if crc_of(body) != fcs {
                    Err(FrameError::ChecksumMismatch { transmitted: fcs, computed: crc_of(body) })
                } else {
                    Ok((body, fcs))
                }
            },
        }
    }
}

/// Takes the first frame out of `buf` and checks it: returns its message body (message ID and
/// data) and its frame check sequence.
pub fn decode_frame(buf: &[u8]) -> (r: Result<(Vec<u8>, u16), FrameError>)
    ensures
        match frame_of(buf@) {
            Ok((body, fcs)) => r matches Ok((v, f)) && v@ == body && f == fcs,
            Err(e) => r == Err::<(Vec<u8>, u16), FrameError>(e),
        },
{
    let start = find_flag(buf, 0);
    if start >= buf.len() {
        return Err(FrameError::MissingStartFlag);
    }
    let end = find_flag(buf, start + 1);
    if end >= buf.len() {
        return Err(FrameError::MissingEndFlag);
    }
    let span = vstd::slice::slice_to_vec(vstd::slice::slice_subrange(buf, start + 1, end));
    let mut unescaped = match remove_escapes(span) {
        Some(u) => u,
        None => {
            return Err(FrameError::TruncatedEscape);
        },
    };
    let n = unescaped.len();
    if n < 2 {
        return Err(FrameError::MissingFrameCheck);
    }
    let fcs: u16 = unescaped[n - 2] as u16 + 256 * unescaped[n - 1] as u16;
    unescaped.truncate(n - 2);
    let computed = gdl90_crc(unescaped.as_slice());
    if computed != fcs {
        return Err(FrameError::ChecksumMismatch { transmitted: fcs, computed });
    }
    Ok((unescaped, fcs))
}

/// A decoded frame.
#[derive(Debug, Clone, Copy, PartialEq, Eq)]
pub struct Gdl90Message {
    /// Message payload, by message ID.
    pub message_data: Gdl90DatalinkMessage,
    /// Frame check sequence, matched against the checksum of the message.
    pub frame_check_seq: u16,
}

/// Decodes the first frame of `buffer` into a message.
pub fn read_raw(buffer: &[u8]) -> (r: Result<Gdl90Message, FrameError>)
    ensures
        match frame_of(buffer@) {
            Err(e) => r == Err::<Gdl90Message, FrameError>(e),
            Ok((body, fcs)) => if body.len() == 0 || body.len() - 1 < schema_len(body[0]) {
                r == Err::<Gdl90Message, FrameError>(FrameError::BodyTooShort)
            } else {
                r matches Ok(m) && m.frame_check_seq == fcs && m.message_data.decoded_from(body)
            },
        },
{
    let (body, fcs) = decode_frame(buffer)?;
    let message_data = decode_message(body.as_slice())?;
    Ok(Gdl90Message { message_data, frame_check_seq: fcs })
}

/// A frame is accepted only when its frame check sequence matches the checksum of its message
/// body; otherwise decoding fails with the two values.
pub proof fn lemma_checksum_mismatch_rejected(buf: Seq<u8>)
    ensures
        frame_of(buf) matches Ok((body, fcs)) ==> crc_of(body) == fcs,
        frame_of(buf) matches Err(FrameError::ChecksumMismatch { transmitted, computed }) ==> transmitted != computed,
{
}

} // verus!
