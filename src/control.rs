//! Control-panel messages: ASCII commands sent to the unit.
//!
//! | ID  | Message          | Length   |
//! |-----|------------------|----------|
//! | ^CS | Call Sign        | 15 bytes |
//! | ^MD | Operation Mode   | 17 bytes |
//! | ^VC | VFR Code         | 11 bytes |
//!
//! Each message ends with a checksum, the sum modulo 256 of every byte before it, written as two
//! uppercase hexadecimal digits, and a carriage return.
use vstd::prelude::*;
use vstd::utf8::*;

use crate::ascii::{is_ascii_bytes, lemma_ascii_decode, string_from_utf8};

verus! {

/// ASCII `'0'`.
pub const ASCII_ZERO: u8 = 0x30;

/// ASCII `'A'`.
pub const ASCII_UPPER_A: u8 = 0x41;

/// ASCII space, which pads the call sign.
pub const ASCII_SPACE: u8 = 0x20;

/// ASCII `','`, which separates the fields of the mode message.
pub const ASCII_COMMA: u8 = 0x2C;

/// ASCII carriage return, which ends every message.
pub const ASCII_CR: u8 = 0x0D;

/// Sum of the bytes of `s`.
pub open spec fn byte_sum(s: Seq<u8>) -> int
    decreases s.len(),
{
    if s.len() == 0 {
        0
    } else {
        byte_sum(s.drop_last()) + s.last()
    }
}

/// ASCII code of the uppercase hexadecimal digit for `n` (below 16).
pub open spec fn hex_digit(n: int) -> u8 {
    if n < 10 {
        (48 + n) as u8
    } else {
        (55 + n) as u8
    }
}

/// `v` as two uppercase hexadecimal digits.
pub open spec fn hex_pair(v: u8) -> Seq<u8> {
    seq![hex_digit(v as int / 16), hex_digit(v as int % 16)]
}

/// A message: `content`, then its checksum in hexadecimal, then a carriage return.
pub open spec fn framed(content: Seq<u8>) -> Seq<u8> {
    content + hex_pair((byte_sum(content) % 256) as u8) + seq![13u8]
}

/// Writes bytes to an inner buffer while keeping the sum modulo 256 of every byte written.
pub struct Checksum {
    inner: Vec<u8>,
    check: u8,
}

impl Checksum {
    /// The bytes that the buffer holds.
    pub closed spec fn buffer(&self) -> Seq<u8> {
        self.inner@
    }

    /// Sum modulo 256 of the bytes written since construction.
    pub closed spec fn sum(&self) -> u8 {
        self.check
    }

    /// A writer over `inner`, with a zero sum.
    pub fn new(inner: Vec<u8>) -> (r: Checksum)
        ensures
            r.buffer() == inner@,
            r.sum() == 0,
    {
        Checksum { inner, check: 0 }
    }

    /// Appends `buf` to the buffer and adds its bytes to the sum.
    pub fn write(&mut self, buf: &[u8])
        ensures
            final(self).buffer() == old(self).buffer() + buf@,
            final(self).sum() == (old(self).sum() + byte_sum(buf@)) % 256,
    {
        let mut i: usize = 0;
        while i < buf.len()
            invariant
                i <= buf@.len(),
                self.buffer() == old(self).buffer() + buf@.subrange(0, i as int),
                self.sum() == (old(self).sum() + byte_sum(buf@.subrange(0, i as int))) % 256,
            decreases buf@.len() - i,
        {
            let b = buf[i];
            proof {
                let s = buf@.subrange(0, i as int + 1);
                assert(s.drop_last() =~= buf@.subrange(0, i as int));
            }
            self.inner.push(b);
            self.check = self.check.wrapping_add(b);
            i = i + 1;
            assert(self.buffer() =~= old(self).buffer() + buf@.subrange(0, i as int));
        }
        assert(buf@.subrange(0, buf@.len() as int) =~= buf@);
    }

    /// The sum as two uppercase hexadecimal ASCII digits.
    pub fn check(&self) -> (r: [u8; 2])
        ensures
            r@ == hex_pair(self.sum()),
    {
        let r = [hex_ascii(self.check / 16), hex_ascii(self.check % 16)];
        assert(r@ =~= hex_pair(self.sum()));
        r
    }

    /// The buffer.
    pub fn into_inner(self) -> (r: Vec<u8>)
        ensures
            r@ == self.buffer(),
    {
        self.inner
    }
}

/// ASCII code of the uppercase hexadecimal digit for `n`.
fn hex_ascii(n: u8) -> (r: u8)
    requires
        n < 16,
    ensures
        r == hex_digit(n as int),
{
    if n < 10 {
        ASCII_ZERO + n
    } else {
        ASCII_UPPER_A + (n - 10)
    }
}

/// The number written by [`u16_to_four_digit_ascii`]: `x` itself when it has at most four
/// digits, else its first four digits.
pub open spec fn four_digit_value(x: u16) -> int {
    if x < 10000 {
        x as int
    } else {
        x as int / 10
    }
}

/// Four ASCII decimal digits of `n` (below 10000), zero-padded.
pub open spec fn decimal4(n: int) -> Seq<u8> {
    seq![
        (48 + n / 1000) as u8,
        (48 + (n / 100) % 10) as u8,
        (48 + (n / 10) % 10) as u8,
        (48 + n % 10) as u8,
    ]
}

/// Writes `x` as four ASCII decimal digits, zero-padded; of a five-digit number the first four
/// digits are kept.
pub fn u16_to_four_digit_ascii(x: u16) -> (r: [u8; 4])
    ensures
        r@ == decimal4(four_digit_value(x)),
{
    let n: u16 = if x < 10000 {
        x
    } else {
        x / 10
    };
    let r = [
        ASCII_ZERO + (n / 1000) as u8,
        ASCII_ZERO + ((n / 100) % 10) as u8,
        ASCII_ZERO + ((n / 10) % 10) as u8,
        ASCII_ZERO + (n % 10) as u8,
    ];
    assert(r@ =~= decimal4(four_digit_value(x)));
    r
}

/// The eight-byte call-sign field: the first eight bytes of `s`, padded with spaces.
pub open spec fn eight_byte_field(s: Seq<u8>) -> Seq<u8> {
    Seq::new(8, |i: int| if i < s.len() { s[i] } else { 0x20u8 })
}

/// Writes the UTF-8 bytes of `x` into an eight-byte field: longer text is cut after eight
/// bytes, shorter text padded with spaces.
pub fn str_to_eight_digit_ascii(x: &str) -> (r: [u8; 8])
    ensures
        r@ == eight_byte_field(encode_utf8(x@)),
{
    let mut buffer: [u8; 8] = [ASCII_SPACE; 8];
    let bytes = x.as_bytes();
    let len: usize = if bytes.len() < 8 {
        bytes.len()
    } else {
        8
    };
    let mut i: usize = 0;
    while i < len
        invariant
            i <= len <= 8,
            len <= bytes@.len(),
            bytes@ == encode_utf8(x@),
            forall|j: int| 0 <= j < i ==> buffer@[j] == bytes@[j],
            forall|j: int| i <= j < 8 ==> buffer@[j] == 0x20u8,
        decreases len - i,
    {
        buffer[i] = bytes[i];
        i = i + 1;
    }
    assert(buffer@ =~= eight_byte_field(encode_utf8(x@)));
    buffer
}

/// A control-panel message that can be encoded for sending.
pub trait ToStringMessage {
    /// The encoded message.
    spec fn message_bytes(&self) -> Seq<u8>;

    /// The encoded message is valid UTF-8, so it fits a `String`.
    spec fn encodable(&self) -> bool;

    /// Encodes the message, ready to be sent.
    fn to_string_message(&self) -> (r: String)
        requires
            self.encodable(),
        ensures
            r@ == decode_utf8(self.message_bytes()),
    ;
}

/// Turns complete message bytes into the `String` that is sent.
fn message_string(bytes: Vec<u8>) -> (r: String)
    requires
        valid_utf8(bytes@),
    ensures
        r@ == decode_utf8(bytes@),
{
    match string_from_utf8(bytes) {
        Some(s) => s,
        None => String::new(),
    }
}

/// Completes a message: appends the checksum of everything written and a carriage return.
fn finish(w: Checksum) -> (r: Vec<u8>)
    requires
        w.sum() == byte_sum(w.buffer()) % 256,
    ensures
        r@ == framed(w.buffer()),
{
    let check = w.check();
    let ghost content = w.buffer();
    let mut out = w.into_inner();
    out.push(check[0]);
    out.push(check[1]);
    out.push(ASCII_CR);
    assert(out@ =~= framed(content));
    out
}

/// Sum of a concatenation.
proof fn lemma_byte_sum_concat(a: Seq<u8>, b: Seq<u8>)
    ensures
        byte_sum(a + b) == byte_sum(a) + byte_sum(b),
    decreases b.len(),
{
    if b.len() == 0 {
        assert(a + b =~= a);
    } else {
        assert((a + b).drop_last() =~= a + b.drop_last());
        lemma_byte_sum_concat(a, b.drop_last());
    }
}

/// Writing to a fresh checksum writer keeps its sum equal to the sum of the buffer.
proof fn lemma_sum_tracks(before: Seq<u8>, sum: u8, buf: Seq<u8>)
    requires
        sum == byte_sum(before) % 256,
    ensures
        (sum + byte_sum(buf)) % 256 == byte_sum(before + buf) % 256,
{
    lemma_byte_sum_concat(before, buf);
    vstd::arithmetic::div_mod::lemma_add_mod_noop(byte_sum(before), byte_sum(buf), 256);
    vstd::arithmetic::div_mod::lemma_mod_twice(byte_sum(buf), 256);
    vstd::arithmetic::div_mod::lemma_add_mod_noop(sum as int, byte_sum(buf), 256);
}

/// The call sign message selects the call sign that the unit transmits.
/// Sent every minute, or when it changes.
pub struct CallSignMessage {
    pub call_sign: String,
}

/// `^CS `.
pub open spec fn call_sign_id() -> Seq<u8> {
    seq![0x5Eu8, 0x43u8, 0x53u8, 0x20u8]
}

impl ToStringMessage for CallSignMessage {
    open spec fn message_bytes(&self) -> Seq<u8> {
        framed(call_sign_id() + eight_byte_field(encode_utf8(self.call_sign@)))
    }

    open spec fn encodable(&self) -> bool {
        valid_utf8(self.message_bytes())
    }

    fn to_string_message(&self) -> (r: String) {
        let mut w = Checksum::new(Vec::new());
        let id: [u8; 4] = [0x5E, 0x43, 0x53, 0x20];
        proof {
            lemma_sum_tracks(Seq::empty(), 0, id@);
        }
        w.write(&id);
        let field = str_to_eight_digit_ascii(self.call_sign.as_str());
        proof {
            lemma_sum_tracks(w.buffer(), w.sum(), field@);
        }
        w.write(&field);
        let bytes = finish(w);
        proof {
            assert(bytes@ =~= self.message_bytes());
        }
        message_string(bytes)
    }
}

/// Operating mode.
#[derive(Debug, Clone, Copy, PartialEq, Eq, Structural)]
pub enum ModeField {
    /// Standby (`O`): the transmitter is off, no ADS-B messages are sent.
    StandBy,
    /// Mode A (`A`): pressure altitude is left out of the ADS-B messages.
    ModeA,
    /// Mode C (`C`): the normal mode, with pressure altitude.
    ModeC,
}

impl ModeField {
    /// The ASCII character sent for this value.
    pub open spec fn code(self) -> u8 {
        match self {
            ModeField::StandBy => 0x4F,
            ModeField::ModeA => 0x41,
            ModeField::ModeC => 0x43,
        }
    }

    /// The ASCII character sent for this value.
    pub fn to_byte(&self) -> (r: u8)
        ensures
            r == self.code(),
    {
        match self {
            ModeField::StandBy => 0x4F,
            ModeField::ModeA => 0x41,
            ModeField::ModeC => 0x43,
        }
    }
}

/// When enabled, the IDENT indication is included in the transmitted ADS-B messages for the
/// next 20 seconds.
#[derive(Debug, Clone, Copy, PartialEq, Eq, Structural)]
pub enum IdentField {
    /// `I`
    Enabled,
    /// `-`
    Inactive,
}

impl IdentField {
    /// The ASCII character sent for this value.
    pub open spec fn code(self) -> u8 {
        match self {
            IdentField::Enabled => 0x49,
            IdentField::Inactive => 0x2D,
        }
    }

    /// The ASCII character sent for this value.
    pub fn to_byte(&self) -> (r: u8)
        ensures
            r == self.code(),
    {
        match self {
            IdentField::Enabled => 0x49,
            IdentField::Inactive => 0x2D,
        }
    }
}

/// Set by the control panel when it operates normally.
#[derive(Debug, Clone, Copy, PartialEq, Eq, Structural)]
pub enum HealthyField {
    /// `0`
    NotHealthy,
    /// `1`
    Healthy,
}

impl HealthyField {
    /// The ASCII character sent for this value.
    pub open spec fn code(self) -> u8 {
        match self {
            HealthyField::NotHealthy => 0x30,
            HealthyField::Healthy => 0x31,
        }
    }

    /// The ASCII character sent for this value.
    pub fn to_byte(&self) -> (r: u8)
        ensures
            r == self.code(),
    {
        match self {
            HealthyField::NotHealthy => 0x30,
            HealthyField::Healthy => 0x31,
        }
    }
}

/// Emergency code included in the transmitted ADS-B messages.
#[derive(Debug, Clone, Copy, PartialEq, Eq, Structural)]
pub enum EmergencyField {
    /// `0`
    NoEmergency,
    /// `1`
    General,
    /// `2`
    Medical,
    /// `3`
    Fuel,
    /// `4`
    Com,
    /// `5`
    Hijack,
    /// `6`
    Downed,
}

impl EmergencyField {
    /// The ASCII character sent for this value.
    pub open spec fn code(self) -> u8 {
        match self {
            EmergencyField::NoEmergency => 0x30,
            EmergencyField::General => 0x31,
            EmergencyField::Medical => 0x32,
            EmergencyField::Fuel => 0x33,
            EmergencyField::Com => 0x34,
            EmergencyField::Hijack => 0x35,
            EmergencyField::Downed => 0x36,
        }
    }

    /// The ASCII character sent for this value.
    pub fn to_byte(&self) -> (r: u8)
        ensures
            r == self.code(),
    {
        match self {
            EmergencyField::NoEmergency => 0x30,
            EmergencyField::General => 0x31,
            EmergencyField::Medical => 0x32,
            EmergencyField::Fuel => 0x33,
            EmergencyField::Com => 0x34,
            EmergencyField::Hijack => 0x35,
            EmergencyField::Downed => 0x36,
        }
    }
}

/// ASCII bytes are below 128.
proof fn lemma_framed_ascii(content: Seq<u8>)
    requires
        is_ascii_bytes(content),
    ensures
        is_ascii_bytes(framed(content)),
{
    let b = framed(content);
    let sum = (byte_sum(content) % 256) as u8;
    assert forall|i: int| 0 <= i < b.len() implies #[trigger] b[i] < 128 by {
        if i < content.len() {
            assert(b[i] == content[i]);
        } else if i == content.len() {
            assert(b[i] == hex_digit(sum as int / 16));
        } else if i == content.len() + 1 {
            assert(b[i] == hex_digit(sum as int % 16));
        } else {
            assert(b[i] == 13);
        }
    }
}

/// The four digits are ASCII.
proof fn lemma_decimal4_ascii(x: u16)
    ensures
        is_ascii_bytes(decimal4(four_digit_value(x))),
{
}

/// A call sign message whose call sign is ASCII can be encoded: its bytes are ASCII too.
pub proof fn lemma_ascii_call_sign_encodable(m: &CallSignMessage)
    requires
        is_ascii_chars(m.call_sign@),
    ensures
        m.encodable(),
        is_ascii_bytes(m.message_bytes()),
{
    let cs = m.call_sign@;
    is_ascii_chars_encode_utf8(cs);
    let field = eight_byte_field(encode_utf8(cs));
    assert forall|i: int| 0 <= i < field.len() implies #[trigger] field[i] < 128 by {
        if i < encode_utf8(cs).len() {
            assert(cs[i] as u8 == encode_utf8(cs)[i]);
        }
    }
    let content = call_sign_id() + field;
    assert(is_ascii_bytes(content));
    lemma_framed_ascii(content);
    lemma_ascii_decode(m.message_bytes());
}

/// The operation mode message sets the operating mode, the IDENT indication, the squawk code and
/// the emergency code. Sent every second.
pub struct OperationModeMessage {
    pub mode: ModeField,
    pub ident: IdentField,
    pub squawk: u16,
    pub emergency: EmergencyField,
    pub healthy: HealthyField,
}

/// `^MD `.
pub open spec fn operation_mode_id() -> Seq<u8> {
    seq![0x5Eu8, 0x4Du8, 0x44u8, 0x20u8]
}

impl OperationModeMessage {
    /// Everything before the checksum.
    pub open spec fn content(&self) -> Seq<u8> {
        operation_mode_id() + seq![self.mode.code(), 0x2Cu8, self.ident.code(), 0x2Cu8] + decimal4(
            four_digit_value(self.squawk),
        ) + seq![self.emergency.code(), self.healthy.code()]
    }
}

impl ToStringMessage for OperationModeMessage {
    open spec fn message_bytes(&self) -> Seq<u8> {
        framed(self.content())
    }

    open spec fn encodable(&self) -> bool {
        true
    }

    fn to_string_message(&self) -> (r: String) {
        let mut w = Checksum::new(Vec::new());
        let head: [u8; 8] = [
            0x5E,
            0x4D,
            0x44,
            0x20,
            self.mode.to_byte(),
            ASCII_COMMA,
            self.ident.to_byte(),
            ASCII_COMMA,
        ];
        proof {
            lemma_sum_tracks(Seq::empty(), 0, head@);
        }
        w.write(&head);
        let squawk = u16_to_four_digit_ascii(self.squawk);
        proof {
            lemma_sum_tracks(w.buffer(), w.sum(), squawk@);
        }
        w.write(&squawk);
        let tail: [u8; 2] = [self.emergency.to_byte(), self.healthy.to_byte()];
        proof {
            lemma_sum_tracks(w.buffer(), w.sum(), tail@);
        }
        w.write(&tail);
        assert(w.buffer() =~= self.content());
        let bytes = finish(w);
        proof {
            assert(bytes@ =~= self.message_bytes());
            lemma_decimal4_ascii(self.squawk);
            assert(is_ascii_bytes(self.content()));
            lemma_framed_ascii(self.content());
            lemma_ascii_decode(bytes@);
        }
        message_string(bytes)
    }
}

/// The VFR code message gives the squawk code that marks VFR operation. Sent every minute.
pub struct VfrCodeMessage {
    pub vfr_code: u16,
}

/// `^VC `.
pub open spec fn vfr_code_id() -> Seq<u8> {
    seq![0x5Eu8, 0x56u8, 0x43u8, 0x20u8]
}

impl ToStringMessage for VfrCodeMessage {
    open spec fn message_bytes(&self) -> Seq<u8> {
        framed(vfr_code_id() + decimal4(four_digit_value(self.vfr_code)))
    }

    open spec fn encodable(&self) -> bool {
        true
    }

    fn to_string_message(&self) -> (r: String) {
        let mut w = Checksum::new(Vec::new());
        let id: [u8; 4] = [0x5E, 0x56, 0x43, 0x20];
        proof {
            lemma_sum_tracks(Seq::empty(), 0, id@);
        }
        w.write(&id);
        let code = u16_to_four_digit_ascii(self.vfr_code);
        proof {
            lemma_sum_tracks(w.buffer(), w.sum(), code@);
        }
        w.write(&code);
        let bytes = finish(w);
        proof {
            let content = vfr_code_id() + decimal4(four_digit_value(self.vfr_code));
            assert(bytes@ =~= self.message_bytes());
            lemma_decimal4_ascii(self.vfr_code);
            assert(is_ascii_bytes(content));
            lemma_framed_ascii(content);
            lemma_ascii_decode(bytes@);
        }
        message_string(bytes)
    }
}

/// Value of a hexadecimal digit written in ASCII, either case; -1 for any other byte.
pub open spec fn hex_value(c: u8) -> int {
    if 0x30 <= c <= 0x39 {
        c - 0x30
    } else if 0x41 <= c <= 0x46 {
        c - 0x41 + 10
    } else if 0x61 <= c <= 0x66 {
        c - 0x61 + 10
    } else {
        -1
    }
}

/// The message `b` ends in two hexadecimal digits and a carriage return, and the digits read
/// back as the sum modulo 256 of every byte before them.
pub open spec fn checksum_field_matches(b: Seq<u8>) -> bool {
    &&& b.len() >= 3
    &&& b.last() == 13
    &&& hex_value(b[b.len() - 3]) >= 0
    &&& hex_value(b[b.len() - 2]) >= 0
    &&& hex_value(b[b.len() - 3]) * 16 + hex_value(b[b.len() - 2]) == byte_sum(
        b.subrange(0, b.len() - 3),
    ) % 256
}

/// The checksum field of any framed message reads back as the sum of the bytes before it.
pub proof fn lemma_checksum_round_trip(content: Seq<u8>)
    ensures
        checksum_field_matches(framed(content)),
{
    let b = framed(content);
    assert(b.subrange(0, b.len() - 3) =~= content);
    let v = (byte_sum(content) % 256) as u8;
    assert(b[b.len() - 3] == hex_digit(v as int / 16));
    assert(b[b.len() - 2] == hex_digit(v as int % 16));
}

/// Re-reading the checksum of an encoded call sign message gives the sum of the bytes before it.
pub proof fn lemma_call_sign_checksum(m: &CallSignMessage)
    ensures
        checksum_field_matches(m.message_bytes()),
{
    lemma_checksum_round_trip(call_sign_id() + eight_byte_field(encode_utf8(m.call_sign@)));
}

/// Re-reading the checksum of an encoded operation mode message gives the sum of the bytes
/// before it.
pub proof fn lemma_operation_mode_checksum(m: &OperationModeMessage)
    ensures
        checksum_field_matches(m.message_bytes()),
{
    lemma_checksum_round_trip(m.content());
}

/// Re-reading the checksum of an encoded VFR code message gives the sum of the bytes before it.
pub proof fn lemma_vfr_code_checksum(m: &VfrCodeMessage)
    ensures
        checksum_field_matches(m.message_bytes()),
{
    lemma_checksum_round_trip(vfr_code_id() + decimal4(four_digit_value(m.vfr_code)));
}

} // verus!
