//! The Report structure shared by Ownship and Traffic Report messages, and its field codecs.
use vstd::prelude::*;

use crate::ascii::{ascii_chars, is_ascii_bytes, lemma_ascii_decode, string_from_utf8};
use crate::types::{be24_value, wire_be24};

verus! {

/// 4-bit field which tells whether the conflict alerting has identified this target with an alert.
#[derive(Debug, Clone, Copy, PartialEq, Eq, Structural)]
pub enum TrafficAlert {
    NoTraffic,
    TrafficAlert,
    Reserved0,
    Reserved1,
    Reserved2,
    Reserved3,
    Reserved4,
    Reserved5,
    Reserved6,
    Reserved7,
    Reserved8,
    Reserved9,
    Reserved10,
    Reserved11,
    Reserved12,
    Reserved13,
}

impl TrafficAlert {
    /// The field value that stands for this variant.
    pub open spec fn code(self) -> u8 {
        match self {
            TrafficAlert::NoTraffic => 0,
            TrafficAlert::TrafficAlert => 1,
            TrafficAlert::Reserved0 => 2,
            TrafficAlert::Reserved1 => 3,
            TrafficAlert::Reserved2 => 4,
            TrafficAlert::Reserved3 => 5,
            TrafficAlert::Reserved4 => 6,
            TrafficAlert::Reserved5 => 7,
            TrafficAlert::Reserved6 => 8,
            TrafficAlert::Reserved7 => 9,
            TrafficAlert::Reserved8 => 10,
            TrafficAlert::Reserved9 => 11,
            TrafficAlert::Reserved10 => 12,
            TrafficAlert::Reserved11 => 13,
            TrafficAlert::Reserved12 => 14,
            TrafficAlert::Reserved13 => 15,
        }
    }

    /// Decodes the 4-bit field held in the low bits of `input`; the high bits are ignored.
    pub fn from_bytes(input: u8) -> (r: TrafficAlert)
        ensures
            r.code() == input % 16,
    {
        let code: u8 = input & 0x0F;
        assert(code == input % 16) by (bit_vector)
            requires
                code == input & 0x0F,
        ;
        match code {
            0 => TrafficAlert::NoTraffic,
            1 => TrafficAlert::TrafficAlert,
            2 => TrafficAlert::Reserved0,
            3 => TrafficAlert::Reserved1,
            4 => TrafficAlert::Reserved2,
            5 => TrafficAlert::Reserved3,
            6 => TrafficAlert::Reserved4,
            7 => TrafficAlert::Reserved5,
            8 => TrafficAlert::Reserved6,
            9 => TrafficAlert::Reserved7,
            10 => TrafficAlert::Reserved8,
            11 => TrafficAlert::Reserved9,
            12 => TrafficAlert::Reserved10,
            13 => TrafficAlert::Reserved11,
            14 => TrafficAlert::Reserved12,
            _ => TrafficAlert::Reserved13,
        }
    }
}

/// 4-bit field which describes the type of address conveyed in the participant address.
#[derive(Debug, Clone, Copy, PartialEq, Eq, Structural)]
pub enum AddressType {
    ADSBWithICAOAddress,
    ADSBWithSelfAssignedAddress,
    TISBWithICAOAddress,
    TISBWithTrackFileID,
    SurfaceVehicle,
    GroundStationBeacon,
    Reserved0,
    Reserved1,
    Reserved2,
    Reserved3,
    Reserved4,
    Reserved5,
    Reserved6,
    Reserved7,
    Reserved8,
    Reserved9,
}

impl AddressType {
    /// The field value that stands for this variant.
    pub open spec fn code(self) -> u8 {
        match self {
            AddressType::ADSBWithICAOAddress => 0,
            AddressType::ADSBWithSelfAssignedAddress => 1,
            AddressType::TISBWithICAOAddress => 2,
            AddressType::TISBWithTrackFileID => 3,
            AddressType::SurfaceVehicle => 4,
            AddressType::GroundStationBeacon => 5,
            AddressType::Reserved0 => 6,
            AddressType::Reserved1 => 7,
            AddressType::Reserved2 => 8,
            AddressType::Reserved3 => 9,
            AddressType::Reserved4 => 10,
            AddressType::Reserved5 => 11,
            AddressType::Reserved6 => 12,
            AddressType::Reserved7 => 13,
            AddressType::Reserved8 => 14,
            AddressType::Reserved9 => 15,
        }
    }

    /// Decodes the 4-bit field held in the low bits of `input`; the high bits are ignored.
    pub fn from_bytes(input: u8) -> (r: AddressType)
        ensures
            r.code() == input % 16,
    {
        let code: u8 = input & 0x0F;
        assert(code == input % 16) by (bit_vector)
            requires
                code == input & 0x0F,
        ;
        match code {
            0 => AddressType::ADSBWithICAOAddress,
            1 => AddressType::ADSBWithSelfAssignedAddress,
            2 => AddressType::TISBWithICAOAddress,
            3 => AddressType::TISBWithTrackFileID,
            4 => AddressType::SurfaceVehicle,
            5 => AddressType::GroundStationBeacon,
            6 => AddressType::Reserved0,
            7 => AddressType::Reserved1,
            8 => AddressType::Reserved2,
            9 => AddressType::Reserved3,
            10 => AddressType::Reserved4,
            11 => AddressType::Reserved5,
            12 => AddressType::Reserved6,
            13 => AddressType::Reserved7,
            14 => AddressType::Reserved8,
            _ => AddressType::Reserved9,
        }
    }
}

/// 8-bit field which describes the emitter category.
#[derive(Debug, Clone, Copy, PartialEq, Eq, Structural)]
pub enum EmmiterCategory {
    NoAircraftTypeInformation,
    Light,
    Small,
    Large,
    HighVortexLarge,
    Heavy,
    HighlyManeuverable,
    Rotorcraft,
    Unassigned0,
    GliderSailplane,
    LighterThanAir,
    ParachutistSkyDiver,
    UltraLightHangGliderParaglider,
    Unassigned1,
    UnmannedAerialVehicle,
    SpaceTransatmosphericVehicle,
    Unassigned2,
    SurfaceVehicleEmergency,
    SurfaceVehicleService,
    PointObstacle,
    ClusterObstacle,
    LineObstacle,
    Reserved0,
    Reserved1,
    Reserved2,
    Reserved3,
    Reserved4,
    Reserved5,
    Reserved6,
    Reserved7,
    Reserved8,
    Reserved9,
    Reserved10,
    Reserved11,
    Reserved12,
    Reserved13,
    Reserved14,
    Reserved15,
    Reserved16,
    Reserved17,
}

impl EmmiterCategory {
    /// The field value that stands for this variant.
    pub open spec fn code(self) -> u8 {
        match self {
            EmmiterCategory::NoAircraftTypeInformation => 0,
            EmmiterCategory::Light => 1,
            EmmiterCategory::Small => 2,
            EmmiterCategory::Large => 3,
            EmmiterCategory::HighVortexLarge => 4,
            EmmiterCategory::Heavy => 5,
            EmmiterCategory::HighlyManeuverable => 6,
            EmmiterCategory::Rotorcraft => 7,
            EmmiterCategory::Unassigned0 => 8,
            EmmiterCategory::GliderSailplane => 9,
            EmmiterCategory::LighterThanAir => 10,
            EmmiterCategory::ParachutistSkyDiver => 11,
            EmmiterCategory::UltraLightHangGliderParaglider => 12,
            EmmiterCategory::Unassigned1 => 13,
            EmmiterCategory::UnmannedAerialVehicle => 14,
            EmmiterCategory::SpaceTransatmosphericVehicle => 15,
            EmmiterCategory::Unassigned2 => 16,
            EmmiterCategory::SurfaceVehicleEmergency => 17,
            EmmiterCategory::SurfaceVehicleService => 18,
            EmmiterCategory::PointObstacle => 19,
            EmmiterCategory::ClusterObstacle => 20,
            EmmiterCategory::LineObstacle => 21,
            EmmiterCategory::Reserved0 => 22,
            EmmiterCategory::Reserved1 => 23,
            EmmiterCategory::Reserved2 => 24,
            EmmiterCategory::Reserved3 => 25,
            EmmiterCategory::Reserved4 => 26,
            EmmiterCategory::Reserved5 => 27,
            EmmiterCategory::Reserved6 => 28,
            EmmiterCategory::Reserved7 => 29,
            EmmiterCategory::Reserved8 => 30,
            EmmiterCategory::Reserved9 => 31,
            EmmiterCategory::Reserved10 => 32,
            EmmiterCategory::Reserved11 => 33,
            EmmiterCategory::Reserved12 => 34,
            EmmiterCategory::Reserved13 => 35,
            EmmiterCategory::Reserved14 => 36,
            EmmiterCategory::Reserved15 => 37,
            EmmiterCategory::Reserved16 => 38,
            EmmiterCategory::Reserved17 => 39,
        }
    }

    /// Decodes the 8-bit field; `None` for a value that no variant stands for.
    pub fn from_bytes(input: u8) -> (r: Option<EmmiterCategory>)
        ensures
            r.is_some() == (input < 40),
            r matches Some(c) ==> c.code() == input,
    {
        match input {
            0 => Some(EmmiterCategory::NoAircraftTypeInformation),
            1 => Some(EmmiterCategory::Light),
            2 => Some(EmmiterCategory::Small),
            3 => Some(EmmiterCategory::Large),
            4 => Some(EmmiterCategory::HighVortexLarge),
            5 => Some(EmmiterCategory::Heavy),
            6 => Some(EmmiterCategory::HighlyManeuverable),
            7 => Some(EmmiterCategory::Rotorcraft),
            8 => Some(EmmiterCategory::Unassigned0),
            9 => Some(EmmiterCategory::GliderSailplane),
            10 => Some(EmmiterCategory::LighterThanAir),
            11 => Some(EmmiterCategory::ParachutistSkyDiver),
            12 => Some(EmmiterCategory::UltraLightHangGliderParaglider),
            13 => Some(EmmiterCategory::Unassigned1),
            14 => Some(EmmiterCategory::UnmannedAerialVehicle),
            15 => Some(EmmiterCategory::SpaceTransatmosphericVehicle),
            16 => Some(EmmiterCategory::Unassigned2),
            17 => Some(EmmiterCategory::SurfaceVehicleEmergency),
            18 => Some(EmmiterCategory::SurfaceVehicleService),
            19 => Some(EmmiterCategory::PointObstacle),
            20 => Some(EmmiterCategory::ClusterObstacle),
            21 => Some(EmmiterCategory::LineObstacle),
            22 => Some(EmmiterCategory::Reserved0),
            23 => Some(EmmiterCategory::Reserved1),
            24 => Some(EmmiterCategory::Reserved2),
            25 => Some(EmmiterCategory::Reserved3),
            26 => Some(EmmiterCategory::Reserved4),
            27 => Some(EmmiterCategory::Reserved5),
            28 => Some(EmmiterCategory::Reserved6),
            29 => Some(EmmiterCategory::Reserved7),
            30 => Some(EmmiterCategory::Reserved8),
            31 => Some(EmmiterCategory::Reserved9),
            32 => Some(EmmiterCategory::Reserved10),
            33 => Some(EmmiterCategory::Reserved11),
            34 => Some(EmmiterCategory::Reserved12),
            35 => Some(EmmiterCategory::Reserved13),
            36 => Some(EmmiterCategory::Reserved14),
            37 => Some(EmmiterCategory::Reserved15),
            38 => Some(EmmiterCategory::Reserved16),
            39 => Some(EmmiterCategory::Reserved17),
            _ => None,
        }
    }
}

/// 4-bit field which provides status information about the traffic.
#[derive(Debug, Clone, Copy, PartialEq, Eq, Structural)]
pub enum EmergencyPriorityCodeCategory {
    NoEmergency,
    GeneralEmergency,
    MedicalEmergency,
    MinimumFuel,
    NoCommunication,
    UnlawfulInterference,
    DownedAircraft,
    Reserved0,
    Reserved1,
    Reserved2,
    Reserved3,
    Reserved4,
    Reserved5,
    Reserved6,
    Reserved7,
    Reserved8,
}

impl EmergencyPriorityCodeCategory {
    /// The field value that stands for this variant.
    pub open spec fn code(self) -> u8 {
        match self {
            EmergencyPriorityCodeCategory::NoEmergency => 0,
            EmergencyPriorityCodeCategory::GeneralEmergency => 1,
            EmergencyPriorityCodeCategory::MedicalEmergency => 2,
            EmergencyPriorityCodeCategory::MinimumFuel => 3,
            EmergencyPriorityCodeCategory::NoCommunication => 4,
            EmergencyPriorityCodeCategory::UnlawfulInterference => 5,
            EmergencyPriorityCodeCategory::DownedAircraft => 6,
            EmergencyPriorityCodeCategory::Reserved0 => 7,
            EmergencyPriorityCodeCategory::Reserved1 => 8,
            EmergencyPriorityCodeCategory::Reserved2 => 9,
            EmergencyPriorityCodeCategory::Reserved3 => 10,
            EmergencyPriorityCodeCategory::Reserved4 => 11,
            EmergencyPriorityCodeCategory::Reserved5 => 12,
            EmergencyPriorityCodeCategory::Reserved6 => 13,
            EmergencyPriorityCodeCategory::Reserved7 => 14,
            EmergencyPriorityCodeCategory::Reserved8 => 15,
        }
    }

    /// Decodes the 4-bit field held in the low bits of `input`; the high bits are ignored.
    pub fn from_bytes(input: u8) -> (r: EmergencyPriorityCodeCategory)
        ensures
            r.code() == input % 16,
    {
        let code: u8 = input & 0x0F;
        assert(code == input % 16) by (bit_vector)
            requires
                code == input & 0x0F,
        ;
        match code {
            0 => EmergencyPriorityCodeCategory::NoEmergency,
            1 => EmergencyPriorityCodeCategory::GeneralEmergency,
            2 => EmergencyPriorityCodeCategory::MedicalEmergency,
            3 => EmergencyPriorityCodeCategory::MinimumFuel,
            4 => EmergencyPriorityCodeCategory::NoCommunication,
            5 => EmergencyPriorityCodeCategory::UnlawfulInterference,
            6 => EmergencyPriorityCodeCategory::DownedAircraft,
            7 => EmergencyPriorityCodeCategory::Reserved0,
            8 => EmergencyPriorityCodeCategory::Reserved1,
            9 => EmergencyPriorityCodeCategory::Reserved2,
            10 => EmergencyPriorityCodeCategory::Reserved3,
            11 => EmergencyPriorityCodeCategory::Reserved4,
            12 => EmergencyPriorityCodeCategory::Reserved5,
            13 => EmergencyPriorityCodeCategory::Reserved6,
            14 => EmergencyPriorityCodeCategory::Reserved7,
            _ => EmergencyPriorityCodeCategory::Reserved8,
        }
    }
}

/// Miscellaneous indicator bits that apply to a Report. Only the track/heading type, in the
/// two low bits, is decoded.
#[derive(Debug, Clone, Copy, PartialEq, Eq, Structural)]
pub enum MiscIndicator {
    TrackHeadingNotValid,
    TrackHeadingTrueTrackAngle,
    TrackHeadingMagnetic,
    TrackHeadingTrue,
    ReportUpdated,
    ReportExtrapolated,
    OnGround,
    Airborne,
}

/// The track/heading type held in the two low bits of the indicator field.
pub open spec fn track_heading_kind_of(input: u8) -> MiscIndicator {
    if input % 4 == 0 {
        MiscIndicator::TrackHeadingNotValid
    } else if input % 4 == 1 {
        MiscIndicator::TrackHeadingTrueTrackAngle
    } else if input % 4 == 2 {
        MiscIndicator::TrackHeadingMagnetic
    } else {
        MiscIndicator::TrackHeadingTrue
    }
}

impl MiscIndicator {
    /// Decodes the track/heading type from bits 0 and 1 of the indicator field.
    pub fn from_bytes(input: u8) -> (r: MiscIndicator)
        ensures
            r == track_heading_kind_of(input),
    {
        let bits: u8 = input & 0b11;
        assert(bits == input % 4) by (bit_vector)
            requires
                bits == input & 0b11,
        ;
        match bits {
            0b00 => MiscIndicator::TrackHeadingNotValid,
            0b01 => MiscIndicator::TrackHeadingTrueTrackAngle,
            0b10 => MiscIndicator::TrackHeadingMagnetic,
            _ => MiscIndicator::TrackHeadingTrue,
        }
    }
}

/// Resolution of the horizontal velocity, in knots per unit.
pub const GDL90_HORZ_VELOCITY_FACTOR: u16 = 1;

/// Resolution of the vertical velocity, in feet per minute per unit.
pub const GDL90_VERT_VELOCITY_FACTOR: i16 = 64;

/// Raw horizontal velocity meaning "no data".
pub const HORZ_VELOCITY_UNAVAILABLE: u16 = 0xFFF;

/// Raw vertical velocity meaning "no data".
pub const VERT_VELOCITY_UNAVAILABLE: u16 = 0x800;

/// One component of a velocity.
#[derive(Debug, Clone, Copy, PartialEq, Eq, Structural)]
pub enum VelocityType {
    /// Ground speed in knots.
    Horizontal(u16),
    /// Vertical rate in feet per minute: positive while climbing, negative while descending.
    Vertical(i16),
    Unavailable,
}

/// Horizontal and vertical velocity of a Report.
#[derive(Debug, Clone, Copy, PartialEq, Eq, Structural)]
pub struct Velocity {
    pub h_vel: VelocityType,
    pub v_vel: VelocityType,
}

/// Horizontal component from its 12 raw bits: all ones means unavailable.
pub open spec fn horizontal_velocity_of(raw: int) -> VelocityType {
    if raw == 0xFFF {
        VelocityType::Unavailable
    } else {
        VelocityType::Horizontal(raw as u16)
    }
}

/// Raw vertical patterns that carry no rate: the sentinel `0x800` and the two reserved ranges
/// around it.
pub open spec fn vertical_velocity_reserved(raw: int) -> bool {
    ||| raw == 0x800
    ||| 0x1FF <= raw <= 0x7FF
    ||| 0x801 <= raw <= 0xE01
}

/// Vertical component from its 12 raw bits, a two's-complement count of 64 fpm units.
pub open spec fn vertical_velocity_of(raw: int) -> VelocityType {
    if vertical_velocity_reserved(raw) {
        VelocityType::Unavailable
    } else if raw >= 0x800 {
        VelocityType::Vertical(((raw - 0x1000) * 64) as i16)
    } else {
        VelocityType::Vertical((raw * 64) as i16)
    }
}

/// The velocity field: the upper 12 bits of the big-endian 24-bit field are the horizontal
/// component, the lower 12 bits the vertical one.
pub open spec fn velocity_of(input: u32) -> Velocity {
    Velocity {
        h_vel: horizontal_velocity_of(wire_be24(input) / 0x1000),
        v_vel: vertical_velocity_of(wire_be24(input) % 0x1000),
    }
}

impl Velocity {
    /// Decodes the 24-bit velocity field; the byte above it is ignored.
    pub fn from_bytes(input: u32) -> (r: Velocity)
        ensures
            r == velocity_of(input),
    {
        let combined: u32 = be24_value(input);
        // bits 23..12 of the big-endian field, then bits 11..0
        let combined_h: u16 = (combined / 0x1000) as u16;
        let combined_v: u16 = (combined % 0x1000) as u16;

        let h_vel = if combined_h == HORZ_VELOCITY_UNAVAILABLE {
            VelocityType::Unavailable
        } else {
            VelocityType::Horizontal(combined_h * GDL90_HORZ_VELOCITY_FACTOR)
        };

        let v_vel = if combined_v == VERT_VELOCITY_UNAVAILABLE {
            VelocityType::Unavailable
        } else if (combined_v >= 0x1FF && combined_v <= 0x7FF) || (combined_v >= 0x801
            && combined_v <= 0xE01) {
            VelocityType::Unavailable
        } else if combined_v >= 0x800 {
            // negative rate: undo the two's complement
            let units: i16 = combined_v as i16 - 0x1000;
            VelocityType::Vertical(units * GDL90_VERT_VELOCITY_FACTOR)
        } else {
            VelocityType::Vertical(combined_v as i16 * GDL90_VERT_VELOCITY_FACTOR)
        };

        Velocity { h_vel, v_vel }
    }
}

/// Altitude resolution, in feet per unit.
pub const GDL90_ALTITUDE_FACTOR: i32 = 25;

/// Altitude of raw value zero, in feet.
pub const GDL90_ALTITUDE_OFFSET: i32 = -1000;

/// Raw 12-bit altitude meaning "invalid or unavailable".
pub const ALTITUDE_INVALID: u16 = 0xFFF;

/// Pressure altitude of a Report.
#[derive(Debug, Clone, Copy, PartialEq, Eq, Structural)]
pub enum Altitude {
    /// Altitude in feet.
    Valid(i32),
    InvalidOrUnknown,
}

/// The 12 altitude bits of the 16-bit altitude field: the first wire byte and the upper half
/// of the second. The lower half of the second byte holds the miscellaneous indicators.
pub open spec fn altitude_raw(input: u16) -> int {
    (input % 256) * 16 + (input / 256) / 16
}

/// Altitude from its field: the sentinel is tested on the raw bits, before scaling.
pub open spec fn altitude_of(input: u16) -> Altitude {
    if altitude_raw(input) == 0xFFF {
        Altitude::InvalidOrUnknown
    } else {
        Altitude::Valid((altitude_raw(input) * 25 - 1000) as i32)
    }
}

impl Altitude {
    /// Decodes the 16-bit altitude field, given with its first wire byte in the low bits.
    pub fn from_bytes(input: u16) -> (r: Altitude)
        ensures
            r == altitude_of(input),
    {
        let lo: u16 = input & 0xFF;
        let hi: u16 = input >> 8u16;
        assert(lo == input % 256 && hi == input / 256 && lo < 256 && hi < 256) by (bit_vector)
            requires
                lo == input & 0xFF,
                hi == input >> 8u16,
        ;
        let raw: u16 = lo * 16 + hi / 16;
        if raw == ALTITUDE_INVALID {
            Altitude::InvalidOrUnknown
        } else {
            Altitude::Valid(raw as i32 * GDL90_ALTITUDE_FACTOR + GDL90_ALTITUDE_OFFSET)
        }
    }
}

/// The altitude field decodes to "invalid or unknown" exactly when its 12 raw bits are all ones;
/// no scaled altitude is mistaken for the sentinel.
pub proof fn lemma_altitude_sentinel(input: u16)
    ensures
        altitude_of(input) == Altitude::InvalidOrUnknown <==> altitude_raw(input) == 0xFFF,
        altitude_raw(input) == 0xFFF <==> input % 256 == 0xFF && input / 256 >= 0xF0,
{
}

/// A latitude or longitude, as a signed fraction of a half circle: `semicircles` units of
/// 180 / 2^23 degrees, in `-2^23 .. 2^23` (that is, -180 degrees up to, not including, 180).
#[derive(Debug, Clone, Copy, PartialEq, Eq, Structural)]
pub struct Cord {
    pub semicircles: i32,
}

/// The coordinate field read as a big-endian 24-bit two's-complement number.
pub open spec fn cord_of(input: u32) -> int {
    if wire_be24(input) >= 0x800000 {
        wire_be24(input) - 0x1000000
    } else {
        wire_be24(input)
    }
}

impl Cord {
    /// Decodes a 24-bit coordinate field; the byte above it is ignored.
    pub fn from_bytes(input: u32) -> (r: Cord)
        ensures
            r.semicircles == cord_of(input),
            -0x800000 <= r.semicircles < 0x800000,
    {
        let combined: u32 = be24_value(input);
        let value: i32 = if combined >= 0x800000 {
            // sign-extend from 24 bits
            combined as i32 - 0x1000000
        } else {
            combined as i32
        };
        Cord { semicircles: value }
    }
}

/// Shown in place of a call sign whose bytes are not ASCII.
pub open spec fn invalid_call_sign() -> Seq<char> {
    "invalid_call_sign"@
}

/// The eight call-sign bytes in wire order, taken from `input` least significant byte first.
pub open spec fn call_sign_bytes(input: u64) -> Seq<u8> {
    Seq::new(8, |k: int| ((input as int / pow256(k)) % 256) as u8)
}

/// `256^k`.
pub open spec fn pow256(k: int) -> int
    decreases k,
{
    if k <= 0 {
        1
    } else {
        256 * pow256(k - 1)
    }
}

/// `b` without its trailing spaces.
pub open spec fn trim_trailing_spaces(b: Seq<u8>) -> Seq<u8>
    decreases b.len(),
{
    if b.len() > 0 && b.last() == 0x20 {
        trim_trailing_spaces(b.drop_last())
    } else {
        b
    }
}

/// The text of a call-sign field: its ASCII bytes without trailing spaces, or the fixed
/// placeholder when a byte is not ASCII.
pub open spec fn call_sign_text(input: u64) -> Seq<char> {
    if is_ascii_bytes(call_sign_bytes(input)) {
        ascii_chars(trim_trailing_spaces(call_sign_bytes(input)))
    } else {
        invalid_call_sign()
    }
}

/// Call sign (tail number) of a Report.
#[derive(Debug, PartialEq, Eq)]
pub struct CallSignType {
    pub tail_number: String,
}

impl CallSignType {
    /// Decodes the 64-bit call-sign field, given with its first wire byte in the low bits.
    pub fn from_bytes(input: u64) -> (r: CallSignType)
        ensures
            r.tail_number@ == call_sign_text(input),
    {
        let mut bytes: Vec<u8> = Vec::with_capacity(8);
        let mut rest: u64 = input;
        let mut k: usize = 0;
        let ghost b = call_sign_bytes(input);
        while k < 8
            invariant
                k <= 8,
                bytes@ == b.subrange(0, k as int),
                rest == input as int / pow256(k as int),
                b == call_sign_bytes(input),
            decreases 8 - k,
        {
            proof {
                assert(pow256(k as int + 1) == 256 * pow256(k as int));
                lemma_pow256_positive(k as int);
                vstd::arithmetic::div_mod::lemma_div_denominator(
                    input as int,
                    pow256(k as int),
                    256,
                );
            }
            bytes.push((rest % 256) as u8);
            rest = rest / 256;
            k = k + 1;
            assert(bytes@ =~= b.subrange(0, k as int));
        }
        assert(bytes@ =~= b);

        let mut ascii = true;
        let mut i: usize = 0;
        while i < 8
            invariant
                i <= 8,
                b.len() == 8,
                bytes@ == b,
                ascii <==> forall|j: int| 0 <= j < i ==> #[trigger] b[j] < 128,
            decreases 8 - i,
        {
            if bytes[i] >= 128 {
                ascii = false;
            }
            i = i + 1;
        }
        if !ascii {
            return CallSignType { tail_number: "invalid_call_sign".to_owned() };
        }

        let mut len: usize = 8;
        while len > 0 && bytes[len - 1] == 0x20
            invariant
                len <= 8,
                b.len() == 8,
                bytes@ == b,
                trim_trailing_spaces(b.subrange(0, len as int)) == trim_trailing_spaces(b),
            decreases len,
        {
            assert(b.subrange(0, len as int).drop_last() =~= b.subrange(0, len as int - 1));
            len = len - 1;
        }
        let ghost kept = b.subrange(0, len as int);
        assert(trim_trailing_spaces(kept) == kept);
        bytes.truncate(len);
        assert(bytes@ =~= kept);
        proof {
            assert(is_ascii_bytes(kept));
            lemma_ascii_decode(kept);
        }
        match string_from_utf8(bytes) {
            Some(s) => CallSignType { tail_number: s },
            None => CallSignType { tail_number: "invalid_call_sign".to_owned() },
        }
    }
}

proof fn lemma_pow256_positive(k: int)
    ensures
        pow256(k) > 0,
    decreases k,
{
    if k > 0 {
        lemma_pow256_positive(k - 1);
    }
}

/// Common Report structure of Ownship and Traffic Report messages: 27 bytes, decoded field by
/// field on demand. Multi-byte fields are handed to their codecs as numbers holding the first
/// wire byte in the low bits.
///
/// | Bytes  | Bits        | Field                                        |
/// |--------|-------------|----------------------------------------------|
/// | 0      | 0-3 / 4-7   | traffic alert status / address type          |
/// | 1-3    |             | participant address                          |
/// | 4-6    |             | latitude                                     |
/// | 7-9    |             | longitude                                    |
/// | 10-11  |             | altitude (12 bits) and miscellaneous (4 bits) |
/// | 12     | 0-3 / 4-7   | NACp / NIC                                   |
/// | 13-15  |             | velocity                                     |
/// | 16     |             | track/heading                                |
/// | 17     |             | emitter category                             |
/// | 18-25  |             | call sign                                    |
/// | 26     | 0-3 / 4-7   | emergency/priority code / spare              |
#[derive(Debug, Clone, Copy, PartialEq, Eq)]
pub struct Report {
    bytes: [u8; 27],
}

impl View for Report {
    type V = Seq<u8>;

    closed spec fn view(&self) -> Seq<u8> {
        self.bytes@
    }
}

/// Little-endian value of three bytes.
pub open spec fn le3(b0: u8, b1: u8, b2: u8) -> int {
    b0 + 256 * b1 + 65536 * b2
}

/// Little-endian value of the eight bytes of `s` from `start`.
pub open spec fn le8(s: Seq<u8>, start: int) -> int {
    s[start] + 0x100 * s[start + 1] + 0x10000 * s[start + 2] + 0x1000000 * s[start + 3]
        + 0x100000000 * s[start + 4] + 0x10000000000 * s[start + 5] + 0x1000000000000 * s[start
        + 6] + 0x100000000000000 * s[start + 7]
}

impl Report {
    /// A Report over its 27 bytes.
    pub fn from_bytes(bytes: [u8; 27]) -> (r: Report)
        ensures
            r@ == bytes@,
            r@.len() == 27,
    {
        Report { bytes }
    }

    /// A Report over the first 27 bytes of `data`.
    pub fn from_slice(data: &[u8]) -> (r: Report)
        requires
            data@.len() >= 27,
        ensures
            r@ == data@.subrange(0, 27),
            r@.len() == 27,
    {
        let mut bytes: [u8; 27] = [0u8; 27];
        let mut i: usize = 0;
        while i < 27
            invariant
                i <= 27,
                data@.len() >= 27,
                bytes@.len() == 27,
                forall|j: int| 0 <= j < i ==> bytes@[j] == data@[j],
            decreases 27 - i,
        {
            bytes[i] = data[i];
            i = i + 1;
        }
        assert(bytes@ =~= data@.subrange(0, 27));
        Report { bytes }
    }

    pub fn traffic_alert_status(&self) -> (r: TrafficAlert)
        ensures
            r.code() == self@[0] % 16,
    {
        TrafficAlert::from_bytes(self.bytes[0])
    }

    pub fn address_type(&self) -> (r: AddressType)
        ensures
            r.code() == self@[0] / 16,
    {
        AddressType::from_bytes(self.bytes[0] / 16)
    }

    /// The 24-bit participant address.
    pub fn participant_address(&self) -> (r: u32)
        ensures
            r == le3(self@[1], self@[2], self@[3]),
    {
        self.bytes[1] as u32 + 256 * self.bytes[2] as u32 + 65536 * self.bytes[3] as u32
    }

    pub fn latitude(&self) -> (r: Cord)
        ensures
            r.semicircles == cord_of(le3(self@[4], self@[5], self@[6]) as u32),
    {
        Cord::from_bytes(
            self.bytes[4] as u32 + 256 * self.bytes[5] as u32 + 65536 * self.bytes[6] as u32,
        )
    }

    pub fn longitude(&self) -> (r: Cord)
        ensures
            r.semicircles == cord_of(le3(self@[7], self@[8], self@[9]) as u32),
    {
        Cord::from_bytes(
            self.bytes[7] as u32 + 256 * self.bytes[8] as u32 + 65536 * self.bytes[9] as u32,
        )
    }

    pub fn altitude(&self) -> (r: Altitude)
        ensures
            r == altitude_of((self@[10] + 256 * self@[11]) as u16),
    {
        Altitude::from_bytes(self.bytes[10] as u16 + 256 * self.bytes[11] as u16)
    }

    /// Navigation Accuracy Category for Position.
    pub fn nacp(&self) -> (r: u8)
        ensures
            r == self@[12] % 16,
    {
        self.bytes[12] % 16
    }

    /// Navigation Integrity Category.
    pub fn nic(&self) -> (r: u8)
        ensures
            r == self@[12] / 16,
    {
        self.bytes[12] / 16
    }

    pub fn velocity(&self) -> (r: Velocity)
        ensures
            r == velocity_of(le3(self@[13], self@[14], self@[15]) as u32),
    {
        Velocity::from_bytes(
            self.bytes[13] as u32 + 256 * self.bytes[14] as u32 + 65536 * self.bytes[15] as u32,
        )
    }

    /// Track or heading, in units of 360/256 degrees.
    pub fn track_heading(&self) -> (r: u8)
        ensures
            r == self@[16],
    {
        self.bytes[16]
    }

    /// The emitter category; `None` for a value that no category stands for.
    pub fn emmiter_cattegory(&self) -> (r: Option<EmmiterCategory>)
        ensures
            r.is_some() == (self@[17] < 40),
            r matches Some(c) ==> c.code() == self@[17],
    {
        EmmiterCategory::from_bytes(self.bytes[17])
    }

    pub fn call_sign(&self) -> (r: CallSignType)
        ensures
            r.tail_number@ == call_sign_text(le8(self@, 18) as u64),
    {
        let b = &self.bytes;
        let word: u64 = b[18] as u64 + 0x100 * b[19] as u64 + 0x10000 * b[20] as u64 + 0x1000000
            * b[21] as u64 + 0x100000000 * b[22] as u64 + 0x10000000000 * b[23] as u64
            + 0x1000000000000 * b[24] as u64 + 0x100000000000000 * b[25] as u64;
        CallSignType::from_bytes(word)
    }

    pub fn emergency_priority_code(&self) -> (r: EmergencyPriorityCodeCategory)
        ensures
            r.code() == self@[26] % 16,
    {
        EmergencyPriorityCodeCategory::from_bytes(self.bytes[26])
    }

    /// Spare bits, reserved for future use.
    pub fn reserved(&self) -> (r: u8)
        ensures
            r == self@[26] / 16,
    {
        self.bytes[26] / 16
    }
}

} // verus!
