//! Datalink messages and their decoding from a message body (message ID and data).
//!
//! | ID   | Message                      | Data bytes |
//! |------|------------------------------|------------|
//! | 0x00 | Heartbeat                    | 6          |
//! | 0x02 | Initialization               | 2          |
//! | 0x07 | Uplink Data                  | 435        |
//! | 0x09 | Height Above Terrain         | 2          |
//! | 0x0A | Ownship Report               | 27         |
//! | 0x0B | Ownship Geometric Altitude   | 4          |
//! | 0x14 | Traffic Report               | 27         |
//! | 0x1E | Basic Report                 | 0          |
//! | 0x1F | Long Report                  | 0          |
use vstd::prelude::*;

use crate::types::heartbeat::{HeartbeatStatusByte1, HeartbeatStatusByte2};
use crate::types::initialization::{ConfigurationByte1, ConfigurationByte2};
use crate::types::ownship_geometric_altitude::VerticalMetrics;
use crate::types::report::Report;
use crate::types::uplink_data::UplinkPayload;
use crate::FrameError;

verus! {

/// Resolution of the ownship geometric altitude, in feet per unit.
pub const GDL90_GEO_ALTITUDE_FACTOR: i32 = 5;

pub const MSG_ID_HEARTBEAT: u8 = 0x00;

pub const MSG_ID_INITIALIZATION: u8 = 0x02;

pub const MSG_ID_UPLINK_DATA: u8 = 0x07;

pub const MSG_ID_HEIGHT_ABOVE_TERRAIN: u8 = 0x09;

pub const MSG_ID_OWNSHIP_REPORT: u8 = 0x0A;

pub const MSG_ID_OWNSHIP_GEOMETRIC_ALTITUDE: u8 = 0x0B;

pub const MSG_ID_TRAFFIC_REPORT: u8 = 0x14;

pub const MSG_ID_BASIC_REPORT: u8 = 0x1E;

pub const MSG_ID_LONG_REPORT: u8 = 0x1F;

/// A decoded datalink message. Multi-byte numbers are sent least significant byte first.
#[derive(Debug, Clone, Copy, PartialEq, Eq)]
pub enum Gdl90DatalinkMessage {
    /// Status and operation of the unit.
    Heartbeat {
        status_byte_1: HeartbeatStatusByte1,
        status_byte_2: HeartbeatStatusByte2,
        /// Seconds since 0000Z, bits 15..0; bit 16 is in status byte 2.
        uat_timestamp: u16,
        message_counts: u16,
    },
    /// Configuration sent to the unit.
    Initialization {
        configuration_byte_1: ConfigurationByte1,
        configuration_byte_2: ConfigurationByte2,
    },
    /// An uplink message received from a ground station.
    UplinkData {
        /// 24-bit time of reception, in units of 80 ns.
        time_of_reception: u32,
        payload: UplinkPayload,
    },
    /// Height above terrain, in feet.
    HeightAboveTerrain { hat: u16 },
    OwnshipReport { report: Report },
    TrafficReport { report: Report },
    /// Geometric altitude in feet, and its vertical metrics.
    OwnshipGeoometricAltitude { ownship_geo_altitude: i32, vertical_metrics: VerticalMetrics },
    /// Its body is not interpreted.
    BasicReport,
    /// Its body is not interpreted.
    LongReport,
    /// A message ID with no schema; nothing after the ID is interpreted.
    Unknown,
}

/// `id` selects a message schema.
pub open spec fn is_known_id(id: u8) -> bool {
    ||| id == MSG_ID_HEARTBEAT
    ||| id == MSG_ID_INITIALIZATION
    ||| id == MSG_ID_UPLINK_DATA
    ||| id == MSG_ID_HEIGHT_ABOVE_TERRAIN
    ||| id == MSG_ID_OWNSHIP_REPORT
    ||| id == MSG_ID_TRAFFIC_REPORT
    ||| id == MSG_ID_OWNSHIP_GEOMETRIC_ALTITUDE
    ||| id == MSG_ID_BASIC_REPORT
    ||| id == MSG_ID_LONG_REPORT
}

/// Number of data bytes after the message ID that the schema of `id` reads.
pub open spec fn schema_len(id: u8) -> int {
    if id == MSG_ID_HEARTBEAT {
        6
    } else if id == MSG_ID_INITIALIZATION {
        2
    } else if id == MSG_ID_UPLINK_DATA {
        435
    } else if id == MSG_ID_HEIGHT_ABOVE_TERRAIN {
        2
    } else if id == MSG_ID_OWNSHIP_REPORT || id == MSG_ID_TRAFFIC_REPORT {
        27
    } else if id == MSG_ID_OWNSHIP_GEOMETRIC_ALTITUDE {
        4
    } else {
        0
    }
}

/// Little-endian value of two bytes.
pub open spec fn le16(b0: u8, b1: u8) -> int {
    b0 + 256 * b1
}

/// A 16-bit two's-complement value.
pub open spec fn signed16(v: int) -> int {
    if v >= 0x8000 {
        v - 0x10000
    } else {
        v
    }
}

impl Gdl90DatalinkMessage {
    /// This message is what the body `b` (message ID, then data) holds, given that `b` is long
    /// enough for its schema.
    pub open spec fn decoded_from(self, b: Seq<u8>) -> bool {
        match self {
            Gdl90DatalinkMessage::Heartbeat {
                status_byte_1,
                status_byte_2,
                uat_timestamp,
                message_counts,
            } => {
                &&& b[0] == MSG_ID_HEARTBEAT
                &&& status_byte_1.value() == b[1]
                &&& status_byte_2.value() == b[2]
                &&& uat_timestamp == le16(b[3], b[4])
                &&& message_counts == le16(b[5], b[6])
            },
            Gdl90DatalinkMessage::Initialization { configuration_byte_1, configuration_byte_2 } => {
                &&& b[0] == MSG_ID_INITIALIZATION
                &&& configuration_byte_1.value() == b[1]
                &&& configuration_byte_2.value() == b[2]
            },
            Gdl90DatalinkMessage::UplinkData { time_of_reception, payload } => {
                &&& b[0] == MSG_ID_UPLINK_DATA
                &&& time_of_reception == b[1] + 256 * b[2] + 65536 * b[3]
                &&& payload.uat_specific_header@ == b.subrange(4, 12)
                &&& payload.payload@ == b.subrange(12, 436)
            },
            Gdl90DatalinkMessage::HeightAboveTerrain { hat } => {
                &&& b[0] == MSG_ID_HEIGHT_ABOVE_TERRAIN
                &&& hat == le16(b[1], b[2])
            },
            Gdl90DatalinkMessage::OwnshipReport { report } => {
                &&& b[0] == MSG_ID_OWNSHIP_REPORT
                &&& report@ == b.subrange(1, 28)
            },
            Gdl90DatalinkMessage::TrafficReport { report } => {
                &&& b[0] == MSG_ID_TRAFFIC_REPORT
                &&& report@ == b.subrange(1, 28)
            },
            Gdl90DatalinkMessage::OwnshipGeoometricAltitude {
                ownship_geo_altitude,
                vertical_metrics,
            } => {
                &&& b[0] == MSG_ID_OWNSHIP_GEOMETRIC_ALTITUDE
                &&& ownship_geo_altitude == signed16(le16(b[1], b[2])) * 5
                &&& vertical_metrics.value() == le16(b[3], b[4])
            },
            Gdl90DatalinkMessage::BasicReport => b[0] == MSG_ID_BASIC_REPORT,
            Gdl90DatalinkMessage::LongReport => b[0] == MSG_ID_LONG_REPORT,
            Gdl90DatalinkMessage::Unknown => !is_known_id(b[0]),
        }
    }
}

/// Decodes a message body (message ID, then data) by the schema that its ID selects.
/// Bytes past the schema are not read; an ID with no schema gives `Unknown`.
pub fn decode_message(body: &[u8]) -> (r: Result<Gdl90DatalinkMessage, FrameError>)
    ensures
        r.is_err() <==> (body@.len() == 0 || body@.len() - 1 < schema_len(body@[0])),
        r matches Err(e) ==> e == FrameError::BodyTooShort,
        r matches Ok(m) ==> m.decoded_from(body@),
{
    if body.len() == 0 {
        return Err(FrameError::BodyTooShort);
    }
    let id = body[0];
    let n = body.len() - 1;
    if id == MSG_ID_HEARTBEAT {
        if n < 6 {
            return Err(FrameError::BodyTooShort);
        }
        Ok(
            Gdl90DatalinkMessage::Heartbeat {
                status_byte_1: HeartbeatStatusByte1::from_bytes([body[1]]),
                status_byte_2: HeartbeatStatusByte2::from_bytes([body[2]]),
                uat_timestamp: body[3] as u16 + 256 * body[4] as u16,
                message_counts: body[5] as u16 + 256 * body[6] as u16,
            },
        )
    } else if id == MSG_ID_INITIALIZATION {
        if n < 2 {
            return Err(FrameError::BodyTooShort);
        }
        Ok(
            Gdl90DatalinkMessage::Initialization {
                configuration_byte_1: ConfigurationByte1::from_bytes([body[1]]),
                configuration_byte_2: ConfigurationByte2::from_bytes([body[2]]),
            },
        )
    } else if id == MSG_ID_UPLINK_DATA {
        if n < 435 {
            return Err(FrameError::BodyTooShort);
        }
        let payload = UplinkPayload::from_slice(vstd::slice::slice_subrange(body, 4, 436));
        assert(body@.subrange(4, 436).subrange(0, 8) =~= body@.subrange(4, 12));
        assert(body@.subrange(4, 436).subrange(8, 432) =~= body@.subrange(12, 436));
        Ok(
            Gdl90DatalinkMessage::UplinkData {
                time_of_reception: body[1] as u32 + 256 * body[2] as u32 + 65536 * body[3] as u32,
                payload,
            },
        )
    } else if id == MSG_ID_HEIGHT_ABOVE_TERRAIN {
        if n < 2 {
            return Err(FrameError::BodyTooShort);
        }
        Ok(Gdl90DatalinkMessage::HeightAboveTerrain { hat: body[1] as u16 + 256 * body[2] as u16 })
    } else if id == MSG_ID_OWNSHIP_REPORT || id == MSG_ID_TRAFFIC_REPORT {
        if n < 27 {
            return Err(FrameError::BodyTooShort);
        }
        let report = Report::from_slice(vstd::slice::slice_subrange(body, 1, 28));
        assert(body@.subrange(1, 28).subrange(0, 27) =~= body@.subrange(1, 28));
        if id == MSG_ID_OWNSHIP_REPORT {
            Ok(Gdl90DatalinkMessage::OwnshipReport { report })
        } else {
            Ok(Gdl90DatalinkMessage::TrafficReport { report })
        }
    } else if id == MSG_ID_OWNSHIP_GEOMETRIC_ALTITUDE {
        if n < 4 {
            return Err(FrameError::BodyTooShort);
        }
        let raw: u16 = body[1] as u16 + 256 * body[2] as u16;
        let signed: i32 = if raw >= 0x8000 {
            raw as i32 - 0x10000
        } else {
            raw as i32
        };
        Ok(
            Gdl90DatalinkMessage::OwnshipGeoometricAltitude {
                ownship_geo_altitude: signed * GDL90_GEO_ALTITUDE_FACTOR,
                vertical_metrics: VerticalMetrics::from_bytes([body[3], body[4]]),
            },
        )
    } else if id == MSG_ID_BASIC_REPORT {
        Ok(Gdl90DatalinkMessage::BasicReport)
    } else if id == MSG_ID_LONG_REPORT {
        Ok(Gdl90DatalinkMessage::LongReport)
    } else {
        Ok(Gdl90DatalinkMessage::Unknown)
    }
}

/// A body whose message ID selects no schema is never too short, and the only message it
/// decodes to is `Unknown`.
pub proof fn lemma_unrecognized_id_is_unknown(body: Seq<u8>, m: Gdl90DatalinkMessage)
    requires
        body.len() >= 1,
        !is_known_id(body[0]),
    ensures
        schema_len(body[0]) == 0,
        m.decoded_from(body) <==> m == Gdl90DatalinkMessage::Unknown,
{
}

} // verus!
