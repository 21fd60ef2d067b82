use gdl90::crc::gdl90_crc;
use gdl90::datalink::{decode_message, Gdl90DatalinkMessage};
use gdl90::types::ownship_geometric_altitude::Vfom;
use gdl90::types::report::{Altitude, Cord};
use gdl90::{decode_frame, read_raw, remove_escapes, FrameError, Gdl90Message};

/// Degrees of a coordinate: 2^23 semicircle units make 180 degrees.
fn degrees(c: Cord) -> f32 {
    (c.semicircles as f32) * (180.0 / (1 << 23) as f32)
}

/// Builds a frame around `body`: checksum, byte stuffing and flags.
fn frame(body: &[u8]) -> Vec<u8> {
    let crc = gdl90_crc(body);
    let mut raw = body.to_vec();
    raw.push((crc & 0xFF) as u8);
    raw.push((crc >> 8) as u8);
    let mut out = vec![0x7E];
    for b in raw {
        if b == 0x7E || b == 0x7D {
            out.push(0x7D);
            out.push(b ^ 0x20);
        } else {
            out.push(b);
        }
    }
    out.push(0x7E);
    out
}

/* HEARTBEAT */

#[test]
fn msg_heartbeat() {
    let data = b"\x7E\x00\x81\x41\xDB\xD0\x08\x02\xB3\x8B\x7E";
    let parsed = read_raw(data).unwrap();
    assert_eq!(parsed.frame_check_seq, 0x8bb3);
    match parsed.message_data {
        Gdl90DatalinkMessage::Heartbeat { .. } => assert!(true),
        _ => assert!(false),
    }
}

#[test]
fn msg_heartbeat_invalid_crc() {
    let data = b"\x7E\x00\x81\x41\xDB\xD0\x08\x02\xFF\xFF\x7E";
    assert!(read_raw(data).is_err());
}

/* OWNSHIP REPORT */

/// Wrapper to test ownship report messages.
fn assert_ownship_report(
    data: &[u8],
    expected_seq: u16,
    lat_range: (f32, f32),
    long_range: (f32, f32),
    expected_altitude: Altitude,
) {
    let parsed = read_raw(data).unwrap();
    assert_eq!(parsed.frame_check_seq, expected_seq);

    if let Gdl90DatalinkMessage::OwnshipReport { report } = parsed.message_data {
        let lat = degrees(report.latitude());
        let lon = degrees(report.longitude());
        assert!(lat >= lat_range.0 && lat <= lat_range.1);
        assert!(lon >= long_range.0 && lon <= long_range.1);
        assert_eq!(report.altitude(), expected_altitude);
    } else {
        panic!("Expected OwnshipReport message");
    }
}

#[test]
fn ownship_1() {
    assert_ownship_report(
        b"\x7E\x0A\x00\x00\x00\x00\x15\xA7\xE5\xBA\x47\x99\x08\xC9\x88\xFF\xE0\x00\x80\x01\x4E\x31\x32\x33\x34\x35\x20\x20\x00\x7B\xE5\x7E",
        0xe57b,
        (30.0, 31.0),
        (-99.0, -98.0),
        Altitude::Valid(2500),
    );
}

#[test]
fn ownship_2() {
    assert_ownship_report(
        b"\x7E\x0A\x00\x00\x00\x00\x18\x7D\x5D\xF5\xBD\x1F\xB4\x09\x49\x88\x27\x40\x00\x82\x01\x4E\x31\x32\x33\x34\x35\x20\x20\x00\x8C\xEB\x7E",
        0xeb8c,
        (34.0, 35.0),
        (-95.0, -93.0),
        Altitude::Valid(2700),
    );
}

#[test]
fn ownship_3() {
    assert_ownship_report(
        b"\x7E\x0A\x01\xF0\x00\x00\x1C\x25\xE6\xB5\x0F\xF2\x16\x09\x8A\x00\x08\x00\x42\x01\x53\x74\x72\x61\x74\x75\x78\x00\x00\xDB\xF6\x7E",
        0xf6db,
        (39.0, 40.0),
        (-106.0, -105.0),
        Altitude::Valid(7800),
    );
}

/* TRAFIC REPORT */

#[test]
fn traffic_1() {
    let data: Vec<u8> = vec![
        0x7E, // start
        0x14, // message id
        0x00, // st
        0x00, // aa
        0x00, // aa
        0x00, // aa
        0x18, // ll
        0x7D, // ll
        0x5D, // ll
        0xF5, // nn
        0xBD, // nn
        0x1F, // nn
        0xB4, // dd
        0x09, // dm
        0x49, // ia
        0x88, // hh
        0x27, // hv
        0x40, // vv
        0x00, // tt
        0x82, // ee
        0x01, // cc
        0x4E, // cc
        0x31, // cc
        0x32, // cc
        0x33, // cc
        0x34, // cc
        0x35, // cc
        0x20, // cc
        0x20, // cc
        0x00, // px
        0x5E, 0x66, // crc
        0x7E,
    ];
    let parsed = read_raw(&data).unwrap();
    assert_eq!(parsed.frame_check_seq, 0x665e);

    if let Gdl90DatalinkMessage::TrafficReport { report } = parsed.message_data {
        let lat = degrees(report.latitude());
        let lon = degrees(report.longitude());
        assert!(lat >= 34.0 && lat <= 35.0);
        assert!(lon >= -95.0 && lon <= -93.0);
        assert_eq!(report.altitude(), Altitude::Valid(2700));
    } else {
        panic!("Expected OwnshipReport message");
    }
}

/* OwnshipGeoometricAltitude */

#[test]
fn ownship_geometric_altitude() {
    let parsed = read_raw(&[126, 11, 0, 202, 0, 12, 251, 136, 126]);
    assert!(parsed.is_ok());
}

#[test]
fn aux() {
    let parsed = read_raw(&[
        0x7E, 0x00, 0x81, 0x41, 0xDB, 0xD0, 0x08, 0x02, 0xB3, 0x8B, 0x7E,
    ])
    .unwrap();
    assert_eq!(parsed.frame_check_seq, 0x8bb3);
    match parsed.message_data {
        Gdl90DatalinkMessage::Heartbeat { .. } => assert!(true),
        _ => assert!(false),
    }
}

#[test]
fn heartbeat_fields() {
    let parsed = read_raw(b"\x7E\x00\x81\x41\xDB\xD0\x08\x02\xB3\x8B\x7E").unwrap();
    match parsed.message_data {
        Gdl90DatalinkMessage::Heartbeat { status_byte_1, status_byte_2, uat_timestamp, message_counts } => {
            // 0x81: bits 0 and 7
            assert!(status_byte_1.uat_initialized());
            assert!(status_byte_1.gps_pos_valid());
            assert!(!status_byte_1.maint_reqd());
            assert!(!status_byte_1.ident());
            // 0x41: bits 0 and 6
            assert!(status_byte_2.utc_ok());
            assert!(status_byte_2.csa_requested());
            assert!(!status_byte_2.timestamp_msb());
            assert_eq!(uat_timestamp, 0xD0DB);
            assert_eq!(message_counts, 0x0208);
        }
        _ => panic!("Expected Heartbeat message"),
    }
}

#[test]
fn geometric_altitude_fields() {
    let parsed = read_raw(&[126, 11, 0, 202, 0, 12, 251, 136, 126]).unwrap();
    assert_eq!(parsed.frame_check_seq, 0x88FB);
    match parsed.message_data {
        Gdl90DatalinkMessage::OwnshipGeoometricAltitude { ownship_geo_altitude, vertical_metrics } => {
            // 0xCA00 is -13824 units of 5 ft
            assert_eq!(ownship_geo_altitude, -69120);
            assert_eq!(vertical_metrics.vertical_figure_of_merit(), Vfom::Available(0x0C00));
            assert!(!vertical_metrics.vertical_warning_indicator());
        }
        _ => panic!("Expected OwnshipGeoometricAltitude message"),
    }
}

#[test]
fn unknown_message_id_is_not_an_error() {
    let parsed = read_raw(&frame(&[0xFF, 0x01, 0x02])).unwrap();
    assert_eq!(parsed.message_data, Gdl90DatalinkMessage::Unknown);
    let parsed = read_raw(&frame(&[0x42])).unwrap();
    assert_eq!(parsed.message_data, Gdl90DatalinkMessage::Unknown);
}

#[test]
fn short_body_is_a_length_error() {
    assert_eq!(read_raw(&frame(&[0x00, 0x81, 0x41])), Err(FrameError::BodyTooShort));
    assert_eq!(read_raw(&frame(&[0x0A; 27])), Err(FrameError::BodyTooShort));
    assert_eq!(read_raw(&frame(&[])), Err(FrameError::BodyTooShort));
    assert_eq!(decode_message(&[]), Err(FrameError::BodyTooShort));
}

#[test]
fn longer_body_is_accepted() {
    let parsed = read_raw(&frame(&[0x09, 0x34, 0x12, 0xAA, 0xBB])).unwrap();
    assert_eq!(parsed.message_data, Gdl90DatalinkMessage::HeightAboveTerrain { hat: 0x1234 });
}

#[test]
fn basic_and_long_reports() {
    assert_eq!(read_raw(&frame(&[0x1E, 1, 2, 3])).unwrap().message_data, Gdl90DatalinkMessage::BasicReport);
    assert_eq!(read_raw(&frame(&[0x1F])).unwrap().message_data, Gdl90DatalinkMessage::LongReport);
}

#[test]
fn initialization_message() {
    match read_raw(&frame(&[0x02, 0x41, 0x02])).unwrap().message_data {
        Gdl90DatalinkMessage::Initialization { configuration_byte_1, configuration_byte_2 } => {
            assert!(configuration_byte_1.cdti_ok());
            assert!(!configuration_byte_1.audio_inhibit());
            assert!(configuration_byte_1.audio_test());
            assert!(!configuration_byte_2.csa_audio_disable());
            assert!(configuration_byte_2.csa_disable());
        }
        _ => panic!("Expected Initialization message"),
    }
}

#[test]
fn uplink_data_message() {
    let mut body = vec![0x07, 0x01, 0x02, 0x03];
    for i in 0..432u32 {
        body.push((i % 251) as u8);
    }
    match read_raw(&frame(&body)).unwrap().message_data {
        Gdl90DatalinkMessage::UplinkData { time_of_reception, payload } => {
            assert_eq!(time_of_reception, 0x030201);
            assert_eq!(payload.uat_specific_header, [0, 1, 2, 3, 4, 5, 6, 7]);
            assert_eq!(payload.payload[0], 8);
            assert_eq!(payload.payload[423], (431 % 251) as u8);
        }
        _ => panic!("Expected UplinkData message"),
    }
    assert_eq!(read_raw(&frame(&body[..435])), Err(FrameError::BodyTooShort));
}

#[test]
fn checksum_mismatch_reports_both_values() {
    let data = b"\x7E\x00\x81\x41\xDB\xD0\x08\x02\xFF\xFF\x7E";
    assert_eq!(
        read_raw(data),
        Err(FrameError::ChecksumMismatch { transmitted: 0xFFFF, computed: 0x8BB3 })
    );
}

#[test]
fn bytes_before_the_start_flag_are_skipped() {
    let mut data = vec![0x01, 0x02, 0x03];
    data.extend_from_slice(b"\x7E\x00\x81\x41\xDB\xD0\x08\x02\xB3\x8B\x7E");
    data.extend_from_slice(&[0x7E, 0x99]);
    let parsed: Gdl90Message = read_raw(&data).unwrap();
    assert_eq!(parsed.frame_check_seq, 0x8bb3);
}

#[test]
fn framing_errors() {
    assert_eq!(read_raw(&[]), Err(FrameError::MissingStartFlag));
    assert_eq!(read_raw(&[0x00, 0x81]), Err(FrameError::MissingStartFlag));
    assert_eq!(read_raw(&[0x7E, 0x00, 0x81]), Err(FrameError::MissingEndFlag));
    assert_eq!(read_raw(&[0x7E, 0x00, 0x7D, 0x7E]), Err(FrameError::TruncatedEscape));
    assert_eq!(read_raw(&[0x7E, 0x7E]), Err(FrameError::MissingFrameCheck));
    assert_eq!(read_raw(&[0x7E, 0x00, 0x7E]), Err(FrameError::MissingFrameCheck));
}

#[test]
fn escaped_frame_check_sequence() {
    // a body whose checksum holds a stuffed byte
    let mut found = false;
    for id in 0x20..=0xFFu8 {
        let body = [id, 0x00];
        let crc = gdl90_crc(&body);
        if (crc & 0xFF) as u8 == 0x7E || (crc & 0xFF) as u8 == 0x7D || (crc >> 8) as u8 == 0x7E || (crc >> 8) as u8 == 0x7D {
            let (b, fcs) = decode_frame(&frame(&body)).unwrap();
            assert_eq!(b, body.to_vec());
            assert_eq!(fcs, crc);
            found = true;
        }
    }
    assert!(found);
}

#[test]
fn unstuffing() {
    assert_eq!(remove_escapes(vec![0x01, 0x7D, 0x5E, 0x02, 0x7D, 0x5D]), Some(vec![0x01, 0x7E, 0x02, 0x7D]));
    assert_eq!(remove_escapes(vec![0x7D, 0x41]), Some(vec![0x61]));
    assert_eq!(remove_escapes(vec![]), Some(vec![]));
    assert_eq!(remove_escapes(vec![0x01, 0x7D]), None);
}

#[test]
fn stuffing_round_trip() {
    let original: Vec<u8> = (0..=255u8).collect();
    let framed = frame(&original);
    let inner = framed[1..framed.len() - 1].to_vec();
    assert!(!inner.contains(&0x7E));
    let mut unstuffed = remove_escapes(inner.clone()).unwrap();
    unstuffed.truncate(256);
    assert_eq!(unstuffed, original);
    let (body, _) = decode_frame(&framed).unwrap();
    assert_eq!(body, original);
}

#[test]
fn crc_of_heartbeat_body() {
    assert_eq!(gdl90_crc(&[0x00, 0x81, 0x41, 0xDB, 0xD0, 0x08, 0x02]), 0x8BB3);
    assert_eq!(gdl90_crc(&[]), 0);
    assert_eq!(gdl90_crc(&[0x0B, 0x00, 0xCA, 0x00, 0x0C]), 0x88FB);
}
