use gdl90::types::report::{
    AddressType, Altitude, CallSignType, Cord, EmergencyPriorityCodeCategory, EmmiterCategory,
    MiscIndicator, Report, TrafficAlert, Velocity, VelocityType,
};

/// Degrees of a coordinate: 2^23 semicircle units make 180 degrees.
fn degrees(c: Cord) -> f32 {
    (c.semicircles as f32) * (180.0 / (1 << 23) as f32)
}

#[test]
fn callsign_works() {
    let data = u64::to_be(0x4e38323556202020);
    assert_eq!(CallSignType::from_bytes(data).tail_number, "N825V");
}

#[test]
fn latitude_works() {
    assert_eq!(degrees(Cord::from_bytes(0x000000)), 0.0);
    assert_eq!(degrees(Cord::from_bytes(0x000020)), 45.0);
    assert_eq!(degrees(Cord::from_bytes(0x0000E0)), -45.0);
    assert_eq!(degrees(Cord::from_bytes(0x000040)), 90.0);
    assert_eq!(degrees(Cord::from_bytes(0x000080)), -180.0);
}

#[test]
fn vertical() {
    // 01 b0 07 -> will get reversed to 07 b0 01 -> horizontal = 07b, vertical = 001
    assert_eq!(
        Velocity::from_bytes(0x01b_007),
        Velocity {
            h_vel: VelocityType::Horizontal(123),
            v_vel: VelocityType::Vertical(64)
        }
    );
    assert_eq!(
        Velocity::from_bytes(0),
        Velocity {
            h_vel: VelocityType::Horizontal(0),
            v_vel: VelocityType::Vertical(0)
        }
    );
    // 01 00 00 -> will get reversed to 00 00 01 -> horizontal = 010, vertical = 000
    assert_eq!(
        Velocity::from_bytes(0x01_00_00),
        Velocity {
            h_vel: VelocityType::Horizontal(0),
            v_vel: VelocityType::Vertical(64)
        }
    );
    // FF 0F 00 -> will get reversed to 00 0F FF -> horizontal = 000, vertical = FFF
    assert_eq!(
        Velocity::from_bytes(0xFF_0F_00),
        Velocity {
            h_vel: VelocityType::Horizontal(0),
            v_vel: VelocityType::Vertical(-64)
        }
    );
    // FE 01 00 -> will get reversed to 00 01 FE -> horizontal = 000, vertical = 1FE
    assert_eq!(
        Velocity::from_bytes(0xFE_01_00),
        Velocity {
            h_vel: VelocityType::Horizontal(0),
            v_vel: VelocityType::Vertical(32640)
        }
    );
    // 03 0E 00 -> will get reversed to 00 0E 03 -> horizontal = 000, vertical = E03
    assert_eq!(
        Velocity::from_bytes(0x03_0E_00),
        Velocity {
            h_vel: VelocityType::Horizontal(0),
            v_vel: VelocityType::Vertical(-32576)
        }
    );
    // 02 0E 00 -> will get reversed to 00 0E 02 -> horizontal = 000, vertical = E02
    assert_eq!(
        Velocity::from_bytes(0x02_0E_00),
        Velocity {
            h_vel: VelocityType::Horizontal(0),
            v_vel: VelocityType::Vertical(-32640)
        }
    );
    // 00 08 00 -> will get reversed to 00 08 00 -> horizontal = 000, vertical = 800
    assert_eq!(
        Velocity::from_bytes(0x00_08_00),
        Velocity {
            h_vel: VelocityType::Horizontal(0),
            v_vel: VelocityType::Unavailable
        }
    )
}

#[test]
fn horizontal() {
    // FF F0 00 in wire order: horizontal = FFF, vertical = 000
    assert_eq!(Velocity::from_bytes(0x00_F0_FF).h_vel, VelocityType::Unavailable);
    // FF E0 00: horizontal = FFE
    assert_eq!(Velocity::from_bytes(0x00_E0_FF).h_vel, VelocityType::Horizontal(0xFFE));
    // 00 10 00: horizontal = 001
    assert_eq!(Velocity::from_bytes(0x00_10_00).h_vel, VelocityType::Horizontal(1));
}

#[test]
fn vertical_reserved_ranges() {
    // vertical patterns 1FF..=7FF and 801..=E01 carry no rate
    for raw in [0x1FFu32, 0x400, 0x7FF, 0x801, 0xC00, 0xE01] {
        let field = ((raw & 0xFF) << 16) | ((raw >> 8) << 8);
        assert_eq!(Velocity::from_bytes(field).v_vel, VelocityType::Unavailable, "{raw:#x}");
    }
    // the byte above the 24-bit field is ignored
    assert_eq!(Velocity::from_bytes(0xAA01_b007), Velocity::from_bytes(0x01b_007));
}

#[test]
fn altitude_codec() {
    // raw 0x08C = 140 units of 25 ft above -1000 ft
    assert_eq!(Altitude::from_bytes(0xC908), Altitude::Valid(2500));
    assert_eq!(Altitude::from_bytes(0x0000), Altitude::Valid(-1000));
    // raw 0xFFE is the highest valid altitude
    assert_eq!(Altitude::from_bytes(0xEFFF), Altitude::Valid(0xFFE * 25 - 1000));
}

#[test]
fn altitude_sentinel() {
    // raw 12-bit pattern 0xFFF, whatever the miscellaneous bits hold
    assert_eq!(Altitude::from_bytes(0xF0FF), Altitude::InvalidOrUnknown);
    assert_eq!(Altitude::from_bytes(0xFFFF), Altitude::InvalidOrUnknown);
    // scaled 0xFFF (4095 ft) is an ordinary altitude: raw 0xC1F
    assert_eq!(Altitude::from_bytes(0xF0C1), Altitude::Valid(0xC1F * 25 - 1000));
}

#[test]
fn coordinate_range() {
    assert_eq!(Cord::from_bytes(0xFFFF7F).semicircles, 0x7FFFFF);
    assert_eq!(Cord::from_bytes(0xFFFFFF).semicircles, -1);
    assert_eq!(Cord::from_bytes(0x000080).semicircles, -0x800000);
    assert_eq!(Cord::from_bytes(0xAB000020), Cord::from_bytes(0x000020));
}

#[test]
fn call_sign_fallback_and_trimming() {
    // "Stratux" followed by a NUL byte keeps the NUL
    let stratux = u64::from_le_bytes(*b"Stratux\0");
    assert_eq!(CallSignType::from_bytes(stratux).tail_number, "Stratux\0");
    // only trailing spaces go
    let spaced = u64::from_le_bytes(*b" AB C   ");
    assert_eq!(CallSignType::from_bytes(spaced).tail_number, " AB C");
    assert_eq!(CallSignType::from_bytes(u64::from_le_bytes(*b"        ")).tail_number, "");
    // a byte outside ASCII gives the placeholder
    let bad = u64::from_le_bytes([0x4E, 0xC3, 0xA9, 0x20, 0x20, 0x20, 0x20, 0x20]);
    assert_eq!(CallSignType::from_bytes(bad).tail_number, "invalid_call_sign");
}

#[test]
fn misc_indicator_codec() {
    assert_eq!(MiscIndicator::from_bytes(0b1000), MiscIndicator::TrackHeadingNotValid);
    assert_eq!(MiscIndicator::from_bytes(0b0001), MiscIndicator::TrackHeadingTrueTrackAngle);
    assert_eq!(MiscIndicator::from_bytes(0b0110), MiscIndicator::TrackHeadingMagnetic);
    assert_eq!(MiscIndicator::from_bytes(0b1111), MiscIndicator::TrackHeadingTrue);
}

#[test]
fn category_codecs() {
    assert_eq!(TrafficAlert::from_bytes(0), TrafficAlert::NoTraffic);
    assert_eq!(TrafficAlert::from_bytes(1), TrafficAlert::TrafficAlert);
    assert_eq!(TrafficAlert::from_bytes(0xF), TrafficAlert::Reserved13);
    assert_eq!(AddressType::from_bytes(5), AddressType::GroundStationBeacon);
    assert_eq!(AddressType::from_bytes(0x15), AddressType::GroundStationBeacon);
    assert_eq!(AddressType::from_bytes(6), AddressType::Reserved0);
    assert_eq!(EmmiterCategory::from_bytes(1), Some(EmmiterCategory::Light));
    assert_eq!(EmmiterCategory::from_bytes(7), Some(EmmiterCategory::Rotorcraft));
    assert_eq!(EmmiterCategory::from_bytes(39), Some(EmmiterCategory::Reserved17));
    assert_eq!(EmmiterCategory::from_bytes(40), None);
    assert_eq!(EmergencyPriorityCodeCategory::from_bytes(6), EmergencyPriorityCodeCategory::DownedAircraft);
    assert_eq!(EmergencyPriorityCodeCategory::from_bytes(15), EmergencyPriorityCodeCategory::Reserved8);
}

#[test]
fn report_fields() {
    let bytes: [u8; 27] = [
        0x21, 0x56, 0x34, 0x12, 0x15, 0xA7, 0xE5, 0xBA, 0x47, 0x99, 0x08, 0xC9, 0x88, 0x01, 0xB0,
        0x07, 0x80, 0x01, 0x4E, 0x31, 0x32, 0x33, 0x34, 0x35, 0x20, 0x20, 0x53,
    ];
    let report = Report::from_bytes(bytes);
    assert_eq!(report.traffic_alert_status(), TrafficAlert::TrafficAlert);
    assert_eq!(report.address_type(), AddressType::TISBWithICAOAddress);
    assert_eq!(report.participant_address(), 0x123456);
    assert_eq!(report.latitude().semicircles, 0x15A7E5);
    assert_eq!(report.longitude().semicircles, 0xBA4799 - 0x1000000);
    assert_eq!(report.altitude(), Altitude::Valid(2500));
    assert_eq!(report.nacp(), 8);
    assert_eq!(report.nic(), 8);
    assert_eq!(
        report.velocity(),
        Velocity { h_vel: VelocityType::Horizontal(0x01B), v_vel: VelocityType::Vertical(7 * 64) }
    );
    assert_eq!(report.track_heading(), 0x80);
    assert_eq!(report.emmiter_cattegory(), Some(EmmiterCategory::Light));
    assert_eq!(report.call_sign().tail_number, "N12345");
    assert_eq!(report.emergency_priority_code(), EmergencyPriorityCodeCategory::MinimumFuel);
    assert_eq!(report.reserved(), 5);
    assert_eq!(Report::from_slice(&bytes), report);
}
