use anyleaf::rtd::{
    resistance, temperature_from_centidegrees, Rtd, RtdConfig, RtdFilterMode, RtdSensorType,
    RtdType, RtdWires, RTD_REFERENCE, RTD_REFERENCE_MAX,
};

#[test]
fn new_detector_has_the_reference_of_the_board() {
    let rtd = Rtd::new(RtdType::Pt100, RtdWires::Three);
    assert_eq!(rtd.type_(), RtdType::Pt100);
    assert_eq!(rtd.wires(), RtdWires::Three);
    assert_eq!(rtd.calibration(), 30_000);
    assert_eq!(RTD_REFERENCE, 30_000);
    assert_eq!(Rtd::new(RtdType::Pt1000, RtdWires::Two).type_(), RtdType::Pt1000);
}

#[test]
fn converter_is_configured_for_the_wiring() {
    let expect = |sensor_type| RtdConfig {
        vbias: true,
        conversion_mode: true,
        one_shot: true,
        sensor_type,
        filter_mode: RtdFilterMode::Filter60Hz,
    };
    assert_eq!(
        Rtd::new(RtdType::Pt100, RtdWires::Two).config(),
        expect(RtdSensorType::TwoOrFourWire)
    );
    assert_eq!(
        Rtd::new(RtdType::Pt100, RtdWires::Three).config(),
        expect(RtdSensorType::ThreeWire)
    );
    assert_eq!(
        Rtd::new(RtdType::Pt100, RtdWires::Four).config(),
        expect(RtdSensorType::TwoOrFourWire)
    );
}

#[test]
fn raw_conversion_is_a_ratio_to_the_reference() {
    assert_eq!(resistance(21_846, 30_000), 10_000);
    assert_eq!(resistance(21_847, 30_000), 10_000);
    assert_eq!(resistance(30_260, 30_000), 13_851);
    assert_eq!(resistance(65_535, 30_000), 29_999);
    assert_eq!(resistance(0, 30_000), 0);
    assert_eq!(resistance(1, 30_000), 0);
    assert_eq!(resistance(65_535, u32::MAX), 4_294_836_223);
}

#[test]
fn hundredths_of_a_degree_become_millionths() {
    assert_eq!(temperature_from_centidegrees(0), 0);
    assert_eq!(temperature_from_centidegrees(2_500), 25_000_000);
    assert_eq!(temperature_from_centidegrees(-24_317), -243_170_000);
    assert_eq!(temperature_from_centidegrees(300_000), i32::MAX);
    assert_eq!(temperature_from_centidegrees(i32::MIN), i32::MIN);
}

#[test]
fn detector_reads_the_temperature_of_a_pt100() {
    let rtd = Rtd::new(RtdType::Pt100, RtdWires::Three);
    assert_eq!(rtd.read(21_846), 0);
    assert_eq!(rtd.read(30_260), 100_000_000);
    assert_eq!(rtd.read(65_535), 557_670_000);
    assert_eq!(rtd.read(0), -243_170_000);
}

#[test]
fn detector_temperature_is_close_to_the_callendar_van_dusen_curve() {
    let rtd = Rtd::new(RtdType::Pt100, RtdWires::Three);
    for celsius in [0.0f64, 12.5, 25.0, 37.0, 60.0, 85.0, 100.0] {
        let ohms = 100.0 * (1.0 + 3.9083e-3 * celsius - 5.775e-7 * celsius * celsius);
        let raw = ((ohms / 300.0 * 32_768.0).round() as u16) << 1;
        let read = rtd.read(raw) as f64 / 1e6;
        assert!((read - celsius).abs() < 0.1, "{} read as {}", celsius, read);
    }
}

#[test]
fn calibration_in_boiling_water() {
    let mut rtd = Rtd::new(RtdType::Pt100, RtdWires::Three);
    assert_eq!(rtd.calibrate(30_258), Some(29_999));
    assert_eq!(rtd.calibration(), 29_999);
    assert_eq!(resistance(30_258, 29_999), 13_850);
    assert_eq!(rtd.calibrate(65_535), Some(13_851));
    assert_eq!(resistance(65_535, 13_851), 13_850);
    assert_eq!(rtd.calibrate(908), Some(999_712));
    assert_eq!(rtd.calibration(), 999_712);
    assert_eq!(resistance(908, 999_712), 13_850);
    assert!(rtd.calibration() <= RTD_REFERENCE_MAX);
}

#[test]
fn calibration_out_of_range_changes_nothing() {
    let mut rtd = Rtd::new(RtdType::Pt100, RtdWires::Four);
    assert_eq!(rtd.calibrate(0), None);
    assert_eq!(rtd.calibrate(1), None);
    assert_eq!(rtd.calibrate(2), None);
    assert_eq!(rtd.calibrate(907), None);
    assert_eq!(rtd.calibration(), 30_000);
    assert_eq!(rtd.wires(), RtdWires::Four);
    assert_eq!(rtd.read(21_846), 0);
}
