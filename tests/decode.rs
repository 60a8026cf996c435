use max31855::calibrate::{calibrate_reference, calibrate_thermocouple, Units};
use max31855::driver::{measurement_from_frame, thermocouple_from_frame, Max31855Error};
use max31855::frame::{convert, decode, frame_to_word, to_i16, Convert, SensorType};

fn frame(w: u32) -> [u8; 4] {
    [(w >> 24) as u8, (w >> 16) as u8, (w >> 8) as u8, w as u8]
}

#[test]
fn word_is_big_endian() {
    assert_eq!(frame_to_word([0x12, 0x34, 0x56, 0x78]), 0x1234_5678);
    assert_eq!(frame_to_word([0x00, 0x00, 0x00, 0x01]), 1);
    assert_eq!(frame_to_word([0x80, 0x00, 0x00, 0x00]), 0x8000_0000);
}

#[test]
fn positive_frame_reads_25_celsius() {
    let b = [0x01, 0x90, 0x01, 0x80];
    let raw = decode(b);
    assert_eq!(raw.temperature, 100);
    assert_eq!(raw.cold_reference, 24);
    assert!(!raw.fault && !raw.scv && !raw.scg && !raw.oc);
    assert_eq!(thermocouple_from_frame(b, Units::Celsius), Ok(250000));
    let m = measurement_from_frame(b, Units::Celsius).unwrap();
    assert_eq!(m.temperature, 250000);
    assert_eq!(m.cold_reference, 24 * 625);
    assert!(!m.fault);
}

#[test]
fn short_to_ground_is_reported() {
    let b = frame(0x1234_0000 | (1 << 16) | (1 << 1) | 0x0150);
    assert_eq!(
        thermocouple_from_frame(b, Units::Celsius),
        Err(Max31855Error { scvfault: false, scgfault: true, ocfault: false })
    );
    assert!(measurement_from_frame(b, Units::Kelvin).is_err());
}

#[test]
fn every_fault_flag_is_carried() {
    let b = frame((1 << 16) | 0b111);
    assert_eq!(
        thermocouple_from_frame(b, Units::Count),
        Err(Max31855Error { scvfault: true, scgfault: true, ocfault: true })
    );
    let only_open = frame(1 << 16 | 1);
    assert_eq!(
        thermocouple_from_frame(only_open, Units::Count),
        Err(Max31855Error { scvfault: false, scgfault: false, ocfault: true })
    );
}

#[test]
fn specific_fault_bit_without_roll_up_is_no_fault() {
    let b = frame(1 << 2);
    let raw = decode(b);
    assert!(!raw.fault && raw.scv && !raw.scg && !raw.oc);
    assert_eq!(thermocouple_from_frame(b, Units::Celsius), Ok(0));
    let m = measurement_from_frame(frame(0x0190_0181), Units::Celsius).unwrap();
    assert_eq!(m.temperature, 250000);
    assert!(!m.fault && m.oc);
}

#[test]
fn roll_up_bit_alone_is_a_fault() {
    let b = frame(1 << 16);
    assert_eq!(
        thermocouple_from_frame(b, Units::Celsius),
        Err(Max31855Error { scvfault: false, scgfault: false, ocfault: false })
    );
}

#[test]
fn clear_fault_bits_never_fault() {
    for w in [0u32, 1, 7, 0xfffe_ffff, 0x0190_0180, 0x8000_0000, 0x7ffc_fff0] {
        assert!(thermocouple_from_frame(frame(w), Units::Fahrenheit).is_ok());
    }
}

#[test]
fn most_negative_hot_field() {
    let b = frame(0x2000 << 18);
    let raw = decode(b);
    assert_eq!(raw.temperature, -8192);
    assert_eq!(thermocouple_from_frame(b, Units::Celsius), Ok(-8192 * 2500));
    assert_eq!(to_i16(0x2000, SensorType::HotRefJunction), -8192);
}

#[test]
fn negative_fields_sign_extend() {
    assert_eq!(to_i16(0x3fff, SensorType::HotRefJunction), -1);
    assert_eq!(to_i16(0x1fff, SensorType::HotRefJunction), 8191);
    assert_eq!(to_i16(0x0fff, SensorType::ColdRefJunction), -1);
    assert_eq!(to_i16(0x0800, SensorType::ColdRefJunction), -2048);
    assert_eq!(to_i16(0x07ff, SensorType::ColdRefJunction), 2047);
    assert_eq!(convert(0x3ffc, Convert { bit_num: 13, divisor: 4, bit_shift: 2 }), -4);
    assert_eq!(convert(0x0ff0, Convert { bit_num: 11, divisor: 16, bit_shift: 4 }), -16);
    assert_eq!(decode(frame(0x3fff << 18)).temperature, -1);
}

#[test]
fn sign_extension_round_trip() {
    for v in -8192i32..8192 {
        let field = v.rem_euclid(16384) as u16;
        assert_eq!(to_i16(field, SensorType::HotRefJunction) as i32, v);
    }
    for v in -2048i32..2048 {
        let field = v.rem_euclid(4096) as u16;
        assert_eq!(to_i16(field, SensorType::ColdRefJunction) as i32, v);
    }
}

#[test]
fn calibration_table() {
    assert_eq!(calibrate_thermocouple(100, Units::Count), 1_000_000);
    assert_eq!(calibrate_thermocouple(100, Units::Celsius), 250_000);
    assert_eq!(calibrate_thermocouple(100, Units::Fahrenheit), 770_000);
    assert_eq!(calibrate_thermocouple(100, Units::Kelvin), 2_981_500);
    assert_eq!(calibrate_reference(16, Units::Count), 160_000);
    assert_eq!(calibrate_reference(16, Units::Celsius), 10_000);
    assert_eq!(calibrate_reference(16, Units::Fahrenheit), 338_000);
    assert_eq!(calibrate_reference(16, Units::Kelvin), 2_741_500);
    assert_eq!(calibrate_thermocouple(i16::MIN, Units::Kelvin), -32768 * 2500 + 2_731_500);
    assert_eq!(calibrate_reference(i16::MAX, Units::Fahrenheit), 32767 * 1125 + 320_000);
}

#[test]
fn calibration_is_pure() {
    for c in [-8192i16, -1, 0, 1, 100, 8191] {
        for u in [Units::Count, Units::Celsius, Units::Fahrenheit, Units::Kelvin] {
            assert_eq!(calibrate_thermocouple(c, u), calibrate_thermocouple(c, u));
            assert_eq!(calibrate_reference(c, u), calibrate_reference(c, u));
        }
    }
}

#[test]
fn units_are_consistent() {
    for c in [-8192i16, -3, 0, 7, 100, 8191] {
        let hc = calibrate_thermocouple(c, Units::Celsius) as i64;
        let hf = calibrate_thermocouple(c, Units::Fahrenheit) as i64;
        let hk = calibrate_thermocouple(c, Units::Kelvin) as i64;
        assert_eq!(5 * (hf - 320_000), 9 * hc);
        assert_eq!(hk, hc + 2_731_500);
        let cc = calibrate_reference(c, Units::Celsius) as i64;
        let cf = calibrate_reference(c, Units::Fahrenheit) as i64;
        let ck = calibrate_reference(c, Units::Kelvin) as i64;
        assert_eq!(5 * (cf - 320_000), 9 * cc);
        assert_eq!(ck, cc + 2_731_500);
    }
}

#[test]
fn convert_any_width() {
    let byte = Convert { bit_num: 7, divisor: 256, bit_shift: 8 };
    assert_eq!(convert(0x80, byte), -128);
    assert_eq!(convert(0xff, byte), -1);
    assert_eq!(convert(0x7f, byte), 127);
    let two = Convert { bit_num: 1, divisor: 16384, bit_shift: 14 };
    assert_eq!(convert(0b10, two), -2);
    assert_eq!(convert(0b01, two), 1);
    let fifteen = Convert { bit_num: 14, divisor: 2, bit_shift: 1 };
    assert_eq!(convert(0x4000, fifteen), -16384);
    assert_eq!(convert(0x3fff, fifteen), 16383);
}

#[test]
fn wide_fields_do_not_panic() {
    for v in [0x4000u16, 0x8000, 0xffff, 0x1000] {
        to_i16(v, SensorType::HotRefJunction);
        to_i16(v, SensorType::ColdRefJunction);
    }
    assert_eq!(to_i16(0x1000, SensorType::ColdRefJunction), 0x1000);
}
