use usb_scale::error::ScaleError;
use usb_scale::parser::{parse_input_stream, status_from_byte, unit_from_byte, weight_from_bytes};
use usb_scale::reader::{ReadRetry, ReadStep, DATA_SIZE, RECONNECT_ATTEMPTS};
use usb_scale::vendors::{fairbanks_scb_900_scale, VendorInfo};
use usb_scale::weight::{Weight, WeightUnit};
use usb_scale::{ScaleReading, ScaleStatus};

#[test]
fn parse_scale_data_test() {
    // Requires Taring
    let requires_taring_parsed = parse_input_stream([3, 8, 12, 254, 0, 0]).unwrap();
    let requires_taring_reading = ScaleReading {
        report_id: 3,
        status: ScaleStatus::RequiresTaring,
        data_scaling: 254,
        weight: None,
    };

    assert_eq!(requires_taring_parsed, requires_taring_reading);

    // Stable with zero weight
    let stable_zero_pounds_parsed = parse_input_stream([3, 4, 12, 254, 0, 0]).unwrap();
    let stable_zero_pounds_reading = ScaleReading {
        report_id: 3,
        status: ScaleStatus::Stable,
        data_scaling: 254,
        weight: Some(Weight::from_pounds(0)),
    };

    assert_eq!(stable_zero_pounds_parsed, stable_zero_pounds_reading);

    // In Motion 0.35lbs
    let in_motion_pounds_parsed = parse_input_stream([3, 3, 12, 254, 35, 0]).unwrap();
    let in_motion_pounds_reading = ScaleReading {
        report_id: 3,
        status: ScaleStatus::InMotion,
        data_scaling: 254,
        weight: Some(Weight::from_pounds(35_000_000)),
    };

    assert_eq!(in_motion_pounds_parsed, in_motion_pounds_reading);

    // Stable 0.14kg
    let stable_kilograms_parsed = parse_input_stream([3, 4, 3, 254, 14, 0]).unwrap();
    let stable_kilograms_reading = ScaleReading {
        report_id: 3,
        status: ScaleStatus::Stable,
        data_scaling: 254,
        weight: Some(Weight::from_kilograms(14_000_000)),
    };

    assert_eq!(stable_kilograms_parsed, stable_kilograms_reading);
}

#[test]
fn unknown_unit_byte_is_a_parse_error() {
    assert!(matches!(parse_input_stream([3, 4, 99, 254, 0, 0]), Err(ScaleError::ParseError)));
    assert!(matches!(parse_input_stream([3, 8, 0, 254, 0, 0]), Err(ScaleError::ParseError)));
}

#[test]
fn status_byte_table() {
    assert_eq!(status_from_byte(0), ScaleStatus::Stable);
    assert_eq!(status_from_byte(2), ScaleStatus::Stable);
    assert_eq!(status_from_byte(4), ScaleStatus::Stable);
    assert_eq!(status_from_byte(1), ScaleStatus::Fault);
    assert_eq!(status_from_byte(3), ScaleStatus::InMotion);
    assert_eq!(status_from_byte(5), ScaleStatus::UnderZero);
    assert_eq!(status_from_byte(6), ScaleStatus::OverWeight);
    assert_eq!(status_from_byte(7), ScaleStatus::RequiresCalibration);
    assert_eq!(status_from_byte(8), ScaleStatus::RequiresTaring);
    for b in 9..=255u8 {
        assert_eq!(status_from_byte(b), ScaleStatus::Fault);
    }
}

#[test]
fn unit_byte_table() {
    assert!(matches!(unit_from_byte(3), Ok(WeightUnit::Kilograms)));
    assert!(matches!(unit_from_byte(11), Ok(WeightUnit::Ounces)));
    assert!(matches!(unit_from_byte(12), Ok(WeightUnit::Pounds)));
    for b in 0..=255u8 {
        if b != 3 && b != 11 && b != 12 {
            assert!(matches!(unit_from_byte(b), Err(ScaleError::ParseError)));
        }
    }
}

#[test]
fn weight_present_unless_disqualified() {
    for status in 0..=255u8 {
        let reading = parse_input_stream([1, status, 12, 0, 7, 1]).unwrap();
        let disqualified = matches!(
            reading.status,
            ScaleStatus::UnderZero
                | ScaleStatus::NotConnected
                | ScaleStatus::RequiresCalibration
                | ScaleStatus::RequiresTaring
        );
        assert_eq!(reading.weight.is_some(), !disqualified);
    }
}

#[test]
fn fixed_point_weight_decode() {
    let w = weight_from_bytes(35, 0, 12).unwrap();
    assert_eq!(w.value, 35_000_000);
    assert_eq!(w.unit, WeightUnit::Pounds);
    let w = weight_from_bytes(0, 1, 11).unwrap();
    assert_eq!(w.value, 256_000_000);
    assert_eq!(w.unit, WeightUnit::Ounces);
    let w = weight_from_bytes(255, 255, 3).unwrap();
    assert_eq!(w.value, 65_535_000_000);
    assert!(matches!(weight_from_bytes(1, 1, 1), Err(ScaleError::ParseError)));
}

#[test]
fn status_predicates() {
    assert!(ScaleStatus::Stable.is_valid());
    assert!(ScaleStatus::InMotion.is_valid());
    assert!(ScaleStatus::OverWeight.is_valid());
    assert!(ScaleStatus::NotConnected.is_valid());
    assert!(!ScaleStatus::Fault.is_valid());
    assert!(!ScaleStatus::UnderZero.is_valid());
    assert!(ScaleStatus::UnderZero.needs_calibration());
    assert!(ScaleStatus::RequiresCalibration.needs_calibration());
    assert!(ScaleStatus::RequiresTaring.needs_calibration());
    assert!(!ScaleStatus::Fault.needs_calibration());
    assert!(!ScaleStatus::Stable.needs_calibration());
}

#[test]
fn reading_and_status_text() {
    assert_eq!(ScaleStatus::InMotion.to_string(), "In Motion");
    assert_eq!(ScaleStatus::RequiresTaring.to_string(), "Requires Taring");
    let reading = parse_input_stream([3, 3, 12, 254, 35, 0]).unwrap();
    assert_eq!(reading.to_string(), "In Motion - 0.35lbs");
    let reading = parse_input_stream([3, 8, 12, 254, 0, 0]).unwrap();
    assert_eq!(reading.to_string(), "Requires Taring - No Reading");
}

#[test]
fn error_text() {
    assert_eq!(ScaleError::ReadError.to_string(), "Failed to read scale data!");
    assert_eq!(ScaleError::ParseError.to_string(), "Error parsing data from scale!");
    assert!(ScaleError::ReadError.source().is_none());
    assert!(ScaleError::ParseError.source().is_none());
}

#[test]
fn read_gives_up_after_retry_budget() {
    let mut retry = ReadRetry::new();
    let buf = [3u8, 4, 12, 254, 35, 0];
    for i in 0..RECONNECT_ATTEMPTS {
        let read = if i % 2 == 0 { None } else { Some(i % DATA_SIZE) };
        match retry.on_read(read, &buf) {
            ReadStep::Retry => assert!(i + 1 < RECONNECT_ATTEMPTS),
            ReadStep::Done(result) => {
                assert_eq!(i + 1, RECONNECT_ATTEMPTS);
                assert!(matches!(result, Err(ScaleError::ReadError)));
            }
        }
    }
    assert_eq!(retry.attempts(), RECONNECT_ATTEMPTS);
}

#[test]
fn read_decodes_first_full_report() {
    let mut retry = ReadRetry::new();
    let buf = [3u8, 4, 12, 254, 35, 0];
    assert!(matches!(retry.on_read(None, &buf), ReadStep::Retry));
    assert!(matches!(retry.on_read(Some(5), &buf), ReadStep::Retry));
    match retry.on_read(Some(DATA_SIZE), &buf) {
        ReadStep::Done(Ok(reading)) => {
            assert_eq!(reading.status, ScaleStatus::Stable);
            assert_eq!(reading.weight.unwrap().value, 35_000_000);
        }
        _ => panic!("expected a decoded reading"),
    }
    assert_eq!(retry.attempts(), 3);
}

#[test]
fn read_passes_on_parse_error() {
    let mut retry = ReadRetry::new();
    let buf = [3u8, 4, 99, 254, 0, 0];
    assert!(matches!(retry.on_read(Some(DATA_SIZE), &buf), ReadStep::Done(Err(ScaleError::ParseError))));
}

#[test]
fn vendor_info_construction() {
    let v = VendorInfo::new(0x0B67, 0x555E);
    assert_eq!(v, fairbanks_scb_900_scale());
    assert_eq!(v.vendor_id, 0x0B67);
    assert_eq!(v.product_id, 0x555E);
}
