use heat_control::ds18b20::{decode_scratchpad, DS18B20, MeasureResolution};
use heat_control::onewire::Device;

#[test]
fn decode_round_trip_raw_400_at_12_bit() {
    // raw = 0x0190 = 400, divisor 16 -> 25 in the reading's unit.
    let scratchpad = [0x90, 0x01, 0x00, 0x00, 0x7F, 0x00, 0x00, 0x00];
    assert_eq!(decode_scratchpad(&scratchpad), Some(25));
}

#[test]
fn decode_divides_per_resolution() {
    // raw = 0x0190 = 400 under each resolution's divisor.
    assert_eq!(decode_scratchpad(&[0x90, 0x01, 0, 0, 0x1F, 0, 0, 0]), Some(200));
    assert_eq!(decode_scratchpad(&[0x90, 0x01, 0, 0, 0x3F, 0, 0, 0]), Some(100));
    assert_eq!(decode_scratchpad(&[0x90, 0x01, 0, 0, 0x5F, 0, 0, 0]), Some(50));
    assert_eq!(decode_scratchpad(&[0x90, 0x01, 0, 0, 0x7F, 0, 0, 0]), Some(25));
}

#[test]
fn decode_negative_reading_rounds_toward_zero() {
    // raw = 0xFF60 = -160; divided by 16 gives -10.
    assert_eq!(decode_scratchpad(&[0x60, 0xFF, 0, 0, 0x7F, 0, 0, 0]), Some(-10));
    // raw = 0xFFF1 = -15; truncating division by 16 gives 0.
    assert_eq!(decode_scratchpad(&[0xF1, 0xFF, 0, 0, 0x7F, 0, 0, 0]), Some(0));
}

#[test]
fn decode_rejects_all_ones_for_every_resolution() {
    for config in [0x1Fu8, 0x3F, 0x5F, 0x7F] {
        let scratchpad = [0xFF, 0xFF, 0x00, 0x00, config, 0x00, 0x00, 0x00];
        assert_eq!(decode_scratchpad(&scratchpad), None);
    }
}

#[test]
fn decode_rejects_unknown_resolution_byte() {
    let scratchpad = [0x90, 0x01, 0x00, 0x00, 0x55, 0x00, 0x00, 0x00];
    assert_eq!(decode_scratchpad(&scratchpad), None);
}

#[test]
fn resolution_from_config_byte() {
    assert_eq!(MeasureResolution::try_from(0x1F), Ok(MeasureResolution::Bit09));
    assert_eq!(MeasureResolution::try_from(0x3F), Ok(MeasureResolution::Bit10));
    assert_eq!(MeasureResolution::try_from(0x5F), Ok(MeasureResolution::Bit11));
    assert_eq!(MeasureResolution::try_from(0x7F), Ok(MeasureResolution::Bit12));
    assert_eq!(MeasureResolution::try_from(0x00), Err(()));
    assert_eq!(MeasureResolution::try_from(0xFF), Err(()));
}

#[test]
fn resolution_round_trips_through_its_config_byte() {
    for res in [
        MeasureResolution::Bit09,
        MeasureResolution::Bit10,
        MeasureResolution::Bit11,
        MeasureResolution::Bit12,
    ] {
        assert_eq!(MeasureResolution::try_from(res.config_byte()), Ok(res));
    }
}

#[test]
fn conversion_times() {
    assert_eq!(MeasureResolution::Bit09.conversion_time(), 94);
    assert_eq!(MeasureResolution::Bit10.conversion_time(), 188);
    assert_eq!(MeasureResolution::Bit11.conversion_time(), 375);
    assert_eq!(MeasureResolution::Bit12.conversion_time(), 750);
}

#[test]
fn divisors() {
    assert_eq!(MeasureResolution::Bit09.divisor(), 2);
    assert_eq!(MeasureResolution::Bit10.divisor(), 4);
    assert_eq!(MeasureResolution::Bit11.divisor(), 8);
    assert_eq!(MeasureResolution::Bit12.divisor(), 16);
}

#[test]
fn sensor_binding_checks_the_family_code() {
    assert_eq!(DS18B20::family_code(), 0x28);

    let good = [0x28u8, 0x01, 0x02, 0x03, 0x04, 0x05, 0x06, 0x9E];
    assert!(DS18B20::new(good).is_ok());
    let wrong_family = [0x10u8, 0x01, 0x02, 0x03, 0x04, 0x05, 0x06, 0x9E];
    assert!(DS18B20::new(wrong_family).is_err());

    assert!(DS18B20::from_device(Device::new(good)).is_ok());
    assert!(DS18B20::from_device(Device::new(wrong_family)).is_err());
}
