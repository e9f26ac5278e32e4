//! The fixed-point environment encoding and the raw-data decoding, on
//! concrete values. The arguments are given in 1/512 units: 24704 is
//! 48.25 %, 12864 is 25.125 degrees Celsius.

use ccs811::{get_raw_humidity, get_raw_temperature, handle_raw_data};

#[test]
fn convert_humidity() {
    assert_eq!((0, 0), get_raw_humidity(0));
    assert_eq!((0x64, 0), get_raw_humidity(25600));
    assert_eq!((0x61, 0), get_raw_humidity(24832));
    assert_eq!((0x60, 0x80), get_raw_humidity(24704));
    assert_eq!((0x60, 0x40), get_raw_humidity(24640));
    assert_eq!((0x60, 0x20), get_raw_humidity(24608));
    assert_eq!((0x60, 0x10), get_raw_humidity(24592));
    assert_eq!((0x60, 0x08), get_raw_humidity(24584));
    assert_eq!((0x60, 0x04), get_raw_humidity(24580));
    assert_eq!((0x60, 0x02), get_raw_humidity(24578));
    assert_eq!((0x60, 0x01), get_raw_humidity(24577));
    assert_eq!((0x61, 0xFF), get_raw_humidity(25087));
}

#[test]
fn convert_temperature() {
    assert_eq!((0, 0), get_raw_temperature(-13056));
    assert_eq!((0, 0), get_raw_temperature(-12800));
    assert_eq!((0x64, 0), get_raw_temperature(12800));
    assert_eq!((0x61, 0), get_raw_temperature(12032));
}

#[test]
fn convert_raw_data() {
    assert_eq!((0x50 >> 2, 0x234), handle_raw_data(0x34, 0x52));
    assert_eq!((0, 0), handle_raw_data(0, 0));
    assert_eq!((0x3F, 0x3FF), handle_raw_data(0xFF, 0xFF));
}
