use ccs811::sim::{SimBus, SimDelay, SimPin, SimTransaction};
use ccs811::{Boot, Ccs811, DeviceErrors, Error, SlaveAddr};

const DEV_ADDR: u8 = 0x5A;
const REG_STATUS: u8 = 0x00;
const REG_HW_ID: u8 = 0x20;
const REG_ERROR_ID: u8 = 0xE0;
const BF_ERROR: u8 = 1;
const BF_WRITE_REG_INVALID: u8 = 1;
const BF_READ_REG_INVALID: u8 = 1 << 1;
const BF_MEASMODE_INVALID: u8 = 1 << 2;
const BF_MAX_RESISTANCE: u8 = 1 << 3;
const BF_HEATER_FAULT: u8 = 1 << 4;
const BF_HEATER_SUPPLY: u8 = 1 << 5;

fn new(transactions: Vec<SimTransaction>) -> Ccs811<SimBus, SimPin, SimDelay, Boot> {
    Ccs811::new(SimBus::new(transactions), SlaveAddr::default(), SimPin::new(), SimDelay::new())
}

fn destroy<MODE>(sensor: Ccs811<SimBus, SimPin, SimDelay, MODE>) {
    let (bus, pin, _delay) = sensor.destroy();
    assert!(bus.done());
    assert!(!pin.is_active());
}

fn expect_device_errors(error_id: u8) -> DeviceErrors {
    let transactions = vec![
        SimTransaction::write_read(DEV_ADDR, REG_HW_ID, vec![0x81]),
        SimTransaction::write_read(DEV_ADDR, REG_STATUS, vec![BF_ERROR]),
        SimTransaction::write_read(DEV_ADDR, REG_ERROR_ID, vec![error_id]),
    ];
    let mut sensor = new(transactions);
    let errors = match sensor.hardware_id() {
        Err(Error::Device(errors)) => errors,
        _ => panic!("Wrong result"),
    };
    destroy(sensor);
    errors
}

fn check(errors: DeviceErrors, expected: [bool; 6]) {
    assert_eq!(expected[0], errors.invalid_register_write);
    assert_eq!(expected[1], errors.invalid_register_read);
    assert_eq!(expected[2], errors.invalid_measurement);
    assert_eq!(expected[3], errors.max_resistance);
    assert_eq!(expected[4], errors.heater_fault);
    assert_eq!(expected[5], errors.heater_supply);
}

#[test]
fn invalid_write() {
    check(
        expect_device_errors(BF_WRITE_REG_INVALID),
        [true, false, false, false, false, false],
    );
}

#[test]
fn invalid_read() {
    check(
        expect_device_errors(BF_READ_REG_INVALID),
        [false, true, false, false, false, false],
    );
}

#[test]
fn invalid_measurement() {
    check(
        expect_device_errors(BF_MEASMODE_INVALID),
        [false, false, true, false, false, false],
    );
}

#[test]
fn max_resistence() {
    check(
        expect_device_errors(BF_MAX_RESISTANCE),
        [false, false, false, true, false, false],
    );
}

#[test]
fn heater_fault() {
    check(
        expect_device_errors(BF_HEATER_FAULT),
        [false, false, false, false, true, false],
    );
}

#[test]
fn heater_supply() {
    check(
        expect_device_errors(BF_HEATER_SUPPLY),
        [false, false, false, false, false, true],
    );
}

#[test]
fn heater_supply_and_heater_fault() {
    check(
        expect_device_errors(BF_HEATER_SUPPLY | BF_HEATER_FAULT),
        [false, false, false, false, true, true],
    );
}

#[test]
fn all() {
    check(
        expect_device_errors(
            BF_WRITE_REG_INVALID
                | BF_READ_REG_INVALID
                | BF_MEASMODE_INVALID
                | BF_MAX_RESISTANCE
                | BF_HEATER_SUPPLY
                | BF_HEATER_FAULT,
        ),
        [true, true, true, true, true, true],
    );
}

#[test]
fn status_error_with_clean_error_id_passes_through() {
    let transactions = vec![
        SimTransaction::write_read(DEV_ADDR, REG_HW_ID, vec![0x81]),
        SimTransaction::write_read(DEV_ADDR, REG_STATUS, vec![BF_ERROR]),
        SimTransaction::write_read(DEV_ADDR, REG_ERROR_ID, vec![0]),
    ];
    let mut sensor = new(transactions);
    assert_eq!(0x81, sensor.hardware_id().unwrap());
    destroy(sensor);
}
