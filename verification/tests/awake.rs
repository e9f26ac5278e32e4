//! The already-awake driver type, used without a wake pin.

use ccs811::sim::{SimBus, SimTransaction};
use ccs811::{AlgorithmResult, Ccs811Awake, ErrorAwake, MeasurementMode, SlaveAddr};

const DEV_ADDR: u8 = 0x5A;
const REG_STATUS: u8 = 0x00;
const REG_MEAS_MODE: u8 = 0x01;
const REG_ALG_RESULT_DATA: u8 = 0x02;
const REG_APP_START: u8 = 0xF4;
const BF_DATA_READY: u8 = 1 << 3;
const BF_APP_VALID: u8 = 1 << 4;

#[test]
fn awake_can_create_and_destroy() {
    let sensor = Ccs811Awake::new(SimBus::new(vec![]), SlaveAddr::default());
    let bus = sensor.destroy();
    assert!(bus.done());
}

#[test]
fn awake_can_start_app_and_measure() {
    let transactions = vec![
        SimTransaction::write_read(DEV_ADDR, REG_STATUS, vec![BF_APP_VALID]),
        SimTransaction::write(DEV_ADDR, vec![REG_APP_START]),
        SimTransaction::write_read(DEV_ADDR, REG_STATUS, vec![0]),
        SimTransaction::write(DEV_ADDR, vec![REG_MEAS_MODE, 1 << 4]),
        SimTransaction::write_read(DEV_ADDR, REG_STATUS, vec![0]),
        SimTransaction::write_read(
            DEV_ADDR,
            REG_ALG_RESULT_DATA,
            vec![0x01, 0xF4, 0x00, 0x64, BF_DATA_READY, 0, 0x91, 0x52],
        ),
    ];
    let sensor = Ccs811Awake::new(SimBus::new(transactions), SlaveAddr::default());
    let mut sensor = sensor.start_application().ok().unwrap();
    sensor.set_mode(MeasurementMode::ConstantPower1s).unwrap();
    let expected = AlgorithmResult {
        eco2: 500,
        etvoc: 100,
        raw_current: 0x14,
        raw_voltage: 0x291,
    };
    assert_eq!(expected, sensor.data().ok().unwrap());
    let bus = sensor.destroy();
    assert!(bus.done());
}

#[test]
fn awake_start_app_without_valid_app_fails() {
    let transactions = vec![SimTransaction::write_read(DEV_ADDR, REG_STATUS, vec![0])];
    let sensor = Ccs811Awake::new(SimBus::new(transactions), SlaveAddr::default());
    let result = match sensor.start_application() {
        Err(result) => result,
        Ok(_) => panic!("Should not have started the application"),
    };
    match result.error {
        ErrorAwake::NoValidApp => (),
        _ => panic!("Invalid error"),
    }
    let bus = result.dev.destroy();
    assert!(bus.done());
}

#[test]
fn decode_error_id_flags() {
    assert!(ccs811::get_errors(0).is_ok());
    let errors = match ccs811::get_errors(0b10_0001) {
        Err(errors) => errors,
        Ok(()) => panic!("Wrong result"),
    };
    assert!(errors.invalid_register_write);
    assert!(errors.heater_supply);
    assert!(!errors.invalid_register_read);
    assert!(!errors.invalid_measurement);
    assert!(!errors.max_resistance);
    assert!(!errors.heater_fault);
}
