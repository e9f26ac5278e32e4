use ccs811::sim::{SimBus, SimDelay, SimPin, SimTransaction};
use ccs811::{
    AlgorithmResult, App, Boot, Ccs811, Error, InterruptMode, MeasurementMode, PollError,
    SlaveAddr,
};

const DEV_ADDR: u8 = 0x5A;
const REG_STATUS: u8 = 0x00;
const REG_MEAS_MODE: u8 = 0x01;
const REG_ALG_RESULT_DATA: u8 = 0x02;
const REG_RAW_DATA: u8 = 0x03;
const REG_ENV_DATA: u8 = 0x05;
const REG_THRESHOLDS: u8 = 0x10;
const REG_BASELINE: u8 = 0x11;
const REG_APP_START: u8 = 0xF4;
const REG_SW_RESET: u8 = 0xFF;
const BF_DATA_READY: u8 = 1 << 3;
const BF_APP_VALID: u8 = 1 << 4;
const BF_INTERRUPT: u8 = 1 << 3;
const BF_THRESH: u8 = 1 << 2;

fn new(transactions: Vec<SimTransaction>) -> Ccs811<SimBus, SimPin, SimDelay, Boot> {
    Ccs811::new(SimBus::new(transactions), SlaveAddr::default(), SimPin::new(), SimDelay::new())
}

fn destroy<MODE>(sensor: Ccs811<SimBus, SimPin, SimDelay, MODE>) {
    let (bus, pin, _delay) = sensor.destroy();
    assert!(bus.done());
    assert!(!pin.is_active());
}

fn start_app_transactions() -> Vec<SimTransaction> {
    vec![
        SimTransaction::write_read(DEV_ADDR, REG_STATUS, vec![BF_APP_VALID]),
        SimTransaction::write(DEV_ADDR, vec![REG_APP_START]),
        SimTransaction::write_read(DEV_ADDR, REG_STATUS, vec![0]),
    ]
}

fn new_app(mut transactions: Vec<SimTransaction>) -> Ccs811<SimBus, SimPin, SimDelay, App> {
    let mut all = start_app_transactions();
    all.append(&mut transactions);
    new(all).start_application().ok().unwrap()
}

fn set_register_transactions(reg: u8, value: u8) -> Vec<SimTransaction> {
    vec![
        SimTransaction::write(DEV_ADDR, vec![reg, value]),
        SimTransaction::write_read(DEV_ADDR, REG_STATUS, vec![0]),
    ]
}

#[test]
fn can_set_mode_0() {
    let mut sensor = new_app(set_register_transactions(REG_MEAS_MODE, 0));
    sensor.set_mode(MeasurementMode::Idle).unwrap();
    destroy(sensor);
}

#[test]
fn can_set_mode_1() {
    let mut sensor = new_app(set_register_transactions(REG_MEAS_MODE, 1 << 4));
    sensor.set_mode(MeasurementMode::ConstantPower1s).unwrap();
    destroy(sensor);
}

#[test]
fn can_set_mode_2() {
    let mut sensor = new_app(set_register_transactions(REG_MEAS_MODE, 2 << 4));
    sensor.set_mode(MeasurementMode::PulseHeating10s).unwrap();
    destroy(sensor);
}

#[test]
fn can_set_mode_3() {
    let mut sensor = new_app(set_register_transactions(REG_MEAS_MODE, 3 << 4));
    sensor.set_mode(MeasurementMode::LowPowerPulseHeating60s).unwrap();
    destroy(sensor);
}

#[test]
fn can_set_mode_4() {
    let mut sensor = new_app(set_register_transactions(REG_MEAS_MODE, 4 << 4));
    sensor.set_mode(MeasurementMode::ConstantPower250ms).unwrap();
    destroy(sensor);
}

#[test]
fn set_mode_keeps_configured_interrupt_bits() {
    let mut transactions = set_register_transactions(REG_MEAS_MODE, BF_INTERRUPT | BF_THRESH);
    transactions.append(&mut set_register_transactions(
        REG_MEAS_MODE,
        (1 << 4) | BF_INTERRUPT | BF_THRESH,
    ));
    let mut sensor = new_app(transactions);
    sensor.set_interrupt_mode(InterruptMode::OnThresholdCrossed).unwrap();
    sensor.set_mode(MeasurementMode::ConstantPower1s).unwrap();
    destroy(sensor);
}

#[test]
fn set_interrupt_mode_keeps_configured_sample_rate_bits() {
    let mut transactions = set_register_transactions(REG_MEAS_MODE, 2 << 4);
    transactions.append(&mut set_register_transactions(REG_MEAS_MODE, (2 << 4) | BF_INTERRUPT));
    let mut sensor = new_app(transactions);
    sensor.set_mode(MeasurementMode::PulseHeating10s).unwrap();
    sensor.set_interrupt_mode(InterruptMode::OnDataReady).unwrap();
    destroy(sensor);
}

#[test]
fn has_data_ready() {
    let mut sensor = new_app(vec![SimTransaction::write_read(
        DEV_ADDR,
        REG_STATUS,
        vec![BF_DATA_READY],
    )]);
    assert_eq!(true, sensor.has_data_ready().unwrap());
    destroy(sensor);
}

#[test]
fn has_no_data_ready() {
    let mut sensor = new_app(vec![SimTransaction::write_read(DEV_ADDR, REG_STATUS, vec![0])]);
    assert_eq!(false, sensor.has_data_ready().unwrap());
    destroy(sensor);
}

#[test]
fn can_read_raw_data() {
    let mut sensor = new_app(vec![
        SimTransaction::write_read(DEV_ADDR, REG_RAW_DATA, vec![0x34, 0x52]),
        SimTransaction::write_read(DEV_ADDR, REG_STATUS, vec![0]),
    ]);
    assert_eq!((0x50 >> 2, 0x234), sensor.raw_data().unwrap());
    destroy(sensor);
}

#[test]
fn can_read_alg_result_data() {
    let mut sensor = new_app(vec![
        SimTransaction::write_read(DEV_ADDR, REG_ALG_RESULT_DATA, vec![0, 0, 0, 0, 0, 0, 0, 0]),
        SimTransaction::write_read(
            DEV_ADDR,
            REG_ALG_RESULT_DATA,
            vec![0x12, 0x34, 0x56, 0x78, BF_DATA_READY, 0, 0x91, 0x52],
        ),
    ]);
    let expected = AlgorithmResult {
        eco2: 0x1234,
        etvoc: 0x5678,
        raw_current: 0x50 >> 2,
        raw_voltage: 0x291,
    };
    match sensor.data() {
        Err(PollError::WouldBlock) => (),
        _ => panic!("Error not returned."),
    }
    assert_eq!(expected, sensor.data().unwrap());
    destroy(sensor);
}

#[test]
fn data_reports_device_error() {
    let mut sensor = new_app(vec![SimTransaction::write_read(
        DEV_ADDR,
        REG_ALG_RESULT_DATA,
        vec![0, 0, 0, 0, 1, 1 << 4, 0, 0],
    )]);
    match sensor.data() {
        Err(PollError::Other(Error::Device(errors))) => {
            assert!(errors.heater_fault);
            assert!(!errors.invalid_register_write);
            assert!(!errors.invalid_register_read);
            assert!(!errors.invalid_measurement);
            assert!(!errors.max_resistance);
            assert!(!errors.heater_supply);
        }
        _ => panic!("Wrong result"),
    }
    destroy(sensor);
}

#[test]
fn can_read_baseline() {
    let mut sensor = new_app(vec![
        SimTransaction::write_read(DEV_ADDR, REG_BASELINE, vec![0x34, 0x52]),
        SimTransaction::write_read(DEV_ADDR, REG_STATUS, vec![0]),
    ]);
    let data = sensor.baseline().unwrap();
    assert_eq!([0x34, 0x52], data);
    destroy(sensor);
}

#[test]
fn can_set_baseline() {
    let mut sensor = new_app(vec![
        SimTransaction::write(DEV_ADDR, vec![REG_BASELINE, 0x34, 0x52]),
        SimTransaction::write_read(DEV_ADDR, REG_STATUS, vec![0]),
    ]);
    sensor.set_baseline([0x34, 0x52]).unwrap();
    destroy(sensor);
}

#[test]
fn cannot_set_negative_humidity() {
    let mut sensor = new_app(vec![]);
    match sensor.set_environment(-512, 0) {
        Err(Error::InvalidInputData) => (),
        _ => panic!("Error not returned."),
    }
    destroy(sensor);
}

#[test]
fn cannot_set_too_high_humidity() {
    let mut sensor = new_app(vec![]);
    match sensor.set_environment(51251, 0) {
        Err(Error::InvalidInputData) => (),
        _ => panic!("Error not returned."),
    }
    destroy(sensor);
}

#[test]
fn cannot_set_too_high_temp() {
    let mut sensor = new_app(vec![]);
    match sensor.set_environment(0, 130560) {
        Err(Error::InvalidInputData) => (),
        _ => panic!("Error not returned."),
    }
    destroy(sensor);
}

#[test]
fn can_set_environment_params() {
    let mut sensor = new_app(vec![
        SimTransaction::write(DEV_ADDR, vec![REG_ENV_DATA, 0x60, 0x80, 0x64, 0x40]),
        SimTransaction::write_read(DEV_ADDR, REG_STATUS, vec![0]),
    ]);
    sensor.set_environment(24704, 12864).unwrap();
    destroy(sensor);
}

#[test]
fn can_set_environment_boundary_values() {
    let mut sensor = new_app(vec![
        SimTransaction::write(DEV_ADDR, vec![REG_ENV_DATA, 0xC8, 0x00, 0xFF, 0xFF]),
        SimTransaction::write_read(DEV_ADDR, REG_STATUS, vec![0]),
    ]);
    sensor.set_environment(51200, 130559).unwrap();
    destroy(sensor);
}

#[test]
fn can_set_thresholds() {
    let mut sensor = new_app(vec![
        SimTransaction::write(DEV_ADDR, vec![REG_THRESHOLDS, 0x05, 0xDC, 0x09, 0xC4]),
        SimTransaction::write_read(DEV_ADDR, REG_STATUS, vec![0]),
    ]);
    sensor.set_eco2_thresholds(1500, 2500).unwrap();
    destroy(sensor);
}

#[test]
fn disable_int() {
    let mut sensor = new_app(set_register_transactions(REG_MEAS_MODE, 0));
    sensor.set_interrupt_mode(InterruptMode::Disabled).unwrap();
    destroy(sensor);
}

#[test]
fn enable_int_data() {
    let mut sensor = new_app(set_register_transactions(REG_MEAS_MODE, BF_INTERRUPT));
    sensor.set_interrupt_mode(InterruptMode::OnDataReady).unwrap();
    destroy(sensor);
}

#[test]
fn en_int_th() {
    let mut sensor = new_app(set_register_transactions(REG_MEAS_MODE, BF_INTERRUPT | BF_THRESH));
    sensor.set_interrupt_mode(InterruptMode::OnThresholdCrossed).unwrap();
    destroy(sensor);
}

#[test]
fn app_mode_can_do_software_reset() {
    let sensor = new_app(vec![
        SimTransaction::write(DEV_ADDR, vec![REG_SW_RESET, 0x11, 0xE5, 0x72, 0x8A]),
        SimTransaction::write_read(DEV_ADDR, REG_STATUS, vec![0]),
    ]);
    let sensor = sensor.software_reset().ok().unwrap();
    destroy(sensor);
}

#[test]
fn unexpected_transaction_surfaces_as_bus_error() {
    let mut sensor = new_app(vec![SimTransaction::write(DEV_ADDR, vec![REG_BASELINE, 0, 0])]);
    match sensor.set_baseline([0x34, 0x52]) {
        Err(Error::I2C(_)) => (),
        _ => panic!("Wrong result"),
    }
    let (_bus, pin, _delay) = sensor.destroy();
    assert!(!pin.is_active());
}
