use ccs811::sim::{SimBus, SimDelay, SimPin, SimTransaction};
use ccs811::{Boot, Ccs811, FirmwareMode, SlaveAddr};

const DEV_ADDR: u8 = 0x5A;
const REG_STATUS: u8 = 0x00;
const REG_HW_ID: u8 = 0x20;
const REG_HW_VERSION: u8 = 0x21;
const REG_FW_BOOT_VERSION: u8 = 0x23;
const REG_FW_APP_VERSION: u8 = 0x24;
const BF_APP_VALID: u8 = 1 << 4;
const BF_FW_MODE: u8 = 1 << 7;

fn new(transactions: Vec<SimTransaction>) -> Ccs811<SimBus, SimPin, SimDelay, Boot> {
    Ccs811::new(SimBus::new(transactions), SlaveAddr::default(), SimPin::new(), SimDelay::new())
}

fn destroy<MODE>(sensor: Ccs811<SimBus, SimPin, SimDelay, MODE>) {
    let (bus, pin, _delay) = sensor.destroy();
    assert!(bus.done());
    assert!(!pin.is_active());
}

#[test]
fn can_create_and_destroy() {
    let sensor = new(vec![]);
    destroy(sensor);
}

#[test]
fn can_get_hw_id() {
    let transactions = vec![
        SimTransaction::write_read(DEV_ADDR, REG_HW_ID, vec![0x81]),
        SimTransaction::write_read(DEV_ADDR, REG_STATUS, vec![0]),
    ];
    let mut sensor = new(transactions);
    assert_eq!(0x81, sensor.hardware_id().unwrap());
    destroy(sensor);
}

#[test]
fn can_get_hw_version() {
    let transactions = vec![
        SimTransaction::write_read(DEV_ADDR, REG_HW_VERSION, vec![0x12]),
        SimTransaction::write_read(DEV_ADDR, REG_STATUS, vec![0]),
    ];
    let mut sensor = new(transactions);
    assert_eq!((1, 2), sensor.hardware_version().unwrap());
    destroy(sensor);
}

#[test]
fn can_get_fw_boot_version() {
    let transactions = vec![
        SimTransaction::write_read(DEV_ADDR, REG_FW_BOOT_VERSION, vec![0x12, 0x34]),
        SimTransaction::write_read(DEV_ADDR, REG_STATUS, vec![0]),
    ];
    let mut sensor = new(transactions);
    assert_eq!((1, 2, 0x34), sensor.firmware_bootloader_version().unwrap());
    destroy(sensor);
}

#[test]
fn can_get_fw_app_version() {
    let transactions = vec![
        SimTransaction::write_read(DEV_ADDR, REG_FW_APP_VERSION, vec![0x12, 0x34]),
        SimTransaction::write_read(DEV_ADDR, REG_STATUS, vec![0]),
    ];
    let mut sensor = new(transactions);
    assert_eq!((1, 2, 0x34), sensor.firmware_application_version().unwrap());
    destroy(sensor);
}

#[test]
fn can_get_invalid_app() {
    let transactions = vec![SimTransaction::write_read(DEV_ADDR, REG_STATUS, vec![0])];
    let mut sensor = new(transactions);
    assert_eq!(false, sensor.has_valid_app().unwrap());
    destroy(sensor);
}

#[test]
fn can_get_valid_app() {
    let transactions = vec![SimTransaction::write_read(DEV_ADDR, REG_STATUS, vec![BF_APP_VALID])];
    let mut sensor = new(transactions);
    assert_eq!(true, sensor.has_valid_app().unwrap());
    destroy(sensor);
}

#[test]
fn fw_mode_boot() {
    let transactions = vec![SimTransaction::write_read(DEV_ADDR, REG_STATUS, vec![0])];
    let mut sensor = new(transactions);
    assert_eq!(FirmwareMode::Boot, sensor.firmware_mode().unwrap());
    destroy(sensor);
}

#[test]
fn fw_mode_app() {
    let transactions = vec![SimTransaction::write_read(DEV_ADDR, REG_STATUS, vec![BF_FW_MODE])];
    let mut sensor = new(transactions);
    assert_eq!(FirmwareMode::Application, sensor.firmware_mode().unwrap());
    destroy(sensor);
}

#[test]
fn alternative_address_is_used_on_the_bus() {
    let transactions = vec![
        SimTransaction::write_read(0x5B, REG_HW_ID, vec![0x81]),
        SimTransaction::write_read(0x5B, REG_STATUS, vec![0]),
    ];
    let mut sensor = Ccs811::new(
        SimBus::new(transactions),
        SlaveAddr::Alternative(true),
        SimPin::new(),
        SimDelay::new(),
    );
    assert_eq!(0x81, sensor.hardware_id().unwrap());
    destroy(sensor);
}
