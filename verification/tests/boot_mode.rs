use ccs811::sim::{SimBus, SimDelay, SimPin, SimTransaction};
use ccs811::{ActionInProgress, Boot, Ccs811, Error, PollError, SlaveAddr};

const DEV_ADDR: u8 = 0x5A;
const REG_STATUS: u8 = 0x00;
const REG_BOOT_APP: u8 = 0xF2;
const REG_APP_ERASE: u8 = 0xF1;
const REG_APP_VERIFY: u8 = 0xF3;
const REG_APP_START: u8 = 0xF4;
const REG_SW_RESET: u8 = 0xFF;
const BF_APP_VALID: u8 = 1 << 4;
const BF_APP_VERIFY: u8 = 1 << 5;
const BF_APP_ERASE: u8 = 1 << 6;

fn new(transactions: Vec<SimTransaction>) -> Ccs811<SimBus, SimPin, SimDelay, Boot> {
    Ccs811::new(SimBus::new(transactions), SlaveAddr::default(), SimPin::new(), SimDelay::new())
}

fn destroy<MODE>(sensor: Ccs811<SimBus, SimPin, SimDelay, MODE>) {
    let (bus, pin, _delay) = sensor.destroy();
    assert!(bus.done());
    assert!(!pin.is_active());
}

#[test]
fn can_start_app_mode() {
    let transactions = vec![
        SimTransaction::write_read(DEV_ADDR, REG_STATUS, vec![BF_APP_VALID]),
        SimTransaction::write(DEV_ADDR, vec![REG_APP_START]),
        SimTransaction::write_read(DEV_ADDR, REG_STATUS, vec![0]),
    ];
    let sensor = new(transactions);
    let sensor = sensor.start_application().ok().unwrap();
    destroy(sensor);
}

#[test]
fn cannot_start_app_mode_invalid_app() {
    let transactions = vec![SimTransaction::write_read(DEV_ADDR, REG_STATUS, vec![0])];
    let sensor = new(transactions);
    let result = match sensor.start_application() {
        Err(result) => result,
        Ok(_) => panic!("Should not have started the application"),
    };
    match result.error {
        Error::NoValidApp => (),
        _ => panic!("Invalid error"),
    }
    destroy(result.dev);
}

#[test]
fn start_app_mode_failure_leaves_device_usable() {
    let transactions = vec![
        SimTransaction::write_read(DEV_ADDR, REG_STATUS, vec![0]),
        SimTransaction::write_read(DEV_ADDR, REG_STATUS, vec![BF_APP_VALID]),
    ];
    let sensor = new(transactions);
    let result = match sensor.start_application() {
        Err(result) => result,
        Ok(_) => panic!("Should not have started the application"),
    };
    match result.error {
        Error::NoValidApp => (),
        _ => panic!("Invalid error"),
    }
    let mut sensor = result.dev;
    assert_eq!(true, sensor.has_valid_app().unwrap());
    destroy(sensor);
}

#[test]
fn can_verify_app() {
    let transactions = vec![
        SimTransaction::write_read(DEV_ADDR, REG_STATUS, vec![0]),
        SimTransaction::write(DEV_ADDR, vec![REG_APP_VERIFY]),
        SimTransaction::write_read(DEV_ADDR, REG_STATUS, vec![0]),
        SimTransaction::write_read(DEV_ADDR, REG_STATUS, vec![BF_APP_VERIFY]),
    ];
    let mut sensor = new(transactions);
    sensor
        .verify_application()
        .expect_err("Should have returned PollError::WouldBlock");
    sensor
        .verify_application()
        .expect_err("Should have returned PollError::WouldBlock");
    sensor.verify_application().unwrap();
    destroy(sensor);
}

#[test]
fn can_erase_app() {
    let transactions = vec![
        SimTransaction::write_read(DEV_ADDR, REG_STATUS, vec![0]),
        SimTransaction::write(DEV_ADDR, vec![REG_APP_ERASE, 0xE7, 0xA7, 0xE6, 0x09]),
        SimTransaction::write_read(DEV_ADDR, REG_STATUS, vec![0]),
        SimTransaction::write_read(DEV_ADDR, REG_STATUS, vec![BF_APP_ERASE]),
    ];
    let mut sensor = new(transactions);
    sensor
        .erase_application()
        .expect_err("Should have returned PollError::WouldBlock");
    sensor
        .erase_application()
        .expect_err("Should have returned PollError::WouldBlock");
    sensor.erase_application().unwrap();
    destroy(sensor);
}

#[test]
fn erase_polling_tracks_pending_action() {
    let transactions = vec![
        SimTransaction::write_read(DEV_ADDR, REG_STATUS, vec![0]),
        SimTransaction::write(DEV_ADDR, vec![REG_APP_ERASE, 0xE7, 0xA7, 0xE6, 0x09]),
        SimTransaction::write_read(DEV_ADDR, REG_STATUS, vec![0]),
        SimTransaction::write_read(DEV_ADDR, REG_STATUS, vec![BF_APP_ERASE]),
    ];
    let mut sensor = new(transactions);
    assert_eq!(ActionInProgress::Idle, sensor.pending_action());
    assert!(matches!(sensor.erase_application(), Err(PollError::WouldBlock)));
    assert_eq!(ActionInProgress::Erasing, sensor.pending_action());
    assert!(matches!(sensor.erase_application(), Err(PollError::WouldBlock)));
    assert_eq!(ActionInProgress::Erasing, sensor.pending_action());
    assert!(matches!(sensor.erase_application(), Ok(())));
    assert_eq!(ActionInProgress::Idle, sensor.pending_action());
    destroy(sensor);
}

#[test]
fn cannot_download_wrong_size_app() {
    let mut sensor = new(vec![]);
    match sensor.download_application(&vec![0, 1, 2, 3, 4, 5, 6, 7, 8], &mut SimDelay::new()) {
        Err(Error::InvalidInputData) => (),
        _ => panic!("Error not returned."),
    }
    destroy(sensor);
}

#[test]
fn can_download_app() {
    let transactions = vec![
        SimTransaction::write(DEV_ADDR, vec![REG_BOOT_APP, 0, 1, 2, 3, 4, 5, 6, 7]),
        SimTransaction::write(DEV_ADDR, vec![REG_BOOT_APP, 8, 9, 10, 11, 12, 13, 14, 15]),
        SimTransaction::write_read(DEV_ADDR, REG_STATUS, vec![0]),
    ];
    let mut sensor = new(transactions);
    sensor
        .download_application(
            &vec![0, 1, 2, 3, 4, 5, 6, 7, 8, 9, 10, 11, 12, 13, 14, 15],
            &mut SimDelay::new(),
        )
        .unwrap();
    destroy(sensor);
}

#[test]
fn can_update_app() {
    let transactions = vec![
        SimTransaction::write(DEV_ADDR, vec![REG_SW_RESET, 0x11, 0xE5, 0x72, 0x8A]),
        SimTransaction::write_read(DEV_ADDR, REG_STATUS, vec![0]),
        SimTransaction::write_read(DEV_ADDR, REG_STATUS, vec![0]),
        SimTransaction::write(DEV_ADDR, vec![REG_APP_ERASE, 0xE7, 0xA7, 0xE6, 0x09]),
        SimTransaction::write_read(DEV_ADDR, REG_STATUS, vec![0]),
        SimTransaction::write_read(DEV_ADDR, REG_STATUS, vec![BF_APP_ERASE]),
        SimTransaction::write(DEV_ADDR, vec![REG_BOOT_APP, 0, 1, 2, 3, 4, 5, 6, 7]),
        SimTransaction::write(DEV_ADDR, vec![REG_BOOT_APP, 8, 9, 10, 11, 12, 13, 14, 15]),
        SimTransaction::write_read(DEV_ADDR, REG_STATUS, vec![0]),
        SimTransaction::write_read(DEV_ADDR, REG_STATUS, vec![0]),
        SimTransaction::write(DEV_ADDR, vec![REG_APP_VERIFY]),
        SimTransaction::write_read(DEV_ADDR, REG_STATUS, vec![0]),
        SimTransaction::write_read(DEV_ADDR, REG_STATUS, vec![BF_APP_VERIFY]),
    ];
    let mut sensor = new(transactions);
    sensor
        .update_application(
            &vec![0, 1, 2, 3, 4, 5, 6, 7, 8, 9, 10, 11, 12, 13, 14, 15],
            &mut SimDelay::new(),
        )
        .unwrap();
    destroy(sensor);
}

#[test]
fn boot_mode_can_do_software_reset() {
    let transactions = vec![
        SimTransaction::write(DEV_ADDR, vec![REG_SW_RESET, 0x11, 0xE5, 0x72, 0x8A]),
        SimTransaction::write_read(DEV_ADDR, REG_STATUS, vec![0]),
    ];
    let mut sensor = new(transactions);
    sensor.software_reset().unwrap();
    destroy(sensor);
}

#[test]
fn a_pending_verification_does_not_stop_an_erase_trigger() {
    let transactions = vec![
        SimTransaction::write_read(DEV_ADDR, REG_STATUS, vec![0]),
        SimTransaction::write(DEV_ADDR, vec![REG_APP_VERIFY]),
        SimTransaction::write_read(DEV_ADDR, REG_STATUS, vec![0]),
        SimTransaction::write(DEV_ADDR, vec![REG_APP_ERASE, 0xE7, 0xA7, 0xE6, 0x09]),
    ];
    let mut sensor = new(transactions);
    assert!(matches!(sensor.verify_application(), Err(PollError::WouldBlock)));
    assert_eq!(ActionInProgress::Verifying, sensor.pending_action());
    assert!(matches!(sensor.erase_application(), Err(PollError::WouldBlock)));
    assert_eq!(ActionInProgress::Erasing, sensor.pending_action());
    destroy(sensor);
}

#[test]
fn update_app_aborts_on_device_error() {
    const REG_ERROR_ID: u8 = 0xE0;
    let transactions = vec![
        SimTransaction::write(DEV_ADDR, vec![REG_SW_RESET, 0x11, 0xE5, 0x72, 0x8A]),
        SimTransaction::write_read(DEV_ADDR, REG_STATUS, vec![0]),
        SimTransaction::write_read(DEV_ADDR, REG_STATUS, vec![1]),
        SimTransaction::write_read(DEV_ADDR, REG_ERROR_ID, vec![1 << 4]),
    ];
    let mut sensor = new(transactions);
    match sensor.update_application(&vec![0, 1, 2, 3, 4, 5, 6, 7], &mut SimDelay::new()) {
        Err(PollError::Other(Error::Device(errors))) => assert!(errors.heater_fault),
        _ => panic!("Wrong result"),
    }
    destroy(sensor);
}
