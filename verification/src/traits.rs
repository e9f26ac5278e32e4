//! The device-information interface available in both firmware modes, as a
//! trait over the two driver types.

use vstd::prelude::*;

use crate::bus::{extends, BusOp, Delay, I2cBus, WakePin};
use crate::register_access::{
    op_read1, status_check_passed, status_query_transcript, FLAG_APP_VALID, FLAG_FW_MODE,
    REG_HW_ID,
};
use crate::types::FirmwareMode;
use crate::{Ccs811, Ccs811Awake, Sealed};

verus! {

/// General device-information methods, available in boot and in application
/// mode alike.
///
/// Every method performs exactly one register query on the bus, followed by
/// the standard status-error check; the ghost transcript of that query is
/// part of each method's contract.
pub trait Ccs811Device: Sealed + Sized {
    /// Error type of the concrete driver.
    type Error;

    /// The 7-bit bus address the driver talks to.
    spec fn device_address(&self) -> u8;

    /// The ghost history of transactions performed on the device's bus.
    spec fn device_ops(&self) -> Seq<BusOp>;

    /// Get the firmware mode.
    fn firmware_mode(&mut self) -> (r: Result<FirmwareMode, Self::Error>)
        ensures
            final(self).device_address() == old(self).device_address(),
            extends(old(self).device_ops(), final(self).device_ops()),
            r matches Ok(mode) ==> status_query_transcript(
                old(self).device_address(),
                old(self).device_ops(),
                final(self).device_ops(),
                FLAG_FW_MODE,
                mode is Application,
            ),
    ;

    /// Check if a valid application firmware is loaded.
    fn has_valid_app(&mut self) -> (r: Result<bool, Self::Error>)
        ensures
            final(self).device_address() == old(self).device_address(),
            extends(old(self).device_ops(), final(self).device_ops()),
            r matches Ok(valid) ==> status_query_transcript(
                old(self).device_address(),
                old(self).device_ops(),
                final(self).device_ops(),
                FLAG_APP_VALID,
                valid,
            ),
    ;

    /// Get the hardware ID (0x81 for the CCS81x family of devices).
    fn hardware_id(&mut self) -> (r: Result<u8, Self::Error>)
        ensures
            final(self).device_address() == old(self).device_address(),
            extends(old(self).device_ops(), final(self).device_ops()),
            r matches Ok(id) ==> status_check_passed(
                old(self).device_address(),
                old(self).device_ops().push(
                    op_read1(old(self).device_address(), REG_HW_ID, id),
                ),
                final(self).device_ops(),
            ),
    ;

    /// Get the hardware version as a (major, minor) pair.
    fn hardware_version(&mut self) -> (r: Result<(u8, u8), Self::Error>)
        ensures
            final(self).device_address() == old(self).device_address(),
            extends(old(self).device_ops(), final(self).device_ops()),
    ;

    /// Get the firmware bootloader version as (major, minor, trivial).
    fn firmware_bootloader_version(&mut self) -> (r: Result<(u8, u8, u8), Self::Error>)
        ensures
            final(self).device_address() == old(self).device_address(),
            extends(old(self).device_ops(), final(self).device_ops()),
    ;

    /// Get the firmware application version as (major, minor, trivial).
    fn firmware_application_version(&mut self) -> (r: Result<(u8, u8, u8), Self::Error>)
        ensures
            final(self).device_address() == old(self).device_address(),
            extends(old(self).device_ops(), final(self).device_ops()),
    ;
}

impl<I2C: I2cBus, MODE> Ccs811Device for Ccs811Awake<I2C, MODE> {
    type Error = crate::types::ErrorAwake<I2C::BusError>;

    open spec fn device_address(&self) -> u8 {
        self.spec_address()
    }

    open spec fn device_ops(&self) -> Seq<BusOp> {
        self.ops()
    }

    fn firmware_mode(&mut self) -> (r: Result<FirmwareMode, Self::Error>) {
        self.firmware_mode()
    }

    fn has_valid_app(&mut self) -> (r: Result<bool, Self::Error>) {
        self.has_valid_app()
    }

    fn hardware_id(&mut self) -> (r: Result<u8, Self::Error>) {
        self.hardware_id()
    }

    fn hardware_version(&mut self) -> (r: Result<(u8, u8), Self::Error>) {
        self.hardware_version()
    }

    fn firmware_bootloader_version(&mut self) -> (r: Result<(u8, u8, u8), Self::Error>) {
        self.firmware_bootloader_version()
    }

    fn firmware_application_version(&mut self) -> (r: Result<(u8, u8, u8), Self::Error>) {
        self.firmware_application_version()
    }
}

impl<I2C: I2cBus, NWAKE: WakePin, WAKEDELAY: Delay, MODE> Ccs811Device for Ccs811<
    I2C,
    NWAKE,
    WAKEDELAY,
    MODE,
> {
    type Error = crate::types::Error<I2C::BusError, NWAKE::PinError>;

    open spec fn device_address(&self) -> u8 {
        self.spec_address()
    }

    open spec fn device_ops(&self) -> Seq<BusOp> {
        self.ops()
    }

    fn firmware_mode(&mut self) -> (r: Result<FirmwareMode, Self::Error>) {
        self.firmware_mode()
    }

    fn has_valid_app(&mut self) -> (r: Result<bool, Self::Error>) {
        self.has_valid_app()
    }

    fn hardware_id(&mut self) -> (r: Result<u8, Self::Error>) {
        self.hardware_id()
    }

    fn hardware_version(&mut self) -> (r: Result<(u8, u8), Self::Error>) {
        self.hardware_version()
    }

    fn firmware_bootloader_version(&mut self) -> (r: Result<(u8, u8, u8), Self::Error>) {
        self.firmware_bootloader_version()
    }

    fn firmware_application_version(&mut self) -> (r: Result<(u8, u8, u8), Self::Error>) {
        self.firmware_application_version()
    }
}

} // verus!
