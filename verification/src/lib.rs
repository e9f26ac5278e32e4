//! Platform-agnostic driver for the CCS811 digital gas sensor.
//!
//! The sensor sits on an I2C bus and is managed through a small register
//! protocol: a boot phase in which application firmware can be erased,
//! downloaded and verified, and an application phase in which measurement
//! modes are configured and packed result registers are decoded.
//!
//! The driver is generic over the bus transport, the wake pin and the delay
//! provider, which the host platform supplies by implementing the traits in
//! [`bus`]. Every bus transaction the driver issues, and every decoding of
//! the bytes that come back, is specified and verified against the ghost
//! transaction history of the transport.
//!
//! Two device types are provided, depending on how waking is handled:
//! [`Ccs811Awake`] assumes an always-awake device and performs only the I2C
//! communication, while [`Ccs811`] wraps it together with an nWAKE pin and a
//! delay provider and brackets every operation with the wake/sleep sequence.
//! Both types are tagged at the type level with their firmware mode
//! ([`Boot`] or [`App`]), so that boot-only operations (erase, download,
//! verify) and application-only operations (measurement modes, result
//! decoding) are statically inaccessible in the wrong mode.

use core::marker::PhantomData;
use vstd::prelude::*;

pub mod bus;
mod register_access;
mod common_impl;
mod app_mode;
mod boot_mode;
pub mod sim;
mod traits;
pub mod types;

pub use crate::traits::Ccs811Device;

pub use crate::types::{
    AlgorithmResult, DeviceErrors, Error, ErrorAwake, FirmwareMode, InterruptMode, MeasurementMode,
    ModeChangeError, PollError, SlaveAddr,
};

pub use crate::app_mode::{get_raw_environment_data, get_raw_humidity, get_raw_temperature,
    handle_raw_data};
pub use crate::boot_mode::UPDATE_POLL_LIMIT;
pub use crate::register_access::get_errors;

use crate::bus::{BusOp, I2cBus};

verus! {

/// At most one asynchronous device action can be outstanding: an erase or a
/// verification that has been triggered but whose completion bit has not
/// been observed yet.
#[derive(Debug, Clone, Copy, PartialEq, Eq, Structural)]
pub enum ActionInProgress {
    /// No action pending; a polling call will issue a new trigger.
    Idle,
    /// An application verification was triggered and is awaiting completion.
    Verifying,
    /// An application erase was triggered and is awaiting completion.
    Erasing,
}

/// Already-awake CCS811 device driver.
///
/// This can be used when the nWAKE pin is connected directly to GND or when
/// the waking of the device is handled manually instead of using the
/// [`Ccs811`] wrapper type.
#[derive(Debug)]
pub struct Ccs811Awake<I2C, MODE> {
    /// The concrete I2C bus implementation.
    i2c: I2C,
    address: u8,
    meas_mode_reg: u8,
    in_progress: ActionInProgress,
    _mode: PhantomData<MODE>,
}

/// CCS811 device driver with wake-pin handling.
///
/// Convenience wrapper around [`Ccs811Awake`] which drives the nWAKE pin
/// active before each operation and back inactive afterwards, on every exit
/// path. When both the wrapped operation and the pin restore fail, the
/// borrowing operations report the pin error; the mode-changing operations,
/// which must hand the device back inside the error, keep the operation's
/// own error and report a pin failure only when the operation itself had
/// succeeded.
#[derive(Debug)]
pub struct Ccs811<I2C, NWAKE, WAKEDELAY, MODE> {
    dev: Ccs811Awake<I2C, MODE>,
    n_wake_pin: NWAKE,
    wake_delay: WAKEDELAY,
}

/// Boot mode marker.
pub struct Boot(());

/// App mode marker.
pub struct App(());

/// Marker trait for the types this crate hands out; it cannot be
/// implemented outside the crate.
pub trait Sealed {
}

impl Sealed for Boot {

}

impl Sealed for App {

}

impl<I2C, MODE> Sealed for Ccs811Awake<I2C, MODE> {

}

impl<I2C, NWAKE, WAKEDELAY, MODE> Sealed for Ccs811<I2C, NWAKE, WAKEDELAY, MODE> {

}

impl<I2C, MODE> Ccs811Awake<I2C, MODE> {
    /// The 7-bit bus address the driver talks to.
    pub open(crate) spec fn spec_address(&self) -> u8 {
        self.address
    }

    /// The shadow copy of the last written measurement-mode register value.
    pub open(crate) spec fn shadow(&self) -> u8 {
        self.meas_mode_reg
    }

    /// The pending-action marker of the firmware-update state machine.
    pub open(crate) spec fn pending(&self) -> ActionInProgress {
        self.in_progress
    }

    /// The bus transport owned by the driver.
    pub open(crate) spec fn spec_bus(self) -> I2C {
        self.i2c
    }

    /// The pending-action marker of the firmware-update state machine.
    pub fn pending_action(&self) -> (r: ActionInProgress)
        ensures
            r == self.pending(),
    {
        self.in_progress
    }
}

impl<I2C: I2cBus, MODE> Ccs811Awake<I2C, MODE> {
    /// The ghost history of transactions performed on the owned bus.
    pub open(crate) spec fn ops(&self) -> Seq<BusOp> {
        self.i2c.ops()
    }
}

impl<I2C, NWAKE, WAKEDELAY, MODE> Ccs811<I2C, NWAKE, WAKEDELAY, MODE> {
    /// The wrapped awake driver.
    pub open(crate) spec fn spec_dev(self) -> Ccs811Awake<I2C, MODE> {
        self.dev
    }

    /// The wake pin owned by the driver.
    pub open(crate) spec fn spec_pin(self) -> NWAKE {
        self.n_wake_pin
    }

    /// The delay provider owned by the driver.
    pub open(crate) spec fn spec_delay(self) -> WAKEDELAY {
        self.wake_delay
    }

    /// The 7-bit bus address the driver talks to.
    pub open(crate) spec fn spec_address(&self) -> u8 {
        self.dev.spec_address()
    }

    /// The shadow copy of the last written measurement-mode register value.
    pub open(crate) spec fn shadow(&self) -> u8 {
        self.dev.shadow()
    }

    /// The pending-action marker of the firmware-update state machine.
    pub open(crate) spec fn pending(&self) -> ActionInProgress {
        self.dev.pending()
    }

    /// The pending-action marker of the firmware-update state machine.
    pub fn pending_action(&self) -> (r: ActionInProgress)
        ensures
            r == self.pending(),
    {
        self.dev.pending_action()
    }
}

impl<I2C: I2cBus, NWAKE, WAKEDELAY, MODE> Ccs811<I2C, NWAKE, WAKEDELAY, MODE> {
    /// The ghost history of transactions performed on the owned bus.
    pub open(crate) spec fn ops(&self) -> Seq<BusOp> {
        self.dev.ops()
    }
}

} // verus!
