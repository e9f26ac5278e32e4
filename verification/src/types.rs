//! Error taxonomy, measurement modes and plain data carried by the driver.

use vstd::prelude::*;

verus! {

/// All possible errors generated when using the wake-pin wrapped [`crate::Ccs811`] type.
#[derive(Debug)]
pub enum Error<CommE, PinE> {
    /// I2C bus error
    I2C(CommE),
    /// nWAKE pin set error
    Pin(PinE),
    /// Errors reported by the device itself.
    ///
    /// Several of the independent fault flags can be set at the same time.
    Device(DeviceErrors),
    /// No valid application firmware is loaded.
    NoValidApp,
    /// Invalid input data provided to a function.
    InvalidInputData,
}

/// All possible errors when using the already-awake [`crate::Ccs811Awake`] type.
#[derive(Debug)]
pub enum ErrorAwake<E> {
    /// I2C bus error
    I2C(E),
    /// Errors reported by the device itself.
    ///
    /// Several of the independent fault flags can be set at the same time.
    Device(DeviceErrors),
    /// No valid application firmware is loaded.
    NoValidApp,
    /// Invalid input data provided to a function.
    InvalidInputData,
}

/// What [`Error::from`] yields for each awake-device error.
pub open spec fn spec_error_from_awake<CommE, PinE>(error: ErrorAwake<CommE>) -> Error<CommE, PinE> {
    match error {
        ErrorAwake::I2C(e) => Error::I2C(e),
        ErrorAwake::Device(e) => Error::Device(e),
        ErrorAwake::NoValidApp => Error::NoValidApp,
        ErrorAwake::InvalidInputData => Error::InvalidInputData,
    }
}

impl<CommE, PinE> From<ErrorAwake<CommE>> for Error<CommE, PinE> {
    fn from(error: ErrorAwake<CommE>) -> (r: Self) {
        match error {
            ErrorAwake::I2C(e) => Error::I2C(e),
            ErrorAwake::Device(e) => Error::Device(e),
            ErrorAwake::NoValidApp => Error::NoValidApp,
            ErrorAwake::InvalidInputData => Error::InvalidInputData,
        }
    }
}

impl<CommE, PinE> vstd::std_specs::convert::FromSpecImpl<ErrorAwake<CommE>> for Error<CommE, PinE> {
    open spec fn obeys_from_spec() -> bool {
        true
    }

    open spec fn from_spec(error: ErrorAwake<CommE>) -> Self {
        spec_error_from_awake(error)
    }
}

/// The non-blocking outcome of a poll-style operation: either not complete
/// yet (poll again later) or failed with a hard error.
#[derive(Debug)]
pub enum PollError<E> {
    /// The operation is not complete yet; call again later.
    WouldBlock,
    /// The operation failed.
    Other(E),
}

/// Errors reported by the device, decoded from the error-id register.
#[derive(Debug, Clone, Copy, PartialEq, Eq, Structural)]
pub struct DeviceErrors {
    /// I2C write to an invalid register reported by device.
    pub invalid_register_write: bool,
    /// I2C read from an invalid register reported by device.
    pub invalid_register_read: bool,
    /// Invalid measurement reported by device.
    pub invalid_measurement: bool,
    /// Sensor resistance measurement reached or exceeded the maximum range.
    pub max_resistance: bool,
    /// Heater current not in range reported by device.
    pub heater_fault: bool,
    /// Heater voltage not applied correctly reported by device.
    pub heater_supply: bool,
}

impl Default for DeviceErrors {
    /// No fault flag set.
    fn default() -> (r: Self)
        ensures
            r == DeviceErrors::none(),
    {
        DeviceErrors {
            invalid_register_write: false,
            invalid_register_read: false,
            invalid_measurement: false,
            max_resistance: false,
            heater_fault: false,
            heater_supply: false,
        }
    }
}

impl DeviceErrors {
    /// The value with no fault flag set.
    pub open spec fn none() -> DeviceErrors {
        DeviceErrors {
            invalid_register_write: false,
            invalid_register_read: false,
            invalid_measurement: false,
            max_resistance: false,
            heater_fault: false,
            heater_supply: false,
        }
    }
}

/// Error type for mode changes.
///
/// This allows the unchanged device to be retrieved in case of an error, so
/// that the caller can retry or fall back.
#[derive(Debug)]
pub struct ModeChangeError<E, DEV> {
    /// Unchanged device.
    pub dev: DEV,
    /// Error that occurred.
    pub error: E,
}

impl<E, DEV> ModeChangeError<E, DEV> {
    pub(crate) fn new(dev: DEV, error: E) -> (r: Self)
        ensures
            r.dev == dev,
            r.error == error,
    {
        ModeChangeError { dev, error }
    }
}

/// Measurement modes.
///
/// NOTE: when changing to a new mode with a lower sample rate, place the
/// device in `Idle` mode for at least 10 minutes before enabling the new mode.
#[derive(Debug, Clone, Copy, PartialEq, Eq, Structural)]
pub enum MeasurementMode {
    /// Idle. Measurements are disabled. (Mode 0)
    Idle,
    /// Constant power mode. IAQ measurement every second. (Mode 1)
    ConstantPower1s,
    /// Pulse heating mode. IAQ measurement every 10 seconds. (Mode 2)
    PulseHeating10s,
    /// Low power pulse heating mode. IAQ measurement every 60 seconds. (Mode 3)
    LowPowerPulseHeating60s,
    /// Constant power mode. IAQ measurement every 250ms. (Mode 4)
    ConstantPower250ms,
}

/// Firmware mode.
#[derive(Debug, Clone, Copy, PartialEq, Eq, Structural)]
pub enum FirmwareMode {
    /// Boot mode. New firmware can be loaded.
    Boot,
    /// Application mode. The device can take measurements.
    Application,
}

/// Interrupt generation modes.
#[derive(Debug, Clone, Copy, PartialEq, Eq, Structural)]
pub enum InterruptMode {
    /// Disable interrupt generation.
    Disabled,
    /// Generate an interrupt every time there is new data ready.
    OnDataReady,
    /// Generate an interrupt if the measurement crosses a threshold by more
    /// than 50 ppm (see `set_eco2_thresholds()`).
    OnThresholdCrossed,
}

/// Algorithm result.
#[derive(Debug, Clone, Copy, PartialEq, Eq, Structural)]
pub struct AlgorithmResult {
    /// eCO2 result in ppm
    pub eco2: u16,
    /// eTVOC result in ppb
    pub etvoc: u16,
    /// Raw sensor current in uA
    pub raw_current: u8,
    /// Raw sensor voltage (1023 = 1.65V)
    pub raw_voltage: u16,
}

/// Possible slave addresses.
#[derive(Debug, Clone, Copy)]
pub enum SlaveAddr {
    /// Default slave address
    Default,
    /// Alternative slave address providing the bit value of the ADDR pin
    Alternative(bool),
}

impl Default for SlaveAddr {
    /// Default slave address.
    fn default() -> (r: Self)
        ensures
            r is Default,
    {
        SlaveAddr::Default
    }
}

impl SlaveAddr {
    /// The 7-bit bus address selected by this address strap value.
    pub open spec fn spec_addr(self) -> u8 {
        match self {
            SlaveAddr::Default => 0x5A,
            SlaveAddr::Alternative(false) => 0x5A,
            SlaveAddr::Alternative(true) => 0x5B,
        }
    }

    /// The 7-bit bus address selected by this address strap value.
    pub fn addr(self) -> (r: u8)
        ensures
            r == self.spec_addr(),
    {
        match self {
            SlaveAddr::Default => 0x5A,
            SlaveAddr::Alternative(false) => 0x5A,
            SlaveAddr::Alternative(true) => 0x5B,
        }
    }
}

} // verus!
