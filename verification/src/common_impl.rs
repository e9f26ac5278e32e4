//! Construction and destruction of the two driver types, the wake/sleep
//! bracket of the wrapped driver, and the device-information operations
//! available in both firmware modes.

use core::marker::PhantomData;
use vstd::prelude::*;

use crate::bus::{extends, BusOp, Delay, I2cBus, WakePin};
use crate::register_access::{
    op_read1, op_read2, register_op_err, status_check_passed, status_query_transcript, sw_reset_op,
    FLAG_APP_VALID, FLAG_FW_MODE, REG_FW_APP_VERSION, REG_FW_BOOT_VERSION, REG_HW_ID,
    REG_HW_VERSION, REG_SW_RESET,
};
use crate::types::{Error, ErrorAwake, FirmwareMode, SlaveAddr};
use crate::{ActionInProgress, Boot, Ccs811, Ccs811Awake};

verus! {

/// Classification of the errors a wake-wrapped register operation can
/// surface: additionally to the register-level errors, driving the wake pin
/// can fail.
pub open spec fn wrapped_op_err<CommE, PinE>(
    addr: u8,
    e: Error<CommE, PinE>,
    post: Seq<BusOp>,
) -> bool {
    match e {
        Error::I2C(_) => true,
        Error::Pin(_) => true,
        Error::Device(errors) => register_op_err::<CommE>(
            addr,
            ErrorAwake::Device(errors),
            post,
        ),
        Error::NoValidApp => false,
        Error::InvalidInputData => false,
    }
}

/// The major/minor nibble pair packed in a version byte.
pub open spec fn version_pair(b: u8) -> (u8, u8) {
    ((b & 0xF0) >> 4, b & 0x0F)
}

/// Ok-case transcript of a one-byte version query on `reg`: the byte the
/// device answered decodes as a (major, minor) nibble pair.
pub open spec fn nibble_read_transcript(
    addr: u8,
    reg: u8,
    pre: Seq<BusOp>,
    post: Seq<BusOp>,
    version: (u8, u8),
) -> bool {
    exists|b: u8|
        status_check_passed(addr, pre.push(#[trigger] op_read1(addr, reg, b)), post)
            && version == version_pair(b)
}

/// Ok-case transcript of a two-byte version query on `reg`: the first byte
/// the device answered decodes as a (major, minor) nibble pair, the second
/// is the trivial version.
pub open spec fn version_read_transcript(
    addr: u8,
    reg: u8,
    pre: Seq<BusOp>,
    post: Seq<BusOp>,
    version: (u8, u8, u8),
) -> bool {
    exists|b0: u8, b1: u8|
        status_check_passed(addr, pre.push(#[trigger] op_read2(addr, reg, b0, b1)), post)
            && version == (version_pair(b0).0, version_pair(b0).1, b1)
}

impl<I2C> Ccs811Awake<I2C, Boot> {
    /// Create a new instance of an already-awake CCS811 device in boot mode.
    pub fn new(i2c: I2C, address: SlaveAddr) -> (r: Self)
        ensures
            r.spec_bus() == i2c,
            r.spec_address() == address.spec_addr(),
            r.shadow() == 0,
            r.pending() == ActionInProgress::Idle,
    {
        Self::create(i2c, address.addr())
    }
}

impl<I2C, MODE> Ccs811Awake<I2C, MODE> {
    pub(crate) fn create(i2c: I2C, address: u8) -> (r: Self)
        ensures
            r.spec_bus() == i2c,
            r.spec_address() == address,
            r.shadow() == 0,
            r.pending() == ActionInProgress::Idle,
    {
        Ccs811Awake {
            i2c,
            address,
            meas_mode_reg: 0,
            in_progress: ActionInProgress::Idle,
            _mode: PhantomData,
        }
    }

    /// Destroy the driver instance and return the I2C bus instance.
    pub fn destroy(self) -> (r: I2C)
        ensures
            r == self.spec_bus(),
    {
        self.i2c
    }
}

impl<I2C, NWAKE, WAKEDELAY> Ccs811<I2C, NWAKE, WAKEDELAY, Boot> {
    /// Create a new instance of the CCS811 device in boot mode.
    ///
    /// See [`Ccs811Awake`] for the case where the nWAKE pin is not used.
    pub fn new(i2c: I2C, address: SlaveAddr, n_wake_pin: NWAKE, wake_delay: WAKEDELAY) -> (r: Self)
        ensures
            r.spec_dev().spec_bus() == i2c,
            r.spec_address() == address.spec_addr(),
            r.shadow() == 0,
            r.pending() == ActionInProgress::Idle,
            r.spec_pin() == n_wake_pin,
            r.spec_delay() == wake_delay,
    {
        Self::create(i2c, address.addr(), n_wake_pin, wake_delay)
    }
}

impl<I2C, NWAKE, WAKEDELAY, MODE> Ccs811<I2C, NWAKE, WAKEDELAY, MODE> {
    pub(crate) fn create(i2c: I2C, address: u8, n_wake_pin: NWAKE, wake_delay: WAKEDELAY) -> (r:
        Self)
        ensures
            r.spec_dev().spec_bus() == i2c,
            r.spec_address() == address,
            r.shadow() == 0,
            r.pending() == ActionInProgress::Idle,
            r.spec_pin() == n_wake_pin,
            r.spec_delay() == wake_delay,
    {
        Self::from_awake_dev(Ccs811Awake::create(i2c, address), n_wake_pin, wake_delay)
    }

    pub(crate) fn from_awake_dev(
        dev: Ccs811Awake<I2C, MODE>,
        n_wake_pin: NWAKE,
        wake_delay: WAKEDELAY,
    ) -> (r: Self)
        ensures
            r.spec_dev() == dev,
            r.spec_pin() == n_wake_pin,
            r.spec_delay() == wake_delay,
    {
        Ccs811 { dev, n_wake_pin, wake_delay }
    }

    /// Destroy the driver instance and return the I2C bus, nWAKE pin and
    /// wake delay instances.
    pub fn destroy(self) -> (r: (I2C, NWAKE, WAKEDELAY))
        ensures
            r.0 == self.spec_dev().spec_bus(),
            r.1 == self.spec_pin(),
            r.2 == self.spec_delay(),
    {
        let Ccs811 { dev, n_wake_pin, wake_delay } = self;
        (dev.destroy(), n_wake_pin, wake_delay)
    }
}

impl<I2C, CommE, MODE> Ccs811Awake<I2C, MODE> where I2C: I2cBus<BusError = CommE> {
    pub(crate) fn write_sw_reset(&mut self) -> (r: Result<(), ErrorAwake<CommE>>)
        ensures
            final(self).spec_address() == old(self).spec_address(),
            final(self).shadow() == old(self).shadow(),
            final(self).pending() == old(self).pending(),
            extends(old(self).ops(), final(self).ops()),
            match r {
                Ok(()) => status_check_passed(
                    old(self).spec_address(),
                    old(self).ops().push(sw_reset_op(old(self).spec_address())),
                    final(self).ops(),
                ),
                Err(e) => register_op_err(old(self).spec_address(), e, final(self).ops()),
            },
    {
        let data = vec![REG_SW_RESET, 0x11, 0xE5, 0x72, 0x8A];
        proof {
            assert(data@ =~= seq![REG_SW_RESET, 0x11, 0xE5, 0x72, 0x8A]);
        }
        self.write_data(&data)
    }

    /// Get the firmware mode the device currently runs in, decoded from the
    /// firmware-mode status bit.
    pub fn firmware_mode(&mut self) -> (r: Result<FirmwareMode, ErrorAwake<CommE>>)
        ensures
            final(self).spec_address() == old(self).spec_address(),
            final(self).shadow() == old(self).shadow(),
            final(self).pending() == old(self).pending(),
            extends(old(self).ops(), final(self).ops()),
            match r {
                Ok(mode) => status_query_transcript(
                    old(self).spec_address(),
                    old(self).ops(),
                    final(self).ops(),
                    FLAG_FW_MODE,
                    mode is Application,
                ),
                Err(e) => register_op_err(old(self).spec_address(), e, final(self).ops()),
            },
    {
        let status = match self.read_status() {
            Ok(status) => status,
            Err(e) => {
                return Err(e);
            },
        };
        if (status & FLAG_FW_MODE) != 0 {
            Ok(FirmwareMode::Application)
        } else {
            Ok(FirmwareMode::Boot)
        }
    }

    /// Check whether a valid application firmware is loaded, decoded from
    /// the app-valid status bit.
    pub fn has_valid_app(&mut self) -> (r: Result<bool, ErrorAwake<CommE>>)
        ensures
            final(self).spec_address() == old(self).spec_address(),
            final(self).shadow() == old(self).shadow(),
            final(self).pending() == old(self).pending(),
            extends(old(self).ops(), final(self).ops()),
            match r {
                Ok(valid) => status_query_transcript(
                    old(self).spec_address(),
                    old(self).ops(),
                    final(self).ops(),
                    FLAG_APP_VALID,
                    valid,
                ),
                Err(e) => register_op_err(old(self).spec_address(), e, final(self).ops()),
            },
    {
        let status = match self.read_status() {
            Ok(status) => status,
            Err(e) => {
                return Err(e);
            },
        };
        Ok((status & FLAG_APP_VALID) != 0)
    }

    /// Get the hardware ID (0x81 for the CCS81x family of devices).
    pub fn hardware_id(&mut self) -> (r: Result<u8, ErrorAwake<CommE>>)
        ensures
            final(self).spec_address() == old(self).spec_address(),
            final(self).shadow() == old(self).shadow(),
            final(self).pending() == old(self).pending(),
            extends(old(self).ops(), final(self).ops()),
            match r {
                Ok(id) => status_check_passed(
                    old(self).spec_address(),
                    old(self).ops().push(op_read1(old(self).spec_address(), REG_HW_ID, id)),
                    final(self).ops(),
                ),
                Err(e) => register_op_err(old(self).spec_address(), e, final(self).ops()),
            },
    {
        self.read_register_1byte(REG_HW_ID)
    }

    /// Get the hardware version as a (major, minor) pair ((1, X) for the
    /// CCS81x family of devices).
    pub fn hardware_version(&mut self) -> (r: Result<(u8, u8), ErrorAwake<CommE>>)
        ensures
            final(self).spec_address() == old(self).spec_address(),
            final(self).shadow() == old(self).shadow(),
            final(self).pending() == old(self).pending(),
            extends(old(self).ops(), final(self).ops()),
            match r {
                Ok(version) => nibble_read_transcript(
                    old(self).spec_address(),
                    REG_HW_VERSION,
                    old(self).ops(),
                    final(self).ops(),
                    version,
                ),
                Err(e) => register_op_err(old(self).spec_address(), e, final(self).ops()),
            },
    {
        let version = match self.read_register_1byte(REG_HW_VERSION) {
            Ok(version) => version,
            Err(e) => {
                return Err(e);
            },
        };
        Ok(((version & 0xF0) >> 4, version & 0x0F))
    }

    /// Get the firmware bootloader version as (major, minor, trivial).
    pub fn firmware_bootloader_version(&mut self) -> (r: Result<(u8, u8, u8), ErrorAwake<CommE>>)
        ensures
            final(self).spec_address() == old(self).spec_address(),
            final(self).shadow() == old(self).shadow(),
            final(self).pending() == old(self).pending(),
            extends(old(self).ops(), final(self).ops()),
            match r {
                Ok(version) => version_read_transcript(
                    old(self).spec_address(),
                    REG_FW_BOOT_VERSION,
                    old(self).ops(),
                    final(self).ops(),
                    version,
                ),
                Err(e) => register_op_err(old(self).spec_address(), e, final(self).ops()),
            },
    {
        let version = match self.read_register_2bytes(REG_FW_BOOT_VERSION) {
            Ok(version) => version,
            Err(e) => {
                return Err(e);
            },
        };
        Ok(((version[0] & 0xF0) >> 4, version[0] & 0x0F, version[1]))
    }

    /// Get the firmware application version as (major, minor, trivial).
    pub fn firmware_application_version(&mut self) -> (r: Result<(u8, u8, u8), ErrorAwake<CommE>>)
        ensures
            final(self).spec_address() == old(self).spec_address(),
            final(self).shadow() == old(self).shadow(),
            final(self).pending() == old(self).pending(),
            extends(old(self).ops(), final(self).ops()),
            match r {
                Ok(version) => version_read_transcript(
                    old(self).spec_address(),
                    REG_FW_APP_VERSION,
                    old(self).ops(),
                    final(self).ops(),
                    version,
                ),
                Err(e) => register_op_err(old(self).spec_address(), e, final(self).ops()),
            },
    {
        let version = match self.read_register_2bytes(REG_FW_APP_VERSION) {
            Ok(version) => version,
            Err(e) => {
                return Err(e);
            },
        };
        Ok(((version[0] & 0xF0) >> 4, version[0] & 0x0F, version[1]))
    }
}

impl<I2C, CommE, PinE, NWAKE, WAKEDELAY, MODE> Ccs811<I2C, NWAKE, WAKEDELAY, MODE> where
    I2C: I2cBus<BusError = CommE>,
    NWAKE: WakePin<PinError = PinE>,
    WAKEDELAY: Delay,
 {
    /// Get the firmware mode the device currently runs in, decoded from the
    /// firmware-mode status bit.
    ///
    /// The operation is bracketed by the wake/sleep sequence; unless a pin
    /// error is reported, the wake pin is back inactive when it returns.
    pub fn firmware_mode(&mut self) -> (r: Result<FirmwareMode, Error<CommE, PinE>>)
        ensures
            final(self).spec_address() == old(self).spec_address(),
            final(self).shadow() == old(self).shadow(),
            final(self).pending() == old(self).pending(),
            extends(old(self).ops(), final(self).ops()),
            !(r matches Err(Error::Pin(_))) ==> !final(self).spec_pin().is_asserted(),
            match r {
                Ok(mode) => status_query_transcript(
                    old(self).spec_address(),
                    old(self).ops(),
                    final(self).ops(),
                    FLAG_FW_MODE,
                    mode is Application,
                ),
                Err(e) => wrapped_op_err(old(self).spec_address(), e, final(self).ops()),
            },
    {
        match self.n_wake_pin.set_low() {
            Ok(()) => {},
            Err(e) => {
                return Err(Error::Pin(e));
            },
        }
        self.wake_delay.delay_us(50);
        let result = self.dev.firmware_mode();
        match self.n_wake_pin.set_high() {
            Ok(()) => {},
            Err(e) => {
                return Err(Error::Pin(e));
            },
        }
        self.wake_delay.delay_us(20);
        match result {
            Ok(v) => Ok(v),
            Err(e) => Err(Error::from(e)),
        }
    }

    /// Check whether a valid application firmware is loaded, decoded from
    /// the app-valid status bit.
    ///
    /// The operation is bracketed by the wake/sleep sequence; unless a pin
    /// error is reported, the wake pin is back inactive when it returns.
    pub fn has_valid_app(&mut self) -> (r: Result<bool, Error<CommE, PinE>>)
        ensures
            final(self).spec_address() == old(self).spec_address(),
            final(self).shadow() == old(self).shadow(),
            final(self).pending() == old(self).pending(),
            extends(old(self).ops(), final(self).ops()),
            !(r matches Err(Error::Pin(_))) ==> !final(self).spec_pin().is_asserted(),
            match r {
                Ok(valid) => status_query_transcript(
                    old(self).spec_address(),
                    old(self).ops(),
                    final(self).ops(),
                    FLAG_APP_VALID,
                    valid,
                ),
                Err(e) => wrapped_op_err(old(self).spec_address(), e, final(self).ops()),
            },
    {
        match self.n_wake_pin.set_low() {
            Ok(()) => {},
            Err(e) => {
                return Err(Error::Pin(e));
            },
        }
        self.wake_delay.delay_us(50);
        let result = self.dev.has_valid_app();
        match self.n_wake_pin.set_high() {
            Ok(()) => {},
            Err(e) => {
                return Err(Error::Pin(e));
            },
        }
        self.wake_delay.delay_us(20);
        match result {
            Ok(v) => Ok(v),
            Err(e) => Err(Error::from(e)),
        }
    }

    /// Get the hardware ID (0x81 for the CCS81x family of devices).
    ///
    /// The operation is bracketed by the wake/sleep sequence; unless a pin
    /// error is reported, the wake pin is back inactive when it returns.
    pub fn hardware_id(&mut self) -> (r: Result<u8, Error<CommE, PinE>>)
        ensures
            final(self).spec_address() == old(self).spec_address(),
            final(self).shadow() == old(self).shadow(),
            final(self).pending() == old(self).pending(),
            extends(old(self).ops(), final(self).ops()),
            !(r matches Err(Error::Pin(_))) ==> !final(self).spec_pin().is_asserted(),
            match r {
                Ok(id) => status_check_passed(
                    old(self).spec_address(),
                    old(self).ops().push(op_read1(old(self).spec_address(), REG_HW_ID, id)),
                    final(self).ops(),
                ),
                Err(e) => wrapped_op_err(old(self).spec_address(), e, final(self).ops()),
            },
    {
        match self.n_wake_pin.set_low() {
            Ok(()) => {},
            Err(e) => {
                return Err(Error::Pin(e));
            },
        }
        self.wake_delay.delay_us(50);
        let result = self.dev.hardware_id();
        match self.n_wake_pin.set_high() {
            Ok(()) => {},
            Err(e) => {
                return Err(Error::Pin(e));
            },
        }
        self.wake_delay.delay_us(20);
        match result {
            Ok(v) => Ok(v),
            Err(e) => Err(Error::from(e)),
        }
    }

    /// Get the hardware version as a (major, minor) pair ((1, X) for the
    /// CCS81x family of devices).
    ///
    /// The operation is bracketed by the wake/sleep sequence; unless a pin
    /// error is reported, the wake pin is back inactive when it returns.
    pub fn hardware_version(&mut self) -> (r: Result<(u8, u8), Error<CommE, PinE>>)
        ensures
            final(self).spec_address() == old(self).spec_address(),
            final(self).shadow() == old(self).shadow(),
            final(self).pending() == old(self).pending(),
            extends(old(self).ops(), final(self).ops()),
            !(r matches Err(Error::Pin(_))) ==> !final(self).spec_pin().is_asserted(),
            match r {
                Ok(version) => nibble_read_transcript(
                    old(self).spec_address(),
                    REG_HW_VERSION,
                    old(self).ops(),
                    final(self).ops(),
                    version,
                ),
                Err(e) => wrapped_op_err(old(self).spec_address(), e, final(self).ops()),
            },
    {
        match self.n_wake_pin.set_low() {
            Ok(()) => {},
            Err(e) => {
                return Err(Error::Pin(e));
            },
        }
        self.wake_delay.delay_us(50);
        let result = self.dev.hardware_version();
        match self.n_wake_pin.set_high() {
            Ok(()) => {},
            Err(e) => {
                return Err(Error::Pin(e));
            },
        }
        self.wake_delay.delay_us(20);
        match result {
            Ok(v) => Ok(v),
            Err(e) => Err(Error::from(e)),
        }
    }

    /// Get the firmware bootloader version as (major, minor, trivial).
    ///
    /// The operation is bracketed by the wake/sleep sequence; unless a pin
    /// error is reported, the wake pin is back inactive when it returns.
    pub fn firmware_bootloader_version(&mut self) -> (r: Result<
        (u8, u8, u8),
        Error<CommE, PinE>,
    >)
        ensures
            final(self).spec_address() == old(self).spec_address(),
            final(self).shadow() == old(self).shadow(),
            final(self).pending() == old(self).pending(),
            extends(old(self).ops(), final(self).ops()),
            !(r matches Err(Error::Pin(_))) ==> !final(self).spec_pin().is_asserted(),
            match r {
                Ok(version) => version_read_transcript(
                    old(self).spec_address(),
                    REG_FW_BOOT_VERSION,
                    old(self).ops(),
                    final(self).ops(),
                    version,
                ),
                Err(e) => wrapped_op_err(old(self).spec_address(), e, final(self).ops()),
            },
    {
        match self.n_wake_pin.set_low() {
            Ok(()) => {},
            Err(e) => {
                return Err(Error::Pin(e));
            },
        }
        self.wake_delay.delay_us(50);
        let result = self.dev.firmware_bootloader_version();
        match self.n_wake_pin.set_high() {
            Ok(()) => {},
            Err(e) => {
                return Err(Error::Pin(e));
            },
        }
        self.wake_delay.delay_us(20);
        match result {
            Ok(v) => Ok(v),
            Err(e) => Err(Error::from(e)),
        }
    }

    /// Get the firmware application version as (major, minor, trivial).
    ///
    /// The operation is bracketed by the wake/sleep sequence; unless a pin
    /// error is reported, the wake pin is back inactive when it returns.
    pub fn firmware_application_version(&mut self) -> (r: Result<
        (u8, u8, u8),
        Error<CommE, PinE>,
    >)
        ensures
            final(self).spec_address() == old(self).spec_address(),
            final(self).shadow() == old(self).shadow(),
            final(self).pending() == old(self).pending(),
            extends(old(self).ops(), final(self).ops()),
            !(r matches Err(Error::Pin(_))) ==> !final(self).spec_pin().is_asserted(),
            match r {
                Ok(version) => version_read_transcript(
                    old(self).spec_address(),
                    REG_FW_APP_VERSION,
                    old(self).ops(),
                    final(self).ops(),
                    version,
                ),
                Err(e) => wrapped_op_err(old(self).spec_address(), e, final(self).ops()),
            },
    {
        match self.n_wake_pin.set_low() {
            Ok(()) => {},
            Err(e) => {
                return Err(Error::Pin(e));
            },
        }
        self.wake_delay.delay_us(50);
        let result = self.dev.firmware_application_version();
        match self.n_wake_pin.set_high() {
            Ok(()) => {},
            Err(e) => {
                return Err(Error::Pin(e));
            },
        }
        self.wake_delay.delay_us(20);
        match result {
            Ok(v) => Ok(v),
            Err(e) => Err(Error::from(e)),
        }
    }
}

} // verus!
