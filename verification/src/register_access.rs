//! Register map of the device, decoding of its status and error registers,
//! and the register-level read/write primitives that every higher operation
//! funnels through.

use vstd::prelude::*;

use crate::bus::{extends, lemma_extends_trans, lemma_push_extends, BusOp, I2cBus};
use crate::types::{DeviceErrors, ErrorAwake};
use crate::Ccs811Awake;

verus! {

/// Status register.
pub const REG_STATUS: u8 = 0x00;

/// Measurement mode and interrupt configuration register.
pub const REG_MEAS_MODE: u8 = 0x01;

/// Algorithm result register (8 bytes).
pub const REG_ALG_RESULT_DATA: u8 = 0x02;

/// Raw sensor data register (2 bytes).
pub const REG_RAW_DATA: u8 = 0x03;

/// Environment (humidity/temperature compensation) data register (4 bytes).
pub const REG_ENV_DATA: u8 = 0x05;

/// eCO2 interrupt threshold register (4 bytes).
pub const REG_THRESHOLDS: u8 = 0x10;

/// Baseline calibration register (2 bytes).
pub const REG_BASELINE: u8 = 0x11;

/// Hardware ID register.
pub const REG_HW_ID: u8 = 0x20;

/// Hardware version register.
pub const REG_HW_VERSION: u8 = 0x21;

/// Firmware bootloader version register (2 bytes).
pub const REG_FW_BOOT_VERSION: u8 = 0x23;

/// Firmware application version register (2 bytes).
pub const REG_FW_APP_VERSION: u8 = 0x24;

/// Error-id register.
pub const REG_ERROR_ID: u8 = 0xE0;

/// Application erase opcode register.
pub const REG_APP_ERASE: u8 = 0xF1;

/// Firmware download opcode register.
pub const REG_BOOT_APP: u8 = 0xF2;

/// Application verify opcode register.
pub const REG_APP_VERIFY: u8 = 0xF3;

/// Application start opcode register.
pub const REG_APP_START: u8 = 0xF4;

/// Software reset opcode register.
pub const REG_SW_RESET: u8 = 0xFF;

/// Status bit: a new data sample is ready.
pub const FLAG_DATA_READY: u8 = 0x08;

/// Status bit: a valid application firmware is loaded.
pub const FLAG_APP_VALID: u8 = 0x10;

/// Status bit: the application verification completed.
pub const FLAG_APP_VERIFY: u8 = 0x20;

/// Status bit: the application erase completed.
pub const FLAG_APP_ERASE: u8 = 0x40;

/// Status bit: the device runs application firmware (not bootloader).
pub const FLAG_FW_MODE: u8 = 0x80;

/// Status bit: the device reported an error; the error-id register says which.
pub const FLAG_ERROR: u8 = 0x01;

/// Error-id bit: write to an invalid register.
pub const FLAG_WRITE_REG_INVALID: u8 = 0x01;

/// Error-id bit: read from an invalid register.
pub const FLAG_READ_REG_INVALID: u8 = 0x02;

/// Error-id bit: invalid measurement mode requested.
pub const FLAG_MEASMODE_INVALID: u8 = 0x04;

/// Error-id bit: sensor resistance at or above maximum range.
pub const FLAG_MAX_RESISTANCE: u8 = 0x08;

/// Error-id bit: heater current not in range.
pub const FLAG_HEATER_FAULT: u8 = 0x10;

/// Error-id bit: heater voltage not applied correctly.
pub const FLAG_HEATER_SUPPLY: u8 = 0x20;

/// Measurement-mode register bit: interrupt generation enabled.
pub const FLAG_INTERRUPT: u8 = 0x08;

/// Measurement-mode register bit: interrupts use the thresholds.
pub const FLAG_THRESH: u8 = 0x04;

/// A plain write transaction.
pub open spec fn op_write(addr: u8, data: Seq<u8>) -> BusOp {
    BusOp::Write { addr, data }
}

/// A register read transaction that the device answered with `response`.
pub open spec fn op_read(addr: u8, reg: u8, response: Seq<u8>) -> BusOp {
    BusOp::WriteRead { addr, reg, response }
}

/// A register read transaction of one byte that the device answered with `b`.
pub open spec fn op_read1(addr: u8, reg: u8, b: u8) -> BusOp {
    op_read(addr, reg, seq![b])
}

/// A register read transaction of two bytes that the device answered with
/// `b0`, `b1`.
pub open spec fn op_read2(addr: u8, reg: u8, b0: u8, b1: u8) -> BusOp {
    op_read(addr, reg, seq![b0, b1])
}

/// A read of the status register that answered `status`.
pub open spec fn status_read(addr: u8, status: u8) -> BusOp {
    op_read(addr, REG_STATUS, seq![status])
}

/// A read of the error-id register that answered `id`.
pub open spec fn error_id_read(addr: u8, id: u8) -> BusOp {
    op_read(addr, REG_ERROR_ID, seq![id])
}

/// The 4-byte magic write that triggers a software reset.
pub open spec fn sw_reset_op(addr: u8) -> BusOp {
    op_write(addr, seq![REG_SW_RESET, 0x11, 0xE5, 0x72, 0x8A])
}

/// The 4-byte magic write that triggers an application erase.
pub open spec fn erase_trigger_op(addr: u8) -> BusOp {
    op_write(addr, seq![REG_APP_ERASE, 0xE7, 0xA7, 0xE6, 0x09])
}

/// The one-byte write that triggers an application verification.
pub open spec fn verify_trigger_op(addr: u8) -> BusOp {
    op_write(addr, seq![REG_APP_VERIFY])
}

/// The fault flags encoded in an error-id byte.
pub open spec fn error_flags(id: u8) -> DeviceErrors {
    DeviceErrors {
        invalid_register_write: id & FLAG_WRITE_REG_INVALID != 0,
        invalid_register_read: id & FLAG_READ_REG_INVALID != 0,
        invalid_measurement: id & FLAG_MEASMODE_INVALID != 0,
        max_resistance: id & FLAG_MAX_RESISTANCE != 0,
        heater_fault: id & FLAG_HEATER_FAULT != 0,
        heater_supply: id & FLAG_HEATER_SUPPLY != 0,
    }
}

/// Whether an error-id byte encodes at least one fault flag.
pub open spec fn any_error_flag(id: u8) -> bool {
    error_flags(id) != DeviceErrors::none()
}

/// The transcript a successful status check appends to the bus history:
/// a read of the status register that answered `status`, followed — only
/// when the error bit is set — by a read of the error-id register that
/// decoded to no fault.
pub open spec fn checked_ok(addr: u8, status: u8, pre: Seq<BusOp>, post: Seq<BusOp>) -> bool {
    if status & FLAG_ERROR == 0 {
        post == pre.push(status_read(addr, status))
    } else {
        exists|id: u8|
            #![auto]
            post == pre.push(status_read(addr, status)).push(error_id_read(addr, id))
                && !any_error_flag(id)
    }
}

/// Some successful status check was appended between `pre` and `post`.
pub open spec fn status_check_passed(addr: u8, pre: Seq<BusOp>, post: Seq<BusOp>) -> bool {
    exists|status: u8| #![auto] checked_ok(addr, status, pre, post)
}

/// Ok-case transcript of a query that reads the status register through the
/// standard check and answers whether `bit` is set in it.
pub open spec fn status_query_transcript(
    addr: u8,
    pre: Seq<BusOp>,
    post: Seq<BusOp>,
    bit: u8,
    value: bool,
) -> bool {
    exists|status: u8|
        #[trigger] checked_ok(addr, status, pre, post) && value == (status & bit != 0)
}

/// Classification of the errors a register-level operation can surface:
/// a bus error carries the transport's own error, a device-reported error
/// carries exactly the fault flags decoded from the error-id register just
/// read, and the protocol errors do not arise here.
pub open spec fn register_op_err<E>(addr: u8, e: ErrorAwake<E>, post: Seq<BusOp>) -> bool {
    match e {
        ErrorAwake::I2C(_) => true,
        ErrorAwake::Device(errors) => exists|id: u8|
            #![auto]
            any_error_flag(id) && errors == error_flags(id) && post.len() > 0 && post.last()
                == error_id_read(addr, id),
        ErrorAwake::NoValidApp => false,
        ErrorAwake::InvalidInputData => false,
    }
}

/// Decode an error-id byte into the device error set.
///
/// Fails with the decoded set exactly when at least one fault flag is set.
pub fn get_errors(error_id: u8) -> (r: Result<(), DeviceErrors>)
    ensures
        r is Ok <==> !any_error_flag(error_id),
        r matches Err(errors) ==> errors == error_flags(error_id),
{
    let mut has_error = false;
    let mut errors = DeviceErrors::default();
    if (error_id & FLAG_WRITE_REG_INVALID) != 0 {
        errors.invalid_register_write = true;
        has_error = true;
    }
    if (error_id & FLAG_READ_REG_INVALID) != 0 {
        errors.invalid_register_read = true;
        has_error = true;
    }
    if (error_id & FLAG_MEASMODE_INVALID) != 0 {
        errors.invalid_measurement = true;
        has_error = true;
    }
    if (error_id & FLAG_MAX_RESISTANCE) != 0 {
        errors.max_resistance = true;
        has_error = true;
    }
    if (error_id & FLAG_HEATER_FAULT) != 0 {
        errors.heater_fault = true;
        has_error = true;
    }
    if (error_id & FLAG_HEATER_SUPPLY) != 0 {
        errors.heater_supply = true;
        has_error = true;
    }
    if has_error {
        Err(errors)
    } else {
        Ok(())
    }
}

impl<I2C, E, MODE> Ccs811Awake<I2C, MODE> where I2C: I2cBus<BusError = E> {
    /// Read the status register and check it for a device-reported error.
    ///
    /// If the error bit is set, the error-id register is read immediately
    /// and decoded; when it holds any fault flag the call fails with the
    /// decoded device error instead of returning a bogus status.
    pub(crate) fn read_status(&mut self) -> (r: Result<u8, ErrorAwake<E>>)
        ensures
            final(self).spec_address() == old(self).spec_address(),
            final(self).shadow() == old(self).shadow(),
            final(self).pending() == old(self).pending(),
            extends(old(self).ops(), final(self).ops()),
            match r {
                Ok(status) => checked_ok(
                    old(self).spec_address(),
                    status,
                    old(self).ops(),
                    final(self).ops(),
                ),
                Err(e) => register_op_err(old(self).spec_address(), e, final(self).ops()),
            },
    {
        let ghost pre = self.ops();
        let status = match self.i2c.write_read(self.address, REG_STATUS, 1) {
            Ok(data) => {
                let status = data[0];
                proof {
                    assert(data@ =~= seq![status]);
                    lemma_push_extends(pre, status_read(self.spec_address(), status));
                }
                status
            },
            Err(e) => {
                return Err(ErrorAwake::I2C(e));
            },
        };
        if (status & FLAG_ERROR) != 0 {
            let ghost mid = self.ops();
            match self.i2c.write_read(self.address, REG_ERROR_ID, 1) {
                Ok(data) => {
                    let id = data[0];
                    proof {
                        assert(data@ =~= seq![id]);
                        lemma_push_extends(mid, error_id_read(self.spec_address(), id));
                        lemma_extends_trans(pre, mid, self.ops());
                    }
                    match get_errors(id) {
                        Ok(()) => Ok(status),
                        Err(errors) => Err(ErrorAwake::Device(errors)),
                    }
                },
                Err(e) => Err(ErrorAwake::I2C(e)),
            }
        } else {
            Ok(status)
        }
    }

    /// Read the status register and keep only the error check.
    pub(crate) fn check_status_error(&mut self) -> (r: Result<(), ErrorAwake<E>>)
        ensures
            final(self).spec_address() == old(self).spec_address(),
            final(self).shadow() == old(self).shadow(),
            final(self).pending() == old(self).pending(),
            extends(old(self).ops(), final(self).ops()),
            match r {
                Ok(()) => status_check_passed(
                    old(self).spec_address(),
                    old(self).ops(),
                    final(self).ops(),
                ),
                Err(e) => register_op_err(old(self).spec_address(), e, final(self).ops()),
            },
    {
        match self.read_status() {
            Ok(_) => Ok(()),
            Err(e) => Err(e),
        }
    }

    /// Read `len` bytes from `register`, then perform the standard status
    /// check.
    pub(crate) fn read_register(&mut self, register: u8, len: usize) -> (r: Result<
        Vec<u8>,
        ErrorAwake<E>,
    >)
        ensures
            final(self).spec_address() == old(self).spec_address(),
            final(self).shadow() == old(self).shadow(),
            final(self).pending() == old(self).pending(),
            extends(old(self).ops(), final(self).ops()),
            match r {
                Ok(data) => data@.len() == len && status_check_passed(
                    old(self).spec_address(),
                    old(self).ops().push(op_read(old(self).spec_address(), register, data@)),
                    final(self).ops(),
                ),
                Err(e) => register_op_err(old(self).spec_address(), e, final(self).ops()),
            },
    {
        let ghost pre = self.ops();
        match self.i2c.write_read(self.address, register, len) {
            Ok(data) => {
                proof {
                    lemma_push_extends(pre, op_read(self.spec_address(), register, data@));
                }
                let ghost mid = self.ops();
                match self.check_status_error() {
                    Ok(()) => {
                        proof {
                            lemma_extends_trans(pre, mid, self.ops());
                        }
                        Ok(data)
                    },
                    Err(e) => {
                        proof {
                            lemma_extends_trans(pre, mid, self.ops());
                        }
                        Err(e)
                    },
                }
            },
            Err(e) => Err(ErrorAwake::I2C(e)),
        }
    }

    /// Read a one-byte register, with the standard status check.
    pub(crate) fn read_register_1byte(&mut self, register: u8) -> (r: Result<u8, ErrorAwake<E>>)
        ensures
            final(self).spec_address() == old(self).spec_address(),
            final(self).shadow() == old(self).shadow(),
            final(self).pending() == old(self).pending(),
            extends(old(self).ops(), final(self).ops()),
            match r {
                Ok(value) => status_check_passed(
                    old(self).spec_address(),
                    old(self).ops().push(op_read1(old(self).spec_address(), register, value)),
                    final(self).ops(),
                ),
                Err(e) => register_op_err(old(self).spec_address(), e, final(self).ops()),
            },
    {
        match self.read_register(register, 1) {
            Ok(data) => {
                let value = data[0];
                proof {
                    assert(data@ =~= seq![value]);
                }
                Ok(value)
            },
            Err(e) => Err(e),
        }
    }

    /// Read a two-byte register, with the standard status check.
    pub(crate) fn read_register_2bytes(&mut self, register: u8) -> (r: Result<
        [u8; 2],
        ErrorAwake<E>,
    >)
        ensures
            final(self).spec_address() == old(self).spec_address(),
            final(self).shadow() == old(self).shadow(),
            final(self).pending() == old(self).pending(),
            extends(old(self).ops(), final(self).ops()),
            match r {
                Ok(data) => status_check_passed(
                    old(self).spec_address(),
                    old(self).ops().push(
                        op_read2(old(self).spec_address(), register, data[0], data[1]),
                    ),
                    final(self).ops(),
                ),
                Err(e) => register_op_err(old(self).spec_address(), e, final(self).ops()),
            },
    {
        match self.read_register(register, 2) {
            Ok(data) => {
                let out: [u8; 2] = [data[0], data[1]];
                proof {
                    assert(data@ =~= seq![out[0], out[1]]);
                }
                Ok(out)
            },
            Err(e) => Err(e),
        }
    }

    /// Write the bare register byte, with the standard status check.
    pub(crate) fn write_register_no_data(&mut self, register: u8) -> (r: Result<
        (),
        ErrorAwake<E>,
    >)
        ensures
            final(self).spec_address() == old(self).spec_address(),
            final(self).shadow() == old(self).shadow(),
            final(self).pending() == old(self).pending(),
            extends(old(self).ops(), final(self).ops()),
            match r {
                Ok(()) => status_check_passed(
                    old(self).spec_address(),
                    old(self).ops().push(op_write(old(self).spec_address(), seq![register])),
                    final(self).ops(),
                ),
                Err(e) => register_op_err(old(self).spec_address(), e, final(self).ops()),
            },
    {
        let data = vec![register];
        proof {
            assert(data@ =~= seq![register]);
        }
        self.write_data(&data)
    }

    /// Write one data byte to `register`, with the standard status check.
    pub(crate) fn write_register_1byte(&mut self, register: u8, value: u8) -> (r: Result<
        (),
        ErrorAwake<E>,
    >)
        ensures
            final(self).spec_address() == old(self).spec_address(),
            final(self).shadow() == old(self).shadow(),
            final(self).pending() == old(self).pending(),
            extends(old(self).ops(), final(self).ops()),
            match r {
                Ok(()) => status_check_passed(
                    old(self).spec_address(),
                    old(self).ops().push(
                        op_write(old(self).spec_address(), seq![register, value]),
                    ),
                    final(self).ops(),
                ),
                Err(e) => register_op_err(old(self).spec_address(), e, final(self).ops()),
            },
    {
        let data = vec![register, value];
        proof {
            assert(data@ =~= seq![register, value]);
        }
        self.write_data(&data)
    }

    /// Write a raw transaction, with the standard status check.
    pub(crate) fn write_data(&mut self, data: &Vec<u8>) -> (r: Result<(), ErrorAwake<E>>)
        ensures
            final(self).spec_address() == old(self).spec_address(),
            final(self).shadow() == old(self).shadow(),
            final(self).pending() == old(self).pending(),
            extends(old(self).ops(), final(self).ops()),
            match r {
                Ok(()) => status_check_passed(
                    old(self).spec_address(),
                    old(self).ops().push(op_write(old(self).spec_address(), data@)),
                    final(self).ops(),
                ),
                Err(e) => register_op_err(old(self).spec_address(), e, final(self).ops()),
            },
    {
        let ghost pre = self.ops();
        match self.i2c.write(self.address, data) {
            Ok(()) => {
                proof {
                    lemma_push_extends(pre, op_write(self.spec_address(), data@));
                }
                let ghost mid = self.ops();
                let r = self.check_status_error();
                proof {
                    lemma_extends_trans(pre, mid, self.ops());
                }
                r
            },
            Err(e) => Err(ErrorAwake::I2C(e)),
        }
    }
}

} // verus!
