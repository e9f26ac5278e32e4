//! Application-mode operations: measurement-mode control, algorithm and raw
//! result decoding, environmental compensation encoding, baseline and
//! threshold handling.

use vstd::prelude::*;

use crate::bus::{extends, lemma_push_extends, BusOp, Delay, I2cBus, WakePin};
use crate::register_access::{
    any_error_flag, error_flags, op_read, op_read2, op_write, register_op_err, status_check_passed,
    status_query_transcript, FLAG_DATA_READY, FLAG_ERROR, REG_ALG_RESULT_DATA, REG_BASELINE,
    REG_ENV_DATA, REG_MEAS_MODE, REG_RAW_DATA, REG_THRESHOLDS, get_errors,
};
use crate::types::{
    AlgorithmResult, DeviceErrors, Error, ErrorAwake, InterruptMode, MeasurementMode, PollError,
};
use crate::common_impl::wrapped_op_err;
use crate::{App, Ccs811, Ccs811Awake};

verus! {

/// The sample-rate bits of the measurement-mode register that select `mode`.
pub open spec fn sample_rate_bits(mode: MeasurementMode) -> u8 {
    match mode {
        MeasurementMode::Idle => 0x00,
        MeasurementMode::ConstantPower1s => 0x10,
        MeasurementMode::PulseHeating10s => 0x20,
        MeasurementMode::LowPowerPulseHeating60s => 0x30,
        MeasurementMode::ConstantPower250ms => 0x40,
    }
}

/// The measurement-mode register value written by `set_mode`: the sample-rate
/// bits of the requested mode merged with the interrupt bits already
/// configured in the shadow register.
pub open spec fn merged_meas_mode(shadow: u8, mode: MeasurementMode) -> u8 {
    (shadow & 0x0C) | sample_rate_bits(mode)
}

/// The interrupt-configuration bits of the measurement-mode register that
/// select `mode`.
pub open spec fn interrupt_bits(mode: InterruptMode) -> u8 {
    match mode {
        InterruptMode::Disabled => 0x00,
        InterruptMode::OnDataReady => 0x08,
        InterruptMode::OnThresholdCrossed => 0x0C,
    }
}

/// The measurement-mode register value written by `set_interrupt_mode`: the
/// sample-rate bits already configured in the shadow register merged with
/// the interrupt bits of the requested mode.
pub open spec fn merged_interrupt_mode(shadow: u8, mode: InterruptMode) -> u8 {
    (shadow & 0x70) | interrupt_bits(mode)
}

/// Law: for every requested measurement mode, the register value written by
/// `set_mode` equals the sample-rate bits for that mode merged with the
/// previously configured interrupt bits, and all unrelated bits stay clear:
/// the interrupt bits are carried over unchanged and the sample-rate field
/// holds exactly the requested mode.
pub proof fn lemma_set_mode_merge(shadow: u8, mode: MeasurementMode)
    ensures
        merged_meas_mode(shadow, mode) == (shadow & 0x0C) | sample_rate_bits(mode),
        merged_meas_mode(shadow, mode) & 0x0C == shadow & 0x0C,
        merged_meas_mode(shadow, mode) & 0x70 == sample_rate_bits(mode),
        merged_meas_mode(shadow, mode) & 0x83 == 0,
{
    let m = sample_rate_bits(mode);
    assert(m == 0x00 || m == 0x10 || m == 0x20 || m == 0x30 || m == 0x40);
    assert(forall|s: u8, m: u8|
        (m == 0x00 || m == 0x10 || m == 0x20 || m == 0x30 || m == 0x40) ==> ((s & 0x0C) | m) & 0x0C
            == s & 0x0C && ((s & 0x0C) | m) & 0x70 == m && ((s & 0x0C) | m) & 0x83 == 0)
        by (bit_vector);
}

/// Law: for every requested interrupt mode, the register value written by
/// `set_interrupt_mode` keeps the configured sample-rate bits unchanged and
/// sets exactly the interrupt bits of the requested mode, with all unrelated
/// bits clear.
pub proof fn lemma_set_interrupt_merge(shadow: u8, mode: InterruptMode)
    ensures
        merged_interrupt_mode(shadow, mode) == (shadow & 0x70) | interrupt_bits(mode),
        merged_interrupt_mode(shadow, mode) & 0x70 == shadow & 0x70,
        merged_interrupt_mode(shadow, mode) & 0x0C == interrupt_bits(mode),
        merged_interrupt_mode(shadow, mode) & 0x83 == 0,
{
    let m = interrupt_bits(mode);
    assert(m == 0x00 || m == 0x08 || m == 0x0C);
    assert(forall|s: u8, m: u8|
        (m == 0x00 || m == 0x08 || m == 0x0C) ==> ((s & 0x70) | m) & 0x70 == s & 0x70 && ((s
            & 0x70) | m) & 0x0C == m && ((s & 0x70) | m) & 0x83 == 0) by (bit_vector);
}

/// The (current, voltage) pair packed in a two-byte raw-data value: the
/// current in the top six bits of the second byte, the voltage in the
/// remaining ten bits.
pub open spec fn spec_raw_data(data0: u8, data1: u8) -> (u8, u16) {
    (data1 >> 2, (data0 as u16) | (((data1 & 0x03) as u16) << 8))
}

/// Decode a two-byte raw-data register value into the (current, voltage)
/// pair packed in it.
pub fn handle_raw_data(data0: u8, data1: u8) -> (r: (u8, u16))
    ensures
        r == spec_raw_data(data0, data1),
{
    (data1 >> 2, (data0 as u16) | (((data1 & 0x03) as u16) << 8))
}

/// Ok-case transcript of `raw_data`: the pair returned was decoded from the
/// two bytes the device answered from the raw-data register.
pub open spec fn raw_data_transcript(
    addr: u8,
    pre: Seq<BusOp>,
    post: Seq<BusOp>,
    rd: (u8, u16),
) -> bool {
    exists|b0: u8, b1: u8|
        status_check_passed(addr, pre.push(#[trigger] op_read2(addr, REG_RAW_DATA, b0, b1)), post)
            && rd == spec_raw_data(b0, b1)
}

/// The single read of the 8-byte algorithm-result block.
pub open spec fn alg_read_op(addr: u8, bytes: Seq<u8>) -> BusOp {
    op_read(addr, REG_ALG_RESULT_DATA, bytes)
}

/// The algorithm result encoded in an 8-byte algorithm-result block:
/// big-endian eCO2 and eTVOC words followed by status, error-id and the
/// packed raw-data pair.
pub open spec fn spec_algorithm_result(bytes: Seq<u8>) -> AlgorithmResult
    recommends
        bytes.len() == 8,
{
    AlgorithmResult {
        eco2: ((bytes[0] as u16) << 8) | (bytes[1] as u16),
        etvoc: ((bytes[2] as u16) << 8) | (bytes[3] as u16),
        raw_current: spec_raw_data(bytes[6], bytes[7]).0,
        raw_voltage: spec_raw_data(bytes[6], bytes[7]).1,
    }
}

/// The status byte inside an algorithm-result block lets the result through:
/// either it reports no error and the data-ready bit is set, or the error
/// bit is set but the accompanying error-id byte decodes to no fault.
pub open spec fn alg_result_available(bytes: Seq<u8>) -> bool
    recommends
        bytes.len() == 8,
{
    if bytes[4] & FLAG_ERROR != 0 {
        !any_error_flag(bytes[5])
    } else {
        bytes[4] & FLAG_DATA_READY != 0
    }
}

/// Ok-case transcript of `data`: the result was decoded from the 8-byte
/// block the device answered, whose embedded status let it through.
pub open spec fn alg_result_transcript(
    addr: u8,
    pre: Seq<BusOp>,
    post: Seq<BusOp>,
    result: AlgorithmResult,
) -> bool {
    exists|bytes: Seq<u8>|
        post == pre.push(#[trigger] alg_read_op(addr, bytes)) && bytes.len() == 8
            && alg_result_available(bytes) && result == spec_algorithm_result(bytes)
}

/// Would-block transcript of `data`: the 8-byte block the device answered
/// had both the error bit and the data-ready bit clear.
pub open spec fn alg_result_blocked(addr: u8, pre: Seq<BusOp>, post: Seq<BusOp>) -> bool {
    exists|bytes: Seq<u8>|
        post == pre.push(#[trigger] alg_read_op(addr, bytes)) && bytes.len() == 8 && bytes[4]
            & FLAG_ERROR == 0 && bytes[4] & FLAG_DATA_READY == 0
}

/// Device-error transcript of `data`: the 8-byte block the device answered
/// had the error bit set and its error-id byte decoded to `errors`.
pub open spec fn alg_result_device_err(
    addr: u8,
    pre: Seq<BusOp>,
    post: Seq<BusOp>,
    errors: DeviceErrors,
) -> bool {
    exists|bytes: Seq<u8>|
        post == pre.push(#[trigger] alg_read_op(addr, bytes)) && bytes.len() == 8 && bytes[4]
            & FLAG_ERROR != 0 && any_error_flag(bytes[5]) && errors == error_flags(bytes[5])
}

/// Whether a (humidity, temperature) pair, both in 1/512 units, is accepted
/// by `set_environment`: the relative humidity must lie in [0 %, 100 %] and
/// the temperature must not exceed the largest encodable value just below
/// 255 degrees Celsius.
pub open spec fn env_input_valid(humidity: i32, temperature: i32) -> bool {
    0 <= humidity && humidity <= 51200 && temperature <= 130559
}

/// The fixed-point byte pair that encodes a non-negative value given in
/// 1/512 units: the integer part shifted left one bit, the fractional part
/// scaled to 9 bits with its top bit folded into the low bit of the integer
/// byte.
pub open spec fn env_encode(value: u32) -> (u8, u8) {
    let units = value / 512;
    let main: u8 = if units > 255 {
        255u8
    } else {
        units as u8
    };
    let rest = value - (main as u32) * 512;
    (((main << 1) | (((rest / 256) % 2) as u8)) as u8, (rest % 256) as u8)
}

/// The byte pair written for a temperature in 1/512 degrees Celsius: the
/// value is offset by the +25 degree device reference point and clamped to
/// zero if the offset result is negative.
pub open spec fn spec_raw_temperature(temperature: i32) -> (u8, u8) {
    if temperature + 12800 < 0 {
        (0u8, 0u8)
    } else {
        env_encode((temperature + 12800) as u32)
    }
}

/// The 5-byte environment-data write for a valid (humidity, temperature)
/// pair, both in 1/512 units.
pub open spec fn env_data_op(addr: u8, humidity: i32, temperature: i32) -> BusOp {
    op_write(
        addr,
        seq![
            REG_ENV_DATA,
            env_encode(humidity as u32).0,
            env_encode(humidity as u32).1,
            spec_raw_temperature(temperature).0,
            spec_raw_temperature(temperature).1,
        ],
    )
}

/// Encode a relative humidity given in 1/512 % into its fixed-point byte
/// pair.
pub fn get_raw_humidity(humidity: u16) -> (r: (u8, u8))
    ensures
        r == env_encode(humidity as u32),
{
    get_raw_environment_data(humidity as u32)
}

/// Encode a temperature given in 1/512 degrees Celsius into its fixed-point
/// byte pair, offset by the +25 degree device reference point and clamped
/// to zero if the offset result is negative.
pub fn get_raw_temperature(temperature: i32) -> (r: (u8, u8))
    requires
        temperature <= i32::MAX - 12800,
    ensures
        r == spec_raw_temperature(temperature),
{
    let value = temperature + 12800;
    if value < 0 {
        (0, 0)
    } else {
        get_raw_environment_data(value as u32)
    }
}

/// Encode a non-negative value given in 1/512 units into its fixed-point
/// byte pair.
pub fn get_raw_environment_data(value: u32) -> (r: (u8, u8))
    ensures
        r == env_encode(value),
{
    let units = value / 512;
    let main: u8 = if units > 255 {
        255
    } else {
        units as u8
    };
    let rest = value - (main as u32) * 512;
    (((main << 1) | (((rest / 256) % 2) as u8)), (rest % 256) as u8)
}

impl<I2C, CommE> Ccs811Awake<I2C, App> where I2C: I2cBus<BusError = CommE> {
    /// Set the measurement mode.
    ///
    /// The sample-rate bits of the requested mode are merged with the
    /// interrupt bits cached in the shadow register and written in one
    /// transaction; the shadow is updated on success only.
    ///
    /// NOTE: when changing to a new mode with a lower sample rate, place the
    /// device in `Idle` mode for at least 10 minutes before enabling the new
    /// mode.
    pub fn set_mode(&mut self, mode: MeasurementMode) -> (r: Result<(), ErrorAwake<CommE>>)
        ensures
            final(self).spec_address() == old(self).spec_address(),
            final(self).pending() == old(self).pending(),
            extends(old(self).ops(), final(self).ops()),
            match r {
                Ok(()) => final(self).shadow() == merged_meas_mode(old(self).shadow(), mode)
                    && status_check_passed(
                    old(self).spec_address(),
                    old(self).ops().push(
                        op_write(
                            old(self).spec_address(),
                            seq![REG_MEAS_MODE, merged_meas_mode(old(self).shadow(), mode)],
                        ),
                    ),
                    final(self).ops(),
                ),
                Err(e) => final(self).shadow() == old(self).shadow() && register_op_err(
                    old(self).spec_address(),
                    e,
                    final(self).ops(),
                ),
            },
    {
        proof {
            assert(forall|x: u8| #![auto] x | 0x00 == x) by (bit_vector);
        }
        let idle_mode = self.meas_mode_reg & 0b0000_1100;
        let meas_mode = match mode {
            MeasurementMode::Idle => idle_mode,
            MeasurementMode::ConstantPower1s => idle_mode | 0x10,
            MeasurementMode::PulseHeating10s => idle_mode | 0x20,
            MeasurementMode::LowPowerPulseHeating60s => idle_mode | 0x30,
            MeasurementMode::ConstantPower250ms => idle_mode | 0x40,
        };
        match self.write_register_1byte(REG_MEAS_MODE, meas_mode) {
            Ok(()) => {
                self.meas_mode_reg = meas_mode;
                Ok(())
            },
            Err(e) => Err(e),
        }
    }

    /// Configure the interrupt generation.
    ///
    /// The sample-rate bits cached in the shadow register are kept and the
    /// interrupt bits are replaced; the shadow is updated on success only.
    pub fn set_interrupt_mode(&mut self, mode: InterruptMode) -> (r: Result<(), ErrorAwake<CommE>>)
        ensures
            final(self).spec_address() == old(self).spec_address(),
            final(self).pending() == old(self).pending(),
            extends(old(self).ops(), final(self).ops()),
            match r {
                Ok(()) => final(self).shadow() == merged_interrupt_mode(old(self).shadow(), mode)
                    && status_check_passed(
                    old(self).spec_address(),
                    old(self).ops().push(
                        op_write(
                            old(self).spec_address(),
                            seq![REG_MEAS_MODE, merged_interrupt_mode(old(self).shadow(), mode)],
                        ),
                    ),
                    final(self).ops(),
                ),
                Err(e) => final(self).shadow() == old(self).shadow() && register_op_err(
                    old(self).spec_address(),
                    e,
                    final(self).ops(),
                ),
            },
    {
        let int_mask: u8 = match mode {
            InterruptMode::Disabled => 0x00,
            InterruptMode::OnDataReady => 0x08,
            InterruptMode::OnThresholdCrossed => 0x0C,
        };
        let meas_mode = (self.meas_mode_reg & 0x70) | int_mask;
        match self.write_register_1byte(REG_MEAS_MODE, meas_mode) {
            Ok(()) => {
                self.meas_mode_reg = meas_mode;
                Ok(())
            },
            Err(e) => Err(e),
        }
    }

    /// Check whether a new data sample is ready, decoded from the
    /// data-ready status bit.
    pub fn has_data_ready(&mut self) -> (r: Result<bool, ErrorAwake<CommE>>)
        ensures
            final(self).spec_address() == old(self).spec_address(),
            final(self).shadow() == old(self).shadow(),
            final(self).pending() == old(self).pending(),
            extends(old(self).ops(), final(self).ops()),
            match r {
                Ok(ready) => status_query_transcript(
                    old(self).spec_address(),
                    old(self).ops(),
                    final(self).ops(),
                    FLAG_DATA_READY,
                    ready,
                ),
                Err(e) => register_op_err(old(self).spec_address(), e, final(self).ops()),
            },
    {
        let status = match self.read_status() {
            Ok(status) => status,
            Err(e) => {
                return Err(e);
            },
        };
        Ok((status & FLAG_DATA_READY) != 0)
    }

    /// Get the raw sensor data as a (current, voltage) pair.
    ///
    /// The current is a value between 0 and 63 uA. The voltage contains the
    /// value as computed in the ADC (1023 = 1.65V).
    pub fn raw_data(&mut self) -> (r: Result<(u8, u16), ErrorAwake<CommE>>)
        ensures
            final(self).spec_address() == old(self).spec_address(),
            final(self).shadow() == old(self).shadow(),
            final(self).pending() == old(self).pending(),
            extends(old(self).ops(), final(self).ops()),
            match r {
                Ok(rd) => raw_data_transcript(
                    old(self).spec_address(),
                    old(self).ops(),
                    final(self).ops(),
                    rd,
                ),
                Err(e) => register_op_err(old(self).spec_address(), e, final(self).ops()),
            },
    {
        let data = match self.read_register_2bytes(REG_RAW_DATA) {
            Ok(data) => data,
            Err(e) => {
                return Err(e);
            },
        };
        Ok(handle_raw_data(data[0], data[1]))
    }

    /// Get the algorithm result data: eCO2 and eTVOC estimates plus raw
    /// sensor data, read as one 8-byte block.
    ///
    /// If the status byte inside the block reports an error, the
    /// accompanying error-id byte is decoded and the call fails with the
    /// device error set; otherwise, if the data-ready bit is clear, the
    /// result is not ready yet and `PollError::WouldBlock` is returned.
    pub fn data(&mut self) -> (r: Result<AlgorithmResult, PollError<ErrorAwake<CommE>>>)
        ensures
            final(self).spec_address() == old(self).spec_address(),
            final(self).shadow() == old(self).shadow(),
            final(self).pending() == old(self).pending(),
            extends(old(self).ops(), final(self).ops()),
            match r {
                Ok(result) => alg_result_transcript(
                    old(self).spec_address(),
                    old(self).ops(),
                    final(self).ops(),
                    result,
                ),
                Err(PollError::WouldBlock) => alg_result_blocked(
                    old(self).spec_address(),
                    old(self).ops(),
                    final(self).ops(),
                ),
                Err(PollError::Other(ErrorAwake::I2C(_))) => final(self).ops() == old(self).ops(),
                Err(PollError::Other(ErrorAwake::Device(errors))) => alg_result_device_err(
                    old(self).spec_address(),
                    old(self).ops(),
                    final(self).ops(),
                    errors,
                ),
                Err(PollError::Other(_)) => false,
            },
    {
        let ghost pre = self.ops();
        let data = match self.i2c.write_read(self.address, REG_ALG_RESULT_DATA, 8) {
            Ok(data) => data,
            Err(e) => {
                return Err(PollError::Other(ErrorAwake::I2C(e)));
            },
        };
        proof {
            assert(self.ops() == pre.push(alg_read_op(self.spec_address(), data@)));
            lemma_push_extends(pre, alg_read_op(self.spec_address(), data@));
        }
        let status = data[4];
        if (status & FLAG_ERROR) != 0 {
            match get_errors(data[5]) {
                Err(errors) => {
                    return Err(PollError::Other(ErrorAwake::Device(errors)));
                },
                Ok(()) => {},
            }
        } else if (status & FLAG_DATA_READY) == 0 {
            return Err(PollError::WouldBlock);
        }
        let raw = handle_raw_data(data[6], data[7]);
        let result = AlgorithmResult {
            eco2: ((data[0] as u16) << 8) | (data[1] as u16),
            etvoc: ((data[2] as u16) << 8) | (data[3] as u16),
            raw_current: raw.0,
            raw_voltage: raw.1,
        };
        proof {
            assert(result == spec_algorithm_result(data@));
            assert(alg_result_available(data@));
        }
        Ok(result)
    }

    /// Set the environment temperature and relative humidity used for
    /// compensation, both given in 1/512 units (humidity in 1/512 %,
    /// temperature in 1/512 degrees Celsius).
    ///
    /// The humidity must lie in [0, 51200] (0 % to 100 %) and the
    /// temperature must not exceed 130559 (just below 255 degrees Celsius);
    /// otherwise the call fails fast with `InvalidInputData` and no bus
    /// transaction is issued.
    pub fn set_environment(&mut self, humidity: i32, temperature: i32) -> (r: Result<
        (),
        ErrorAwake<CommE>,
    >)
        ensures
            final(self).spec_address() == old(self).spec_address(),
            final(self).shadow() == old(self).shadow(),
            final(self).pending() == old(self).pending(),
            extends(old(self).ops(), final(self).ops()),
            r matches Err(ErrorAwake::InvalidInputData) <==> !env_input_valid(
                humidity,
                temperature,
            ),
            !env_input_valid(humidity, temperature) ==> final(self).ops() == old(self).ops(),
            match r {
                Ok(()) => status_check_passed(
                    old(self).spec_address(),
                    old(self).ops().push(
                        env_data_op(old(self).spec_address(), humidity, temperature),
                    ),
                    final(self).ops(),
                ),
                Err(ErrorAwake::I2C(_)) => true,
                Err(ErrorAwake::Device(errors)) => register_op_err(
                    old(self).spec_address(),
                    ErrorAwake::Device::<CommE>(errors),
                    final(self).ops(),
                ),
                Err(ErrorAwake::NoValidApp) => false,
                Err(ErrorAwake::InvalidInputData) => true,
            },
    {
        if humidity < 0 || humidity > 51200 || temperature > 130559 {
            return Err(ErrorAwake::InvalidInputData);
        }
        let raw_humidity = get_raw_humidity(humidity as u16);
        let raw_temp = get_raw_temperature(temperature);
        let data = vec![REG_ENV_DATA, raw_humidity.0, raw_humidity.1, raw_temp.0, raw_temp.1];
        proof {
            assert(data@ =~= seq![
                REG_ENV_DATA,
                env_encode(humidity as u32).0,
                env_encode(humidity as u32).1,
                spec_raw_temperature(temperature).0,
                spec_raw_temperature(temperature).1,
            ]);
        }
        self.write_data(&data)
    }

    /// Get the current baseline as a raw 2-byte calibration value.
    pub fn baseline(&mut self) -> (r: Result<[u8; 2], ErrorAwake<CommE>>)
        ensures
            final(self).spec_address() == old(self).spec_address(),
            final(self).shadow() == old(self).shadow(),
            final(self).pending() == old(self).pending(),
            extends(old(self).ops(), final(self).ops()),
            match r {
                Ok(baseline) => status_check_passed(
                    old(self).spec_address(),
                    old(self).ops().push(
                        op_read2(old(self).spec_address(), REG_BASELINE, baseline[0], baseline[1]),
                    ),
                    final(self).ops(),
                ),
                Err(e) => register_op_err(old(self).spec_address(), e, final(self).ops()),
            },
    {
        self.read_register_2bytes(REG_BASELINE)
    }

    /// Restore a previously saved baseline calibration value.
    pub fn set_baseline(&mut self, baseline: [u8; 2]) -> (r: Result<(), ErrorAwake<CommE>>)
        ensures
            final(self).spec_address() == old(self).spec_address(),
            final(self).shadow() == old(self).shadow(),
            final(self).pending() == old(self).pending(),
            extends(old(self).ops(), final(self).ops()),
            match r {
                Ok(()) => status_check_passed(
                    old(self).spec_address(),
                    old(self).ops().push(
                        op_write(
                            old(self).spec_address(),
                            seq![REG_BASELINE, baseline[0], baseline[1]],
                        ),
                    ),
                    final(self).ops(),
                ),
                Err(e) => register_op_err(old(self).spec_address(), e, final(self).ops()),
            },
    {
        let data = vec![REG_BASELINE, baseline[0], baseline[1]];
        proof {
            assert(data@ =~= seq![REG_BASELINE, baseline@[0], baseline@[1]]);
        }
        self.write_data(&data)
    }

    /// Set the eCO2 threshold values for interrupt generation (in ppm),
    /// written as two big-endian 16-bit words.
    ///
    /// An interrupt will be asserted when the value moves out of the current
    /// range by more than 50 ppm.
    pub fn set_eco2_thresholds(&mut self, low_to_medium: u16, medium_to_high: u16) -> (r: Result<
        (),
        ErrorAwake<CommE>,
    >)
        ensures
            final(self).spec_address() == old(self).spec_address(),
            final(self).shadow() == old(self).shadow(),
            final(self).pending() == old(self).pending(),
            extends(old(self).ops(), final(self).ops()),
            match r {
                Ok(()) => status_check_passed(
                    old(self).spec_address(),
                    old(self).ops().push(
                        op_write(
                            old(self).spec_address(),
                            seq![
                                REG_THRESHOLDS,
                                (low_to_medium >> 8) as u8,
                                low_to_medium as u8,
                                (medium_to_high >> 8) as u8,
                                medium_to_high as u8,
                            ],
                        ),
                    ),
                    final(self).ops(),
                ),
                Err(e) => register_op_err(old(self).spec_address(), e, final(self).ops()),
            },
    {
        proof {
            assert(low_to_medium >> 8 < 256 && medium_to_high >> 8 < 256) by (bit_vector);
        }
        let data = vec![
            REG_THRESHOLDS,
            (low_to_medium >> 8) as u8,
            #[verifier::truncate] (low_to_medium as u8),
            (medium_to_high >> 8) as u8,
            #[verifier::truncate] (medium_to_high as u8),
        ];
        proof {
            assert(data@ =~= seq![
                REG_THRESHOLDS,
                (low_to_medium >> 8) as u8,
                low_to_medium as u8,
                (medium_to_high >> 8) as u8,
                medium_to_high as u8,
            ]);
        }
        self.write_data(&data)
    }
}

impl<I2C, CommE, PinE, NWAKE, WAKEDELAY> Ccs811<I2C, NWAKE, WAKEDELAY, App> where
    I2C: I2cBus<BusError = CommE>,
    NWAKE: WakePin<PinError = PinE>,
    WAKEDELAY: Delay,
 {
    /// Set the measurement mode.
    ///
    /// The sample-rate bits of the requested mode are merged with the
    /// interrupt bits cached in the shadow register and written in one
    /// transaction; the shadow is updated on success only.
    ///
    /// The operation is bracketed by the wake/sleep sequence; unless a pin
    /// error is reported, the wake pin is back inactive when it returns.
    ///
    /// NOTE: when changing to a new mode with a lower sample rate, place the
    /// device in `Idle` mode for at least 10 minutes before enabling the new
    /// mode.
    pub fn set_mode(&mut self, mode: MeasurementMode) -> (r: Result<(), Error<CommE, PinE>>)
        ensures
            final(self).spec_address() == old(self).spec_address(),
            final(self).pending() == old(self).pending(),
            extends(old(self).ops(), final(self).ops()),
            !(r matches Err(Error::Pin(_))) ==> !final(self).spec_pin().is_asserted(),
            match r {
                Ok(()) => final(self).shadow() == merged_meas_mode(old(self).shadow(), mode)
                    && status_check_passed(
                    old(self).spec_address(),
                    old(self).ops().push(
                        op_write(
                            old(self).spec_address(),
                            seq![REG_MEAS_MODE, merged_meas_mode(old(self).shadow(), mode)],
                        ),
                    ),
                    final(self).ops(),
                ),
                Err(Error::Pin(_)) => final(self).shadow() == old(self).shadow() || final(self).shadow() == merged_meas_mode(old(self).shadow(), mode),
                Err(e) => final(self).shadow() == old(self).shadow() && wrapped_op_err(
                    old(self).spec_address(),
                    e,
                    final(self).ops(),
                ),
            },
    {
        match self.n_wake_pin.set_low() {
            Ok(()) => {},
            Err(e) => {
                return Err(Error::Pin(e));
            },
        }
        self.wake_delay.delay_us(50);
        let result = self.dev.set_mode(mode);
        match self.n_wake_pin.set_high() {
            Ok(()) => {},
            Err(e) => {
                return Err(Error::Pin(e));
            },
        }
        self.wake_delay.delay_us(20);
        match result {
            Ok(()) => Ok(()),
            Err(e) => Err(Error::from(e)),
        }
    }

    /// Configure the interrupt generation.
    ///
    /// The sample-rate bits cached in the shadow register are kept and the
    /// interrupt bits are replaced; the shadow is updated on success only.
    ///
    /// The operation is bracketed by the wake/sleep sequence; unless a pin
    /// error is reported, the wake pin is back inactive when it returns.
    pub fn set_interrupt_mode(&mut self, mode: InterruptMode) -> (r: Result<
        (),
        Error<CommE, PinE>,
    >)
        ensures
            final(self).spec_address() == old(self).spec_address(),
            final(self).pending() == old(self).pending(),
            extends(old(self).ops(), final(self).ops()),
            !(r matches Err(Error::Pin(_))) ==> !final(self).spec_pin().is_asserted(),
            match r {
                Ok(()) => final(self).shadow() == merged_interrupt_mode(old(self).shadow(), mode)
                    && status_check_passed(
                    old(self).spec_address(),
                    old(self).ops().push(
                        op_write(
                            old(self).spec_address(),
                            seq![REG_MEAS_MODE, merged_interrupt_mode(old(self).shadow(), mode)],
                        ),
                    ),
                    final(self).ops(),
                ),
                Err(Error::Pin(_)) => final(self).shadow() == old(self).shadow() || final(self).shadow() == merged_interrupt_mode(old(self).shadow(), mode),
                Err(e) => final(self).shadow() == old(self).shadow() && wrapped_op_err(
                    old(self).spec_address(),
                    e,
                    final(self).ops(),
                ),
            },
    {
        match self.n_wake_pin.set_low() {
            Ok(()) => {},
            Err(e) => {
                return Err(Error::Pin(e));
            },
        }
        self.wake_delay.delay_us(50);
        let result = self.dev.set_interrupt_mode(mode);
        match self.n_wake_pin.set_high() {
            Ok(()) => {},
            Err(e) => {
                return Err(Error::Pin(e));
            },
        }
        self.wake_delay.delay_us(20);
        match result {
            Ok(()) => Ok(()),
            Err(e) => Err(Error::from(e)),
        }
    }

    /// Check whether a new data sample is ready, decoded from the
    /// data-ready status bit.
    ///
    /// The operation is bracketed by the wake/sleep sequence; unless a pin
    /// error is reported, the wake pin is back inactive when it returns.
    pub fn has_data_ready(&mut self) -> (r: Result<bool, Error<CommE, PinE>>)
        ensures
            final(self).spec_address() == old(self).spec_address(),
            final(self).shadow() == old(self).shadow(),
            final(self).pending() == old(self).pending(),
            extends(old(self).ops(), final(self).ops()),
            !(r matches Err(Error::Pin(_))) ==> !final(self).spec_pin().is_asserted(),
            match r {
                Ok(ready) => status_query_transcript(
                    old(self).spec_address(),
                    old(self).ops(),
                    final(self).ops(),
                    FLAG_DATA_READY,
                    ready,
                ),
                Err(e) => wrapped_op_err(old(self).spec_address(), e, final(self).ops()),
            },
    {
        match self.n_wake_pin.set_low() {
            Ok(()) => {},
            Err(e) => {
                return Err(Error::Pin(e));
            },
        }
        self.wake_delay.delay_us(50);
        let result = self.dev.has_data_ready();
        match self.n_wake_pin.set_high() {
            Ok(()) => {},
            Err(e) => {
                return Err(Error::Pin(e));
            },
        }
        self.wake_delay.delay_us(20);
        match result {
            Ok(v) => Ok(v),
            Err(e) => Err(Error::from(e)),
        }
    }

    /// Get the raw sensor data as a (current, voltage) pair.
    ///
    /// The current is a value between 0 and 63 uA. The voltage contains the
    /// value as computed in the ADC (1023 = 1.65V).
    ///
    /// The operation is bracketed by the wake/sleep sequence; unless a pin
    /// error is reported, the wake pin is back inactive when it returns.
    pub fn raw_data(&mut self) -> (r: Result<(u8, u16), Error<CommE, PinE>>)
        ensures
            final(self).spec_address() == old(self).spec_address(),
            final(self).shadow() == old(self).shadow(),
            final(self).pending() == old(self).pending(),
            extends(old(self).ops(), final(self).ops()),
            !(r matches Err(Error::Pin(_))) ==> !final(self).spec_pin().is_asserted(),
            match r {
                Ok(rd) => raw_data_transcript(
                    old(self).spec_address(),
                    old(self).ops(),
                    final(self).ops(),
                    rd,
                ),
                Err(e) => wrapped_op_err(old(self).spec_address(), e, final(self).ops()),
            },
    {
        match self.n_wake_pin.set_low() {
            Ok(()) => {},
            Err(e) => {
                return Err(Error::Pin(e));
            },
        }
        self.wake_delay.delay_us(50);
        let result = self.dev.raw_data();
        match self.n_wake_pin.set_high() {
            Ok(()) => {},
            Err(e) => {
                return Err(Error::Pin(e));
            },
        }
        self.wake_delay.delay_us(20);
        match result {
            Ok(v) => Ok(v),
            Err(e) => Err(Error::from(e)),
        }
    }

    /// Get the algorithm result data: eCO2 and eTVOC estimates plus raw
    /// sensor data, read as one 8-byte block.
    ///
    /// If the status byte inside the block reports an error, the
    /// accompanying error-id byte is decoded and the call fails with the
    /// device error set; otherwise, if the data-ready bit is clear, the
    /// result is not ready yet and `PollError::WouldBlock` is returned.
    ///
    /// The operation is bracketed by the wake/sleep sequence; unless a pin
    /// error is reported, the wake pin is back inactive when it returns.
    pub fn data(&mut self) -> (r: Result<AlgorithmResult, PollError<Error<CommE, PinE>>>)
        ensures
            final(self).spec_address() == old(self).spec_address(),
            final(self).shadow() == old(self).shadow(),
            final(self).pending() == old(self).pending(),
            extends(old(self).ops(), final(self).ops()),
            !(r matches Err(PollError::Other(Error::Pin(_)))) ==> !final(self).spec_pin().is_asserted(),
            match r {
                Ok(result) => alg_result_transcript(
                    old(self).spec_address(),
                    old(self).ops(),
                    final(self).ops(),
                    result,
                ),
                Err(PollError::WouldBlock) => alg_result_blocked(
                    old(self).spec_address(),
                    old(self).ops(),
                    final(self).ops(),
                ),
                Err(PollError::Other(Error::I2C(_))) => final(self).ops() == old(self).ops(),
                Err(PollError::Other(Error::Pin(_))) => true,
                Err(PollError::Other(Error::Device(errors))) => alg_result_device_err(
                    old(self).spec_address(),
                    old(self).ops(),
                    final(self).ops(),
                    errors,
                ),
                Err(PollError::Other(_)) => false,
            },
    {
        match self.n_wake_pin.set_low() {
            Ok(()) => {},
            Err(e) => {
                return Err(PollError::Other(Error::Pin(e)));
            },
        }
        self.wake_delay.delay_us(50);
        let result = self.dev.data();
        match self.n_wake_pin.set_high() {
            Ok(()) => {},
            Err(e) => {
                return Err(PollError::Other(Error::Pin(e)));
            },
        }
        self.wake_delay.delay_us(20);
        match result {
            Ok(v) => Ok(v),
            Err(PollError::WouldBlock) => Err(PollError::WouldBlock),
            Err(PollError::Other(e)) => Err(PollError::Other(Error::from(e))),
        }
    }

    /// Set the environment temperature and relative humidity used for
    /// compensation, both given in 1/512 units (humidity in 1/512 %,
    /// temperature in 1/512 degrees Celsius).
    ///
    /// The humidity must lie in [0, 51200] (0 % to 100 %) and the
    /// temperature must not exceed 130559 (just below 255 degrees Celsius);
    /// otherwise the call fails fast with `InvalidInputData` and no bus
    /// transaction is issued.
    ///
    /// The operation is bracketed by the wake/sleep sequence; unless a pin
    /// error is reported, the wake pin is back inactive when it returns.
    pub fn set_environment(&mut self, humidity: i32, temperature: i32) -> (r: Result<
        (),
        Error<CommE, PinE>,
    >)
        ensures
            final(self).spec_address() == old(self).spec_address(),
            final(self).shadow() == old(self).shadow(),
            final(self).pending() == old(self).pending(),
            extends(old(self).ops(), final(self).ops()),
            !(r matches Err(Error::Pin(_))) ==> !final(self).spec_pin().is_asserted(),
            r matches Err(Error::InvalidInputData) ==> !env_input_valid(humidity, temperature),
            !env_input_valid(humidity, temperature) ==> final(self).ops() == old(self).ops() && (
            r matches Err(Error::InvalidInputData) || r matches Err(Error::Pin(_))),
            match r {
                Ok(()) => env_input_valid(humidity, temperature) && status_check_passed(
                    old(self).spec_address(),
                    old(self).ops().push(
                        env_data_op(old(self).spec_address(), humidity, temperature),
                    ),
                    final(self).ops(),
                ),
                Err(Error::I2C(_)) => true,
                Err(Error::Pin(_)) => true,
                Err(Error::Device(errors)) => register_op_err::<CommE>(
                    old(self).spec_address(),
                    ErrorAwake::Device(errors),
                    final(self).ops(),
                ),
                Err(Error::NoValidApp) => false,
                Err(Error::InvalidInputData) => true,
            },
    {
        match self.n_wake_pin.set_low() {
            Ok(()) => {},
            Err(e) => {
                return Err(Error::Pin(e));
            },
        }
        self.wake_delay.delay_us(50);
        let result = self.dev.set_environment(humidity, temperature);
        match self.n_wake_pin.set_high() {
            Ok(()) => {},
            Err(e) => {
                return Err(Error::Pin(e));
            },
        }
        self.wake_delay.delay_us(20);
        match result {
            Ok(()) => Ok(()),
            Err(e) => Err(Error::from(e)),
        }
    }

    /// Get the current baseline as a raw 2-byte calibration value.
    ///
    /// The operation is bracketed by the wake/sleep sequence; unless a pin
    /// error is reported, the wake pin is back inactive when it returns.
    pub fn baseline(&mut self) -> (r: Result<[u8; 2], Error<CommE, PinE>>)
        ensures
            final(self).spec_address() == old(self).spec_address(),
            final(self).shadow() == old(self).shadow(),
            final(self).pending() == old(self).pending(),
            extends(old(self).ops(), final(self).ops()),
            !(r matches Err(Error::Pin(_))) ==> !final(self).spec_pin().is_asserted(),
            match r {
                Ok(baseline) => status_check_passed(
                    old(self).spec_address(),
                    old(self).ops().push(
                        op_read2(old(self).spec_address(), REG_BASELINE, baseline[0], baseline[1]),
                    ),
                    final(self).ops(),
                ),
                Err(e) => wrapped_op_err(old(self).spec_address(), e, final(self).ops()),
            },
    {
        match self.n_wake_pin.set_low() {
            Ok(()) => {},
            Err(e) => {
                return Err(Error::Pin(e));
            },
        }
        self.wake_delay.delay_us(50);
        let result = self.dev.baseline();
        match self.n_wake_pin.set_high() {
            Ok(()) => {},
            Err(e) => {
                return Err(Error::Pin(e));
            },
        }
        self.wake_delay.delay_us(20);
        match result {
            Ok(v) => Ok(v),
            Err(e) => Err(Error::from(e)),
        }
    }

    /// Restore a previously saved baseline calibration value.
    ///
    /// The operation is bracketed by the wake/sleep sequence; unless a pin
    /// error is reported, the wake pin is back inactive when it returns.
    pub fn set_baseline(&mut self, baseline: [u8; 2]) -> (r: Result<(), Error<CommE, PinE>>)
        ensures
            final(self).spec_address() == old(self).spec_address(),
            final(self).shadow() == old(self).shadow(),
            final(self).pending() == old(self).pending(),
            extends(old(self).ops(), final(self).ops()),
            !(r matches Err(Error::Pin(_))) ==> !final(self).spec_pin().is_asserted(),
            match r {
                Ok(()) => status_check_passed(
                    old(self).spec_address(),
                    old(self).ops().push(
                        op_write(
                            old(self).spec_address(),
                            seq![REG_BASELINE, baseline[0], baseline[1]],
                        ),
                    ),
                    final(self).ops(),
                ),
                Err(e) => wrapped_op_err(old(self).spec_address(), e, final(self).ops()),
            },
    {
        match self.n_wake_pin.set_low() {
            Ok(()) => {},
            Err(e) => {
                return Err(Error::Pin(e));
            },
        }
        self.wake_delay.delay_us(50);
        let result = self.dev.set_baseline(baseline);
        match self.n_wake_pin.set_high() {
            Ok(()) => {},
            Err(e) => {
                return Err(Error::Pin(e));
            },
        }
        self.wake_delay.delay_us(20);
        match result {
            Ok(()) => Ok(()),
            Err(e) => Err(Error::from(e)),
        }
    }

    /// Set the eCO2 threshold values for interrupt generation (in ppm),
    /// written as two big-endian 16-bit words.
    ///
    /// An interrupt will be asserted when the value moves out of the current
    /// range by more than 50 ppm.
    ///
    /// The operation is bracketed by the wake/sleep sequence; unless a pin
    /// error is reported, the wake pin is back inactive when it returns.
    pub fn set_eco2_thresholds(&mut self, low_to_medium: u16, medium_to_high: u16) -> (r: Result<
        (),
        Error<CommE, PinE>,
    >)
        ensures
            final(self).spec_address() == old(self).spec_address(),
            final(self).shadow() == old(self).shadow(),
            final(self).pending() == old(self).pending(),
            extends(old(self).ops(), final(self).ops()),
            !(r matches Err(Error::Pin(_))) ==> !final(self).spec_pin().is_asserted(),
            match r {
                Ok(()) => status_check_passed(
                    old(self).spec_address(),
                    old(self).ops().push(
                        op_write(
                            old(self).spec_address(),
                            seq![
                                REG_THRESHOLDS,
                                (low_to_medium >> 8) as u8,
                                low_to_medium as u8,
                                (medium_to_high >> 8) as u8,
                                medium_to_high as u8,
                            ],
                        ),
                    ),
                    final(self).ops(),
                ),
                Err(e) => wrapped_op_err(old(self).spec_address(), e, final(self).ops()),
            },
    {
        match self.n_wake_pin.set_low() {
            Ok(()) => {},
            Err(e) => {
                return Err(Error::Pin(e));
            },
        }
        self.wake_delay.delay_us(50);
        let result = self.dev.set_eco2_thresholds(low_to_medium, medium_to_high);
        match self.n_wake_pin.set_high() {
            Ok(()) => {},
            Err(e) => {
                return Err(Error::Pin(e));
            },
        }
        self.wake_delay.delay_us(20);
        match result {
            Ok(()) => Ok(()),
            Err(e) => Err(Error::from(e)),
        }
    }
}

} // verus!
