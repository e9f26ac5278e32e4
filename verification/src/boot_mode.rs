//! Boot-mode operations: the erase / download / verify firmware-update
//! state machine with its non-blocking polling primitives, the transition
//! into application mode, and the software reset.

use vstd::prelude::*;

use crate::bus::{
    extends, lemma_add_extends, lemma_extends_index, lemma_extends_trans, lemma_push_extends,
    BusOp, Delay, I2cBus, WakePin,
};
use crate::register_access::{
    checked_ok, erase_trigger_op, op_write, register_op_err, status_check_passed,
    status_query_transcript, sw_reset_op, verify_trigger_op, FLAG_APP_ERASE, FLAG_APP_VALID,
    FLAG_APP_VERIFY, REG_APP_ERASE, REG_APP_START, REG_APP_VERIFY, REG_BOOT_APP,
};
use crate::common_impl::wrapped_op_err;
use crate::types::{Error, ErrorAwake, ModeChangeError, PollError};
use crate::{ActionInProgress, App, Boot, Ccs811, Ccs811Awake};

verus! {

/// How many polls each phase of [`Ccs811Awake::update_application`] grants
/// the device before giving up, so that the recovery sequence provably
/// terminates. With the fixed inter-poll sleeps this allows well over an
/// hour per phase, orders of magnitude above the device's worst-case
/// processing time.
pub const UPDATE_POLL_LIMIT: u32 = 10000;

/// Transcript of a completed poll: a status check in which the completion
/// bit was observed set.
pub open spec fn poll_complete_transcript(
    addr: u8,
    bit: u8,
    pre: Seq<BusOp>,
    post: Seq<BusOp>,
) -> bool {
    exists|status: u8| #[trigger] checked_ok(addr, status, pre, post) && status & bit != 0
}

/// Transcript of a pending poll that did not re-issue its trigger: only a
/// status check in which the completion bit was still clear.
pub open spec fn poll_pending_transcript(
    addr: u8,
    bit: u8,
    pre: Seq<BusOp>,
    post: Seq<BusOp>,
) -> bool {
    exists|status: u8| #[trigger] checked_ok(addr, status, pre, post) && status & bit == 0
}

/// Transcript of a first poll: a status check in which the completion bit
/// was clear, followed by the write that triggers the action.
pub open spec fn poll_triggered_transcript(
    addr: u8,
    trigger: BusOp,
    bit: u8,
    pre: Seq<BusOp>,
    post: Seq<BusOp>,
) -> bool {
    exists|status: u8, mid: Seq<BusOp>|
        #[trigger] checked_ok(addr, status, pre, mid) && status & bit == 0 && post == mid.push(
            trigger,
        )
}

/// The write of one 8-byte firmware chunk: the download opcode followed by
/// the bytes of the `i`-th chunk of the image.
pub open spec fn chunk_write_op(addr: u8, bin: Seq<u8>, i: int) -> BusOp {
    op_write(addr, seq![REG_BOOT_APP] + bin.subrange(8 * i, 8 * i + 8))
}

/// The writes that download the whole firmware image, one per 8-byte chunk.
pub open spec fn chunk_writes(addr: u8, bin: Seq<u8>) -> Seq<BusOp> {
    Seq::new((bin.len() / 8) as nat, |i: int| chunk_write_op(addr, bin, i))
}

impl<I2C, CommE> Ccs811Awake<I2C, Boot> where I2C: I2cBus<BusError = CommE> {
    /// Start the loaded application firmware, consuming the boot-mode
    /// driver and yielding an application-mode one.
    ///
    /// The app-valid status bit is checked first; when it is clear the call
    /// fails with `NoValidApp` and the original boot-mode driver is
    /// returned unchanged, so the caller can retry or fall back. Any I/O
    /// error equally hands the original driver back together with the
    /// error.
    ///
    /// NOTE: after this call 1 ms must be waited before sending application
    /// commands.
    pub fn start_application(self) -> (r: Result<
        Ccs811Awake<I2C, App>,
        ModeChangeError<ErrorAwake<CommE>, Ccs811Awake<I2C, Boot>>,
    >)
        ensures
            match r {
                Ok(dev) => dev.spec_address() == self.spec_address() && dev.shadow() == 0
                    && dev.pending() == ActionInProgress::Idle && extends(self.ops(), dev.ops())
                    && exists|mid: Seq<BusOp>|
                    #![auto]
                    status_query_transcript(
                        self.spec_address(),
                        self.ops(),
                        mid,
                        FLAG_APP_VALID,
                        true,
                    ) && status_check_passed(
                        self.spec_address(),
                        mid.push(op_write(self.spec_address(), seq![REG_APP_START])),
                        dev.ops(),
                    ),
                Err(mce) => mce.dev.spec_address() == self.spec_address() && mce.dev.shadow()
                    == self.shadow() && mce.dev.pending() == self.pending() && extends(
                    self.ops(),
                    mce.dev.ops(),
                ) && match mce.error {
                    ErrorAwake::NoValidApp => status_query_transcript(
                        self.spec_address(),
                        self.ops(),
                        mce.dev.ops(),
                        FLAG_APP_VALID,
                        false,
                    ),
                    ErrorAwake::I2C(_) => true,
                    ErrorAwake::Device(errors) => register_op_err(
                        self.spec_address(),
                        ErrorAwake::Device::<CommE>(errors),
                        mce.dev.ops(),
                    ),
                    ErrorAwake::InvalidInputData => false,
                },
            },
    {
        let mut s = self;
        let ghost pre = s.ops();
        let is_valid = match s.has_valid_app() {
            Ok(is_valid) => is_valid,
            Err(e) => {
                return Err(ModeChangeError::new(s, e));
            },
        };
        if !is_valid {
            return Err(ModeChangeError::new(s, ErrorAwake::NoValidApp));
        }
        let ghost mid = s.ops();
        match s.write_register_no_data(REG_APP_START) {
            Ok(()) => {
                proof {
                    lemma_extends_trans(pre, mid, s.ops());
                }
                Ok(Ccs811Awake::create(s.i2c, s.address))
            },
            Err(e) => {
                proof {
                    lemma_extends_trans(pre, mid, s.ops());
                }
                Err(ModeChangeError::new(s, e))
            },
        }
    }

    /// Poll an application verification.
    ///
    /// On the first call (no verification pending) the verify opcode is
    /// written and `PollError::WouldBlock` is returned; subsequent calls
    /// only re-read the status and never re-issue the trigger. Once the
    /// verify-complete status bit is observed, the pending action resets and
    /// the call returns successfully. A hard error aborts immediately and
    /// leaves the pending action unchanged, so the caller may retry the
    /// same poll.
    ///
    /// NOTE: after the first call, 70 ms must be waited before polling
    /// again.
    pub fn verify_application(&mut self) -> (r: Result<(), PollError<ErrorAwake<CommE>>>)
        ensures
            final(self).spec_address() == old(self).spec_address(),
            final(self).shadow() == old(self).shadow(),
            extends(old(self).ops(), final(self).ops()),
            match r {
                Ok(()) => final(self).pending() == ActionInProgress::Idle
                    && poll_complete_transcript(
                    old(self).spec_address(),
                    FLAG_APP_VERIFY,
                    old(self).ops(),
                    final(self).ops(),
                ),
                Err(PollError::WouldBlock) => final(self).pending() == ActionInProgress::Verifying
                    && if old(self).pending() == ActionInProgress::Verifying {
                    poll_pending_transcript(
                        old(self).spec_address(),
                        FLAG_APP_VERIFY,
                        old(self).ops(),
                        final(self).ops(),
                    )
                } else {
                    poll_triggered_transcript(
                        old(self).spec_address(),
                        verify_trigger_op(old(self).spec_address()),
                        FLAG_APP_VERIFY,
                        old(self).ops(),
                        final(self).ops(),
                    )
                },
                Err(PollError::Other(e)) => final(self).pending() == old(self).pending()
                    && register_op_err(old(self).spec_address(), e, final(self).ops()),
            },
    {
        let ghost pre = self.ops();
        let status = match self.read_status() {
            Ok(status) => status,
            Err(e) => {
                return Err(PollError::Other(e));
            },
        };
        let verified = (status & FLAG_APP_VERIFY) != 0;
        if !verified {
            if self.in_progress == ActionInProgress::Verifying {
                Err(PollError::WouldBlock)
            } else {
                let ghost mid = self.ops();
                let data = vec![REG_APP_VERIFY];
                match self.i2c.write(self.address, &data) {
                    Ok(()) => {
                        proof {
                            assert(data@ =~= seq![REG_APP_VERIFY]);
                            lemma_push_extends(mid, verify_trigger_op(self.spec_address()));
                            lemma_extends_trans(pre, mid, self.ops());
                        }
                        self.in_progress = ActionInProgress::Verifying;
                        Err(PollError::WouldBlock)
                    },
                    Err(e) => Err(PollError::Other(ErrorAwake::I2C(e))),
                }
            }
        } else {
            self.in_progress = ActionInProgress::Idle;
            Ok(())
        }
    }

    /// Poll an application erase.
    ///
    /// On the first call (no erase pending) the erase opcode is written
    /// together with its 4-byte magic sequence and `PollError::WouldBlock`
    /// is returned; subsequent calls only re-read the status and never
    /// re-issue the trigger. Once the erase-complete status bit is
    /// observed, the pending action resets and the call returns
    /// successfully. A hard error aborts immediately and leaves the pending
    /// action unchanged, so the caller may retry the same poll.
    ///
    /// NOTE: after the first call, 500 ms must be waited before polling
    /// again.
    pub fn erase_application(&mut self) -> (r: Result<(), PollError<ErrorAwake<CommE>>>)
        ensures
            final(self).spec_address() == old(self).spec_address(),
            final(self).shadow() == old(self).shadow(),
            extends(old(self).ops(), final(self).ops()),
            match r {
                Ok(()) => final(self).pending() == ActionInProgress::Idle
                    && poll_complete_transcript(
                    old(self).spec_address(),
                    FLAG_APP_ERASE,
                    old(self).ops(),
                    final(self).ops(),
                ),
                Err(PollError::WouldBlock) => final(self).pending() == ActionInProgress::Erasing
                    && if old(self).pending() == ActionInProgress::Erasing {
                    poll_pending_transcript(
                        old(self).spec_address(),
                        FLAG_APP_ERASE,
                        old(self).ops(),
                        final(self).ops(),
                    )
                } else {
                    poll_triggered_transcript(
                        old(self).spec_address(),
                        erase_trigger_op(old(self).spec_address()),
                        FLAG_APP_ERASE,
                        old(self).ops(),
                        final(self).ops(),
                    )
                },
                Err(PollError::Other(e)) => final(self).pending() == old(self).pending()
                    && register_op_err(old(self).spec_address(), e, final(self).ops()),
            },
    {
        let ghost pre = self.ops();
        let status = match self.read_status() {
            Ok(status) => status,
            Err(e) => {
                return Err(PollError::Other(e));
            },
        };
        let erased = (status & FLAG_APP_ERASE) != 0;
        if !erased {
            if self.in_progress == ActionInProgress::Erasing {
                Err(PollError::WouldBlock)
            } else {
                let ghost mid = self.ops();
                let data = vec![REG_APP_ERASE, 0xE7, 0xA7, 0xE6, 0x09];
                match self.i2c.write(self.address, &data) {
                    Ok(()) => {
                        proof {
                            assert(data@ =~= seq![
                                REG_APP_ERASE,
                                0xE7,
                                0xA7,
                                0xE6,
                                0x09,
                            ]);
                            lemma_push_extends(mid, erase_trigger_op(self.spec_address()));
                            lemma_extends_trans(pre, mid, self.ops());
                        }
                        self.in_progress = ActionInProgress::Erasing;
                        Err(PollError::WouldBlock)
                    },
                    Err(e) => Err(PollError::Other(ErrorAwake::I2C(e))),
                }
            }
        } else {
            self.in_progress = ActionInProgress::Idle;
            Ok(())
        }
    }

    /// Download a new application firmware image.
    ///
    /// The image length must be a multiple of the 8-byte chunk size; a
    /// violation fails fast with `InvalidInputData` before any I/O. Each
    /// chunk is written as the download opcode followed by its 8 bytes,
    /// with a fixed 50 ms delay after each write to respect the device's
    /// processing latency; a final status check surfaces any device-reported
    /// fault. This takes at least 50 ms * (image size / 8).
    pub fn download_application<D: Delay>(&mut self, bin: &Vec<u8>, delay: &mut D) -> (r: Result<
        (),
        ErrorAwake<CommE>,
    >)
        ensures
            final(self).spec_address() == old(self).spec_address(),
            final(self).shadow() == old(self).shadow(),
            final(self).pending() == old(self).pending(),
            extends(old(self).ops(), final(self).ops()),
            r matches Err(ErrorAwake::InvalidInputData) <==> bin@.len() % 8 != 0,
            bin@.len() % 8 != 0 ==> final(self).ops() == old(self).ops(),
            match r {
                Ok(()) => status_check_passed(
                    old(self).spec_address(),
                    old(self).ops() + chunk_writes(old(self).spec_address(), bin@),
                    final(self).ops(),
                ),
                Err(ErrorAwake::I2C(_)) => true,
                Err(ErrorAwake::Device(errors)) => register_op_err(
                    old(self).spec_address(),
                    ErrorAwake::Device::<CommE>(errors),
                    final(self).ops(),
                ),
                Err(ErrorAwake::NoValidApp) => false,
                Err(ErrorAwake::InvalidInputData) => true,
            },
    {
        if bin.len() % 8 != 0 {
            return Err(ErrorAwake::InvalidInputData);
        }
        let n = bin.len() / 8;
        let ghost pre = self.ops();
        let ghost addr = self.spec_address();
        let mut i: usize = 0;
        while i < n
            invariant
                addr == old(self).spec_address(),
                pre == old(self).ops(),
                i <= n,
                n == bin@.len() / 8,
                bin@.len() % 8 == 0,
                bin@.len() <= usize::MAX,
                self.spec_address() == addr,
                self.shadow() == old(self).shadow(),
                self.pending() == old(self).pending(),
                self.ops() == pre + chunk_writes(addr, bin@).subrange(0, i as int),
            decreases n - i,
        {
            let mut data: Vec<u8> = Vec::new();
            data.push(REG_BOOT_APP);
            proof {
                assert(data@ =~= seq![REG_BOOT_APP] + bin@.subrange(8 * i as int, 8 * i as int));
            }
            let mut k: usize = 0;
            while k < 8
                invariant
                    k <= 8,
                    i < n,
                    n == bin@.len() / 8,
                    bin@.len() % 8 == 0,
                    bin@.len() <= usize::MAX,
                    data@ == seq![REG_BOOT_APP] + bin@.subrange(8 * i as int, 8 * i + k as int),
                decreases 8 - k,
            {
                proof {
                    assert(8 * (i as int) + 8 <= 8 * (n as int));
                    assert(8 * (n as int) == bin@.len());
                }
                data.push(bin[i * 8 + k]);
                proof {
                    assert(data@ =~= seq![REG_BOOT_APP] + bin@.subrange(
                        8 * i as int,
                        8 * i + (k + 1) as int,
                    ));
                }
                k += 1;
            }
            let ghost ops_before = self.ops();
            match self.i2c.write(self.address, &data) {
                Ok(()) => {},
                Err(e) => {
                    proof {
                        lemma_add_extends(pre, chunk_writes(addr, bin@).subrange(0, i as int));
                    }
                    return Err(ErrorAwake::I2C(e));
                },
            }
            delay.delay_ms(50);
            proof {
                assert(BusOp::Write { addr, data: data@ } == chunk_write_op(addr, bin@, i as int));
                assert(self.ops() == ops_before.push(chunk_write_op(addr, bin@, i as int)));
                assert(chunk_writes(addr, bin@).subrange(0, i + 1 as int) =~= chunk_writes(
                    addr,
                    bin@,
                ).subrange(0, i as int).push(chunk_write_op(addr, bin@, i as int)));
                assert(self.ops() =~= pre + chunk_writes(addr, bin@).subrange(0, i + 1 as int));
            }
            i += 1;
        }
        proof {
            assert(chunk_writes(addr, bin@).subrange(0, n as int) =~= chunk_writes(addr, bin@));
            lemma_add_extends(pre, chunk_writes(addr, bin@));
        }
        let ghost mid = self.ops();
        let r = self.check_status_error();
        proof {
            lemma_extends_trans(pre, mid, self.ops());
        }
        r
    }

    /// Replace the application firmware: the full recovery sequence.
    ///
    /// Issues a software reset, waits for it to settle, polls the erase
    /// until it completes (sleeping a fixed interval between polls),
    /// downloads the image and polls the verification the same way. Any
    /// hard error at any stage aborts the whole sequence immediately,
    /// leaving the device in boot mode with an indeterminate firmware
    /// image: the operation is neither idempotent nor atomic, and on
    /// failure a caller must retry the entire sequence from the software
    /// reset, not resume mid-way.
    ///
    /// Each polling phase gives the device [`UPDATE_POLL_LIMIT`] polls; a
    /// device that still reports no completion by then surfaces as
    /// `PollError::WouldBlock`, upon which the caller must equally restart
    /// the whole sequence.
    pub fn update_application<D: Delay>(&mut self, bin: &Vec<u8>, delay: &mut D) -> (r: Result<
        (),
        PollError<ErrorAwake<CommE>>,
    >)
        ensures
            final(self).spec_address() == old(self).spec_address(),
            final(self).shadow() == old(self).shadow(),
            extends(old(self).ops(), final(self).ops()),
            r matches Err(PollError::Other(ErrorAwake::InvalidInputData)) ==> bin@.len() % 8 != 0,
            match r {
                Ok(()) => final(self).pending() == ActionInProgress::Idle && final(self).ops().len()
                    > old(self).ops().len() && final(self).ops()[old(self).ops().len() as int]
                    == sw_reset_op(old(self).spec_address()) && exists|mid: Seq<BusOp>|
                    #![auto]
                    poll_complete_transcript(
                        old(self).spec_address(),
                        FLAG_APP_VERIFY,
                        mid,
                        final(self).ops(),
                    ),
                Err(PollError::WouldBlock) => true,
                Err(PollError::Other(ErrorAwake::I2C(_))) => true,
                Err(PollError::Other(ErrorAwake::Device(errors))) => register_op_err(
                    old(self).spec_address(),
                    ErrorAwake::Device::<CommE>(errors),
                    final(self).ops(),
                ),
                Err(PollError::Other(ErrorAwake::NoValidApp)) => false,
                Err(PollError::Other(ErrorAwake::InvalidInputData)) => true,
            },
    {
        let ghost pre = self.ops();
        let ghost addr = self.spec_address();
        match self.write_sw_reset() {
            Ok(()) => {},
            Err(e) => {
                return Err(PollError::Other(e));
            },
        }
        proof {
            let st = choose|st: u8| checked_ok(addr, st, pre.push(sw_reset_op(addr)), self.ops());
            assert(checked_ok(addr, st, pre.push(sw_reset_op(addr)), self.ops()));
            assert(self.ops()[pre.len() as int] == sw_reset_op(addr));
        }
        delay.delay_ms(20);
        let ghost after_reset = self.ops();
        let mut erased = false;
        let mut attempts: u32 = 0;
        while !erased && attempts < UPDATE_POLL_LIMIT
            invariant
                addr == old(self).spec_address(),
                pre == old(self).ops(),
                self.spec_address() == addr,
                self.shadow() == old(self).shadow(),
                extends(after_reset, self.ops()),
                after_reset.len() > pre.len(),
                after_reset[pre.len() as int] == sw_reset_op(addr),
                extends(pre, self.ops()),
                erased ==> self.pending() == ActionInProgress::Idle,
            decreases UPDATE_POLL_LIMIT - attempts,
        {
            attempts += 1;
            let ghost loop_pre = self.ops();
            match self.erase_application() {
                Err(PollError::WouldBlock) => {
                    delay.delay_ms(500);
                    proof {
                        lemma_extends_trans(after_reset, loop_pre, self.ops());
                        lemma_extends_trans(pre, loop_pre, self.ops());
                    }
                },
                Err(PollError::Other(e)) => {
                    proof {
                        lemma_extends_trans(pre, loop_pre, self.ops());
                    }
                    return Err(PollError::Other(e));
                },
                Ok(()) => {
                    proof {
                        lemma_extends_trans(after_reset, loop_pre, self.ops());
                        lemma_extends_trans(pre, loop_pre, self.ops());
                    }
                    erased = true;
                },
            }
        }
        if !erased {
            return Err(PollError::WouldBlock);
        }
        let ghost after_erase = self.ops();
        match self.download_application(bin, delay) {
            Ok(()) => {},
            Err(e) => {
                proof {
                    lemma_extends_trans(pre, after_erase, self.ops());
                }
                return Err(PollError::Other(e));
            },
        }
        proof {
            lemma_extends_trans(after_reset, after_erase, self.ops());
            lemma_extends_trans(pre, after_erase, self.ops());
        }
        let ghost after_download = self.ops();
        let mut verified = false;
        attempts = 0;
        while !verified && attempts < UPDATE_POLL_LIMIT
            invariant
                addr == old(self).spec_address(),
                pre == old(self).ops(),
                self.spec_address() == addr,
                self.shadow() == old(self).shadow(),
                extends(after_download, self.ops()),
                after_download.len() > pre.len(),
                after_download[pre.len() as int] == sw_reset_op(addr),
                extends(pre, self.ops()),
                verified ==> self.pending() == ActionInProgress::Idle && exists|mid: Seq<BusOp>|
                    #![auto]
                    poll_complete_transcript(addr, FLAG_APP_VERIFY, mid, self.ops()),
            decreases UPDATE_POLL_LIMIT - attempts,
        {
            attempts += 1;
            let ghost loop_pre = self.ops();
            match self.verify_application() {
                Err(PollError::WouldBlock) => {
                    delay.delay_ms(70);
                    proof {
                        lemma_extends_trans(after_download, loop_pre, self.ops());
                        lemma_extends_trans(pre, loop_pre, self.ops());
                    }
                },
                Err(PollError::Other(e)) => {
                    proof {
                        lemma_extends_trans(pre, loop_pre, self.ops());
                    }
                    return Err(PollError::Other(e));
                },
                Ok(()) => {
                    proof {
                        lemma_extends_trans(after_download, loop_pre, self.ops());
                        lemma_extends_trans(pre, loop_pre, self.ops());
                    }
                    verified = true;
                },
            }
        }
        if !verified {
            return Err(PollError::WouldBlock);
        }
        proof {
            lemma_extends_index(after_download, self.ops(), pre.len() as int);
        }
        Ok(())
    }

    /// Restart the device in boot mode by writing the 4-byte magic reset
    /// sequence.
    ///
    /// The caller must wait 2 ms before doing any other operation; the
    /// settle time is not enforced internally.
    pub fn software_reset(&mut self) -> (r: Result<(), ErrorAwake<CommE>>)
        ensures
            final(self).spec_address() == old(self).spec_address(),
            final(self).shadow() == old(self).shadow(),
            final(self).pending() == old(self).pending(),
            extends(old(self).ops(), final(self).ops()),
            match r {
                Ok(()) => status_check_passed(
                    old(self).spec_address(),
                    old(self).ops().push(sw_reset_op(old(self).spec_address())),
                    final(self).ops(),
                ),
                Err(e) => register_op_err(old(self).spec_address(), e, final(self).ops()),
            },
    {
        self.write_sw_reset()
    }
}

impl<I2C, CommE> Ccs811Awake<I2C, App> where I2C: I2cBus<BusError = CommE> {
    /// Restart the device in boot mode, consuming the application-mode
    /// driver and yielding a boot-mode one.
    ///
    /// On failure the original application-mode driver is returned
    /// unchanged together with the error. The caller must wait 2 ms before
    /// doing any other operation.
    pub fn software_reset(self) -> (r: Result<
        Ccs811Awake<I2C, Boot>,
        ModeChangeError<ErrorAwake<CommE>, Ccs811Awake<I2C, App>>,
    >)
        ensures
            match r {
                Ok(dev) => dev.spec_address() == self.spec_address() && dev.shadow() == 0
                    && dev.pending() == ActionInProgress::Idle && extends(self.ops(), dev.ops())
                    && status_check_passed(
                    self.spec_address(),
                    self.ops().push(sw_reset_op(self.spec_address())),
                    dev.ops(),
                ),
                Err(mce) => mce.dev.spec_address() == self.spec_address() && mce.dev.shadow()
                    == self.shadow() && mce.dev.pending() == self.pending() && extends(
                    self.ops(),
                    mce.dev.ops(),
                ) && register_op_err(self.spec_address(), mce.error, mce.dev.ops()),
            },
    {
        let mut s = self;
        match s.write_sw_reset() {
            Ok(()) => Ok(Ccs811Awake::create(s.i2c, s.address)),
            Err(e) => Err(ModeChangeError::new(s, e)),
        }
    }
}

impl<I2C, CommE, PinE, NWAKE, WAKEDELAY> Ccs811<I2C, NWAKE, WAKEDELAY, Boot> where
    I2C: I2cBus<BusError = CommE>,
    NWAKE: WakePin<PinError = PinE>,
    WAKEDELAY: Delay,
 {
    /// Start the loaded application firmware, consuming the boot-mode
    /// driver and yielding an application-mode one.
    ///
    /// The app-valid status bit is checked first; when it is clear the call
    /// fails with `NoValidApp` and the original boot-mode driver is
    /// returned, so the caller can retry or fall back. The operation is
    /// bracketed by the wake/sleep sequence; when the wake pin cannot be
    /// restored after a successful transition, the handle is returned
    /// inside the error, still tagged as boot mode, together with the pin
    /// error.
    ///
    /// NOTE: after this call 1 ms must be waited before sending application
    /// commands.
    pub fn start_application(self) -> (r: Result<
        Ccs811<I2C, NWAKE, WAKEDELAY, App>,
        ModeChangeError<Error<CommE, PinE>, Ccs811<I2C, NWAKE, WAKEDELAY, Boot>>,
    >)
        ensures
            match r {
                Ok(dev) => dev.spec_address() == self.spec_address() && dev.shadow() == 0
                    && dev.pending() == ActionInProgress::Idle && !dev.spec_pin().is_asserted()
                    && extends(self.ops(), dev.ops()) && exists|mid: Seq<BusOp>|
                    #![auto]
                    status_query_transcript(
                        self.spec_address(),
                        self.ops(),
                        mid,
                        FLAG_APP_VALID,
                        true,
                    ) && status_check_passed(
                        self.spec_address(),
                        mid.push(op_write(self.spec_address(), seq![REG_APP_START])),
                        dev.ops(),
                    ),
                Err(mce) => mce.dev.spec_address() == self.spec_address() && extends(
                    self.ops(),
                    mce.dev.ops(),
                ) && match mce.error {
                    Error::Pin(_) => (mce.dev.shadow() == self.shadow() && mce.dev.pending()
                        == self.pending()) || (mce.dev.shadow() == 0 && mce.dev.pending()
                        == ActionInProgress::Idle),
                    Error::NoValidApp => mce.dev.shadow() == self.shadow() && mce.dev.pending()
                        == self.pending() && status_query_transcript(
                        self.spec_address(),
                        self.ops(),
                        mce.dev.ops(),
                        FLAG_APP_VALID,
                        false,
                    ),
                    Error::I2C(_) => mce.dev.shadow() == self.shadow() && mce.dev.pending()
                        == self.pending(),
                    Error::Device(errors) => mce.dev.shadow() == self.shadow() && mce.dev.pending()
                        == self.pending() && register_op_err(
                        self.spec_address(),
                        ErrorAwake::Device::<CommE>(errors),
                        mce.dev.ops(),
                    ),
                    Error::InvalidInputData => false,
                },
            },
    {
        let mut s = self;
        match s.n_wake_pin.set_low() {
            Ok(()) => {},
            Err(e) => {
                return Err(ModeChangeError::new(s, Error::Pin(e)));
            },
        }
        s.wake_delay.delay_us(50);
        let Ccs811 { dev, mut n_wake_pin, mut wake_delay } = s;
        let result = dev.start_application();
        match n_wake_pin.set_high() {
            Err(e) => match result {
                Ok(d) => {
                    let Ccs811Awake { i2c, address, .. } = d;
                    Err(
                        ModeChangeError::new(
                            Ccs811::create(i2c, address, n_wake_pin, wake_delay),
                            Error::Pin(e),
                        ),
                    )
                },
                Err(mce) => {
                    let ModeChangeError { dev: d, error } = mce;
                    Err(
                        ModeChangeError::new(
                            Ccs811::from_awake_dev(d, n_wake_pin, wake_delay),
                            Error::from(error),
                        ),
                    )
                },
            },
            Ok(()) => {
                wake_delay.delay_us(20);
                match result {
                    Ok(d) => Ok(Ccs811::from_awake_dev(d, n_wake_pin, wake_delay)),
                    Err(mce) => {
                        let ModeChangeError { dev: d, error } = mce;
                        Err(
                            ModeChangeError::new(
                                Ccs811::from_awake_dev(d, n_wake_pin, wake_delay),
                                Error::from(error),
                            ),
                        )
                    },
                }
            },
        }
    }

    /// Poll an application verification.
    ///
    /// On the first call (no verification pending) the verify opcode is
    /// written and `PollError::WouldBlock` is returned; subsequent calls
    /// only re-read the status and never re-issue the trigger. Once the
    /// verify-complete status bit is observed, the pending action resets
    /// and the call returns successfully.
    ///
    /// The operation is bracketed by the wake/sleep sequence.
    ///
    /// NOTE: after the first call, 70 ms must be waited before polling
    /// again.
    pub fn verify_application(&mut self) -> (r: Result<(), PollError<Error<CommE, PinE>>>)
        ensures
            final(self).spec_address() == old(self).spec_address(),
            final(self).shadow() == old(self).shadow(),
            extends(old(self).ops(), final(self).ops()),
            !(r matches Err(PollError::Other(Error::Pin(_)))) ==> !final(self).spec_pin().is_asserted(),
            match r {
                Ok(()) => final(self).pending() == ActionInProgress::Idle
                    && poll_complete_transcript(
                    old(self).spec_address(),
                    FLAG_APP_VERIFY,
                    old(self).ops(),
                    final(self).ops(),
                ),
                Err(PollError::WouldBlock) => final(self).pending() == ActionInProgress::Verifying
                    && if old(self).pending() == ActionInProgress::Verifying {
                    poll_pending_transcript(
                        old(self).spec_address(),
                        FLAG_APP_VERIFY,
                        old(self).ops(),
                        final(self).ops(),
                    )
                } else {
                    poll_triggered_transcript(
                        old(self).spec_address(),
                        verify_trigger_op(old(self).spec_address()),
                        FLAG_APP_VERIFY,
                        old(self).ops(),
                        final(self).ops(),
                    )
                },
                Err(PollError::Other(Error::Pin(_))) => true,
                Err(PollError::Other(e)) => final(self).pending() == old(self).pending()
                    && wrapped_op_err(old(self).spec_address(), e, final(self).ops()),
            },
    {
        match self.n_wake_pin.set_low() {
            Ok(()) => {},
            Err(e) => {
                return Err(PollError::Other(Error::Pin(e)));
            },
        }
        self.wake_delay.delay_us(50);
        let result = self.dev.verify_application();
        match self.n_wake_pin.set_high() {
            Ok(()) => {},
            Err(e) => {
                return Err(PollError::Other(Error::Pin(e)));
            },
        }
        self.wake_delay.delay_us(20);
        match result {
            Ok(()) => Ok(()),
            Err(PollError::WouldBlock) => Err(PollError::WouldBlock),
            Err(PollError::Other(e)) => Err(PollError::Other(Error::from(e))),
        }
    }

    /// Poll an application erase.
    ///
    /// On the first call (no erase pending) the erase opcode is written
    /// together with its 4-byte magic sequence and `PollError::WouldBlock`
    /// is returned; subsequent calls only re-read the status and never
    /// re-issue the trigger. Once the erase-complete status bit is
    /// observed, the pending action resets and the call returns
    /// successfully.
    ///
    /// The operation is bracketed by the wake/sleep sequence.
    ///
    /// NOTE: after the first call, 500 ms must be waited before polling
    /// again.
    pub fn erase_application(&mut self) -> (r: Result<(), PollError<Error<CommE, PinE>>>)
        ensures
            final(self).spec_address() == old(self).spec_address(),
            final(self).shadow() == old(self).shadow(),
            extends(old(self).ops(), final(self).ops()),
            !(r matches Err(PollError::Other(Error::Pin(_)))) ==> !final(self).spec_pin().is_asserted(),
            match r {
                Ok(()) => final(self).pending() == ActionInProgress::Idle
                    && poll_complete_transcript(
                    old(self).spec_address(),
                    FLAG_APP_ERASE,
                    old(self).ops(),
                    final(self).ops(),
                ),
                Err(PollError::WouldBlock) => final(self).pending() == ActionInProgress::Erasing
                    && if old(self).pending() == ActionInProgress::Erasing {
                    poll_pending_transcript(
                        old(self).spec_address(),
                        FLAG_APP_ERASE,
                        old(self).ops(),
                        final(self).ops(),
                    )
                } else {
                    poll_triggered_transcript(
                        old(self).spec_address(),
                        erase_trigger_op(old(self).spec_address()),
                        FLAG_APP_ERASE,
                        old(self).ops(),
                        final(self).ops(),
                    )
                },
                Err(PollError::Other(Error::Pin(_))) => true,
                Err(PollError::Other(e)) => final(self).pending() == old(self).pending()
                    && wrapped_op_err(old(self).spec_address(), e, final(self).ops()),
            },
    {
        match self.n_wake_pin.set_low() {
            Ok(()) => {},
            Err(e) => {
                return Err(PollError::Other(Error::Pin(e)));
            },
        }
        self.wake_delay.delay_us(50);
        let result = self.dev.erase_application();
        match self.n_wake_pin.set_high() {
            Ok(()) => {},
            Err(e) => {
                return Err(PollError::Other(Error::Pin(e)));
            },
        }
        self.wake_delay.delay_us(20);
        match result {
            Ok(()) => Ok(()),
            Err(PollError::WouldBlock) => Err(PollError::WouldBlock),
            Err(PollError::Other(e)) => Err(PollError::Other(Error::from(e))),
        }
    }

    /// Download a new application firmware image.
    ///
    /// The image length must be a multiple of the 8-byte chunk size; a
    /// violation fails fast with `InvalidInputData` before any bus
    /// transaction. Each chunk is written as the download opcode followed
    /// by its 8 bytes, with a fixed 50 ms delay after each write; a final
    /// status check surfaces any device-reported fault.
    ///
    /// The operation is bracketed by the wake/sleep sequence.
    pub fn download_application<D: Delay>(&mut self, bin: &Vec<u8>, delay: &mut D) -> (r: Result<
        (),
        Error<CommE, PinE>,
    >)
        ensures
            final(self).spec_address() == old(self).spec_address(),
            final(self).shadow() == old(self).shadow(),
            final(self).pending() == old(self).pending(),
            extends(old(self).ops(), final(self).ops()),
            !(r matches Err(Error::Pin(_))) ==> !final(self).spec_pin().is_asserted(),
            r matches Err(Error::InvalidInputData) ==> bin@.len() % 8 != 0,
            bin@.len() % 8 != 0 ==> final(self).ops() == old(self).ops() && (r matches Err(
                Error::InvalidInputData,
            ) || r matches Err(Error::Pin(_))),
            match r {
                Ok(()) => bin@.len() % 8 == 0 && status_check_passed(
                    old(self).spec_address(),
                    old(self).ops() + chunk_writes(old(self).spec_address(), bin@),
                    final(self).ops(),
                ),
                Err(Error::I2C(_)) => true,
                Err(Error::Pin(_)) => true,
                Err(Error::Device(errors)) => register_op_err(
                    old(self).spec_address(),
                    ErrorAwake::Device::<CommE>(errors),
                    final(self).ops(),
                ),
                Err(Error::NoValidApp) => false,
                Err(Error::InvalidInputData) => true,
            },
    {
        match self.n_wake_pin.set_low() {
            Ok(()) => {},
            Err(e) => {
                return Err(Error::Pin(e));
            },
        }
        self.wake_delay.delay_us(50);
        let result = self.dev.download_application(bin, delay);
        match self.n_wake_pin.set_high() {
            Ok(()) => {},
            Err(e) => {
                return Err(Error::Pin(e));
            },
        }
        self.wake_delay.delay_us(20);
        match result {
            Ok(()) => Ok(()),
            Err(e) => Err(Error::from(e)),
        }
    }

    /// Replace the application firmware: the full recovery sequence of
    /// software reset, erase polling, download and verify polling.
    ///
    /// Any hard error aborts the whole sequence immediately, leaving the
    /// device in boot mode with an indeterminate firmware image: on failure
    /// a caller must retry the entire sequence from the software reset. A
    /// device that reports no completion within [`UPDATE_POLL_LIMIT`] polls
    /// of a phase surfaces as `PollError::WouldBlock`, upon which the
    /// caller must equally restart the whole sequence.
    ///
    /// The operation is bracketed by the wake/sleep sequence.
    pub fn update_application<D: Delay>(&mut self, bin: &Vec<u8>, delay: &mut D) -> (r: Result<
        (),
        PollError<Error<CommE, PinE>>,
    >)
        ensures
            final(self).spec_address() == old(self).spec_address(),
            final(self).shadow() == old(self).shadow(),
            extends(old(self).ops(), final(self).ops()),
            !(r matches Err(PollError::Other(Error::Pin(_)))) ==> !final(self).spec_pin().is_asserted(),
            r matches Err(PollError::Other(Error::InvalidInputData)) ==> bin@.len() % 8 != 0,
            match r {
                Ok(()) => final(self).pending() == ActionInProgress::Idle && final(self).ops().len()
                    > old(self).ops().len() && final(self).ops()[old(self).ops().len() as int]
                    == sw_reset_op(old(self).spec_address()) && exists|mid: Seq<BusOp>|
                    #![auto]
                    poll_complete_transcript(
                        old(self).spec_address(),
                        FLAG_APP_VERIFY,
                        mid,
                        final(self).ops(),
                    ),
                Err(PollError::WouldBlock) => true,
                Err(PollError::Other(Error::I2C(_))) => true,
                Err(PollError::Other(Error::Pin(_))) => true,
                Err(PollError::Other(Error::Device(errors))) => register_op_err(
                    old(self).spec_address(),
                    ErrorAwake::Device::<CommE>(errors),
                    final(self).ops(),
                ),
                Err(PollError::Other(Error::NoValidApp)) => false,
                Err(PollError::Other(Error::InvalidInputData)) => true,
            },
    {
        match self.n_wake_pin.set_low() {
            Ok(()) => {},
            Err(e) => {
                return Err(PollError::Other(Error::Pin(e)));
            },
        }
        self.wake_delay.delay_us(50);
        let result = self.dev.update_application(bin, delay);
        match self.n_wake_pin.set_high() {
            Ok(()) => {},
            Err(e) => {
                return Err(PollError::Other(Error::Pin(e)));
            },
        }
        self.wake_delay.delay_us(20);
        match result {
            Ok(()) => Ok(()),
            Err(PollError::WouldBlock) => Err(PollError::WouldBlock),
            Err(PollError::Other(e)) => Err(PollError::Other(Error::from(e))),
        }
    }

    /// Restart the device in boot mode by writing the 4-byte magic reset
    /// sequence.
    ///
    /// The operation is bracketed by the wake/sleep sequence. The caller
    /// must wait 2 ms before doing any other operation; the settle time is
    /// not enforced internally.
    pub fn software_reset(&mut self) -> (r: Result<(), Error<CommE, PinE>>)
        ensures
            final(self).spec_address() == old(self).spec_address(),
            final(self).shadow() == old(self).shadow(),
            final(self).pending() == old(self).pending(),
            extends(old(self).ops(), final(self).ops()),
            !(r matches Err(Error::Pin(_))) ==> !final(self).spec_pin().is_asserted(),
            match r {
                Ok(()) => status_check_passed(
                    old(self).spec_address(),
                    old(self).ops().push(sw_reset_op(old(self).spec_address())),
                    final(self).ops(),
                ),
                Err(e) => wrapped_op_err(old(self).spec_address(), e, final(self).ops()),
            },
    {
        match self.n_wake_pin.set_low() {
            Ok(()) => {},
            Err(e) => {
                return Err(Error::Pin(e));
            },
        }
        self.wake_delay.delay_us(50);
        let result = self.dev.software_reset();
        match self.n_wake_pin.set_high() {
            Ok(()) => {},
            Err(e) => {
                return Err(Error::Pin(e));
            },
        }
        self.wake_delay.delay_us(20);
        match result {
            Ok(()) => Ok(()),
            Err(e) => Err(Error::from(e)),
        }
    }
}

impl<I2C, CommE, PinE, NWAKE, WAKEDELAY> Ccs811<I2C, NWAKE, WAKEDELAY, App> where
    I2C: I2cBus<BusError = CommE>,
    NWAKE: WakePin<PinError = PinE>,
    WAKEDELAY: Delay,
 {
    /// Restart the device in boot mode, consuming the application-mode
    /// driver and yielding a boot-mode one.
    ///
    /// On failure the original application-mode driver is returned together
    /// with the error. The operation is bracketed by the wake/sleep
    /// sequence; the caller must wait 2 ms before doing any other
    /// operation.
    pub fn software_reset(self) -> (r: Result<
        Ccs811<I2C, NWAKE, WAKEDELAY, Boot>,
        ModeChangeError<Error<CommE, PinE>, Ccs811<I2C, NWAKE, WAKEDELAY, App>>,
    >)
        ensures
            match r {
                Ok(dev) => dev.spec_address() == self.spec_address() && dev.shadow() == 0
                    && dev.pending() == ActionInProgress::Idle && !dev.spec_pin().is_asserted()
                    && extends(self.ops(), dev.ops()) && status_check_passed(
                    self.spec_address(),
                    self.ops().push(sw_reset_op(self.spec_address())),
                    dev.ops(),
                ),
                Err(mce) => mce.dev.spec_address() == self.spec_address() && extends(
                    self.ops(),
                    mce.dev.ops(),
                ) && match mce.error {
                    Error::Pin(_) => (mce.dev.shadow() == self.shadow() && mce.dev.pending()
                        == self.pending()) || (mce.dev.shadow() == 0 && mce.dev.pending()
                        == ActionInProgress::Idle),
                    Error::I2C(_) => mce.dev.shadow() == self.shadow() && mce.dev.pending()
                        == self.pending(),
                    Error::Device(errors) => mce.dev.shadow() == self.shadow() && mce.dev.pending()
                        == self.pending() && register_op_err(
                        self.spec_address(),
                        ErrorAwake::Device::<CommE>(errors),
                        mce.dev.ops(),
                    ),
                    Error::NoValidApp => false,
                    Error::InvalidInputData => false,
                },
            },
    {
        let mut s = self;
        match s.n_wake_pin.set_low() {
            Ok(()) => {},
            Err(e) => {
                return Err(ModeChangeError::new(s, Error::Pin(e)));
            },
        }
        s.wake_delay.delay_us(50);
        let Ccs811 { dev, mut n_wake_pin, mut wake_delay } = s;
        let result = dev.software_reset();
        match n_wake_pin.set_high() {
            Err(e) => match result {
                Ok(d) => {
                    let Ccs811Awake { i2c, address, .. } = d;
                    Err(
                        ModeChangeError::new(
                            Ccs811::create(i2c, address, n_wake_pin, wake_delay),
                            Error::Pin(e),
                        ),
                    )
                },
                Err(mce) => {
                    let ModeChangeError { dev: d, error } = mce;
                    Err(
                        ModeChangeError::new(
                            Ccs811::from_awake_dev(d, n_wake_pin, wake_delay),
                            Error::from(error),
                        ),
                    )
                },
            },
            Ok(()) => {
                wake_delay.delay_us(20);
                match result {
                    Ok(d) => Ok(Ccs811::from_awake_dev(d, n_wake_pin, wake_delay)),
                    Err(mce) => {
                        let ModeChangeError { dev: d, error } = mce;
                        Err(
                            ModeChangeError::new(
                                Ccs811::from_awake_dev(d, n_wake_pin, wake_delay),
                                Error::from(error),
                            ),
                        )
                    },
                }
            },
        }
    }
}

} // verus!
