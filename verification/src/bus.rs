//! Abstractions over the hardware the host platform supplies: the I2C bus
//! transport, the nWAKE output pin and the blocking delay provider.
//!
//! The transport carries a ghost history of the transactions performed on
//! it, so that the driver's contracts can state exactly which bytes were
//! written to the device and how the bytes read back were interpreted.

use vstd::prelude::*;

verus! {

/// One transaction performed on the bus, as recorded in the ghost history.
#[allow(dead_code)]
pub ghost enum BusOp {
    /// A plain write of `data` to the device at `addr`.
    Write { addr: u8, data: Seq<u8> },
    /// A write of the register byte `reg` to the device at `addr`, followed
    /// by a read that the device answered with `response`.
    WriteRead { addr: u8, reg: u8, response: Seq<u8> },
}

/// `post` is `pre` with zero or more operations appended.
pub open spec fn extends(pre: Seq<BusOp>, post: Seq<BusOp>) -> bool {
    pre.is_prefix_of(post)
}

/// A blocking I2C bus master.
///
/// The host platform implements this for its transport. The ghost history
/// `ops` lists every transaction performed so far; each method appends
/// exactly one entry when it succeeds and leaves the history unchanged when
/// it fails.
pub trait I2cBus: Sized {
    /// The transport's own error type.
    type BusError;

    /// Ghost history of the transactions performed on this bus.
    ///
    /// The default stands for a transport that does not track its history;
    /// an implementation verified against the contracts below overrides it.
    open spec fn ops(&self) -> Seq<BusOp> {
        Seq::empty()
    }

    /// Write `data` to the device at address `addr`.
    fn write(&mut self, addr: u8, data: &Vec<u8>) -> (r: Result<(), Self::BusError>)
        ensures
            r is Ok ==> final(self).ops() == old(self).ops().push(
                BusOp::Write { addr, data: data@ },
            ),
            r is Err ==> final(self).ops() == old(self).ops(),
    ;

    /// Write the register byte `reg` to the device at address `addr`, then
    /// read `len` bytes from it in the same transaction.
    fn write_read(&mut self, addr: u8, reg: u8, len: usize) -> (r: Result<
        Vec<u8>,
        Self::BusError,
    >)
        ensures
            match r {
                Ok(response) => response@.len() == len && final(self).ops() == old(self).ops().push(
                    BusOp::WriteRead { addr, reg, response: response@ },
                ),
                Err(_) => final(self).ops() == old(self).ops(),
            },
    ;
}

/// The nWAKE output pin: driving it low wakes the device for communication,
/// driving it high lets it go back to sleep.
pub trait WakePin: Sized {
    /// The pin's own error type.
    type PinError;

    /// Whether the pin currently drives the wake line active (low).
    ///
    /// The default stands for a pin whose level is not tracked; an
    /// implementation verified against the contracts below overrides it.
    open spec fn is_asserted(&self) -> bool {
        false
    }

    /// Drive the pin low (wake the device).
    fn set_low(&mut self) -> (r: Result<(), Self::PinError>)
        ensures
            r is Ok ==> final(self).is_asserted(),
    ;

    /// Drive the pin high (let the device sleep).
    fn set_high(&mut self) -> (r: Result<(), Self::PinError>)
        ensures
            r is Ok ==> !final(self).is_asserted(),
    ;
}

/// A blocking delay provider.
pub trait Delay: Sized {
    /// Block for at least `us` microseconds.
    fn delay_us(&mut self, us: u32);

    /// Block for at least `ms` milliseconds.
    fn delay_ms(&mut self, ms: u32);
}

/// Appending is transitive: a history that extends an extension of `a`
/// extends `a` itself.
pub proof fn lemma_extends_trans(a: Seq<BusOp>, b: Seq<BusOp>, c: Seq<BusOp>)
    requires
        extends(a, b),
        extends(b, c),
    ensures
        extends(a, c),
{
    assert(c.subrange(0, a.len() as int) =~= b.subrange(0, a.len() as int));
}

/// A history with a tail appended extends the original.
pub proof fn lemma_add_extends(a: Seq<BusOp>, b: Seq<BusOp>)
    ensures
        extends(a, a + b),
{
    assert((a + b).subrange(0, a.len() as int) =~= a);
}

/// An extension keeps every operation of the original at its place.
pub proof fn lemma_extends_index(a: Seq<BusOp>, b: Seq<BusOp>, i: int)
    requires
        extends(a, b),
        0 <= i < a.len(),
    ensures
        b.len() >= a.len(),
        b[i] == a[i],
{
    assert(b.subrange(0, a.len() as int)[i] == b[i]);
}

/// A pushed-to history extends the original.
pub proof fn lemma_push_extends(a: Seq<BusOp>, op: BusOp)
    ensures
        extends(a, a.push(op)),
{
    assert(a.push(op).subrange(0, a.len() as int) =~= a);
}

} // verus!
