//! A scripted, fully verified transport: a bus that answers from a fixed
//! list of expected transactions, a wake pin that records its level and a
//! no-op delay provider.
//!
//! These stand in for the host platform in tests: the bus checks every
//! write against the script and hands back the scripted responses, so a
//! test pins down the exact transaction sequence a driver operation
//! performs.

use vstd::prelude::*;

use crate::bus::{BusOp, Delay, I2cBus, WakePin};

verus! {

/// One expected transaction of a scripted bus, together with the response
/// the simulated device gives.
pub enum SimTransaction {
    /// A plain write of exactly these bytes.
    Write { addr: u8, data: Vec<u8> },
    /// A one-byte register write followed by a read answered with `response`.
    WriteRead { addr: u8, reg: u8, response: Vec<u8> },
}

impl SimTransaction {
    /// Expect a plain write of exactly `data` to `addr`.
    pub fn write(addr: u8, data: Vec<u8>) -> (r: Self)
        ensures
            r == (SimTransaction::Write { addr, data }),
    {
        SimTransaction::Write { addr, data }
    }

    /// Expect a read of register `reg` at `addr`, answered with `response`.
    pub fn write_read(addr: u8, reg: u8, response: Vec<u8>) -> (r: Self)
        ensures
            r == (SimTransaction::WriteRead { addr, reg, response }),
    {
        SimTransaction::WriteRead { addr, reg, response }
    }
}

/// Error of the scripted transport.
#[derive(Debug, Clone, Copy, PartialEq, Eq, Structural)]
pub enum SimBusError {
    /// A transaction was attempted after the script ran out.
    Exhausted,
    /// The attempted transaction differs from the scripted one.
    Mismatch,
}

/// Error of the scripted wake pin; it never actually occurs.
#[derive(Debug, Clone, Copy, PartialEq, Eq, Structural)]
pub struct SimPinError {
}

/// A bus that plays back a fixed script of expected transactions.
pub struct SimBus {
    transactions: Vec<SimTransaction>,
    next: usize,
    history: Ghost<Seq<BusOp>>,
}

/// Compare two byte vectors element by element.
pub fn bytes_equal(a: &Vec<u8>, b: &Vec<u8>) -> (r: bool)
    ensures
        r == (a@ == b@),
{
    if a.len() != b.len() {
        proof {
            assert(a@.len() != b@.len());
        }
        return false;
    }
    let mut i: usize = 0;
    while i < a.len()
        invariant
            i <= a@.len(),
            a@.len() == b@.len(),
            forall|j: int| 0 <= j < i ==> a@[j] == b@[j],
        decreases a@.len() - i,
    {
        if a[i] != b[i] {
            return false;
        }
        i += 1;
    }
    proof {
        assert(a@ =~= b@);
    }
    true
}

/// Copy a byte vector.
pub fn copy_bytes(src: &Vec<u8>) -> (r: Vec<u8>)
    ensures
        r@ == src@,
{
    let mut out: Vec<u8> = Vec::new();
    let mut i: usize = 0;
    while i < src.len()
        invariant
            i <= src@.len(),
            out@ == src@.subrange(0, i as int),
        decreases src@.len() - i,
    {
        out.push(src[i]);
        proof {
            assert(out@ =~= src@.subrange(0, i + 1 as int));
        }
        i += 1;
    }
    proof {
        assert(out@ =~= src@);
    }
    out
}

impl SimBus {
    /// A bus that will accept exactly the given transactions, in order.
    pub fn new(transactions: Vec<SimTransaction>) -> (r: Self)
        ensures
            r.ops() == Seq::<BusOp>::empty(),
            r.spec_done() == (transactions@.len() == 0),
    {
        SimBus { transactions, next: 0, history: Ghost(Seq::empty()) }
    }

    /// Whether the whole script has been consumed.
    pub closed spec fn spec_done(&self) -> bool {
        self.next >= self.transactions@.len()
    }

    /// Whether the whole script has been consumed.
    pub fn done(&self) -> (r: bool)
        ensures
            r == self.spec_done(),
    {
        self.next >= self.transactions.len()
    }
}

impl I2cBus for SimBus {
    type BusError = SimBusError;

    closed spec fn ops(&self) -> Seq<BusOp> {
        self.history@
    }

    fn write(&mut self, addr: u8, data: &Vec<u8>) -> (r: Result<(), SimBusError>) {
        if self.next >= self.transactions.len() {
            return Err(SimBusError::Exhausted);
        }
        let accepted: bool = match &self.transactions[self.next] {
            SimTransaction::Write { addr: ea, data: ed } => *ea == addr && bytes_equal(ed, data),
            SimTransaction::WriteRead { .. } => false,
        };
        if accepted {
            self.next += 1;
            self.history = Ghost(self.history@.push(BusOp::Write { addr, data: data@ }));
            Ok(())
        } else {
            Err(SimBusError::Mismatch)
        }
    }

    fn write_read(&mut self, addr: u8, reg: u8, len: usize) -> (r: Result<Vec<u8>, SimBusError>) {
        if self.next >= self.transactions.len() {
            return Err(SimBusError::Exhausted);
        }
        let out: Option<Vec<u8>> = match &self.transactions[self.next] {
            SimTransaction::WriteRead { addr: ea, reg: er, response } => {
                if *ea == addr && *er == reg && response.len() == len {
                    Some(copy_bytes(response))
                } else {
                    None
                }
            },
            SimTransaction::Write { .. } => None,
        };
        match out {
            Some(data) => {
                self.next += 1;
                self.history = Ghost(
                    self.history@.push(BusOp::WriteRead { addr, reg, response: data@ }),
                );
                Ok(data)
            },
            None => Err(SimBusError::Mismatch),
        }
    }
}

/// A wake pin that records its level and never fails.
pub struct SimPin {
    is_low: bool,
}

impl SimPin {
    /// A pin that starts high (wake line inactive).
    pub fn new() -> (r: Self)
        ensures
            !r.is_asserted(),
    {
        SimPin { is_low: false }
    }

    /// Whether the pin currently drives the wake line active (low).
    pub fn is_active(&self) -> (r: bool)
        ensures
            r == self.is_asserted(),
    {
        self.is_low
    }
}

impl WakePin for SimPin {
    type PinError = SimPinError;

    closed spec fn is_asserted(&self) -> bool {
        self.is_low
    }

    fn set_low(&mut self) -> (r: Result<(), SimPinError>) {
        self.is_low = true;
        Ok(())
    }

    fn set_high(&mut self) -> (r: Result<(), SimPinError>) {
        self.is_low = false;
        Ok(())
    }
}

/// A delay provider that does not wait at all.
pub struct SimDelay {
}

impl SimDelay {
    /// A no-op delay provider.
    pub fn new() -> Self {
        SimDelay {  }
    }
}

impl Delay for SimDelay {
    fn delay_us(&mut self, _us: u32) {
    }

    fn delay_ms(&mut self, _ms: u32) {
    }
}

} // verus!
