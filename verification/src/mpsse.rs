//! The shift engine as the transport sees it: clock edges, data-shift options,
//! the commands it executes, and the adapter state that a session works on.

use vstd::prelude::*;
use vstd::arithmetic::div_mod::lemma_fundamental_div_mod;
use vstd::arithmetic::mul::lemma_mul_inequality;
use crate::error::Error;

verus! {

/// A transition of the clock line.
#[derive(Clone, Copy, Debug, PartialEq, Eq, Structural)]
pub enum ClockEdge {
    Rising,
    Falling,
}

/// How one shift operation clocks its data.
#[derive(Clone, Copy, Debug, PartialEq, Eq, Structural)]
pub struct DataShiftOptions {
    /// Edge on which incoming data is sampled.
    pub read_clock_edge: ClockEdge,
    /// Whether the operation samples incoming data.
    pub read_data: bool,
    /// Edge on which outgoing data is driven.
    pub write_clock_edge: ClockEdge,
    /// Whether the operation drives outgoing data.
    pub write_data: bool,
}

impl DataShiftOptions {
    /// Options of an operation that moves no data: both edges rising, neither
    /// direction enabled.
    pub open spec fn idle() -> DataShiftOptions {
        DataShiftOptions {
            read_clock_edge: ClockEdge::Rising,
            read_data: false,
            write_clock_edge: ClockEdge::Rising,
            write_data: false,
        }
    }

    /// Options of an operation that only samples, on `edge`.
    pub open spec fn reading(edge: ClockEdge) -> DataShiftOptions {
        DataShiftOptions { read_clock_edge: edge, read_data: true, ..DataShiftOptions::idle() }
    }

    /// Options of an operation that only drives, on `edge`.
    pub open spec fn writing(edge: ClockEdge) -> DataShiftOptions {
        DataShiftOptions { write_clock_edge: edge, write_data: true, ..DataShiftOptions::idle() }
    }
}

impl Default for DataShiftOptions {
    fn default() -> (options: DataShiftOptions)
        ensures
            options == DataShiftOptions::idle(),
    {
        DataShiftOptions {
            read_clock_edge: ClockEdge::Rising,
            read_data: false,
            write_clock_edge: ClockEdge::Rising,
            write_data: false,
        }
    }
}

/// One operation of the shift engine. Data commands own the caller's buffers
/// while the list is with the engine.
#[derive(Clone, Debug, PartialEq, Eq)]
pub enum Command {
    /// Set the direction mask and the output values of the low GPIO byte.
    SetLowGpio(u8, u8),
    /// Shift bytes in, filling the buffer.
    ReadData(DataShiftOptions, Vec<u8>),
    /// Shift the bytes of the buffer out.
    WriteData(DataShiftOptions, Vec<u8>),
    /// Shift the first buffer out while shifting into the second.
    TransactData(DataShiftOptions, Vec<u8>, DataShiftOptions, Vec<u8>),
}

/// What a session knows of its adapter: the GPIO snapshot and the clock.
#[derive(Clone, Copy, Debug, PartialEq, Eq, Structural)]
pub struct Context {
    /// Direction mask of the low GPIO byte; a set bit is an output.
    pub gpio_direction: u8,
    /// Output values of the low GPIO byte.
    pub gpio_value: u8,
    /// The clock at divider one, in hertz: the fastest the adapter can shift.
    pub max_clock_frequency: u32,
    /// The clock the adapter currently shifts at, in hertz.
    pub clock_frequency: u32,
}

/// `frequency` is what a clock of `base` hertz gives behind some whole divider.
pub open spec fn derivable(base: u32, frequency: u32) -> bool {
    frequency > 0 && exists|divider: int| divider >= 1 && #[trigger] (divider * frequency) == base
}

/// The whole divider that turns `base` into `frequency`, if there is one.
pub fn clock_divider(base: u32, frequency: u32) -> (divider: Option<u32>)
    ensures
        divider.is_some() <==> derivable(base, frequency),
        divider matches Some(d) ==> d >= 1 && d * frequency == base,
{
    if frequency == 0 || base < frequency || base % frequency != 0 {
        proof {
            if frequency > 0 {
                assert forall|d: int| d >= 1 implies #[trigger] (d * frequency) != base by {
                    if d * frequency == base {
                        lemma_mul_inequality(1, d, frequency as int);
                        lemma_fundamental_div_mod(base as int, frequency as int);
                        assert(base as int % frequency as int == 0) by (nonlinear_arith)
                            requires
                                d * frequency == base,
                                frequency > 0,
                        ;
                    }
                }
            }
        }
        None
    } else {
        let d: u32 = base / frequency;
        proof {
            lemma_fundamental_div_mod(base as int, frequency as int);
            assert(frequency * d == d * frequency) by (nonlinear_arith);
            assert(d >= 1) by (nonlinear_arith)
                requires
                    base >= frequency,
                    frequency > 0,
                    d == base as int / frequency as int,
            ;
            assert(d as int * frequency == base);
        }
        Some(d)
    }
}

impl Context {
    /// The adapter has a clock to divide.
    pub open spec fn wf(self) -> bool {
        self.max_clock_frequency > 0
    }

    /// Retunes the clock. A frequency that no whole divider of the maximum gives
    /// is turned down and the state stays as it was.
    pub fn set_clock_frequency(&mut self, frequency: u32) -> (result: Result<(), Error>)
        ensures
            derivable(old(self).max_clock_frequency, frequency) ==> result == Ok::<(), Error>(())
                && *final(self) == (Context { clock_frequency: frequency, ..*old(self) }),
            !derivable(old(self).max_clock_frequency, frequency) ==> result == Err::<(), Error>(
                Error::InvalidSpeed(frequency),
            ) && *final(self) == *old(self),
    {
        match clock_divider(self.max_clock_frequency, frequency) {
            Some(_) => {
                self.clock_frequency = frequency;
                Ok(())
            },
            None => Err(Error::InvalidSpeed(frequency)),
        }
    }
}

/// Only frequencies from one hertz up to the base are derivable, and the base
/// itself is, so the highest frequency that can be set is exactly the base:
/// one hertz more is turned down, and so is zero.
pub proof fn derivable_bounds(base: u32, frequency: u32)
    ensures
        derivable(base, frequency) ==> 0 < frequency <= base,
        base > 0 ==> derivable(base, base),
        !derivable(base, 0),
        base < u32::MAX ==> !derivable(base, (base + 1) as u32),
{
    if base > 0 {
        assert(1 * base == base);
    }
    assert forall|f: u32, d: int| f > base && d >= 1 implies #[trigger] (d * f) != base by {
        lemma_mul_inequality(1, d, f as int);
    }
}

} // verus!
