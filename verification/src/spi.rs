//! Bus-level vocabulary: clock polarity and phase, the four transfer modes, and
//! the transfers a transaction is made of.

use vstd::prelude::*;

verus! {

/// Level of the clock line between transactions.
#[derive(Clone, Copy, Debug, PartialEq, Eq, Structural)]
pub enum ClockPolarity {
    IdleLow,
    IdleHigh,
}

/// Clock transition, counted from the idle level, on which data is sampled.
#[derive(Clone, Copy, Debug, PartialEq, Eq, Structural)]
pub enum ClockPhase {
    SampleLeading,
    SampleTrailing,
}

/// The four standard combinations of clock polarity and phase.
#[derive(Clone, Copy, Debug, PartialEq, Eq, Structural)]
pub enum TransferMode {
    /// Idle low, sample on the leading transition.
    Mode0,
    /// Idle low, sample on the trailing transition.
    Mode1,
    /// Idle high, sample on the leading transition.
    Mode2,
    /// Idle high, sample on the trailing transition.
    Mode3,
}

impl TransferMode {
    /// The polarity component of a mode.
    pub open spec fn polarity_of(self) -> ClockPolarity {
        match self {
            TransferMode::Mode0 | TransferMode::Mode1 => ClockPolarity::IdleLow,
            TransferMode::Mode2 | TransferMode::Mode3 => ClockPolarity::IdleHigh,
        }
    }

    /// The phase component of a mode.
    pub open spec fn phase_of(self) -> ClockPhase {
        match self {
            TransferMode::Mode0 | TransferMode::Mode2 => ClockPhase::SampleLeading,
            TransferMode::Mode1 | TransferMode::Mode3 => ClockPhase::SampleTrailing,
        }
    }

    /// The mode made of a polarity and a phase.
    pub open spec fn from_parts(polarity: ClockPolarity, phase: ClockPhase) -> TransferMode {
        match (polarity, phase) {
            (ClockPolarity::IdleLow, ClockPhase::SampleLeading) => TransferMode::Mode0,
            (ClockPolarity::IdleLow, ClockPhase::SampleTrailing) => TransferMode::Mode1,
            (ClockPolarity::IdleHigh, ClockPhase::SampleLeading) => TransferMode::Mode2,
            (ClockPolarity::IdleHigh, ClockPhase::SampleTrailing) => TransferMode::Mode3,
        }
    }

    #[verifier::when_used_as_spec(polarity_of)]
    pub fn polarity(self) -> (polarity: ClockPolarity)
        ensures
            polarity == self.polarity_of(),
    {
        match self {
            TransferMode::Mode0 | TransferMode::Mode1 => ClockPolarity::IdleLow,
            TransferMode::Mode2 | TransferMode::Mode3 => ClockPolarity::IdleHigh,
        }
    }

    #[verifier::when_used_as_spec(phase_of)]
    pub fn phase(self) -> (phase: ClockPhase)
        ensures
            phase == self.phase_of(),
    {
        match self {
            TransferMode::Mode0 | TransferMode::Mode2 => ClockPhase::SampleLeading,
            TransferMode::Mode1 | TransferMode::Mode3 => ClockPhase::SampleTrailing,
        }
    }

    /// A mode is determined by its polarity and phase, and every pair of them is
    /// the decomposition of exactly one mode.
    pub proof fn decomposition_is_faithful(mode: TransferMode, polarity: ClockPolarity, phase: ClockPhase)
        ensures
            TransferMode::from_parts(mode.polarity_of(), mode.phase_of()) == mode,
            TransferMode::from_parts(polarity, phase).polarity_of() == polarity,
            TransferMode::from_parts(polarity, phase).phase_of() == phase,
    {
    }
}

/// One contiguous time slice of a transaction, tagged by direction. The buffers
/// belong to the caller; a transaction hands them to the shift engine and gives
/// the very same buffers back.
#[derive(Clone, Debug, PartialEq, Eq)]
pub enum Transfer {
    /// Shift in as many bytes as the buffer is long.
    Read(Vec<u8>),
    /// Shift out the bytes of the buffer.
    Write(Vec<u8>),
    /// Shift out the first buffer while shifting into the second.
    Both(Vec<u8>, Vec<u8>),
}

} // verus!
