//! Configuration errors of the SPI transport.

use vstd::prelude::*;

verus! {

/// A configuration request that the transport turned down. The session is left
/// as it was whenever one of these is returned.
#[derive(Clone, Copy, Debug, PartialEq, Eq, Structural)]
pub enum Error {
    /// The requested word size, in bits, is not the one the transport shifts.
    InvalidWordSize(u32),
    /// The requested clock frequency, in hertz, cannot be produced by the adapter.
    InvalidSpeed(u32),
}

} // verus!
