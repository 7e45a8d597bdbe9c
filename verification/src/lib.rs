//! SPI transport over an MPSSE shift engine: session configuration, clock-edge
//! selection and the compilation of transfer batches into chip-select-bracketed
//! command lists.

pub mod error;
pub mod mpsse;
pub mod spi;
pub mod ultradebug;

pub use error::Error;
pub use ultradebug::UltradebugSpi;
