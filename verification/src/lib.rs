//! Register-level driver logic for one GPIO-controlled LED on an RK3588
//! system-on-chip board.
//!
//! Every operation on the pin is a single blind full-word store to a
//! memory-mapped register, built with the SoC family's write-mask convention:
//! bits [31:16] of the stored word enable writes to the mirrored bits [15:0].
//! The library computes each store exactly ([`pin::GpioPin`]) and models a
//! register block backed by ordinary memory ([`mmio::MmioRegion`]) so the
//! effect of a store can be stated and checked. Performing a store against
//! real hardware is a volatile raw-pointer write and lives outside the
//! library.

pub mod mmio;
pub mod pin;

pub use mmio::MmioRegion;
pub use mmio::RegWrite;
pub use pin::GpioPin;
