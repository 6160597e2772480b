//! Verified driver logic for an ILI9488-class TFT controller on a 16-bit
//! parallel command/data bus.
//!
//! The crate models the externally observable behaviour of the wire: every
//! bus transfer is recorded as a tagged word (command or data), every control
//! line records the levels driven onto it, and every delay is logged. The
//! drawing layer (pixels, contiguous fills, solid fills) is proved to emit
//! exactly the transfers the panel protocol calls for, including rectangle
//! clipping against the panel bounds and RGB565 colour packing.

pub mod bus;
pub mod color;
pub mod control;
pub mod driver;
pub mod graphics;
