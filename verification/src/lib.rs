//! Command encoding for the GX graphics processor.
//!
//! The driver never touches the hardware itself. Every call works out the
//! exact traffic it stands for: bytes for the write-gather pipe, stores to
//! registers, bus addresses of pixels. The platform layer carries that
//! traffic out. Each contract states the traffic in full.

pub mod address;
pub mod bus;
pub mod draw;
pub mod wire;
pub mod gx;
