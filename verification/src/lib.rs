//! Driver logic for WS2812 (NeoPixel) addressable LED strips.
//!
//! The crate covers the pieces of a strip driver that are pure logic:
//! the GRB wire-format packing of a color, the hue-wheel and animation
//! patterns that produce each frame, the bounded FIFO channel that hands
//! wire words to the bit serializer, and a model of the serializer's
//! pulse timing. Hardware bring-up (clocks, pins, the PIO peripheral)
//! lives outside the library.

pub mod channel;
pub mod color;
pub mod encoder;
pub mod frame;
pub mod pattern;
