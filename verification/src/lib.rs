//! Protocol logic for audio and music units on IEEE 1394 bus.

pub mod bits;
pub mod codec;
pub mod digi00x;
pub mod fireface;
pub mod fireworks;
pub mod tcelectronic;
pub mod weiss;
