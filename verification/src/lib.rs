//! Illuminant bookkeeping and the integer geometry of rotated Fuji sensors,
//! specified and proved with Verus.

pub mod imgop;
mod text;
