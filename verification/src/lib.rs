//! The command processor of a 1990s console's graphics unit.
//!
//! Two 32-bit command ports drive it: GP0 carries drawing and state
//! commands, GP1 carries display control. [`gpu::Gpu`] interprets both,
//! keeps the register state they configure, packs that state into the status
//! word, and hands geometry to a [`gpu::renderer::Renderer`].

pub mod gpu;
