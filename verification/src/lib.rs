//! An interpreter core for a small 8-bit virtual machine: 4096 bytes of
//! memory, sixteen registers, a call stack, two timers and a 64x32
//! monochrome pixel grid.
//!
//! Every operation is specified against [`model::Machine`], the mathematical
//! state of the machine, and proved to compute exactly what the model says.

pub mod model;
pub mod fault;
pub mod cpu;
pub mod display;
pub mod instructions;
pub mod dispatch;
pub mod laws;
pub mod entropy;
pub mod clock;
