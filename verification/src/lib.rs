//! A CHIP-8 virtual machine: a 4096-byte memory, sixteen 8-bit registers, an
//! address register, an in-memory call stack, two countdown timers, a 64x32
//! monochrome framebuffer and a 16-key input device.
//!
//! Every state transition is a pure function from one machine state to the
//! next, and each one carries a contract describing the successor state
//! exactly.  The driver-facing surface is [`state::Chip8State`]: build one
//! with `new`, copy a program in with `load`, then interleave
//! `exec_instruction`, `decrease_timers`, `key_down` and `key_up` on
//! whatever schedule the driver owns, sampling pixels with `get_pixel`.

pub mod display;
pub mod instruction;
pub mod keyboard;
pub mod laws;
pub mod speed;
pub mod state;
