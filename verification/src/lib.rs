//! A verified core for an 8-bit virtual machine of the CHIP-8 kind: a 4096-byte
//! memory, sixteen 8-bit registers, a 16-deep call stack, an index register,
//! two countdown timers, and a fetch-decode-execute step over big-endian
//! 16-bit instruction words.
//!
//! The display and input collaborators are external: an execute step that
//! needs the display returns an [`cpu::Action`] for the host to perform, and
//! the host hands the draw outcome back through
//! [`cpu::CPU::apply_draw_result`]. The timer cadence (60 Hz) is likewise the
//! host's duty: it calls [`cpu::CPU::tick_timers`] on its own clock, never per
//! instruction.

pub mod cpu;
pub mod decode;
pub mod error;
pub mod laws;
pub mod state;
