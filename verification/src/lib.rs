//! A cycle-accurate emulator for the MOS 6502 microprocessor.
//!
//! The executable CPU in [`mos6502`] is verified against the mathematical
//! model of the processor in [`model`]: every instruction handler is proved
//! to produce exactly the machine state that the model prescribes, including
//! the cycle charge for every bus access, the page-cross and branch-taken
//! penalties, and the documented quirks (zero-page index wrap-around and the
//! indirect-JMP page-wrap bug).

pub mod instructions;
pub mod laws;
pub mod memory;
pub mod model;
pub mod mos6502;
pub mod tests_utils;
