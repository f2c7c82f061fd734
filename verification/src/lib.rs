//! A cycle-timed interpreter core for the 8-bit MOS 6502 variant used in the
//! Nintendo Entertainment System, together with the CPU-side memory bus and
//! the cartridge mappers (NROM and MMC1/SxROM) that the CPU drives.

/// The CPU: registers, status-flag discipline, stack operations, reset and
/// interrupt sequencing, and the verified instruction interpreter.
pub mod cpu;
/// The instruction-set model: the 256-entry dispatch table with the
/// reference cycle timings, addressing-mode resolution, and the transition
/// function of one machine step.
pub mod isa;
/// Machine-level laws proved over the instruction-set model: flag
/// discipline, arithmetic characterisations, and stack round trips.
pub mod laws;
/// The cartridge mappers: NROM's fixed banks and MMC1's serial bank-switch
/// protocol.
pub mod mapper;
/// The CPU-side memory bus: internal RAM with its 2 KiB mirror, the register
/// regions, and the mapper window.
pub mod memory;
/// The iNES cartridge image and its parser.
pub mod rom;
/// A boolean-flag view of the processor status with its byte encoding.
pub mod status;
