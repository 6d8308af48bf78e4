use vstd::prelude::*;

verus! {

/// Opcode of `nop`.
pub const NOP: u8 = 0;
/// Opcode of `not CO`.
pub const NOCO: u8 = 1;
/// Opcode of `chk CO`.
pub const CHCO: u8 = 2;
/// Opcode of `chk CK`.
pub const CHCK: u8 = 3;
/// Opcode of `fail CK`.
pub const FAIL: u8 = 4;
/// Opcode of `mov CO, CK`.
pub const RSET: u8 = 5;
/// Opcode of an absolute jump.
pub const JMP: u8 = 6;
/// Opcode of an absolute jump if `CO` is set.
pub const JINE: u8 = 7;
/// Opcode of an absolute jump if `CK` is failed.
pub const JIFAIL: u8 = 8;
/// Opcode of a relative jump.
pub const SH: u8 = 9;
/// Opcode of a relative jump if `CO` is set.
pub const SHNE: u8 = 10;
/// Opcode of a relative jump if `CK` is failed.
pub const SHFAIL: u8 = 11;
/// Opcode of a jump into another library.
pub const EXEC: u8 = 12;
/// Opcode of a subroutine call.
pub const FN: u8 = 13;
/// Opcode of a subroutine call into another library.
pub const CALL: u8 = 14;
/// Opcode of a return from a subroutine.
pub const RET: u8 = 15;
/// Opcode of `stop`.
pub const STOP: u8 = 16;
/// The last opcode reserved for the core ISA.
pub const RESERVED_END: u8 = 0x7F;

} // verus!
