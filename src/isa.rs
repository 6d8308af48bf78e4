use vstd::prelude::*;
use std::collections::BTreeSet;
use core::ops::RangeInclusive;
use crate::regs::NoRegs;
use crate::util::Site;
use crate::opcodes::{NOP, NOCO, CHCO, CHCK, FAIL, RSET, JMP, JINE, JIFAIL, SH, SHNE, SHFAIL, EXEC, FN, CALL, RET, STOP};

verus! {

/// The verdict of executing an instruction.
#[derive(Copy, Clone, PartialEq, Eq, PartialOrd, Ord, Hash, Debug)]
pub enum ExecStep<S> {
    /// Stop program execution.
    Stop,
    /// Set `CK` to a failure; the program halts if `CH` is set.
    Fail,
    /// Move to the next instruction.
    Next,
    /// Jump to an offset in the current library.
    Jump(u16),
    /// Jump to another code fragment.
    Call(S),
    /// Return to a caller position.
    Ret(S),
}

/// Control-flow instructions.
#[derive(Copy, Clone, PartialEq, Eq, Hash, Debug)]
pub enum CtrlInstr<Id> {
    /// Not an operation.
    Nop,
    /// Test `CO` value, fails if it is set.
    ChkCo,
    /// Test `CK` value, stops if it is failed.
    ChkCk,
    /// Invert `CO` register.
    NotCo,
    /// Set `CK` register to a failed state.
    FailCk,
    /// Assign `CK` value to `CO` register and clear `CK`.
    RsetCk,
    /// Jump to location (unconditionally).
    Jmp { pos: u16 },
    /// Jump to location if `CO` is set.
    JiOvfl { pos: u16 },
    /// Jump to location if `CK` is failed.
    JiFail { pos: u16 },
    /// Relative jump.
    Sh { shift: i8 },
    /// Relative jump if `CO` is set.
    ShOvfl { shift: i8 },
    /// Relative jump if `CK` is failed.
    ShFail { shift: i8 },
    /// External jump.
    Exec { site: Site<Id> },
    /// Subroutine call.
    Fn { pos: u16 },
    /// External subroutine call.
    Call { site: Site<Id> },
    /// Return from a subroutine or finish the program.
    Ret,
    /// Stop the program.
    Stop,
}

/// An opcode which is reserved for future instructions of the core ISA, or is not used by
/// any ISA. Executing it always fails.
#[derive(Copy, Clone, PartialEq, Eq, PartialOrd, Ord, Hash, Debug)]
pub struct ReservedInstr(u8);

impl ReservedInstr {
    #[verifier::type_invariant]
    spec fn inv(self) -> bool {
        self.0 > STOP
    }

    /// The opcode of the instruction.
    pub closed spec fn opcode(self) -> u8 {
        self.0
    }

    /// The reserved instruction with a given opcode.
    pub closed spec fn from_opcode(op: u8) -> ReservedInstr {
        ReservedInstr(op)
    }

    /// The reserved instruction of an opcode has that opcode.
    pub proof fn lemma_from_opcode(op: u8)
        ensures
            Self::from_opcode(op).opcode() == op,
    {
    }

    /// A reserved instruction is determined by its opcode.
    pub proof fn lemma_opcode_determines(a: ReservedInstr, b: ReservedInstr)
        requires
            a.opcode() == b.opcode(),
        ensures
            a == b,
    {
    }

    /// The reserved instruction with a given opcode; `None` for an opcode of a control-flow
    /// instruction.
    pub fn with(op: u8) -> (r: Option<ReservedInstr>)
        ensures
            r.is_some() <==> op > STOP,
            r.is_some() ==> r == Some(Self::from_opcode(op)),
    {
        if op > STOP {
            Some(ReservedInstr(op))
        } else {
            None
        }
    }

    /// The reserved instruction of an opcode outside those of control flow.
    pub(crate) fn of_opcode(op: u8) -> (r: ReservedInstr)
        requires
            op > STOP,
        ensures
            r == Self::from_opcode(op),
    {
        ReservedInstr(op)
    }

    /// The opcode of the instruction, as a byte.
    pub fn opcode_byte(&self) -> (r: u8)
        ensures
            r == self.opcode(),
            r > STOP,
    {
        proof {
            use_type_invariant(self);
        }
        self.0
    }
}

impl Default for ReservedInstr {
    fn default() -> (r: ReservedInstr)
        ensures
            r.opcode() == 0xFF,
    {
        ReservedInstr(0xFF)
    }
}

/// The instructions of the core ISA: control flow, and reserved opcodes.
#[derive(Copy, Clone, PartialEq, Eq, Hash, Debug)]
pub enum Instr<Id> {
    /// Control-flow instructions.
    Ctrl(CtrlInstr<Id>),
    /// Reserved instruction.
    Reserved(ReservedInstr),
}

/// The byte of a relative shift, in two's complement.
pub open spec fn shift_byte(shift: i8) -> u8 {
    if shift < 0 {
        (shift + 256) as u8
    } else {
        shift as u8
    }
}

/// The relative shift of a byte, in two's complement.
pub open spec fn shift_of(b: u8) -> i8 {
    if b >= 128 {
        (b - 256) as i8
    } else {
        b as i8
    }
}

/// The number of operand bytes which follow an opcode in the code segment.
pub open spec fn operand_len(op: u8) -> nat {
    if op == JMP || op == JINE || op == JIFAIL || op == FN {
        2
    } else if op == SH || op == SHNE || op == SHFAIL {
        1
    } else if op == EXEC || op == CALL {
        3
    } else {
        0
    }
}

impl<Id> CtrlInstr<Id> {
    /// The opcode of the instruction.
    pub open spec fn opcode(self) -> u8 {
        match self {
            CtrlInstr::Nop => NOP,
            CtrlInstr::ChkCo => CHCO,
            CtrlInstr::ChkCk => CHCK,
            CtrlInstr::NotCo => NOCO,
            CtrlInstr::FailCk => FAIL,
            CtrlInstr::RsetCk => RSET,
            CtrlInstr::Jmp { .. } => JMP,
            CtrlInstr::JiOvfl { .. } => JINE,
            CtrlInstr::JiFail { .. } => JIFAIL,
            CtrlInstr::Sh { .. } => SH,
            CtrlInstr::ShOvfl { .. } => SHNE,
            CtrlInstr::ShFail { .. } => SHFAIL,
            CtrlInstr::Exec { .. } => EXEC,
            CtrlInstr::Fn { .. } => FN,
            CtrlInstr::Call { .. } => CALL,
            CtrlInstr::Ret => RET,
            CtrlInstr::Stop => STOP,
        }
    }

    /// The operand bytes in the code segment (an external site counts as two, its offset: its
    /// library is counted as external data).
    pub open spec fn spec_op_data_bytes(self) -> u16 {
        match self {
            CtrlInstr::Jmp { .. } | CtrlInstr::JiOvfl { .. } | CtrlInstr::JiFail { .. } => 2,
            CtrlInstr::Sh { .. } | CtrlInstr::ShOvfl { .. } | CtrlInstr::ShFail { .. } => 1,
            CtrlInstr::Exec { .. } | CtrlInstr::Fn { .. } | CtrlInstr::Call { .. } => 2,
            _ => 0,
        }
    }

    /// The bytes read from outside the instruction: the full identifier of an external library.
    pub open spec fn spec_ext_data_bytes(self) -> u16 {
        match self {
            CtrlInstr::Exec { .. } | CtrlInstr::Call { .. } => 32,
            _ => 0,
        }
    }

    /// The range of opcodes of control-flow instructions.
    pub fn op_range() -> (r: RangeInclusive<u8>)
        ensures
            r@.start == NOP,
            r@.end == STOP,
            !r@.exhausted,
    {
        RangeInclusive::new(NOP, STOP)
    }

    /// The opcode of the instruction.
    pub fn opcode_byte(&self) -> (r: u8)
        ensures
            r == self.opcode(),
            r <= STOP,
    {
        match self {
            CtrlInstr::Nop => NOP,
            CtrlInstr::ChkCo => CHCO,
            CtrlInstr::ChkCk => CHCK,
            CtrlInstr::NotCo => NOCO,
            CtrlInstr::FailCk => FAIL,
            CtrlInstr::RsetCk => RSET,
            CtrlInstr::Jmp { .. } => JMP,
            CtrlInstr::JiOvfl { .. } => JINE,
            CtrlInstr::JiFail { .. } => JIFAIL,
            CtrlInstr::Sh { .. } => SH,
            CtrlInstr::ShOvfl { .. } => SHNE,
            CtrlInstr::ShFail { .. } => SHFAIL,
            CtrlInstr::Exec { .. } => EXEC,
            CtrlInstr::Fn { .. } => FN,
            CtrlInstr::Call { .. } => CALL,
            CtrlInstr::Ret => RET,
            CtrlInstr::Stop => STOP,
        }
    }

    /// The length of the instruction in the code segment: its opcode and its operands.
    pub fn code_byte_len(&self) -> (r: u16)
        ensures
            r == 1 + operand_len(self.opcode()),
    {
        let arg_bytes: u16 = match self {
            CtrlInstr::Nop
            | CtrlInstr::ChkCo
            | CtrlInstr::ChkCk
            | CtrlInstr::NotCo
            | CtrlInstr::FailCk
            | CtrlInstr::RsetCk => 0,
            CtrlInstr::Jmp { .. }
            | CtrlInstr::JiOvfl { .. }
            | CtrlInstr::JiFail { .. }
            | CtrlInstr::Fn { .. } => 2,
            CtrlInstr::Sh { .. } | CtrlInstr::ShOvfl { .. } | CtrlInstr::ShFail { .. } => 1,
            CtrlInstr::Exec { .. } | CtrlInstr::Call { .. } => 3,
            CtrlInstr::Ret | CtrlInstr::Stop => 0,
        };
        arg_bytes + 1
    }

    /// Whether the instruction may be the target of a jump: only `nop` is.
    pub fn is_goto_target(&self) -> (r: bool)
        ensures
            r <==> self is Nop,
    {
        match self {
            CtrlInstr::Nop => true,
            _ => false,
        }
    }

    /// The operand bytes in the code segment.
    pub fn op_data_bytes(&self) -> (r: u16)
        ensures
            r == self.spec_op_data_bytes(),
    {
        match self {
            CtrlInstr::Jmp { .. } | CtrlInstr::JiOvfl { .. } | CtrlInstr::JiFail { .. } => 2,
            CtrlInstr::Sh { .. } | CtrlInstr::ShOvfl { .. } | CtrlInstr::ShFail { .. } => 1,
            CtrlInstr::Exec { .. } | CtrlInstr::Fn { .. } | CtrlInstr::Call { .. } => 2,
            _ => 0,
        }
    }

    /// The bytes read from outside the instruction and the registers.
    pub fn ext_data_bytes(&self) -> (r: u16)
        ensures
            r == self.spec_ext_data_bytes(),
    {
        match self {
            CtrlInstr::Exec { .. } | CtrlInstr::Call { .. } => 32,
            _ => 0,
        }
    }

    /// The registers read by the instruction: none.
    pub fn src_regs(&self) -> (r: BTreeSet<NoRegs>)
        ensures
            r@ == Set::<NoRegs>::empty(),
    {
        BTreeSet::new()
    }

    /// The registers written by the instruction: none.
    pub fn dst_regs(&self) -> (r: BTreeSet<NoRegs>)
        ensures
            r@ == Set::<NoRegs>::empty(),
    {
        BTreeSet::new()
    }

    /// The complexity of the instruction: eight thousand units per bit of operand data, and
    /// twice that per bit of external data.
    pub fn complexity(&self) -> (r: u64)
        ensures
            r == (self.spec_op_data_bytes() + 2 * self.spec_ext_data_bytes()) * 8 * 1000,
    {
        (self.op_data_bytes() as u64 + self.ext_data_bytes() as u64 * 2) * 8 * 1000
    }
}

} // verus!
