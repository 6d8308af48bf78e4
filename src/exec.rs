use vstd::prelude::*;
use std::collections::BTreeSet;
use core::ops::RangeInclusive;
use crate::opcodes::RESERVED_END;
use crate::isa::{CtrlInstr, Instr, ReservedInstr, ExecStep, operand_len};
use crate::machine::{Core, CoreModel, fail_model, must_stop};
use crate::regs::{CoreExt, NoExt, NoRegs};
use crate::stack::CALL_STACK_SIZE_MAX;
use crate::util::{LibId, LibSite, Status};

verus! {

/// The verdict of a relative jump by `shift` from `offset`: the target, or a failure when it
/// falls outside the range of offsets.
pub open spec fn shift_step(offset: u16, shift: i8) -> ExecStep<LibSite> {
    if 0 <= offset + shift <= 0xFFFF {
        ExecStep::Jump((offset + shift) as u16)
    } else {
        ExecStep::Fail
    }
}

/// What executing a control-flow instruction at `cursor` does: the core goes from `c` to `d`,
/// and `r` is the verdict.
pub open spec fn ctrl_step<Cx: CoreExt>(
    instr: CtrlInstr<LibId>,
    cursor: LibSite,
    c: Core<Cx>,
    d: Core<Cx>,
    r: ExecStep<LibSite>,
) -> bool {
    match instr {
        CtrlInstr::Nop => d.same_regs(&c) && r == ExecStep::<LibSite>::Next,
        CtrlInstr::ChkCo => d.same_regs(&c) && r == (if c.co == Status::Fail {
            ExecStep::<LibSite>::Fail
        } else {
            ExecStep::<LibSite>::Next
        }),
        CtrlInstr::ChkCk => d.same_regs(&c) && r == (if c.ck == Status::Fail {
            ExecStep::<LibSite>::Stop
        } else {
            ExecStep::<LibSite>::Next
        }),
        CtrlInstr::NotCo => d.same_regs(&Core { co: c.co.negated(), ..c }) && r
            == ExecStep::<LibSite>::Next,
        CtrlInstr::FailCk => d.failed_from(&c) && r == (if c.ch && c.cf == 0 {
            ExecStep::<LibSite>::Stop
        } else {
            ExecStep::<LibSite>::Next
        }),
        CtrlInstr::RsetCk => d.same_regs(&Core { co: c.ck, ck: Status::Success, ..c }) && r
            == ExecStep::<LibSite>::Next,
        CtrlInstr::Jmp { pos } => d.same_regs(&c) && r == ExecStep::<LibSite>::Jump(pos),
        CtrlInstr::JiOvfl { pos } => d.same_regs(&c) && r == (if c.co == Status::Fail {
            ExecStep::<LibSite>::Jump(pos)
        } else {
            ExecStep::<LibSite>::Next
        }),
        CtrlInstr::JiFail { pos } => d.same_regs(&c) && r == (if c.ck == Status::Fail {
            ExecStep::<LibSite>::Jump(pos)
        } else {
            ExecStep::<LibSite>::Next
        }),
        CtrlInstr::Sh { shift } => d.same_regs(&c) && r == shift_step(cursor.offset, shift),
        CtrlInstr::ShOvfl { shift } => d.same_regs(&c) && r == (if c.co == Status::Fail {
            shift_step(cursor.offset, shift)
        } else {
            ExecStep::<LibSite>::Next
        }),
        CtrlInstr::ShFail { shift } => d.same_regs(&c) && r == (if c.ck == Status::Fail {
            shift_step(cursor.offset, shift)
        } else {
            ExecStep::<LibSite>::Next
        }),
        CtrlInstr::Exec { site } => d.same_regs(&c) && r == ExecStep::Call(site),
        CtrlInstr::Fn { pos } => if c.frames().len() < CALL_STACK_SIZE_MAX {
            d.pushed_from(&c, cursor) && r == ExecStep::<LibSite>::Jump(pos)
        } else {
            d.same_regs(&c) && r == ExecStep::<LibSite>::Fail
        },
        CtrlInstr::Call { site } => if c.frames().len() < CALL_STACK_SIZE_MAX {
            d.pushed_from(&c, cursor) && r == ExecStep::Call(site)
        } else {
            d.same_regs(&c) && r == ExecStep::<LibSite>::Fail
        },
        CtrlInstr::Ret => if c.frames().len() == 0 {
            d.same_regs(&c) && r == ExecStep::<LibSite>::Stop
        } else {
            &&& (Core { cs: c.cs, ..d }).same_regs(&c)
            &&& d.frames() == c.frames().drop_last()
            &&& r == ExecStep::Ret(c.frames().last())
        },
        CtrlInstr::Stop => d.same_regs(&c) && r == ExecStep::<LibSite>::Stop,
    }
}

/// What executing an instruction at `cursor` does: the core goes from `c` to `d`, and `r` is
/// the verdict. A reserved instruction changes nothing and fails.
pub open spec fn instr_step<Cx: CoreExt>(
    instr: Instr<LibId>,
    cursor: LibSite,
    c: Core<Cx>,
    d: Core<Cx>,
    r: ExecStep<LibSite>,
) -> bool {
    match instr {
        Instr::Ctrl(i) => ctrl_step(i, cursor, c, d, r),
        Instr::Reserved(_) => d.same_regs(&c) && r == ExecStep::<LibSite>::Fail,
    }
}

/// What executing a control-flow instruction at `cursor` does to the registers `m`: the new
/// registers and the verdict.
pub open spec fn ctrl_model(instr: CtrlInstr<LibId>, cursor: LibSite, m: CoreModel) -> (CoreModel, ExecStep<LibSite>) {
    match instr {
        CtrlInstr::Nop => (m, ExecStep::Next),
        CtrlInstr::ChkCo => (m, if m.co == Status::Fail { ExecStep::Fail } else { ExecStep::Next }),
        CtrlInstr::ChkCk => (m, if m.ck == Status::Fail { ExecStep::Stop } else { ExecStep::Next }),
        CtrlInstr::NotCo => (CoreModel { co: m.co.negated(), ..m }, ExecStep::Next),
        CtrlInstr::FailCk => (fail_model(m), if must_stop(m) { ExecStep::Stop } else { ExecStep::Next }),
        CtrlInstr::RsetCk => (CoreModel { co: m.ck, ck: Status::Success, ..m }, ExecStep::Next),
        CtrlInstr::Jmp { pos } => (m, ExecStep::Jump(pos)),
        CtrlInstr::JiOvfl { pos } => (m, if m.co == Status::Fail { ExecStep::Jump(pos) } else { ExecStep::Next }),
        CtrlInstr::JiFail { pos } => (m, if m.ck == Status::Fail { ExecStep::Jump(pos) } else { ExecStep::Next }),
        CtrlInstr::Sh { shift } => (m, shift_step(cursor.offset, shift)),
        CtrlInstr::ShOvfl { shift } => (m, if m.co == Status::Fail { shift_step(cursor.offset, shift) } else { ExecStep::Next }),
        CtrlInstr::ShFail { shift } => (m, if m.ck == Status::Fail { shift_step(cursor.offset, shift) } else { ExecStep::Next }),
        CtrlInstr::Exec { site } => (m, ExecStep::Call(site)),
        CtrlInstr::Fn { pos } => if m.frames.len() < CALL_STACK_SIZE_MAX {
            (CoreModel { frames: m.frames.push(cursor), ..m }, ExecStep::Jump(pos))
        } else {
            (m, ExecStep::Fail)
        },
        CtrlInstr::Call { site } => if m.frames.len() < CALL_STACK_SIZE_MAX {
            (CoreModel { frames: m.frames.push(cursor), ..m }, ExecStep::Call(site))
        } else {
            (m, ExecStep::Fail)
        },
        CtrlInstr::Ret => if m.frames.len() == 0 {
            (m, ExecStep::Stop)
        } else {
            (CoreModel { frames: m.frames.drop_last(), ..m }, ExecStep::Ret(m.frames.last()))
        },
        CtrlInstr::Stop => (m, ExecStep::Stop),
    }
}

/// What executing an instruction at `cursor` does to the registers `m`: the new registers and
/// the verdict. A reserved instruction changes nothing and fails.
pub open spec fn instr_model(instr: Instr<LibId>, cursor: LibSite, m: CoreModel) -> (CoreModel, ExecStep<LibSite>) {
    match instr {
        Instr::Ctrl(c) => ctrl_model(c, cursor, m),
        Instr::Reserved(_) => (m, ExecStep::Fail),
    }
}

/// The step relation of an instruction is the step function on the registers, and leaves the
/// extension bank and the cycle counter alone.
pub proof fn lemma_instr_step_model<Cx: CoreExt>(
    instr: Instr<LibId>,
    cursor: LibSite,
    c: Core<Cx>,
    d: Core<Cx>,
    r: ExecStep<LibSite>,
)
    requires
        instr_step(instr, cursor, c, d, r),
    ensures
        (d.model(), r) == instr_model(instr, cursor, c.model()),
        d.cx == c.cx,
        d.cy == c.cy,
{
}

impl CtrlInstr<LibId> {
    /// Executes the instruction, which stands at `cursor`.
    pub fn exec<Cx: CoreExt>(&self, cursor: LibSite, core: &mut Core<Cx>, _context: &()) -> (r: ExecStep<LibSite>)
        requires
            old(core).wf(),
        ensures
            final(core).wf(),
            ctrl_step(*self, cursor, *old(core), *final(core), r),
    {
        match *self {
            CtrlInstr::Nop => {},
            CtrlInstr::ChkCo => {
                if !core.co().is_ok() {
                    return ExecStep::Fail;
                }
            },
            CtrlInstr::ChkCk => {
                if !core.ck().is_ok() {
                    return ExecStep::Stop;
                }
            },
            CtrlInstr::FailCk => {
                if core.fail_ck() {
                    return ExecStep::Stop;
                }
            },
            CtrlInstr::RsetCk => {
                let ck = core.ck();
                core.set_co(ck);
                core.reset_ck();
            },
            CtrlInstr::NotCo => {
                let co = core.co();
                core.set_co(core::ops::Not::not(co));
            },
            CtrlInstr::Jmp { pos } => return ExecStep::Jump(pos),
            CtrlInstr::JiOvfl { pos } => {
                if core.co() == Status::Fail {
                    return ExecStep::Jump(pos);
                }
            },
            CtrlInstr::JiFail { pos } => {
                if core.ck() == Status::Fail {
                    return ExecStep::Jump(pos);
                }
            },
            CtrlInstr::Sh { shift } => {
                return shift_jump(cursor.offset, shift);
            },
            CtrlInstr::ShOvfl { shift } => {
                if core.co() == Status::Fail {
                    return shift_jump(cursor.offset, shift);
                }
            },
            CtrlInstr::ShFail { shift } => {
                if core.ck() == Status::Fail {
                    return shift_jump(cursor.offset, shift);
                }
            },
            CtrlInstr::Exec { site } => return ExecStep::Call(site),
            CtrlInstr::Fn { pos } => {
                return match core.push_cs(cursor) {
                    Some(_) => ExecStep::Jump(pos),
                    None => ExecStep::Fail,
                };
            },
            CtrlInstr::Call { site } => {
                return match core.push_cs(cursor) {
                    Some(_) => ExecStep::Call(site),
                    None => ExecStep::Fail,
                };
            },
            CtrlInstr::Ret => {
                return match core.pop_cs() {
                    Some(site) => ExecStep::Ret(site),
                    None => ExecStep::Stop,
                };
            },
            CtrlInstr::Stop => return ExecStep::Stop,
        }
        ExecStep::Next
    }
}

impl ReservedInstr {
    /// The range of opcodes reserved for the core ISA.
    pub fn op_range() -> (r: RangeInclusive<u8>)
        ensures
            r@.start == 0,
            r@.end == RESERVED_END,
            !r@.exhausted,
    {
        RangeInclusive::new(0, RESERVED_END)
    }

    /// Executing a reserved instruction always fails.
    pub fn exec<Cx: CoreExt>(&self, _cursor: LibSite, core: &mut Core<Cx>, _context: &()) -> (r: ExecStep<LibSite>)
        ensures
            *final(core) == *old(core),
            r == ExecStep::<LibSite>::Fail,
    {
        ExecStep::Fail
    }

    /// A reserved instruction is no jump target.
    pub fn is_goto_target(&self) -> (r: bool)
        ensures
            !r,
    {
        false
    }

    /// A reserved instruction has no operands.
    pub fn op_data_bytes(&self) -> (r: u16)
        ensures
            r == 0,
    {
        0
    }

    /// A reserved instruction reads no external data.
    pub fn ext_data_bytes(&self) -> (r: u16)
        ensures
            r == 0,
    {
        0
    }

    /// The complexity of a reserved instruction is the largest there is, so that charging it
    /// reaches any complexity limit.
    pub fn complexity(&self) -> (r: u64)
        ensures
            r == u64::MAX,
    {
        u64::MAX
    }

    /// The length of a reserved instruction in the code segment: its opcode alone.
    pub fn code_byte_len(&self) -> (r: u16)
        ensures
            r == 1,
    {
        1
    }
}

impl<Id> Instr<Id> {
    /// The range of opcodes of the instructions: all of them.
    pub fn op_range() -> (r: RangeInclusive<u8>)
        ensures
            r@.start == 0,
            r@.end == 0xFF,
            !r@.exhausted,
    {
        RangeInclusive::new(0, 0xFF)
    }

    /// The complexity charged before executing the instruction.
    pub open spec fn spec_complexity(self) -> u64 {
        match self {
            Instr::Ctrl(c) => ((c.spec_op_data_bytes() + 2 * c.spec_ext_data_bytes()) * 8 * 1000) as u64,
            Instr::Reserved(_) => u64::MAX,
        }
    }

    /// The opcode of the instruction.
    pub fn opcode_byte(&self) -> (r: u8)
        ensures
            r == match *self {
                Instr::Ctrl(c) => c.opcode(),
                Instr::Reserved(res) => res.opcode(),
            },
    {
        match self {
            Instr::Ctrl(c) => c.opcode_byte(),
            Instr::Reserved(res) => res.opcode_byte(),
        }
    }

    /// The length of the instruction in the code segment.
    pub fn code_byte_len(&self) -> (r: u16)
        ensures
            r == match *self {
                Instr::Ctrl(c) => 1 + operand_len(c.opcode()),
                Instr::Reserved(_) => 1,
            },
    {
        match self {
            Instr::Ctrl(c) => c.code_byte_len(),
            Instr::Reserved(res) => res.code_byte_len(),
        }
    }

    /// Whether the instruction may be the target of a jump: only `nop` is.
    pub fn is_goto_target(&self) -> (r: bool)
        ensures
            r <==> (*self is Ctrl && self->Ctrl_0 is Nop),
    {
        match self {
            Instr::Ctrl(c) => c.is_goto_target(),
            Instr::Reserved(res) => res.is_goto_target(),
        }
    }

    /// The operand bytes in the code segment.
    pub fn op_data_bytes(&self) -> (r: u16)
        ensures
            r == match *self {
                Instr::Ctrl(c) => c.spec_op_data_bytes(),
                Instr::Reserved(_) => 0,
            },
    {
        match self {
            Instr::Ctrl(c) => c.op_data_bytes(),
            Instr::Reserved(res) => res.op_data_bytes(),
        }
    }

    /// The bytes read from outside the instruction and the registers.
    pub fn ext_data_bytes(&self) -> (r: u16)
        ensures
            r == match *self {
                Instr::Ctrl(c) => c.spec_ext_data_bytes(),
                Instr::Reserved(_) => 0,
            },
    {
        match self {
            Instr::Ctrl(c) => c.ext_data_bytes(),
            Instr::Reserved(res) => res.ext_data_bytes(),
        }
    }

    /// The registers read by the instruction: none in the core ISA.
    pub fn src_regs(&self) -> (r: BTreeSet<NoRegs>)
        ensures
            r@ == Set::<NoRegs>::empty(),
    {
        BTreeSet::new()
    }

    /// The registers written by the instruction: none in the core ISA.
    pub fn dst_regs(&self) -> (r: BTreeSet<NoRegs>)
        ensures
            r@ == Set::<NoRegs>::empty(),
    {
        BTreeSet::new()
    }

    /// The bytes held by the registers the instruction reads: none in the core ISA.
    pub fn src_reg_bytes(&self) -> (r: u16)
        ensures
            r == 0,
    {
        0
    }

    /// The bytes held by the registers the instruction writes: none in the core ISA.
    pub fn dst_reg_bytes(&self) -> (r: u16)
        ensures
            r == 0,
    {
        0
    }

    /// The complexity of the instruction before any adjustment: eight thousand units per bit of
    /// operands and registers, and twice that per bit of external data.
    pub fn base_complexity(&self) -> (r: u64)
        ensures
            r == (match *self {
                Instr::Ctrl(c) => (c.spec_op_data_bytes() + 2 * c.spec_ext_data_bytes()) * 8 * 1000,
                Instr::Reserved(_) => 0,
            }),
    {
        (self.op_data_bytes() as u64 + self.src_reg_bytes() as u64 + self.dst_reg_bytes() as u64
            + self.ext_data_bytes() as u64 * 2) * 8 * 1000
    }

    /// The complexity charged before executing the instruction: the base complexity, and for a
    /// reserved instruction the largest there is.
    pub fn complexity(&self) -> (r: u64)
        ensures
            r == self.spec_complexity(),
    {
        match self {
            Instr::Ctrl(c) => c.complexity(),
            Instr::Reserved(res) => res.complexity(),
        }
    }
}

impl Instr<LibId> {
    /// Executes the instruction, which stands at `cursor`.
    pub fn exec<Cx: CoreExt>(&self, cursor: LibSite, core: &mut Core<Cx>, context: &()) -> (r: ExecStep<LibSite>)
        requires
            old(core).wf(),
        ensures
            final(core).wf(),
            instr_step(*self, cursor, *old(core), *final(core), r),
    {
        match self {
            Instr::Ctrl(c) => c.exec(cursor, core, context),
            Instr::Reserved(res) => res.exec(cursor, core, context),
        }
    }
}

impl CtrlInstr<LibId> {
    /// The absolute target of a local jump or call (`jmp`, `jif`, `call` within the library),
    /// for a linker to patch; relative jumps have none.
    pub fn local_goto_pos(&mut self) -> (r: Option<&mut u16>)
        ensures
            match *old(self) {
                CtrlInstr::Jmp { pos } => r is Some && *r->Some_0 == pos && *final(self) == CtrlInstr::<LibId>::Jmp { pos: *final(r->Some_0) },
                CtrlInstr::JiOvfl { pos } => r is Some && *r->Some_0 == pos && *final(self) == CtrlInstr::<LibId>::JiOvfl { pos: *final(r->Some_0) },
                CtrlInstr::JiFail { pos } => r is Some && *r->Some_0 == pos && *final(self) == CtrlInstr::<LibId>::JiFail { pos: *final(r->Some_0) },
                CtrlInstr::Fn { pos } => r is Some && *r->Some_0 == pos && *final(self) == CtrlInstr::<LibId>::Fn { pos: *final(r->Some_0) },
                _ => r is None && *final(self) == *old(self),
            },
    {
        match self {
            CtrlInstr::Jmp { pos } => Some(pos),
            CtrlInstr::JiOvfl { pos } => Some(pos),
            CtrlInstr::JiFail { pos } => Some(pos),
            CtrlInstr::Fn { pos } => Some(pos),
            _ => None,
        }
    }

    /// The site of a jump or call into another library (`jmp` or `call` to a site), for a
    /// linker to patch.
    pub fn remote_goto_pos(&mut self) -> (r: Option<&mut LibSite>)
        ensures
            match *old(self) {
                CtrlInstr::Exec { site } => r is Some && *r->Some_0 == site && *final(self) == CtrlInstr::<LibId>::Exec { site: *final(r->Some_0) },
                CtrlInstr::Call { site } => r is Some && *r->Some_0 == site && *final(self) == CtrlInstr::<LibId>::Call { site: *final(r->Some_0) },
                _ => r is None && *final(self) == *old(self),
            },
    {
        match self {
            CtrlInstr::Exec { site } => Some(site),
            CtrlInstr::Call { site } => Some(site),
            _ => None,
        }
    }
}

impl Instr<LibId> {
    /// The absolute target of a local jump or call, if the instruction is one.
    pub fn local_goto_pos(&mut self) -> (r: Option<&mut u16>)
        ensures
            match *old(self) {
                Instr::Ctrl(CtrlInstr::Jmp { pos }) => r is Some && *r->Some_0 == pos && *final(self) == Instr::Ctrl(CtrlInstr::<LibId>::Jmp { pos: *final(r->Some_0) }),
                Instr::Ctrl(CtrlInstr::JiOvfl { pos }) => r is Some && *r->Some_0 == pos && *final(self) == Instr::Ctrl(CtrlInstr::<LibId>::JiOvfl { pos: *final(r->Some_0) }),
                Instr::Ctrl(CtrlInstr::JiFail { pos }) => r is Some && *r->Some_0 == pos && *final(self) == Instr::Ctrl(CtrlInstr::<LibId>::JiFail { pos: *final(r->Some_0) }),
                Instr::Ctrl(CtrlInstr::Fn { pos }) => r is Some && *r->Some_0 == pos && *final(self) == Instr::Ctrl(CtrlInstr::<LibId>::Fn { pos: *final(r->Some_0) }),
                _ => r is None && *final(self) == *old(self),
            },
    {
        match self {
            Instr::Ctrl(c) => c.local_goto_pos(),
            Instr::Reserved(_) => None,
        }
    }

    /// The site of a jump or call into another library, if the instruction is one.
    pub fn remote_goto_pos(&mut self) -> (r: Option<&mut LibSite>)
        ensures
            match *old(self) {
                Instr::Ctrl(CtrlInstr::Exec { site }) => r is Some && *r->Some_0 == site && *final(self) == Instr::Ctrl(CtrlInstr::<LibId>::Exec { site: *final(r->Some_0) }),
                Instr::Ctrl(CtrlInstr::Call { site }) => r is Some && *r->Some_0 == site && *final(self) == Instr::Ctrl(CtrlInstr::<LibId>::Call { site: *final(r->Some_0) }),
                _ => r is None && *final(self) == *old(self),
            },
    {
        match self {
            Instr::Ctrl(c) => c.remote_goto_pos(),
            Instr::Reserved(_) => None,
        }
    }
}

/// The target of a jump which an instruction makes within its library, for a linker to patch.
pub enum GotoTarget<'a> {
    /// The instruction makes no jump within its library (it may still call another library).
    NoTarget,
    /// An absolute offset in the code segment.
    Absolute(&'a mut u16),
    /// An offset relative to the instruction.
    Relative(&'a mut i8),
}

impl CtrlInstr<LibId> {
    /// The target of a jump or call within the library, absolute or relative.
    pub fn goto_target(&mut self) -> (r: GotoTarget)
        ensures
            match *old(self) {
                CtrlInstr::Jmp { pos } => r is Absolute && *r->Absolute_0 == pos && *final(self) == CtrlInstr::<LibId>::Jmp { pos: *final(r->Absolute_0) },
                CtrlInstr::JiOvfl { pos } => r is Absolute && *r->Absolute_0 == pos && *final(self) == CtrlInstr::<LibId>::JiOvfl { pos: *final(r->Absolute_0) },
                CtrlInstr::JiFail { pos } => r is Absolute && *r->Absolute_0 == pos && *final(self) == CtrlInstr::<LibId>::JiFail { pos: *final(r->Absolute_0) },
                CtrlInstr::Fn { pos } => r is Absolute && *r->Absolute_0 == pos && *final(self) == CtrlInstr::<LibId>::Fn { pos: *final(r->Absolute_0) },
                CtrlInstr::Sh { shift } => r is Relative && *r->Relative_0 == shift && *final(self) == CtrlInstr::<LibId>::Sh { shift: *final(r->Relative_0) },
                CtrlInstr::ShOvfl { shift } => r is Relative && *r->Relative_0 == shift && *final(self) == CtrlInstr::<LibId>::ShOvfl { shift: *final(r->Relative_0) },
                CtrlInstr::ShFail { shift } => r is Relative && *r->Relative_0 == shift && *final(self) == CtrlInstr::<LibId>::ShFail { shift: *final(r->Relative_0) },
                _ => r is NoTarget && *final(self) == *old(self),
            },
    {
        match self {
            CtrlInstr::Jmp { pos } => GotoTarget::Absolute(pos),
            CtrlInstr::JiOvfl { pos } => GotoTarget::Absolute(pos),
            CtrlInstr::JiFail { pos } => GotoTarget::Absolute(pos),
            CtrlInstr::Fn { pos } => GotoTarget::Absolute(pos),
            CtrlInstr::Sh { shift } => GotoTarget::Relative(shift),
            CtrlInstr::ShOvfl { shift } => GotoTarget::Relative(shift),
            CtrlInstr::ShFail { shift } => GotoTarget::Relative(shift),
            _ => GotoTarget::NoTarget,
        }
    }
}

impl Instr<LibId> {
    /// The target of a jump or call within the library, absolute or relative; none for a
    /// reserved instruction.
    pub fn goto_target(&mut self) -> (r: GotoTarget)
        ensures
            match *old(self) {
                Instr::Ctrl(c) => (r is Absolute || r is Relative || r is NoTarget) && (r is NoTarget
                    <==> !(c is Jmp || c is JiOvfl || c is JiFail || c is Fn || c is Sh || c is ShOvfl || c is ShFail)),
                Instr::Reserved(_) => r is NoTarget && *final(self) == *old(self),
            },
    {
        match self {
            Instr::Ctrl(c) => c.goto_target(),
            Instr::Reserved(_) => GotoTarget::NoTarget,
        }
    }
}

/// What an instruction set provides so that the runtime can dispatch its instructions, count
/// their complexity and let the assembler place them.
pub trait Instruction: Sized {
    /// The register bank which the instructions add to the core.
    type Core: CoreExt;

    /// Whether the instruction may be the target of a jump.
    fn is_goto_target(&self) -> bool;

    /// The bytes of operands in the code segment.
    fn op_data_bytes(&self) -> u16;

    /// The bytes read from outside the instruction and the registers.
    fn ext_data_bytes(&self) -> u16;

    /// The bytes held by the registers the instruction reads.
    fn src_reg_bytes(&self) -> u16;

    /// The bytes held by the registers the instruction writes.
    fn dst_reg_bytes(&self) -> u16;

    /// The complexity of the instruction before any adjustment: eight thousand units per bit of
    /// operands and registers, and twice that per bit of external data.
    fn base_complexity(&self) -> u64 {
        (self.op_data_bytes() as u64 + self.src_reg_bytes() as u64 + self.dst_reg_bytes() as u64
            + self.ext_data_bytes() as u64 * 2) * 8 * 1000
    }

    /// The complexity charged before executing the instruction.
    fn complexity(&self) -> u64 {
        self.base_complexity()
    }

    /// Executes the instruction, which stands at `site`.
    fn exec(&self, site: LibSite, core: &mut Core<Self::Core>, context: &()) -> ExecStep<LibSite>
        requires
            old(core).wf(),
    ;
}

impl Instruction for Instr<LibId> {
    type Core = NoExt;

    fn is_goto_target(&self) -> bool {
        Instr::<LibId>::is_goto_target(self)
    }

    fn op_data_bytes(&self) -> u16 {
        Instr::<LibId>::op_data_bytes(self)
    }

    fn ext_data_bytes(&self) -> u16 {
        Instr::<LibId>::ext_data_bytes(self)
    }

    fn src_reg_bytes(&self) -> u16 {
        Instr::<LibId>::src_reg_bytes(self)
    }

    fn dst_reg_bytes(&self) -> u16 {
        Instr::<LibId>::dst_reg_bytes(self)
    }

    fn complexity(&self) -> u64 {
        Instr::<LibId>::complexity(self)
    }

    fn exec(&self, site: LibSite, core: &mut Core<NoExt>, context: &()) -> ExecStep<LibSite> {
        Instr::<LibId>::exec(self, site, core, context)
    }
}

/// A relative jump by `shift` from `offset`.
fn shift_jump(offset: u16, shift: i8) -> (r: ExecStep<LibSite>)
    ensures
        r == shift_step(offset, shift),
{
    let pos: i32 = offset as i32 + shift as i32;
    if 0 <= pos && pos <= 0xFFFF {
        ExecStep::Jump(pos as u16)
    } else {
        ExecStep::Fail
    }
}

} // verus!
