use vstd::prelude::*;
use crate::isa::{CtrlInstr, Instr, ReservedInstr, shift_byte, shift_of, operand_len};
use crate::opcodes::{NOP, NOCO, CHCO, CHCK, FAIL, RSET, JMP, JINE, JIFAIL, SH, SHNE, SHFAIL, EXEC, FN, CALL, RET, STOP};
use crate::marshaller::{le_word, word_of, lemma_word_round_trip, Marshaller, MarshallError, DecodeError, CODE_SEGMENT_MAX, LIBS_SEGMENT_MAX};
use crate::util::{LibId, Site};

verus! {

impl CtrlInstr<LibId> {
    /// The operand bytes of the instruction, given the segment of referenced libraries.
    pub open spec fn operands(self, libs: Seq<LibId>) -> Seq<u8> {
        match self {
            CtrlInstr::Jmp { pos } => le_word(pos),
            CtrlInstr::JiOvfl { pos } => le_word(pos),
            CtrlInstr::JiFail { pos } => le_word(pos),
            CtrlInstr::Fn { pos } => le_word(pos),
            CtrlInstr::Sh { shift } => seq![shift_byte(shift)],
            CtrlInstr::ShOvfl { shift } => seq![shift_byte(shift)],
            CtrlInstr::ShFail { shift } => seq![shift_byte(shift)],
            CtrlInstr::Exec { site } => seq![libs.index_of(site.prog_id) as u8] + le_word(site.offset),
            CtrlInstr::Call { site } => seq![libs.index_of(site.prog_id) as u8] + le_word(site.offset),
            _ => Seq::empty(),
        }
    }

    /// The library the instruction refers to, if any.
    pub open spec fn ext_ref(self) -> Option<LibId> {
        match self {
            CtrlInstr::Exec { site } => Some(site.prog_id),
            CtrlInstr::Call { site } => Some(site.prog_id),
            _ => None,
        }
    }
}

impl Instr<LibId> {
    /// The well-formed instructions: a reserved one has an opcode outside those of control flow.
    pub open spec fn wf(self) -> bool {
        match self {
            Instr::Ctrl(_) => true,
            Instr::Reserved(r) => r.opcode() > STOP,
        }
    }

    /// The opcode of the instruction.
    pub open spec fn opcode(self) -> u8 {
        match self {
            Instr::Ctrl(c) => c.opcode(),
            Instr::Reserved(r) => r.opcode(),
        }
    }

    /// The library the instruction refers to, if any.
    pub open spec fn ext_ref(self) -> Option<LibId> {
        match self {
            Instr::Ctrl(c) => c.ext_ref(),
            Instr::Reserved(_) => None,
        }
    }

    /// The bytes of the instruction in the code segment, given the segment of referenced
    /// libraries.
    pub open spec fn bytes(self, libs: Seq<LibId>) -> Seq<u8> {
        match self {
            Instr::Ctrl(c) => seq![c.opcode()] + c.operands(libs),
            Instr::Reserved(r) => seq![r.opcode()],
        }
    }

    /// The number of bytes of the instruction in the code segment.
    pub open spec fn byte_len(self) -> nat {
        1 + operand_len(self.opcode())
    }

    /// Whether the library the instruction refers to, if any, is in the segment.
    pub open spec fn refs_in(self, libs: Seq<LibId>) -> bool {
        match self.ext_ref() {
            Some(id) => libs.contains(id),
            None => true,
        }
    }

    /// Whether a reference to the library of the instruction, if any, fits into the segment.
    pub open spec fn ref_fits(self, libs: Seq<LibId>) -> bool {
        match self.ext_ref() {
            Some(id) => libs.contains(id) || libs.len() < LIBS_SEGMENT_MAX,
            None => true,
        }
    }
}

/// The segment of referenced libraries after writing an instruction: its library is appended
/// when it is absent.
pub open spec fn libs_with(libs: Seq<LibId>, instr: Instr<LibId>) -> Seq<LibId> {
    match instr.ext_ref() {
        Some(id) => if libs.contains(id) {
            libs
        } else {
            libs.push(id)
        },
        None => libs,
    }
}

/// The control-flow instruction of an opcode that takes no operand.
pub open spec fn nullary(op: u8) -> CtrlInstr<LibId> {
    if op == NOP {
        CtrlInstr::Nop
    } else if op == NOCO {
        CtrlInstr::NotCo
    } else if op == CHCO {
        CtrlInstr::ChkCo
    } else if op == CHCK {
        CtrlInstr::ChkCk
    } else if op == FAIL {
        CtrlInstr::FailCk
    } else if op == RSET {
        CtrlInstr::RsetCk
    } else if op == RET {
        CtrlInstr::Ret
    } else {
        CtrlInstr::Stop
    }
}

/// Decodes the operands of a control-flow opcode starting at `p`: the instruction and the
/// position after it.
pub open spec fn decode_ctrl_spec(code: Seq<u8>, p: int, op: u8, libs: Seq<LibId>) -> Result<
    (CtrlInstr<LibId>, int),
    DecodeError,
> {
    if op == EXEC || op == CALL {
        if p + 3 > code.len() {
            Err(DecodeError::CodeEof)
        } else if code[p] as int >= libs.len() {
            Err(DecodeError::LibAbsent)
        } else {
            let site = Site { prog_id: libs[code[p] as int], offset: word_of(code[p + 1], code[p + 2]) };
            Ok((if op == EXEC { CtrlInstr::Exec { site } } else { CtrlInstr::Call { site } }, p + 3))
        }
    } else if p + operand_len(op) > code.len() {
        Err(DecodeError::CodeEof)
    } else if op == JMP {
        Ok((CtrlInstr::Jmp { pos: word_of(code[p], code[p + 1]) }, p + 2))
    } else if op == JINE {
        Ok((CtrlInstr::JiOvfl { pos: word_of(code[p], code[p + 1]) }, p + 2))
    } else if op == JIFAIL {
        Ok((CtrlInstr::JiFail { pos: word_of(code[p], code[p + 1]) }, p + 2))
    } else if op == FN {
        Ok((CtrlInstr::Fn { pos: word_of(code[p], code[p + 1]) }, p + 2))
    } else if op == SH {
        Ok((CtrlInstr::Sh { shift: shift_of(code[p]) }, p + 1))
    } else if op == SHNE {
        Ok((CtrlInstr::ShOvfl { shift: shift_of(code[p]) }, p + 1))
    } else if op == SHFAIL {
        Ok((CtrlInstr::ShFail { shift: shift_of(code[p]) }, p + 1))
    } else {
        Ok((nullary(op), p))
    }
}

/// The bytes which reading an instruction consumed when it failed: its opcode, and the index of
/// a library absent from the segment.
pub open spec fn skipped_on_error(e: DecodeError) -> int {
    if e == DecodeError::LibAbsent {
        2
    } else {
        1
    }
}

/// Decodes the instruction at `pos` of a code segment: the instruction and the position after
/// it.
pub open spec fn decode_spec(code: Seq<u8>, pos: int, libs: Seq<LibId>) -> Result<
    (Instr<LibId>, int),
    DecodeError,
> {
    if pos < 0 || pos >= code.len() {
        Err(DecodeError::CodeEof)
    } else if code[pos] > STOP {
        Ok((Instr::Reserved(ReservedInstr::from_opcode(code[pos])), pos + 1))
    } else {
        match decode_ctrl_spec(code, pos + 1, code[pos], libs) {
            Ok((c, p)) => Ok((Instr::Ctrl(c), p)),
            Err(e) => Err(e),
        }
    }
}

impl CtrlInstr<LibId> {
    /// Writes the operands of the instruction into the code segment. Nothing is written when it
    /// fails.
    pub fn encode_operands(&self, m: &mut Marshaller) -> (r: Result<(), MarshallError>)
        requires
            old(m).wf(),
        ensures
            final(m).wf(),
            final(m).data_seg() == old(m).data_seg(),
            final(m).cursor() == old(m).cursor(),
            r.is_ok() <==> old(m).code_seg().len() + operand_len(self.opcode()) <= CODE_SEGMENT_MAX
                && Instr::Ctrl(*self).ref_fits(old(m).libs_seg()),
            r.is_ok() ==> final(m).libs_seg() == libs_with(old(m).libs_seg(), Instr::Ctrl(*self))
                && final(m).code_seg() == old(m).code_seg() + self.operands(final(m).libs_seg()),
            r.is_err() ==> final(m).code_seg() == old(m).code_seg() && final(m).libs_seg()
                == old(m).libs_seg(),
            r == Err::<(), MarshallError>(MarshallError::CodeOverflow)
                <==> old(m).code_seg().len() + operand_len(self.opcode()) > CODE_SEGMENT_MAX,
            r == Err::<(), MarshallError>(MarshallError::LibSegOverflow)
                <==> old(m).code_seg().len() + operand_len(self.opcode()) <= CODE_SEGMENT_MAX
                && !Instr::Ctrl(*self).ref_fits(old(m).libs_seg()),
    {
        let len = self.code_byte_len();
        if m.code_len() + (len - 1) as usize > CODE_SEGMENT_MAX {
            return Err(MarshallError::CodeOverflow);
        }
        match self {
            CtrlInstr::Exec { site } | CtrlInstr::Call { site } => {
                if !m.can_ref(site.prog_id) {
                    return Err(MarshallError::LibSegOverflow);
                }
            },
            _ => {},
        }
        match *self {
            CtrlInstr::Jmp { pos }
            | CtrlInstr::JiOvfl { pos }
            | CtrlInstr::JiFail { pos }
            | CtrlInstr::Fn { pos } => {
                let _ = m.write_word(pos);
            },
            CtrlInstr::Sh { shift } | CtrlInstr::ShOvfl { shift } | CtrlInstr::ShFail { shift } => {
                let b: u8 = if shift < 0 {
                    (shift as i16 + 256) as u8
                } else {
                    shift as u8
                };
                let _ = m.write_byte(b);
                proof {
                    assert(m.code_seg() =~= old(m).code_seg() + self.operands(m.libs_seg()));
                }
            },
            CtrlInstr::Exec { site } | CtrlInstr::Call { site } => {
                let _ = m.write_ref(site.prog_id);
                let _ = m.write_word(site.offset);
                proof {
                    assert(m.code_seg() =~= old(m).code_seg() + self.operands(m.libs_seg()));
                }
            },
            _ => {
                proof {
                    assert(m.code_seg() =~= old(m).code_seg() + self.operands(m.libs_seg()));
                }
            },
        }
        Ok(())
    }
}

impl CtrlInstr<LibId> {
    /// Reads the operands of a control-flow opcode, which was read already.
    pub fn decode_operands(m: &mut Marshaller, opcode: u8) -> (r: Result<CtrlInstr<LibId>, DecodeError>)
        requires
            old(m).wf(),
            opcode <= STOP,
        ensures
            final(m).wf(),
            final(m).code_seg() == old(m).code_seg(),
            final(m).data_seg() == old(m).data_seg(),
            final(m).libs_seg() == old(m).libs_seg(),
            final(m).cursor() >= old(m).cursor(),
            r matches Err(e) ==> final(m).cursor() == old(m).cursor() + (if e == DecodeError::LibAbsent { 1int } else { 0int }),
            match decode_ctrl_spec(old(m).code_seg(), old(m).cursor(), opcode, old(m).libs_seg()) {
                Ok((c, p)) => r == Ok::<CtrlInstr<LibId>, DecodeError>(c) && final(m).cursor() == p,
                Err(e) => r == Err::<CtrlInstr<LibId>, DecodeError>(e),
            },
    {
        if opcode == EXEC || opcode == CALL {
            if m.offset() as usize + 3 > m.code_len() {
                return Err(DecodeError::CodeEof);
            }
            let prog_id = m.read_ref()?;
            let offset = m.read_word()?;
            let site = Site::new(prog_id, offset);
            return Ok(if opcode == EXEC { CtrlInstr::Exec { site } } else { CtrlInstr::Call { site } });
        }
        let instr = if opcode == JMP {
            CtrlInstr::Jmp { pos: m.read_word()? }
        } else if opcode == JINE {
            CtrlInstr::JiOvfl { pos: m.read_word()? }
        } else if opcode == JIFAIL {
            CtrlInstr::JiFail { pos: m.read_word()? }
        } else if opcode == FN {
            CtrlInstr::Fn { pos: m.read_word()? }
        } else if opcode == SH || opcode == SHNE || opcode == SHFAIL {
            let b = m.read_byte()?;
            let shift: i8 = if b >= 128 {
                (b as i16 - 256) as i8
            } else {
                b as i8
            };
            if opcode == SH {
                CtrlInstr::Sh { shift }
            } else if opcode == SHNE {
                CtrlInstr::ShOvfl { shift }
            } else {
                CtrlInstr::ShFail { shift }
            }
        } else if opcode == NOP {
            CtrlInstr::Nop
        } else if opcode == NOCO {
            CtrlInstr::NotCo
        } else if opcode == CHCO {
            CtrlInstr::ChkCo
        } else if opcode == CHCK {
            CtrlInstr::ChkCk
        } else if opcode == FAIL {
            CtrlInstr::FailCk
        } else if opcode == RSET {
            CtrlInstr::RsetCk
        } else if opcode == RET {
            CtrlInstr::Ret
        } else {
            CtrlInstr::Stop
        };
        Ok(instr)
    }
}

impl Instr<LibId> {
    /// Writes the instruction into the code segment: its opcode and its operands. Nothing is
    /// written when it fails.
    pub fn encode_instr(&self, m: &mut Marshaller) -> (r: Result<(), MarshallError>)
        requires
            old(m).wf(),
        ensures
            self.wf(),
            final(m).wf(),
            final(m).data_seg() == old(m).data_seg(),
            final(m).cursor() == old(m).cursor(),
            r.is_ok() <==> old(m).code_seg().len() + self.byte_len() <= CODE_SEGMENT_MAX
                && self.ref_fits(old(m).libs_seg()),
            r.is_ok() ==> final(m).libs_seg() == libs_with(old(m).libs_seg(), *self)
                && final(m).code_seg() == old(m).code_seg() + self.bytes(final(m).libs_seg()),
            r.is_err() ==> final(m).code_seg() == old(m).code_seg() && final(m).libs_seg()
                == old(m).libs_seg(),
            r == Err::<(), MarshallError>(MarshallError::CodeOverflow)
                <==> old(m).code_seg().len() + self.byte_len() > CODE_SEGMENT_MAX,
            r == Err::<(), MarshallError>(MarshallError::LibSegOverflow)
                <==> old(m).code_seg().len() + self.byte_len() <= CODE_SEGMENT_MAX
                && !self.ref_fits(old(m).libs_seg()),
    {
        match self {
            Instr::Ctrl(c) => {
                let len = c.code_byte_len();
                if m.code_len() + len as usize > CODE_SEGMENT_MAX {
                    return Err(MarshallError::CodeOverflow);
                }
                match c {
                    CtrlInstr::Exec { site } | CtrlInstr::Call { site } => {
                        if !m.can_ref(site.prog_id) {
                            return Err(MarshallError::LibSegOverflow);
                        }
                    },
                    _ => {},
                }
                let _ = m.write_byte(c.opcode_byte());
                let _ = c.encode_operands(m);
                proof {
                    assert(m.code_seg() =~= old(m).code_seg() + self.bytes(m.libs_seg()));
                }
                Ok(())
            },
            Instr::Reserved(res) => {
                let op = res.opcode_byte();
                if m.code_len() + 1 > CODE_SEGMENT_MAX {
                    return Err(MarshallError::CodeOverflow);
                }
                let _ = m.write_byte(op);
                proof {
                    assert(m.code_seg() =~= old(m).code_seg() + self.bytes(m.libs_seg()));
                }
                Ok(())
            },
        }
    }

    /// Reads the instruction at the cursor: its opcode, then the operands which the opcode
    /// takes. An opcode outside control flow reads as a reserved instruction.
    pub fn decode_instr(m: &mut Marshaller) -> (r: Result<Instr<LibId>, DecodeError>)
        requires
            old(m).wf(),
        ensures
            final(m).wf(),
            final(m).code_seg() == old(m).code_seg(),
            final(m).data_seg() == old(m).data_seg(),
            final(m).libs_seg() == old(m).libs_seg(),
            old(m).cursor() < old(m).code_seg().len() ==> final(m).cursor() > old(m).cursor(),
            old(m).cursor() < old(m).code_seg().len() ==> (r matches Err(e) ==> final(m).cursor()
                == old(m).cursor() + skipped_on_error(e)),
            match decode_spec(old(m).code_seg(), old(m).cursor(), old(m).libs_seg()) {
                Ok((i, p)) => r == Ok::<Instr<LibId>, DecodeError>(i) && final(m).cursor() == p,
                Err(e) => r == Err::<Instr<LibId>, DecodeError>(e),
            },
    {
        let op = m.read_byte()?;
        if op > STOP {
            Ok(Instr::Reserved(ReservedInstr::of_opcode(op)))
        } else {
            match CtrlInstr::decode_operands(m, op) {
                Ok(c) => Ok(Instr::Ctrl(c)),
                Err(e) => Err(e),
            }
        }
    }
}

impl Instr<LibId> {
    /// The library the instruction refers to, if any.
    pub fn external_ref(&self) -> (r: Option<LibId>)
        ensures
            r == self.ext_ref(),
    {
        match self {
            Instr::Ctrl(CtrlInstr::Exec { site }) | Instr::Ctrl(CtrlInstr::Call { site }) => Some(site.prog_id),
            _ => None,
        }
    }
}

/// The bytes of an instruction are as many as its length says, and writing it leaves a
/// segment which already holds its library unchanged.
pub proof fn lemma_bytes_len(instr: Instr<LibId>, libs: Seq<LibId>)
    requires
        instr.wf(),
    ensures
        instr.bytes(libs).len() == instr.byte_len(),
        instr.refs_in(libs) ==> libs_with(libs, instr) == libs,
        instr.refs_in(libs) ==> instr.ref_fits(libs),
{
    match instr {
        Instr::Ctrl(c) => {
            match c {
                CtrlInstr::Jmp { .. } | CtrlInstr::JiOvfl { .. } | CtrlInstr::JiFail { .. } | CtrlInstr::Fn { .. } => {},
                CtrlInstr::Sh { .. } | CtrlInstr::ShOvfl { .. } | CtrlInstr::ShFail { .. } => {},
                CtrlInstr::Exec { .. } | CtrlInstr::Call { .. } => {},
                _ => {},
            }
        },
        Instr::Reserved(_) => {},
    }
}

/// A decoded instruction spans as many bytes as its length says.
pub proof fn lemma_decode_len(code: Seq<u8>, pos: int, libs: Seq<LibId>)
    ensures
        decode_spec(code, pos, libs) matches Ok((i, p)) ==> p == pos + i.byte_len(),
{
    if 0 <= pos < code.len() && code[pos] > STOP {
        ReservedInstr::lemma_from_opcode(code[pos]);
    }
}

/// Decoding the bytes of a well-formed instruction, wherever they stand in a code segment,
/// gives back the instruction and the position right after it.
pub proof fn lemma_decode_bytes(instr: Instr<LibId>, code: Seq<u8>, pos: int, libs: Seq<LibId>)
    requires
        instr.wf(),
        instr.refs_in(libs),
        libs.no_duplicates(),
        libs.len() <= LIBS_SEGMENT_MAX,
        0 <= pos,
        pos + instr.byte_len() <= code.len(),
        code.subrange(pos, pos + instr.byte_len()) == instr.bytes(libs),
    ensures
        instr.bytes(libs).len() == instr.byte_len(),
        decode_spec(code, pos, libs) == Ok::<(Instr<LibId>, int), DecodeError>((instr, pos + instr.byte_len())),
{
    let b = instr.bytes(libs);
    assert(code[pos] == b[0]);
    match instr {
        Instr::Reserved(r) => {
            ReservedInstr::lemma_from_opcode(r.opcode());
            ReservedInstr::lemma_opcode_determines(r, ReservedInstr::from_opcode(r.opcode()));
        },
        Instr::Ctrl(c) => {
            match c {
                CtrlInstr::Jmp { pos: w } | CtrlInstr::JiOvfl { pos: w } | CtrlInstr::JiFail { pos: w } | CtrlInstr::Fn { pos: w } => {
                    assert(code[pos + 1] == b[1]);
                    assert(code[pos + 2] == b[2]);
                    lemma_word_round_trip(w);
                },
                CtrlInstr::Sh { shift } | CtrlInstr::ShOvfl { shift } | CtrlInstr::ShFail { shift } => {
                    assert(code[pos + 1] == b[1]);
                },
                CtrlInstr::Exec { site } | CtrlInstr::Call { site } => {
                    assert(code[pos + 1] == b[1]);
                    assert(code[pos + 2] == b[2]);
                    assert(code[pos + 3] == b[3]);
                    lemma_word_round_trip(site.offset);
                    let i = libs.index_of(site.prog_id);
                    assert(0 <= i < libs.len() && libs[i] == site.prog_id);
                },
                _ => {},
            }
        },
    }
}

} // verus!
