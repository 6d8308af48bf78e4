use vstd::prelude::*;
use crate::codec::{decode_spec, lemma_decode_len, skipped_on_error};
use crate::isa::{CtrlInstr, Instr};
use crate::library::Lib;
use crate::marshaller::Marshaller;
use crate::util::{string_of, LibId, LibSite};

verus! {

/// The upper-case hexadecimal digit of a number below 16.
pub open spec fn hex_digit(d: int) -> char {
    if d == 0 { '0' } else if d == 1 { '1' } else if d == 2 { '2' } else if d == 3 { '3' }
    else if d == 4 { '4' } else if d == 5 { '5' } else if d == 6 { '6' } else if d == 7 { '7' }
    else if d == 8 { '8' } else if d == 9 { '9' } else if d == 10 { 'A' } else if d == 11 { 'B' }
    else if d == 12 { 'C' } else if d == 13 { 'D' } else if d == 14 { 'E' } else { 'F' }
}

/// The last `width` upper-case hexadecimal digits of a number, most significant first.
pub open spec fn hex_of(v: nat, width: nat) -> Seq<char>
    decreases width,
{
    if width == 0 {
        Seq::empty()
    } else {
        hex_of(v / 16, (width - 1) as nat).push(hex_digit((v % 16) as int))
    }
}

/// The digits of a library identifier: two hexadecimal digits per byte.
pub open spec fn lib_id_text(id: LibId) -> Seq<char>
    decreases 30int,
{
    lib_id_prefix_text(id, 30)
}

/// The digits of the first `n` bytes of a library identifier.
pub open spec fn lib_id_prefix_text(id: LibId, n: nat) -> Seq<char>
    decreases n,
{
    if n == 0 {
        Seq::empty()
    } else {
        lib_id_prefix_text(id, (n - 1) as nat) + hex_of(id.bytes@[n - 1] as nat, 2)
    }
}

/// The text of a site: the library, `@`, and the offset.
pub open spec fn site_text(site: LibSite) -> Seq<char> {
    lib_id_text(site.prog_id) + "@"@ + hex_of(site.offset as nat, 4) + "#h"@
}

/// The text of a relative shift: a sign and two hexadecimal digits of its byte.
pub open spec fn shift_text(shift: i8) -> Seq<char> {
    "+"@ + hex_of((if shift < 0 { shift + 256 } else { shift as int }) as nat, 2) + "#h"@
}

impl Instr<LibId> {
    /// The text of the instruction, in assembly.
    pub open spec fn text(self) -> Seq<char> {
        match self {
            Instr::Ctrl(c) => match c {
                CtrlInstr::Nop => "nop"@,
                CtrlInstr::ChkCo => "chk     CO"@,
                CtrlInstr::ChkCk => "chk     CK"@,
                CtrlInstr::NotCo => "not     CO"@,
                CtrlInstr::FailCk => "fail    CK"@,
                CtrlInstr::RsetCk => "mov     CO, CK"@,
                CtrlInstr::Jmp { pos } => "jmp     "@ + hex_of(pos as nat, 4) + "#h"@,
                CtrlInstr::JiOvfl { pos } => "jif     CO, "@ + hex_of(pos as nat, 4) + "#h"@,
                CtrlInstr::JiFail { pos } => "jif     CK, "@ + hex_of(pos as nat, 4) + "#h"@,
                CtrlInstr::Sh { shift } => "jmp     "@ + shift_text(shift),
                CtrlInstr::ShOvfl { shift } => "jif     CO, "@ + shift_text(shift),
                CtrlInstr::ShFail { shift } => "jif     CK, "@ + shift_text(shift),
                CtrlInstr::Exec { site } => "jmp     "@ + site_text(site),
                CtrlInstr::Fn { pos } => "call    "@ + hex_of(pos as nat, 4) + "#h"@,
                CtrlInstr::Call { site } => "call    "@ + site_text(site),
                CtrlInstr::Ret => "ret"@,
                CtrlInstr::Stop => "stop"@,
            },
            Instr::Reserved(r) => "halt    0x"@ + hex_of(r.opcode() as nat, 2) + ".h"@,
        }
    }
}

/// Appends the characters of a string.
fn push_str(out: &mut Vec<char>, s: &str)
    ensures
        final(out)@ == old(out)@ + s@,
{
    let n = s.unicode_len();
    let mut i: usize = 0;
    while i < n
        invariant
            n == s@.len(),
            i <= n,
            out@ == old(out)@ + s@.take(i as int),
        decreases n - i,
    {
        out.push(s.get_char(i));
        proof {
            assert(s@.take(i + 1) =~= s@.take(i as int).push(s@[i as int]));
            assert(out@ =~= old(out)@ + s@.take(i + 1));
        }
        i += 1;
    }
    proof {
        assert(s@.take(n as int) =~= s@);
    }
}

/// The hexadecimal digit of a number below 16.
fn hex_char(d: u32) -> (r: char)
    requires
        d < 16,
    ensures
        r == hex_digit(d as int),
{
    match d {
        0 => '0', 1 => '1', 2 => '2', 3 => '3', 4 => '4', 5 => '5', 6 => '6', 7 => '7',
        8 => '8', 9 => '9', 10 => 'A', 11 => 'B', 12 => 'C', 13 => 'D', 14 => 'E', _ => 'F',
    }
}

/// Appends the last `width` hexadecimal digits of a number.
fn push_hex(out: &mut Vec<char>, v: u32, width: u32)
    requires
        width <= 8,
    ensures
        final(out)@ == old(out)@ + hex_of(v as nat, width as nat),
    decreases width,
{
    if width > 0 {
        push_hex(out, v / 16, width - 1);
        out.push(hex_char(v % 16));
        proof {
            assert(final(out)@ =~= old(out)@ + hex_of(v as nat, width as nat));
        }
    } else {
        proof {
            assert(out@ =~= old(out)@ + hex_of(v as nat, width as nat));
        }
    }
}

/// Appends the text of a site.
fn push_site(out: &mut Vec<char>, site: LibSite)
    ensures
        final(out)@ == old(out)@ + site_text(site),
{
    let mut i: usize = 0;
    while i < 30
        invariant
            i <= 30,
            out@ == old(out)@ + lib_id_prefix_text(site.prog_id, i as nat),
        decreases 30 - i,
    {
        push_hex(out, site.prog_id.bytes[i] as u32, 2);
        proof {
            assert(out@ =~= old(out)@ + lib_id_prefix_text(site.prog_id, (i + 1) as nat));
        }
        i += 1;
    }
    push_str(out, "@");
    push_hex(out, site.offset as u32, 4);
    push_str(out, "#h");
    proof {
        assert(out@ =~= old(out)@ + site_text(site));
    }
}

/// Appends the text of a relative shift.
fn push_shift(out: &mut Vec<char>, shift: i8)
    ensures
        final(out)@ == old(out)@ + shift_text(shift),
{
    push_str(out, "+");
    let b: u32 = if shift < 0 {
        (shift as i32 + 256) as u32
    } else {
        shift as u32
    };
    push_hex(out, b, 2);
    push_str(out, "#h");
    proof {
        assert(out@ =~= old(out)@ + shift_text(shift));
    }
}

impl Instr<LibId> {
    /// Appends the text of the instruction.
    fn push_text(&self, out: &mut Vec<char>)
        ensures
            final(out)@ == old(out)@ + self.text(),
    {
        match *self {
            Instr::Ctrl(c) => match c {
                CtrlInstr::Nop => push_str(out, "nop"),
                CtrlInstr::ChkCo => push_str(out, "chk     CO"),
                CtrlInstr::ChkCk => push_str(out, "chk     CK"),
                CtrlInstr::NotCo => push_str(out, "not     CO"),
                CtrlInstr::FailCk => push_str(out, "fail    CK"),
                CtrlInstr::RsetCk => push_str(out, "mov     CO, CK"),
                CtrlInstr::Jmp { pos } => {
                    push_str(out, "jmp     ");
                    push_hex(out, pos as u32, 4);
                    push_str(out, "#h");
                },
                CtrlInstr::JiOvfl { pos } => {
                    push_str(out, "jif     CO, ");
                    push_hex(out, pos as u32, 4);
                    push_str(out, "#h");
                },
                CtrlInstr::JiFail { pos } => {
                    push_str(out, "jif     CK, ");
                    push_hex(out, pos as u32, 4);
                    push_str(out, "#h");
                },
                CtrlInstr::Sh { shift } => {
                    push_str(out, "jmp     ");
                    push_shift(out, shift);
                },
                CtrlInstr::ShOvfl { shift } => {
                    push_str(out, "jif     CO, ");
                    push_shift(out, shift);
                },
                CtrlInstr::ShFail { shift } => {
                    push_str(out, "jif     CK, ");
                    push_shift(out, shift);
                },
                CtrlInstr::Exec { site } => {
                    push_str(out, "jmp     ");
                    push_site(out, site);
                },
                CtrlInstr::Fn { pos } => {
                    push_str(out, "call    ");
                    push_hex(out, pos as u32, 4);
                    push_str(out, "#h");
                },
                CtrlInstr::Call { site } => {
                    push_str(out, "call    ");
                    push_site(out, site);
                },
                CtrlInstr::Ret => push_str(out, "ret"),
                CtrlInstr::Stop => push_str(out, "stop"),
            },
            Instr::Reserved(r) => {
                push_str(out, "halt    0x");
                push_hex(out, r.opcode_byte() as u32, 2);
                push_str(out, ".h");
            },
        }
        proof {
            assert(out@ =~= old(out)@ + self.text());
        }
    }
}

/// The line of a listing for an instruction at a position.
pub open spec fn listing_line(pos: nat, instr: Instr<LibId>) -> Seq<char> {
    "@x"@ + hex_of(pos, 6) + ": "@ + instr.text() + "\n"@
}

/// The line of a listing for an incomplete instruction at a position.
pub open spec fn incomplete_line(pos: nat) -> Seq<char> {
    "@x"@ + hex_of(pos, 6) + ": "@ + "; <incomplete instruction>\n"@
}

/// The listing of a code segment from a position: a line for each instruction, and where an
/// instruction cannot be decoded a line saying so, after which the listing goes on past the
/// bytes which were read.
pub open spec fn listing_at(code: Seq<u8>, pos: int, libs: Seq<LibId>) -> Seq<char>
    decreases code.len() - pos,
{
    if pos < 0 || pos >= code.len() {
        Seq::empty()
    } else {
        match decode_spec(code, pos, libs) {
            // an instruction spans at least one byte, so that the first case never occurs
            Ok((i, p)) => if p <= pos {
                Seq::empty()
            } else {
                listing_line(pos as nat, i) + listing_at(code, p, libs)
            },
            Err(e) => incomplete_line(pos as nat) + listing_at(code, pos + skipped_on_error(e), libs),
        }
    }
}

impl Instr<LibId> {
    /// The text of the instruction, in assembly.
    pub fn to_string(&self) -> (r: String)
        ensures
            r@ == self.text(),
    {
        let mut out: Vec<char> = Vec::new();
        self.push_text(&mut out);
        proof {
            assert(out@ =~= self.text());
        }
        string_of(&out)
    }
}

impl Lib {
    /// The listing of the code segment: for each instruction a line with its offset and its
    /// text, or a note where an instruction is incomplete.
    pub fn print_disassemble(&self) -> (r: String)
        requires
            self.wf(),
        ensures
            r@ == listing_at(self.code@, 0, self.libs@),
    {
        let mut out: Vec<char> = Vec::new();
        let mut m = Marshaller::with(self.code.clone(), self.data.clone(), &self.libs);
        while !m.is_eof()
            invariant
                m.wf(),
                m.code_seg() == self.code@,
                m.libs_seg() == self.libs@,
                listing_at(self.code@, 0, self.libs@) == out@ + listing_at(self.code@, m.cursor(), self.libs@),
            decreases self.code@.len() - m.cursor(),
        {
            let pos = m.offset();
            let ghost before = out@;
            push_str(&mut out, "@x");
            push_hex(&mut out, pos as u32, 6);
            push_str(&mut out, ": ");
            proof {
                lemma_decode_len(self.code@, pos as int, self.libs@);
            }
            match Instr::decode_instr(&mut m) {
                Ok(instr) => {
                    instr.push_text(&mut out);
                    push_str(&mut out, "\n");
                    proof {
                        assert(out@ =~= before + listing_line(pos as nat, instr));
                    }
                },
                Err(_) => {
                    push_str(&mut out, "; <incomplete instruction>\n");
                    proof {
                        assert(out@ =~= before + incomplete_line(pos as nat));
                    }
                },
            }
        }
        proof {
            assert(out@ + Seq::<char>::empty() =~= out@);
        }
        string_of(&out)
    }
}

} // verus!
