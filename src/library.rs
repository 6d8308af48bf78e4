use vstd::prelude::*;
use crate::codec::{decode_spec, lemma_decode_bytes, lemma_bytes_len};
use crate::isa::Instr;
use crate::marshaller::{libs_seg_wf, Marshaller, MarshallError, DecodeError, CODE_SEGMENT_MAX, DATA_SEGMENT_MAX, LIBS_SEGMENT_MAX};
use crate::util::LibId;

verus! {

/// The longest identifier of an ISA.
pub const ISA_ID_MAX_LEN: usize = 16;

/// Whether a character may stand in the identifier of an ISA: an upper-case letter or a digit.
pub open spec fn is_isa_char(c: char) -> bool {
    ('A' <= c && c <= 'Z') || ('0' <= c && c <= '9')
}

/// Whether a string is a valid identifier of an ISA.
pub open spec fn is_isa_id(s: Seq<char>) -> bool {
    1 <= s.len() <= ISA_ID_MAX_LEN && forall|i: int| 0 <= i < s.len() ==> is_isa_char(#[trigger] s[i])
}

/// The identifier of an instruction set architecture: one to sixteen upper-case letters and
/// digits.
#[derive(Clone, PartialEq, Eq, PartialOrd, Ord, Hash, Debug)]
pub struct IsaId {
    id: String,
}

impl IsaId {
    /// The identifier as a string.
    pub closed spec fn view(&self) -> Seq<char> {
        self.id@
    }

    /// The identifier made of a string; `None` when the string is not a valid identifier.
    pub fn with(s: &str) -> (r: Option<IsaId>)
        ensures
            r.is_some() <==> is_isa_id(s@),
            r.is_some() ==> r.unwrap().view() == s@,
    {
        let n = s.unicode_len();
        if n < 1 || n > ISA_ID_MAX_LEN {
            return None;
        }
        let mut i: usize = 0;
        while i < n
            invariant
                n == s@.len(),
                i <= n,
                forall|j: int| 0 <= j < i ==> is_isa_char(#[trigger] s@[j]),
            decreases n - i,
        {
            let c = s.get_char(i);
            if !(('A' <= c && c <= 'Z') || ('0' <= c && c <= '9')) {
                return None;
            }
            i += 1;
        }
        Some(IsaId { id: s.to_owned() })
    }

    /// The identifier as a string.
    pub fn as_str(&self) -> (r: &str)
        ensures
            r@ == self.view(),
    {
        self.id.as_str()
    }
}

/// Errors of assembling a library.
#[derive(Copy, Clone, PartialEq, Eq, Hash, Debug, Structural)]
pub enum AssemblerError {
    /// Error writing the code segment.
    Bytecode(MarshallError),
    /// More external libraries are referenced than the segment of referenced libraries holds.
    LibSegOverflow,
}

/// A library: code and data segments, with the libraries its code refers to and the ISAs its
/// code needs.
#[derive(Clone, Debug)]
pub struct Lib {
    /// The ISA of the code.
    pub isa: IsaId,
    /// The ISA extensions the code needs.
    pub isae: Vec<IsaId>,
    /// The segment of referenced libraries.
    pub libs: Vec<LibId>,
    /// The code segment.
    pub code: Vec<u8>,
    /// The data segment.
    pub data: Vec<u8>,
}

/// Whether an instruction of a sequence refers to a library.
pub open spec fn referenced(instrs: Seq<Instr<LibId>>, id: LibId) -> bool {
    exists|i: int| 0 <= i < instrs.len() && #[trigger] instrs[i].ext_ref() == Some(id)
}

/// The code segment of a sequence of instructions, given the segment of referenced libraries.
pub open spec fn encoded_all(instrs: Seq<Instr<LibId>>, libs: Seq<LibId>) -> Seq<u8>
    decreases instrs.len(),
{
    if instrs.len() == 0 {
        Seq::empty()
    } else {
        encoded_all(instrs.drop_last(), libs) + instrs.last().bytes(libs)
    }
}

/// The length of the code segment of a sequence of instructions.
pub open spec fn encoded_len(instrs: Seq<Instr<LibId>>) -> nat
    decreases instrs.len(),
{
    if instrs.len() == 0 {
        0
    } else {
        encoded_len(instrs.drop_last()) + instrs.last().byte_len()
    }
}

/// Decodes the instructions of a code segment from `pos` to its end.
pub open spec fn decode_all(code: Seq<u8>, pos: int, libs: Seq<LibId>) -> Result<Seq<Instr<LibId>>, DecodeError>
    decreases code.len() - pos,
{
    if pos < 0 || pos >= code.len() {
        Ok(Seq::empty())
    } else {
        match decode_spec(code, pos, libs) {
            // an instruction spans at least one byte, so that this case never occurs
            Ok((i, p)) => if p <= pos {
                Err(DecodeError::CodeEof)
            } else {
                match decode_all(code, p, libs) {
                    Ok(rest) => Ok(seq![i] + rest),
                    Err(e) => Err(e),
                }
            },
            Err(e) => Err(e),
        }
    }
}

impl Lib {
    /// The invariant of a library: its segments are within their bounds.
    pub open spec fn wf(&self) -> bool {
        &&& self.code@.len() <= CODE_SEGMENT_MAX
        &&& self.data@.len() <= DATA_SEGMENT_MAX
        &&& libs_seg_wf(self.libs@)
    }
}

/// Whether `a` comes before `b` in the lexicographic order of their bytes.
pub open spec fn lib_id_lt(a: LibId, b: LibId) -> bool {
    exists|k: int| 0 <= k < 30 && a.bytes@.subrange(0, k) == b.bytes@.subrange(0, k) && a.bytes@[k] < b.bytes@[k]
}

/// Whether each identifier of a sequence comes before the next one.
pub open spec fn ids_ordered(libs: Seq<LibId>) -> bool {
    forall|i: int| 0 <= i < libs.len() - 1 ==> lib_id_lt(#[trigger] libs[i], libs[i + 1])
}

/// Of two different identifiers, one comes before the other.
proof fn lemma_lib_id_lt_total(a: LibId, b: LibId, k: int)
    requires
        a != b,
        0 <= k <= 30,
        a.bytes@.subrange(0, k) == b.bytes@.subrange(0, k),
    ensures
        lib_id_lt(a, b) || lib_id_lt(b, a),
    decreases 30 - k,
{
    if k == 30 {
        assert forall|i: int| 0 <= i < 30 implies a.bytes[i] == b.bytes[i] by {
            assert(a.bytes@.subrange(0, 30)[i] == a.bytes@[i]);
            assert(b.bytes@.subrange(0, 30)[i] == b.bytes@[i]);
        }
        assert(a.bytes =~= b.bytes);
        assert(a == b);
    } else if a.bytes@[k] != b.bytes@[k] {
        if a.bytes@[k] < b.bytes@[k] {
            assert(lib_id_lt(a, b));
        } else {
            assert(lib_id_lt(b, a));
        }
    } else {
        assert(a.bytes@.subrange(0, k + 1) =~= a.bytes@.subrange(0, k).push(a.bytes@[k]));
        assert(b.bytes@.subrange(0, k + 1) =~= b.bytes@.subrange(0, k).push(b.bytes@[k]));
        lemma_lib_id_lt_total(a, b, k + 1);
    }
}

/// Compares two library identifiers by the lexicographic order of their bytes.
fn lib_id_less(a: &LibId, b: &LibId) -> (r: bool)
    ensures
        r <==> lib_id_lt(*a, *b),
{
    let mut i: usize = 0;
    while i < 30
        invariant
            i <= 30,
            a.bytes@.subrange(0, i as int) == b.bytes@.subrange(0, i as int),
        decreases 30 - i,
    {
        if a.bytes[i] != b.bytes[i] {
            if a.bytes[i] < b.bytes[i] {
                return true;
            } else {
                proof {
                    assert forall|k: int| 0 <= k < 30 && a.bytes@.subrange(0, k) == b.bytes@.subrange(0, k)
                        implies !(a.bytes@[k] < b.bytes@[k]) by {
                        if k < i {
                            assert(a.bytes@.subrange(0, i as int)[k] == a.bytes@[k]);
                            assert(b.bytes@.subrange(0, i as int)[k] == b.bytes@[k]);
                        } else if k > i {
                            assert(a.bytes@.subrange(0, k)[i as int] == a.bytes@[i as int]);
                            assert(b.bytes@.subrange(0, k)[i as int] == b.bytes@[i as int]);
                        }
                    }
                }
                return false;
            }
        }
        proof {
            assert(a.bytes@.subrange(0, i + 1) =~= a.bytes@.subrange(0, i as int).push(a.bytes@[i as int]));
            assert(b.bytes@.subrange(0, i + 1) =~= b.bytes@.subrange(0, i as int).push(b.bytes@[i as int]));
        }
        i += 1;
    }
    proof {
        assert forall|k: int| 0 <= k < 30 && a.bytes@.subrange(0, k) == b.bytes@.subrange(0, k)
            implies !(a.bytes@[k] < b.bytes@[k]) by {
            assert(a.bytes@.subrange(0, 30)[k] == a.bytes@[k]);
            assert(b.bytes@.subrange(0, 30)[k] == b.bytes@[k]);
        }
    }
    false
}

/// The identifier of the core ISA.
pub const ISA_ALU: &'static str = "ALU";

/// A prefix of a sequence of instructions is no longer than the whole in the code segment.
pub proof fn lemma_encoded_len_prefix(instrs: Seq<Instr<LibId>>, i: int)
    requires
        0 <= i <= instrs.len(),
    ensures
        encoded_len(instrs.take(i)) <= encoded_len(instrs),
    decreases instrs.len() - i,
{
    if i < instrs.len() {
        lemma_encoded_len_prefix(instrs, i + 1);
        assert(instrs.take(i + 1).drop_last() =~= instrs.take(i));
    } else {
        assert(instrs.take(i) =~= instrs);
    }
}

impl Lib {
    /// Assembles a library from instructions: collects the libraries they refer to into the
    /// segment of referenced libraries, ordered by their bytes, and encodes the instructions
    /// into the code segment.
    pub fn assemble(code: &[Instr<LibId>]) -> (r: Result<Lib, AssemblerError>)
        ensures
            match r {
                Ok(lib) => {
                    &&& lib.wf()
                    &&& lib.isa.view() == ISA_ALU@
                    &&& lib.isae@.len() == 0
                    &&& lib.data@.len() == 0
                    &&& forall|i: int| 0 <= i < code@.len() ==> (#[trigger] code@[i]).wf() && code@[i].refs_in(lib.libs@)
                    &&& forall|j: int| 0 <= j < lib.libs@.len() ==> referenced(code@, #[trigger] lib.libs@[j])
                    &&& ids_ordered(lib.libs@)
                    &&& lib.code@ == encoded_all(code@, lib.libs@)
                },
                Err(AssemblerError::LibSegOverflow) => exists|s: Seq<LibId>|
                    s.len() > LIBS_SEGMENT_MAX && s.no_duplicates()
                    && forall|j: int| 0 <= j < s.len() ==> referenced(code@, #[trigger] s[j]),
                Err(AssemblerError::Bytecode(e)) => e == MarshallError::CodeOverflow
                    && encoded_len(code@) > CODE_SEGMENT_MAX,
            },
    {
        let mut libs: Vec<LibId> = Vec::new();
        let mut i: usize = 0;
        while i < code.len()
            invariant
                i <= code@.len(),
                libs_seg_wf(libs@),
                ids_ordered(libs@),
                forall|k: int| 0 <= k < i ==> (#[trigger] code@[k]).refs_in(libs@),
                forall|j: int| 0 <= j < libs@.len() ==> referenced(code@, #[trigger] libs@[j]),
            decreases code@.len() - i,
        {
            if let Some(id) = code[i].external_ref() {
                proof {
                    assert(code@[i as int].ext_ref() == Some(id));
                    assert(referenced(code@, id));
                }
                let mut found = false;
                let mut j: usize = 0;
                while j < libs.len()
                    invariant
                        j <= libs@.len(),
                        i < code@.len(),
                        referenced(code@, id),
                        code@[i as int].ext_ref() == Some(id),
                        libs_seg_wf(libs@),
                        ids_ordered(libs@),
                        forall|k: int| 0 <= k < i ==> (#[trigger] code@[k]).refs_in(libs@),
                        forall|t: int| 0 <= t < libs@.len() ==> referenced(code@, #[trigger] libs@[t]),
                        !found ==> forall|t: int| 0 <= t < j ==> libs@[t] != id,
                        found ==> libs@.contains(id),
                    decreases libs@.len() - j,
                {
                    if libs[j] == id {
                        found = true;
                        proof {
                            assert(libs@[j as int] == id);
                        }
                    }
                    j += 1;
                }
                if !found {
                    if libs.len() >= LIBS_SEGMENT_MAX {
                        proof {
                            let s = libs@.push(id);
                            assert forall|a: int, b: int| 0 <= a < b < s.len() implies s[a] != s[b] by {
                                if b == libs@.len() {
                                    assert(libs@[a] != id);
                                }
                            }
                            assert forall|t: int| 0 <= t < s.len() implies referenced(code@, #[trigger] s[t]) by {
                                if t < libs@.len() {
                                    assert(s[t] == libs@[t]);
                                }
                            }
                            assert(s.len() > LIBS_SEGMENT_MAX);
                            assert(s.no_duplicates());
                        }
                        return Err(AssemblerError::LibSegOverflow);
                    }
                    let ghost prev0 = libs@;
                    let mut k: usize = 0;
                    while k < libs.len() && !lib_id_less(&id, &libs[k])
                        invariant
                            k <= libs@.len(),
                            libs@ == prev0,
                            k > 0 ==> !lib_id_lt(id, libs@[k - 1]),
                        decreases libs@.len() - k,
                    {
                        k += 1;
                    }
                    let ghost prev = libs@;
                    libs.insert(k, id);
                    proof {
                        prev.insert_ensures(k as int, id);
                        assert forall|a: int, b: int| 0 <= a < b < libs@.len() implies libs@[a] != libs@[b] by {
                            if a < k && b < k {
                            } else if a < k && b == k {
                                assert(prev[a] != id);
                            } else if a < k && b > k {
                                assert(libs@[b] == prev[b - 1]);
                            } else if a == k {
                                assert(libs@[b] == prev[b - 1]);
                                assert(prev[b - 1] != id);
                            } else {
                                assert(libs@[a] == prev[a - 1]);
                                assert(libs@[b] == prev[b - 1]);
                            }
                        }
                        assert forall|t: int| 0 <= t < libs@.len() implies referenced(code@, #[trigger] libs@[t]) by {
                            if t < k {
                                assert(libs@[t] == prev[t]);
                            } else if t > k {
                                assert(libs@[t] == prev[t - 1]);
                            }
                        }
                        assert(libs@[k as int] == id);
                        if k > 0 {
                            assert(prev[k - 1] != id);
                            assert(id.bytes@.subrange(0, 0) =~= prev[k - 1].bytes@.subrange(0, 0));
                            lemma_lib_id_lt_total(id, prev[k - 1], 0);
                        }
                        assert forall|t: int| 0 <= t < libs@.len() - 1 implies lib_id_lt(#[trigger] libs@[t], libs@[t + 1]) by {
                            if t + 1 < k {
                                assert(libs@[t] == prev[t] && libs@[t + 1] == prev[t + 1]);
                            } else if t + 1 == k {
                                assert(libs@[t] == prev[t]);
                            } else if t == k {
                                assert(libs@[t + 1] == prev[t]);
                            } else {
                                assert(libs@[t] == prev[t - 1] && libs@[t + 1] == prev[t]);
                            }
                        }
                        assert forall|c: LibId| prev.contains(c) implies libs@.contains(c) by {
                            let t = choose|t: int| 0 <= t < prev.len() && prev[t] == c;
                            if t < k {
                                assert(libs@[t] == c);
                            } else {
                                assert(libs@[t + 1] == c);
                            }
                        }
                    }
                }
                proof {
                    assert(libs@.contains(id));
                }
            }
            i += 1;
        }
        let mut m = Marshaller::new(&libs);
        let mut i: usize = 0;
        while i < code.len()
            invariant
                i <= code@.len(),
                m.wf(),
                libs_seg_wf(libs@),
                m.libs_seg() == libs@,
                m.data_seg().len() == 0,
                m.code_seg() == encoded_all(code@.take(i as int), libs@),
                m.code_seg().len() == encoded_len(code@.take(i as int)),
                forall|k: int| 0 <= k < code@.len() ==> (#[trigger] code@[k]).refs_in(libs@),
                forall|k: int| 0 <= k < i ==> (#[trigger] code@[k]).wf(),
            decreases code@.len() - i,
        {
            let res = code[i].encode_instr(&mut m);
            proof {
                lemma_bytes_len(code@[i as int], libs@);
                assert(code@.take(i + 1).drop_last() =~= code@.take(i as int));
                assert(code@.take(i + 1).last() == code@[i as int]);
            }
            match res {
                Ok(()) => {},
                Err(e) => {
                    proof {
                        lemma_encoded_len_prefix(code@, i + 1);
                    }
                    return Err(AssemblerError::Bytecode(e));
                },
            }
            i += 1;
        }
        proof {
            assert(code@.take(code@.len() as int) =~= code@);
        }
        let (code_segment, data_segment) = m.finish();
        let isa = IsaId { id: ISA_ALU.to_owned() };
        Ok(Lib { isa, isae: Vec::new(), libs, code: code_segment, data: data_segment })
    }
}

/// The code segment of a sequence of instructions starts with the bytes of its first one.
pub proof fn lemma_encoded_all_front(instrs: Seq<Instr<LibId>>, libs: Seq<LibId>)
    requires
        instrs.len() > 0,
    ensures
        encoded_all(instrs, libs) == instrs[0].bytes(libs) + encoded_all(instrs.drop_first(), libs),
    decreases instrs.len(),
{
    if instrs.len() == 1 {
        assert(instrs.drop_last() =~= Seq::<Instr<LibId>>::empty());
        assert(instrs.drop_first() =~= Seq::<Instr<LibId>>::empty());
        assert(encoded_all(instrs, libs) =~= instrs[0].bytes(libs) + encoded_all(instrs.drop_first(), libs));
    } else {
        lemma_encoded_all_front(instrs.drop_last(), libs);
        assert(instrs.drop_first().drop_last() =~= instrs.drop_last().drop_first());
        assert(instrs.drop_first().last() == instrs.last());
        assert(instrs.drop_last()[0] == instrs[0]);
        assert(encoded_all(instrs, libs) =~= instrs[0].bytes(libs) + encoded_all(instrs.drop_first(), libs));
    }
}

/// Decoding from `pos` a code segment which holds there the bytes of well-formed instructions
/// gives back these instructions.
pub proof fn lemma_decode_all_encoded(instrs: Seq<Instr<LibId>>, libs: Seq<LibId>, code: Seq<u8>, pos: int)
    requires
        libs_seg_wf(libs),
        forall|i: int| 0 <= i < instrs.len() ==> (#[trigger] instrs[i]).wf() && instrs[i].refs_in(libs),
        0 <= pos <= code.len(),
        code.subrange(pos, code.len() as int) == encoded_all(instrs, libs),
    ensures
        decode_all(code, pos, libs) == Ok::<Seq<Instr<LibId>>, DecodeError>(instrs),
    decreases instrs.len(),
{
    if instrs.len() == 0 {
        assert(code.subrange(pos, code.len() as int).len() == 0);
        assert(instrs =~= Seq::<Instr<LibId>>::empty());
    } else {
        let first = instrs[0];
        lemma_encoded_all_front(instrs, libs);
        lemma_bytes_len(first, libs);
        let n = first.byte_len() as int;
        let rest = encoded_all(instrs.drop_first(), libs);
        assert(code.subrange(pos, code.len() as int).len() == code.len() - pos);
        assert(code.len() - pos == first.bytes(libs).len() + rest.len());
        assert(code.subrange(pos, pos + n) =~= code.subrange(pos, code.len() as int).subrange(0, n));
        assert(code.subrange(pos, pos + n) =~= first.bytes(libs));
        lemma_decode_bytes(first, code, pos, libs);
        assert(code.subrange(pos + n, code.len() as int) =~= code.subrange(pos, code.len() as int).subrange(n, code.len() - pos));
        assert(code.subrange(pos + n, code.len() as int) =~= rest);
        assert forall|i: int| 0 <= i < instrs.drop_first().len() implies (#[trigger] instrs.drop_first()[i]).wf()
            && instrs.drop_first()[i].refs_in(libs) by {
            assert(instrs.drop_first()[i] == instrs[i + 1]);
        }
        lemma_decode_all_encoded(instrs.drop_first(), libs, code, pos + n);
        if pos >= code.len() {
            assert(code.subrange(pos, code.len() as int).len() == 0);
        }
        assert(seq![first] + instrs.drop_first() =~= instrs);
    }
}

/// Assembling instructions and disassembling the result gives back the instructions, so that
/// assembling them again yields a byte-identical code segment.
pub proof fn lemma_library_round_trip(instrs: Seq<Instr<LibId>>, libs: Seq<LibId>)
    requires
        libs_seg_wf(libs),
        forall|i: int| 0 <= i < instrs.len() ==> (#[trigger] instrs[i]).wf() && instrs[i].refs_in(libs),
    ensures
        decode_all(encoded_all(instrs, libs), 0, libs) == Ok::<Seq<Instr<LibId>>, DecodeError>(instrs),
        encoded_all(decode_all(encoded_all(instrs, libs), 0, libs).unwrap(), libs) == encoded_all(instrs, libs),
{
    let code = encoded_all(instrs, libs);
    assert(code.subrange(0, code.len() as int) =~= code);
    lemma_decode_all_encoded(instrs, libs, code, 0);
}

impl Lib {
    /// Disassembles the code segment into instructions, up to its end.
    pub fn disassemble(&self) -> (r: Result<Vec<Instr<LibId>>, DecodeError>)
        requires
            self.wf(),
        ensures
            match decode_all(self.code@, 0, self.libs@) {
                Ok(instrs) => r.is_ok() && r.unwrap()@ == instrs,
                Err(e) => r == Err::<Vec<Instr<LibId>>, DecodeError>(e),
            },
    {
        let mut instrs: Vec<Instr<LibId>> = Vec::new();
        let mut m = Marshaller::with(self.code.clone(), self.data.clone(), &self.libs);
        while !m.is_eof()
            invariant
                m.wf(),
                m.code_seg() == self.code@,
                m.libs_seg() == self.libs@,
                decode_all(self.code@, 0, self.libs@) == match decode_all(self.code@, m.cursor(), self.libs@) {
                    Ok(rest) => Ok::<Seq<Instr<LibId>>, DecodeError>(instrs@ + rest),
                    Err(e) => Err(e),
                },
            decreases self.code@.len() - m.cursor(),
        {
            let ghost pos = m.cursor();
            let ghost before = instrs@;
            let instr = Instr::decode_instr(&mut m)?;
            proof {
                assert(m.cursor() > pos);
            }
            instrs.push(instr);
            proof {
                match decode_all(self.code@, m.cursor(), self.libs@) {
                    Ok(rest) => {
                        assert(before + (seq![instr] + rest) =~= instrs@ + rest);
                    },
                    Err(e) => {},
                }
            }
        }
        proof {
            assert(instrs@ + Seq::<Instr<LibId>>::empty() =~= instrs@);
        }
        Ok(instrs)
    }
}

} // verus!
