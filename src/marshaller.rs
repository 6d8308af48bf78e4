use vstd::prelude::*;
use crate::util::LibId;

verus! {

/// The largest size of a code segment, in bytes.
pub const CODE_SEGMENT_MAX: usize = 0xFFFF;
/// The largest size of a data segment, in bytes.
pub const DATA_SEGMENT_MAX: usize = 0xFFFF;
/// The largest number of entries in a segment of referenced libraries.
pub const LIBS_SEGMENT_MAX: usize = 0xFF;

/// Errors of writing bytecode.
#[derive(Copy, Clone, PartialEq, Eq, Hash, Debug, Structural)]
pub enum MarshallError {
    /// The code segment has no room left.
    CodeOverflow,
    /// The data segment has no room left.
    DataOverflow,
    /// The segment of referenced libraries already holds its maximum of entries.
    LibSegOverflow,
}

/// Errors of reading bytecode.
#[derive(Copy, Clone, PartialEq, Eq, Hash, Debug, Structural)]
pub enum DecodeError {
    /// The code segment ended before the instruction did.
    CodeEof,
    /// The instruction refers to an entry beyond the end of the segment of referenced libraries.
    LibAbsent,
    /// The instruction refers to bytes beyond the end of the data segment.
    DataAbsent,
}

/// The two bytes of a word, least significant first.
pub open spec fn le_word(w: u16) -> Seq<u8> {
    seq![(w % 256) as u8, (w / 256) as u8]
}

/// The word made of two bytes, least significant first.
pub open spec fn word_of(lo: u8, hi: u8) -> u16 {
    (lo + hi * 256) as u16
}

/// Reading back the two bytes of a word gives the word.
pub proof fn lemma_word_round_trip(w: u16)
    ensures
        word_of(le_word(w)[0], le_word(w)[1]) == w,
{
}

/// A valid segment of referenced libraries: at most [`LIBS_SEGMENT_MAX`] entries, each once.
pub open spec fn libs_seg_wf(libs: Seq<LibId>) -> bool {
    libs.len() <= LIBS_SEGMENT_MAX && libs.no_duplicates()
}

/// Writer and reader of the code and data segments of a library, which refers to other
/// libraries through their index in a segment of library identifiers.
pub struct Marshaller {
    pub(crate) code: Vec<u8>,
    pub(crate) data: Vec<u8>,
    pub(crate) libs: Vec<LibId>,
    pub(crate) pos: usize,
}

impl Marshaller {
    /// The code segment.
    pub open(crate) spec fn code_seg(&self) -> Seq<u8> {
        self.code@
    }

    /// The data segment.
    pub open(crate) spec fn data_seg(&self) -> Seq<u8> {
        self.data@
    }

    /// The segment of referenced libraries.
    pub open(crate) spec fn libs_seg(&self) -> Seq<LibId> {
        self.libs@
    }

    /// The read cursor in the code segment.
    pub open(crate) spec fn cursor(&self) -> int {
        self.pos as int
    }

    /// The invariant: every segment within its bounds, the cursor within the code segment.
    pub open(crate) spec fn wf(&self) -> bool {
        &&& self.code@.len() <= CODE_SEGMENT_MAX
        &&& self.data@.len() <= DATA_SEGMENT_MAX
        &&& libs_seg_wf(self.libs@)
        &&& self.pos <= self.code@.len()
    }

    /// A writer with empty code and data segments and the given segment of referenced
    /// libraries.
    pub fn new(libs: &Vec<LibId>) -> (r: Marshaller)
        requires
            libs_seg_wf(libs@),
        ensures
            r.wf(),
            r.code_seg() == Seq::<u8>::empty(),
            r.data_seg() == Seq::<u8>::empty(),
            r.libs_seg() == libs@,
            r.cursor() == 0,
    {
        Marshaller { code: Vec::new(), data: Vec::new(), libs: libs.clone(), pos: 0 }
    }

    /// A reader of the given segments, with its cursor at the start of the code segment.
    pub fn with(code: Vec<u8>, data: Vec<u8>, libs: &Vec<LibId>) -> (r: Marshaller)
        requires
            code@.len() <= CODE_SEGMENT_MAX,
            data@.len() <= DATA_SEGMENT_MAX,
            libs_seg_wf(libs@),
        ensures
            r.wf(),
            r.code_seg() == code@,
            r.data_seg() == data@,
            r.libs_seg() == libs@,
            r.cursor() == 0,
    {
        Marshaller { code, data, libs: libs.clone(), pos: 0 }
    }

    /// The segment of referenced libraries.
    pub fn libs(&self) -> (r: &Vec<LibId>)
        ensures
            r@ == self.libs_seg(),
    {
        &self.libs
    }

    /// Gives back the code and the data segments.
    pub fn finish(self) -> (r: (Vec<u8>, Vec<u8>))
        ensures
            r.0@ == self.code_seg(),
            r.1@ == self.data_seg(),
    {
        (self.code, self.data)
    }

    /// The position of the read cursor in the code segment.
    pub fn offset(&self) -> (r: u16)
        requires
            self.wf(),
        ensures
            r == self.cursor(),
    {
        self.pos as u16
    }

    /// Whether the read cursor stands at the end of the code segment.
    pub fn is_eof(&self) -> (r: bool)
        requires
            self.wf(),
        ensures
            r <==> self.cursor() == self.code_seg().len(),
    {
        self.pos == self.code.len()
    }

    /// Moves the read cursor; fails with `CodeEof` beyond the end of the code segment.
    pub fn seek(&mut self, pos: u16) -> (r: Result<(), DecodeError>)
        requires
            old(self).wf(),
        ensures
            final(self).wf(),
            final(self).code_seg() == old(self).code_seg(),
            final(self).data_seg() == old(self).data_seg(),
            final(self).libs_seg() == old(self).libs_seg(),
            r.is_ok() <==> pos <= old(self).code_seg().len(),
            r.is_ok() ==> final(self).cursor() == pos,
            r.is_err() ==> r == Err::<(), DecodeError>(DecodeError::CodeEof) && final(self).cursor() == old(self).cursor(),
    {
        if (pos as usize) <= self.code.len() {
            self.pos = pos as usize;
            Ok(())
        } else {
            Err(DecodeError::CodeEof)
        }
    }

    /// Appends a byte to the code segment.
    pub fn write_byte(&mut self, byte: u8) -> (r: Result<(), MarshallError>)
        requires
            old(self).wf(),
        ensures
            final(self).wf(),
            final(self).data_seg() == old(self).data_seg(),
            final(self).libs_seg() == old(self).libs_seg(),
            final(self).cursor() == old(self).cursor(),
            r.is_ok() <==> old(self).code_seg().len() + 1 <= CODE_SEGMENT_MAX,
            r.is_ok() ==> final(self).code_seg() == old(self).code_seg().push(byte),
            r.is_err() ==> r == Err::<(), MarshallError>(MarshallError::CodeOverflow)
                && final(self).code_seg() == old(self).code_seg(),
    {
        if self.code.len() < CODE_SEGMENT_MAX {
            self.code.push(byte);
            Ok(())
        } else {
            Err(MarshallError::CodeOverflow)
        }
    }

    /// Appends a word to the code segment, least significant byte first.
    pub fn write_word(&mut self, word: u16) -> (r: Result<(), MarshallError>)
        requires
            old(self).wf(),
        ensures
            final(self).wf(),
            final(self).data_seg() == old(self).data_seg(),
            final(self).libs_seg() == old(self).libs_seg(),
            final(self).cursor() == old(self).cursor(),
            r.is_ok() <==> old(self).code_seg().len() + 2 <= CODE_SEGMENT_MAX,
            r.is_ok() ==> final(self).code_seg() == old(self).code_seg() + le_word(word),
            r.is_err() ==> r == Err::<(), MarshallError>(MarshallError::CodeOverflow)
                && final(self).code_seg() == old(self).code_seg(),
    {
        if self.code.len() + 2 <= CODE_SEGMENT_MAX {
            self.code.push((word % 256) as u8);
            self.code.push((word / 256) as u8);
            proof {
                assert(self.code@ =~= old(self).code@ + le_word(word));
            }
            Ok(())
        } else {
            Err(MarshallError::CodeOverflow)
        }
    }

    /// Whether a reference to the library can be written: it is in the segment of referenced
    /// libraries already, or the segment has room for it.
    pub fn can_ref(&self, id: LibId) -> (r: bool)
        requires
            self.wf(),
        ensures
            r <==> self.libs_seg().contains(id) || self.libs_seg().len() < LIBS_SEGMENT_MAX,
    {
        if self.libs.len() < LIBS_SEGMENT_MAX {
            return true;
        }
        let mut i: usize = 0;
        while i < self.libs.len()
            invariant
                i <= self.libs@.len(),
                forall|j: int| 0 <= j < i ==> self.libs@[j] != id,
            decreases self.libs@.len() - i,
        {
            if self.libs[i] == id {
                return true;
            }
            i += 1;
        }
        false
    }

    /// The number of bytes in the code segment.
    pub fn code_len(&self) -> (r: usize)
        ensures
            r == self.code_seg().len(),
    {
        self.code.len()
    }

    /// Writes a reference to a library: its index in the segment of referenced libraries, as
    /// one byte. A library absent from the segment is appended to it first.
    pub fn write_ref(&mut self, id: LibId) -> (r: Result<(), MarshallError>)
        requires
            old(self).wf(),
        ensures
            final(self).wf(),
            final(self).data_seg() == old(self).data_seg(),
            final(self).cursor() == old(self).cursor(),
            r.is_ok() <==> old(self).code_seg().len() + 1 <= CODE_SEGMENT_MAX
                && (old(self).libs_seg().contains(id) || old(self).libs_seg().len() < LIBS_SEGMENT_MAX),
            r.is_ok() ==> final(self).libs_seg() == (if old(self).libs_seg().contains(id) {
                old(self).libs_seg()
            } else {
                old(self).libs_seg().push(id)
            }),
            r.is_ok() ==> final(self).libs_seg().contains(id) && final(self).code_seg()
                == old(self).code_seg().push(final(self).libs_seg().index_of(id) as u8),
            r.is_err() ==> final(self).code_seg() == old(self).code_seg()
                && final(self).libs_seg() == old(self).libs_seg(),
            r == Err::<(), MarshallError>(MarshallError::CodeOverflow)
                <==> old(self).code_seg().len() + 1 > CODE_SEGMENT_MAX,
            r == Err::<(), MarshallError>(MarshallError::LibSegOverflow)
                <==> old(self).code_seg().len() + 1 <= CODE_SEGMENT_MAX
                && !old(self).libs_seg().contains(id) && old(self).libs_seg().len() >= LIBS_SEGMENT_MAX,
    {
        if self.code.len() >= CODE_SEGMENT_MAX {
            return Err(MarshallError::CodeOverflow);
        }
        let mut i: usize = 0;
        while i < self.libs.len()
            invariant
                self.wf(),
                self.code@.len() < CODE_SEGMENT_MAX,
                *self == *old(self),
                i <= self.libs@.len(),
                forall|j: int| 0 <= j < i ==> self.libs@[j] != id,
            decreases self.libs@.len() - i,
        {
            if self.libs[i] == id {
                self.code.push(i as u8);
                proof {
                    lemma_index_of_unique(self.libs@, i as int);
                }
                return Ok(());
            }
            i += 1;
        }
        if self.libs.len() >= LIBS_SEGMENT_MAX {
            return Err(MarshallError::LibSegOverflow);
        }
        let idx = self.libs.len();
        self.libs.push(id);
        self.code.push(idx as u8);
        proof {
            assert(self.libs@[idx as int] == id);
            assert forall|a: int, b: int| 0 <= a < b < self.libs@.len() implies self.libs@[a] != self.libs@[b] by {
                if b == idx as int {
                    assert(old(self).libs@[a] != id);
                }
            }
            lemma_index_of_unique(self.libs@, idx as int);
        }
        Ok(())
    }

    /// Reads a byte of the code segment at the cursor.
    pub fn read_byte(&mut self) -> (r: Result<u8, DecodeError>)
        requires
            old(self).wf(),
        ensures
            final(self).wf(),
            final(self).code_seg() == old(self).code_seg(),
            final(self).data_seg() == old(self).data_seg(),
            final(self).libs_seg() == old(self).libs_seg(),
            r.is_ok() <==> old(self).cursor() + 1 <= old(self).code_seg().len(),
            r.is_ok() ==> r == Ok::<u8, DecodeError>(old(self).code_seg()[old(self).cursor()])
                && final(self).cursor() == old(self).cursor() + 1,
            r.is_err() ==> r == Err::<u8, DecodeError>(DecodeError::CodeEof)
                && final(self).cursor() == old(self).cursor(),
    {
        if self.pos < self.code.len() {
            let b = self.code[self.pos];
            self.pos = self.pos + 1;
            Ok(b)
        } else {
            Err(DecodeError::CodeEof)
        }
    }

    /// Reads a word of the code segment at the cursor, least significant byte first.
    pub fn read_word(&mut self) -> (r: Result<u16, DecodeError>)
        requires
            old(self).wf(),
        ensures
            final(self).wf(),
            final(self).code_seg() == old(self).code_seg(),
            final(self).data_seg() == old(self).data_seg(),
            final(self).libs_seg() == old(self).libs_seg(),
            r.is_ok() <==> old(self).cursor() + 2 <= old(self).code_seg().len(),
            r.is_ok() ==> r == Ok::<u16, DecodeError>(word_of(
                old(self).code_seg()[old(self).cursor()],
                old(self).code_seg()[old(self).cursor() + 1],
            )) && final(self).cursor() == old(self).cursor() + 2,
            r.is_err() ==> r == Err::<u16, DecodeError>(DecodeError::CodeEof)
                && final(self).cursor() == old(self).cursor(),
    {
        if self.pos + 2 <= self.code.len() {
            let lo = self.code[self.pos];
            let hi = self.code[self.pos + 1];
            self.pos = self.pos + 2;
            Ok(lo as u16 + (hi as u16) * 256)
        } else {
            Err(DecodeError::CodeEof)
        }
    }

    /// Reads a reference to a library: a byte of the code segment, which is an index in the
    /// segment of referenced libraries.
    pub fn read_ref(&mut self) -> (r: Result<LibId, DecodeError>)
        requires
            old(self).wf(),
        ensures
            final(self).wf(),
            final(self).code_seg() == old(self).code_seg(),
            final(self).data_seg() == old(self).data_seg(),
            final(self).libs_seg() == old(self).libs_seg(),
            old(self).cursor() + 1 > old(self).code_seg().len() ==> r == Err::<LibId, DecodeError>(DecodeError::CodeEof)
                && final(self).cursor() == old(self).cursor(),
            old(self).cursor() + 1 <= old(self).code_seg().len() ==> final(self).cursor() == old(self).cursor() + 1
                && (if (old(self).code_seg()[old(self).cursor()] as int) < old(self).libs_seg().len() {
                    r == Ok::<LibId, DecodeError>(old(self).libs_seg()[old(self).code_seg()[old(self).cursor()] as int])
                } else {
                    r == Err::<LibId, DecodeError>(DecodeError::LibAbsent)
                }),
    {
        let idx = self.read_byte()?;
        if (idx as usize) < self.libs.len() {
            Ok(self.libs[idx as usize])
        } else {
            Err(DecodeError::LibAbsent)
        }
    }

    /// Appends bytes to the data segment, and writes into the code segment where they stand:
    /// their offset and their length, as two words.
    pub fn write_data(&mut self, bytes: &[u8]) -> (r: Result<(), MarshallError>)
        requires
            old(self).wf(),
        ensures
            final(self).wf(),
            final(self).libs_seg() == old(self).libs_seg(),
            final(self).cursor() == old(self).cursor(),
            r.is_ok() <==> old(self).code_seg().len() + 4 <= CODE_SEGMENT_MAX
                && old(self).data_seg().len() + bytes@.len() <= DATA_SEGMENT_MAX,
            r.is_ok() ==> final(self).data_seg() == old(self).data_seg() + bytes@ && final(self).code_seg()
                == old(self).code_seg() + le_word(old(self).data_seg().len() as u16) + le_word(bytes@.len() as u16),
            r.is_err() ==> final(self).code_seg() == old(self).code_seg() && final(self).data_seg()
                == old(self).data_seg(),
            r == Err::<(), MarshallError>(MarshallError::CodeOverflow) <==> old(self).code_seg().len() + 4
                > CODE_SEGMENT_MAX,
            r == Err::<(), MarshallError>(MarshallError::DataOverflow) <==> old(self).code_seg().len() + 4
                <= CODE_SEGMENT_MAX && old(self).data_seg().len() + bytes@.len() > DATA_SEGMENT_MAX,
    {
        if self.code.len() + 4 > CODE_SEGMENT_MAX {
            return Err(MarshallError::CodeOverflow);
        }
        if bytes.len() > DATA_SEGMENT_MAX - self.data.len() {
            return Err(MarshallError::DataOverflow);
        }
        let offset = self.data.len() as u16;
        let len = bytes.len() as u16;
        let mut i: usize = 0;
        while i < bytes.len()
            invariant
                i <= bytes@.len(),
                self.data@ == old(self).data@ + bytes@.take(i as int),
                self.code@ == old(self).code@,
                self.libs@ == old(self).libs@,
                self.pos == old(self).pos,
                old(self).data@.len() + bytes@.len() <= DATA_SEGMENT_MAX,
            decreases bytes@.len() - i,
        {
            self.data.push(bytes[i]);
            proof {
                assert(bytes@.take(i + 1) =~= bytes@.take(i as int).push(bytes@[i as int]));
                assert(self.data@ =~= old(self).data@ + bytes@.take(i + 1));
            }
            i += 1;
        }
        proof {
            assert(bytes@.take(bytes@.len() as int) =~= bytes@);
        }
        let _ = self.write_word(offset);
        let _ = self.write_word(len);
        proof {
            assert(self.code@ =~= old(self).code@ + le_word(offset) + le_word(len));
        }
        Ok(())
    }

    /// Reads from the code segment where bytes of the data segment stand (their offset and
    /// their length, as two words), and returns these bytes.
    pub fn read_data(&mut self) -> (r: Result<Vec<u8>, DecodeError>)
        requires
            old(self).wf(),
        ensures
            final(self).wf(),
            final(self).code_seg() == old(self).code_seg(),
            final(self).data_seg() == old(self).data_seg(),
            final(self).libs_seg() == old(self).libs_seg(),
            old(self).cursor() + 4 > old(self).code_seg().len() ==> r == Err::<Vec<u8>, DecodeError>(DecodeError::CodeEof),
            old(self).cursor() + 4 <= old(self).code_seg().len() ==> ({
                let c = old(self).code_seg();
                let p = old(self).cursor();
                let offset = word_of(c[p], c[p + 1]) as int;
                let len = word_of(c[p + 2], c[p + 3]) as int;
                &&& final(self).cursor() == p + 4
                &&& offset + len <= old(self).data_seg().len() ==> r.is_ok() && r.unwrap()@ == old(self).data_seg().subrange(offset, offset + len)
                &&& offset + len > old(self).data_seg().len() ==> r == Err::<Vec<u8>, DecodeError>(DecodeError::DataAbsent)
            }),
    {
        if self.pos + 4 > self.code.len() {
            return Err(DecodeError::CodeEof);
        }
        let offset = self.read_word()? as usize;
        let len = self.read_word()? as usize;
        if offset + len > self.data.len() {
            return Err(DecodeError::DataAbsent);
        }
        let mut out: Vec<u8> = Vec::new();
        let mut i: usize = 0;
        while i < len
            invariant
                i <= len,
                offset + len <= self.data@.len(),
                self.data@.len() <= DATA_SEGMENT_MAX,
                out@ == self.data@.subrange(offset as int, offset + i),
            decreases len - i,
        {
            out.push(self.data[offset + i]);
            proof {
                assert(out@ =~= self.data@.subrange(offset as int, offset + i + 1));
            }
            i += 1;
        }
        Ok(out)
    }
}

/// In a sequence without duplicates, `index_of` finds the one index of an element.
pub proof fn lemma_index_of_unique(libs: Seq<LibId>, i: int)
    requires
        libs.no_duplicates(),
        0 <= i < libs.len(),
    ensures
        libs.contains(libs[i]),
        libs.index_of(libs[i]) == i,
{
    assert(libs.contains(libs[i]));
    let j = libs.index_of(libs[i]);
    assert(0 <= j < libs.len() && libs[j] == libs[i]);
}

} // verus!
