use vstd::prelude::*;
use crate::codec::{decode_spec, lemma_decode_len};
use crate::exec::{instr_step, instr_model, lemma_instr_step_model};
use crate::isa::Instr;
use crate::library::Lib;
use crate::machine::{Core, CoreModel, CYCLE_LIMIT, fail_model, must_stop, jumped_model, charged, exceeds_limit};
use crate::marshaller::{Marshaller, CODE_SEGMENT_MAX, DATA_SEGMENT_MAX, LIBS_SEGMENT_MAX};
use crate::regs::CoreExt;
use crate::isa::ExecStep;
use crate::util::{LibId, LibSite, Site, Status};
use crate::stack::CALL_STACK_SIZE_MAX;

verus! {

/// Where execution goes after a library hands control back to the VM.
#[derive(Copy, Clone, PartialEq, Eq, Hash, Debug)]
pub enum Jump {
    /// The program halts.
    Halt,
    /// Continue from the instruction at a site.
    Instr(LibSite),
    /// Continue from the instruction at a site without charging its complexity again: the
    /// return to the site of a call.
    Next(LibSite),
}

/// Runs the code of a library, identified by `id`, from `pos` on the registers `m`, until control
/// leaves the library: the final registers and where execution goes next. The complexity of the
/// first instruction is not charged when `skip` is set.
pub open spec fn lib_run(code: Seq<u8>, libs: Seq<LibId>, id: LibId, pos: int, skip: bool, m: CoreModel) -> (CoreModel, Jump)
    decreases CYCLE_LIMIT - m.cy, code.len() - pos,
{
    if pos < 0 || pos >= code.len() {
        (m, Jump::Halt)
    } else {
        match decode_spec(code, pos, libs) {
            Err(_) => (fail_model(m), Jump::Halt),
            Ok((instr, p)) => {
                let cost = if skip { 0 } else { instr.spec_complexity() };
                let m1 = CoreModel { ca: charged(m.ca, cost), ..m };
                if exceeds_limit(m.ca, cost, m.cl) {
                    (fail_model(m1), Jump::Halt)
                } else {
                    let (m2, step) = instr_model(instr, Site { prog_id: id, offset: pos as u16 }, m1);
                    // an instruction counts no jump and spans at least one byte, so that this
                    // case never occurs
                    if m2.cy != m.cy || p <= pos {
                        (m2, Jump::Halt)
                    } else {
                        match step {
                            ExecStep::Stop => (m2, Jump::Halt),
                            ExecStep::Fail => if must_stop(m2) {
                                (fail_model(m2), Jump::Halt)
                            } else {
                                lib_run(code, libs, id, p, false, fail_model(m2))
                            },
                            ExecStep::Next => lib_run(code, libs, id, p, false, m2),
                            ExecStep::Jump(target) => if m2.cy >= CYCLE_LIMIT {
                                (fail_model(m2), Jump::Halt)
                            } else if target as int > code.len() {
                                (fail_model(jumped_model(m2)), Jump::Halt)
                            } else {
                                lib_run(code, libs, id, target as int, false, jumped_model(m2))
                            },
                            ExecStep::Call(site) => if m2.cy >= CYCLE_LIMIT {
                                (fail_model(m2), Jump::Halt)
                            } else {
                                (jumped_model(m2), Jump::Instr(site))
                            },
                            ExecStep::Ret(site) => if m2.cy >= CYCLE_LIMIT {
                                (fail_model(m2), Jump::Halt)
                            } else {
                                (jumped_model(m2), Jump::Next(site))
                            },
                        }
                    }
                }
            },
        }
    }
}

/// Whether the complexity accumulated is below the complexity limit, if one is set.
pub open spec fn model_within_limit(m: CoreModel) -> bool {
    match m.cl {
        Some(lim) => m.ca < lim,
        None => true,
    }
}

/// How registers may evolve while a program runs: `CH` and `CL` stay, the counters `CF`, `CY`
/// and `CA` never decrease, and the call stack stays within its bound.
pub open spec fn model_evolved(d: CoreModel, m: CoreModel) -> bool {
    &&& d.ch == m.ch
    &&& d.cl == m.cl
    &&& d.cf >= m.cf
    &&& d.cy >= m.cy
    &&& d.ca >= m.ca
    &&& d.frames.len() <= CALL_STACK_SIZE_MAX
}

/// Executing one instruction keeps `CH`, `CL`, `CY` and `CA`, never lowers `CF`, and keeps the
/// call stack within its bound.
pub proof fn lemma_instr_model_evolves(instr: Instr<LibId>, cursor: LibSite, m: CoreModel)
    requires
        m.frames.len() <= CALL_STACK_SIZE_MAX,
    ensures
        model_evolved(instr_model(instr, cursor, m).0, m),
        instr_model(instr, cursor, m).0.cy == m.cy,
        instr_model(instr, cursor, m).0.ca == m.ca,
{
}

/// In every run of the code of a library: the failure counter `CF` never decreases, `CH` and
/// `CL` never change, the call stack never exceeds [`CALL_STACK_SIZE_MAX`] frames, and when the
/// complexity accumulated reaches the limit, `CK` is failed and the run halts, so that no
/// instruction is executed past the limit.
pub proof fn lemma_lib_run_invariants(code: Seq<u8>, libs: Seq<LibId>, id: LibId, pos: int, skip: bool, m: CoreModel)
    requires
        m.frames.len() <= CALL_STACK_SIZE_MAX,
    ensures
        model_evolved(lib_run(code, libs, id, pos, skip, m).0, m),
        model_within_limit(m) && !model_within_limit(lib_run(code, libs, id, pos, skip, m).0)
            ==> lib_run(code, libs, id, pos, skip, m).0.ck == Status::Fail && lib_run(code, libs, id, pos, skip, m).1 is Halt,
        !(lib_run(code, libs, id, pos, skip, m).1 is Halt) ==> lib_run(code, libs, id, pos, skip, m).0.cy > m.cy
            && model_within_limit(lib_run(code, libs, id, pos, skip, m).0),
    decreases CYCLE_LIMIT - m.cy, code.len() - pos,
{
    if 0 <= pos < code.len() {
        match decode_spec(code, pos, libs) {
            Err(_) => {},
            Ok((instr, p)) => {
                let cost = if skip { 0 } else { instr.spec_complexity() };
                let m1 = CoreModel { ca: charged(m.ca, cost), ..m };
                if !exceeds_limit(m.ca, cost, m.cl) {
                    let cursor = Site { prog_id: id, offset: pos as u16 };
                    lemma_instr_model_evolves(instr, cursor, m1);
                    let (m2, step) = instr_model(instr, cursor, m1);
                    if m2.cy == m.cy && p > pos {
                        match step {
                            ExecStep::Fail => if !must_stop(m2) {
                                lemma_lib_run_invariants(code, libs, id, p, false, fail_model(m2));
                            },
                            ExecStep::Next => {
                                lemma_lib_run_invariants(code, libs, id, p, false, m2);
                            },
                            ExecStep::Jump(target) => if m2.cy < CYCLE_LIMIT && target as int <= code.len() {
                                lemma_lib_run_invariants(code, libs, id, target as int, false, jumped_model(m2));
                            },
                            _ => {},
                        }
                    }
                }
            },
        }
    }
}

/// Executing a library, identified by `id`, from `entry` on the registers `m`: a malformed library
/// and an entry point beyond the code fail and halt; otherwise the code runs (see [`lib_run`]).
pub open spec fn lib_exec(lib: Lib, id: LibId, entry: u16, skip: bool, m: CoreModel) -> (CoreModel, Jump) {
    if !lib.wf() || entry as int > lib.code@.len() {
        (fail_model(m), Jump::Halt)
    } else {
        lib_run(lib.code@, lib.libs@, id, entry as int, skip, m)
    }
}

impl Lib {
    /// Whether the segments of the library are within their bounds, checked at run time.
    pub fn is_wf(&self) -> (r: bool)
        ensures
            r <==> self.wf(),
    {
        if self.code.len() > CODE_SEGMENT_MAX || self.data.len() > DATA_SEGMENT_MAX || self.libs.len() > LIBS_SEGMENT_MAX {
            return false;
        }
        let n = self.libs.len();
        let mut a: usize = 0;
        while a < n
            invariant
                n == self.libs@.len(),
                a <= n,
                forall|x: int, y: int| 0 <= x < a && x < y < n ==> self.libs@[x] != self.libs@[y],
            decreases n - a,
        {
            let mut b: usize = a + 1;
            while b < n
                invariant
                    n == self.libs@.len(),
                    a < n,
                    a + 1 <= b <= n,
                    forall|x: int, y: int| 0 <= x < a && x < y < n ==> self.libs@[x] != self.libs@[y],
                    forall|y: int| a < y < b ==> self.libs@[a as int] != self.libs@[y],
                decreases n - b,
            {
                if self.libs[a] == self.libs[b] {
                    return false;
                }
                b += 1;
            }
            a += 1;
        }
        true
    }

    /// Executes the code of the library, identified by `lib_id`, from `entrypoint`, until control
    /// leaves the library.
    ///
    /// Before each instruction its complexity is charged to `CA` (not for the first one when
    /// `skip_first` is set); an instruction which reaches the complexity limit is not executed.
    /// Each jump is counted in `CY`. The program halts on `stop`, on a failure when `CH` is set
    /// (see `Core::fail_ck`), when a limit is reached, at the end of the code, and when the code
    /// cannot be decoded or the library is malformed (both failures).
    #[verifier::rlimit(60)]
    pub fn exec<Cx: CoreExt>(
        &self,
        lib_id: LibId,
        entrypoint: u16,
        skip_first: bool,
        core: &mut Core<Cx>,
        context: &(),
    ) -> (r: Jump)
        requires
            old(core).wf(),
        ensures
            (final(core).model(), r) == lib_exec(*self, lib_id, entrypoint, skip_first, old(core).model()),
            final(core).cx == old(core).cx,
            final(core).evolved_from(old(core)),
            !(r is Halt) ==> final(core).cy > old(core).cy && final(core).within_limit(),
            old(core).within_limit() && !final(core).within_limit() ==> final(core).ck == Status::Fail
                && r is Halt,
    {
        if !self.is_wf() {
            let _ = core.fail_ck();
            return Jump::Halt;
        }
        let mut m = Marshaller::with(self.code.clone(), self.data.clone(), &self.libs);
        if m.seek(entrypoint).is_err() {
            let _ = core.fail_ck();
            return Jump::Halt;
        }
        let ghost start = *core;
        let mut skip = skip_first;
        while !m.is_eof()
            invariant
                m.wf(),
                m.code_seg() == self.code@,
                m.libs_seg() == self.libs@,
                core.evolved_from(&start),
                start == *old(core),
                start.within_limit() && !core.within_limit() ==> core.ck == Status::Fail,
                start.within_limit() ==> core.within_limit(),
                core.cx == start.cx,
                lib_exec(*self, lib_id, entrypoint, skip_first, start.model())
                    == lib_run(self.code@, self.libs@, lib_id, m.cursor(), skip, core.model()),
            decreases CYCLE_LIMIT - core.cy, self.code@.len() - m.cursor(),
        {
            let pos = m.offset();
            proof {
                lemma_decode_len(self.code@, pos as int, self.libs@);
            }
            let instr = match Instr::decode_instr(&mut m) {
                Ok(instr) => instr,
                Err(_) => {
                    let _ = core.fail_ck();
                    return Jump::Halt;
                },
            };
            let charge = if skip {
                0
            } else {
                instr.complexity()
            };
            skip = false;
            if !core.acc_complexity(charge) {
                return Jump::Halt;
            }
            let ghost before = *core;
            let next = instr.exec(Site::new(lib_id, pos), core, context);
            proof {
                assert(instr_step(instr, Site { prog_id: lib_id, offset: pos }, before, *core, next));
                lemma_instr_step_model(instr, Site { prog_id: lib_id, offset: pos }, before, *core, next);
            }
            match next {
                ExecStep::Stop => {
                    return Jump::Halt;
                },
                ExecStep::Fail => {
                    if core.fail_ck() {
                        return Jump::Halt;
                    }
                },
                ExecStep::Next => {},
                ExecStep::Jump(p) => {
                    if !core.jmp() {
                        return Jump::Halt;
                    }
                    if m.seek(p).is_err() {
                        let _ = core.fail_ck();
                        return Jump::Halt;
                    }
                },
                ExecStep::Call(site) => {
                    if !core.jmp() {
                        return Jump::Halt;
                    }
                    return Jump::Instr(site);
                },
                ExecStep::Ret(site) => {
                    if !core.jmp() {
                        return Jump::Halt;
                    }
                    return Jump::Next(site);
                },
            }
        }
        Jump::Halt
    }
}

} // verus!
