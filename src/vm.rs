use vstd::prelude::*;
use crate::library::Lib;
use crate::machine::{Core, CoreConfig, CoreModel, CYCLE_LIMIT, fail_model, must_stop};
use crate::regs::{CoreExt, NoExt};
use crate::runtime::{Jump, lib_exec, lemma_lib_run_invariants, model_evolved, model_within_limit};
use crate::stack::CALL_STACK_SIZE_MAX;
use crate::util::{LibId, LibSite, Site, Status};

verus! {

/// One round of the machine at `site` on the registers `m`, given the library which the site
/// names, if it was found: the final registers and where execution goes next. When no library
/// was found the failure is registered, and unless that stops the program, or the offset is the
/// last one, execution goes on one byte further.
pub open spec fn vm_round(lib: Option<Lib>, site: LibSite, skip: bool, m: CoreModel) -> (CoreModel, Jump) {
    match lib {
        Some(lib) => lib_exec(lib, site.prog_id, site.offset, skip, m),
        None => if must_stop(m) || site.offset == 0xFFFF {
            (fail_model(m), Jump::Halt)
        } else {
            let next = LibSite { offset: (site.offset + 1) as u16, ..site };
            (fail_model(m), if skip { Jump::Next(next) } else { Jump::Instr(next) })
        },
    }
}

/// In every round of the machine: the failure counter `CF` never decreases, `CH` and `CL` never
/// change, the call stack never exceeds its bound, and reaching the complexity limit fails and
/// halts the program.
pub proof fn lemma_vm_round_invariants(lib: Option<Lib>, site: LibSite, skip: bool, m: CoreModel)
    requires
        m.frames.len() <= CALL_STACK_SIZE_MAX,
    ensures
        model_evolved(vm_round(lib, site, skip, m).0, m),
        model_within_limit(m) && !model_within_limit(vm_round(lib, site, skip, m).0)
            ==> vm_round(lib, site, skip, m).0.ck == Status::Fail && vm_round(lib, site, skip, m).1 is Halt,
{
    if let Some(l) = lib {
        if l.wf() && site.offset as int <= l.code@.len() {
            lemma_lib_run_invariants(l.code@, l.libs@, site.prog_id, site.offset as int, skip, m);
        }
    }
}

/// The library a lookup found, as a value.
pub open spec fn found(l: Option<&Lib>) -> Option<Lib> {
    match l {
        Some(lib) => Some(*lib),
        None => None,
    }
}

/// Whether a round at `site` took the registers from `m` to `m2` and ended in `j`, for some
/// library which the resolver `f` may give for the library of the site.
pub open spec fn round_by<'a, F: Fn(LibId) -> Option<&'a Lib>>(
    f: F,
    site: LibSite,
    skip: bool,
    m: CoreModel,
    m2: CoreModel,
    j: Jump,
) -> bool {
    exists|l: Option<&'a Lib>| f.ensures((site.prog_id,), l) && (m2, j) == vm_round(found(l), site, skip, m)
}

/// Whether a round at `site`, skipping the charge of its first instruction or not, is the one
/// which the end `j` of the previous round calls for.
pub open spec fn follows(j: Jump, site: LibSite, skip: bool) -> bool {
    match j {
        Jump::Instr(s) => site == s && !skip,
        Jump::Next(s) => site == s && skip,
        Jump::Halt => false,
    }
}

/// Whether the rounds `t` (each one a site, whether its first charge is skipped, the registers
/// after it and how it ended) chain from `entry` and the registers `m0`: the first round is at
/// the entry point without skipping, each round is one of the resolver `f`, and each round
/// after the first is the one the previous round called for.
pub open spec fn rounds_chain<'a, F: Fn(LibId) -> Option<&'a Lib>>(
    f: F,
    entry: LibSite,
    m0: CoreModel,
    t: Seq<(LibSite, bool, CoreModel, Jump)>,
) -> bool {
    &&& t.len() > 0 ==> t[0].0 == entry && !t[0].1 && round_by(f, t[0].0, t[0].1, m0, t[0].2, t[0].3)
    &&& forall|k: int| 0 < k < t.len() ==> round_by(f, (#[trigger] t[k]).0, t[k].1, t[k - 1].2, t[k].2, t[k].3)
    &&& forall|k: int| 0 <= k < t.len() - 1 ==> follows((#[trigger] t[k]).3, t[k + 1].0, t[k + 1].1)
}

/// Whether running the machine from `entry` on the registers `m0`, with the resolver `f`, went
/// through the rounds `t` and ended with the registers `mf`: the rounds chain, and the last one
/// halts.
pub open spec fn vm_runs<'a, F: Fn(LibId) -> Option<&'a Lib>>(
    f: F,
    entry: LibSite,
    m0: CoreModel,
    t: Seq<(LibSite, bool, CoreModel, Jump)>,
    mf: CoreModel,
) -> bool {
    &&& t.len() > 0
    &&& rounds_chain(f, entry, m0, t)
    &&& t.last().3 is Halt
    &&& t.last().2 == mf
}

/// A virtual machine: a core which runs programs made of libraries.
pub struct Vm {
    /// The registers of the machine.
    pub core: Core<NoExt>,
}

impl Vm {
    /// A machine with the default configuration of the core.
    pub fn new() -> (r: Self)
        ensures
            r.core.wf(),
            r.core.ch,
            r.core.cl.is_none(),
            r.core.ck == Status::Success,
            r.core.co == Status::Success,
            r.core.cf == 0,
            r.core.cy == 0,
            r.core.ca == 0,
            r.core.frames().len() == 0,
    {
        Vm { core: Core::new() }
    }

    /// A machine with the given configuration of the core.
    pub fn with(config: CoreConfig, cx_config: ()) -> (r: Self)
        ensures
            r.core.wf(),
            r.core.ch == config.halt,
            r.core.cl == config.complexity_lim,
            r.core.ck == Status::Success,
            r.core.co == Status::Success,
            r.core.cf == 0,
            r.core.cy == 0,
            r.core.ca == 0,
            r.core.frames().len() == 0,
    {
        Vm { core: Core::with(config, cx_config) }
    }

    /// Resets the registers, except those set up by the configuration.
    pub fn reset(&mut self)
        ensures
            final(self).core.wf(),
            final(self).core.same_config(&old(self).core),
            final(self).core.cx == old(self).core.cx.cleared(),
            final(self).core.ck == Status::Success,
            final(self).core.co == Status::Success,
            final(self).core.cf == 0,
            final(self).core.cy == 0,
            final(self).core.ca == 0,
            final(self).core.frames().len() == 0,
    {
        self.core.reset();
    }

    /// Runs one round at `site`, given the library which the site names, if it was found.
    pub fn exec_site(&mut self, site: LibSite, skip: bool, lib: Option<&Lib>, context: &()) -> (r: Jump)
        requires
            old(self).core.wf(),
        ensures
            (final(self).core.model(), r) == vm_round(match lib {
                Some(l) => Some(*l),
                None => None,
            }, site, skip, old(self).core.model()),
            final(self).core.cx == old(self).core.cx,
            final(self).core.evolved_from(&old(self).core),
            old(self).core.within_limit() && !final(self).core.within_limit() ==> final(self).core.ck == Status::Fail
                && r is Halt,
            !(r is Halt) ==> final(self).core.within_limit() || !old(self).core.within_limit(),
            match r {
                Jump::Halt => true,
                Jump::Instr(s) | Jump::Next(s) => final(self).core.cy > old(self).core.cy
                    || (final(self).core.cy == old(self).core.cy && lib.is_none() && s.offset == site.offset + 1),
            },
    {
        match lib {
            Some(lib) => lib.exec(site.prog_id, site.offset, skip, &mut self.core, context),
            None => {
                let stop = self.core.fail_ck();
                if stop || site.offset == 0xFFFF {
                    Jump::Halt
                } else {
                    let next = Site::new(site.prog_id, site.offset + 1);
                    if skip {
                        Jump::Next(next)
                    } else {
                        Jump::Instr(next)
                    }
                }
            },
        }
    }

    /// Runs the program from `entry_point`, looking libraries up with `lib_resolver`, and
    /// returns the final value of `CK`.
    ///
    /// When a library cannot be found the failure is registered in `CK`; unless that halts the
    /// program, resolution is tried again one byte further, until the offset would overflow.
    pub fn exec<'a, F: Fn(LibId) -> Option<&'a Lib>>(
        &mut self,
        entry_point: LibSite,
        context: &(),
        lib_resolver: F,
    ) -> (r: Status)
        requires
            old(self).core.wf(),
            forall|id: LibId| lib_resolver.requires((id,)),
        ensures
            exists|t: Seq<(LibSite, bool, CoreModel, Jump)>|
                vm_runs(lib_resolver, entry_point, old(self).core.model(), t, final(self).core.model()),
            final(self).core.evolved_from(&old(self).core),
            r == final(self).core.ck,
            old(self).core.within_limit() && !final(self).core.within_limit() ==> r == Status::Fail,
    {
        let mut site = entry_point;
        let mut skip = false;
        let ghost start = self.core;
        let ghost mut rounds: Seq<(LibSite, bool, CoreModel, Jump)> = Seq::empty();
        loop
            invariant_except_break
                start.within_limit() ==> self.core.within_limit(),
                rounds.len() == 0 ==> site == entry_point && !skip && self.core.model() == start.model(),
                rounds.len() > 0 ==> follows(rounds.last().3, site, skip) && self.core.model() == rounds.last().2,
            invariant
                rounds_chain(lib_resolver, entry_point, start.model(), rounds),
                self.core.evolved_from(&start),
                start == old(self).core,
                forall|id: LibId| lib_resolver.requires((id,)),
                start.within_limit() && !self.core.within_limit() ==> self.core.ck == Status::Fail,
            ensures
                vm_runs(lib_resolver, entry_point, start.model(), rounds, self.core.model()),
            decreases CYCLE_LIMIT - self.core.cy, 0x10000 - site.offset,
        {
            let lib = lib_resolver(site.prog_id);
            let ghost before = self.core.model();
            let jump = self.exec_site(site, skip, lib, context);
            proof {
                assert(lib_resolver.ensures((site.prog_id,), lib)
                    && (self.core.model(), jump) == vm_round(found(lib), site, skip, before));
                assert(round_by(lib_resolver, site, skip, before, self.core.model(), jump));
                let prev = rounds;
                rounds = rounds.push((site, skip, self.core.model(), jump));
                assert forall|k: int| 0 < k < rounds.len() implies round_by(lib_resolver, (#[trigger] rounds[k]).0, rounds[k].1, rounds[k - 1].2, rounds[k].2, rounds[k].3) by {
                    if k < prev.len() {
                        assert(rounds[k] == prev[k] && rounds[k - 1] == prev[k - 1]);
                    }
                }
                assert forall|k: int| 0 <= k < rounds.len() - 1 implies follows((#[trigger] rounds[k]).3, rounds[k + 1].0, rounds[k + 1].1) by {
                    if k < prev.len() - 1 {
                        assert(rounds[k] == prev[k] && rounds[k + 1] == prev[k + 1]);
                    }
                }
            }
            match jump {
                Jump::Halt => {
                    break;
                },
                Jump::Instr(new_site) => {
                    skip = false;
                    site = new_site;
                },
                Jump::Next(new_site) => {
                    skip = true;
                    site = new_site;
                },
            }
        }
        self.core.ck()
    }
}

} // verus!
