use vstd::prelude::*;
use crate::regs::{CoreExt, Supercore};
use crate::stack::{CallStack, stack_frames, CALL_STACK_SIZE_MAX};
use crate::util::{LibSite, Status};

verus! {

/// The largest value of the cycle counter `CY`.
pub const CYCLE_LIMIT: u16 = 0xFFFF;

/// The control registers and the call stack of a core, as values.
pub struct CoreModel {
    pub ch: bool,
    pub ck: Status,
    pub cf: u64,
    pub co: Status,
    pub cy: u16,
    pub ca: u64,
    pub cl: Option<u64>,
    pub frames: Seq<LibSite>,
}

/// The registers after a failure is registered (see `Core::fail_ck`).
pub open spec fn fail_model(m: CoreModel) -> CoreModel {
    CoreModel { ck: Status::Fail, cf: if m.cf == u64::MAX { m.cf } else { (m.cf + 1) as u64 }, ..m }
}

/// Whether registering a failure stops the program (see `Core::fail_ck`).
pub open spec fn must_stop(m: CoreModel) -> bool {
    m.ch && m.cf == 0
}

/// The registers after a jump is counted, below the cycle limit.
pub open spec fn jumped_model(m: CoreModel) -> CoreModel {
    CoreModel { cy: (m.cy + 1) as u16, ..m }
}

/// The configuration of a core.
#[derive(Copy, Clone, PartialEq, Eq, PartialOrd, Ord, Hash, Debug, Structural)]
pub struct CoreConfig {
    /// Initial value of the `CH` register.
    pub halt: bool,
    /// Initial value of the `CL` register.
    pub complexity_lim: Option<u64>,
}

impl Default for CoreConfig {
    /// Halts on the first failure, with no complexity limit.
    fn default() -> (r: CoreConfig)
        ensures
            r.halt,
            r.complexity_lim.is_none(),
    {
        CoreConfig { halt: true, complexity_lim: None }
    }
}

/// The registers of the core: the control registers, the call stack and the register bank of an
/// ISA extension.
pub struct Core<Cx: CoreExt> {
    /// Halt register `CH`: when set, the first failure halts the program.
    pub ch: bool,
    /// Check register `CK`, set to a failure by any failing operation.
    pub ck: Status,
    /// Failure register `CF`: how many times `CK` was set to a failure.
    pub cf: u64,
    /// Test register `CO`, also used as a carry flag.
    pub co: Status,
    /// Cycle register `CY`: how many jumps were taken.
    pub cy: u16,
    /// Complexity accumulator `CA`.
    pub ca: u64,
    /// Complexity limit `CL`.
    pub cl: Option<u64>,
    /// Call stack `CS`.
    pub cs: CallStack,
    /// Register bank of the ISA extension.
    pub cx: Cx,
}

impl<Cx: CoreExt> Core<Cx> {
    /// The frames of the call stack, bottom first.
    pub open spec fn frames(&self) -> Seq<LibSite> {
        stack_frames(self.cs)
    }

    /// The control registers and the call stack, as values.
    pub open spec fn model(&self) -> CoreModel {
        CoreModel {
            ch: self.ch,
            ck: self.ck,
            cf: self.cf,
            co: self.co,
            cy: self.cy,
            ca: self.ca,
            cl: self.cl,
            frames: self.frames(),
        }
    }

    /// The invariant of the core: the call stack holds at most [`CALL_STACK_SIZE_MAX`] frames.
    pub open spec fn wf(&self) -> bool {
        self.frames().len() <= CALL_STACK_SIZE_MAX
    }

    /// Whether two cores have the same halt register and complexity limit, which configure a
    /// core and which a reset keeps.
    pub open spec fn same_config(&self, other: &Self) -> bool {
        self.ch == other.ch && self.cl == other.cl
    }

    /// Whether two cores hold the same registers and the same call stack frames.
    pub open spec fn same_regs(&self, other: &Self) -> bool {
        &&& self.ch == other.ch
        &&& self.ck == other.ck
        &&& self.cf == other.cf
        &&& self.co == other.co
        &&& self.cy == other.cy
        &&& self.ca == other.ca
        &&& self.cl == other.cl
        &&& self.frames() == other.frames()
        &&& self.cx == other.cx
    }

    /// Whether the core differs from `prev` only by a frame pushed on the call stack.
    pub open spec fn pushed_from(&self, prev: &Self, site: LibSite) -> bool {
        &&& (Core { cs: prev.cs, ..*self }).same_regs(prev)
        &&& self.frames() == prev.frames().push(site)
    }

    /// Whether the complexity accumulated is below the complexity limit, if one is set.
    pub open spec fn within_limit(&self) -> bool {
        match self.cl {
            Some(lim) => self.ca < lim,
            None => true,
        }
    }

    /// How the control registers of a core may evolve while it runs a program: `CH` and `CL`
    /// stay, the counters `CF`, `CY` and `CA` never decrease, and the call stack stays within
    /// its bound.
    pub open spec fn evolved_from(&self, prev: &Self) -> bool {
        &&& self.wf()
        &&& self.ch == prev.ch
        &&& self.cl == prev.cl
        &&& self.cf >= prev.cf
        &&& self.cy >= prev.cy
        &&& self.ca >= prev.ca
    }

    /// What `fail_ck` does to the control registers.
    pub open spec fn failed_from(&self, prev: &Self) -> bool {
        &&& self.ck == Status::Fail
        &&& self.cf == (if prev.cf == u64::MAX { prev.cf } else { (prev.cf + 1) as u64 })
        &&& self.ch == prev.ch
        &&& self.co == prev.co
        &&& self.cy == prev.cy
        &&& self.ca == prev.ca
        &&& self.cl == prev.cl
        &&& self.frames() == prev.frames()
        &&& self.cx == prev.cx
    }

    /// Initializes the registers from a configuration: `CK` and `CO` clear, the counters at zero,
    /// the call stack empty.
    pub fn with(config: CoreConfig, cx_config: Cx::Config) -> (r: Self)
        ensures
            r.wf(),
            r.ch == config.halt,
            r.cl == config.complexity_lim,
            r.ck == Status::Success,
            r.co == Status::Success,
            r.cf == 0,
            r.cy == 0,
            r.ca == 0,
            r.frames() == Seq::<LibSite>::empty(),
    {
        Core {
            ch: config.halt,
            ck: Status::Success,
            cf: 0,
            co: Status::Success,
            cy: 0,
            ca: 0,
            cl: config.complexity_lim,
            cs: CallStack::new(),
            cx: Cx::with(cx_config),
        }
    }

    /// Value of the `CH` register.
    pub fn ch(&self) -> (r: bool)
        ensures
            r == self.ch,
    {
        self.ch
    }

    /// Value of the `CK` register.
    pub fn ck(&self) -> (r: Status)
        ensures
            r == self.ck,
    {
        self.ck
    }

    /// Value of the `CF` register.
    pub fn cf(&self) -> (r: u64)
        ensures
            r == self.cf,
    {
        self.cf
    }

    /// Value of the `CO` register.
    pub fn co(&self) -> (r: Status)
        ensures
            r == self.co,
    {
        self.co
    }

    /// Value of the `CY` register.
    pub fn cy(&self) -> (r: u16)
        ensures
            r == self.cy,
    {
        self.cy
    }

    /// Value of the `CA` register.
    pub fn ca(&self) -> (r: u64)
        ensures
            r == self.ca,
    {
        self.ca
    }

    /// Value of the `CL` register.
    pub fn cl(&self) -> (r: Option<u64>)
        ensures
            r == self.cl,
    {
        self.cl
    }

    /// The call stack pointer `CP`: the number of frames on the call stack.
    pub fn cp(&self) -> (r: u16)
        requires
            self.wf(),
        ensures
            r == self.frames().len(),
    {
        self.cs.len() as u16
    }

    /// Sets the `CO` register.
    pub fn set_co(&mut self, co: Status)
        ensures
            *final(self) == (Core { co, ..*old(self) }),
    {
        self.co = co;
    }

    /// Clears the `CK` register.
    pub fn reset_ck(&mut self)
        ensures
            *final(self) == (Core { ck: Status::Success, ..*old(self) }),
    {
        self.ck = Status::Success;
    }

    /// Sets `CK` to a failure and counts it in `CF` (which stays at its maximum once there).
    ///
    /// Returns whether the program must stop: the halt register is set and this is the first
    /// failure counted.
    pub fn fail_ck(&mut self) -> (r: bool)
        ensures
            final(self).failed_from(old(self)),
            r == (old(self).ch && old(self).cf == 0),
    {
        let first = self.cf == 0;
        self.ck = Status::Fail;
        self.cf = self.cf.saturating_add(1);
        self.ch && first
    }

    /// Pushes a return site onto the call stack; `None` when the stack is full, in which case
    /// the core does not change.
    pub fn push_cs(&mut self, site: LibSite) -> (r: Option<()>)
        requires
            old(self).wf(),
        ensures
            final(self).wf(),
            r.is_some() <==> old(self).frames().len() < CALL_STACK_SIZE_MAX,
            r.is_some() ==> final(self).frames() == old(self).frames().push(site),
            r.is_none() ==> final(self).frames() == old(self).frames(),
            final(self).ch == old(self).ch,
            final(self).ck == old(self).ck,
            final(self).cf == old(self).cf,
            final(self).co == old(self).co,
            final(self).cy == old(self).cy,
            final(self).ca == old(self).ca,
            final(self).cl == old(self).cl,
            final(self).cx == old(self).cx,
    {
        if self.cs.push(site) {
            Some(())
        } else {
            None
        }
    }

    /// Pops the last return site from the call stack; `None` when it is empty.
    pub fn pop_cs(&mut self) -> (r: Option<LibSite>)
        requires
            old(self).wf(),
        ensures
            final(self).wf(),
            old(self).frames().len() == 0 ==> r.is_none() && final(self).frames() == old(self).frames(),
            old(self).frames().len() > 0 ==> r == Some(old(self).frames().last())
                && final(self).frames() == old(self).frames().drop_last(),
            final(self).ch == old(self).ch,
            final(self).ck == old(self).ck,
            final(self).cf == old(self).cf,
            final(self).co == old(self).co,
            final(self).cy == old(self).cy,
            final(self).ca == old(self).ca,
            final(self).cl == old(self).cl,
            final(self).cx == old(self).cx,
    {
        self.cs.pop()
    }

    /// Counts a taken jump in `CY`.
    ///
    /// Returns `false` when `CY` is already at [`CYCLE_LIMIT`]: then `CY` stays there, the
    /// failure is registered as by `fail_ck` and the program must stop.
    pub fn jmp(&mut self) -> (r: bool)
        ensures
            r <==> old(self).cy < CYCLE_LIMIT,
            r ==> *final(self) == (Core { cy: (old(self).cy + 1) as u16, ..*old(self) }),
            !r ==> final(self).failed_from(old(self)),
    {
        if self.cy < CYCLE_LIMIT {
            self.cy = self.cy + 1;
            true
        } else {
            let _ = self.fail_ck();
            false
        }
    }

    /// Charges the complexity of an instruction to `CA` (saturating at the maximum).
    ///
    /// Returns `false` when a complexity limit is set and `CA` has reached it: then the failure
    /// is registered as by `fail_ck`, and the instruction must not be executed.
    pub fn acc_complexity(&mut self, complexity: u64) -> (r: bool)
        ensures
            r <==> !exceeds_limit(old(self).ca, complexity, old(self).cl),
            final(self).ca == charged(old(self).ca, complexity),
            r ==> *final(self) == (Core { ca: charged(old(self).ca, complexity), ..*old(self) }),
            !r ==> (Core { ca: old(self).ca, ..*final(self) }).failed_from(old(self)),
    {
        self.ca = self.ca.saturating_add(complexity);
        match self.cl {
            Some(lim) => {
                if self.ca >= lim {
                    let _ = self.fail_ck();
                    false
                } else {
                    true
                }
            },
            None => true,
        }
    }

    /// Resets the core: `CH`, `CL` and the configuration of the extension bank stay, everything
    /// else returns to its initial value and the extension bank is reset.
    pub fn reset(&mut self)
        ensures
            final(self).wf(),
            final(self).same_config(old(self)),
            final(self).cx == old(self).cx.cleared(),
            final(self).ck == Status::Success,
            final(self).co == Status::Success,
            final(self).cf == 0,
            final(self).cy == 0,
            final(self).ca == 0,
            final(self).frames() == Seq::<LibSite>::empty(),
    {
        self.ck = Status::Success;
        self.cf = 0;
        self.co = Status::Success;
        self.cy = 0;
        self.ca = 0;
        self.cs = CallStack::new();
        self.cx.reset();
    }
}

/// With a complexity limit of zero, charging an instruction of positive complexity reaches the
/// limit whatever was accumulated before: that instruction fails and is not executed.
pub proof fn lemma_zero_limit_fails(ca: u64, complexity: u64)
    requires
        complexity > 0,
    ensures
        exceeds_limit(ca, complexity, Some(0u64)),
{
}

/// The value of `CA` after charging an instruction of the given complexity.
pub open spec fn charged(ca: u64, complexity: u64) -> u64 {
    if ca + complexity > u64::MAX {
        u64::MAX
    } else {
        (ca + complexity) as u64
    }
}

/// Whether charging an instruction of the given complexity reaches the complexity limit.
pub open spec fn exceeds_limit(ca: u64, complexity: u64, cl: Option<u64>) -> bool {
    match cl {
        Some(lim) => charged(ca, complexity) >= lim,
        None => false,
    }
}

impl<Cx: CoreExt> Core<Cx> {
    /// Initializes the registers with the default configuration (see [`CoreConfig`]).
    pub fn new() -> (r: Self)
        where Cx::Config: Default,
        ensures
            r.wf(),
            r.ch,
            r.cl.is_none(),
            r.ck == Status::Success,
            r.co == Status::Success,
            r.cf == 0,
            r.cy == 0,
            r.ca == 0,
            r.frames() == Seq::<LibSite>::empty(),
    {
        Core::with(CoreConfig::default(), Cx::Config::default())
    }
}

impl<Cx: CoreExt> Default for Core<Cx> where Cx::Config: Default {
    /// A core with the default configuration (see [`CoreConfig`]).
    fn default() -> (r: Self)
        ensures
            r.wf(),
            r.ch,
            r.cl.is_none(),
            r.ck == Status::Success,
            r.co == Status::Success,
            r.cf == 0,
            r.cy == 0,
            r.ca == 0,
            r.frames() == Seq::<LibSite>::empty(),
    {
        Core::new()
    }
}

/// A core lends its registers to the core of an ISA extension and takes back what the
/// extension may change: `CK`, `CO`, the counters, the call stack and the register bank. The
/// halt register and the complexity limit stay as they are.
impl<Cx: CoreExt + Supercore<Cx2>, Cx2: CoreExt> Supercore<Core<Cx2>> for Core<Cx> {
    fn subcore(&self) -> Core<Cx2> {
        Core {
            ch: self.ch,
            ck: self.ck,
            cf: self.cf,
            co: self.co,
            cy: self.cy,
            ca: self.ca,
            cl: self.cl,
            cs: self.cs.clone(),
            cx: self.cx.subcore(),
        }
    }

    fn merge_subcore(&mut self, subcore: Core<Cx2>) {
        self.ck = subcore.ck;
        self.co = subcore.co;
        self.cf = subcore.cf;
        self.cy = subcore.cy;
        self.ca = subcore.ca;
        self.cs = subcore.cs;
        self.cx.merge_subcore(subcore.cx);
    }
}

} // verus!
