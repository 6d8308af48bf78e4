mod util;
mod stack;
mod regs;
mod machine;
mod marshaller;
pub mod opcodes;
mod isa;
mod codec;
mod exec;
mod library;
mod runtime;
mod vm;
mod families;
mod indexes;
mod flags;
pub mod alu;
mod listing;

pub use util::{Status, Site, SiteId, LibId, LibSite};
pub use stack::{CallStack, CALL_STACK_SIZE_MAX};
pub use regs::{Register, NoRegs, CoreExt, NoExt, Supercore};
pub use machine::{Core, CoreConfig, CoreModel, CYCLE_LIMIT};
pub use marshaller::{Marshaller, MarshallError, DecodeError, CODE_SEGMENT_MAX, DATA_SEGMENT_MAX, LIBS_SEGMENT_MAX};
pub use isa::{CtrlInstr, ReservedInstr, Instr, ExecStep};
pub use exec::{GotoTarget, Instruction};
pub use library::{Lib, IsaId, AssemblerError, ISA_ID_MAX_LEN};
pub use runtime::Jump;
pub use vm::Vm;
pub use families::{NumericRegister, RegA, RegA2, RegF, RegR, RegAll, RegAFR, RegAF, RegAR, RegBlockAR, RegBlockAFR, RegBlock};
pub use indexes::{Reg32, Reg16, Reg8, RegS};
pub use flags::{Flag, ParseFlagError, SignFlag, NoneEqFlag, FloatEqFlag, RoundingFlag, MergeFlag, ExtendFlag, InsertFlag, DeleteFlag, IntFlags, SplitFlag};
