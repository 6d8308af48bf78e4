use vstd::prelude::*;

verus! {

/// A register of an ISA extension: a name with a fixed width in bytes.
pub trait Register: Copy {
    /// The type of a value held in such a register.
    type Value: Copy;

    /// The width of the register, in bytes.
    fn bytes(self) -> u16;
}

/// The register type of a core with no extension: its one register names no storage, so it
/// has no width and never holds a value.
#[derive(Copy, Clone, PartialEq, Eq, PartialOrd, Ord, Debug)]
pub enum NoRegs {
    /// The register which holds nothing.
    Void,
}

impl Register for NoRegs {
    type Value = u8;

    fn bytes(self) -> u16 {
        0
    }
}

/// A bank of registers that an ISA extension adds to the core.
///
/// The runtime never reads its contents: it only resets it together with the core.
pub trait CoreExt: Sized {
    /// The registers of the bank.
    type Reg: Register;
    /// The configuration the bank is initialized with.
    type Config;

    /// Constructs the bank from its configuration.
    fn with(config: Self::Config) -> Self;

    /// Reads a register; `None` when it holds no value.
    fn get(&self, reg: Self::Reg) -> Option<<Self::Reg as Register>::Value>;

    /// Clears a register, leaving it with no value.
    fn clr(&mut self, reg: Self::Reg);

    /// Puts a value into a register.
    fn set(&mut self, reg: Self::Reg, val: <Self::Reg as Register>::Value) {
        self.put(reg, Some(val))
    }

    /// Puts either a value or `None` into a register.
    fn put(&mut self, reg: Self::Reg, val: Option<<Self::Reg as Register>::Value>);

    /// The bank with all its registers cleared, and its configuration kept.
    spec fn cleared(&self) -> Self;

    /// Clears all the registers of the bank.
    fn reset(&mut self)
        ensures
            *final(self) == old(self).cleared(),
    ;
}

/// A core extension which has no registers.
#[derive(Copy, Clone, PartialEq, Eq, Debug)]
pub struct NoExt;

impl CoreExt for NoExt {
    type Reg = NoRegs;
    type Config = ();

    fn with(_config: ()) -> NoExt {
        NoExt
    }

    fn get(&self, _reg: NoRegs) -> Option<u8> {
        None
    }

    fn clr(&mut self, _reg: NoRegs) {
    }

    fn put(&mut self, _reg: NoRegs, _val: Option<u8>) {
    }

    open spec fn cleared(&self) -> NoExt {
        NoExt
    }

    fn reset(&mut self) {
    }
}

/// A core which can lend its registers to the core of an ISA extension and take them back.
pub trait Supercore<Subcore> {
    /// Makes the core of an ISA extension out of this one.
    fn subcore(&self) -> Subcore;

    /// Takes back the registers changed by the core of an ISA extension.
    fn merge_subcore(&mut self, subcore: Subcore);
}

} // verus!
