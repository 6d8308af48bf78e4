use vstd::prelude::*;

verus! {

/// Instructions of the control-flow ISA of the arithmetic logic unit, still to be defined.
#[derive(Clone, PartialEq, Eq, Hash, Debug, Structural)]
pub enum CtrlInstr {
    /// The one instruction defined so far.
    Placeholder,
}

/// Instructions of the register ISA of the arithmetic logic unit, still to be defined.
#[derive(Clone, PartialEq, Eq, Hash, Debug, Structural)]
pub enum RegInstr {
    /// The one instruction defined so far.
    Placeholder,
}

/// Instructions of the arithmetic ISA of the arithmetic logic unit, still to be defined.
#[derive(Clone, PartialEq, Eq, Hash, Debug, Structural)]
pub enum ArithmInstr {
    /// The one instruction defined so far.
    Placeholder,
}

/// Instructions of the signed arithmetic ISA of the arithmetic logic unit, still to be defined.
#[derive(Clone, PartialEq, Eq, Hash, Debug, Structural)]
pub enum SignedInstr {
    /// The one instruction defined so far.
    Placeholder,
}

/// Instructions of the bit manipulation ISA of the arithmetic logic unit, still to be defined.
#[derive(Clone, PartialEq, Eq, Hash, Debug, Structural)]
pub enum BitInstr {
    /// The one instruction defined so far.
    Placeholder,
}

/// Instructions of the floating-point ISA of the arithmetic logic unit, still to be defined.
#[derive(Clone, PartialEq, Eq, Hash, Debug, Structural)]
pub enum FloatInstr {
    /// The one instruction defined so far.
    Placeholder,
}

/// Instructions of the array ISA of the arithmetic logic unit, still to be defined.
#[derive(Clone, PartialEq, Eq, Hash, Debug, Structural)]
pub enum ArrayInstr {
    /// The one instruction defined so far.
    Placeholder,
}

/// Instructions of the string ISA of the arithmetic logic unit, still to be defined.
#[derive(Clone, PartialEq, Eq, Hash, Debug, Structural)]
pub enum StrInstr {
    /// The one instruction defined so far.
    Placeholder,
}

} // verus!
