use vstd::prelude::*;

verus! {

/// Index of a register in a family of thirty-two.
#[derive(Copy, Clone, PartialEq, Eq, PartialOrd, Ord, Hash, Debug, Structural)]
pub enum Reg32 {
    Reg0,
    Reg1,
    Reg2,
    Reg3,
    Reg4,
    Reg5,
    Reg6,
    Reg7,
    Reg8,
    Reg9,
    Reg10,
    Reg11,
    Reg12,
    Reg13,
    Reg14,
    Reg15,
    Reg16,
    Reg17,
    Reg18,
    Reg19,
    Reg20,
    Reg21,
    Reg22,
    Reg23,
    Reg24,
    Reg25,
    Reg26,
    Reg27,
    Reg28,
    Reg29,
    Reg30,
    Reg31,
}

impl Default for Reg32 {
    fn default() -> (r: Self)
        ensures
            r == Reg32::Reg0,
    {
        Reg32::Reg0
    }
}

impl Reg32 {
    /// The index of the register.
    pub open spec fn index(self) -> u8 {
        match self {
            Reg32::Reg0 => 0,
            Reg32::Reg1 => 1,
            Reg32::Reg2 => 2,
            Reg32::Reg3 => 3,
            Reg32::Reg4 => 4,
            Reg32::Reg5 => 5,
            Reg32::Reg6 => 6,
            Reg32::Reg7 => 7,
            Reg32::Reg8 => 8,
            Reg32::Reg9 => 9,
            Reg32::Reg10 => 10,
            Reg32::Reg11 => 11,
            Reg32::Reg12 => 12,
            Reg32::Reg13 => 13,
            Reg32::Reg14 => 14,
            Reg32::Reg15 => 15,
            Reg32::Reg16 => 16,
            Reg32::Reg17 => 17,
            Reg32::Reg18 => 18,
            Reg32::Reg19 => 19,
            Reg32::Reg20 => 20,
            Reg32::Reg21 => 21,
            Reg32::Reg22 => 22,
            Reg32::Reg23 => 23,
            Reg32::Reg24 => 24,
            Reg32::Reg25 => 25,
            Reg32::Reg26 => 26,
            Reg32::Reg27 => 27,
            Reg32::Reg28 => 28,
            Reg32::Reg29 => 29,
            Reg32::Reg30 => 30,
            Reg32::Reg31 => 31,
        }
    }

    /// The register with a given index.
    pub fn from_index(val: u8) -> (r: Self)
        requires
            val < 32,
        ensures
            r.index() == val,
    {
        match val {
            0 => Reg32::Reg0,
            1 => Reg32::Reg1,
            2 => Reg32::Reg2,
            3 => Reg32::Reg3,
            4 => Reg32::Reg4,
            5 => Reg32::Reg5,
            6 => Reg32::Reg6,
            7 => Reg32::Reg7,
            8 => Reg32::Reg8,
            9 => Reg32::Reg9,
            10 => Reg32::Reg10,
            11 => Reg32::Reg11,
            12 => Reg32::Reg12,
            13 => Reg32::Reg13,
            14 => Reg32::Reg14,
            15 => Reg32::Reg15,
            16 => Reg32::Reg16,
            17 => Reg32::Reg17,
            18 => Reg32::Reg18,
            19 => Reg32::Reg19,
            20 => Reg32::Reg20,
            21 => Reg32::Reg21,
            22 => Reg32::Reg22,
            23 => Reg32::Reg23,
            24 => Reg32::Reg24,
            25 => Reg32::Reg25,
            26 => Reg32::Reg26,
            27 => Reg32::Reg27,
            28 => Reg32::Reg28,
            29 => Reg32::Reg29,
            30 => Reg32::Reg30,
            _ => Reg32::Reg31,
        }
    }

    /// The index of the register.
    pub fn to_u8(self) -> (r: u8)
        ensures
            r == self.index(),
            r < 32,
    {
        match self {
            Reg32::Reg0 => 0,
            Reg32::Reg1 => 1,
            Reg32::Reg2 => 2,
            Reg32::Reg3 => 3,
            Reg32::Reg4 => 4,
            Reg32::Reg5 => 5,
            Reg32::Reg6 => 6,
            Reg32::Reg7 => 7,
            Reg32::Reg8 => 8,
            Reg32::Reg9 => 9,
            Reg32::Reg10 => 10,
            Reg32::Reg11 => 11,
            Reg32::Reg12 => 12,
            Reg32::Reg13 => 13,
            Reg32::Reg14 => 14,
            Reg32::Reg15 => 15,
            Reg32::Reg16 => 16,
            Reg32::Reg17 => 17,
            Reg32::Reg18 => 18,
            Reg32::Reg19 => 19,
            Reg32::Reg20 => 20,
            Reg32::Reg21 => 21,
            Reg32::Reg22 => 22,
            Reg32::Reg23 => 23,
            Reg32::Reg24 => 24,
            Reg32::Reg25 => 25,
            Reg32::Reg26 => 26,
            Reg32::Reg27 => 27,
            Reg32::Reg28 => 28,
            Reg32::Reg29 => 29,
            Reg32::Reg30 => 30,
            Reg32::Reg31 => 31,
        }
    }
}

/// Index of a register among the first sixteen of a family.
#[derive(Copy, Clone, PartialEq, Eq, PartialOrd, Ord, Hash, Debug, Structural)]
pub enum Reg16 {
    Reg0,
    Reg1,
    Reg2,
    Reg3,
    Reg4,
    Reg5,
    Reg6,
    Reg7,
    Reg8,
    Reg9,
    Reg10,
    Reg11,
    Reg12,
    Reg13,
    Reg14,
    Reg15,
}

impl Default for Reg16 {
    fn default() -> (r: Self)
        ensures
            r == Reg16::Reg0,
    {
        Reg16::Reg0
    }
}

impl Reg16 {
    /// The index of the register.
    pub open spec fn index(self) -> u8 {
        match self {
            Reg16::Reg0 => 0,
            Reg16::Reg1 => 1,
            Reg16::Reg2 => 2,
            Reg16::Reg3 => 3,
            Reg16::Reg4 => 4,
            Reg16::Reg5 => 5,
            Reg16::Reg6 => 6,
            Reg16::Reg7 => 7,
            Reg16::Reg8 => 8,
            Reg16::Reg9 => 9,
            Reg16::Reg10 => 10,
            Reg16::Reg11 => 11,
            Reg16::Reg12 => 12,
            Reg16::Reg13 => 13,
            Reg16::Reg14 => 14,
            Reg16::Reg15 => 15,
        }
    }

    /// The register with a given index.
    pub fn from_index(val: u8) -> (r: Self)
        requires
            val < 16,
        ensures
            r.index() == val,
    {
        match val {
            0 => Reg16::Reg0,
            1 => Reg16::Reg1,
            2 => Reg16::Reg2,
            3 => Reg16::Reg3,
            4 => Reg16::Reg4,
            5 => Reg16::Reg5,
            6 => Reg16::Reg6,
            7 => Reg16::Reg7,
            8 => Reg16::Reg8,
            9 => Reg16::Reg9,
            10 => Reg16::Reg10,
            11 => Reg16::Reg11,
            12 => Reg16::Reg12,
            13 => Reg16::Reg13,
            14 => Reg16::Reg14,
            _ => Reg16::Reg15,
        }
    }

    /// The index of the register.
    pub fn to_u8(self) -> (r: u8)
        ensures
            r == self.index(),
            r < 16,
    {
        match self {
            Reg16::Reg0 => 0,
            Reg16::Reg1 => 1,
            Reg16::Reg2 => 2,
            Reg16::Reg3 => 3,
            Reg16::Reg4 => 4,
            Reg16::Reg5 => 5,
            Reg16::Reg6 => 6,
            Reg16::Reg7 => 7,
            Reg16::Reg8 => 8,
            Reg16::Reg9 => 9,
            Reg16::Reg10 => 10,
            Reg16::Reg11 => 11,
            Reg16::Reg12 => 12,
            Reg16::Reg13 => 13,
            Reg16::Reg14 => 14,
            Reg16::Reg15 => 15,
        }
    }
}

/// Index of a register among the first eight of a family.
#[derive(Copy, Clone, PartialEq, Eq, PartialOrd, Ord, Hash, Debug, Structural)]
pub enum Reg8 {
    Reg0,
    Reg1,
    Reg2,
    Reg3,
    Reg4,
    Reg5,
    Reg6,
    Reg7,
}

impl Default for Reg8 {
    fn default() -> (r: Self)
        ensures
            r == Reg8::Reg0,
    {
        Reg8::Reg0
    }
}

impl Reg8 {
    /// The index of the register.
    pub open spec fn index(self) -> u8 {
        match self {
            Reg8::Reg0 => 0,
            Reg8::Reg1 => 1,
            Reg8::Reg2 => 2,
            Reg8::Reg3 => 3,
            Reg8::Reg4 => 4,
            Reg8::Reg5 => 5,
            Reg8::Reg6 => 6,
            Reg8::Reg7 => 7,
        }
    }

    /// The register with a given index.
    pub fn from_index(val: u8) -> (r: Self)
        requires
            val < 8,
        ensures
            r.index() == val,
    {
        match val {
            0 => Reg8::Reg0,
            1 => Reg8::Reg1,
            2 => Reg8::Reg2,
            3 => Reg8::Reg3,
            4 => Reg8::Reg4,
            5 => Reg8::Reg5,
            6 => Reg8::Reg6,
            _ => Reg8::Reg7,
        }
    }

    /// The index of the register.
    pub fn to_u8(self) -> (r: u8)
        ensures
            r == self.index(),
            r < 8,
    {
        match self {
            Reg8::Reg0 => 0,
            Reg8::Reg1 => 1,
            Reg8::Reg2 => 2,
            Reg8::Reg3 => 3,
            Reg8::Reg4 => 4,
            Reg8::Reg5 => 5,
            Reg8::Reg6 => 6,
            Reg8::Reg7 => 7,
        }
    }
}

impl Reg32 {
    /// The index of the register, as a `usize`.
    pub fn to_usize(self) -> (r: usize)
        ensures
            r == self.index(),
    {
        self.to_u8() as usize
    }
}

impl Reg16 {
    /// The same register in a family of thirty-two.
    pub fn to_reg32(self) -> (r: Reg32)
        ensures
            r.index() == self.index(),
    {
        Reg32::from_index(self.to_u8())
    }

    /// The register with the index of a register of a family of thirty-two; `None` beyond the
    /// first sixteen.
    pub fn from_reg32(reg: Reg32) -> (r: Option<Self>)
        ensures
            r.is_some() <==> reg.index() < 16,
            r.is_some() ==> r.unwrap().index() == reg.index(),
    {
        let i = reg.to_u8();
        if i < 16 {
            Some(Reg16::from_index(i))
        } else {
            None
        }
    }
}

impl Reg8 {
    /// The same register in a family of thirty-two.
    pub fn to_reg32(self) -> (r: Reg32)
        ensures
            r.index() == self.index(),
    {
        Reg32::from_index(self.to_u8())
    }

    /// The register with the index of a register of a family of thirty-two; `None` beyond the
    /// first eight.
    pub fn from_reg32(reg: Reg32) -> (r: Option<Self>)
        ensures
            r.is_some() <==> reg.index() < 8,
            r.is_some() ==> r.unwrap().index() == reg.index(),
    {
        let i = reg.to_u8();
        if i < 8 {
            Some(Reg8::from_index(i))
        } else {
            None
        }
    }
}

/// Index of a string register: four bits.
#[derive(Copy, Clone, PartialEq, Eq, PartialOrd, Ord, Hash, Debug)]
pub struct RegS(u8);

impl RegS {
    #[verifier::type_invariant]
    spec fn inv(self) -> bool {
        self.0 < 16
    }

    /// The index of the register.
    pub closed spec fn index(self) -> u8 {
        self.0
    }

    /// The register whose index is a number modulo 16.
    pub fn from_u8(val: u8) -> (r: Self)
        ensures
            r.index() == val % 16,
    {
        RegS(val % 16)
    }

    /// The index of the register.
    pub fn as_u8(self) -> (r: u8)
        ensures
            r == self.index(),
            r < 16,
    {
        proof {
            use_type_invariant(&self);
        }
        self.0
    }

    /// The index of the register, as a `usize`.
    pub fn as_usize(self) -> (r: usize)
        ensures
            r == self.index(),
            r < 16,
    {
        proof {
            use_type_invariant(&self);
        }
        self.0 as usize
    }

    /// The register with the index of a register of a family of thirty-two; `None` beyond the
    /// first sixteen.
    pub fn from_reg32(reg: Reg32) -> (r: Option<Self>)
        ensures
            r.is_some() <==> reg.index() < 16,
            r.is_some() ==> r.unwrap().index() == reg.index(),
    {
        let i = reg.to_u8();
        if i < 16 {
            Some(RegS(i))
        } else {
            None
        }
    }

    /// The same register in a family of thirty-two.
    pub fn to_reg32(self) -> (r: Reg32)
        ensures
            r.index() == self.index(),
    {
        proof {
            use_type_invariant(&self);
        }
        Reg32::from_index(self.0)
    }
}

impl Default for RegS {
    fn default() -> (r: Self)
        ensures
            r.index() == 0,
    {
        RegS(0)
    }
}

} // verus!
