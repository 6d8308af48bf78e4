use vstd::prelude::*;

verus! {

/// A register which holds a number of a fixed width.
pub trait NumericRegister {
    /// The width of the register, in bytes: at most 1024.
    fn bytes(&self) -> (r: u16)
        ensures
            r <= 1024,
    ;

    /// The width of the register, in bits.
    fn bits(&self) -> u16 {
        self.bytes() * 8
    }
}

/// Registers of the `A` family: unsigned integers from 8 to 1024 bits.
#[derive(Copy, Clone, PartialEq, Eq, PartialOrd, Ord, Hash, Debug, Structural)]
pub enum RegA {
    A8,
    A16,
    A32,
    A64,
    A128,
    A256,
    A512,
    A1024,
}

impl RegA {
    /// The register of a given width in bits, if there is one.
    pub open spec fn spec_with(bits: u16) -> Option<Self> {
        match bits {
            8 => Some(RegA::A8),
            16 => Some(RegA::A16),
            32 => Some(RegA::A32),
            64 => Some(RegA::A64),
            128 => Some(RegA::A128),
            256 => Some(RegA::A256),
            512 => Some(RegA::A512),
            1024 => Some(RegA::A1024),
            _ => None,
        }
    }

    /// The width of the register, in bytes.
    pub open spec fn spec_bytes(self) -> u16 {
        match self {
            RegA::A8 => 1,
            RegA::A16 => 2,
            RegA::A32 => 4,
            RegA::A64 => 8,
            RegA::A128 => 16,
            RegA::A256 => 32,
            RegA::A512 => 64,
            RegA::A1024 => 128,
        }
    }

    /// The index of the register within its family, as encoded in three bits.
    pub open spec fn spec_index(self) -> u8 {
        match self {
            RegA::A8 => 0,
            RegA::A16 => 1,
            RegA::A32 => 2,
            RegA::A64 => 3,
            RegA::A128 => 4,
            RegA::A256 => 5,
            RegA::A512 => 6,
            RegA::A1024 => 7,
        }
    }

    /// A short description of the family.
    pub fn description() -> (r: &'static str)
        ensures
            r@ == "A register"@,
    {
        "A register"
    }

    /// The width of the register, in bytes.
    pub fn bytes(&self) -> (r: u16)
        ensures
            r == self.spec_bytes(),
    {
        match self {
            RegA::A8 => 1,
            RegA::A16 => 2,
            RegA::A32 => 4,
            RegA::A64 => 8,
            RegA::A128 => 16,
            RegA::A256 => 32,
            RegA::A512 => 64,
            RegA::A1024 => 128,
        }
    }

    /// The register of a given width in bits; `None` for a width that no register has.
    pub fn with(bits: u16) -> (r: Option<Self>)
        ensures
            r == Self::spec_with(bits),
            r.is_some() <==> (bits == 8 || bits == 16 || bits == 32 || bits == 64 || bits == 128
                || bits == 256 || bits == 512 || bits == 1024),
            r.is_some() ==> r.unwrap().spec_bytes() * 8 == bits,
    {
        match bits {
            8 => Some(RegA::A8),
            16 => Some(RegA::A16),
            32 => Some(RegA::A32),
            64 => Some(RegA::A64),
            128 => Some(RegA::A128),
            256 => Some(RegA::A256),
            512 => Some(RegA::A512),
            1024 => Some(RegA::A1024),
            _ => None,
        }
    }

    /// The register encoded by a three-bit index.
    pub fn from_u3(val: u8) -> (r: Self)
        requires
            val < 8,
        ensures
            r.spec_index() == val,
    {
        match val {
            0 => RegA::A8,
            1 => RegA::A16,
            2 => RegA::A32,
            3 => RegA::A64,
            4 => RegA::A128,
            5 => RegA::A256,
            6 => RegA::A512,
            _ => RegA::A1024,
        }
    }

    /// The three-bit index of the register.
    pub fn to_u3(self) -> (r: u8)
        ensures
            r == self.spec_index(),
            r < 8,
    {
        match self {
            RegA::A8 => 0,
            RegA::A16 => 1,
            RegA::A32 => 2,
            RegA::A64 => 3,
            RegA::A128 => 4,
            RegA::A256 => 5,
            RegA::A512 => 6,
            RegA::A1024 => 7,
        }
    }

    /// The register of an `A8`/`A16` pair.
    pub fn from_a2(reg: RegA2) -> (r: Self)
        ensures
            r.spec_bytes() == reg.spec_bytes(),
    {
        match reg {
            RegA2::A8 => RegA::A8,
            RegA2::A16 => RegA::A16,
        }
    }
}

impl Default for RegA {
    fn default() -> (r: Self)
        ensures
            r == RegA::A64,
    {
        RegA::A64
    }
}

/// Registers `A8` and `A16`.
#[derive(Copy, Clone, PartialEq, Eq, PartialOrd, Ord, Hash, Debug, Structural)]
pub enum RegA2 {
    A8,
    A16,
}

impl RegA2 {
    /// The width of the register, in bytes.
    pub open spec fn spec_bytes(self) -> u16 {
        match self {
            RegA2::A8 => 1,
            RegA2::A16 => 2,
        }
    }

    /// A short description of the family.
    pub fn description() -> (r: &'static str)
        ensures
            r@ == "A8 or A16 register"@,
    {
        "A8 or A16 register"
    }

    /// The width of the register, in bytes.
    pub fn bytes(&self) -> (r: u16)
        ensures
            r == self.spec_bytes(),
    {
        match self {
            RegA2::A8 => 1,
            RegA2::A16 => 2,
        }
    }

    /// The register of a given width in bits; `None` for a width that no register has.
    pub fn with(bits: u16) -> (r: Option<Self>)
        ensures
            r.is_some() <==> (bits == 8 || bits == 16),
            r.is_some() ==> r.unwrap().spec_bytes() * 8 == bits,
    {
        match bits {
            8 => Some(RegA2::A8),
            16 => Some(RegA2::A16),
            _ => None,
        }
    }

    /// The register encoded by a one-bit index.
    pub fn from_u1(val: u8) -> (r: Self)
        requires
            val < 2,
        ensures
            r == (if val == 0 { RegA2::A8 } else { RegA2::A16 }),
    {
        if val == 0 {
            RegA2::A8
        } else {
            RegA2::A16
        }
    }

    /// The `A8` or `A16` register in the `A` family, if it is one of them.
    pub fn from_reg_a(reg: RegA) -> (r: Option<Self>)
        ensures
            r.is_some() <==> (reg == RegA::A8 || reg == RegA::A16),
            r.is_some() ==> r.unwrap().spec_bytes() == reg.spec_bytes(),
    {
        match reg {
            RegA::A8 => Some(RegA2::A8),
            RegA::A16 => Some(RegA2::A16),
            _ => None,
        }
    }
}

impl Default for RegA2 {
    fn default() -> (r: Self)
        ensures
            r == RegA2::A8,
    {
        RegA2::A8
    }
}

/// Registers of the `F` family: floating-point numbers from 16 to 512 bits.
#[derive(Copy, Clone, PartialEq, Eq, PartialOrd, Ord, Hash, Debug, Structural)]
pub enum RegF {
    F16B,
    F16,
    F32,
    F64,
    F80,
    F128,
    F256,
    F512,
}

impl RegF {
    /// The register of a given width in bits, if there is one (of the 16-bit ones, `F16B` when
    /// `use_bfloat16` is set).
    pub open spec fn spec_with(bits: u16, use_bfloat16: bool) -> Option<Self> {
        match bits {
            16 => Some(if use_bfloat16 { RegF::F16B } else { RegF::F16 }),
            32 => Some(RegF::F32),
            64 => Some(RegF::F64),
            80 => Some(RegF::F80),
            128 => Some(RegF::F128),
            256 => Some(RegF::F256),
            512 => Some(RegF::F512),
            _ => None,
        }
    }

    /// The width of the register, in bytes.
    pub open spec fn spec_bytes(self) -> u16 {
        match self {
            RegF::F16B => 2,
            RegF::F16 => 2,
            RegF::F32 => 4,
            RegF::F64 => 8,
            RegF::F80 => 10,
            RegF::F128 => 16,
            RegF::F256 => 32,
            RegF::F512 => 64,
        }
    }

    /// The index of the register within its family, as encoded in three bits.
    pub open spec fn spec_index(self) -> u8 {
        match self {
            RegF::F16B => 0,
            RegF::F16 => 1,
            RegF::F32 => 2,
            RegF::F64 => 3,
            RegF::F80 => 4,
            RegF::F128 => 5,
            RegF::F256 => 6,
            RegF::F512 => 7,
        }
    }

    /// A short description of the family.
    pub fn description() -> (r: &'static str)
        ensures
            r@ == "F register"@,
    {
        "F register"
    }

    /// The width of the register, in bytes.
    pub fn bytes(&self) -> (r: u16)
        ensures
            r == self.spec_bytes(),
    {
        match self {
            RegF::F16B => 2,
            RegF::F16 => 2,
            RegF::F32 => 4,
            RegF::F64 => 8,
            RegF::F80 => 10,
            RegF::F128 => 16,
            RegF::F256 => 32,
            RegF::F512 => 64,
        }
    }

    /// The register of a given width in bits; of the two 16-bit ones, `F16B` (bfloat16) when
    /// `use_bfloat16` is set. `None` for a width that no register has.
    pub fn with(bits: u16, use_bfloat16: bool) -> (r: Option<Self>)
        ensures
            r == Self::spec_with(bits, use_bfloat16),
            r.is_some() <==> (bits == 16 || bits == 32 || bits == 64 || bits == 80 || bits == 128
                || bits == 256 || bits == 512),
            r.is_some() ==> r.unwrap().spec_bytes() * 8 == bits,
            bits == 16 ==> r == Some(if use_bfloat16 { RegF::F16B } else { RegF::F16 }),
    {
        match bits {
            16 => if use_bfloat16 {
                Some(RegF::F16B)
            } else {
                Some(RegF::F16)
            },
            32 => Some(RegF::F32),
            64 => Some(RegF::F64),
            80 => Some(RegF::F80),
            128 => Some(RegF::F128),
            256 => Some(RegF::F256),
            512 => Some(RegF::F512),
            _ => None,
        }
    }

    /// The register encoded by a three-bit index.
    pub fn from_u3(val: u8) -> (r: Self)
        requires
            val < 8,
        ensures
            r.spec_index() == val,
    {
        match val {
            0 => RegF::F16B,
            1 => RegF::F16,
            2 => RegF::F32,
            3 => RegF::F64,
            4 => RegF::F80,
            5 => RegF::F128,
            6 => RegF::F256,
            _ => RegF::F512,
        }
    }

    /// The three-bit index of the register.
    pub fn to_u3(self) -> (r: u8)
        ensures
            r == self.spec_index(),
            r < 8,
    {
        match self {
            RegF::F16B => 0,
            RegF::F16 => 1,
            RegF::F32 => 2,
            RegF::F64 => 3,
            RegF::F80 => 4,
            RegF::F128 => 5,
            RegF::F256 => 6,
            RegF::F512 => 7,
        }
    }
}

impl Default for RegF {
    fn default() -> (r: Self)
        ensures
            r == RegF::F64,
    {
        RegF::F64
    }
}

/// Registers of the `R` family: non-arithmetic registers from 128 to 8192 bits.
#[derive(Copy, Clone, PartialEq, Eq, PartialOrd, Ord, Hash, Debug, Structural)]
pub enum RegR {
    R128,
    R160,
    R256,
    R512,
    R1024,
    R2048,
    R4096,
    R8192,
}

impl RegR {
    /// The register of a given width in bits, if there is one.
    pub open spec fn spec_with(bits: u16) -> Option<Self> {
        match bits {
            128 => Some(RegR::R128),
            160 => Some(RegR::R160),
            256 => Some(RegR::R256),
            512 => Some(RegR::R512),
            1024 => Some(RegR::R1024),
            2048 => Some(RegR::R2048),
            4096 => Some(RegR::R4096),
            8192 => Some(RegR::R8192),
            _ => None,
        }
    }

    /// The width of the register, in bytes.
    pub open spec fn spec_bytes(self) -> u16 {
        match self {
            RegR::R128 => 16,
            RegR::R160 => 20,
            RegR::R256 => 32,
            RegR::R512 => 64,
            RegR::R1024 => 128,
            RegR::R2048 => 256,
            RegR::R4096 => 512,
            RegR::R8192 => 1024,
        }
    }

    /// The index of the register within its family, as encoded in three bits.
    pub open spec fn spec_index(self) -> u8 {
        match self {
            RegR::R128 => 0,
            RegR::R160 => 1,
            RegR::R256 => 2,
            RegR::R512 => 3,
            RegR::R1024 => 4,
            RegR::R2048 => 5,
            RegR::R4096 => 6,
            RegR::R8192 => 7,
        }
    }

    /// A short description of the family.
    pub fn description() -> (r: &'static str)
        ensures
            r@ == "R register"@,
    {
        "R register"
    }

    /// The width of the register, in bytes.
    pub fn bytes(&self) -> (r: u16)
        ensures
            r == self.spec_bytes(),
    {
        match self {
            RegR::R128 => 16,
            RegR::R160 => 20,
            RegR::R256 => 32,
            RegR::R512 => 64,
            RegR::R1024 => 128,
            RegR::R2048 => 256,
            RegR::R4096 => 512,
            RegR::R8192 => 1024,
        }
    }

    /// The register of a given width in bits; `None` for a width that no register has.
    pub fn with(bits: u16) -> (r: Option<Self>)
        ensures
            r == Self::spec_with(bits),
            r.is_some() <==> (bits == 128 || bits == 160 || bits == 256 || bits == 512 || bits == 1024
                || bits == 2048 || bits == 4096 || bits == 8192),
            r.is_some() ==> r.unwrap().spec_bytes() * 8 == bits,
    {
        match bits {
            128 => Some(RegR::R128),
            160 => Some(RegR::R160),
            256 => Some(RegR::R256),
            512 => Some(RegR::R512),
            1024 => Some(RegR::R1024),
            2048 => Some(RegR::R2048),
            4096 => Some(RegR::R4096),
            8192 => Some(RegR::R8192),
            _ => None,
        }
    }

    /// The register encoded by a three-bit index.
    pub fn from_u3(val: u8) -> (r: Self)
        requires
            val < 8,
        ensures
            r.spec_index() == val,
    {
        match val {
            0 => RegR::R128,
            1 => RegR::R160,
            2 => RegR::R256,
            3 => RegR::R512,
            4 => RegR::R1024,
            5 => RegR::R2048,
            6 => RegR::R4096,
            _ => RegR::R8192,
        }
    }

    /// The three-bit index of the register.
    pub fn to_u3(self) -> (r: u8)
        ensures
            r == self.spec_index(),
            r < 8,
    {
        match self {
            RegR::R128 => 0,
            RegR::R160 => 1,
            RegR::R256 => 2,
            RegR::R512 => 3,
            RegR::R1024 => 4,
            RegR::R2048 => 5,
            RegR::R4096 => 6,
            RegR::R8192 => 7,
        }
    }
}

impl Default for RegR {
    fn default() -> (r: Self)
        ensures
            r == RegR::R256,
    {
        RegR::R256
    }
}

/// Any register: of the `A`, `F` or `R` family, or the string register `S`.
#[derive(Copy, Clone, PartialEq, Eq, PartialOrd, Ord, Hash, Debug, Structural)]
pub enum RegAll {
    A(RegA),
    F(RegF),
    R(RegR),
    S,
}

impl Default for RegAll {
    fn default() -> (r: Self)
        ensures
            r == RegAll::A(RegA::A64),
    {
        RegAll::A(RegA::A64)
    }
}

impl RegAll {
    /// The register, if it is of the `A` family.
    pub fn reg_a(self) -> (r: Option<RegA>)
        ensures
            r == (match self {
                RegAll::A(a) => Some(a),
                _ => None,
            }),
    {
        match self {
            RegAll::A(a) => Some(a),
            _ => None,
        }
    }

    /// The register, if it is of the `F` family.
    pub fn reg_f(self) -> (r: Option<RegF>)
        ensures
            r == (match self {
                RegAll::F(f) => Some(f),
                _ => None,
            }),
    {
        match self {
            RegAll::F(f) => Some(f),
            _ => None,
        }
    }

    /// The register, if it is of the `R` family.
    pub fn reg_r(self) -> (r: Option<RegR>)
        ensures
            r == (match self {
                RegAll::R(x) => Some(x),
                _ => None,
            }),
    {
        match self {
            RegAll::R(x) => Some(x),
            _ => None,
        }
    }

    /// The description of the family of the register.
    pub fn family_name(self) -> (r: &'static str)
        ensures
            r@ == (match self {
                RegAll::A(_) => "A register"@,
                RegAll::F(_) => "F register"@,
                RegAll::R(_) => "R register"@,
                RegAll::S => "S register"@,
            }),
    {
        match self {
            RegAll::A(_) => RegA::description(),
            RegAll::F(_) => RegF::description(),
            RegAll::R(_) => RegR::description(),
            RegAll::S => "S register",
        }
    }

    /// A short description of the registers.
    pub fn description() -> (r: &'static str)
        ensures
            r@ == "A, F, R or S register"@,
    {
        "A, F, R or S register"
    }
}

/// A register of the `A`, `F` or `R` family.
#[derive(Copy, Clone, PartialEq, Eq, PartialOrd, Ord, Hash, Debug, Structural)]
pub enum RegAFR {
    A(RegA),
    F(RegF),
    R(RegR),
}

impl Default for RegAFR {
    fn default() -> (r: Self)
        ensures
            r == RegAFR::A(RegA::A64),
    {
        RegAFR::A(RegA::A64)
    }
}

impl RegAFR {
    /// The width of the register, in bytes.
    pub fn bytes(&self) -> (r: u16)
        ensures
            r == (match *self {
                RegAFR::A(a) => a.spec_bytes(),
                RegAFR::F(f) => f.spec_bytes(),
                RegAFR::R(x) => x.spec_bytes(),
            }),
    {
        match self {
            RegAFR::A(a) => a.bytes(),
            RegAFR::F(f) => f.bytes(),
            RegAFR::R(x) => x.bytes(),
        }
    }

    /// The register, if it is of the `A` family.
    pub fn reg_a(self) -> (r: Option<RegA>)
        ensures
            r == (match self {
                RegAFR::A(a) => Some(a),
                _ => None,
            }),
    {
        match self {
            RegAFR::A(a) => Some(a),
            _ => None,
        }
    }

    /// The register, if it is of the `F` family.
    pub fn reg_f(self) -> (r: Option<RegF>)
        ensures
            r == (match self {
                RegAFR::F(f) => Some(f),
                _ => None,
            }),
    {
        match self {
            RegAFR::F(f) => Some(f),
            _ => None,
        }
    }

    /// The register, if it is of the `R` family.
    pub fn reg_r(self) -> (r: Option<RegR>)
        ensures
            r == (match self {
                RegAFR::R(x) => Some(x),
                _ => None,
            }),
    {
        match self {
            RegAFR::R(x) => Some(x),
            _ => None,
        }
    }

    /// The register as one of any family.
    pub fn into_all(self) -> (r: RegAll)
        ensures
            r == (match self {
                RegAFR::A(a) => RegAll::A(a),
                RegAFR::F(f) => RegAll::F(f),
                RegAFR::R(x) => RegAll::R(x),
            }),
    {
        match self {
            RegAFR::A(a) => RegAll::A(a),
            RegAFR::F(f) => RegAll::F(f),
            RegAFR::R(x) => RegAll::R(x),
        }
    }

    /// The register, if it is of the `A`, `F` or `R` family.
    pub fn from_all(reg: RegAll) -> (r: Option<Self>)
        ensures
            r == (match reg {
                RegAll::A(a) => Some(RegAFR::A(a)),
                RegAll::F(f) => Some(RegAFR::F(f)),
                RegAll::R(x) => Some(RegAFR::R(x)),
                RegAll::S => None,
            }),
    {
        match reg {
            RegAll::A(a) => Some(RegAFR::A(a)),
            RegAll::F(f) => Some(RegAFR::F(f)),
            RegAll::R(x) => Some(RegAFR::R(x)),
            RegAll::S => None,
        }
    }
}

/// A register of the `A` or `F` family.
#[derive(Copy, Clone, PartialEq, Eq, PartialOrd, Ord, Hash, Debug, Structural)]
pub enum RegAF {
    A(RegA),
    F(RegF),
}

impl Default for RegAF {
    fn default() -> (r: Self)
        ensures
            r == RegAF::A(RegA::A64),
    {
        RegAF::A(RegA::A64)
    }
}

impl RegAF {
    /// The four-bit code of the register: its index, plus 8 in the `F` family.
    pub open spec fn spec_code(self) -> u8 {
        match self {
            RegAF::A(a) => a.spec_index(),
            RegAF::F(f) => (f.spec_index() + 8) as u8,
        }
    }

    /// The width of the register, in bytes.
    pub fn bytes(&self) -> (r: u16)
        ensures
            r == (match *self {
                RegAF::A(a) => a.spec_bytes(),
                RegAF::F(f) => f.spec_bytes(),
            }),
    {
        match self {
            RegAF::A(a) => a.bytes(),
            RegAF::F(f) => f.bytes(),
        }
    }

    /// The register, if it is of the `A` family.
    pub fn reg_a(self) -> (r: Option<RegA>)
        ensures
            r == (match self {
                RegAF::A(a) => Some(a),
                RegAF::F(_) => None,
            }),
    {
        match self {
            RegAF::A(a) => Some(a),
            RegAF::F(_) => None,
        }
    }

    /// The register, if it is of the `F` family.
    pub fn reg_f(self) -> (r: Option<RegF>)
        ensures
            r == (match self {
                RegAF::A(_) => None,
                RegAF::F(f) => Some(f),
            }),
    {
        match self {
            RegAF::A(_) => None,
            RegAF::F(f) => Some(f),
        }
    }

    /// The register as one of any family.
    pub fn into_all(self) -> (r: RegAll)
        ensures
            r == (match self {
                RegAF::A(a) => RegAll::A(a),
                RegAF::F(f) => RegAll::F(f),
            }),
    {
        match self {
            RegAF::A(a) => RegAll::A(a),
            RegAF::F(f) => RegAll::F(f),
        }
    }

    /// The register, if it is of the `A` or `F` family.
    pub fn from_all(reg: RegAll) -> (r: Option<Self>)
        ensures
            r == (match reg {
                RegAll::A(a) => Some(RegAF::A(a)),
                RegAll::F(f) => Some(RegAF::F(f)),
                _ => None,
            }),
    {
        match reg {
            RegAll::A(a) => Some(RegAF::A(a)),
            RegAll::F(f) => Some(RegAF::F(f)),
            _ => None,
        }
    }

    /// The four-bit code of the register.
    pub fn to_u4(self) -> (r: u8)
        ensures
            r == self.spec_code(),
            r < 16,
    {
        match self {
            RegAF::A(a) => a.to_u3(),
            RegAF::F(f) => f.to_u3() + 8,
        }
    }

    /// The register of a four-bit code.
    pub fn from_u4(val: u8) -> (r: Self)
        requires
            val < 16,
        ensures
            r.spec_code() == val,
    {
        if val < 8 {
            RegAF::A(RegA::from_u3(val))
        } else {
            RegAF::F(RegF::from_u3(val - 8))
        }
    }
}

/// A register of the `A` or `R` family.
#[derive(Copy, Clone, PartialEq, Eq, PartialOrd, Ord, Hash, Debug, Structural)]
pub enum RegAR {
    A(RegA),
    R(RegR),
}

impl Default for RegAR {
    fn default() -> (r: Self)
        ensures
            r == RegAR::A(RegA::A64),
    {
        RegAR::A(RegA::A64)
    }
}

impl RegAR {
    /// The four-bit code of the register: its index, plus 8 in the `R` family.
    pub open spec fn spec_code(self) -> u8 {
        match self {
            RegAR::A(a) => a.spec_index(),
            RegAR::R(x) => (x.spec_index() + 8) as u8,
        }
    }

    /// The register of a block (0 for `A`, 1 for `R`) and a three-bit index within it.
    pub fn from(block: u8, reg: u8) -> (r: Self)
        requires
            block < 2,
            reg < 8,
        ensures
            r.spec_code() == block * 8 + reg,
    {
        if block == 0 {
            RegAR::A(RegA::from_u3(reg))
        } else {
            RegAR::R(RegR::from_u3(reg))
        }
    }

    /// The width of the register, in bytes.
    pub fn bytes(&self) -> (r: u16)
        ensures
            r == (match *self {
                RegAR::A(a) => a.spec_bytes(),
                RegAR::R(x) => x.spec_bytes(),
            }),
    {
        match self {
            RegAR::A(a) => a.bytes(),
            RegAR::R(x) => x.bytes(),
        }
    }

    /// The register, if it is of the `A` family.
    pub fn reg_a(self) -> (r: Option<RegA>)
        ensures
            r == (match self {
                RegAR::A(a) => Some(a),
                RegAR::R(_) => None,
            }),
    {
        match self {
            RegAR::A(a) => Some(a),
            RegAR::R(_) => None,
        }
    }

    /// The register, if it is of the `R` family.
    pub fn reg_r(self) -> (r: Option<RegR>)
        ensures
            r == (match self {
                RegAR::A(_) => None,
                RegAR::R(x) => Some(x),
            }),
    {
        match self {
            RegAR::A(_) => None,
            RegAR::R(x) => Some(x),
        }
    }

    /// The register as one of any family.
    pub fn into_all(self) -> (r: RegAll)
        ensures
            r == (match self {
                RegAR::A(a) => RegAll::A(a),
                RegAR::R(x) => RegAll::R(x),
            }),
    {
        match self {
            RegAR::A(a) => RegAll::A(a),
            RegAR::R(x) => RegAll::R(x),
        }
    }

    /// The register, if it is of the `A` or `R` family.
    pub fn from_all(reg: RegAll) -> (r: Option<Self>)
        ensures
            r == (match reg {
                RegAll::A(a) => Some(RegAR::A(a)),
                RegAll::R(x) => Some(RegAR::R(x)),
                _ => None,
            }),
    {
        match reg {
            RegAll::A(a) => Some(RegAR::A(a)),
            RegAll::R(x) => Some(RegAR::R(x)),
            _ => None,
        }
    }

    /// The four-bit code of the register.
    pub fn to_u4(self) -> (r: u8)
        ensures
            r == self.spec_code(),
            r < 16,
    {
        match self {
            RegAR::A(a) => a.to_u3(),
            RegAR::R(x) => x.to_u3() + 8,
        }
    }
}

/// A block of registers: `A` or `R`.
#[derive(Copy, Clone, PartialEq, Eq, PartialOrd, Ord, Hash, Debug, Structural)]
pub enum RegBlockAR {
    A,
    R,
}

impl Default for RegBlockAR {
    fn default() -> (r: Self)
        ensures
            r == RegBlockAR::A,
    {
        RegBlockAR::A
    }
}

impl RegBlockAR {
    /// The block of a register, if it is of the `A` or `R` family.
    pub fn of(reg: RegAll) -> (r: Option<Self>)
        ensures
            r == (match reg {
                RegAll::A(_) => Some(RegBlockAR::A),
                RegAll::R(_) => Some(RegBlockAR::R),
                _ => None,
            }),
    {
        match reg {
            RegAll::A(_) => Some(RegBlockAR::A),
            RegAll::R(_) => Some(RegBlockAR::R),
            _ => None,
        }
    }

    /// The register of the block with a given width in bits, if there is one.
    pub fn into_reg(self, bits: u16) -> (r: Option<RegAR>)
        ensures
            r == (match self {
                RegBlockAR::A => match RegA::spec_with(bits) {
                    Some(a) => Some(RegAR::A(a)),
                    None => None,
                },
                RegBlockAR::R => match RegR::spec_with(bits) {
                    Some(x) => Some(RegAR::R(x)),
                    None => None,
                },
            }),
    {
        match self {
            RegBlockAR::A => match RegA::with(bits) {
                Some(a) => Some(RegAR::A(a)),
                None => None,
            },
            RegBlockAR::R => match RegR::with(bits) {
                Some(x) => Some(RegAR::R(x)),
                None => None,
            },
        }
    }
}

/// A block of registers: `A`, `F` or `R`.
#[derive(Copy, Clone, PartialEq, Eq, PartialOrd, Ord, Hash, Debug, Structural)]
pub enum RegBlockAFR {
    A,
    F,
    R,
}

impl Default for RegBlockAFR {
    fn default() -> (r: Self)
        ensures
            r == RegBlockAFR::A,
    {
        RegBlockAFR::A
    }
}

impl RegBlockAFR {
    /// The block of a register, if it is of the `A`, `F` or `R` family.
    pub fn of(reg: RegAll) -> (r: Option<Self>)
        ensures
            r == (match reg {
                RegAll::A(_) => Some(RegBlockAFR::A),
                RegAll::F(_) => Some(RegBlockAFR::F),
                RegAll::R(_) => Some(RegBlockAFR::R),
                RegAll::S => None,
            }),
    {
        match reg {
            RegAll::A(_) => Some(RegBlockAFR::A),
            RegAll::F(_) => Some(RegBlockAFR::F),
            RegAll::R(_) => Some(RegBlockAFR::R),
            RegAll::S => None,
        }
    }

    /// The register of the block with a given width in bits, if there is one (of the 16-bit
    /// float registers, the IEEE one).
    pub fn into_reg(self, bits: u16) -> (r: Option<RegAFR>)
        ensures
            match self {
                RegBlockAFR::A => r == (match RegA::spec_with(bits) {
                    Some(a) => Some(RegAFR::A(a)),
                    None => None,
                }),
                RegBlockAFR::F => r == (match RegF::spec_with(bits, false) {
                    Some(f) => Some(RegAFR::F(f)),
                    None => None,
                }),
                RegBlockAFR::R => r == (match RegR::spec_with(bits) {
                    Some(x) => Some(RegAFR::R(x)),
                    None => None,
                }),
            },
    {
        match self {
            RegBlockAFR::A => match RegA::with(bits) {
                Some(a) => Some(RegAFR::A(a)),
                None => None,
            },
            RegBlockAFR::F => match RegF::with(bits, false) {
                Some(f) => Some(RegAFR::F(f)),
                None => None,
            },
            RegBlockAFR::R => match RegR::with(bits) {
                Some(x) => Some(RegAFR::R(x)),
                None => None,
            },
        }
    }
}

/// A block of registers: `A`, `F`, `R` or `S`.
#[derive(Copy, Clone, PartialEq, Eq, PartialOrd, Ord, Hash, Debug, Structural)]
pub enum RegBlock {
    A,
    F,
    R,
    S,
}

impl Default for RegBlock {
    fn default() -> (r: Self)
        ensures
            r == RegBlock::A,
    {
        RegBlock::A
    }
}

impl RegBlock {
    /// The block of a register.
    pub fn of(reg: RegAll) -> (r: Self)
        ensures
            r == (match reg {
                RegAll::A(_) => RegBlock::A,
                RegAll::F(_) => RegBlock::F,
                RegAll::R(_) => RegBlock::R,
                RegAll::S => RegBlock::S,
            }),
    {
        match reg {
            RegAll::A(_) => RegBlock::A,
            RegAll::F(_) => RegBlock::F,
            RegAll::R(_) => RegBlock::R,
            RegAll::S => RegBlock::S,
        }
    }
}

impl NumericRegister for RegA {
    fn bytes(&self) -> u16 {
        RegA::bytes(self)
    }
}

impl NumericRegister for RegA2 {
    fn bytes(&self) -> u16 {
        RegA2::bytes(self)
    }
}

impl NumericRegister for RegF {
    fn bytes(&self) -> u16 {
        RegF::bytes(self)
    }
}

impl NumericRegister for RegR {
    fn bytes(&self) -> u16 {
        RegR::bytes(self)
    }
}

impl NumericRegister for RegAFR {
    fn bytes(&self) -> u16 {
        RegAFR::bytes(self)
    }
}

impl NumericRegister for RegAF {
    fn bytes(&self) -> u16 {
        RegAF::bytes(self)
    }
}

impl NumericRegister for RegAR {
    fn bytes(&self) -> u16 {
        RegAR::bytes(self)
    }
}

} // verus!
