//! Bit fields of an instruction word: extraction and packing.

use vstd::prelude::*;

verus! {

/// The `mask`-wide field of `w` that starts at bit `lo`.
pub open spec fn field(w: u32, lo: u32, mask: u32) -> u32 {
    (w >> lo) & mask
}

/// `w` with the field at bit `lo` replaced by `v`, cut down to the field's width.
pub open spec fn with_field(w: u32, lo: u32, mask: u32, v: u32) -> u32 {
    (w & !(mask << lo)) | ((v & mask) << lo)
}

pub proof fn lemma_field_bound(w: u32, lo: u32, mask: u32)
    ensures
        field(w, lo, mask) <= mask,
{
    assert((w >> lo) & mask <= mask) by (bit_vector);
}

/// Reads the field at bit `lo`.
pub fn get_field(w: u32, lo: u32, mask: u32) -> (r: u32)
    requires
        lo < 32,
    ensures
        r == field(w, lo, mask),
        r <= mask,
{
    proof {
        lemma_field_bound(w, lo, mask);
    }
    (w >> lo) & mask
}

/// Replaces the field at bit `lo`, keeping every other bit of `w`.
pub fn put_field(w: u32, lo: u32, mask: u32, v: u32) -> (r: u32)
    requires
        lo < 32,
    ensures
        r == with_field(w, lo, mask, v),
{
    (w & !(mask << lo)) | ((v & mask) << lo)
}

/// A register-register instruction word.
#[derive(Debug, Clone, Copy, PartialEq, Eq, Structural)]
pub struct RType(pub u32);

impl RType {
    /// The funct7 field, bits 31..25.
    pub fn funct7(&self) -> (r: u32)
        ensures
            r == field(self.0, 25, 0x7f),
            r <= 0x7f,
    {
        get_field(self.0, 25, 0x7f)
    }

    pub fn set_funct7(&mut self, v: u32)
        ensures
            final(self).0 == with_field(old(self).0, 25, 0x7f, v),
    {
        self.0 = put_field(self.0, 25, 0x7f, v);
    }

    /// The rs2 field, bits 24..20.
    pub fn rs2(&self) -> (r: u32)
        ensures
            r == field(self.0, 20, 0x1f),
            r <= 0x1f,
    {
        get_field(self.0, 20, 0x1f)
    }

    pub fn set_rs2(&mut self, v: u32)
        ensures
            final(self).0 == with_field(old(self).0, 20, 0x1f, v),
    {
        self.0 = put_field(self.0, 20, 0x1f, v);
    }

    /// The rs1 field, bits 19..15.
    pub fn rs1(&self) -> (r: u32)
        ensures
            r == field(self.0, 15, 0x1f),
            r <= 0x1f,
    {
        get_field(self.0, 15, 0x1f)
    }

    pub fn set_rs1(&mut self, v: u32)
        ensures
            final(self).0 == with_field(old(self).0, 15, 0x1f, v),
    {
        self.0 = put_field(self.0, 15, 0x1f, v);
    }

    /// The funct3 field, bits 14..12.
    pub fn funct3(&self) -> (r: u32)
        ensures
            r == field(self.0, 12, 0x7),
            r <= 0x7,
    {
        get_field(self.0, 12, 0x7)
    }

    pub fn set_funct3(&mut self, v: u32)
        ensures
            final(self).0 == with_field(old(self).0, 12, 0x7, v),
    {
        self.0 = put_field(self.0, 12, 0x7, v);
    }

    /// The rd field, bits 11..7.
    pub fn rd(&self) -> (r: u32)
        ensures
            r == field(self.0, 7, 0x1f),
            r <= 0x1f,
    {
        get_field(self.0, 7, 0x1f)
    }

    pub fn set_rd(&mut self, v: u32)
        ensures
            final(self).0 == with_field(old(self).0, 7, 0x1f, v),
    {
        self.0 = put_field(self.0, 7, 0x1f, v);
    }

    /// The opcode field, bits 6..0.
    pub fn opcode(&self) -> (r: u32)
        ensures
            r == field(self.0, 0, 0x7f),
            r <= 0x7f,
    {
        get_field(self.0, 0, 0x7f)
    }

    pub fn set_opcode(&mut self, v: u32)
        ensures
            final(self).0 == with_field(old(self).0, 0, 0x7f, v),
    {
        self.0 = put_field(self.0, 0, 0x7f, v);
    }
}

/// A register-immediate instruction word (arithmetic, loads, `jalr`).
#[derive(Debug, Clone, Copy, PartialEq, Eq, Structural)]
pub struct IType(pub u32);

impl IType {
    /// The imm field, bits 31..20.
    pub fn imm(&self) -> (r: u32)
        ensures
            r == field(self.0, 20, 0xfff),
            r <= 0xfff,
    {
        get_field(self.0, 20, 0xfff)
    }

    pub fn set_imm(&mut self, v: u32)
        ensures
            final(self).0 == with_field(old(self).0, 20, 0xfff, v),
    {
        self.0 = put_field(self.0, 20, 0xfff, v);
    }

    /// The rs1 field, bits 19..15.
    pub fn rs1(&self) -> (r: u32)
        ensures
            r == field(self.0, 15, 0x1f),
            r <= 0x1f,
    {
        get_field(self.0, 15, 0x1f)
    }

    pub fn set_rs1(&mut self, v: u32)
        ensures
            final(self).0 == with_field(old(self).0, 15, 0x1f, v),
    {
        self.0 = put_field(self.0, 15, 0x1f, v);
    }

    /// The funct3 field, bits 14..12.
    pub fn funct3(&self) -> (r: u32)
        ensures
            r == field(self.0, 12, 0x7),
            r <= 0x7,
    {
        get_field(self.0, 12, 0x7)
    }

    pub fn set_funct3(&mut self, v: u32)
        ensures
            final(self).0 == with_field(old(self).0, 12, 0x7, v),
    {
        self.0 = put_field(self.0, 12, 0x7, v);
    }

    /// The rd field, bits 11..7.
    pub fn rd(&self) -> (r: u32)
        ensures
            r == field(self.0, 7, 0x1f),
            r <= 0x1f,
    {
        get_field(self.0, 7, 0x1f)
    }

    pub fn set_rd(&mut self, v: u32)
        ensures
            final(self).0 == with_field(old(self).0, 7, 0x1f, v),
    {
        self.0 = put_field(self.0, 7, 0x1f, v);
    }

    /// The opcode field, bits 6..0.
    pub fn opcode(&self) -> (r: u32)
        ensures
            r == field(self.0, 0, 0x7f),
            r <= 0x7f,
    {
        get_field(self.0, 0, 0x7f)
    }

    pub fn set_opcode(&mut self, v: u32)
        ensures
            final(self).0 == with_field(old(self).0, 0, 0x7f, v),
    {
        self.0 = put_field(self.0, 0, 0x7f, v);
    }
}

/// A store instruction word.
#[derive(Debug, Clone, Copy, PartialEq, Eq, Structural)]
pub struct SType(pub u32);

impl SType {
    /// The imm11_5 field, bits 31..25.
    pub fn imm11_5(&self) -> (r: u32)
        ensures
            r == field(self.0, 25, 0x7f),
            r <= 0x7f,
    {
        get_field(self.0, 25, 0x7f)
    }

    pub fn set_imm11_5(&mut self, v: u32)
        ensures
            final(self).0 == with_field(old(self).0, 25, 0x7f, v),
    {
        self.0 = put_field(self.0, 25, 0x7f, v);
    }

    /// The rs2 field, bits 24..20.
    pub fn rs2(&self) -> (r: u32)
        ensures
            r == field(self.0, 20, 0x1f),
            r <= 0x1f,
    {
        get_field(self.0, 20, 0x1f)
    }

    pub fn set_rs2(&mut self, v: u32)
        ensures
            final(self).0 == with_field(old(self).0, 20, 0x1f, v),
    {
        self.0 = put_field(self.0, 20, 0x1f, v);
    }

    /// The rs1 field, bits 19..15.
    pub fn rs1(&self) -> (r: u32)
        ensures
            r == field(self.0, 15, 0x1f),
            r <= 0x1f,
    {
        get_field(self.0, 15, 0x1f)
    }

    pub fn set_rs1(&mut self, v: u32)
        ensures
            final(self).0 == with_field(old(self).0, 15, 0x1f, v),
    {
        self.0 = put_field(self.0, 15, 0x1f, v);
    }

    /// The funct3 field, bits 14..12.
    pub fn funct3(&self) -> (r: u32)
        ensures
            r == field(self.0, 12, 0x7),
            r <= 0x7,
    {
        get_field(self.0, 12, 0x7)
    }

    pub fn set_funct3(&mut self, v: u32)
        ensures
            final(self).0 == with_field(old(self).0, 12, 0x7, v),
    {
        self.0 = put_field(self.0, 12, 0x7, v);
    }

    /// The imm4_0 field, bits 11..7.
    pub fn imm4_0(&self) -> (r: u32)
        ensures
            r == field(self.0, 7, 0x1f),
            r <= 0x1f,
    {
        get_field(self.0, 7, 0x1f)
    }

    pub fn set_imm4_0(&mut self, v: u32)
        ensures
            final(self).0 == with_field(old(self).0, 7, 0x1f, v),
    {
        self.0 = put_field(self.0, 7, 0x1f, v);
    }

    /// The opcode field, bits 6..0.
    pub fn opcode(&self) -> (r: u32)
        ensures
            r == field(self.0, 0, 0x7f),
            r <= 0x7f,
    {
        get_field(self.0, 0, 0x7f)
    }

    pub fn set_opcode(&mut self, v: u32)
        ensures
            final(self).0 == with_field(old(self).0, 0, 0x7f, v),
    {
        self.0 = put_field(self.0, 0, 0x7f, v);
    }
}

/// A conditional branch instruction word.
#[derive(Debug, Clone, Copy, PartialEq, Eq, Structural)]
pub struct BType(pub u32);

impl BType {
    /// The imm12 field, bit 31.
    pub fn imm12(&self) -> (r: u32)
        ensures
            r == field(self.0, 31, 0x1),
            r <= 0x1,
    {
        get_field(self.0, 31, 0x1)
    }

    pub fn set_imm12(&mut self, v: u32)
        ensures
            final(self).0 == with_field(old(self).0, 31, 0x1, v),
    {
        self.0 = put_field(self.0, 31, 0x1, v);
    }

    /// The imm10_5 field, bits 30..25.
    pub fn imm10_5(&self) -> (r: u32)
        ensures
            r == field(self.0, 25, 0x3f),
            r <= 0x3f,
    {
        get_field(self.0, 25, 0x3f)
    }

    pub fn set_imm10_5(&mut self, v: u32)
        ensures
            final(self).0 == with_field(old(self).0, 25, 0x3f, v),
    {
        self.0 = put_field(self.0, 25, 0x3f, v);
    }

    /// The rs2 field, bits 24..20.
    pub fn rs2(&self) -> (r: u32)
        ensures
            r == field(self.0, 20, 0x1f),
            r <= 0x1f,
    {
        get_field(self.0, 20, 0x1f)
    }

    pub fn set_rs2(&mut self, v: u32)
        ensures
            final(self).0 == with_field(old(self).0, 20, 0x1f, v),
    {
        self.0 = put_field(self.0, 20, 0x1f, v);
    }

    /// The rs1 field, bits 19..15.
    pub fn rs1(&self) -> (r: u32)
        ensures
            r == field(self.0, 15, 0x1f),
            r <= 0x1f,
    {
        get_field(self.0, 15, 0x1f)
    }

    pub fn set_rs1(&mut self, v: u32)
        ensures
            final(self).0 == with_field(old(self).0, 15, 0x1f, v),
    {
        self.0 = put_field(self.0, 15, 0x1f, v);
    }

    /// The funct3 field, bits 14..12.
    pub fn funct3(&self) -> (r: u32)
        ensures
            r == field(self.0, 12, 0x7),
            r <= 0x7,
    {
        get_field(self.0, 12, 0x7)
    }

    pub fn set_funct3(&mut self, v: u32)
        ensures
            final(self).0 == with_field(old(self).0, 12, 0x7, v),
    {
        self.0 = put_field(self.0, 12, 0x7, v);
    }

    /// The imm4_1 field, bits 11..8.
    pub fn imm4_1(&self) -> (r: u32)
        ensures
            r == field(self.0, 8, 0xf),
            r <= 0xf,
    {
        get_field(self.0, 8, 0xf)
    }

    pub fn set_imm4_1(&mut self, v: u32)
        ensures
            final(self).0 == with_field(old(self).0, 8, 0xf, v),
    {
        self.0 = put_field(self.0, 8, 0xf, v);
    }

    /// The imm11 field, bit 7.
    pub fn imm11(&self) -> (r: u32)
        ensures
            r == field(self.0, 7, 0x1),
            r <= 0x1,
    {
        get_field(self.0, 7, 0x1)
    }

    pub fn set_imm11(&mut self, v: u32)
        ensures
            final(self).0 == with_field(old(self).0, 7, 0x1, v),
    {
        self.0 = put_field(self.0, 7, 0x1, v);
    }

    /// The opcode field, bits 6..0.
    pub fn opcode(&self) -> (r: u32)
        ensures
            r == field(self.0, 0, 0x7f),
            r <= 0x7f,
    {
        get_field(self.0, 0, 0x7f)
    }

    pub fn set_opcode(&mut self, v: u32)
        ensures
            final(self).0 == with_field(old(self).0, 0, 0x7f, v),
    {
        self.0 = put_field(self.0, 0, 0x7f, v);
    }
}

/// An upper-immediate instruction word (`lui`, `auipc`).
#[derive(Debug, Clone, Copy, PartialEq, Eq, Structural)]
pub struct UType(pub u32);

impl UType {
    /// The imm field, bits 31..12.
    pub fn imm(&self) -> (r: u32)
        ensures
            r == field(self.0, 12, 0xfffff),
            r <= 0xfffff,
    {
        get_field(self.0, 12, 0xfffff)
    }

    pub fn set_imm(&mut self, v: u32)
        ensures
            final(self).0 == with_field(old(self).0, 12, 0xfffff, v),
    {
        self.0 = put_field(self.0, 12, 0xfffff, v);
    }

    /// The rd field, bits 11..7.
    pub fn rd(&self) -> (r: u32)
        ensures
            r == field(self.0, 7, 0x1f),
            r <= 0x1f,
    {
        get_field(self.0, 7, 0x1f)
    }

    pub fn set_rd(&mut self, v: u32)
        ensures
            final(self).0 == with_field(old(self).0, 7, 0x1f, v),
    {
        self.0 = put_field(self.0, 7, 0x1f, v);
    }

    /// The opcode field, bits 6..0.
    pub fn opcode(&self) -> (r: u32)
        ensures
            r == field(self.0, 0, 0x7f),
            r <= 0x7f,
    {
        get_field(self.0, 0, 0x7f)
    }

    pub fn set_opcode(&mut self, v: u32)
        ensures
            final(self).0 == with_field(old(self).0, 0, 0x7f, v),
    {
        self.0 = put_field(self.0, 0, 0x7f, v);
    }
}

/// A jump-and-link instruction word.
#[derive(Debug, Clone, Copy, PartialEq, Eq, Structural)]
pub struct JType(pub u32);

impl JType {
    /// The imm20 field, bit 31.
    pub fn imm20(&self) -> (r: u32)
        ensures
            r == field(self.0, 31, 0x1),
            r <= 0x1,
    {
        get_field(self.0, 31, 0x1)
    }

    pub fn set_imm20(&mut self, v: u32)
        ensures
            final(self).0 == with_field(old(self).0, 31, 0x1, v),
    {
        self.0 = put_field(self.0, 31, 0x1, v);
    }

    /// The imm10_1 field, bits 30..21.
    pub fn imm10_1(&self) -> (r: u32)
        ensures
            r == field(self.0, 21, 0x3ff),
            r <= 0x3ff,
    {
        get_field(self.0, 21, 0x3ff)
    }

    pub fn set_imm10_1(&mut self, v: u32)
        ensures
            final(self).0 == with_field(old(self).0, 21, 0x3ff, v),
    {
        self.0 = put_field(self.0, 21, 0x3ff, v);
    }

    /// The imm11 field, bit 20.
    pub fn imm11(&self) -> (r: u32)
        ensures
            r == field(self.0, 20, 0x1),
            r <= 0x1,
    {
        get_field(self.0, 20, 0x1)
    }

    pub fn set_imm11(&mut self, v: u32)
        ensures
            final(self).0 == with_field(old(self).0, 20, 0x1, v),
    {
        self.0 = put_field(self.0, 20, 0x1, v);
    }

    /// The imm19_12 field, bits 19..12.
    pub fn imm19_12(&self) -> (r: u32)
        ensures
            r == field(self.0, 12, 0xff),
            r <= 0xff,
    {
        get_field(self.0, 12, 0xff)
    }

    pub fn set_imm19_12(&mut self, v: u32)
        ensures
            final(self).0 == with_field(old(self).0, 12, 0xff, v),
    {
        self.0 = put_field(self.0, 12, 0xff, v);
    }

    /// The rd field, bits 11..7.
    pub fn rd(&self) -> (r: u32)
        ensures
            r == field(self.0, 7, 0x1f),
            r <= 0x1f,
    {
        get_field(self.0, 7, 0x1f)
    }

    pub fn set_rd(&mut self, v: u32)
        ensures
            final(self).0 == with_field(old(self).0, 7, 0x1f, v),
    {
        self.0 = put_field(self.0, 7, 0x1f, v);
    }

    /// The opcode field, bits 6..0.
    pub fn opcode(&self) -> (r: u32)
        ensures
            r == field(self.0, 0, 0x7f),
            r <= 0x7f,
    {
        get_field(self.0, 0, 0x7f)
    }

    pub fn set_opcode(&mut self, v: u32)
        ensures
            final(self).0 == with_field(old(self).0, 0, 0x7f, v),
    {
        self.0 = put_field(self.0, 0, 0x7f, v);
    }
}

/// A control/status register or environment-call instruction word.
#[derive(Debug, Clone, Copy, PartialEq, Eq, Structural)]
pub struct CSRType(pub u32);

impl CSRType {
    /// The csr field, bits 31..20.
    pub fn csr(&self) -> (r: u32)
        ensures
            r == field(self.0, 20, 0xfff),
            r <= 0xfff,
    {
        get_field(self.0, 20, 0xfff)
    }

    pub fn set_csr(&mut self, v: u32)
        ensures
            final(self).0 == with_field(old(self).0, 20, 0xfff, v),
    {
        self.0 = put_field(self.0, 20, 0xfff, v);
    }

    /// The rs1 field, bits 19..15.
    pub fn rs1(&self) -> (r: u32)
        ensures
            r == field(self.0, 15, 0x1f),
            r <= 0x1f,
    {
        get_field(self.0, 15, 0x1f)
    }

    pub fn set_rs1(&mut self, v: u32)
        ensures
            final(self).0 == with_field(old(self).0, 15, 0x1f, v),
    {
        self.0 = put_field(self.0, 15, 0x1f, v);
    }

    /// The funct3 field, bits 14..12.
    pub fn funct3(&self) -> (r: u32)
        ensures
            r == field(self.0, 12, 0x7),
            r <= 0x7,
    {
        get_field(self.0, 12, 0x7)
    }

    pub fn set_funct3(&mut self, v: u32)
        ensures
            final(self).0 == with_field(old(self).0, 12, 0x7, v),
    {
        self.0 = put_field(self.0, 12, 0x7, v);
    }

    /// The rd field, bits 11..7.
    pub fn rd(&self) -> (r: u32)
        ensures
            r == field(self.0, 7, 0x1f),
            r <= 0x1f,
    {
        get_field(self.0, 7, 0x1f)
    }

    pub fn set_rd(&mut self, v: u32)
        ensures
            final(self).0 == with_field(old(self).0, 7, 0x1f, v),
    {
        self.0 = put_field(self.0, 7, 0x1f, v);
    }

    /// The opcode field, bits 6..0.
    pub fn opcode(&self) -> (r: u32)
        ensures
            r == field(self.0, 0, 0x7f),
            r <= 0x7f,
    {
        get_field(self.0, 0, 0x7f)
    }

    pub fn set_opcode(&mut self, v: u32)
        ensures
            final(self).0 == with_field(old(self).0, 0, 0x7f, v),
    {
        self.0 = put_field(self.0, 0, 0x7f, v);
    }
}

/// An instruction word tagged with its shape.
#[derive(Debug, Clone, Copy, PartialEq, Eq, Structural)]
pub enum Instruction {
    RType(RType),
    IType(IType),
    SType(SType),
    BType(BType),
    UType(UType),
    JType(JType),
    CSRType(CSRType),
}

impl Instruction {
    pub open spec fn spec_word(&self) -> u32 {
        match self {
            Instruction::RType(x) => x.0,
            Instruction::IType(x) => x.0,
            Instruction::SType(x) => x.0,
            Instruction::BType(x) => x.0,
            Instruction::UType(x) => x.0,
            Instruction::JType(x) => x.0,
            Instruction::CSRType(x) => x.0,
        }
    }

    /// The 32-bit word, whatever the shape.
    #[verifier::when_used_as_spec(spec_word)]
    pub fn word(&self) -> (r: u32)
        ensures
            r == self.spec_word(),
    {
        match self {
            Instruction::RType(x) => x.0,
            Instruction::IType(x) => x.0,
            Instruction::SType(x) => x.0,
            Instruction::BType(x) => x.0,
            Instruction::UType(x) => x.0,
            Instruction::JType(x) => x.0,
            Instruction::CSRType(x) => x.0,
        }
    }
}


// ----- layouts -----

/// The R-type layout, also that of S-type words: fields at bits 31..25, 24..20, 19..15, 14..12,
/// 11..7 and 6..0, packed into a zero word.
pub open spec fn r_layout(a: u32, b: u32, c: u32, d: u32, e: u32, f: u32) -> u32 {
    let w = with_field(0, 25, 0x7f, a);
    let w = with_field(w, 20, 0x1f, b);
    let w = with_field(w, 15, 0x1f, c);
    let w = with_field(w, 12, 0x7, d);
    let w = with_field(w, 7, 0x1f, e);
    with_field(w, 0, 0x7f, f)
}

/// The I-type layout, also that of CSR words: fields at bits 31..20, 19..15, 14..12, 11..7 and
/// 6..0.
pub open spec fn i_layout(a: u32, b: u32, c: u32, d: u32, e: u32) -> u32 {
    let w = with_field(0, 20, 0xfff, a);
    let w = with_field(w, 15, 0x1f, b);
    let w = with_field(w, 12, 0x7, c);
    let w = with_field(w, 7, 0x1f, d);
    with_field(w, 0, 0x7f, e)
}

/// The B-type layout: fields at bit 31, bits 30..25, 24..20, 19..15, 14..12, 11..8, bit 7 and
/// bits 6..0.
pub open spec fn b_layout(a: u32, b: u32, c: u32, d: u32, e: u32, f: u32, g: u32, h: u32) -> u32 {
    let w = with_field(0, 31, 0x1, a);
    let w = with_field(w, 25, 0x3f, b);
    let w = with_field(w, 20, 0x1f, c);
    let w = with_field(w, 15, 0x1f, d);
    let w = with_field(w, 12, 0x7, e);
    let w = with_field(w, 8, 0xf, f);
    let w = with_field(w, 7, 0x1, g);
    with_field(w, 0, 0x7f, h)
}

/// The U-type layout: fields at bits 31..12, 11..7 and 6..0.
pub open spec fn u_layout(a: u32, b: u32, c: u32) -> u32 {
    let w = with_field(0, 12, 0xfffff, a);
    let w = with_field(w, 7, 0x1f, b);
    with_field(w, 0, 0x7f, c)
}

/// The J-type layout: fields at bit 31, bits 30..21, bit 20, bits 19..12, 11..7 and 6..0.
pub open spec fn j_layout(a: u32, b: u32, c: u32, d: u32, e: u32, f: u32) -> u32 {
    let w = with_field(0, 31, 0x1, a);
    let w = with_field(w, 21, 0x3ff, b);
    let w = with_field(w, 20, 0x1, c);
    let w = with_field(w, 12, 0xff, d);
    let w = with_field(w, 7, 0x1f, e);
    with_field(w, 0, 0x7f, f)
}

/// Packing fields that fit their widths and reading them back gives them again; and every word
/// is the packing of its own fields.
pub proof fn lemma_r_layout(a: u32, b: u32, c: u32, d: u32, e: u32, f: u32, w: u32)
    by (bit_vector)
    ensures
        a <= 0x7f && b <= 0x1f && c <= 0x1f && d <= 0x7 && e <= 0x1f && f <= 0x7f ==> {
            let x = r_layout(a, b, c, d, e, f);
            &&& field(x, 25, 0x7f) == a
            &&& field(x, 20, 0x1f) == b
            &&& field(x, 15, 0x1f) == c
            &&& field(x, 12, 0x7) == d
            &&& field(x, 7, 0x1f) == e
            &&& field(x, 0, 0x7f) == f
        },
        r_layout(
            field(w, 25, 0x7f),
            field(w, 20, 0x1f),
            field(w, 15, 0x1f),
            field(w, 12, 0x7),
            field(w, 7, 0x1f),
            field(w, 0, 0x7f),
        ) == w,
{
}

/// As `lemma_r_layout`, for the I-type layout; the 12-bit field splits into a 5-bit low part
/// and a 7-bit high part.
pub proof fn lemma_i_layout(a: u32, b: u32, c: u32, d: u32, e: u32, w: u32)
    by (bit_vector)
    ensures
        a <= 0xfff && b <= 0x1f && c <= 0x7 && d <= 0x1f && e <= 0x7f ==> {
            let x = i_layout(a, b, c, d, e);
            &&& field(x, 20, 0xfff) == a
            &&& field(x, 20, 0x1f) == a % 32
            &&& field(x, 25, 0x7f) == a / 32
            &&& field(x, 15, 0x1f) == b
            &&& field(x, 12, 0x7) == c
            &&& field(x, 7, 0x1f) == d
            &&& field(x, 0, 0x7f) == e
        },
        i_layout(
            field(w, 20, 0xfff),
            field(w, 15, 0x1f),
            field(w, 12, 0x7),
            field(w, 7, 0x1f),
            field(w, 0, 0x7f),
        ) == w,
        field(w, 20, 0xfff) == field(w, 20, 0x1f) + field(w, 25, 0x7f) * 32,
{
}

/// As `lemma_r_layout`, for the B-type layout.
pub proof fn lemma_b_layout(a: u32, b: u32, c: u32, d: u32, e: u32, f: u32, g: u32, h: u32, w: u32)
    by (bit_vector)
    ensures
        a <= 1 && b <= 0x3f && c <= 0x1f && d <= 0x1f && e <= 0x7 && f <= 0xf && g <= 1 && h
            <= 0x7f ==> {
            let x = b_layout(a, b, c, d, e, f, g, h);
            &&& field(x, 31, 0x1) == a
            &&& field(x, 25, 0x3f) == b
            &&& field(x, 20, 0x1f) == c
            &&& field(x, 15, 0x1f) == d
            &&& field(x, 12, 0x7) == e
            &&& field(x, 8, 0xf) == f
            &&& field(x, 7, 0x1) == g
            &&& field(x, 0, 0x7f) == h
        },
        b_layout(
            field(w, 31, 0x1),
            field(w, 25, 0x3f),
            field(w, 20, 0x1f),
            field(w, 15, 0x1f),
            field(w, 12, 0x7),
            field(w, 8, 0xf),
            field(w, 7, 0x1),
            field(w, 0, 0x7f),
        ) == w,
{
}

/// As `lemma_r_layout`, for the U-type layout.
pub proof fn lemma_u_layout(a: u32, b: u32, c: u32, w: u32)
    by (bit_vector)
    ensures
        a <= 0xfffff && b <= 0x1f && c <= 0x7f ==> {
            let x = u_layout(a, b, c);
            &&& field(x, 12, 0xfffff) == a
            &&& field(x, 7, 0x1f) == b
            &&& field(x, 0, 0x7f) == c
        },
        u_layout(field(w, 12, 0xfffff), field(w, 7, 0x1f), field(w, 0, 0x7f)) == w,
{
}

/// As `lemma_r_layout`, for the J-type layout.
pub proof fn lemma_j_layout(a: u32, b: u32, c: u32, d: u32, e: u32, f: u32, w: u32)
    by (bit_vector)
    ensures
        a <= 1 && b <= 0x3ff && c <= 1 && d <= 0xff && e <= 0x1f && f <= 0x7f ==> {
            let x = j_layout(a, b, c, d, e, f);
            &&& field(x, 31, 0x1) == a
            &&& field(x, 21, 0x3ff) == b
            &&& field(x, 20, 0x1) == c
            &&& field(x, 12, 0xff) == d
            &&& field(x, 7, 0x1f) == e
            &&& field(x, 0, 0x7f) == f
        },
        j_layout(
            field(w, 31, 0x1),
            field(w, 21, 0x3ff),
            field(w, 20, 0x1),
            field(w, 12, 0xff),
            field(w, 7, 0x1f),
            field(w, 0, 0x7f),
        ) == w,
{
}


/// The B-type offset pieces of an even 13-bit number, and the number made of the pieces.
pub proof fn lemma_b_offset(a: u32, b: u32, f: u32, g: u32)
    by (bit_vector)
    requires
        a <= 1 && b <= 0x3f && f <= 0xf && g <= 1,
    ensures
        ({
            let s = (a * 0x1000 + g * 0x800 + b * 32 + f * 2) as u32;
            &&& s / 0x1000 == a
            &&& (s / 32) % 64 == b
            &&& (s / 2) % 16 == f
            &&& (s / 0x800) % 2 == g
        }),
{
}

/// The J-type offset pieces of an even 21-bit number, and the number made of the pieces.
pub proof fn lemma_j_offset(a: u32, b: u32, c: u32, d: u32)
    by (bit_vector)
    requires
        a <= 1 && b <= 0x3ff && c <= 1 && d <= 0xff,
    ensures
        ({
            let s = (a * 0x10_0000 + d * 0x1000 + c * 0x800 + b * 2) as u32;
            &&& s / 0x10_0000 == a
            &&& (s / 2) % 1024 == b
            &&& (s / 0x800) % 2 == c
            &&& (s / 0x1000) % 256 == d
        }),
{
}


/// An even 13-bit number is the sum of its B-type offset pieces.
pub proof fn lemma_b_pieces(raw: u32)
    by (bit_vector)
    requires
        raw < 0x2000,
        raw % 2 == 0,
    ensures
        ((raw / 0x1000) * 0x1000 + ((raw / 0x800) % 2) * 0x800 + ((raw / 32) % 64) * 32 + ((raw / 2)
            % 16) * 2) as u32 == raw,
{
}

/// An even 21-bit number is the sum of its J-type offset pieces.
pub proof fn lemma_j_pieces(raw: u32)
    by (bit_vector)
    requires
        raw < 0x20_0000,
        raw % 2 == 0,
    ensures
        ((raw / 0x10_0000) * 0x10_0000 + ((raw / 0x1000) % 256) * 0x1000 + ((raw / 0x800) % 2)
            * 0x800 + ((raw / 2) % 1024) * 2) as u32 == raw,
{
}

} // verus!
