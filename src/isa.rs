//! The supported instructions and the constants that the architecture fixes for each.

use vstd::prelude::*;

verus! {

/// One operation of the base integer instruction set.
#[derive(Debug, Clone, Copy, PartialEq, Eq, Structural)]
pub enum Mnemonic {
    Add,
    Sub,
    Sll,
    Slt,
    Sltu,
    Xor,
    Srl,
    Sra,
    Or,
    And,
    Addi,
    Slti,
    Sltiu,
    Xori,
    Ori,
    Andi,
    Slli,
    Srli,
    Srai,
    Lb,
    Lh,
    Lw,
    Lbu,
    Lhu,
    Jalr,
    Sb,
    Sh,
    Sw,
    Beq,
    Bne,
    Blt,
    Bge,
    Bltu,
    Bgeu,
    Lui,
    Auipc,
    Jal,
    Csrrw,
    Csrrs,
    Csrrc,
    Csrrwi,
    Csrrsi,
    Csrrci,
    Ecall,
    Ebreak,
}

/// How an instruction's operands are written and packed.
#[derive(Debug, Clone, Copy, PartialEq, Eq, Structural)]
pub enum Group {
    /// `rd, rs1, rs2`, R-type.
    Register,
    /// `rd, rs1, imm` with a 12-bit immediate, I-type.
    Immediate,
    /// `rd, rs1, shamt` with a 5-bit shift amount, I-type.
    Shift,
    /// `rd, imm(rs1)`, I-type.
    Load,
    /// `jalr rd, imm(rs1)`, I-type.
    JumpRegister,
    /// `rs2, imm(rs1)`, S-type.
    Store,
    /// `rs1, rs2, offset`, B-type.
    Branch,
    /// `rd, imm` with a 20-bit upper immediate, U-type.
    Upper,
    /// `jal rd, offset`, J-type.
    Jump,
    /// `rd, csr, rs1`.
    CsrRegister,
    /// `rd, csr, zimm` with a 5-bit immediate.
    CsrImmediate,
    /// `ecall` and `ebreak`, without operands.
    Environment,
}

impl Mnemonic {
    /// The lower-case name of the operation.
    pub open spec fn name(self) -> Seq<char> {
        match self {
            Mnemonic::Add => "add"@,
            Mnemonic::Sub => "sub"@,
            Mnemonic::Sll => "sll"@,
            Mnemonic::Slt => "slt"@,
            Mnemonic::Sltu => "sltu"@,
            Mnemonic::Xor => "xor"@,
            Mnemonic::Srl => "srl"@,
            Mnemonic::Sra => "sra"@,
            Mnemonic::Or => "or"@,
            Mnemonic::And => "and"@,
            Mnemonic::Addi => "addi"@,
            Mnemonic::Slti => "slti"@,
            Mnemonic::Sltiu => "sltiu"@,
            Mnemonic::Xori => "xori"@,
            Mnemonic::Ori => "ori"@,
            Mnemonic::Andi => "andi"@,
            Mnemonic::Slli => "slli"@,
            Mnemonic::Srli => "srli"@,
            Mnemonic::Srai => "srai"@,
            Mnemonic::Lb => "lb"@,
            Mnemonic::Lh => "lh"@,
            Mnemonic::Lw => "lw"@,
            Mnemonic::Lbu => "lbu"@,
            Mnemonic::Lhu => "lhu"@,
            Mnemonic::Jalr => "jalr"@,
            Mnemonic::Sb => "sb"@,
            Mnemonic::Sh => "sh"@,
            Mnemonic::Sw => "sw"@,
            Mnemonic::Beq => "beq"@,
            Mnemonic::Bne => "bne"@,
            Mnemonic::Blt => "blt"@,
            Mnemonic::Bge => "bge"@,
            Mnemonic::Bltu => "bltu"@,
            Mnemonic::Bgeu => "bgeu"@,
            Mnemonic::Lui => "lui"@,
            Mnemonic::Auipc => "auipc"@,
            Mnemonic::Jal => "jal"@,
            Mnemonic::Csrrw => "csrrw"@,
            Mnemonic::Csrrs => "csrrs"@,
            Mnemonic::Csrrc => "csrrc"@,
            Mnemonic::Csrrwi => "csrrwi"@,
            Mnemonic::Csrrsi => "csrrsi"@,
            Mnemonic::Csrrci => "csrrci"@,
            Mnemonic::Ecall => "ecall"@,
            Mnemonic::Ebreak => "ebreak"@,
        }
    }

    pub fn as_str(&self) -> (r: &'static str)
        ensures
            r@ == self.name(),
    {
        match self {
            Mnemonic::Add => "add",
            Mnemonic::Sub => "sub",
            Mnemonic::Sll => "sll",
            Mnemonic::Slt => "slt",
            Mnemonic::Sltu => "sltu",
            Mnemonic::Xor => "xor",
            Mnemonic::Srl => "srl",
            Mnemonic::Sra => "sra",
            Mnemonic::Or => "or",
            Mnemonic::And => "and",
            Mnemonic::Addi => "addi",
            Mnemonic::Slti => "slti",
            Mnemonic::Sltiu => "sltiu",
            Mnemonic::Xori => "xori",
            Mnemonic::Ori => "ori",
            Mnemonic::Andi => "andi",
            Mnemonic::Slli => "slli",
            Mnemonic::Srli => "srli",
            Mnemonic::Srai => "srai",
            Mnemonic::Lb => "lb",
            Mnemonic::Lh => "lh",
            Mnemonic::Lw => "lw",
            Mnemonic::Lbu => "lbu",
            Mnemonic::Lhu => "lhu",
            Mnemonic::Jalr => "jalr",
            Mnemonic::Sb => "sb",
            Mnemonic::Sh => "sh",
            Mnemonic::Sw => "sw",
            Mnemonic::Beq => "beq",
            Mnemonic::Bne => "bne",
            Mnemonic::Blt => "blt",
            Mnemonic::Bge => "bge",
            Mnemonic::Bltu => "bltu",
            Mnemonic::Bgeu => "bgeu",
            Mnemonic::Lui => "lui",
            Mnemonic::Auipc => "auipc",
            Mnemonic::Jal => "jal",
            Mnemonic::Csrrw => "csrrw",
            Mnemonic::Csrrs => "csrrs",
            Mnemonic::Csrrc => "csrrc",
            Mnemonic::Csrrwi => "csrrwi",
            Mnemonic::Csrrsi => "csrrsi",
            Mnemonic::Csrrci => "csrrci",
            Mnemonic::Ecall => "ecall",
            Mnemonic::Ebreak => "ebreak",
        }
    }

    pub open spec fn spec_group(&self) -> Group {
        match self {
            Mnemonic::Add => Group::Register,
            Mnemonic::Sub => Group::Register,
            Mnemonic::Sll => Group::Register,
            Mnemonic::Slt => Group::Register,
            Mnemonic::Sltu => Group::Register,
            Mnemonic::Xor => Group::Register,
            Mnemonic::Srl => Group::Register,
            Mnemonic::Sra => Group::Register,
            Mnemonic::Or => Group::Register,
            Mnemonic::And => Group::Register,
            Mnemonic::Addi => Group::Immediate,
            Mnemonic::Slti => Group::Immediate,
            Mnemonic::Sltiu => Group::Immediate,
            Mnemonic::Xori => Group::Immediate,
            Mnemonic::Ori => Group::Immediate,
            Mnemonic::Andi => Group::Immediate,
            Mnemonic::Slli => Group::Shift,
            Mnemonic::Srli => Group::Shift,
            Mnemonic::Srai => Group::Shift,
            Mnemonic::Lb => Group::Load,
            Mnemonic::Lh => Group::Load,
            Mnemonic::Lw => Group::Load,
            Mnemonic::Lbu => Group::Load,
            Mnemonic::Lhu => Group::Load,
            Mnemonic::Jalr => Group::JumpRegister,
            Mnemonic::Sb => Group::Store,
            Mnemonic::Sh => Group::Store,
            Mnemonic::Sw => Group::Store,
            Mnemonic::Beq => Group::Branch,
            Mnemonic::Bne => Group::Branch,
            Mnemonic::Blt => Group::Branch,
            Mnemonic::Bge => Group::Branch,
            Mnemonic::Bltu => Group::Branch,
            Mnemonic::Bgeu => Group::Branch,
            Mnemonic::Lui => Group::Upper,
            Mnemonic::Auipc => Group::Upper,
            Mnemonic::Jal => Group::Jump,
            Mnemonic::Csrrw => Group::CsrRegister,
            Mnemonic::Csrrs => Group::CsrRegister,
            Mnemonic::Csrrc => Group::CsrRegister,
            Mnemonic::Csrrwi => Group::CsrImmediate,
            Mnemonic::Csrrsi => Group::CsrImmediate,
            Mnemonic::Csrrci => Group::CsrImmediate,
            Mnemonic::Ecall => Group::Environment,
            Mnemonic::Ebreak => Group::Environment,
        }
    }

    #[verifier::when_used_as_spec(spec_group)]
    pub fn group(&self) -> (r: Group)
        ensures
            r == self.spec_group(),
    {
        match self {
            Mnemonic::Add => Group::Register,
            Mnemonic::Sub => Group::Register,
            Mnemonic::Sll => Group::Register,
            Mnemonic::Slt => Group::Register,
            Mnemonic::Sltu => Group::Register,
            Mnemonic::Xor => Group::Register,
            Mnemonic::Srl => Group::Register,
            Mnemonic::Sra => Group::Register,
            Mnemonic::Or => Group::Register,
            Mnemonic::And => Group::Register,
            Mnemonic::Addi => Group::Immediate,
            Mnemonic::Slti => Group::Immediate,
            Mnemonic::Sltiu => Group::Immediate,
            Mnemonic::Xori => Group::Immediate,
            Mnemonic::Ori => Group::Immediate,
            Mnemonic::Andi => Group::Immediate,
            Mnemonic::Slli => Group::Shift,
            Mnemonic::Srli => Group::Shift,
            Mnemonic::Srai => Group::Shift,
            Mnemonic::Lb => Group::Load,
            Mnemonic::Lh => Group::Load,
            Mnemonic::Lw => Group::Load,
            Mnemonic::Lbu => Group::Load,
            Mnemonic::Lhu => Group::Load,
            Mnemonic::Jalr => Group::JumpRegister,
            Mnemonic::Sb => Group::Store,
            Mnemonic::Sh => Group::Store,
            Mnemonic::Sw => Group::Store,
            Mnemonic::Beq => Group::Branch,
            Mnemonic::Bne => Group::Branch,
            Mnemonic::Blt => Group::Branch,
            Mnemonic::Bge => Group::Branch,
            Mnemonic::Bltu => Group::Branch,
            Mnemonic::Bgeu => Group::Branch,
            Mnemonic::Lui => Group::Upper,
            Mnemonic::Auipc => Group::Upper,
            Mnemonic::Jal => Group::Jump,
            Mnemonic::Csrrw => Group::CsrRegister,
            Mnemonic::Csrrs => Group::CsrRegister,
            Mnemonic::Csrrc => Group::CsrRegister,
            Mnemonic::Csrrwi => Group::CsrImmediate,
            Mnemonic::Csrrsi => Group::CsrImmediate,
            Mnemonic::Csrrci => Group::CsrImmediate,
            Mnemonic::Ecall => Group::Environment,
            Mnemonic::Ebreak => Group::Environment,
        }
    }

    /// The opcode, bits 6..0 of the word.
    pub open spec fn spec_opcode(&self) -> u32 {
        match self {
            Mnemonic::Add => 0x33,
            Mnemonic::Sub => 0x33,
            Mnemonic::Sll => 0x33,
            Mnemonic::Slt => 0x33,
            Mnemonic::Sltu => 0x33,
            Mnemonic::Xor => 0x33,
            Mnemonic::Srl => 0x33,
            Mnemonic::Sra => 0x33,
            Mnemonic::Or => 0x33,
            Mnemonic::And => 0x33,
            Mnemonic::Addi => 0x13,
            Mnemonic::Slti => 0x13,
            Mnemonic::Sltiu => 0x13,
            Mnemonic::Xori => 0x13,
            Mnemonic::Ori => 0x13,
            Mnemonic::Andi => 0x13,
            Mnemonic::Slli => 0x13,
            Mnemonic::Srli => 0x13,
            Mnemonic::Srai => 0x13,
            Mnemonic::Lb => 0x03,
            Mnemonic::Lh => 0x03,
            Mnemonic::Lw => 0x03,
            Mnemonic::Lbu => 0x03,
            Mnemonic::Lhu => 0x03,
            Mnemonic::Jalr => 0x67,
            Mnemonic::Sb => 0x23,
            Mnemonic::Sh => 0x23,
            Mnemonic::Sw => 0x23,
            Mnemonic::Beq => 0x63,
            Mnemonic::Bne => 0x63,
            Mnemonic::Blt => 0x63,
            Mnemonic::Bge => 0x63,
            Mnemonic::Bltu => 0x63,
            Mnemonic::Bgeu => 0x63,
            Mnemonic::Lui => 0x37,
            Mnemonic::Auipc => 0x17,
            Mnemonic::Jal => 0x6f,
            Mnemonic::Csrrw => 0x73,
            Mnemonic::Csrrs => 0x73,
            Mnemonic::Csrrc => 0x73,
            Mnemonic::Csrrwi => 0x73,
            Mnemonic::Csrrsi => 0x73,
            Mnemonic::Csrrci => 0x73,
            Mnemonic::Ecall => 0x73,
            Mnemonic::Ebreak => 0x73,
        }
    }

    #[verifier::when_used_as_spec(spec_opcode)]
    pub fn opcode(&self) -> (r: u32)
        ensures
            r == self.spec_opcode(),
    {
        match self {
            Mnemonic::Add => 0x33,
            Mnemonic::Sub => 0x33,
            Mnemonic::Sll => 0x33,
            Mnemonic::Slt => 0x33,
            Mnemonic::Sltu => 0x33,
            Mnemonic::Xor => 0x33,
            Mnemonic::Srl => 0x33,
            Mnemonic::Sra => 0x33,
            Mnemonic::Or => 0x33,
            Mnemonic::And => 0x33,
            Mnemonic::Addi => 0x13,
            Mnemonic::Slti => 0x13,
            Mnemonic::Sltiu => 0x13,
            Mnemonic::Xori => 0x13,
            Mnemonic::Ori => 0x13,
            Mnemonic::Andi => 0x13,
            Mnemonic::Slli => 0x13,
            Mnemonic::Srli => 0x13,
            Mnemonic::Srai => 0x13,
            Mnemonic::Lb => 0x03,
            Mnemonic::Lh => 0x03,
            Mnemonic::Lw => 0x03,
            Mnemonic::Lbu => 0x03,
            Mnemonic::Lhu => 0x03,
            Mnemonic::Jalr => 0x67,
            Mnemonic::Sb => 0x23,
            Mnemonic::Sh => 0x23,
            Mnemonic::Sw => 0x23,
            Mnemonic::Beq => 0x63,
            Mnemonic::Bne => 0x63,
            Mnemonic::Blt => 0x63,
            Mnemonic::Bge => 0x63,
            Mnemonic::Bltu => 0x63,
            Mnemonic::Bgeu => 0x63,
            Mnemonic::Lui => 0x37,
            Mnemonic::Auipc => 0x17,
            Mnemonic::Jal => 0x6f,
            Mnemonic::Csrrw => 0x73,
            Mnemonic::Csrrs => 0x73,
            Mnemonic::Csrrc => 0x73,
            Mnemonic::Csrrwi => 0x73,
            Mnemonic::Csrrsi => 0x73,
            Mnemonic::Csrrci => 0x73,
            Mnemonic::Ecall => 0x73,
            Mnemonic::Ebreak => 0x73,
        }
    }

    /// The funct3 code, bits 14..12 of the word (0 where the shape has none).
    pub open spec fn spec_funct3(&self) -> u32 {
        match self {
            Mnemonic::Add => 0,
            Mnemonic::Sub => 0,
            Mnemonic::Sll => 1,
            Mnemonic::Slt => 2,
            Mnemonic::Sltu => 3,
            Mnemonic::Xor => 4,
            Mnemonic::Srl => 5,
            Mnemonic::Sra => 5,
            Mnemonic::Or => 6,
            Mnemonic::And => 7,
            Mnemonic::Addi => 0,
            Mnemonic::Slti => 2,
            Mnemonic::Sltiu => 3,
            Mnemonic::Xori => 4,
            Mnemonic::Ori => 6,
            Mnemonic::Andi => 7,
            Mnemonic::Slli => 1,
            Mnemonic::Srli => 5,
            Mnemonic::Srai => 5,
            Mnemonic::Lb => 0,
            Mnemonic::Lh => 1,
            Mnemonic::Lw => 2,
            Mnemonic::Lbu => 4,
            Mnemonic::Lhu => 5,
            Mnemonic::Jalr => 0,
            Mnemonic::Sb => 0,
            Mnemonic::Sh => 1,
            Mnemonic::Sw => 2,
            Mnemonic::Beq => 0,
            Mnemonic::Bne => 1,
            Mnemonic::Blt => 4,
            Mnemonic::Bge => 5,
            Mnemonic::Bltu => 6,
            Mnemonic::Bgeu => 7,
            Mnemonic::Lui => 0,
            Mnemonic::Auipc => 0,
            Mnemonic::Jal => 0,
            Mnemonic::Csrrw => 1,
            Mnemonic::Csrrs => 2,
            Mnemonic::Csrrc => 3,
            Mnemonic::Csrrwi => 5,
            Mnemonic::Csrrsi => 6,
            Mnemonic::Csrrci => 7,
            Mnemonic::Ecall => 0,
            Mnemonic::Ebreak => 0,
        }
    }

    #[verifier::when_used_as_spec(spec_funct3)]
    pub fn funct3(&self) -> (r: u32)
        ensures
            r == self.spec_funct3(),
    {
        match self {
            Mnemonic::Add => 0,
            Mnemonic::Sub => 0,
            Mnemonic::Sll => 1,
            Mnemonic::Slt => 2,
            Mnemonic::Sltu => 3,
            Mnemonic::Xor => 4,
            Mnemonic::Srl => 5,
            Mnemonic::Sra => 5,
            Mnemonic::Or => 6,
            Mnemonic::And => 7,
            Mnemonic::Addi => 0,
            Mnemonic::Slti => 2,
            Mnemonic::Sltiu => 3,
            Mnemonic::Xori => 4,
            Mnemonic::Ori => 6,
            Mnemonic::Andi => 7,
            Mnemonic::Slli => 1,
            Mnemonic::Srli => 5,
            Mnemonic::Srai => 5,
            Mnemonic::Lb => 0,
            Mnemonic::Lh => 1,
            Mnemonic::Lw => 2,
            Mnemonic::Lbu => 4,
            Mnemonic::Lhu => 5,
            Mnemonic::Jalr => 0,
            Mnemonic::Sb => 0,
            Mnemonic::Sh => 1,
            Mnemonic::Sw => 2,
            Mnemonic::Beq => 0,
            Mnemonic::Bne => 1,
            Mnemonic::Blt => 4,
            Mnemonic::Bge => 5,
            Mnemonic::Bltu => 6,
            Mnemonic::Bgeu => 7,
            Mnemonic::Lui => 0,
            Mnemonic::Auipc => 0,
            Mnemonic::Jal => 0,
            Mnemonic::Csrrw => 1,
            Mnemonic::Csrrs => 2,
            Mnemonic::Csrrc => 3,
            Mnemonic::Csrrwi => 5,
            Mnemonic::Csrrsi => 6,
            Mnemonic::Csrrci => 7,
            Mnemonic::Ecall => 0,
            Mnemonic::Ebreak => 0,
        }
    }

    /// The funct7 code, bits 31..25 of a register-register or shift word (0 elsewhere).
    pub open spec fn spec_funct7(&self) -> u32 {
        match self {
            Mnemonic::Add => 0x00,
            Mnemonic::Sub => 0x20,
            Mnemonic::Sll => 0x00,
            Mnemonic::Slt => 0x00,
            Mnemonic::Sltu => 0x00,
            Mnemonic::Xor => 0x00,
            Mnemonic::Srl => 0x00,
            Mnemonic::Sra => 0x20,
            Mnemonic::Or => 0x00,
            Mnemonic::And => 0x00,
            Mnemonic::Addi => 0x00,
            Mnemonic::Slti => 0x00,
            Mnemonic::Sltiu => 0x00,
            Mnemonic::Xori => 0x00,
            Mnemonic::Ori => 0x00,
            Mnemonic::Andi => 0x00,
            Mnemonic::Slli => 0x00,
            Mnemonic::Srli => 0x00,
            Mnemonic::Srai => 0x20,
            Mnemonic::Lb => 0x00,
            Mnemonic::Lh => 0x00,
            Mnemonic::Lw => 0x00,
            Mnemonic::Lbu => 0x00,
            Mnemonic::Lhu => 0x00,
            Mnemonic::Jalr => 0x00,
            Mnemonic::Sb => 0x00,
            Mnemonic::Sh => 0x00,
            Mnemonic::Sw => 0x00,
            Mnemonic::Beq => 0x00,
            Mnemonic::Bne => 0x00,
            Mnemonic::Blt => 0x00,
            Mnemonic::Bge => 0x00,
            Mnemonic::Bltu => 0x00,
            Mnemonic::Bgeu => 0x00,
            Mnemonic::Lui => 0x00,
            Mnemonic::Auipc => 0x00,
            Mnemonic::Jal => 0x00,
            Mnemonic::Csrrw => 0x00,
            Mnemonic::Csrrs => 0x00,
            Mnemonic::Csrrc => 0x00,
            Mnemonic::Csrrwi => 0x00,
            Mnemonic::Csrrsi => 0x00,
            Mnemonic::Csrrci => 0x00,
            Mnemonic::Ecall => 0x00,
            Mnemonic::Ebreak => 0x00,
        }
    }

    #[verifier::when_used_as_spec(spec_funct7)]
    pub fn funct7(&self) -> (r: u32)
        ensures
            r == self.spec_funct7(),
    {
        match self {
            Mnemonic::Add => 0x00,
            Mnemonic::Sub => 0x20,
            Mnemonic::Sll => 0x00,
            Mnemonic::Slt => 0x00,
            Mnemonic::Sltu => 0x00,
            Mnemonic::Xor => 0x00,
            Mnemonic::Srl => 0x00,
            Mnemonic::Sra => 0x20,
            Mnemonic::Or => 0x00,
            Mnemonic::And => 0x00,
            Mnemonic::Addi => 0x00,
            Mnemonic::Slti => 0x00,
            Mnemonic::Sltiu => 0x00,
            Mnemonic::Xori => 0x00,
            Mnemonic::Ori => 0x00,
            Mnemonic::Andi => 0x00,
            Mnemonic::Slli => 0x00,
            Mnemonic::Srli => 0x00,
            Mnemonic::Srai => 0x20,
            Mnemonic::Lb => 0x00,
            Mnemonic::Lh => 0x00,
            Mnemonic::Lw => 0x00,
            Mnemonic::Lbu => 0x00,
            Mnemonic::Lhu => 0x00,
            Mnemonic::Jalr => 0x00,
            Mnemonic::Sb => 0x00,
            Mnemonic::Sh => 0x00,
            Mnemonic::Sw => 0x00,
            Mnemonic::Beq => 0x00,
            Mnemonic::Bne => 0x00,
            Mnemonic::Blt => 0x00,
            Mnemonic::Bge => 0x00,
            Mnemonic::Bltu => 0x00,
            Mnemonic::Bgeu => 0x00,
            Mnemonic::Lui => 0x00,
            Mnemonic::Auipc => 0x00,
            Mnemonic::Jal => 0x00,
            Mnemonic::Csrrw => 0x00,
            Mnemonic::Csrrs => 0x00,
            Mnemonic::Csrrc => 0x00,
            Mnemonic::Csrrwi => 0x00,
            Mnemonic::Csrrsi => 0x00,
            Mnemonic::Csrrci => 0x00,
            Mnemonic::Ecall => 0x00,
            Mnemonic::Ebreak => 0x00,
        }
    }
}

/// `c` is `n`, or the upper-case ASCII form of `n`.
pub open spec fn folds_to(c: char, n: char) -> bool {
    c == n || ('A' <= c <= 'Z' && (c as u32) + 32 == n as u32)
}

pub open spec fn folds_from(t: Seq<char>, n: Seq<char>, i: int) -> bool
    decreases n.len() - i,
{
    if i < 0 || i >= n.len() {
        true
    } else {
        folds_to(t[i], n[i]) && folds_from(t, n, i + 1)
    }
}

/// `t`, with its ASCII letters lower-cased, is `n`.
pub open spec fn folds(t: Seq<char>, n: Seq<char>) -> bool {
    t.len() == n.len() && folds_from(t, n, 0)
}

/// The encodable operation named by `t`, in upper or lower case.
#[verifier::opaque]
pub open spec fn from_name(t: Seq<char>) -> Option<Mnemonic> {
    if folds(t, Mnemonic::Add.name()) {
        Some(Mnemonic::Add)
    } else if folds(t, Mnemonic::Sub.name()) {
        Some(Mnemonic::Sub)
    } else if folds(t, Mnemonic::Sll.name()) {
        Some(Mnemonic::Sll)
    } else if folds(t, Mnemonic::Slt.name()) {
        Some(Mnemonic::Slt)
    } else if folds(t, Mnemonic::Sltu.name()) {
        Some(Mnemonic::Sltu)
    } else if folds(t, Mnemonic::Xor.name()) {
        Some(Mnemonic::Xor)
    } else if folds(t, Mnemonic::Srl.name()) {
        Some(Mnemonic::Srl)
    } else if folds(t, Mnemonic::Sra.name()) {
        Some(Mnemonic::Sra)
    } else if folds(t, Mnemonic::Or.name()) {
        Some(Mnemonic::Or)
    } else if folds(t, Mnemonic::And.name()) {
        Some(Mnemonic::And)
    } else if folds(t, Mnemonic::Addi.name()) {
        Some(Mnemonic::Addi)
    } else if folds(t, Mnemonic::Slti.name()) {
        Some(Mnemonic::Slti)
    } else if folds(t, Mnemonic::Sltiu.name()) {
        Some(Mnemonic::Sltiu)
    } else if folds(t, Mnemonic::Xori.name()) {
        Some(Mnemonic::Xori)
    } else if folds(t, Mnemonic::Ori.name()) {
        Some(Mnemonic::Ori)
    } else if folds(t, Mnemonic::Andi.name()) {
        Some(Mnemonic::Andi)
    } else if folds(t, Mnemonic::Slli.name()) {
        Some(Mnemonic::Slli)
    } else if folds(t, Mnemonic::Srli.name()) {
        Some(Mnemonic::Srli)
    } else if folds(t, Mnemonic::Srai.name()) {
        Some(Mnemonic::Srai)
    } else if folds(t, Mnemonic::Lb.name()) {
        Some(Mnemonic::Lb)
    } else if folds(t, Mnemonic::Lh.name()) {
        Some(Mnemonic::Lh)
    } else if folds(t, Mnemonic::Lw.name()) {
        Some(Mnemonic::Lw)
    } else if folds(t, Mnemonic::Lbu.name()) {
        Some(Mnemonic::Lbu)
    } else if folds(t, Mnemonic::Lhu.name()) {
        Some(Mnemonic::Lhu)
    } else if folds(t, Mnemonic::Jalr.name()) {
        Some(Mnemonic::Jalr)
    } else if folds(t, Mnemonic::Sb.name()) {
        Some(Mnemonic::Sb)
    } else if folds(t, Mnemonic::Sh.name()) {
        Some(Mnemonic::Sh)
    } else if folds(t, Mnemonic::Sw.name()) {
        Some(Mnemonic::Sw)
    } else if folds(t, Mnemonic::Beq.name()) {
        Some(Mnemonic::Beq)
    } else if folds(t, Mnemonic::Bne.name()) {
        Some(Mnemonic::Bne)
    } else if folds(t, Mnemonic::Blt.name()) {
        Some(Mnemonic::Blt)
    } else if folds(t, Mnemonic::Bge.name()) {
        Some(Mnemonic::Bge)
    } else if folds(t, Mnemonic::Bltu.name()) {
        Some(Mnemonic::Bltu)
    } else if folds(t, Mnemonic::Bgeu.name()) {
        Some(Mnemonic::Bgeu)
    } else if folds(t, Mnemonic::Lui.name()) {
        Some(Mnemonic::Lui)
    } else if folds(t, Mnemonic::Auipc.name()) {
        Some(Mnemonic::Auipc)
    } else if folds(t, Mnemonic::Jal.name()) {
        Some(Mnemonic::Jal)
    } else if folds(t, Mnemonic::Csrrw.name()) {
        Some(Mnemonic::Csrrw)
    } else if folds(t, Mnemonic::Csrrs.name()) {
        Some(Mnemonic::Csrrs)
    } else if folds(t, Mnemonic::Csrrc.name()) {
        Some(Mnemonic::Csrrc)
    } else if folds(t, Mnemonic::Csrrwi.name()) {
        Some(Mnemonic::Csrrwi)
    } else if folds(t, Mnemonic::Csrrsi.name()) {
        Some(Mnemonic::Csrrsi)
    } else if folds(t, Mnemonic::Csrrci.name()) {
        Some(Mnemonic::Csrrci)
    } else {
        None
    }
}

/// Whether `t` folds to `n`.
pub fn folds_exec(t: &Vec<char>, n: &str) -> (r: bool)
    ensures
        r == folds(t@, n@),
{
    let m = crate::text::chars_of(n);
    if t.len() != m.len() {
        return false;
    }
    let mut i: usize = 0;
    while i < m.len()
        invariant
            i <= m.len() == t.len(),
            m@ == n@,
            folds_from(t@, m@, 0) == folds_from(t@, m@, i as int),
        decreases m.len() - i,
    {
        let c = t[i];
        let d = m[i];
        if !(c == d || ('A' <= c && c <= 'Z' && (c as u32) + 32 == d as u32)) {
            return false;
        }
        i += 1;
    }
    true
}

/// The encodable operation named by `t`, in upper or lower case.
pub fn lookup(t: &Vec<char>) -> (r: Option<Mnemonic>)
    ensures
        r == from_name(t@),
{
    reveal(from_name);
    if folds_exec(t, Mnemonic::Add.as_str()) {
        Some(Mnemonic::Add)
    } else if folds_exec(t, Mnemonic::Sub.as_str()) {
        Some(Mnemonic::Sub)
    } else if folds_exec(t, Mnemonic::Sll.as_str()) {
        Some(Mnemonic::Sll)
    } else if folds_exec(t, Mnemonic::Slt.as_str()) {
        Some(Mnemonic::Slt)
    } else if folds_exec(t, Mnemonic::Sltu.as_str()) {
        Some(Mnemonic::Sltu)
    } else if folds_exec(t, Mnemonic::Xor.as_str()) {
        Some(Mnemonic::Xor)
    } else if folds_exec(t, Mnemonic::Srl.as_str()) {
        Some(Mnemonic::Srl)
    } else if folds_exec(t, Mnemonic::Sra.as_str()) {
        Some(Mnemonic::Sra)
    } else if folds_exec(t, Mnemonic::Or.as_str()) {
        Some(Mnemonic::Or)
    } else if folds_exec(t, Mnemonic::And.as_str()) {
        Some(Mnemonic::And)
    } else if folds_exec(t, Mnemonic::Addi.as_str()) {
        Some(Mnemonic::Addi)
    } else if folds_exec(t, Mnemonic::Slti.as_str()) {
        Some(Mnemonic::Slti)
    } else if folds_exec(t, Mnemonic::Sltiu.as_str()) {
        Some(Mnemonic::Sltiu)
    } else if folds_exec(t, Mnemonic::Xori.as_str()) {
        Some(Mnemonic::Xori)
    } else if folds_exec(t, Mnemonic::Ori.as_str()) {
        Some(Mnemonic::Ori)
    } else if folds_exec(t, Mnemonic::Andi.as_str()) {
        Some(Mnemonic::Andi)
    } else if folds_exec(t, Mnemonic::Slli.as_str()) {
        Some(Mnemonic::Slli)
    } else if folds_exec(t, Mnemonic::Srli.as_str()) {
        Some(Mnemonic::Srli)
    } else if folds_exec(t, Mnemonic::Srai.as_str()) {
        Some(Mnemonic::Srai)
    } else if folds_exec(t, Mnemonic::Lb.as_str()) {
        Some(Mnemonic::Lb)
    } else if folds_exec(t, Mnemonic::Lh.as_str()) {
        Some(Mnemonic::Lh)
    } else if folds_exec(t, Mnemonic::Lw.as_str()) {
        Some(Mnemonic::Lw)
    } else if folds_exec(t, Mnemonic::Lbu.as_str()) {
        Some(Mnemonic::Lbu)
    } else if folds_exec(t, Mnemonic::Lhu.as_str()) {
        Some(Mnemonic::Lhu)
    } else if folds_exec(t, Mnemonic::Jalr.as_str()) {
        Some(Mnemonic::Jalr)
    } else if folds_exec(t, Mnemonic::Sb.as_str()) {
        Some(Mnemonic::Sb)
    } else if folds_exec(t, Mnemonic::Sh.as_str()) {
        Some(Mnemonic::Sh)
    } else if folds_exec(t, Mnemonic::Sw.as_str()) {
        Some(Mnemonic::Sw)
    } else if folds_exec(t, Mnemonic::Beq.as_str()) {
        Some(Mnemonic::Beq)
    } else if folds_exec(t, Mnemonic::Bne.as_str()) {
        Some(Mnemonic::Bne)
    } else if folds_exec(t, Mnemonic::Blt.as_str()) {
        Some(Mnemonic::Blt)
    } else if folds_exec(t, Mnemonic::Bge.as_str()) {
        Some(Mnemonic::Bge)
    } else if folds_exec(t, Mnemonic::Bltu.as_str()) {
        Some(Mnemonic::Bltu)
    } else if folds_exec(t, Mnemonic::Bgeu.as_str()) {
        Some(Mnemonic::Bgeu)
    } else if folds_exec(t, Mnemonic::Lui.as_str()) {
        Some(Mnemonic::Lui)
    } else if folds_exec(t, Mnemonic::Auipc.as_str()) {
        Some(Mnemonic::Auipc)
    } else if folds_exec(t, Mnemonic::Jal.as_str()) {
        Some(Mnemonic::Jal)
    } else if folds_exec(t, Mnemonic::Csrrw.as_str()) {
        Some(Mnemonic::Csrrw)
    } else if folds_exec(t, Mnemonic::Csrrs.as_str()) {
        Some(Mnemonic::Csrrs)
    } else if folds_exec(t, Mnemonic::Csrrc.as_str()) {
        Some(Mnemonic::Csrrc)
    } else if folds_exec(t, Mnemonic::Csrrwi.as_str()) {
        Some(Mnemonic::Csrrwi)
    } else if folds_exec(t, Mnemonic::Csrrsi.as_str()) {
        Some(Mnemonic::Csrrsi)
    } else if folds_exec(t, Mnemonic::Csrrci.as_str()) {
        Some(Mnemonic::Csrrci)
    } else {
        None
    }
}


/// Every operation that the encoder accepts is found by its own name.
pub proof fn lemma_from_name(op: Mnemonic)
    requires
        op.group() != Group::Environment,
    ensures
        from_name(op.name()) == Some(op),
{
    reveal(from_name);
    reveal_with_fuel(folds_from, 7);
    reveal_strlit("add");
    reveal_strlit("sub");
    reveal_strlit("sll");
    reveal_strlit("slt");
    reveal_strlit("sltu");
    reveal_strlit("xor");
    reveal_strlit("srl");
    reveal_strlit("sra");
    reveal_strlit("or");
    reveal_strlit("and");
    reveal_strlit("addi");
    reveal_strlit("slti");
    reveal_strlit("sltiu");
    reveal_strlit("xori");
    reveal_strlit("ori");
    reveal_strlit("andi");
    reveal_strlit("slli");
    reveal_strlit("srli");
    reveal_strlit("srai");
    reveal_strlit("lb");
    reveal_strlit("lh");
    reveal_strlit("lw");
    reveal_strlit("lbu");
    reveal_strlit("lhu");
    reveal_strlit("jalr");
    reveal_strlit("sb");
    reveal_strlit("sh");
    reveal_strlit("sw");
    reveal_strlit("beq");
    reveal_strlit("bne");
    reveal_strlit("blt");
    reveal_strlit("bge");
    reveal_strlit("bltu");
    reveal_strlit("bgeu");
    reveal_strlit("lui");
    reveal_strlit("auipc");
    reveal_strlit("jal");
    reveal_strlit("csrrw");
    reveal_strlit("csrrs");
    reveal_strlit("csrrc");
    reveal_strlit("csrrwi");
    reveal_strlit("csrrsi");
    reveal_strlit("csrrci");
    reveal_strlit("ecall");
    reveal_strlit("ebreak");
}

} // verus!
