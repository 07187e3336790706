//! From an instruction word to its mnemonic and operands.

use vstd::prelude::*;

use crate::error::Error;
use crate::fields::{field, BType, CSRType, IType, JType, RType, SType, UType};
use crate::format::{shape_word, shaped, EncodedInstruction};
use crate::isa::{Group, Mnemonic};
use crate::text::{decimal, push_decimal, signed_decimal, signed_text, views};

verus! {

/// An operand's value: a register index or an immediate.
pub enum Operand {
    Register(nat),
    Immediate(int),
}

/// How an operand is written: `x<index>`, or a decimal integer.
pub open spec fn operand_text(o: Operand) -> Seq<char> {
    match o {
        Operand::Register(i) => seq!['x'] + decimal(i),
        Operand::Immediate(v) => signed_decimal(v),
    }
}

pub open spec fn operand_texts(ops: Seq<Operand>) -> Seq<Seq<char>> {
    ops.map_values(|o: Operand| operand_text(o))
}

pub open spec fn opcode_of(w: u32) -> u32 {
    field(w, 0, 0x7f)
}

pub open spec fn rd_of(w: u32) -> u32 {
    field(w, 7, 0x1f)
}

pub open spec fn funct3_of(w: u32) -> u32 {
    field(w, 12, 0x7)
}

pub open spec fn rs1_of(w: u32) -> u32 {
    field(w, 15, 0x1f)
}

pub open spec fn rs2_of(w: u32) -> u32 {
    field(w, 20, 0x1f)
}

pub open spec fn funct7_of(w: u32) -> u32 {
    field(w, 25, 0x7f)
}

/// The two's-complement value of `v`, an unsigned number below `2 * half`.
pub open spec fn sign_extend(v: int, half: int) -> int {
    if v >= half {
        v - 2 * half
    } else {
        v
    }
}

/// The 12-bit immediate of an I-type word, bits 31..20.
pub open spec fn i_imm(w: u32) -> int {
    sign_extend(field(w, 20, 0xfff) as int, 0x800)
}

/// The 12-bit immediate of an S-type word: bits 31..25 above bits 11..7.
pub open spec fn s_imm(w: u32) -> int {
    sign_extend(field(w, 25, 0x7f) * 32 + field(w, 7, 0x1f), 0x800)
}

/// The 13-bit even offset of a B-type word: bit 31, bit 7, bits 30..25, bits 11..8.
pub open spec fn b_imm(w: u32) -> int {
    sign_extend(
        field(w, 31, 1) * 0x1000 + field(w, 7, 1) * 0x800 + field(w, 25, 0x3f) * 32
            + field(w, 8, 0xf) * 2,
        0x1000,
    )
}

/// The upper immediate of a U-type word, left in place: bits 31..12 over twelve zeros.
pub open spec fn u_imm(w: u32) -> int {
    sign_extend(field(w, 12, 0xfffff) * 0x1000, 0x8000_0000)
}

/// The 21-bit even offset of a J-type word: bit 31, bits 19..12, bit 20, bits 30..21.
pub open spec fn j_imm(w: u32) -> int {
    sign_extend(
        field(w, 31, 1) * 0x10_0000 + field(w, 12, 0xff) * 0x1000 + field(w, 20, 1) * 0x800 + field(
            w,
            21,
            0x3ff,
        ) * 2,
        0x10_0000,
    )
}

pub open spec fn known_opcode(opcode: u32) -> bool {
    ||| opcode == 0x33
    ||| opcode == 0x13
    ||| opcode == 0x03
    ||| opcode == 0x23
    ||| opcode == 0x63
    ||| opcode == 0x6f
    ||| opcode == 0x67
    ||| opcode == 0x37
    ||| opcode == 0x17
    ||| opcode == 0x73
}

pub open spec fn register_op(f3: u32, f7: u32) -> Option<Mnemonic> {
    if f7 == 0 {
        if f3 == 0 {
            Some(Mnemonic::Add)
        } else if f3 == 1 {
            Some(Mnemonic::Sll)
        } else if f3 == 2 {
            Some(Mnemonic::Slt)
        } else if f3 == 3 {
            Some(Mnemonic::Sltu)
        } else if f3 == 4 {
            Some(Mnemonic::Xor)
        } else if f3 == 5 {
            Some(Mnemonic::Srl)
        } else if f3 == 6 {
            Some(Mnemonic::Or)
        } else {
            Some(Mnemonic::And)
        }
    } else if f7 == 0x20 && f3 == 0 {
        Some(Mnemonic::Sub)
    } else if f7 == 0x20 && f3 == 5 {
        Some(Mnemonic::Sra)
    } else {
        None
    }
}

pub open spec fn immediate_op(f3: u32, f7: u32) -> Option<Mnemonic> {
    if f3 == 0 {
        Some(Mnemonic::Addi)
    } else if f3 == 1 {
        Some(Mnemonic::Slli)
    } else if f3 == 2 {
        Some(Mnemonic::Slti)
    } else if f3 == 3 {
        Some(Mnemonic::Sltiu)
    } else if f3 == 4 {
        Some(Mnemonic::Xori)
    } else if f3 == 5 {
        if f7 == 0 {
            Some(Mnemonic::Srli)
        } else if f7 == 0x20 {
            Some(Mnemonic::Srai)
        } else {
            None
        }
    } else if f3 == 6 {
        Some(Mnemonic::Ori)
    } else {
        Some(Mnemonic::Andi)
    }
}

pub open spec fn load_op(f3: u32) -> Option<Mnemonic> {
    if f3 == 0 {
        Some(Mnemonic::Lb)
    } else if f3 == 1 {
        Some(Mnemonic::Lh)
    } else if f3 == 2 {
        Some(Mnemonic::Lw)
    } else if f3 == 4 {
        Some(Mnemonic::Lbu)
    } else if f3 == 5 {
        Some(Mnemonic::Lhu)
    } else {
        None
    }
}

pub open spec fn store_op(f3: u32) -> Option<Mnemonic> {
    if f3 == 0 {
        Some(Mnemonic::Sb)
    } else if f3 == 1 {
        Some(Mnemonic::Sh)
    } else if f3 == 2 {
        Some(Mnemonic::Sw)
    } else {
        None
    }
}

pub open spec fn branch_op(f3: u32) -> Option<Mnemonic> {
    if f3 == 0 {
        Some(Mnemonic::Beq)
    } else if f3 == 1 {
        Some(Mnemonic::Bne)
    } else if f3 == 4 {
        Some(Mnemonic::Blt)
    } else if f3 == 5 {
        Some(Mnemonic::Bge)
    } else if f3 == 6 {
        Some(Mnemonic::Bltu)
    } else if f3 == 7 {
        Some(Mnemonic::Bgeu)
    } else {
        None
    }
}

/// SYSTEM words: `ecall` and `ebreak` need zero register fields, else a CSR operation.
pub open spec fn system_op(w: u32) -> Option<Mnemonic> {
    let f3 = funct3_of(w);
    let csr = field(w, 20, 0xfff);
    if f3 == 0 {
        if rd_of(w) == 0 && rs1_of(w) == 0 && csr == 0 {
            Some(Mnemonic::Ecall)
        } else if rd_of(w) == 0 && rs1_of(w) == 0 && csr == 1 {
            Some(Mnemonic::Ebreak)
        } else {
            None
        }
    } else if f3 == 1 {
        Some(Mnemonic::Csrrw)
    } else if f3 == 2 {
        Some(Mnemonic::Csrrs)
    } else if f3 == 3 {
        Some(Mnemonic::Csrrc)
    } else if f3 == 5 {
        Some(Mnemonic::Csrrwi)
    } else if f3 == 6 {
        Some(Mnemonic::Csrrsi)
    } else if f3 == 7 {
        Some(Mnemonic::Csrrci)
    } else {
        None
    }
}

/// The operation of a word whose opcode is known, when its function codes name one.
#[verifier::opaque]
pub open spec fn decode_op(w: u32) -> Option<Mnemonic> {
    let opcode = opcode_of(w);
    let f3 = funct3_of(w);
    if opcode == 0x33 {
        register_op(f3, funct7_of(w))
    } else if opcode == 0x13 {
        immediate_op(f3, funct7_of(w))
    } else if opcode == 0x03 {
        load_op(f3)
    } else if opcode == 0x23 {
        store_op(f3)
    } else if opcode == 0x63 {
        branch_op(f3)
    } else if opcode == 0x6f {
        Some(Mnemonic::Jal)
    } else if opcode == 0x67 {
        if f3 == 0 {
            Some(Mnemonic::Jalr)
        } else {
            None
        }
    } else if opcode == 0x37 {
        Some(Mnemonic::Lui)
    } else if opcode == 0x17 {
        Some(Mnemonic::Auipc)
    } else {
        system_op(w)
    }
}

/// The operands of `w` read as an instance of `op`, in the order they are written.
pub open spec fn decoded_operands(op: Mnemonic, w: u32) -> Seq<Operand> {
    let rd = Operand::Register(rd_of(w) as nat);
    let rs1 = Operand::Register(rs1_of(w) as nat);
    let rs2 = Operand::Register(rs2_of(w) as nat);
    match op.group() {
        Group::Register => seq![rd, rs1, rs2],
        Group::Immediate => seq![rd, rs1, Operand::Immediate(i_imm(w))],
        Group::Shift => seq![rd, rs1, Operand::Immediate(field(w, 20, 0x1f) as int)],
        Group::Load | Group::JumpRegister => seq![rd, Operand::Immediate(i_imm(w)), rs1],
        Group::Store => seq![rs2, Operand::Immediate(s_imm(w)), rs1],
        Group::Branch => seq![rs1, rs2, Operand::Immediate(b_imm(w))],
        Group::Upper => seq![rd, Operand::Immediate(u_imm(w))],
        Group::Jump => seq![rd, Operand::Immediate(j_imm(w))],
        Group::CsrRegister => seq![rd, Operand::Immediate(field(w, 20, 0xfff) as int), rs1],
        Group::CsrImmediate => seq![
            rd,
            Operand::Immediate(field(w, 20, 0xfff) as int),
            Operand::Immediate(field(w, 15, 0x1f) as int),
        ],
        Group::Environment => seq![],
    }
}

/// What decoding `w` gives: its operation and operands, or why it has none.
pub open spec fn decode_spec(w: u32) -> Result<(Mnemonic, Seq<Operand>), Error> {
    if !known_opcode(opcode_of(w)) {
        Err(Error::InvalidOpcode)
    } else {
        match decode_op(w) {
            Some(op) => Ok((op, decoded_operands(op, w))),
            None => Err(Error::UnknownInstruction),
        }
    }
}

/// The operation of `w`, by its opcode and function codes.
fn decode_mnemonic(w: u32) -> (r: Result<Mnemonic, Error>)
    ensures
        r == (if !known_opcode(opcode_of(w)) {
            Err(Error::InvalidOpcode)
        } else {
            match decode_op(w) {
                Some(op) => Ok(op),
                None => Err(Error::UnknownInstruction),
            }
        }),
{
    reveal(decode_op);
    let r = RType(w);
    let opcode = r.opcode();
    let f3 = r.funct3();
    let f7 = r.funct7();
    if opcode == 0x33 {
        if f7 == 0 {
            if f3 == 0 {
                Ok(Mnemonic::Add)
            } else if f3 == 1 {
                Ok(Mnemonic::Sll)
            } else if f3 == 2 {
                Ok(Mnemonic::Slt)
            } else if f3 == 3 {
                Ok(Mnemonic::Sltu)
            } else if f3 == 4 {
                Ok(Mnemonic::Xor)
            } else if f3 == 5 {
                Ok(Mnemonic::Srl)
            } else if f3 == 6 {
                Ok(Mnemonic::Or)
            } else {
                Ok(Mnemonic::And)
            }
        } else if f7 == 0x20 && f3 == 0 {
            Ok(Mnemonic::Sub)
        } else if f7 == 0x20 && f3 == 5 {
            Ok(Mnemonic::Sra)
        } else {
            Err(Error::UnknownInstruction)
        }
    } else if opcode == 0x13 {
        if f3 == 0 {
            Ok(Mnemonic::Addi)
        } else if f3 == 1 {
            Ok(Mnemonic::Slli)
        } else if f3 == 2 {
            Ok(Mnemonic::Slti)
        } else if f3 == 3 {
            Ok(Mnemonic::Sltiu)
        } else if f3 == 4 {
            Ok(Mnemonic::Xori)
        } else if f3 == 5 {
            if f7 == 0 {
                Ok(Mnemonic::Srli)
            } else if f7 == 0x20 {
                Ok(Mnemonic::Srai)
            } else {
                Err(Error::UnknownInstruction)
            }
        } else if f3 == 6 {
            Ok(Mnemonic::Ori)
        } else {
            Ok(Mnemonic::Andi)
        }
    } else if opcode == 0x03 {
        if f3 == 0 {
            Ok(Mnemonic::Lb)
        } else if f3 == 1 {
            Ok(Mnemonic::Lh)
        } else if f3 == 2 {
            Ok(Mnemonic::Lw)
        } else if f3 == 4 {
            Ok(Mnemonic::Lbu)
        } else if f3 == 5 {
            Ok(Mnemonic::Lhu)
        } else {
            Err(Error::UnknownInstruction)
        }
    } else if opcode == 0x23 {
        if f3 == 0 {
            Ok(Mnemonic::Sb)
        } else if f3 == 1 {
            Ok(Mnemonic::Sh)
        } else if f3 == 2 {
            Ok(Mnemonic::Sw)
        } else {
            Err(Error::UnknownInstruction)
        }
    } else if opcode == 0x63 {
        if f3 == 0 {
            Ok(Mnemonic::Beq)
        } else if f3 == 1 {
            Ok(Mnemonic::Bne)
        } else if f3 == 4 {
            Ok(Mnemonic::Blt)
        } else if f3 == 5 {
            Ok(Mnemonic::Bge)
        } else if f3 == 6 {
            Ok(Mnemonic::Bltu)
        } else if f3 == 7 {
            Ok(Mnemonic::Bgeu)
        } else {
            Err(Error::UnknownInstruction)
        }
    } else if opcode == 0x6f {
        Ok(Mnemonic::Jal)
    } else if opcode == 0x67 {
        if f3 == 0 {
            Ok(Mnemonic::Jalr)
        } else {
            Err(Error::UnknownInstruction)
        }
    } else if opcode == 0x37 {
        Ok(Mnemonic::Lui)
    } else if opcode == 0x17 {
        Ok(Mnemonic::Auipc)
    } else if opcode == 0x73 {
        let c = CSRType(w);
        let rd = c.rd();
        let rs1 = c.rs1();
        let csr = c.csr();
        if f3 == 0 {
            if rd == 0 && rs1 == 0 && csr == 0 {
                Ok(Mnemonic::Ecall)
            } else if rd == 0 && rs1 == 0 && csr == 1 {
                Ok(Mnemonic::Ebreak)
            } else {
                Err(Error::UnknownInstruction)
            }
        } else if f3 == 1 {
            Ok(Mnemonic::Csrrw)
        } else if f3 == 2 {
            Ok(Mnemonic::Csrrs)
        } else if f3 == 3 {
            Ok(Mnemonic::Csrrc)
        } else if f3 == 5 {
            Ok(Mnemonic::Csrrwi)
        } else if f3 == 6 {
            Ok(Mnemonic::Csrrsi)
        } else if f3 == 7 {
            Ok(Mnemonic::Csrrci)
        } else {
            Err(Error::UnknownInstruction)
        }
    } else {
        Err(Error::InvalidOpcode)
    }
}

/// `x<i>`.
pub fn register_text(i: u32) -> (r: String)
    ensures
        r@ == operand_text(Operand::Register(i as nat)),
{
    let mut s = String::from_str("x");
    proof {
        reveal_strlit("x");
    }
    push_decimal(&mut s, i as u64);
    assert(s@ =~= seq!['x'] + decimal(i as nat));
    s
}

/// `v` in decimal.
pub fn immediate_text(v: i64) -> (r: String)
    requires
        v > i64::MIN,
    ensures
        r@ == operand_text(Operand::Immediate(v as int)),
{
    signed_text(v)
}

/// The two's-complement value of `raw`, an unsigned number below `2 * half`.
fn extend(raw: u32, half: u32) -> (r: i64)
    requires
        half <= 0x8000_0000,
    ensures
        r == sign_extend(raw as int, half as int),
{
    if raw >= half {
        raw as i64 - 2 * half as i64
    } else {
        raw as i64
    }
}

/// The operand texts of `w` read as an instance of `op`.
fn operands_of(op: Mnemonic, w: u32) -> (r: Vec<String>)
    ensures
        views(r@) == operand_texts(decoded_operands(op, w)),
{
    let rtype = RType(w);
    let rd = rtype.rd();
    let rs1 = rtype.rs1();
    let rs2 = rtype.rs2();
    let ghost expected = operand_texts(decoded_operands(op, w));
    let r = match op.group() {
        Group::Register => vec![register_text(rd), register_text(rs1), register_text(rs2)],
        Group::Immediate => {
            let imm = extend(IType(w).imm(), 0x800);
            vec![register_text(rd), register_text(rs1), immediate_text(imm)]
        },
        Group::Shift => {
            let shamt = IType(w).imm() & 0x1f;
            assert(shamt == field(w, 20, 0x1f)) by (bit_vector)
                requires
                    shamt == (w >> 20u32) & 0xfff & 0x1f,
            ;
            vec![register_text(rd), register_text(rs1), immediate_text(shamt as i64)]
        },
        Group::Load | Group::JumpRegister => {
            let imm = extend(IType(w).imm(), 0x800);
            vec![register_text(rd), immediate_text(imm), register_text(rs1)]
        },
        Group::Store => {
            let s = SType(w);
            let imm = extend(s.imm11_5() * 32 + s.imm4_0(), 0x800);
            vec![register_text(rs2), immediate_text(imm), register_text(rs1)]
        },
        Group::Branch => {
            let b = BType(w);
            let raw = b.imm12() * 0x1000 + b.imm11() * 0x800 + b.imm10_5() * 32 + b.imm4_1() * 2;
            let imm = extend(raw, 0x1000);
            vec![register_text(rs1), register_text(rs2), immediate_text(imm)]
        },
        Group::Upper => {
            let imm = extend(UType(w).imm() * 0x1000, 0x8000_0000);
            vec![register_text(rd), immediate_text(imm)]
        },
        Group::Jump => {
            let j = JType(w);
            let raw = j.imm20() * 0x10_0000 + j.imm19_12() * 0x1000 + j.imm11() * 0x800
                + j.imm10_1() * 2;
            let imm = extend(raw, 0x10_0000);
            vec![register_text(rd), immediate_text(imm)]
        },
        Group::CsrRegister => {
            let csr = CSRType(w).csr();
            vec![register_text(rd), immediate_text(csr as i64), register_text(rs1)]
        },
        Group::CsrImmediate => {
            let csr = CSRType(w).csr();
            vec![register_text(rd), immediate_text(csr as i64), immediate_text(rs1 as i64)]
        },
        Group::Environment => Vec::new(),
    };
    assert(views(r@) =~= expected);
    r
}

/// Decodes an instruction word into its shape, mnemonic and operand texts.
pub fn decode(instr: u32) -> (r: Result<EncodedInstruction, Error>)
    ensures
        match decode_spec(instr) {
            Ok((op, ops)) => r matches Ok(d) && d.instr == shaped(op, instr) && d.mnemonic@
                == op.name() && views(d.operands@) == operand_texts(ops),
            Err(e) => r == Err::<EncodedInstruction, Error>(e),
        },
{
    match decode_mnemonic(instr) {
        Err(e) => Err(e),
        Ok(op) => {
            let operands = operands_of(op, instr);
            Ok(
                EncodedInstruction {
                    instr: shape_word(op, instr),
                    mnemonic: String::from_str(op.as_str()),
                    operands,
                },
            )
        },
    }
}

} // verus!
