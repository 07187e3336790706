//! From a line of assembly text to an instruction word.

use vstd::prelude::*;

use vstd::arithmetic::div_mod::lemma_mod_mod;

use crate::error::Error;
use crate::fields::{
    b_layout, i_layout, j_layout, r_layout, u_layout, BType, CSRType, IType, JType, RType, SType,
    UType,
};
use crate::format::{shape_word, shaped, EncodedInstruction};
use crate::isa::{from_name, lookup, Group, Mnemonic};
use crate::text::{chars_of, tokenize, tokens, views};
use crate::util::{immediate_value, parse_immediate, parse_reg, register_value};

verus! {

/// `sltiu`, `lbu` and `lhu` take an unsigned 12-bit immediate.
pub open spec fn unsigned_immediate(op: Mnemonic) -> bool {
    op == Mnemonic::Sltiu || op == Mnemonic::Lbu || op == Mnemonic::Lhu
}

/// Loads and `jalr` write their operands `rd, imm(rs1)`.
pub open spec fn memory_form(op: Mnemonic) -> bool {
    op.group() == Group::Load || op.group() == Group::JumpRegister
}

pub open spec fn i_range(op: Mnemonic, imm: int) -> bool {
    if unsigned_immediate(op) {
        0 <= imm <= 4095
    } else {
        -2048 <= imm <= 2047
    }
}

/// The 12-bit immediate field of an I-type word: a shift keeps the amount's low five bits
/// under its funct7 code, any other the immediate's low twelve bits.
pub open spec fn i_field(op: Mnemonic, imm: int) -> u32 {
    if op.group() == Group::Shift {
        (imm % 32 + op.funct7() * 32) as u32
    } else {
        (imm % 4096) as u32
    }
}

pub open spec fn encode_register(op: Mnemonic, ops: Seq<Seq<char>>) -> Result<u32, Error> {
    if ops.len() != 3 {
        Err(Error::InvalidFormat)
    } else {
        match (register_value(ops[0]), register_value(ops[1]), register_value(ops[2])) {
            (Some(rd), Some(rs1), Some(rs2)) => Ok(
                r_layout(op.funct7(), rs2, rs1, op.funct3(), rd, op.opcode()),
            ),
            _ => Err(Error::InvalidRegister),
        }
    }
}

/// Register-immediate operations, loads and `jalr`; the immediate is read before `rs1`.
pub open spec fn encode_itype(op: Mnemonic, ops: Seq<Seq<char>>) -> Result<u32, Error> {
    if ops.len() != 3 {
        Err(Error::InvalidFormat)
    } else {
        let imm_token = if memory_form(op) {
            ops[1]
        } else {
            ops[2]
        };
        let rs1_token = if memory_form(op) {
            ops[2]
        } else {
            ops[1]
        };
        match register_value(ops[0]) {
            None => Err(Error::InvalidRegister),
            Some(rd) => match immediate_value(imm_token) {
                None => Err(Error::InvalidImmediate),
                Some(imm) => match register_value(rs1_token) {
                    None => Err(Error::InvalidRegister),
                    Some(rs1) => if !i_range(op, imm as int) {
                        Err(Error::ImmediateOutOfRange)
                    } else {
                        Ok(i_layout(i_field(op, imm as int), rs1, op.funct3(), rd, op.opcode()))
                    },
                },
            },
        }
    }
}

pub open spec fn encode_store(op: Mnemonic, ops: Seq<Seq<char>>) -> Result<u32, Error> {
    if ops.len() != 3 {
        Err(Error::InvalidFormat)
    } else {
        match register_value(ops[0]) {
            None => Err(Error::InvalidRegister),
            Some(rs2) => match immediate_value(ops[1]) {
                None => Err(Error::InvalidImmediate),
                Some(imm) => match register_value(ops[2]) {
                    None => Err(Error::InvalidRegister),
                    Some(rs1) => if !(-2048 <= imm <= 2047) {
                        Err(Error::ImmediateOutOfRange)
                    } else {
                        let raw = imm % 4096;
                        Ok(
                            r_layout(
                                (raw / 32) as u32,
                                rs2,
                                rs1,
                                op.funct3(),
                                (raw % 32) as u32,
                                op.opcode(),
                            ),
                        )
                    },
                },
            },
        }
    }
}

pub open spec fn encode_branch(op: Mnemonic, ops: Seq<Seq<char>>) -> Result<u32, Error> {
    if ops.len() != 3 {
        Err(Error::InvalidFormat)
    } else {
        match register_value(ops[0]) {
            None => Err(Error::InvalidRegister),
            Some(rs1) => match register_value(ops[1]) {
                None => Err(Error::InvalidRegister),
                Some(rs2) => match immediate_value(ops[2]) {
                    None => Err(Error::InvalidImmediate),
                    Some(imm) => if !(-4096 <= imm <= 4094) {
                        Err(Error::ImmediateOutOfRange)
                    } else if imm % 2 != 0 {
                        Err(Error::ImmediateMisaligned)
                    } else {
                        let raw = imm % 8192;
                        Ok(
                            b_layout(
                                (raw / 4096) as u32,
                                ((raw / 32) % 64) as u32,
                                rs2,
                                rs1,
                                op.funct3(),
                                ((raw / 2) % 16) as u32,
                                ((raw / 2048) % 2) as u32,
                                op.opcode(),
                            ),
                        )
                    },
                },
            },
        }
    }
}

pub open spec fn encode_upper(op: Mnemonic, ops: Seq<Seq<char>>) -> Result<u32, Error> {
    if ops.len() != 2 {
        Err(Error::InvalidFormat)
    } else {
        match register_value(ops[0]) {
            None => Err(Error::InvalidRegister),
            Some(rd) => match immediate_value(ops[1]) {
                None => Err(Error::InvalidImmediate),
                Some(imm) => if !(-524288 <= imm <= 524287) {
                    Err(Error::ImmediateOutOfRange)
                } else {
                    Ok(u_layout((imm % 0x10_0000) as u32, rd, op.opcode()))
                },
            },
        }
    }
}

pub open spec fn encode_jump(op: Mnemonic, ops: Seq<Seq<char>>) -> Result<u32, Error> {
    if ops.len() != 2 {
        Err(Error::InvalidFormat)
    } else {
        match register_value(ops[0]) {
            None => Err(Error::InvalidRegister),
            Some(rd) => match immediate_value(ops[1]) {
                None => Err(Error::InvalidImmediate),
                Some(imm) => if !(-1048576 <= imm <= 1048574) {
                    Err(Error::ImmediateOutOfRange)
                } else if imm % 2 != 0 {
                    Err(Error::ImmediateMisaligned)
                } else {
                    let raw = imm % 0x20_0000;
                    Ok(
                        j_layout(
                            (raw / 0x10_0000) as u32,
                            ((raw / 2) % 1024) as u32,
                            ((raw / 2048) % 2) as u32,
                            ((raw / 4096) % 256) as u32,
                            rd,
                            op.opcode(),
                        ),
                    )
                },
            },
        }
    }
}

/// CSR operations: `rd, csr, rs1`, or `rd, csr, zimm` for the immediate forms.
pub open spec fn encode_csr(op: Mnemonic, ops: Seq<Seq<char>>) -> Result<u32, Error> {
    if ops.len() != 3 {
        Err(Error::InvalidFormat)
    } else {
        match register_value(ops[0]) {
            None => Err(Error::InvalidRegister),
            Some(rd) => match immediate_value(ops[1]) {
                None => Err(Error::InvalidImmediate),
                Some(csr) => if !(0 <= csr <= 4095) {
                    Err(Error::ImmediateOutOfRange)
                } else if op.group() == Group::CsrImmediate {
                    match immediate_value(ops[2]) {
                        None => Err(Error::InvalidImmediate),
                        Some(z) => if !(0 <= z <= 31) {
                            Err(Error::ImmediateOutOfRange)
                        } else {
                            Ok(i_layout(csr as u32, z as u32, op.funct3(), rd, op.opcode()))
                        },
                    }
                } else {
                    match register_value(ops[2]) {
                        None => Err(Error::InvalidRegister),
                        Some(rs1) => Ok(i_layout(csr as u32, rs1, op.funct3(), rd, op.opcode())),
                    }
                },
            },
        }
    }
}

/// The word for `op` with the operand tokens `ops`, or the first thing wrong with them.
pub open spec fn encode_operands(op: Mnemonic, ops: Seq<Seq<char>>) -> Result<u32, Error> {
    match op.group() {
        Group::Register => encode_register(op, ops),
        Group::Immediate | Group::Shift | Group::Load | Group::JumpRegister => {
            encode_itype(op, ops)
        },
        Group::Store => encode_store(op, ops),
        Group::Branch => encode_branch(op, ops),
        Group::Upper => encode_upper(op, ops),
        Group::Jump => encode_jump(op, ops),
        Group::CsrRegister | Group::CsrImmediate => encode_csr(op, ops),
        Group::Environment => Err(Error::UnknownInstruction),
    }
}

/// What encoding the line `text` gives: the operation and its word, or the first error.
#[verifier::opaque]
pub open spec fn encode_spec(text: Seq<char>) -> Result<(Mnemonic, u32), Error> {
    let toks = tokens(text);
    if toks.len() == 0 {
        Err(Error::InvalidFormat)
    } else {
        match from_name(toks[0]) {
            None => Err(Error::UnknownInstruction),
            Some(op) => match encode_operands(op, toks.drop_first()) {
                Ok(w) => Ok((op, w)),
                Err(e) => Err(e),
            },
        }
    }
}

fn register_at(ops: &Vec<String>, i: usize) -> (r: Result<u32, Error>)
    requires
        i < ops.len(),
    ensures
        r == match register_value(views(ops@)[i as int]) {
            Some(v) => Ok(v),
            None => Err(Error::InvalidRegister),
        },
        r matches Ok(v) ==> v <= 31,
{
    parse_reg(ops[i].as_str())
}

fn immediate_at(ops: &Vec<String>, i: usize) -> (r: Result<i32, Error>)
    requires
        i < ops.len(),
    ensures
        r == match immediate_value(views(ops@)[i as int]) {
            Some(v) => Ok(v),
            None => Err(Error::InvalidImmediate),
        },
{
    parse_immediate(ops[i].as_str())
}

/// `imm` modulo `2^k`, for an `imm` of at least `-2^k`.
fn low_bits(imm: i32, modulus: u32) -> (r: u32)
    requires
        modulus == 4096 || modulus == 8192 || modulus == 0x10_0000 || modulus == 0x20_0000,
        -(modulus as int) <= imm < modulus,
    ensures
        r == imm as int % modulus as int,
{
    if imm < 0 {
        (imm as i64 + modulus as i64) as u32
    } else {
        imm as u32
    }
}

fn pack_register(op: Mnemonic, ops: &Vec<String>) -> (r: Result<u32, Error>)
    requires
        op.group() == Group::Register,
    ensures
        r == encode_register(op, views(ops@)),
{
    if ops.len() != 3 {
        return Err(Error::InvalidFormat);
    }
    let rd = match register_at(ops, 0) {
        Ok(v) => v,
        Err(e) => return Err(e),
    };
    let rs1 = match register_at(ops, 1) {
        Ok(v) => v,
        Err(e) => return Err(e),
    };
    let rs2 = match register_at(ops, 2) {
        Ok(v) => v,
        Err(e) => return Err(e),
    };
    let mut r = RType(0);
    r.set_funct7(op.funct7());
    r.set_rs2(rs2);
    r.set_rs1(rs1);
    r.set_funct3(op.funct3());
    r.set_rd(rd);
    r.set_opcode(op.opcode());
    Ok(r.0)
}

/// The immediate field of an I-type word, for an immediate already in range.
fn itype_field(op: Mnemonic, imm: i32) -> (r: u32)
    requires
        -2048 <= imm <= 4095,
    ensures
        r == i_field(op, imm as int),
{
    let raw = low_bits(imm, 4096);
    match op.group() {
        Group::Shift => {
            proof {
                lemma_mod_mod(imm as int, 32, 128);
            }
            raw % 32 + op.funct7() * 32
        },
        _ => raw,
    }
}

fn pack_itype(op: Mnemonic, ops: &Vec<String>) -> (r: Result<u32, Error>)
    requires
        op.group() == Group::Immediate || op.group() == Group::Shift || op.group() == Group::Load
            || op.group() == Group::JumpRegister,
    ensures
        r == encode_itype(op, views(ops@)),
{
    if ops.len() != 3 {
        return Err(Error::InvalidFormat);
    }
    let memory = match op.group() {
        Group::Load | Group::JumpRegister => true,
        _ => false,
    };
    let rd = match register_at(ops, 0) {
        Ok(v) => v,
        Err(e) => return Err(e),
    };
    let imm = match immediate_at(
        ops,
        if memory {
            1
        } else {
            2
        },
    ) {
        Ok(v) => v,
        Err(e) => return Err(e),
    };
    let rs1 = match register_at(
        ops,
        if memory {
            2
        } else {
            1
        },
    ) {
        Ok(v) => v,
        Err(e) => return Err(e),
    };
    let unsigned = match op {
        Mnemonic::Sltiu | Mnemonic::Lbu | Mnemonic::Lhu => true,
        _ => false,
    };
    if unsigned {
        if imm < 0 || imm > 4095 {
            return Err(Error::ImmediateOutOfRange);
        }
    } else {
        if imm < -2048 || imm > 2047 {
            return Err(Error::ImmediateOutOfRange);
        }
    }
    let mut i = IType(0);
    i.set_imm(itype_field(op, imm));
    i.set_rs1(rs1);
    i.set_funct3(op.funct3());
    i.set_rd(rd);
    i.set_opcode(op.opcode());
    Ok(i.0)
}

fn pack_store(op: Mnemonic, ops: &Vec<String>) -> (r: Result<u32, Error>)
    requires
        op.group() == Group::Store,
    ensures
        r == encode_store(op, views(ops@)),
{
    if ops.len() != 3 {
        return Err(Error::InvalidFormat);
    }
    let rs2 = match register_at(ops, 0) {
        Ok(v) => v,
        Err(e) => return Err(e),
    };
    let imm = match immediate_at(ops, 1) {
        Ok(v) => v,
        Err(e) => return Err(e),
    };
    let rs1 = match register_at(ops, 2) {
        Ok(v) => v,
        Err(e) => return Err(e),
    };
    if imm < -2048 || imm > 2047 {
        return Err(Error::ImmediateOutOfRange);
    }
    let raw = low_bits(imm, 4096);
    let mut s = SType(0);
    s.set_imm11_5(raw / 32);
    s.set_rs2(rs2);
    s.set_rs1(rs1);
    s.set_funct3(op.funct3());
    s.set_imm4_0(raw % 32);
    s.set_opcode(op.opcode());
    Ok(s.0)
}

fn pack_branch(op: Mnemonic, ops: &Vec<String>) -> (r: Result<u32, Error>)
    requires
        op.group() == Group::Branch,
    ensures
        r == encode_branch(op, views(ops@)),
{
    if ops.len() != 3 {
        return Err(Error::InvalidFormat);
    }
    let rs1 = match register_at(ops, 0) {
        Ok(v) => v,
        Err(e) => return Err(e),
    };
    let rs2 = match register_at(ops, 1) {
        Ok(v) => v,
        Err(e) => return Err(e),
    };
    let imm = match immediate_at(ops, 2) {
        Ok(v) => v,
        Err(e) => return Err(e),
    };
    if imm < -4096 || imm > 4094 {
        return Err(Error::ImmediateOutOfRange);
    }
    let raw = low_bits(imm, 8192);
    if raw % 2 != 0 {
        return Err(Error::ImmediateMisaligned);
    }
    let mut b = BType(0);
    b.set_imm12(raw / 4096);
    b.set_imm10_5((raw / 32) % 64);
    b.set_rs2(rs2);
    b.set_rs1(rs1);
    b.set_funct3(op.funct3());
    b.set_imm4_1((raw / 2) % 16);
    b.set_imm11((raw / 2048) % 2);
    b.set_opcode(op.opcode());
    Ok(b.0)
}

fn pack_upper(op: Mnemonic, ops: &Vec<String>) -> (r: Result<u32, Error>)
    requires
        op.group() == Group::Upper,
    ensures
        r == encode_upper(op, views(ops@)),
{
    if ops.len() != 2 {
        return Err(Error::InvalidFormat);
    }
    let rd = match register_at(ops, 0) {
        Ok(v) => v,
        Err(e) => return Err(e),
    };
    let imm = match immediate_at(ops, 1) {
        Ok(v) => v,
        Err(e) => return Err(e),
    };
    if imm < -524288 || imm > 524287 {
        return Err(Error::ImmediateOutOfRange);
    }
    let mut u = UType(0);
    u.set_imm(low_bits(imm, 0x10_0000));
    u.set_rd(rd);
    u.set_opcode(op.opcode());
    Ok(u.0)
}

fn pack_jump(op: Mnemonic, ops: &Vec<String>) -> (r: Result<u32, Error>)
    requires
        op.group() == Group::Jump,
    ensures
        r == encode_jump(op, views(ops@)),
{
    if ops.len() != 2 {
        return Err(Error::InvalidFormat);
    }
    let rd = match register_at(ops, 0) {
        Ok(v) => v,
        Err(e) => return Err(e),
    };
    let imm = match immediate_at(ops, 1) {
        Ok(v) => v,
        Err(e) => return Err(e),
    };
    if imm < -1048576 || imm > 1048574 {
        return Err(Error::ImmediateOutOfRange);
    }
    let raw = low_bits(imm, 0x20_0000);
    if raw % 2 != 0 {
        return Err(Error::ImmediateMisaligned);
    }
    let mut j = JType(0);
    j.set_imm20(raw / 0x10_0000);
    j.set_imm10_1((raw / 2) % 1024);
    j.set_imm11((raw / 2048) % 2);
    j.set_imm19_12((raw / 4096) % 256);
    j.set_rd(rd);
    j.set_opcode(op.opcode());
    Ok(j.0)
}

fn pack_csr(op: Mnemonic, ops: &Vec<String>) -> (r: Result<u32, Error>)
    requires
        op.group() == Group::CsrRegister || op.group() == Group::CsrImmediate,
    ensures
        r == encode_csr(op, views(ops@)),
{
    if ops.len() != 3 {
        return Err(Error::InvalidFormat);
    }
    let rd = match register_at(ops, 0) {
        Ok(v) => v,
        Err(e) => return Err(e),
    };
    let csr = match immediate_at(ops, 1) {
        Ok(v) => v,
        Err(e) => return Err(e),
    };
    if csr < 0 || csr > 0xfff {
        return Err(Error::ImmediateOutOfRange);
    }
    let source = match op.group() {
        Group::CsrImmediate => {
            let z = match immediate_at(ops, 2) {
                Ok(v) => v,
                Err(e) => return Err(e),
            };
            if z < 0 || z > 31 {
                return Err(Error::ImmediateOutOfRange);
            }
            z as u32
        },
        _ => match register_at(ops, 2) {
            Ok(v) => v,
            Err(e) => return Err(e),
        },
    };
    let mut c = CSRType(0);
    c.set_csr(csr as u32);
    c.set_rs1(source);
    c.set_funct3(op.funct3());
    c.set_rd(rd);
    c.set_opcode(op.opcode());
    Ok(c.0)
}

/// Encodes one line of assembly text, `mnemonic op, op, ...`, into an instruction word.
/// Spaces, commas and parentheses all separate tokens.
pub fn encode(instr_string: &str) -> (r: Result<EncodedInstruction, Error>)
    ensures
        match encode_spec(instr_string@) {
            Ok((op, w)) => r matches Ok(d) && d.instr == shaped(op, w) && d.mnemonic@ == op.name()
                && views(d.operands@) == tokens(instr_string@).drop_first(),
            Err(e) => r == Err::<EncodedInstruction, Error>(e),
        },
{
    reveal(encode_spec);
    let toks = tokenize(instr_string);
    if toks.len() == 0 {
        return Err(Error::InvalidFormat);
    }
    let first = chars_of(toks[0].as_str());
    let op = match lookup(&first) {
        Some(op) => op,
        None => return Err(Error::UnknownInstruction),
    };
    let mut operands: Vec<String> = Vec::new();
    for i in 1..toks.len()
        invariant
            views(operands@) == views(toks@).subrange(1, i as int),
    {
        let ghost before = operands@;
        operands.push(toks[i].clone());
        assert(views(operands@) =~= views(before).push(toks@[i as int]@));
        assert(views(toks@).subrange(1, i + 1) =~= views(toks@).subrange(1, i as int).push(
            toks@[i as int]@,
        ));
    }
    assert(views(operands@) =~= views(toks@).drop_first());
    let word = match op.group() {
        Group::Register => pack_register(op, &operands),
        Group::Immediate | Group::Shift | Group::Load | Group::JumpRegister => pack_itype(
            op,
            &operands,
        ),
        Group::Store => pack_store(op, &operands),
        Group::Branch => pack_branch(op, &operands),
        Group::Upper => pack_upper(op, &operands),
        Group::Jump => pack_jump(op, &operands),
        Group::CsrRegister | Group::CsrImmediate => pack_csr(op, &operands),
        Group::Environment => Err(Error::UnknownInstruction),
    };
    match word {
        Ok(w) => Ok(
            EncodedInstruction {
                instr: shape_word(op, w),
                mnemonic: String::from_str(op.as_str()),
                operands,
            },
        ),
        Err(e) => Err(e),
    }
}

} // verus!
