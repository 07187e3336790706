//! Round trips between the decoder and the encoder.

use vstd::prelude::*;

use crate::error::Error;
use crate::decoder::{
    b_imm, decode_op, decode_spec, decoded_operands, funct3_of, funct7_of, i_imm, j_imm,
    known_opcode, opcode_of, operand_text, operand_texts, rd_of, rs1_of, rs2_of, s_imm, u_imm,
    Operand,
};
use crate::encoder::{encode_operands, encode_spec, memory_form, unsigned_immediate};
use crate::fields::{
    b_layout, field, i_layout, j_layout, lemma_b_layout, lemma_b_offset, lemma_b_pieces,
    lemma_field_bound, lemma_i_layout, lemma_j_layout, lemma_j_offset, lemma_j_pieces,
    lemma_r_layout, lemma_u_layout, r_layout, u_layout,
};
use crate::format::{assembly_text, join, offset_form};
use crate::isa::{lemma_from_name, Group, Mnemonic};
use crate::text::{
    decimal, is_separator, lemma_decimal, lemma_tokens_blank, lemma_tokens_concat,
    lemma_tokens_word, signed_decimal, tokens,
};
use crate::util::{
    immediate_value, lemma_immediate_text, lemma_register_bound, lemma_register_text,
    register_value,
};

verus! {

pub open spec fn immediate_of(o: Operand) -> int {
    match o {
        Operand::Immediate(v) => v,
        Operand::Register(i) => i as int,
    }
}

/// Decoded operands as the encoder reads them back: an upper immediate by its top twenty bits,
/// and the immediate of `sltiu`, `lbu` and `lhu` without sign.
pub open spec fn encoder_operands(op: Mnemonic, ops: Seq<Operand>) -> Seq<Operand> {
    if op.group() == Group::Upper {
        ops.update(1, Operand::Immediate(immediate_of(ops[1]) / 4096))
    } else if unsigned_immediate(op) && memory_form(op) {
        ops.update(1, Operand::Immediate(immediate_of(ops[1]) % 4096))
    } else if unsigned_immediate(op) {
        ops.update(2, Operand::Immediate(immediate_of(ops[2]) % 4096))
    } else {
        ops
    }
}

/// The canonical encoder input for a decoded instruction.
pub open spec fn render(op: Mnemonic, ops: Seq<Operand>) -> Seq<char> {
    assembly_text(op, operand_texts(encoder_operands(op, ops)))
}

/// An operand's text is one token.
pub proof fn lemma_operand_word(o: Operand)
    ensures
        operand_text(o).len() > 0,
        forall|i: int|
            0 <= i < operand_text(o).len() ==> !is_separator(#[trigger] operand_text(o)[i]),
{
    match o {
        Operand::Register(n) => {
            lemma_decimal(n);
            let t = seq!['x'] + decimal(n);
            assert forall|i: int| 0 <= i < t.len() implies !is_separator(#[trigger] t[i]) by {
                if i > 0 {
                    assert(t[i] == decimal(n)[i - 1]);
                }
            }
        },
        Operand::Immediate(v) => {
            let m: nat = if v < 0 {
                (-v) as nat
            } else {
                v as nat
            };
            lemma_decimal(m);
            let t = signed_decimal(v);
            assert forall|i: int| 0 <= i < t.len() implies !is_separator(#[trigger] t[i]) by {
                if v < 0 && i > 0 {
                    assert(t[i] == decimal(m)[i - 1]);
                }
            }
        },
    }
}

/// A name is one token.
pub proof fn lemma_name_word(op: Mnemonic)
    ensures
        op.name().len() > 0,
        forall|i: int| 0 <= i < op.name().len() ==> !is_separator(#[trigger] op.name()[i]),
{
    reveal_strlit("add");
    reveal_strlit("sub");
    reveal_strlit("sll");
    reveal_strlit("slt");
    reveal_strlit("sltu");
    reveal_strlit("xor");
    reveal_strlit("srl");
    reveal_strlit("sra");
    reveal_strlit("or");
    reveal_strlit("and");
    reveal_strlit("addi");
    reveal_strlit("slti");
    reveal_strlit("sltiu");
    reveal_strlit("xori");
    reveal_strlit("ori");
    reveal_strlit("andi");
    reveal_strlit("slli");
    reveal_strlit("srli");
    reveal_strlit("srai");
    reveal_strlit("lb");
    reveal_strlit("lh");
    reveal_strlit("lw");
    reveal_strlit("lbu");
    reveal_strlit("lhu");
    reveal_strlit("jalr");
    reveal_strlit("sb");
    reveal_strlit("sh");
    reveal_strlit("sw");
    reveal_strlit("beq");
    reveal_strlit("bne");
    reveal_strlit("blt");
    reveal_strlit("bge");
    reveal_strlit("bltu");
    reveal_strlit("bgeu");
    reveal_strlit("lui");
    reveal_strlit("auipc");
    reveal_strlit("jal");
    reveal_strlit("csrrw");
    reveal_strlit("csrrs");
    reveal_strlit("csrrc");
    reveal_strlit("csrrwi");
    reveal_strlit("csrrsi");
    reveal_strlit("csrrci");
    reveal_strlit("ecall");
    reveal_strlit("ebreak");
}

/// The tokens of an assembly text are the name, then the operand texts.
pub proof fn lemma_assembly_tokens(op: Mnemonic, ops: Seq<Operand>)
    requires
        ops.len() == 2 || ops.len() == 3,
    ensures
        tokens(assembly_text(op, operand_texts(ops))) == seq![op.name()] + operand_texts(ops),
{
    reveal(assembly_text);
    let t = operand_texts(ops);
    let name = op.name();
    lemma_name_word(op);
    lemma_tokens_word(name);
    assert forall|k: int| 0 <= k < t.len() implies tokens(t[k]) == seq![t[k]] by {
        lemma_operand_word(ops[k]);
        lemma_tokens_word(t[k]);
    }
    let sp = seq![' '];
    let comma = seq![',', ' '];
    let open = seq!['('];
    let close = seq![')'];
    lemma_tokens_blank(sp);
    lemma_tokens_blank(comma);
    lemma_tokens_blank(open);
    lemma_tokens_blank(close);
    lemma_operand_word(ops[0]);
    lemma_operand_word(ops[1]);
    let a = name + sp;
    lemma_tokens_concat(name, sp);
    let b = a + t[0];
    lemma_tokens_concat(a, t[0]);
    let c = b + comma;
    lemma_tokens_concat(b, comma);
    let d = c + t[1];
    lemma_tokens_concat(c, t[1]);
    if ops.len() == 2 {
        assert(join(t.drop_last()) == t[0]);
        assert(assembly_text(op, t) =~= d);
        assert(tokens(d) =~= seq![name] + t);
    } else {
        lemma_operand_word(ops[2]);
        if offset_form(op) {
            let e = d + open;
            lemma_tokens_concat(d, open);
            let f = e + t[2];
            lemma_tokens_concat(e, t[2]);
            let g = f + close;
            lemma_tokens_concat(f, close);
            assert(assembly_text(op, t) =~= g);
            assert(tokens(g) =~= seq![name] + t);
        } else {
            let e = d + comma;
            lemma_tokens_concat(d, comma);
            let f = e + t[2];
            lemma_tokens_concat(e, t[2]);
            assert(join(t.drop_last().drop_last()) == t[0]);
            assert(join(t.drop_last()) =~= t[0] + comma + t[1]);
            assert(assembly_text(op, t) =~= f);
            assert(tokens(f) =~= seq![name] + t);
        }
    }
}


/// The operation that the decoder reads from a word has that word's opcode and function codes.
pub proof fn lemma_decoded_codes(w: u32)
    requires
        known_opcode(opcode_of(w)),
        decode_op(w) is Some,
    ensures
        ({
            let op = decode_op(w)->Some_0;
            &&& op.opcode() == opcode_of(w)
            &&& (op.group() != Group::Upper && op.group() != Group::Jump) ==> op.funct3()
                == funct3_of(w)
            &&& (op.group() == Group::Register || op == Mnemonic::Srli || op == Mnemonic::Srai)
                ==> op.funct7() == funct7_of(w)
        }),
{
    reveal(decode_op);
    lemma_field_bounds(w);
}

proof fn lemma_field_bounds(w: u32)
    ensures
        rd_of(w) <= 31,
        rs1_of(w) <= 31,
        rs2_of(w) <= 31,
        funct3_of(w) <= 7,
        funct7_of(w) <= 0x7f,
        opcode_of(w) <= 0x7f,
        field(w, 20, 0xfff) <= 0xfff,
        field(w, 20, 0x1f) <= 0x1f,
        field(w, 25, 0x3f) <= 0x3f,
        field(w, 7, 0x1) <= 1,
        field(w, 8, 0xf) <= 0xf,
        field(w, 31, 0x1) <= 1,
        field(w, 12, 0xfffff) <= 0xfffff,
        field(w, 12, 0xff) <= 0xff,
        field(w, 20, 0x1) <= 1,
        field(w, 21, 0x3ff) <= 0x3ff,
{
    lemma_field_bound(w, 7, 0x1f);
    lemma_field_bound(w, 15, 0x1f);
    lemma_field_bound(w, 20, 0x1f);
    lemma_field_bound(w, 12, 0x7);
    lemma_field_bound(w, 25, 0x7f);
    lemma_field_bound(w, 0, 0x7f);
    lemma_field_bound(w, 20, 0xfff);
    lemma_field_bound(w, 25, 0x3f);
    lemma_field_bound(w, 7, 0x1);
    lemma_field_bound(w, 8, 0xf);
    lemma_field_bound(w, 31, 0x1);
    lemma_field_bound(w, 12, 0xfffff);
    lemma_field_bound(w, 12, 0xff);
    lemma_field_bound(w, 20, 0x1);
    lemma_field_bound(w, 21, 0x3ff);
}

/// The texts of register and immediate operands read back as their values.
proof fn lemma_texts_read_back(w: u32)
    ensures
        register_value(operand_text(Operand::Register(rd_of(w) as nat))) == Some(rd_of(w)),
        register_value(operand_text(Operand::Register(rs1_of(w) as nat))) == Some(rs1_of(w)),
        register_value(operand_text(Operand::Register(rs2_of(w) as nat))) == Some(rs2_of(w)),
{
    lemma_field_bounds(w);
    lemma_register_text(rd_of(w) as nat);
    lemma_register_text(rs1_of(w) as nat);
    lemma_register_text(rs2_of(w) as nat);
}

/// Re-encoding a register-register word.
proof fn lemma_reencode_register(op: Mnemonic, w: u32)
    requires
        known_opcode(opcode_of(w)),
        decode_op(w) == Some(op),
        op == Mnemonic::Slli ==> funct7_of(w) == 0,
        op.group() == Group::Register,
    ensures
        encode_operands(op, operand_texts(encoder_operands(op, decoded_operands(op, w))))
            == Ok::<u32, Error>(w),
{
    lemma_decoded_codes(w);
    lemma_field_bounds(w);
    lemma_texts_read_back(w);
    let t = operand_texts(encoder_operands(op, decoded_operands(op, w)));
    lemma_r_layout(0, 0, 0, 0, 0, 0, w);
}

/// Re-encoding a word of the Immediate group.
proof fn lemma_reencode_immediate(op: Mnemonic, w: u32)
    requires
        known_opcode(opcode_of(w)),
        decode_op(w) == Some(op),
        op == Mnemonic::Slli ==> funct7_of(w) == 0,
        op.group() == Group::Immediate,
    ensures
        encode_operands(op, operand_texts(encoder_operands(op, decoded_operands(op, w))))
            == Ok::<u32, Error>(w),
{
    lemma_decoded_codes(w);
    lemma_field_bounds(w);
    lemma_texts_read_back(w);
    let t = operand_texts(encoder_operands(op, decoded_operands(op, w)));
    let f = field(w, 20, 0xfff) as int;
    let v = immediate_of(encoder_operands(op, decoded_operands(op, w))[2]);
    assert(v == if unsigned_immediate(op) {
        i_imm(w) % 4096
    } else {
        i_imm(w)
    });
    assert(v % 4096 == f);
    assert(unsigned_immediate(op) ==> v == f);
    lemma_immediate_text(v);
    lemma_i_layout(0, 0, 0, 0, 0, w);
    assert(t[2] == signed_decimal(v));
}

/// Re-encoding a word of the Shift group.
proof fn lemma_reencode_shift(op: Mnemonic, w: u32)
    requires
        known_opcode(opcode_of(w)),
        decode_op(w) == Some(op),
        op == Mnemonic::Slli ==> funct7_of(w) == 0,
        op.group() == Group::Shift,
    ensures
        encode_operands(op, operand_texts(encoder_operands(op, decoded_operands(op, w))))
            == Ok::<u32, Error>(w),
{
    lemma_decoded_codes(w);
    lemma_field_bounds(w);
    lemma_texts_read_back(w);
    let t = operand_texts(encoder_operands(op, decoded_operands(op, w)));
    let v = field(w, 20, 0x1f) as int;
    lemma_immediate_text(v);
    lemma_i_layout(0, 0, 0, 0, 0, w);
    assert(t[2] == signed_decimal(v));
    assert(v % 32 == v);
    assert(v % 32 + op.funct7() * 32 == field(w, 20, 0xfff));
}

/// Re-encoding a word of the Load group.
proof fn lemma_reencode_load(op: Mnemonic, w: u32)
    requires
        known_opcode(opcode_of(w)),
        decode_op(w) == Some(op),
        op == Mnemonic::Slli ==> funct7_of(w) == 0,
        op.group() == Group::Load,
    ensures
        encode_operands(op, operand_texts(encoder_operands(op, decoded_operands(op, w))))
            == Ok::<u32, Error>(w),
{
    lemma_decoded_codes(w);
    lemma_field_bounds(w);
    lemma_texts_read_back(w);
    let t = operand_texts(encoder_operands(op, decoded_operands(op, w)));
    let f = field(w, 20, 0xfff) as int;
    let v = immediate_of(encoder_operands(op, decoded_operands(op, w))[1]);
    assert(v == if unsigned_immediate(op) {
        i_imm(w) % 4096
    } else {
        i_imm(w)
    });
    assert(v % 4096 == f);
    assert(unsigned_immediate(op) ==> v == f);
    lemma_immediate_text(v);
    lemma_i_layout(0, 0, 0, 0, 0, w);
    assert(t[1] == signed_decimal(v));
}

/// Re-encoding a word of the JumpRegister group.
proof fn lemma_reencode_jumpregister(op: Mnemonic, w: u32)
    requires
        known_opcode(opcode_of(w)),
        decode_op(w) == Some(op),
        op == Mnemonic::Slli ==> funct7_of(w) == 0,
        op.group() == Group::JumpRegister,
    ensures
        encode_operands(op, operand_texts(encoder_operands(op, decoded_operands(op, w))))
            == Ok::<u32, Error>(w),
{
    lemma_decoded_codes(w);
    lemma_field_bounds(w);
    lemma_texts_read_back(w);
    let t = operand_texts(encoder_operands(op, decoded_operands(op, w)));
    let f = field(w, 20, 0xfff) as int;
    let v = immediate_of(encoder_operands(op, decoded_operands(op, w))[1]);
    assert(v == if unsigned_immediate(op) {
        i_imm(w) % 4096
    } else {
        i_imm(w)
    });
    assert(v % 4096 == f);
    assert(unsigned_immediate(op) ==> v == f);
    lemma_immediate_text(v);
    lemma_i_layout(0, 0, 0, 0, 0, w);
    assert(t[1] == signed_decimal(v));
}

/// Re-encoding a store word.
proof fn lemma_reencode_store(op: Mnemonic, w: u32)
    requires
        known_opcode(opcode_of(w)),
        decode_op(w) == Some(op),
        op == Mnemonic::Slli ==> funct7_of(w) == 0,
        op.group() == Group::Store,
    ensures
        encode_operands(op, operand_texts(encoder_operands(op, decoded_operands(op, w))))
            == Ok::<u32, Error>(w),
{
    lemma_decoded_codes(w);
    lemma_field_bounds(w);
    lemma_texts_read_back(w);
    let t = operand_texts(encoder_operands(op, decoded_operands(op, w)));
    let v = s_imm(w);
    let hi = field(w, 25, 0x7f) as int;
    let lo = field(w, 7, 0x1f) as int;
    assert(v % 4096 == hi * 32 + lo);
    assert((hi * 32 + lo) / 32 == hi);
    assert((hi * 32 + lo) % 32 == lo);
    lemma_immediate_text(v);
    lemma_r_layout(0, 0, 0, 0, 0, 0, w);
    assert(t[1] == signed_decimal(v));
}

/// Re-encoding a branch word.
proof fn lemma_reencode_branch(op: Mnemonic, w: u32)
    requires
        known_opcode(opcode_of(w)),
        decode_op(w) == Some(op),
        op == Mnemonic::Slli ==> funct7_of(w) == 0,
        op.group() == Group::Branch,
    ensures
        encode_operands(op, operand_texts(encoder_operands(op, decoded_operands(op, w))))
            == Ok::<u32, Error>(w),
{
    lemma_decoded_codes(w);
    lemma_field_bounds(w);
    lemma_texts_read_back(w);
    let t = operand_texts(encoder_operands(op, decoded_operands(op, w)));
    let v = b_imm(w);
    let a = field(w, 31, 0x1);
    let b = field(w, 25, 0x3f);
    let f = field(w, 8, 0xf);
    let g = field(w, 7, 0x1);
    let s = a * 0x1000 + g * 0x800 + b * 32 + f * 2;
    lemma_b_offset(a, b, f, g);
    assert(v % 8192 == s);
    assert(v % 2 == 0);
    lemma_immediate_text(v);
    lemma_b_layout(0, 0, 0, 0, 0, 0, 0, 0, w);
    assert(t[2] == signed_decimal(v));
}

/// Re-encoding an upper-immediate word.
proof fn lemma_reencode_upper(op: Mnemonic, w: u32)
    requires
        known_opcode(opcode_of(w)),
        decode_op(w) == Some(op),
        op == Mnemonic::Slli ==> funct7_of(w) == 0,
        op.group() == Group::Upper,
    ensures
        encode_operands(op, operand_texts(encoder_operands(op, decoded_operands(op, w))))
            == Ok::<u32, Error>(w),
{
    lemma_decoded_codes(w);
    lemma_field_bounds(w);
    lemma_texts_read_back(w);
    let t = operand_texts(encoder_operands(op, decoded_operands(op, w)));
    let f = field(w, 12, 0xfffff) as int;
    let v = u_imm(w) / 4096;
    assert(v == if f >= 0x8_0000 {
        f - 0x10_0000
    } else {
        f
    });
    assert(v % 0x10_0000 == f);
    lemma_immediate_text(v);
    lemma_u_layout(0, 0, 0, w);
    assert(t[1] == signed_decimal(v));
}

/// Re-encoding a jump word.
proof fn lemma_reencode_jump(op: Mnemonic, w: u32)
    requires
        known_opcode(opcode_of(w)),
        decode_op(w) == Some(op),
        op == Mnemonic::Slli ==> funct7_of(w) == 0,
        op.group() == Group::Jump,
    ensures
        encode_operands(op, operand_texts(encoder_operands(op, decoded_operands(op, w))))
            == Ok::<u32, Error>(w),
{
    lemma_decoded_codes(w);
    lemma_field_bounds(w);
    lemma_texts_read_back(w);
    let t = operand_texts(encoder_operands(op, decoded_operands(op, w)));
    let v = j_imm(w);
    let a = field(w, 31, 0x1);
    let b = field(w, 21, 0x3ff);
    let c = field(w, 20, 0x1);
    let d = field(w, 12, 0xff);
    let s = a * 0x10_0000 + d * 0x1000 + c * 0x800 + b * 2;
    lemma_j_offset(a, b, c, d);
    assert(v % 0x20_0000 == s);
    assert(v % 2 == 0);
    lemma_immediate_text(v);
    lemma_j_layout(0, 0, 0, 0, 0, 0, w);
    assert(t[1] == signed_decimal(v));
}

/// Re-encoding a CSR word with a register source.
proof fn lemma_reencode_csrregister(op: Mnemonic, w: u32)
    requires
        known_opcode(opcode_of(w)),
        decode_op(w) == Some(op),
        op == Mnemonic::Slli ==> funct7_of(w) == 0,
        op.group() == Group::CsrRegister,
    ensures
        encode_operands(op, operand_texts(encoder_operands(op, decoded_operands(op, w))))
            == Ok::<u32, Error>(w),
{
    lemma_decoded_codes(w);
    lemma_field_bounds(w);
    lemma_texts_read_back(w);
    let t = operand_texts(encoder_operands(op, decoded_operands(op, w)));
    let csr = field(w, 20, 0xfff) as int;
    lemma_immediate_text(csr);
    lemma_immediate_text(rs1_of(w) as int);
    lemma_i_layout(0, 0, 0, 0, 0, w);
    assert(t[1] == signed_decimal(csr));
}

/// Re-encoding a CSR word with an immediate source.
proof fn lemma_reencode_csrimmediate(op: Mnemonic, w: u32)
    requires
        known_opcode(opcode_of(w)),
        decode_op(w) == Some(op),
        op == Mnemonic::Slli ==> funct7_of(w) == 0,
        op.group() == Group::CsrImmediate,
    ensures
        encode_operands(op, operand_texts(encoder_operands(op, decoded_operands(op, w))))
            == Ok::<u32, Error>(w),
{
    lemma_decoded_codes(w);
    lemma_field_bounds(w);
    lemma_texts_read_back(w);
    let t = operand_texts(encoder_operands(op, decoded_operands(op, w)));
    let csr = field(w, 20, 0xfff) as int;
    lemma_immediate_text(csr);
    lemma_immediate_text(rs1_of(w) as int);
    lemma_i_layout(0, 0, 0, 0, 0, w);
    assert(t[1] == signed_decimal(csr));
}

/// Encoding the operands that the decoder found in `w`, as the encoder reads them, gives `w`.
proof fn lemma_reencode(op: Mnemonic, w: u32)
    requires
        known_opcode(opcode_of(w)),
        decode_op(w) == Some(op),
        op.group() != Group::Environment,
        op == Mnemonic::Slli ==> funct7_of(w) == 0,
    ensures
        encode_operands(op, operand_texts(encoder_operands(op, decoded_operands(op, w))))
            == Ok::<u32, Error>(w),
{
    match op.group() {
        Group::Register => lemma_reencode_register(op, w),
        Group::Immediate => lemma_reencode_immediate(op, w),
        Group::Shift => lemma_reencode_shift(op, w),
        Group::Load => lemma_reencode_load(op, w),
        Group::JumpRegister => lemma_reencode_jumpregister(op, w),
        Group::Store => lemma_reencode_store(op, w),
        Group::Branch => lemma_reencode_branch(op, w),
        Group::Upper => lemma_reencode_upper(op, w),
        Group::Jump => lemma_reencode_jump(op, w),
        Group::CsrRegister => lemma_reencode_csrregister(op, w),
        Group::CsrImmediate => lemma_reencode_csrimmediate(op, w),
        Group::Environment => {},
    }
}

/// Decoding a word and encoding the canonical text of the result gives the word back, for
/// every word that decodes to an operation the encoder accepts (all but `ecall` and `ebreak`),
/// except an `slli` word whose bits 31..25 are not zero.
pub proof fn lemma_decode_then_encode(w: u32)
    requires
        decode_spec(w) is Ok,
        decode_spec(w)->Ok_0.0.group() != Group::Environment,
        decode_spec(w)->Ok_0.0 == Mnemonic::Slli ==> funct7_of(w) == 0,
    ensures
        encode_spec(render(decode_spec(w)->Ok_0.0, decode_spec(w)->Ok_0.1)) == Ok::<
            (Mnemonic, u32),
            Error,
        >((decode_spec(w)->Ok_0.0, w)),
{
    let op = decode_op(w)->Some_0;
    let ops = decoded_operands(op, w);
    let can = encoder_operands(op, ops);
    lemma_assembly_tokens(op, can);
    let toks = tokens(render(op, ops));
    assert(toks == seq![op.name()] + operand_texts(can));
    assert(toks.len() > 0);
    assert(toks[0] == op.name());
    assert(toks.drop_first() =~= operand_texts(can));
    lemma_from_name(op);
    lemma_reencode(op, w);
    assert(encode_operands(op, toks.drop_first()) == Ok::<u32, Error>(w));
    reveal(encode_spec);
}


pub open spec fn register_at(ops: Seq<Seq<char>>, k: int) -> Operand {
    Operand::Register(register_value(ops[k])->Some_0 as nat)
}

pub open spec fn immediate_at(ops: Seq<Seq<char>>, k: int) -> Operand {
    Operand::Immediate(immediate_value(ops[k])->Some_0 as int)
}

/// The values that the operand tokens `ops` of `op` write, in order.
pub open spec fn written_operands(op: Mnemonic, ops: Seq<Seq<char>>) -> Seq<Operand> {
    match op.group() {
        Group::Register => seq![register_at(ops, 0), register_at(ops, 1), register_at(ops, 2)],
        Group::Immediate | Group::Shift => seq![
            register_at(ops, 0),
            register_at(ops, 1),
            immediate_at(ops, 2),
        ],
        Group::Load | Group::JumpRegister | Group::Store | Group::CsrRegister => seq![
            register_at(ops, 0),
            immediate_at(ops, 1),
            register_at(ops, 2),
        ],
        Group::Branch => seq![register_at(ops, 0), register_at(ops, 1), immediate_at(ops, 2)],
        Group::Upper | Group::Jump => seq![register_at(ops, 0), immediate_at(ops, 1)],
        Group::CsrImmediate => seq![
            register_at(ops, 0),
            immediate_at(ops, 1),
            immediate_at(ops, 2),
        ],
        Group::Environment => seq![],
    }
}

/// The written operands that decoding gives back unchanged: all but an upper immediate other
/// than zero (decoded in place, 4096 times over), an immediate of `sltiu`, `lbu` or `lhu` above
/// 2047 (decoded with a sign), and a shift amount outside `0..=31` (cut to its low five bits).
pub open spec fn reads_back(op: Mnemonic, ops: Seq<Seq<char>>) -> bool {
    &&& op.group() == Group::Upper ==> immediate_value(ops[1]) == Some(0i32)
    &&& op.group() == Group::Shift ==> 0 <= immediate_value(ops[2])->Some_0 <= 31
    &&& unsigned_immediate(op) && memory_form(op) ==> immediate_value(ops[1])->Some_0 <= 2047
    &&& unsigned_immediate(op) && !memory_form(op) ==> immediate_value(ops[2])->Some_0 <= 2047
}

/// A word with the opcode and function codes of `op` decodes as `op`.
pub proof fn lemma_codes_decode(op: Mnemonic, w: u32)
    requires
        op.group() != Group::Environment,
        opcode_of(w) == op.opcode(),
        op.group() != Group::Upper && op.group() != Group::Jump ==> funct3_of(w) == op.funct3(),
        op.group() == Group::Register || op.group() == Group::Shift ==> funct7_of(w)
            == op.funct7(),
    ensures
        known_opcode(opcode_of(w)),
        decode_op(w) == Some(op),
{
    reveal(decode_op);
}

/// Decoding the word of a register-register line.
proof fn lemma_redecode_register(op: Mnemonic, ops: Seq<Seq<char>>)
    requires
        op.group() == Group::Register,
        encode_operands(op, ops) is Ok,
        reads_back(op, ops),
    ensures
        decode_spec(encode_operands(op, ops)->Ok_0) == Ok::<(Mnemonic, Seq<Operand>), Error>(
            (op, written_operands(op, ops)),
        ),
{
    let w = encode_operands(op, ops)->Ok_0;
    lemma_register_bound(ops[0]);
    lemma_register_bound(ops[1]);
    lemma_register_bound(ops[2]);
    let r0 = register_value(ops[0])->Some_0;
    let r1 = register_value(ops[1])->Some_0;
    let r2 = register_value(ops[2])->Some_0;
    assert(w == r_layout(op.funct7(), r2, r1, op.funct3(), r0, op.opcode()));
    lemma_r_layout(op.funct7(), r2, r1, op.funct3(), r0, op.opcode(), 0);
    lemma_codes_decode(op, w);
    assert(decoded_operands(op, w) =~= written_operands(op, ops));
}

/// Decoding the word of a register-immediate line.
proof fn lemma_redecode_immediate(op: Mnemonic, ops: Seq<Seq<char>>)
    requires
        op.group() == Group::Immediate,
        encode_operands(op, ops) is Ok,
        reads_back(op, ops),
    ensures
        decode_spec(encode_operands(op, ops)->Ok_0) == Ok::<(Mnemonic, Seq<Operand>), Error>(
            (op, written_operands(op, ops)),
        ),
{
    let w = encode_operands(op, ops)->Ok_0;
    lemma_register_bound(ops[0]);
    lemma_register_bound(ops[1]);
    lemma_register_bound(ops[2]);
    let r0 = register_value(ops[0])->Some_0;
    let r1 = register_value(ops[1])->Some_0;
    let r2 = register_value(ops[2])->Some_0;
    let imm = immediate_value(ops[2])->Some_0 as int;
    let f = (imm % 4096) as u32;
    assert(w == i_layout(f, r1, op.funct3(), r0, op.opcode()));
    lemma_i_layout(f, r1, op.funct3(), r0, op.opcode(), 0);
    assert(i_imm(w) == imm);
    lemma_codes_decode(op, w);
    assert(decoded_operands(op, w) =~= written_operands(op, ops));
}

/// Decoding the word of a shift line.
proof fn lemma_redecode_shift(op: Mnemonic, ops: Seq<Seq<char>>)
    requires
        op.group() == Group::Shift,
        encode_operands(op, ops) is Ok,
        reads_back(op, ops),
    ensures
        decode_spec(encode_operands(op, ops)->Ok_0) == Ok::<(Mnemonic, Seq<Operand>), Error>(
            (op, written_operands(op, ops)),
        ),
{
    let w = encode_operands(op, ops)->Ok_0;
    lemma_register_bound(ops[0]);
    lemma_register_bound(ops[1]);
    lemma_register_bound(ops[2]);
    let r0 = register_value(ops[0])->Some_0;
    let r1 = register_value(ops[1])->Some_0;
    let r2 = register_value(ops[2])->Some_0;
    let imm = immediate_value(ops[2])->Some_0 as int;
    let f = (imm % 32 + op.funct7() * 32) as u32;
    assert(w == i_layout(f, r1, op.funct3(), r0, op.opcode()));
    lemma_i_layout(f, r1, op.funct3(), r0, op.opcode(), 0);
    assert(f % 32 == imm);
    assert(f / 32 == op.funct7());
    lemma_codes_decode(op, w);
    assert(decoded_operands(op, w) =~= written_operands(op, ops));
}

/// Decoding the word of a load line.
proof fn lemma_redecode_load(op: Mnemonic, ops: Seq<Seq<char>>)
    requires
        op.group() == Group::Load,
        encode_operands(op, ops) is Ok,
        reads_back(op, ops),
    ensures
        decode_spec(encode_operands(op, ops)->Ok_0) == Ok::<(Mnemonic, Seq<Operand>), Error>(
            (op, written_operands(op, ops)),
        ),
{
    let w = encode_operands(op, ops)->Ok_0;
    lemma_register_bound(ops[0]);
    lemma_register_bound(ops[1]);
    lemma_register_bound(ops[2]);
    let r0 = register_value(ops[0])->Some_0;
    let r1 = register_value(ops[1])->Some_0;
    let r2 = register_value(ops[2])->Some_0;
    let imm = immediate_value(ops[1])->Some_0 as int;
    let f = (imm % 4096) as u32;
    assert(w == i_layout(f, r2, op.funct3(), r0, op.opcode()));
    lemma_i_layout(f, r2, op.funct3(), r0, op.opcode(), 0);
    assert(i_imm(w) == imm);
    lemma_codes_decode(op, w);
    assert(decoded_operands(op, w) =~= written_operands(op, ops));
}

/// Decoding the word of a store line.
proof fn lemma_redecode_store(op: Mnemonic, ops: Seq<Seq<char>>)
    requires
        op.group() == Group::Store,
        encode_operands(op, ops) is Ok,
        reads_back(op, ops),
    ensures
        decode_spec(encode_operands(op, ops)->Ok_0) == Ok::<(Mnemonic, Seq<Operand>), Error>(
            (op, written_operands(op, ops)),
        ),
{
    let w = encode_operands(op, ops)->Ok_0;
    lemma_register_bound(ops[0]);
    lemma_register_bound(ops[1]);
    lemma_register_bound(ops[2]);
    let r0 = register_value(ops[0])->Some_0;
    let r1 = register_value(ops[1])->Some_0;
    let r2 = register_value(ops[2])->Some_0;
    let imm = immediate_value(ops[1])->Some_0 as int;
    let raw = imm % 4096;
    assert(w == r_layout((raw / 32) as u32, r0, r2, op.funct3(), (raw % 32) as u32, op.opcode()));
    lemma_r_layout((raw / 32) as u32, r0, r2, op.funct3(), (raw % 32) as u32, op.opcode(), 0);
    assert((raw / 32) * 32 + raw % 32 == raw);
    assert(s_imm(w) == imm);
    lemma_codes_decode(op, w);
    assert(decoded_operands(op, w) =~= written_operands(op, ops));
}

/// Decoding the word of a branch line.
proof fn lemma_redecode_branch(op: Mnemonic, ops: Seq<Seq<char>>)
    requires
        op.group() == Group::Branch,
        encode_operands(op, ops) is Ok,
        reads_back(op, ops),
    ensures
        decode_spec(encode_operands(op, ops)->Ok_0) == Ok::<(Mnemonic, Seq<Operand>), Error>(
            (op, written_operands(op, ops)),
        ),
{
    let w = encode_operands(op, ops)->Ok_0;
    lemma_register_bound(ops[0]);
    lemma_register_bound(ops[1]);
    lemma_register_bound(ops[2]);
    let r0 = register_value(ops[0])->Some_0;
    let r1 = register_value(ops[1])->Some_0;
    let r2 = register_value(ops[2])->Some_0;
    let imm = immediate_value(ops[2])->Some_0 as int;
    let raw = imm % 8192;
    let a = (raw / 4096) as u32;
    let b = ((raw / 32) % 64) as u32;
    let f = ((raw / 2) % 16) as u32;
    let g = ((raw / 2048) % 2) as u32;
    assert(w == b_layout(a, b, r1, r0, op.funct3(), f, g, op.opcode()));
    lemma_b_layout(a, b, r1, r0, op.funct3(), f, g, op.opcode(), 0);
    assert(raw % 2 == 0);
    lemma_b_pieces(raw as u32);
    assert(a * 0x1000 + g * 0x800 + b * 32 + f * 2 == raw);
    assert(field(w, 31, 0x1) == a && field(w, 25, 0x3f) == b && field(w, 8, 0xf) == f && field(
        w,
        7,
        0x1,
    ) == g);
    assert(b_imm(w) == imm);
    lemma_codes_decode(op, w);
    assert(decoded_operands(op, w) =~= written_operands(op, ops));
}

/// Decoding the word of an upper-immediate line.
proof fn lemma_redecode_upper(op: Mnemonic, ops: Seq<Seq<char>>)
    requires
        op.group() == Group::Upper,
        encode_operands(op, ops) is Ok,
        reads_back(op, ops),
    ensures
        decode_spec(encode_operands(op, ops)->Ok_0) == Ok::<(Mnemonic, Seq<Operand>), Error>(
            (op, written_operands(op, ops)),
        ),
{
    let w = encode_operands(op, ops)->Ok_0;
    lemma_register_bound(ops[0]);
    lemma_register_bound(ops[1]);
    lemma_register_bound(ops[2]);
    let r0 = register_value(ops[0])->Some_0;
    let r1 = register_value(ops[1])->Some_0;
    let r2 = register_value(ops[2])->Some_0;
    let imm = immediate_value(ops[1])->Some_0 as int;
    assert(imm == 0);
    assert(w == u_layout(0, r0, op.opcode()));
    lemma_u_layout(0, r0, op.opcode(), 0);
    assert(u_imm(w) == imm);
    lemma_codes_decode(op, w);
    assert(decoded_operands(op, w) =~= written_operands(op, ops));
}

/// Decoding the word of a `jal` line.
proof fn lemma_redecode_jump(op: Mnemonic, ops: Seq<Seq<char>>)
    requires
        op.group() == Group::Jump,
        encode_operands(op, ops) is Ok,
        reads_back(op, ops),
    ensures
        decode_spec(encode_operands(op, ops)->Ok_0) == Ok::<(Mnemonic, Seq<Operand>), Error>(
            (op, written_operands(op, ops)),
        ),
{
    let w = encode_operands(op, ops)->Ok_0;
    lemma_register_bound(ops[0]);
    lemma_register_bound(ops[1]);
    lemma_register_bound(ops[2]);
    let r0 = register_value(ops[0])->Some_0;
    let r1 = register_value(ops[1])->Some_0;
    let r2 = register_value(ops[2])->Some_0;
    let imm = immediate_value(ops[1])->Some_0 as int;
    let raw = imm % 0x20_0000;
    let a = (raw / 0x10_0000) as u32;
    let b = ((raw / 2) % 1024) as u32;
    let c = ((raw / 2048) % 2) as u32;
    let d = ((raw / 4096) % 256) as u32;
    assert(w == j_layout(a, b, c, d, r0, op.opcode()));
    lemma_j_layout(a, b, c, d, r0, op.opcode(), 0);
    assert(raw % 2 == 0);
    lemma_j_pieces(raw as u32);
    assert(a * 0x10_0000 + d * 0x1000 + c * 0x800 + b * 2 == raw);
    assert(field(w, 31, 0x1) == a && field(w, 21, 0x3ff) == b && field(w, 20, 0x1) == c && field(
        w,
        12,
        0xff,
    ) == d);
    assert(j_imm(w) == imm);
    lemma_codes_decode(op, w);
    assert(decoded_operands(op, w) =~= written_operands(op, ops));
}

/// Decoding the word of a CSR line with a register source.
proof fn lemma_redecode_csrregister(op: Mnemonic, ops: Seq<Seq<char>>)
    requires
        op.group() == Group::CsrRegister,
        encode_operands(op, ops) is Ok,
        reads_back(op, ops),
    ensures
        decode_spec(encode_operands(op, ops)->Ok_0) == Ok::<(Mnemonic, Seq<Operand>), Error>(
            (op, written_operands(op, ops)),
        ),
{
    let w = encode_operands(op, ops)->Ok_0;
    lemma_register_bound(ops[0]);
    lemma_register_bound(ops[1]);
    lemma_register_bound(ops[2]);
    let r0 = register_value(ops[0])->Some_0;
    let r1 = register_value(ops[1])->Some_0;
    let r2 = register_value(ops[2])->Some_0;
    let csr = immediate_value(ops[1])->Some_0 as int;
    assert(w == i_layout(csr as u32, r2, op.funct3(), r0, op.opcode()));
    lemma_i_layout(csr as u32, r2, op.funct3(), r0, op.opcode(), 0);
    lemma_codes_decode(op, w);
    assert(decoded_operands(op, w) =~= written_operands(op, ops));
}

/// Decoding the word of a CSR line with an immediate source.
proof fn lemma_redecode_csrimmediate(op: Mnemonic, ops: Seq<Seq<char>>)
    requires
        op.group() == Group::CsrImmediate,
        encode_operands(op, ops) is Ok,
        reads_back(op, ops),
    ensures
        decode_spec(encode_operands(op, ops)->Ok_0) == Ok::<(Mnemonic, Seq<Operand>), Error>(
            (op, written_operands(op, ops)),
        ),
{
    let w = encode_operands(op, ops)->Ok_0;
    lemma_register_bound(ops[0]);
    lemma_register_bound(ops[1]);
    lemma_register_bound(ops[2]);
    let r0 = register_value(ops[0])->Some_0;
    let r1 = register_value(ops[1])->Some_0;
    let r2 = register_value(ops[2])->Some_0;
    let csr = immediate_value(ops[1])->Some_0 as int;
    let z = immediate_value(ops[2])->Some_0 as int;
    assert(w == i_layout(csr as u32, z as u32, op.funct3(), r0, op.opcode()));
    lemma_i_layout(csr as u32, z as u32, op.funct3(), r0, op.opcode(), 0);
    lemma_codes_decode(op, w);
    assert(decoded_operands(op, w) =~= written_operands(op, ops));
}

/// Decoding the word of a `jalr` line.
proof fn lemma_redecode_jumpregister(op: Mnemonic, ops: Seq<Seq<char>>)
    requires
        op.group() == Group::JumpRegister,
        encode_operands(op, ops) is Ok,
        reads_back(op, ops),
    ensures
        decode_spec(encode_operands(op, ops)->Ok_0) == Ok::<(Mnemonic, Seq<Operand>), Error>(
            (op, written_operands(op, ops)),
        ),
{
    let w = encode_operands(op, ops)->Ok_0;
    lemma_register_bound(ops[0]);
    lemma_register_bound(ops[1]);
    lemma_register_bound(ops[2]);
    let r0 = register_value(ops[0])->Some_0;
    let r1 = register_value(ops[1])->Some_0;
    let r2 = register_value(ops[2])->Some_0;
    let imm = immediate_value(ops[1])->Some_0 as int;
    let f = (imm % 4096) as u32;
    assert(w == i_layout(f, r2, op.funct3(), r0, op.opcode()));
    lemma_i_layout(f, r2, op.funct3(), r0, op.opcode(), 0);
    assert(i_imm(w) == imm);
    lemma_codes_decode(op, w);
    assert(decoded_operands(op, w) =~= written_operands(op, ops));
}

/// Decoding the word that a line of text encodes to gives back the line's operation, and the
/// values its operand tokens write, wherever those read back unchanged (see `reads_back`).
pub proof fn lemma_encode_then_decode(text: Seq<char>)
    requires
        encode_spec(text) is Ok,
        reads_back(encode_spec(text)->Ok_0.0, tokens(text).drop_first()),
    ensures
        decode_spec(encode_spec(text)->Ok_0.1) == Ok::<(Mnemonic, Seq<Operand>), Error>(
            (
                encode_spec(text)->Ok_0.0,
                written_operands(encode_spec(text)->Ok_0.0, tokens(text).drop_first()),
            ),
        ),
{
    reveal(encode_spec);
    let toks = tokens(text);
    let op = encode_spec(text)->Ok_0.0;
    let ops = toks.drop_first();
    assert(encode_operands(op, ops) is Ok);
    match op.group() {
        Group::Register => lemma_redecode_register(op, ops),
        Group::Immediate => lemma_redecode_immediate(op, ops),
        Group::Shift => lemma_redecode_shift(op, ops),
        Group::Load => lemma_redecode_load(op, ops),
        Group::Store => lemma_redecode_store(op, ops),
        Group::Branch => lemma_redecode_branch(op, ops),
        Group::Upper => lemma_redecode_upper(op, ops),
        Group::Jump => lemma_redecode_jump(op, ops),
        Group::CsrRegister => lemma_redecode_csrregister(op, ops),
        Group::CsrImmediate => lemma_redecode_csrimmediate(op, ops),
        Group::JumpRegister => lemma_redecode_jumpregister(op, ops),
        Group::Environment => {},
    }
}

} // verus!
