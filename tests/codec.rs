use rvcodec::decoder::decode;
use rvcodec::encoder::encode;
use rvcodec::error::Error;
use rvcodec::fields::{BType, IType, Instruction, JType, RType, SType};

fn decoded(word: u32) -> (String, Vec<String>, u32) {
    let d = decode(word).ok().expect("word decodes");
    (d.mnemonic.clone(), d.operands.clone(), d.instr.word())
}

fn encoded(text: &str) -> (String, Vec<String>, u32) {
    let e = encode(text).ok().expect("text encodes");
    (e.mnemonic.clone(), e.operands.clone(), e.instr.word())
}

fn strings(v: &[&str]) -> Vec<String> {
    v.iter().map(|s| s.to_string()).collect()
}

#[test]
fn sign_extension_of_addi_minus_one() {
    let e = encode("addi x1, x2, -1").ok().unwrap();
    match e.instr {
        Instruction::IType(i) => assert_eq!(i.imm(), 0xfff),
        _ => panic!("addi is I-type"),
    }
    let (m, ops, _) = decoded(e.instr.word());
    assert_eq!(m, "addi");
    assert_eq!(ops, strings(&["x1", "x2", "-1"]));
}

#[test]
fn immediate_range_boundaries() {
    assert!(encode("addi x1, x2, 2047").is_ok());
    assert_eq!(encode("addi x1, x2, 2048").err(), Some(Error::ImmediateOutOfRange));
    assert!(encode("sltiu x1, x2, 4095").is_ok());
    assert_eq!(encode("sltiu x1, x2, -1").err(), Some(Error::ImmediateOutOfRange));
    assert!(encode("addi x1, x2, -2048").is_ok());
    assert_eq!(encode("addi x1, x2, -2049").err(), Some(Error::ImmediateOutOfRange));
}

#[test]
fn branch_offset_alignment() {
    assert_eq!(encode("beq x1, x2, 3").err(), Some(Error::ImmediateMisaligned));
    assert!(encode("beq x1, x2, 4094").is_ok());
    assert_eq!(encode("beq x1, x2, 4096").err(), Some(Error::ImmediateOutOfRange));
    assert!(encode("beq x1, x2, -4096").is_ok());
}

#[test]
fn decode_add() {
    let (m, ops, w) = decoded(0x00c58533);
    assert_eq!(m, "add");
    assert_eq!(ops, strings(&["x10", "x11", "x12"]));
    assert_eq!(w, 0x00c58533);
    let d = decode(0x00c58533).ok().unwrap();
    assert_eq!(d.instr, Instruction::RType(RType(0x00c58533)));
}

#[test]
fn decode_sub() {
    let (m, ops, _) = decoded(0x40c58533);
    assert_eq!(m, "sub");
    assert_eq!(ops, strings(&["x10", "x11", "x12"]));
}

#[test]
fn encode_jal_forward() {
    let e = encode("jal x1, 16").ok().unwrap();
    let j = match e.instr {
        Instruction::JType(j) => j,
        _ => panic!("jal is J-type"),
    };
    assert_eq!(j.opcode(), 0b1101111);
    assert_eq!(j.rd(), 1);
    assert_eq!(j.imm10_1(), 8);
    assert_eq!(j.imm20(), 0);
    assert_eq!(j.imm19_12(), 0);
    assert_eq!(j.imm11(), 0);
    let (m, ops, _) = decoded(j.0);
    assert_eq!(m, "jal");
    assert_eq!(ops, strings(&["x1", "16"]));
}

#[test]
fn decode_ecall() {
    let (m, ops, _) = decoded(0x00000073);
    assert_eq!(m, "ecall");
    assert!(ops.is_empty());
    let (m, ops, _) = decoded(0x00100073);
    assert_eq!(m, "ebreak");
    assert!(ops.is_empty());
}

#[test]
fn load_round_trip() {
    let (m, ops, w) = encoded("lw x5, 8(x6)");
    assert_eq!(m, "lw");
    assert_eq!(ops, strings(&["x5", "8", "x6"]));
    let i = IType(w);
    assert_eq!(i.rd(), 5);
    assert_eq!(i.imm(), 8);
    assert_eq!(i.rs1(), 6);
    let (m, ops, _) = decoded(w);
    assert_eq!(m, "lw");
    assert_eq!(ops, strings(&["x5", "8", "x6"]));
}

#[test]
fn decode_then_encode_gives_the_word() {
    let words: [(u32, &str); 12] = [
        (0x00c58533, "add x10, x11, x12"),
        (0x40c58533, "sub x10, x11, x12"),
        (0xfff10093, "addi x1, x2, -1"),
        (0x00832283, "lw x5, 8(x6)"),
        (0xfe112e23, "sw x1, -4(x2)"),
        (0xfe208ee3, "beq x1, x2, -4"),
        (0x010000ef, "jal x1, 16"),
        (0x00008067, "jalr x0, 0(x1)"),
        (0x30529073, "csrrw x0, 773, x5"),
        (0x3002e073, "csrrsi x0, 768, 5"),
        (0x4051d293, "srai x5, x3, 5"),
        (0x00209093, "slli x1, x1, 2"),
    ];
    for (w, text) in words.iter() {
        let d = decode(*w).ok().unwrap();
        let rendered = format!("{} {}", d.mnemonic, d.operands.join(", "));
        let mut canonical = rendered.clone();
        if ["lw", "sw", "jalr"].contains(&d.mnemonic.as_str()) {
            canonical = format!(
                "{} {}, {}({})",
                d.mnemonic, d.operands[0], d.operands[1], d.operands[2]
            );
        }
        assert_eq!(canonical, *text);
        let (_, _, back) = encoded(&canonical);
        assert_eq!(back, *w);
    }
}

#[test]
fn upper_immediate_round_trip() {
    let (m, ops, w) = encoded("lui x1, 1");
    assert_eq!(m, "lui");
    assert_eq!(ops, strings(&["x1", "1"]));
    assert_eq!(w, 0x000010b7);
    let (m, ops, _) = decoded(w);
    assert_eq!(m, "lui");
    assert_eq!(ops, strings(&["x1", "4096"]));
    let (_, _, back) = encoded("lui x1, 1");
    assert_eq!(back, w);
    let (_, ops, _) = decoded(0xfffff0b7);
    assert_eq!(ops, strings(&["x1", "-4096"]));
    let (_, _, w) = encoded("auipc x3, -1");
    assert_eq!(w, 0xfffff197);
}

#[test]
fn encode_then_decode_gives_the_operands() {
    let lines = [
        "add x1, x2, x3",
        "sra x31, x0, x17",
        "xori x4, x5, -7",
        "srai x5, x3, 5",
        "srli x5, x3, 31",
        "lbu x7, 2047(x8)",
        "sb x9, -2048(x10)",
        "bgeu x11, x12, -4096",
        "jal x13, -1048576",
        "jal x13, 1048574",
        "csrrc x14, 4095, x15",
        "csrrwi x16, 0, 31",
    ];
    for line in lines.iter() {
        let (m, ops, w) = encoded(line);
        let (m2, ops2, _) = decoded(w);
        assert_eq!(m, m2);
        assert_eq!(ops, ops2);
    }
}

#[test]
fn srai_keeps_its_function_code() {
    let (_, _, w) = encoded("srai x1, x2, 3");
    assert_eq!(IType(w).imm(), 0x403);
    let (m, _, _) = decoded(w);
    assert_eq!(m, "srai");
}

#[test]
fn shift_amount_is_cut_to_five_bits() {
    let (_, _, w) = encoded("slli x1, x2, -1");
    assert_eq!(IType(w).imm(), 31);
    let (_, ops, _) = decoded(w);
    assert_eq!(ops, strings(&["x1", "x2", "31"]));
}

#[test]
fn unsigned_immediate_decodes_with_sign() {
    let (_, _, w) = encoded("sltiu x1, x2, 4095");
    let (_, ops, _) = decoded(w);
    assert_eq!(ops, strings(&["x1", "x2", "-1"]));
}

#[test]
fn store_and_branch_fields() {
    let (_, _, w) = encoded("sw x1, -4(x2)");
    let s = SType(w);
    assert_eq!(s.imm11_5(), 0x7f);
    assert_eq!(s.imm4_0(), 0x1c);
    assert_eq!(s.rs2(), 1);
    assert_eq!(s.rs1(), 2);
    let (_, _, w) = encoded("bne x3, x4, 2048");
    let b = BType(w);
    assert_eq!(b.imm11(), 1);
    assert_eq!(b.imm12(), 0);
    assert_eq!(b.imm10_5(), 0);
    assert_eq!(b.imm4_1(), 0);
    assert_eq!(b.funct3(), 1);
}

#[test]
fn jump_fields() {
    let (_, _, w) = encoded("jal x0, -2");
    let j = JType(w);
    assert_eq!(j.imm20(), 1);
    assert_eq!(j.imm10_1(), 0x3ff);
    assert_eq!(j.imm11(), 1);
    assert_eq!(j.imm19_12(), 0xff);
    assert_eq!(decoded(w).1, strings(&["x0", "-2"]));
}

#[test]
fn mnemonic_in_upper_case() {
    let (m, ops, w) = encoded("ADDI x1, x2, 5");
    assert_eq!(m, "addi");
    assert_eq!(ops, strings(&["x1", "x2", "5"]));
    assert_eq!(w, 0x00510093);
}

#[test]
fn separators_are_interchangeable() {
    let (_, _, a) = encoded("lw x1, 4(x2)");
    let (_, _, b) = encoded("lw x1 4 x2");
    let (_, _, c) = encoded("lw x1,4,x2");
    assert_eq!(a, b);
    assert_eq!(a, c);
}

#[test]
fn hex_immediates() {
    let (_, ops, w) = encoded("addi x1, x2, 0x7ff");
    assert_eq!(ops, strings(&["x1", "x2", "0x7ff"]));
    assert_eq!(IType(w).imm(), 0x7ff);
    let (_, _, w) = encoded("csrrs x1, 0X300, x0");
    assert_eq!(w >> 20, 0x300);
}

#[test]
fn decode_errors() {
    assert_eq!(decode(0x0000007f).err(), Some(Error::InvalidOpcode));
    assert_eq!(decode(0x00000000).err(), Some(Error::InvalidOpcode));
    assert_eq!(decode(0x02c58533).err(), Some(Error::UnknownInstruction));
    assert_eq!(decode(0x00003003).err(), Some(Error::UnknownInstruction));
    assert_eq!(decode(0x00001067).err(), Some(Error::UnknownInstruction));
    assert_eq!(decode(0x00004073).err(), Some(Error::UnknownInstruction));
    assert_eq!(decode(0x00200073).err(), Some(Error::UnknownInstruction));
    assert_eq!(decode(0x00000080).err(), Some(Error::InvalidOpcode));
}

#[test]
fn encode_errors() {
    assert_eq!(encode("").err(), Some(Error::InvalidFormat));
    assert_eq!(encode(" , ( ) ").err(), Some(Error::InvalidFormat));
    assert_eq!(encode("add x1, x2").err(), Some(Error::InvalidFormat));
    assert_eq!(encode("lui x1, 2, 3").err(), Some(Error::InvalidFormat));
    assert_eq!(encode("foo x1, x2, x3").err(), Some(Error::UnknownInstruction));
    assert_eq!(encode("ecall").err(), Some(Error::UnknownInstruction));
    assert_eq!(encode("add x32, x1, x2").err(), Some(Error::InvalidRegister));
    assert_eq!(encode("add a0, x1, x2").err(), Some(Error::InvalidRegister));
    assert_eq!(encode("addi x1, x2, abc").err(), Some(Error::InvalidImmediate));
    assert_eq!(encode("addi x1, y2, abc").err(), Some(Error::InvalidImmediate));
    assert_eq!(encode("addi x1, y2, 3").err(), Some(Error::InvalidRegister));
    assert_eq!(encode("lui x1, 524288").err(), Some(Error::ImmediateOutOfRange));
    assert_eq!(encode("jal x1, 3").err(), Some(Error::ImmediateMisaligned));
    assert_eq!(encode("jal x1, 1048576").err(), Some(Error::ImmediateOutOfRange));
    assert_eq!(encode("csrrw x1, 4096, x2").err(), Some(Error::ImmediateOutOfRange));
    assert_eq!(encode("csrrw x1, -1, bad").err(), Some(Error::ImmediateOutOfRange));
    assert_eq!(encode("csrrwi x1, 5, 32").err(), Some(Error::ImmediateOutOfRange));
    assert_eq!(encode("csrrwi x1, 5, x3").err(), Some(Error::InvalidImmediate));
    assert_eq!(encode("addi x1, x2, 99999999999").err(), Some(Error::InvalidImmediate));
}
