use rvcodec::error::Error;
use rvcodec::fields::{Instruction, RType};
use rvcodec::format::{assembly, bit_groups, hex_text, Role};
use rvcodec::decoder::decode;
use rvcodec::encoder::encode;
use rvcodec::session::{respond, Reply};
use rvcodec::util::{
    abi_to_numeric, abis_to_operands, is_hex, numeric_to_abi, operands_to_abi, parse_immediate,
    parse_reg,
};

fn strings(v: &[&str]) -> Vec<String> {
    v.iter().map(|s| s.to_string()).collect()
}

#[test]
fn hex_prefix() {
    assert!(is_hex("0x1f"));
    assert!(is_hex("0X"));
    assert!(!is_hex("x0"));
    assert!(!is_hex("0"));
    assert!(!is_hex("-0x1"));
}

#[test]
fn immediates_parse() {
    assert_eq!(parse_immediate("42"), Ok(42));
    assert_eq!(parse_immediate("-42"), Ok(-42));
    assert_eq!(parse_immediate("+7"), Ok(7));
    assert_eq!(parse_immediate("0x10"), Ok(16));
    assert_eq!(parse_immediate("0XfF"), Ok(255));
    assert_eq!(parse_immediate("0x-10"), Ok(-16));
    assert_eq!(parse_immediate(" \t12\n"), Ok(12));
    assert_eq!(parse_immediate("2147483647"), Ok(i32::MAX));
    assert_eq!(parse_immediate("-2147483648"), Ok(i32::MIN));
    assert_eq!(parse_immediate("2147483648"), Err(Error::InvalidImmediate));
    assert_eq!(parse_immediate("0xffffffff"), Err(Error::InvalidImmediate));
    assert_eq!(parse_immediate("-0x10"), Err(Error::InvalidImmediate));
    assert_eq!(parse_immediate("0x"), Err(Error::InvalidImmediate));
    assert_eq!(parse_immediate(""), Err(Error::InvalidImmediate));
    assert_eq!(parse_immediate("-"), Err(Error::InvalidImmediate));
    assert_eq!(parse_immediate("12a"), Err(Error::InvalidImmediate));
}

#[test]
fn registers_parse() {
    assert_eq!(parse_reg("x0"), Ok(0));
    assert_eq!(parse_reg("x31"), Ok(31));
    assert_eq!(parse_reg("x07"), Ok(7));
    assert_eq!(parse_reg("x+5"), Ok(5));
    assert_eq!(parse_reg("x32"), Err(Error::InvalidRegister));
    assert_eq!(parse_reg("x"), Err(Error::InvalidRegister));
    assert_eq!(parse_reg("X1"), Err(Error::InvalidRegister));
    assert_eq!(parse_reg("x-1"), Err(Error::InvalidRegister));
    assert_eq!(parse_reg("x99999999999999"), Err(Error::InvalidRegister));
    assert_eq!(parse_reg("sp"), Err(Error::InvalidRegister));
}

#[test]
fn abi_names() {
    assert_eq!(numeric_to_abi("x0"), "zero");
    assert_eq!(numeric_to_abi("x2"), "sp");
    assert_eq!(numeric_to_abi("x8"), "s0");
    assert_eq!(numeric_to_abi("x31"), "t6");
    assert_eq!(numeric_to_abi("x32"), "x32");
    assert_eq!(numeric_to_abi("-4"), "-4");
    assert_eq!(abi_to_numeric("zero"), "x0");
    assert_eq!(abi_to_numeric("a0"), "x10");
    assert_eq!(abi_to_numeric("s11"), "x27");
    assert_eq!(abi_to_numeric("fp"), "fp");
    assert_eq!(abi_to_numeric("16"), "16");
    let ops = strings(&["x10", "8", "x2"]);
    let abi = operands_to_abi(&ops);
    assert_eq!(abi, strings(&["a0", "8", "sp"]));
    assert_eq!(abis_to_operands(&abi), ops);
}

fn plain(frags: &[rvcodec::format::Fragment]) -> String {
    frags.iter().map(|f| f.text.clone()).collect::<Vec<_>>().join("")
}

#[test]
fn assembly_text_layouts() {
    let d = decode(0x00832283).ok().unwrap();
    let frags = assembly(&d, false);
    assert_eq!(plain(&frags), "lw x5, 8(x6)");
    assert_eq!(frags[0].role, Role::Mnemonic);
    assert_eq!(frags[2].role, Role::Destination);
    assert_eq!(frags[4].role, Role::Value);
    assert_eq!(frags[6].role, Role::Source);
    assert_eq!(plain(&assembly(&d, true)), "lw t0, 8(t1)");
    let d = decode(0x00c58533).ok().unwrap();
    assert_eq!(plain(&assembly(&d, false)), "add x10, x11, x12");
    assert_eq!(plain(&assembly(&d, true)), "add a0, a1, a2");
    let d = decode(0x00000073).ok().unwrap();
    assert_eq!(plain(&assembly(&d, false)), "ecall");
    let d = encode("jal x1, 16").ok().unwrap();
    assert_eq!(plain(&assembly(&d, true)), "jal ra, 16");
}

#[test]
fn binary_and_hex() {
    let instr = Instruction::RType(RType(0x00c58533));
    let groups: Vec<String> = bit_groups(&instr).iter().map(|f| f.text.clone()).collect();
    assert_eq!(groups, strings(&["0000000", "01100", "01011", "000", "01010", "0110011"]));
    assert_eq!(hex_text(&instr), "0x00c58533");
    let d = encode("beq x1, x2, -4").ok().unwrap();
    let groups: Vec<String> = bit_groups(&d.instr).iter().map(|f| f.text.clone()).collect();
    assert_eq!(groups, strings(&["1", "111111", "00010", "00001", "000", "1110", "1", "1100011"]));
    assert_eq!(hex_text(&d.instr), "0xfe208ee3");
}

#[test]
fn shell_replies() {
    assert!(matches!(respond("quit"), Reply::Quit));
    assert!(matches!(respond("  EXIT \n"), Reply::Quit));
    assert!(matches!(respond("Q"), Reply::Quit));
    match respond("0x00c58533\n") {
        Reply::Shown(d) => assert_eq!(d.mnemonic, "add"),
        _ => panic!("a word is decoded"),
    }
    assert!(matches!(respond("0xzz"), Reply::BadHex));
    assert!(matches!(respond("0x0000007f"), Reply::BadHex));
    match respond("addi x1, x2, 3\n") {
        Reply::Shown(d) => assert_eq!(d.instr.word(), 0x00310093),
        _ => panic!("a line is encoded"),
    }
    assert!(matches!(respond("bogus x1"), Reply::EncodeFailed(Error::UnknownInstruction)));
}
