//! Operand tokens: registers, immediates and the conventional register names.

use vstd::prelude::*;

use crate::error::Error;
use crate::text::{
    chars_of, decimal, is_space, lemma_decimal, signed_decimal, trim_end, trim_start, int_value,
    nat_value, parse_int, parse_nat, push_decimal, trim, trim_bounds,
};

verus! {

/// `s` starts with `0x` or `0X`.
pub open spec fn hex_prefixed(s: Seq<char>) -> bool {
    s.len() >= 2 && s[0] == '0' && (s[1] == 'x' || s[1] == 'X')
}

/// The value of an immediate token: white space at either end is ignored, then a `0x` or
/// `0X` prefix selects hexadecimal, else decimal; either may carry a sign.
#[verifier::opaque]
pub open spec fn immediate_value(t: Seq<char>) -> Option<i32> {
    let u = trim(t);
    if hex_prefixed(u) {
        int_value(u.subrange(2, u.len() as int), 16)
    } else {
        int_value(u, 10)
    }
}

/// The index of a register token `x0` .. `x31` (the number may carry a `+` and leading zeros).
#[verifier::opaque]
pub open spec fn register_value(t: Seq<char>) -> Option<u32> {
    if t.len() > 0 && t[0] == 'x' {
        nat_value(t.drop_first(), 10, 31)
    } else {
        None
    }
}

/// The conventional name of register `i` (of `x31` for any larger index).
pub open spec fn abi_name(i: u32) -> Seq<char> {
    match i {
        0 => "zero"@,
        1 => "ra"@,
        2 => "sp"@,
        3 => "gp"@,
        4 => "tp"@,
        5 => "t0"@,
        6 => "t1"@,
        7 => "t2"@,
        8 => "s0"@,
        9 => "s1"@,
        10 => "a0"@,
        11 => "a1"@,
        12 => "a2"@,
        13 => "a3"@,
        14 => "a4"@,
        15 => "a5"@,
        16 => "a6"@,
        17 => "a7"@,
        18 => "s2"@,
        19 => "s3"@,
        20 => "s4"@,
        21 => "s5"@,
        22 => "s6"@,
        23 => "s7"@,
        24 => "s8"@,
        25 => "s9"@,
        26 => "s10"@,
        27 => "s11"@,
        28 => "t3"@,
        29 => "t4"@,
        30 => "t5"@,
        _ => "t6"@,
    }
}

/// The first register, from `start` on, whose conventional name is `s`.
pub open spec fn abi_search(s: Seq<char>, start: nat) -> Option<nat>
    decreases 32 - start,
{
    if start >= 32 {
        None
    } else if abi_name(start as u32) == s {
        Some(start)
    } else {
        abi_search(s, start + 1)
    }
}

/// A register token written with its conventional name; any other token as it is.
pub open spec fn abi_text(op: Seq<char>) -> Seq<char> {
    match register_value(op) {
        Some(i) => abi_name(i),
        None => op,
    }
}

/// A conventional register name written as `x<index>`; any other token as it is.
pub open spec fn numeric_text(name: Seq<char>) -> Seq<char> {
    match abi_search(name, 0) {
        Some(i) => seq!['x'] + decimal(i),
        None => name,
    }
}

pub fn is_hex(s: &str) -> (r: bool)
    ensures
        r == hex_prefixed(s@),
{
    let n = s.unicode_len();
    if n < 2 {
        return false;
    }
    let c0 = s.get_char(0);
    let c1 = s.get_char(1);
    c0 == '0' && (c1 == 'x' || c1 == 'X')
}

pub fn parse_immediate(s: &str) -> (r: Result<i32, Error>)
    ensures
        r == match immediate_value(s@) {
            Some(v) => Ok(v),
            None => Err(Error::InvalidImmediate),
        },
{
    reveal(immediate_value);
    let v = chars_of(s);
    let (a, b) = trim_bounds(&v);
    let ghost u = v@.subrange(a as int, b as int);
    let parsed = if b - a >= 2 && v[a] == '0' && (v[a + 1] == 'x' || v[a + 1] == 'X') {
        assert(v@.subrange(a + 2, b as int) =~= u.subrange(2, u.len() as int));
        parse_int(&v, a + 2, b, 16)
    } else {
        parse_int(&v, a, b, 10)
    };
    match parsed {
        Some(x) => Ok(x),
        None => Err(Error::InvalidImmediate),
    }
}

pub fn parse_reg(reg: &str) -> (r: Result<u32, Error>)
    ensures
        r == match register_value(reg@) {
            Some(i) => Ok(i),
            None => Err(Error::InvalidRegister),
        },
        r matches Ok(i) ==> i <= 31,
{
    reveal(register_value);
    let v = chars_of(reg);
    if v.len() == 0 || v[0] != 'x' {
        return Err(Error::InvalidRegister);
    }
    assert(v@.subrange(1, v.len() as int) =~= reg@.drop_first());
    match parse_nat(&v, 1, v.len(), 10, 31) {
        Some(i) => Ok(i),
        None => Err(Error::InvalidRegister),
    }
}

/// The conventional name of register `i`.
pub fn abi_name_of(i: u32) -> (r: &'static str)
    ensures
        r@ == abi_name(i),
{
    match i {
        0 => "zero",
        1 => "ra",
        2 => "sp",
        3 => "gp",
        4 => "tp",
        5 => "t0",
        6 => "t1",
        7 => "t2",
        8 => "s0",
        9 => "s1",
        10 => "a0",
        11 => "a1",
        12 => "a2",
        13 => "a3",
        14 => "a4",
        15 => "a5",
        16 => "a6",
        17 => "a7",
        18 => "s2",
        19 => "s3",
        20 => "s4",
        21 => "s5",
        22 => "s6",
        23 => "s7",
        24 => "s8",
        25 => "s9",
        26 => "s10",
        27 => "s11",
        28 => "t3",
        29 => "t4",
        30 => "t5",
        _ => "t6",
    }
}

pub fn numeric_to_abi(op: &str) -> (r: String)
    ensures
        r@ == abi_text(op@),
{
    match parse_reg(op) {
        Ok(i) => String::from_str(abi_name_of(i)),
        Err(_) => String::from_str(op),
    }
}

pub fn operands_to_abi(ops: &[String]) -> (r: Vec<String>)
    ensures
        r@.len() == ops@.len(),
        forall|i: int| 0 <= i < ops@.len() ==> #[trigger] r@[i]@ == abi_text(ops@[i]@),
{
    let mut out: Vec<String> = Vec::new();
    for i in 0..ops.len()
        invariant
            out@.len() == i,
            forall|k: int| 0 <= k < i ==> #[trigger] out@[k]@ == abi_text(ops@[k]@),
    {
        out.push(numeric_to_abi(ops[i].as_str()));
    }
    out
}

/// `a` and `b` hold the same characters.
pub fn same_text(a: &str, b: &str) -> (r: bool)
    ensures
        r == (a@ == b@),
{
    let x = chars_of(a);
    let y = chars_of(b);
    if x.len() != y.len() {
        return false;
    }
    for i in 0..x.len()
        invariant
            x@ == a@,
            y@ == b@,
            x.len() == y.len(),
            forall|k: int| 0 <= k < i ==> x@[k] == y@[k],
    {
        if x[i] != y[i] {
            return false;
        }
    }
    assert(x@ =~= y@);
    true
}

pub fn abi_to_numeric(abi: &str) -> (r: String)
    ensures
        r@ == numeric_text(abi@),
{
    let mut i: u32 = 0;
    while i < 32
        invariant
            i <= 32,
            abi_search(abi@, 0) == abi_search(abi@, i as nat),
        decreases 32 - i,
    {
        if same_text(abi, abi_name_of(i)) {
            let mut s = String::from_str("x");
            proof {
                reveal_strlit("x");
            }
            push_decimal(&mut s, i as u64);
            assert(s@ =~= seq!['x'] + decimal(i as nat));
            return s;
        }
        i += 1;
    }
    String::from_str(abi)
}

pub fn abis_to_operands(abis: &[String]) -> (r: Vec<String>)
    ensures
        r@.len() == abis@.len(),
        forall|i: int| 0 <= i < abis@.len() ==> #[trigger] r@[i]@ == numeric_text(abis@[i]@),
{
    let mut out: Vec<String> = Vec::new();
    for i in 0..abis.len()
        invariant
            out@.len() == i,
            forall|k: int| 0 <= k < i ==> #[trigger] out@[k]@ == numeric_text(abis@[k]@),
    {
        out.push(abi_to_numeric(abis[i].as_str()));
    }
    out
}


/// `x<n>` reads back as register `n`.
pub proof fn lemma_register_text(n: nat)
    requires
        n <= 31,
    ensures
        register_value(seq!['x'] + decimal(n)) == Some(n as u32),
{
    reveal(register_value);
    lemma_decimal(n);
    let t = seq!['x'] + decimal(n);
    assert(t.drop_first() =~= decimal(n));
}

/// A decimal integer in the range of `i32` reads back as itself.
pub proof fn lemma_immediate_text(v: int)
    requires
        i32::MIN <= v <= i32::MAX,
    ensures
        immediate_value(signed_decimal(v)) == Some(v as i32),
{
    reveal(immediate_value);
    let m: nat = if v < 0 {
        (-v) as nat
    } else {
        v as nat
    };
    lemma_decimal(m);
    let d = decimal(m);
    let s = signed_decimal(v);
    assert(d[0] != '-' && d[0] != '+');
    assert(!is_space(s[0]));
    assert(!is_space(s.last())) by {
        if v < 0 {
            assert(s.last() == d.last());
        }
    }
    assert(trim_start(s) == s);
    assert(trim_end(s) == s);
    assert(!hex_prefixed(s)) by {
        if v >= 0 && s.len() >= 2 {
            assert('0' <= s[1] <= '9');
        }
    }
    if v < 0 {
        assert(s.drop_first() =~= d);
    }
}


/// A register token names one of the 32 registers.
pub proof fn lemma_register_bound(t: Seq<char>)
    ensures
        register_value(t) matches Some(i) ==> i <= 31,
{
    reveal(register_value);
}

} // verus!
