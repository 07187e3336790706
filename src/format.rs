//! The result of decoding or encoding, and its plain-text renderings.

use vstd::prelude::*;

use crate::fields::{BType, CSRType, IType, Instruction, JType, RType, SType, UType};
use crate::isa::{Group, Mnemonic};
use crate::fields::field;
use crate::text::{push_radix_digits, radix_digits, views};

verus! {

/// An instruction word with its shape, its mnemonic and its operand tokens.
pub struct EncodedInstruction {
    pub instr: Instruction,
    pub mnemonic: String,
    pub operands: Vec<String>,
}

/// The word `w` tagged with the shape of `op`.
pub open spec fn shaped(op: Mnemonic, w: u32) -> Instruction {
    match op.group() {
        Group::Register => Instruction::RType(RType(w)),
        Group::Immediate | Group::Shift | Group::Load | Group::JumpRegister => Instruction::IType(
            IType(w),
        ),
        Group::Store => Instruction::SType(SType(w)),
        Group::Branch => Instruction::BType(BType(w)),
        Group::Upper => Instruction::UType(UType(w)),
        Group::Jump => Instruction::JType(JType(w)),
        Group::CsrRegister | Group::CsrImmediate | Group::Environment => Instruction::CSRType(
            CSRType(w),
        ),
    }
}

pub fn shape_word(op: Mnemonic, w: u32) -> (r: Instruction)
    ensures
        r == shaped(op, w),
{
    match op.group() {
        Group::Register => Instruction::RType(RType(w)),
        Group::Immediate | Group::Shift | Group::Load | Group::JumpRegister => Instruction::IType(
            IType(w),
        ),
        Group::Store => Instruction::SType(SType(w)),
        Group::Branch => Instruction::BType(BType(w)),
        Group::Upper => Instruction::UType(UType(w)),
        Group::Jump => Instruction::JType(JType(w)),
        Group::CsrRegister | Group::CsrImmediate | Group::Environment => Instruction::CSRType(
            CSRType(w),
        ),
    }
}


/// Loads, stores and `jalr` write their last two operands `offset(base)`.
pub open spec fn offset_form(op: Mnemonic) -> bool {
    op.group() == Group::Load || op.group() == Group::JumpRegister || op.group() == Group::Store
}

/// The texts `t` joined by `", "`.
pub open spec fn join(t: Seq<Seq<char>>) -> Seq<char>
    decreases t.len(),
{
    if t.len() == 0 {
        Seq::empty()
    } else if t.len() == 1 {
        t[0]
    } else {
        join(t.drop_last()) + seq![',', ' '] + t.last()
    }
}

/// The assembly text of `op` with operand texts `t`: `name a, b, c`, or `name a, b(c)` for
/// loads, stores and `jalr`.
#[verifier::opaque]
pub open spec fn assembly_text(op: Mnemonic, t: Seq<Seq<char>>) -> Seq<char> {
    if t.len() == 0 {
        op.name()
    } else if t.len() == 3 && offset_form(op) {
        op.name() + seq![' '] + t[0] + seq![',', ' '] + t[1] + seq!['('] + t[2] + seq![')']
    } else {
        op.name() + seq![' '] + join(t)
    }
}


/// What a piece of rendered text shows, so that a presentation layer can style it.
#[derive(Debug, Clone, Copy, PartialEq, Eq, Structural)]
pub enum Role {
    /// The mnemonic.
    Mnemonic,
    /// The first operand: the destination, or the value a store or branch reads first.
    Destination,
    /// A base or second source register.
    Source,
    /// An immediate, a CSR address, or the last source register.
    Value,
    /// Opcode and function-code bits.
    Code,
    /// Spaces, commas and parentheses.
    Plain,
}

/// A piece of rendered text with its role.
pub struct Fragment {
    pub role: Role,
    pub text: String,
}

pub open spec fn fragments_view(v: Seq<Fragment>) -> Seq<(Role, Seq<char>)> {
    v.map_values(|f: Fragment| (f.role, f.text@))
}

/// An instruction written `name rd, offset(base)`: a store, or an I-type load or `jalr`.
pub open spec fn offset_shape(instr: Instruction, name: Seq<char>) -> bool {
    match instr {
        Instruction::SType(_) => true,
        Instruction::IType(_) => name == "lb"@ || name == "lh"@ || name == "lw"@ || name == "lbu"@
            || name == "lhu"@ || name == "jalr"@,
        _ => false,
    }
}

/// The role of operand `k` of an instruction of this shape.
pub open spec fn operand_role(instr: Instruction, offset: bool, k: int) -> Role {
    if k == 0 {
        Role::Destination
    } else if offset || instr is CSRType || instr is UType || instr is JType {
        if k == 2 {
            Role::Source
        } else {
            Role::Value
        }
    } else if k == 1 {
        Role::Source
    } else {
        Role::Value
    }
}

/// The first `n` operands with their separators.
pub open spec fn operand_parts(instr: Instruction, offset: bool, t: Seq<Seq<char>>, n: nat) -> Seq<
    (Role, Seq<char>),
>
    decreases n,
{
    if n == 0 {
        Seq::empty()
    } else {
        let k = n - 1;
        let sep: Seq<(Role, Seq<char>)> = if k == 0 {
            Seq::empty()
        } else if offset && k == 2 {
            seq![(Role::Plain, seq!['('])]
        } else {
            seq![(Role::Plain, seq![',', ' '])]
        };
        operand_parts(instr, offset, t, (n - 1) as nat) + sep + seq![
            (operand_role(instr, offset, k), t[k]),
        ]
    }
}

/// The assembly text of an instruction in pieces: `name a, b, c`, or `name a, b(c)` for
/// loads, stores and `jalr`.
pub open spec fn assembly_parts(instr: Instruction, name: Seq<char>, t: Seq<Seq<char>>) -> Seq<
    (Role, Seq<char>),
> {
    let offset = offset_shape(instr, name) && t.len() == 3;
    if t.len() == 0 {
        seq![(Role::Mnemonic, name)]
    } else {
        seq![(Role::Mnemonic, name), (Role::Plain, seq![' '])] + operand_parts(
            instr,
            offset,
            t,
            t.len(),
        ) + if offset {
            seq![(Role::Plain, seq![')'])]
        } else {
            Seq::empty()
        }
    }
}

fn piece(role: Role, text: &str) -> (r: Fragment)
    ensures
        r.role == role,
        r.text@ == text@,
{
    Fragment { role, text: String::from_str(text) }
}

/// Whether the instruction is written with an `offset(base)` operand.
fn has_offset_form(instr: &Instruction, name: &str) -> (r: bool)
    ensures
        r == offset_shape(*instr, name@),
{
    match instr {
        Instruction::SType(_) => true,
        Instruction::IType(_) => {
            crate::util::same_text(name, "lb") || crate::util::same_text(name, "lh")
                || crate::util::same_text(name, "lw") || crate::util::same_text(name, "lbu")
                || crate::util::same_text(name, "lhu") || crate::util::same_text(name, "jalr")
        },
        _ => false,
    }
}

fn role_of(instr: &Instruction, offset: bool, k: usize) -> (r: Role)
    ensures
        r == operand_role(*instr, offset, k as int),
{
    if k == 0 {
        Role::Destination
    } else if offset || matches!(
        instr,
        Instruction::CSRType(_) | Instruction::UType(_) | Instruction::JType(_)
    ) {
        if k == 2 {
            Role::Source
        } else {
            Role::Value
        }
    } else if k == 1 {
        Role::Source
    } else {
        Role::Value
    }
}

/// The assembly text of `d` in pieces; with `abi`, registers go by their conventional names.
pub fn assembly(d: &EncodedInstruction, abi: bool) -> (r: Vec<Fragment>)
    ensures
        fragments_view(r@) == assembly_parts(
            d.instr,
            d.mnemonic@,
            if abi {
                d.operands@.map_values(|o: String| crate::util::abi_text(o@))
            } else {
                views(d.operands@)
            },
        ),
{
    let ops = if abi {
        crate::util::operands_to_abi(d.operands.as_slice())
    } else {
        let mut c: Vec<String> = Vec::new();
        for i in 0..d.operands.len()
            invariant
                c@.len() == i,
                forall|k: int| 0 <= k < i ==> #[trigger] c@[k]@ == d.operands@[k]@,
        {
            c.push(d.operands[i].clone());
        }
        c
    };
    let ghost t = if abi {
        d.operands@.map_values(|o: String| crate::util::abi_text(o@))
    } else {
        views(d.operands@)
    };
    assert(views(ops@) =~= t);
    let n = ops.len();
    let offset = n == 3 && has_offset_form(&d.instr, d.mnemonic.as_str());
    let mut out: Vec<Fragment> = Vec::new();
    out.push(Fragment { role: Role::Mnemonic, text: d.mnemonic.clone() });
    if n == 0 {
        assert(fragments_view(out@) =~= assembly_parts(d.instr, d.mnemonic@, t));
        return out;
    }
    proof {
        reveal_strlit(" ");
        reveal_strlit(", ");
        reveal_strlit("(");
        reveal_strlit(")");
    }
    let space = piece(Role::Plain, " ");
    assert(space.text@ =~= seq![' ']);
    out.push(space);
    let ghost head = seq![(Role::Mnemonic, d.mnemonic@), (Role::Plain, seq![' '])];
    assert(fragments_view(out@) =~= head + operand_parts(d.instr, offset, t, 0));
    for k in 0..n
        invariant
            n == ops.len() == t.len(),
            views(ops@) == t,
            fragments_view(out@) == head + operand_parts(d.instr, offset, t, k as nat),
    {
        proof {
            reveal_strlit(", ");
            reveal_strlit("(");
        }
        let ghost before = out@;
        let ghost sep: Seq<(Role, Seq<char>)> = if k == 0 {
            Seq::empty()
        } else if offset && k == 2 {
            seq![(Role::Plain, seq!['('])]
        } else {
            seq![(Role::Plain, seq![',', ' '])]
        };
        if k > 0 {
            if offset && k == 2 {
                let open = piece(Role::Plain, "(");
                assert(open.text@ =~= seq!['(']);
                out.push(open);
            } else {
                let comma = piece(Role::Plain, ", ");
                assert(comma.text@ =~= seq![',', ' ']);
                out.push(comma);
            }
        }
        assert(fragments_view(out@) =~= fragments_view(before) + sep);
        let role = role_of(&d.instr, offset, k);
        let ghost mid = out@;
        out.push(Fragment { role, text: ops[k].clone() });
        assert(views(ops@)[k as int] == ops@[k as int]@);
        assert(fragments_view(out@) =~= fragments_view(mid).push((role, t[k as int])));
        assert(operand_parts(d.instr, offset, t, (k + 1) as nat) == operand_parts(
            d.instr,
            offset,
            t,
            k as nat,
        ) + sep + seq![(operand_role(d.instr, offset, k as int), t[k as int])]);
        assert(fragments_view(out@) =~= head + operand_parts(d.instr, offset, t, (k + 1) as nat));
    }
    if offset {
        let close = piece(Role::Plain, ")");
        assert(close.text@ =~= seq![')']);
        out.push(close);
    }
    assert(fragments_view(out@) =~= assembly_parts(d.instr, d.mnemonic@, t));
    out
}


/// The fields of the instruction's shape, most significant first, each with its role, its
/// width and its value.
pub open spec fn field_groups(instr: Instruction) -> Seq<(Role, nat, u32)> {
    match instr {
        Instruction::RType(x) => seq![
            (Role::Code, 7nat, field(x.0, 25, 0x7f)),
            (Role::Value, 5nat, field(x.0, 20, 0x1f)),
            (Role::Source, 5nat, field(x.0, 15, 0x1f)),
            (Role::Code, 3nat, field(x.0, 12, 0x7)),
            (Role::Destination, 5nat, field(x.0, 7, 0x1f)),
            (Role::Code, 7nat, field(x.0, 0, 0x7f)),
        ],
        Instruction::IType(x) => seq![
            (Role::Value, 12nat, field(x.0, 20, 0xfff)),
            (Role::Source, 5nat, field(x.0, 15, 0x1f)),
            (Role::Code, 3nat, field(x.0, 12, 0x7)),
            (Role::Destination, 5nat, field(x.0, 7, 0x1f)),
            (Role::Code, 7nat, field(x.0, 0, 0x7f)),
        ],
        Instruction::SType(x) => seq![
            (Role::Value, 7nat, field(x.0, 25, 0x7f)),
            (Role::Destination, 5nat, field(x.0, 20, 0x1f)),
            (Role::Source, 5nat, field(x.0, 15, 0x1f)),
            (Role::Code, 3nat, field(x.0, 12, 0x7)),
            (Role::Value, 5nat, field(x.0, 7, 0x1f)),
            (Role::Code, 7nat, field(x.0, 0, 0x7f)),
        ],
        Instruction::BType(x) => seq![
            (Role::Value, 1nat, field(x.0, 31, 0x1)),
            (Role::Value, 6nat, field(x.0, 25, 0x3f)),
            (Role::Source, 5nat, field(x.0, 20, 0x1f)),
            (Role::Destination, 5nat, field(x.0, 15, 0x1f)),
            (Role::Code, 3nat, field(x.0, 12, 0x7)),
            (Role::Value, 4nat, field(x.0, 8, 0xf)),
            (Role::Value, 1nat, field(x.0, 7, 0x1)),
            (Role::Code, 7nat, field(x.0, 0, 0x7f)),
        ],
        Instruction::UType(x) => seq![
            (Role::Value, 20nat, field(x.0, 12, 0xfffff)),
            (Role::Destination, 5nat, field(x.0, 7, 0x1f)),
            (Role::Code, 7nat, field(x.0, 0, 0x7f)),
        ],
        Instruction::JType(x) => seq![
            (Role::Value, 1nat, field(x.0, 31, 0x1)),
            (Role::Value, 10nat, field(x.0, 21, 0x3ff)),
            (Role::Value, 1nat, field(x.0, 20, 0x1)),
            (Role::Value, 8nat, field(x.0, 12, 0xff)),
            (Role::Destination, 5nat, field(x.0, 7, 0x1f)),
            (Role::Code, 7nat, field(x.0, 0, 0x7f)),
        ],
        Instruction::CSRType(x) => seq![
            (Role::Value, 12nat, field(x.0, 20, 0xfff)),
            (Role::Source, 5nat, field(x.0, 15, 0x1f)),
            (Role::Code, 3nat, field(x.0, 12, 0x7)),
            (Role::Destination, 5nat, field(x.0, 7, 0x1f)),
            (Role::Code, 7nat, field(x.0, 0, 0x7f)),
        ],
    }
}

/// Each field of the instruction in binary, as wide as the field.
pub open spec fn bit_parts(instr: Instruction) -> Seq<(Role, Seq<char>)> {
    field_groups(instr).map_values(|g: (Role, nat, u32)| (g.0, radix_digits(g.2 as nat, 2, g.1)))
}

/// The instruction word as `0x` and eight lower-case hexadecimal digits.
pub open spec fn hex_digits(instr: Instruction) -> Seq<char> {
    seq!['0', 'x'] + radix_digits(instr.word() as nat, 16, 8)
}

fn field_list(instr: &Instruction) -> (r: Vec<(Role, u32, u32)>)
    ensures
        r@.len() == field_groups(*instr).len(),
        forall|i: int|
            0 <= i < r@.len() ==> ({
                let g = #[trigger] field_groups(*instr)[i];
                r@[i].0 == g.0 && r@[i].1 as nat == g.1 && r@[i].2 == g.2
            }),
{
    match instr {
        Instruction::RType(x) => vec![
            (Role::Code, 7u32, x.funct7()),
            (Role::Value, 5u32, x.rs2()),
            (Role::Source, 5u32, x.rs1()),
            (Role::Code, 3u32, x.funct3()),
            (Role::Destination, 5u32, x.rd()),
            (Role::Code, 7u32, x.opcode()),
        ],
        Instruction::IType(x) => vec![
            (Role::Value, 12u32, x.imm()),
            (Role::Source, 5u32, x.rs1()),
            (Role::Code, 3u32, x.funct3()),
            (Role::Destination, 5u32, x.rd()),
            (Role::Code, 7u32, x.opcode()),
        ],
        Instruction::SType(x) => vec![
            (Role::Value, 7u32, x.imm11_5()),
            (Role::Destination, 5u32, x.rs2()),
            (Role::Source, 5u32, x.rs1()),
            (Role::Code, 3u32, x.funct3()),
            (Role::Value, 5u32, x.imm4_0()),
            (Role::Code, 7u32, x.opcode()),
        ],
        Instruction::BType(x) => vec![
            (Role::Value, 1u32, x.imm12()),
            (Role::Value, 6u32, x.imm10_5()),
            (Role::Source, 5u32, x.rs2()),
            (Role::Destination, 5u32, x.rs1()),
            (Role::Code, 3u32, x.funct3()),
            (Role::Value, 4u32, x.imm4_1()),
            (Role::Value, 1u32, x.imm11()),
            (Role::Code, 7u32, x.opcode()),
        ],
        Instruction::UType(x) => vec![
            (Role::Value, 20u32, x.imm()),
            (Role::Destination, 5u32, x.rd()),
            (Role::Code, 7u32, x.opcode()),
        ],
        Instruction::JType(x) => vec![
            (Role::Value, 1u32, x.imm20()),
            (Role::Value, 10u32, x.imm10_1()),
            (Role::Value, 1u32, x.imm11()),
            (Role::Value, 8u32, x.imm19_12()),
            (Role::Destination, 5u32, x.rd()),
            (Role::Code, 7u32, x.opcode()),
        ],
        Instruction::CSRType(x) => vec![
            (Role::Value, 12u32, x.csr()),
            (Role::Source, 5u32, x.rs1()),
            (Role::Code, 3u32, x.funct3()),
            (Role::Destination, 5u32, x.rd()),
            (Role::Code, 7u32, x.opcode()),
        ],
    }
}

/// The fields of the instruction in binary, most significant first.
pub fn bit_groups(instr: &Instruction) -> (r: Vec<Fragment>)
    ensures
        fragments_view(r@) == bit_parts(*instr),
{
    let list = field_list(instr);
    let mut out: Vec<Fragment> = Vec::new();
    for i in 0..list.len()
        invariant
            list@.len() == field_groups(*instr).len(),
            forall|k: int|
                0 <= k < list@.len() ==> ({
                    let g = #[trigger] field_groups(*instr)[k];
                    list@[k].0 == g.0 && list@[k].1 as nat == g.1 && list@[k].2 == g.2
                }),
            out@.len() == i,
            forall|k: int|
                0 <= k < i ==> #[trigger] fragments_view(out@)[k] == bit_parts(*instr)[k],
    {
        let (role, width, value) = list[i];
        let mut text = String::new();
        push_radix_digits(&mut text, value, 2, width);
        assert(text@ =~= radix_digits(value as nat, 2, width as nat));
        let ghost before = out@;
        out.push(Fragment { role, text });
        assert(fragments_view(out@) =~= fragments_view(before).push(
            (role, radix_digits(value as nat, 2, width as nat)),
        ));
        assert(fragments_view(out@)[i as int] == bit_parts(*instr)[i as int]);
    }
    assert(fragments_view(out@) =~= bit_parts(*instr));
    out
}

/// The instruction word as `0x` and eight lower-case hexadecimal digits.
pub fn hex_text(instr: &Instruction) -> (r: String)
    ensures
        r@ == hex_digits(*instr),
{
    let mut s = String::from_str("0x");
    proof {
        reveal_strlit("0x");
    }
    push_radix_digits(&mut s, instr.word(), 16, 8);
    assert(s@ =~= hex_digits(*instr));
    s
}

} // verus!
