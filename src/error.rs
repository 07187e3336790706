use vstd::prelude::*;

verus! {

/// Why a word could not be decoded or a line of text could not be encoded.
#[derive(Debug, Clone, Copy, PartialEq, Eq, Structural)]
pub enum Error {
    /// The opcode field of the word is not one of the supported opcodes.
    InvalidOpcode,
    /// The opcode is known but its function codes are not, or the mnemonic is unknown.
    UnknownInstruction,
    /// The line is empty or has the wrong number of operands.
    InvalidFormat,
    /// A register operand is not `x0` .. `x31`.
    InvalidRegister,
    /// An immediate operand lies outside the range its instruction allows.
    ImmediateOutOfRange,
    /// An immediate operand is not a decimal or `0x` hexadecimal 32-bit integer.
    InvalidImmediate,
    /// A branch or jump offset is odd.
    ImmediateMisaligned,
}

} // verus!
