//! What the interactive shell does with one line of input.

use vstd::prelude::*;

use crate::decoder::{decode, decode_spec, operand_texts};
use crate::encoder::{encode, encode_spec};
use crate::error::Error;
use crate::format::{shaped, EncodedInstruction};
use crate::isa::{folds, folds_exec};
use crate::text::{chars_of, nat_value, parse_nat, tokens, trim, trim_bounds, views};
use crate::util::hex_prefixed;

verus! {

/// The answer to one line of input.
pub enum Reply {
    /// The line asks to leave.
    Quit,
    /// The line was decoded or encoded.
    Shown(EncodedInstruction),
    /// The line starts with `0x` but is no word, or a word that does not decode.
    BadHex,
    /// The line could not be encoded.
    EncodeFailed(Error),
}

/// `exit`, `q` or `quit`, in any ASCII case.
pub open spec fn is_quit(s: Seq<char>) -> bool {
    folds(s, "exit"@) || folds(s, "q"@) || folds(s, "quit"@)
}

/// The word that a hexadecimal text after `0x` writes.
pub open spec fn hex_word(s: Seq<char>) -> Option<u32> {
    nat_value(s, 16, 0xffff_ffff)
}

/// What the shell answers to `line`: white space at either end is ignored; `exit`, `q` and
/// `quit` leave; a `0x` line is decoded; any other line is encoded.
pub fn respond(line: &str) -> (r: Reply)
    ensures
        ({
            let s = trim(line@);
            if is_quit(s) {
                r is Quit
            } else if hex_prefixed(s) {
                match hex_word(s.subrange(2, s.len() as int)) {
                    None => r is BadHex,
                    Some(w) => match decode_spec(w) {
                        Err(_) => r is BadHex,
                        Ok((op, ops)) => (r matches Reply::Shown(d) && d.instr == shaped(op, w)
                            && d.mnemonic@ == op.name() && views(d.operands@) == operand_texts(
                            ops,
                        )),
                    },
                }
            } else {
                match encode_spec(s) {
                    Err(e) => (r matches Reply::EncodeFailed(f) && f == e),
                    Ok((op, w)) => (r matches Reply::Shown(d) && d.instr == shaped(op, w)
                        && d.mnemonic@ == op.name() && views(d.operands@) == tokens(
                        s,
                    ).drop_first()),
                }
            }
        }),
{
    let v = chars_of(line);
    let (a, b) = trim_bounds(&v);
    let ghost s = v@.subrange(a as int, b as int);
    let mut t: Vec<char> = Vec::new();
    for i in a..b
        invariant
            a <= b <= v.len(),
            t@ == v@.subrange(a as int, i as int),
    {
        t.push(v[i]);
        assert(t@ =~= v@.subrange(a as int, i + 1));
    }
    assert(t@ =~= s);
    if folds_exec(&t, "exit") || folds_exec(&t, "q") || folds_exec(&t, "quit") {
        return Reply::Quit;
    }
    if t.len() >= 2 && t[0] == '0' && (t[1] == 'x' || t[1] == 'X') {
        assert(t@.subrange(2, t.len() as int) =~= s.subrange(2, s.len() as int));
        return match parse_nat(&t, 2, t.len(), 16, 0xffff_ffff) {
            None => Reply::BadHex,
            Some(w) => match decode(w) {
                Ok(d) => Reply::Shown(d),
                Err(_) => Reply::BadHex,
            },
        };
    }
    let text = line.substring_char(a, b);
    match encode(text) {
        Ok(d) => Reply::Shown(d),
        Err(e) => Reply::EncodeFailed(e),
    }
}

} // verus!
