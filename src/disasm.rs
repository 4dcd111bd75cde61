//! Disassembly of a script into text: one token per instruction.
use crate::instruction::{decode, instructions, is_push_opcode, Instruction, InstructionView};
use crate::address::ElementsScript;
use crate::script::Script;
use vstd::prelude::*;

verus! {

/// The lower-case hexadecimal digits.
pub open spec fn hex_digits() -> Seq<char> {
    seq!['0', '1', '2', '3', '4', '5', '6', '7', '8', '9', 'a', 'b', 'c', 'd', 'e', 'f']
}

/// Two lower-case hexadecimal digits per byte, most significant first.
pub open spec fn hex_of(d: Seq<u8>) -> Seq<char>
    decreases d.len(),
{
    if d.len() == 0 {
        seq![]
    } else {
        hex_of(d.drop_last()) + seq![hex_digits()[(d.last() / 16) as int], hex_digits()[(d.last() % 16) as int]]
    }
}

/// The mnemonic of an opcode byte, such as `OP_CHECKSIG`.
pub uninterp spec fn opcode_name_of(op: u8) -> Seq<char>;

/// Relies on the `Display` of bitcoin's `Opcode`, which writes the opcode's
/// mnemonic.
#[verifier::external_body]
fn opcode_name(op: u8) -> (r: String)
    ensures
        r@ == opcode_name_of(op),
{
    bitcoin::opcodes::Opcode::from(op).to_string()
}

/// The token of an empty push.
pub open spec fn empty_push_token() -> Seq<char> {
    seq!['O', 'P', '_', '0']
}

/// The marker of a push that runs past the end of the script.
pub open spec fn invalid_token() -> Seq<char> {
    seq!['<', 'i', 'n', 'v', 'a', 'l', 'i', 'd', '>']
}

/// The text of one instruction: the payload in hex, or the opcode's mnemonic.
pub open spec fn token_of(i: InstructionView) -> Seq<char> {
    match i {
        InstructionView::PushBytes(d) => if d.len() == 0 {
            empty_push_token()
        } else {
            hex_of(d)
        },
        InstructionView::Op(b) => opcode_name_of(b),
        InstructionView::Invalid => invalid_token(),
    }
}

/// The tokens of `ins`, in order, separated by single spaces.
pub open spec fn asm_of(ins: Seq<InstructionView>) -> Seq<char>
    decreases ins.len(),
{
    if ins.len() == 0 {
        seq![]
    } else if ins.len() == 1 {
        token_of(ins[0])
    } else {
        asm_of(ins.drop_last()) + seq![' '] + token_of(ins.last())
    }
}

/// The digit of a value below 16.
fn hex_digit(n: u8) -> (r: &'static str)
    requires
        n < 16,
    ensures
        r@ == seq![hex_digits()[n as int]],
{
    match n {
        0 => {
            proof {
                reveal_strlit("0");
            }
            "0"
        },
        1 => {
            proof {
                reveal_strlit("1");
            }
            "1"
        },
        2 => {
            proof {
                reveal_strlit("2");
            }
            "2"
        },
        3 => {
            proof {
                reveal_strlit("3");
            }
            "3"
        },
        4 => {
            proof {
                reveal_strlit("4");
            }
            "4"
        },
        5 => {
            proof {
                reveal_strlit("5");
            }
            "5"
        },
        6 => {
            proof {
                reveal_strlit("6");
            }
            "6"
        },
        7 => {
            proof {
                reveal_strlit("7");
            }
            "7"
        },
        8 => {
            proof {
                reveal_strlit("8");
            }
            "8"
        },
        9 => {
            proof {
                reveal_strlit("9");
            }
            "9"
        },
        10 => {
            proof {
                reveal_strlit("a");
            }
            "a"
        },
        11 => {
            proof {
                reveal_strlit("b");
            }
            "b"
        },
        12 => {
            proof {
                reveal_strlit("c");
            }
            "c"
        },
        13 => {
            proof {
                reveal_strlit("d");
            }
            "d"
        },
        14 => {
            proof {
                reveal_strlit("e");
            }
            "e"
        },
        _ => {
            proof {
                reveal_strlit("f");
            }
            "f"
        },
    }
}

/// Appends the hex text of `d`.
fn append_hex(s: &mut String, d: &Vec<u8>)
    ensures
        final(s)@ == old(s)@ + hex_of(d@),
{
    let mut i: usize = 0;
    while i < d.len()
        invariant
            i <= d@.len(),
            s@ == old(s)@ + hex_of(d@.take(i as int)),
        decreases d@.len() - i,
    {
        let b = d[i];
        s.append(hex_digit(b / 16));
        s.append(hex_digit(b % 16));
        assert(d@.take(i + 1).drop_last() =~= d@.take(i as int));
        i = i + 1;
    }
    assert(d@.take(i as int) =~= d@);
}

/// Appends the text of one instruction.
fn append_token(s: &mut String, ins: &Instruction)
    ensures
        final(s)@ == old(s)@ + token_of(ins@),
{
    match ins {
        Instruction::PushBytes(d) => {
            if d.len() == 0 {
                proof {
                    reveal_strlit("OP_0");
                }
                s.append("OP_0");
            } else {
                append_hex(s, d);
            }
        },
        Instruction::Op(b) => {
            let name = opcode_name(*b);
            s.append(name.as_str());
        },
        Instruction::Invalid => {
            proof {
                reveal_strlit("<invalid>");
            }
            s.append("<invalid>");
        },
    }
}

/// Renders a script as text.
pub trait ScriptToAsm {
    fn to_asm(&self) -> String;
}

impl ScriptToAsm for Script {
    /// The script's instructions in order, separated by single spaces: each
    /// push as its payload in hex (`OP_0` when empty), each opcode as its
    /// mnemonic, and a push that runs past the end as `<invalid>`.
    fn to_asm(&self) -> (r: String)
        ensures
            r@ == asm_of(decode(self@)),
    {
        let ins = instructions(self);
        let ghost dv = decode(self@);
        let mut s = String::new();
        let mut i: usize = 0;
        while i < ins.len()
            invariant
                i <= ins@.len(),
                ins@.len() == dv.len(),
                forall|j: int| 0 <= j < ins@.len() ==> (#[trigger] ins@[j])@ == dv[j],
                s@ == asm_of(dv.take(i as int)),
            decreases ins@.len() - i,
        {
            if i > 0 {
                proof {
                    reveal_strlit(" ");
                }
                s.append(" ");
            }
            append_token(&mut s, &ins[i]);
            assert(dv.take(i + 1).drop_last() =~= dv.take(i as int));
            i = i + 1;
        }
        assert(dv.take(i as int) =~= dv);
        s
    }
}

impl ScriptToAsm for ElementsScript {
    /// Renders the script's bytes as a script of the base model does.
    fn to_asm(&self) -> (r: String)
        ensures
            r@ == asm_of(decode(self@)),
    {
        self.as_script().to_asm()
    }
}

/// A script of one opcode followed by one push of four bytes renders as two
/// tokens: the opcode's mnemonic, a space, and the four bytes in hex.
pub proof fn lemma_opcode_then_push4(op: u8, data: Seq<u8>)
    requires
        !is_push_opcode(op),
        data.len() == 4,
    ensures
        asm_of(decode(seq![op, 4u8] + data)) == opcode_name_of(op) + seq![' '] + hex_of(data),
{
    let s = seq![op, 4u8] + data;
    let t = s.drop_first();
    assert(t =~= seq![4u8] + data);
    assert(t.subrange(1, 5) =~= data);
    assert(t.subrange(5, 5) =~= Seq::<u8>::empty());
    assert(decode(t.subrange(5, 5)) == Seq::<InstructionView>::empty());
    assert(decode(t) =~= seq![InstructionView::PushBytes(data)]);
    let d = decode(s);
    assert(d =~= seq![InstructionView::Op(op), InstructionView::PushBytes(data)]);
    assert(d.drop_last() =~= seq![InstructionView::Op(op)]);
    assert(asm_of(d.drop_last()) == opcode_name_of(op));
    assert(token_of(d.last()) == hex_of(data));
}

} // verus!
