//! The decoded form of a script: a sequence of byte pushes and opcodes.
use crate::script::Script;
use vstd::prelude::*;

verus! {

/// One decoded script operation.
#[derive(Clone, Debug)]
pub enum Instruction {
    /// A literal push, with its payload.
    PushBytes(Vec<u8>),
    /// Any byte that is not a push opcode.
    Op(u8),
    /// A push whose length field or payload runs past the end of the script.
    Invalid,
}

/// The mathematical form of an [`Instruction`].
pub enum InstructionView {
    PushBytes(Seq<u8>),
    Op(u8),
    Invalid,
}

impl View for Instruction {
    type V = InstructionView;

    open spec fn view(&self) -> InstructionView {
        match self {
            Instruction::PushBytes(d) => InstructionView::PushBytes(d@),
            Instruction::Op(b) => InstructionView::Op(*b),
            Instruction::Invalid => InstructionView::Invalid,
        }
    }
}

/// `OP_PUSHDATA1`, `OP_PUSHDATA2` and `OP_PUSHDATA4`, and below them the
/// direct pushes of 0 to 75 bytes.
pub open spec fn is_push_opcode(op: u8) -> bool {
    op <= 0x4e
}

/// How many length bytes follow a push opcode.
pub open spec fn length_field_size(op: u8) -> nat {
    if op == 0x4c {
        1
    } else if op == 0x4d {
        2
    } else if op == 0x4e {
        4
    } else {
        0
    }
}

/// The unsigned little-endian number held by `s`.
pub open spec fn le_value(s: Seq<u8>) -> nat
    decreases s.len(),
{
    if s.len() == 0 {
        0
    } else {
        s[0] as nat + 256 * le_value(s.drop_first())
    }
}

/// The payload length of the push that starts `s`, whose length field is
/// present.
pub open spec fn push_len(s: Seq<u8>) -> nat {
    if s[0] <= 75 {
        s[0] as nat
    } else {
        le_value(s.subrange(1, 1 + length_field_size(s[0]) as int))
    }
}

/// Decodes `s` front to back. A push that runs past the end gives one
/// `Invalid` and ends the sequence.
pub open spec fn decode(s: Seq<u8>) -> Seq<InstructionView>
    decreases s.len(),
{
    if s.len() == 0 {
        seq![]
    } else if !is_push_opcode(s[0]) {
        seq![InstructionView::Op(s[0])] + decode(s.drop_first())
    } else {
        let start = 1 + length_field_size(s[0]);
        if s.len() < start {
            seq![InstructionView::Invalid]
        } else {
            let end = start + push_len(s);
            if s.len() < end {
                seq![InstructionView::Invalid]
            } else {
                seq![InstructionView::PushBytes(s.subrange(start as int, end as int))]
                    + decode(s.subrange(end as int, s.len() as int))
            }
        }
    }
}

/// The payload of the last instruction of `s`, where that instruction is a
/// push.
pub open spec fn last_push_of(s: Seq<u8>) -> Option<Seq<u8>> {
    let d = decode(s);
    if d.len() > 0 && d.last() is PushBytes {
        Some(d.last()->PushBytes_0)
    } else {
        None
    }
}

/// Relies on bitcoin's `Script::instructions` (non-minimal mode): it yields
/// direct pushes of 0 to 75 bytes, `OP_PUSHDATA1/2/4` pushes with a
/// little-endian length, every other byte as an opcode, and on a push that runs
/// past the end one error, after which it stops.
#[verifier::external_body]
pub(crate) fn instructions(script: &Script) -> (r: Vec<Instruction>)
    ensures
        r@.len() == decode(script@).len(),
        forall|i: int| 0 <= i < r@.len() ==> (#[trigger] r@[i])@ == decode(script@)[i],
{
    bitcoin::Script::from_bytes(script.as_bytes()).instructions().map(|i| match i {
        Ok(bitcoin::script::Instruction::PushBytes(p)) => Instruction::PushBytes(p.as_bytes().to_vec()),
        Ok(bitcoin::script::Instruction::Op(o)) => Instruction::Op(o.to_u8()),
        Err(_) => Instruction::Invalid,
    }).collect()
}

/// The payload of the script's last instruction, where it is a push.
pub fn last_push(script: &Script) -> (r: Option<Vec<u8>>)
    ensures
        r is Some == last_push_of(script@) is Some,
        r is Some ==> r->Some_0@ == last_push_of(script@)->Some_0,
{
    let mut ins = instructions(script);
    match ins.pop() {
        Some(Instruction::PushBytes(d)) => Some(d),
        _ => None,
    }
}

} // verus!
