//! Instruction encoder: the inverse of the decoder, writing the wire
//! format of an instruction (4-byte little-endian opcode, then the
//! variant's length-prefixed fields in order).

use vstd::prelude::*;

use crate::instruction::{Instruction, InstructionModel};

verus! {

/// The wire form of one field: one length byte, then the content.
pub open spec fn spec_encode_field(f: Seq<u8>) -> Seq<u8> {
    seq![f.len() as u8] + f
}

/// The wire form of a whole instruction. The opcode occupies the first
/// four bytes little-endian; every opcode is below 256, so its upper three
/// bytes are zero.
pub open spec fn spec_encode(m: InstructionModel) -> Seq<u8> {
    match m {
        InstructionModel::RegisterNode { node_id, ip_address, hardware_id } =>
            seq![0u8, 0u8, 0u8, 0u8] + spec_encode_field(node_id) + spec_encode_field(ip_address)
                + spec_encode_field(hardware_id),
        InstructionModel::RemoveNode { node_id } => seq![1u8, 0u8, 0u8, 0u8] + spec_encode_field(node_id),
        InstructionModel::DispatchTask { task_id, node_id } =>
            seq![2u8, 0u8, 0u8, 0u8] + spec_encode_field(task_id) + spec_encode_field(node_id),
        InstructionModel::ReturnAnswer { task_id, answer } =>
            seq![3u8, 0u8, 0u8, 0u8] + spec_encode_field(task_id) + spec_encode_field(answer),
        InstructionModel::StartSession { node_id } => seq![4u8, 0u8, 0u8, 0u8] + spec_encode_field(node_id),
        InstructionModel::EndSession { node_id } => seq![5u8, 0u8, 0u8, 0u8] + spec_encode_field(node_id),
    }
}

/// Appends the 4-byte little-endian opcode `op`, whose value is below 256.
fn push_opcode(out: &mut Vec<u8>, op: u8)
    ensures
        final(out)@ == old(out)@ + seq![op, 0u8, 0u8, 0u8],
{
    out.push(op);
    out.push(0);
    out.push(0);
    out.push(0);
    proof {
        assert(out@ =~= old(out)@ + seq![op, 0u8, 0u8, 0u8]);
    }
}

/// Appends one length-prefixed field.
fn push_field(out: &mut Vec<u8>, f: &Vec<u8>)
    requires
        f@.len() <= 255,
    ensures
        final(out)@ == old(out)@ + spec_encode_field(f@),
{
    out.push(f.len() as u8);
    proof {
        assert(out@ =~= old(out)@ + seq![f@.len() as u8] + f@.subrange(0, 0));
    }
    let mut i: usize = 0;
    while i < f.len()
        invariant
            i <= f@.len(),
            f@.len() <= 255,
            out@ == old(out)@ + seq![f@.len() as u8] + f@.subrange(0, i as int),
        decreases f@.len() - i,
    {
        out.push(f[i]);
        i = i + 1;
        proof {
            assert(f@.subrange(0, i as int) =~= f@.subrange(0, i - 1).push(f@[i - 1]));
            assert(out@ =~= old(out)@ + seq![f@.len() as u8] + f@.subrange(0, i as int));
        }
    }
    proof {
        assert(f@.subrange(0, f@.len() as int) =~= f@);
        assert(out@ =~= old(out)@ + spec_encode_field(f@));
    }
}

/// Encodes an instruction into the wire format that [`crate::decode::decode`]
/// reads. Every field of the instruction must fit a one-byte length prefix.
pub fn encode(instruction: &Instruction) -> (out: Vec<u8>)
    requires
        instruction@.fields_fit(),
    ensures
        out@ == spec_encode(instruction@),
{
    let mut out: Vec<u8> = Vec::new();
    match instruction {
        Instruction::RegisterNode { node_id, ip_address, hardware_id } => {
            proof {
                assert(instruction@.fields()[0] == node_id@);
                assert(instruction@.fields()[1] == ip_address@);
                assert(instruction@.fields()[2] == hardware_id@);
            }
            push_opcode(&mut out, 0);
            push_field(&mut out, node_id);
            push_field(&mut out, ip_address);
            push_field(&mut out, hardware_id);
        },
        Instruction::RemoveNode { node_id } => {
            proof {
                assert(instruction@.fields()[0] == node_id@);
            }
            push_opcode(&mut out, 1);
            push_field(&mut out, node_id);
        },
        Instruction::DispatchTask { task_id, node_id } => {
            proof {
                assert(instruction@.fields()[0] == task_id@);
                assert(instruction@.fields()[1] == node_id@);
            }
            push_opcode(&mut out, 2);
            push_field(&mut out, task_id);
            push_field(&mut out, node_id);
        },
        Instruction::ReturnAnswer { task_id, answer } => {
            proof {
                assert(instruction@.fields()[0] == task_id@);
                assert(instruction@.fields()[1] == answer@);
            }
            push_opcode(&mut out, 3);
            push_field(&mut out, task_id);
            push_field(&mut out, answer);
        },
        Instruction::StartSession { node_id } => {
            proof {
                assert(instruction@.fields()[0] == node_id@);
            }
            push_opcode(&mut out, 4);
            push_field(&mut out, node_id);
        },
        Instruction::EndSession { node_id } => {
            proof {
                assert(instruction@.fields()[0] == node_id@);
            }
            push_opcode(&mut out, 5);
            push_field(&mut out, node_id);
        },
    }
    proof {
        assert(out@ =~= spec_encode(instruction@));
    }
    out
}

} // verus!
