//! The instruction data model: a tagged union with one variant per opcode.
//!
//! A field is a byte string of at most 255 bytes; every field of this
//! protocol is textual, so a well-formed field also holds valid UTF-8.
//! An `Instruction` value is either fully populated or does not exist:
//! the decoder never exposes a partially decoded state.

use vstd::prelude::*;

use crate::field::is_utf8;

verus! {

/// The mathematical model of an instruction: the same variants as
/// [`Instruction`], with each field abstracted to its byte sequence.
#[verifier::ext_equal]
pub enum InstructionModel {
    RegisterNode { node_id: Seq<u8>, ip_address: Seq<u8>, hardware_id: Seq<u8> },
    RemoveNode { node_id: Seq<u8> },
    DispatchTask { task_id: Seq<u8>, node_id: Seq<u8> },
    ReturnAnswer { task_id: Seq<u8>, answer: Seq<u8> },
    StartSession { node_id: Seq<u8> },
    EndSession { node_id: Seq<u8> },
}

impl InstructionModel {
    /// The 4-byte little-endian discriminant that selects this variant on
    /// the wire.
    pub open spec fn opcode(self) -> u32 {
        match self {
            InstructionModel::RegisterNode { .. } => 0,
            InstructionModel::RemoveNode { .. } => 1,
            InstructionModel::DispatchTask { .. } => 2,
            InstructionModel::ReturnAnswer { .. } => 3,
            InstructionModel::StartSession { .. } => 4,
            InstructionModel::EndSession { .. } => 5,
        }
    }

    /// The instruction's fields, in the fixed wire order of its variant.
    pub open spec fn fields(self) -> Seq<Seq<u8>> {
        match self {
            InstructionModel::RegisterNode { node_id, ip_address, hardware_id } =>
                seq![node_id, ip_address, hardware_id],
            InstructionModel::RemoveNode { node_id } => seq![node_id],
            InstructionModel::DispatchTask { task_id, node_id } => seq![task_id, node_id],
            InstructionModel::ReturnAnswer { task_id, answer } => seq![task_id, answer],
            InstructionModel::StartSession { node_id } => seq![node_id],
            InstructionModel::EndSession { node_id } => seq![node_id],
        }
    }

    /// Every field fits behind a one-byte length prefix.
    pub open spec fn fields_fit(self) -> bool {
        forall|i: int| 0 <= i < self.fields().len() ==> #[trigger] self.fields()[i].len() <= 255
    }

    /// Well-formed: every field fits its length prefix and is valid UTF-8,
    /// as the decoder guarantees of every instruction it returns.
    pub open spec fn wf(self) -> bool {
        &&& self.fields_fit()
        &&& forall|i: int| 0 <= i < self.fields().len() ==> is_utf8(#[trigger] self.fields()[i])
    }
}

/// A decoded instruction. Each field is an owned byte string that the
/// decoder has checked to be valid UTF-8 and at most 255 bytes long.
#[derive(Clone, Debug, PartialEq, Eq)]
pub enum Instruction {
    RegisterNode { node_id: Vec<u8>, ip_address: Vec<u8>, hardware_id: Vec<u8> },
    RemoveNode { node_id: Vec<u8> },
    DispatchTask { task_id: Vec<u8>, node_id: Vec<u8> },
    ReturnAnswer { task_id: Vec<u8>, answer: Vec<u8> },
    StartSession { node_id: Vec<u8> },
    EndSession { node_id: Vec<u8> },
}

impl View for Instruction {
    type V = InstructionModel;

    open spec fn view(&self) -> InstructionModel {
        match self {
            Instruction::RegisterNode { node_id, ip_address, hardware_id } =>
                InstructionModel::RegisterNode {
                    node_id: node_id@,
                    ip_address: ip_address@,
                    hardware_id: hardware_id@,
                },
            Instruction::RemoveNode { node_id } => InstructionModel::RemoveNode { node_id: node_id@ },
            Instruction::DispatchTask { task_id, node_id } =>
                InstructionModel::DispatchTask { task_id: task_id@, node_id: node_id@ },
            Instruction::ReturnAnswer { task_id, answer } =>
                InstructionModel::ReturnAnswer { task_id: task_id@, answer: answer@ },
            Instruction::StartSession { node_id } => InstructionModel::StartSession { node_id: node_id@ },
            Instruction::EndSession { node_id } => InstructionModel::EndSession { node_id: node_id@ },
        }
    }
}

} // verus!
