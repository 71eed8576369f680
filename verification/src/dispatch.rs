//! Dispatcher and handlers: route a decoded instruction to exactly one
//! handler and produce its effect record.
//!
//! The dispatcher holds no state between calls; it is a pure routing
//! function over the closed variant set. Handlers receive already-validated
//! fields and have no failure modes of their own: each emits one structured
//! effect record, which the caller hands to its log or registry
//! collaborator.

use vstd::prelude::*;

use crate::decode::{decode, spec_decode};
use crate::error::DecodeError;
use crate::instruction::{Instruction, InstructionModel};

verus! {

/// The mathematical model of an effect record: the same shape as
/// [`Effect`], with each field abstracted to its byte sequence.
#[verifier::ext_equal]
pub enum EffectModel {
    NodeRegistered { node_id: Seq<u8>, ip_address: Seq<u8>, hardware_id: Seq<u8> },
    NodeRemoved { node_id: Seq<u8> },
    TaskDispatched { task_id: Seq<u8>, node_id: Seq<u8> },
    AnswerRecorded { task_id: Seq<u8>, answer: Seq<u8> },
    SessionStarted { node_id: Seq<u8> },
    SessionEnded { node_id: Seq<u8> },
}

/// One structured side-effect record, the observable outcome of handling
/// one instruction: which action the fleet's registry and log should see,
/// with the fields of the instruction that asked for it.
#[derive(Clone, Debug, PartialEq, Eq)]
pub enum Effect {
    NodeRegistered { node_id: Vec<u8>, ip_address: Vec<u8>, hardware_id: Vec<u8> },
    NodeRemoved { node_id: Vec<u8> },
    TaskDispatched { task_id: Vec<u8>, node_id: Vec<u8> },
    AnswerRecorded { task_id: Vec<u8>, answer: Vec<u8> },
    SessionStarted { node_id: Vec<u8> },
    SessionEnded { node_id: Vec<u8> },
}

impl View for Effect {
    type V = EffectModel;

    open spec fn view(&self) -> EffectModel {
        match self {
            Effect::NodeRegistered { node_id, ip_address, hardware_id } => EffectModel::NodeRegistered {
                node_id: node_id@,
                ip_address: ip_address@,
                hardware_id: hardware_id@,
            },
            Effect::NodeRemoved { node_id } => EffectModel::NodeRemoved { node_id: node_id@ },
            Effect::TaskDispatched { task_id, node_id } => EffectModel::TaskDispatched {
                task_id: task_id@,
                node_id: node_id@,
            },
            Effect::AnswerRecorded { task_id, answer } => EffectModel::AnswerRecorded {
                task_id: task_id@,
                answer: answer@,
            },
            Effect::SessionStarted { node_id } => EffectModel::SessionStarted { node_id: node_id@ },
            Effect::SessionEnded { node_id } => EffectModel::SessionEnded { node_id: node_id@ },
        }
    }
}

/// The opcode table as a routing function: which effect each instruction
/// variant produces. Every variant maps to exactly one effect, carrying
/// the instruction's fields unchanged.
pub open spec fn spec_dispatch(m: InstructionModel) -> EffectModel {
    match m {
        InstructionModel::RegisterNode { node_id, ip_address, hardware_id } => EffectModel::NodeRegistered {
            node_id,
            ip_address,
            hardware_id,
        },
        InstructionModel::RemoveNode { node_id } => EffectModel::NodeRemoved { node_id },
        InstructionModel::DispatchTask { task_id, node_id } => EffectModel::TaskDispatched {
            task_id,
            node_id,
        },
        InstructionModel::ReturnAnswer { task_id, answer } => EffectModel::AnswerRecorded {
            task_id,
            answer,
        },
        InstructionModel::StartSession { node_id } => EffectModel::SessionStarted { node_id },
        InstructionModel::EndSession { node_id } => EffectModel::SessionEnded { node_id },
    }
}

/// Handles a register-node instruction: records that `node_id` joined the
/// fleet with the given IP address and hardware id.
pub fn handle_register_node(node_id: Vec<u8>, ip_address: Vec<u8>, hardware_id: Vec<u8>) -> (e: Effect)
    ensures
        e@ == spec_dispatch(InstructionModel::RegisterNode {
            node_id: node_id@,
            ip_address: ip_address@,
            hardware_id: hardware_id@,
        }),
{
    Effect::NodeRegistered { node_id, ip_address, hardware_id }
}

/// Handles a remove-node instruction: records that `node_id` left the fleet.
pub fn handle_remove_node(node_id: Vec<u8>) -> (e: Effect)
    ensures
        e@ == spec_dispatch(InstructionModel::RemoveNode { node_id: node_id@ }),
{
    Effect::NodeRemoved { node_id }
}

/// Handles a dispatch-task instruction: records that `task_id` was sent to
/// `node_id`.
pub fn handle_dispatch_task(task_id: Vec<u8>, node_id: Vec<u8>) -> (e: Effect)
    ensures
        e@ == spec_dispatch(InstructionModel::DispatchTask { task_id: task_id@, node_id: node_id@ }),
{
    Effect::TaskDispatched { task_id, node_id }
}

/// Handles a return-answer instruction: records `answer` against `task_id`.
pub fn handle_return_answer(task_id: Vec<u8>, answer: Vec<u8>) -> (e: Effect)
    ensures
        e@ == spec_dispatch(InstructionModel::ReturnAnswer { task_id: task_id@, answer: answer@ }),
{
    Effect::AnswerRecorded { task_id, answer }
}

/// Handles a start-session instruction: records that a session opened for
/// `node_id`.
pub fn handle_start_session(node_id: Vec<u8>) -> (e: Effect)
    ensures
        e@ == spec_dispatch(InstructionModel::StartSession { node_id: node_id@ }),
{
    Effect::SessionStarted { node_id }
}

/// Handles an end-session instruction: records that `node_id`'s session
/// closed.
pub fn handle_end_session(node_id: Vec<u8>) -> (e: Effect)
    ensures
        e@ == spec_dispatch(InstructionModel::EndSession { node_id: node_id@ }),
{
    Effect::SessionEnded { node_id }
}

/// Routes one decoded instruction to its handler. Exactly one handler runs
/// per instruction, and the effect it returns is [`spec_dispatch`] of the
/// instruction.
pub fn dispatch(instruction: Instruction) -> (e: Effect)
    ensures
        e@ == spec_dispatch(instruction@),
{
    match instruction {
        Instruction::RegisterNode { node_id, ip_address, hardware_id } => handle_register_node(
            node_id,
            ip_address,
            hardware_id,
        ),
        Instruction::RemoveNode { node_id } => handle_remove_node(node_id),
        Instruction::DispatchTask { task_id, node_id } => handle_dispatch_task(task_id, node_id),
        Instruction::ReturnAnswer { task_id, answer } => handle_return_answer(task_id, answer),
        Instruction::StartSession { node_id } => handle_start_session(node_id),
        Instruction::EndSession { node_id } => handle_end_session(node_id),
    }
}

/// What one whole decode-and-dispatch cycle yields for a buffer: the effect
/// of the decoded instruction, or the decoder's error untouched. No handler
/// runs for a buffer that fails to decode.
pub open spec fn spec_process(data: Seq<u8>) -> Result<EffectModel, DecodeError> {
    match spec_decode(data) {
        Ok(m) => Ok(spec_dispatch(m)),
        Err(e) => Err(e),
    }
}

/// Processes one untrusted instruction buffer: decode, then dispatch.
///
/// All-or-nothing: on error no instruction is constructed and no handler
/// runs; on success exactly one handler ran and its effect is returned.
pub fn process(data: &[u8]) -> (r: Result<Effect, DecodeError>)
    ensures
        match r {
            Ok(e) => spec_process(data@) == Ok::<EffectModel, DecodeError>(e@),
            Err(er) => spec_process(data@) == Err::<EffectModel, DecodeError>(er),
        },
{
    match decode(data) {
        Ok(instruction) => Ok(dispatch(instruction)),
        Err(e) => Err(e),
    }
}

} // verus!
