//! Instruction decoder: turns a raw, untrusted buffer into a validated
//! [`Instruction`] or a typed [`DecodeError`].
//!
//! The first four bytes are the opcode, an unsigned 32-bit little-endian
//! value in {0..5}; the rest of the buffer is the variant's fixed sequence
//! of length-prefixed textual fields, read in order from offset 4. Trailing
//! bytes after the last field are ignored, tolerating forward-compatible
//! padding. Decoding has no side effects: it either returns a fully
//! populated instruction or an error, never a partial value.

use vstd::prelude::*;

use crate::error::DecodeError;
use crate::field::{is_utf8, read_text, spec_read_text};
use crate::instruction::{Instruction, InstructionModel};

verus! {

/// The unsigned 32-bit little-endian value of four bytes.
pub open spec fn le_u32(b0: u8, b1: u8, b2: u8, b3: u8) -> int {
    b0 + b1 * 0x100 + b2 * 0x10000 + b3 * 0x1000000
}

/// One textual field read from the front of an instruction body, with any
/// trailing bytes ignored.
pub open spec fn spec_parse_one_field(data: Seq<u8>) -> Result<Seq<u8>, DecodeError> {
    match spec_read_text(data, 0) {
        Ok(p) => Ok(p.0),
        Err(e) => Err(e),
    }
}

/// Two successive textual fields read from the front of an instruction
/// body, the second starting where the first ended.
pub open spec fn spec_parse_two_fields(data: Seq<u8>) -> Result<(Seq<u8>, Seq<u8>), DecodeError> {
    match spec_read_text(data, 0) {
        Ok(p1) => match spec_read_text(data, p1.1) {
            Ok(p2) => Ok((p1.0, p2.0)),
            Err(e) => Err(e),
        },
        Err(e) => Err(e),
    }
}

/// Three successive textual fields read from the front of an instruction
/// body.
pub open spec fn spec_parse_three_fields(data: Seq<u8>) -> Result<(Seq<u8>, Seq<u8>, Seq<u8>), DecodeError> {
    match spec_read_text(data, 0) {
        Ok(p1) => match spec_read_text(data, p1.1) {
            Ok(p2) => match spec_read_text(data, p2.1) {
                Ok(p3) => Ok((p1.0, p2.0, p3.0)),
                Err(e) => Err(e),
            },
            Err(e) => Err(e),
        },
        Err(e) => Err(e),
    }
}

/// What decoding a whole buffer yields: `TruncatedBuffer` when even the
/// opcode is unreadable, `InvalidOpcode` for an opcode outside {0..5}, and
/// otherwise the variant's field sequence parsed from offset 4.
pub open spec fn spec_decode(data: Seq<u8>) -> Result<InstructionModel, DecodeError> {
    if data.len() < 4 {
        Err(DecodeError::TruncatedBuffer)
    } else {
        let op = le_u32(data[0], data[1], data[2], data[3]);
        let body = data.subrange(4, data.len() as int);
        if op == 0 {
            match spec_parse_three_fields(body) {
                Ok(t) => Ok(InstructionModel::RegisterNode {
                    node_id: t.0,
                    ip_address: t.1,
                    hardware_id: t.2,
                }),
                Err(e) => Err(e),
            }
        } else if op == 1 {
            match spec_parse_one_field(body) {
                Ok(f) => Ok(InstructionModel::RemoveNode { node_id: f }),
                Err(e) => Err(e),
            }
        } else if op == 2 {
            match spec_parse_two_fields(body) {
                Ok(t) => Ok(InstructionModel::DispatchTask { task_id: t.0, node_id: t.1 }),
                Err(e) => Err(e),
            }
        } else if op == 3 {
            match spec_parse_two_fields(body) {
                Ok(t) => Ok(InstructionModel::ReturnAnswer { task_id: t.0, answer: t.1 }),
                Err(e) => Err(e),
            }
        } else if op == 4 {
            match spec_parse_one_field(body) {
                Ok(f) => Ok(InstructionModel::StartSession { node_id: f }),
                Err(e) => Err(e),
            }
        } else if op == 5 {
            match spec_parse_one_field(body) {
                Ok(f) => Ok(InstructionModel::EndSession { node_id: f }),
                Err(e) => Err(e),
            }
        } else {
            Err(DecodeError::InvalidOpcode)
        }
    }
}

/// Parses a single textual field from the front of an instruction body, as
/// the remove-node, start-session and end-session instructions carry.
pub fn parse_node_id(data: &[u8]) -> (r: Result<Vec<u8>, DecodeError>)
    ensures
        match r {
            Ok(f) => spec_parse_one_field(data@) == Ok::<Seq<u8>, DecodeError>(f@),
            Err(e) => spec_parse_one_field(data@) == Err::<Seq<u8>, DecodeError>(e),
        },
{
    match read_text(data, 0) {
        Ok((f, _next)) => Ok(f),
        Err(e) => Err(e),
    }
}

/// Parses a dispatch-task body: a task id followed by a node id.
pub fn parse_dispatch_task(data: &[u8]) -> (r: Result<(Vec<u8>, Vec<u8>), DecodeError>)
    ensures
        match r {
            Ok(t) => spec_parse_two_fields(data@) == Ok::<(Seq<u8>, Seq<u8>), DecodeError>((t.0@, t.1@)),
            Err(e) => spec_parse_two_fields(data@) == Err::<(Seq<u8>, Seq<u8>), DecodeError>(e),
        },
{
    let (first, next) = match read_text(data, 0) {
        Ok(p) => p,
        Err(e) => {
            return Err(e);
        },
    };
    match read_text(data, next) {
        Ok((second, _next2)) => Ok((first, second)),
        Err(e) => Err(e),
    }
}

/// Parses a return-answer body: a task id followed by an answer.
pub fn parse_return_answer(data: &[u8]) -> (r: Result<(Vec<u8>, Vec<u8>), DecodeError>)
    ensures
        match r {
            Ok(t) => spec_parse_two_fields(data@) == Ok::<(Seq<u8>, Seq<u8>), DecodeError>((t.0@, t.1@)),
            Err(e) => spec_parse_two_fields(data@) == Err::<(Seq<u8>, Seq<u8>), DecodeError>(e),
        },
{
    parse_dispatch_task(data)
}

/// Parses a register-node body: a node id, an IP address and a hardware id.
pub fn parse_register_node(data: &[u8]) -> (r: Result<(Vec<u8>, Vec<u8>, Vec<u8>), DecodeError>)
    ensures
        match r {
            Ok(t) => spec_parse_three_fields(data@) == Ok::<(Seq<u8>, Seq<u8>, Seq<u8>), DecodeError>(
                (t.0@, t.1@, t.2@),
            ),
            Err(e) => spec_parse_three_fields(data@) == Err::<(Seq<u8>, Seq<u8>, Seq<u8>), DecodeError>(e),
        },
{
    let (first, next) = match read_text(data, 0) {
        Ok(p) => p,
        Err(e) => {
            return Err(e);
        },
    };
    let (second, next2) = match read_text(data, next) {
        Ok(p) => p,
        Err(e) => {
            return Err(e);
        },
    };
    match read_text(data, next2) {
        Ok((third, _next3)) => Ok((first, second, third)),
        Err(e) => Err(e),
    }
}

/// Every instruction the decoder can yield is well-formed: each of its
/// fields fits a one-byte length prefix and is valid UTF-8.
pub proof fn lemma_decode_wf(data: Seq<u8>)
    ensures
        spec_decode(data) matches Ok(m) ==> m.wf(),
{
    match spec_decode(data) {
        Ok(m) => {
            assert forall|i: int| 0 <= i < m.fields().len() implies #[trigger] m.fields()[i].len()
                <= 255 && is_utf8(m.fields()[i]) by {
                let body = data.subrange(4, data.len() as int);
                match spec_read_text(body, 0) {
                    Ok(p1) => {
                        match spec_read_text(body, p1.1) {
                            Ok(p2) => {
                                match spec_read_text(body, p2.1) {
                                    Ok(_) => {},
                                    Err(_) => {},
                                }
                            },
                            Err(_) => {},
                        }
                    },
                    Err(_) => {},
                }
            }
        },
        Err(_) => {},
    }
}

/// Decodes one untrusted instruction buffer.
///
/// The result equals [`spec_decode`] of the buffer's bytes, so decoding is
/// deterministic; the buffer is only read, never changed; and every bound
/// is proved before any index, so no input makes the decoder read past the
/// buffer or panic.
pub fn decode(data: &[u8]) -> (r: Result<Instruction, DecodeError>)
    ensures
        match r {
            Ok(i) => spec_decode(data@) == Ok::<InstructionModel, DecodeError>(i@) && i@.wf(),
            Err(e) => spec_decode(data@) == Err::<InstructionModel, DecodeError>(e),
        },
{
    proof {
        lemma_decode_wf(data@);
    }
    if data.len() < 4 {
        return Err(DecodeError::TruncatedBuffer);
    }
    let b0 = *vstd::slice::slice_index_get(data, 0) as u32;
    let b1 = *vstd::slice::slice_index_get(data, 1) as u32;
    let b2 = *vstd::slice::slice_index_get(data, 2) as u32;
    let b3 = *vstd::slice::slice_index_get(data, 3) as u32;
    let op = b0 + b1 * 0x100 + b2 * 0x10000 + b3 * 0x1000000;
    let body = vstd::slice::slice_subrange(data, 4, data.len());
    proof {
        assert(op == le_u32(data@[0], data@[1], data@[2], data@[3]));
        assert(body@ == data@.subrange(4, data@.len() as int));
    }
    if op == 0 {
        match parse_register_node(body) {
            Ok((node_id, ip_address, hardware_id)) => Ok(Instruction::RegisterNode {
                node_id,
                ip_address,
                hardware_id,
            }),
            Err(e) => Err(e),
        }
    } else if op == 1 {
        match parse_node_id(body) {
            Ok(node_id) => Ok(Instruction::RemoveNode { node_id }),
            Err(e) => Err(e),
        }
    } else if op == 2 {
        match parse_dispatch_task(body) {
            Ok((task_id, node_id)) => Ok(Instruction::DispatchTask { task_id, node_id }),
            Err(e) => Err(e),
        }
    } else if op == 3 {
        match parse_return_answer(body) {
            Ok((task_id, answer)) => Ok(Instruction::ReturnAnswer { task_id, answer }),
            Err(e) => Err(e),
        }
    } else if op == 4 {
        match parse_node_id(body) {
            Ok(node_id) => Ok(Instruction::StartSession { node_id }),
            Err(e) => Err(e),
        }
    } else if op == 5 {
        match parse_node_id(body) {
            Ok(node_id) => Ok(Instruction::EndSession { node_id }),
            Err(e) => Err(e),
        }
    } else {
        Err(DecodeError::InvalidOpcode)
    }
}

} // verus!
