//! The laws of the wire format, proved once over all inputs: decoding is
//! deterministic, accepts exactly the six opcodes, inverts encoding, and
//! rejects every strict truncation of a valid encoding as truncated.

use vstd::prelude::*;

use crate::decode::{le_u32, spec_decode, spec_parse_one_field, spec_parse_three_fields, spec_parse_two_fields};
use crate::encode::{spec_encode, spec_encode_field};
use crate::error::DecodeError;
use crate::field::{is_utf8, spec_read_text};
use crate::instruction::InstructionModel;

verus! {

/// Opcode exhaustiveness: a buffer of at least four bytes whose opcode is
/// outside {0..5} fails with `InvalidOpcode`, and a buffer that decodes at
/// all carries the opcode of the instruction it decodes to.
pub proof fn lemma_opcode_exhaustive(data: Seq<u8>)
    ensures
        data.len() >= 4 && !(0 <= le_u32(data[0], data[1], data[2], data[3]) <= 5)
            ==> spec_decode(data) == Err::<InstructionModel, DecodeError>(DecodeError::InvalidOpcode),
        spec_decode(data) matches Ok(m) ==> le_u32(data[0], data[1], data[2], data[3]) == m.opcode(),
{
}

/// Idempotent rejection: decoding depends on the buffer's bytes alone, so
/// two buffers with equal bytes decode alike — the same malformed buffer
/// fails with the same error kind every time.
pub proof fn lemma_decode_deterministic(first: Seq<u8>, second: Seq<u8>)
    requires
        first == second,
    ensures
        spec_decode(first) == spec_decode(second),
{
}

/// Reading at `off` in a buffer that holds the full wire form of `f` there
/// yields exactly `f` and the offset past it.
proof fn lemma_read_text_at(data: Seq<u8>, off: int, f: Seq<u8>)
    requires
        f.len() <= 255,
        is_utf8(f),
        0 <= off,
        off + 1 + f.len() <= data.len(),
        data.subrange(off, off + 1 + f.len()) == spec_encode_field(f),
    ensures
        spec_read_text(data, off) == Ok::<(Seq<u8>, int), DecodeError>((f, off + 1 + f.len())),
{
    let l = f.len() as int;
    assert(data[off] == data.subrange(off, off + 1 + l)[0]);
    assert(spec_encode_field(f)[0] == f.len() as u8);
    assert forall|i: int| 0 <= i < l implies data.subrange(off + 1, off + 1 + l)[i] == f[i] by {
        assert(data.subrange(off, off + 1 + l)[i + 1] == data[off + 1 + i]);
        assert(spec_encode_field(f)[i + 1] == f[i]);
    }
    assert(data.subrange(off + 1, off + 1 + l) =~= f);
}

/// Reading at `off` in a buffer that ends inside the wire form of `f`
/// (after at most its length byte and part of its content) fails as
/// truncated.
proof fn lemma_read_text_truncated(data: Seq<u8>, off: int, f: Seq<u8>)
    requires
        f.len() <= 255,
        0 <= off <= data.len(),
        data.len() < off + 1 + f.len(),
        data.subrange(off, data.len() as int) == spec_encode_field(f).take(data.len() - off),
    ensures
        spec_read_text(data, off) == Err::<(Seq<u8>, int), DecodeError>(DecodeError::TruncatedBuffer),
{
    if off < data.len() {
        assert(data[off] == data.subrange(off, data.len() as int)[0]);
        assert(spec_encode_field(f).take(data.len() - off)[0] == f.len() as u8);
    }
}

/// A body that is exactly the wire form of one field parses to that field.
proof fn lemma_parse_one_of_encoding(body: Seq<u8>, f1: Seq<u8>)
    requires
        f1.len() <= 255,
        is_utf8(f1),
        body == spec_encode_field(f1),
    ensures
        spec_parse_one_field(body) == Ok::<Seq<u8>, DecodeError>(f1),
{
    assert(body.subrange(0, 1 + f1.len() as int) =~= spec_encode_field(f1));
    lemma_read_text_at(body, 0, f1);
}

/// A body that is exactly the wire form of two fields parses to them, in
/// order.
proof fn lemma_parse_two_of_encoding(body: Seq<u8>, f1: Seq<u8>, f2: Seq<u8>)
    requires
        f1.len() <= 255,
        f2.len() <= 255,
        is_utf8(f1),
        is_utf8(f2),
        body == spec_encode_field(f1) + spec_encode_field(f2),
    ensures
        spec_parse_two_fields(body) == Ok::<(Seq<u8>, Seq<u8>), DecodeError>((f1, f2)),
{
    let end1 = 1 + f1.len() as int;
    assert(body.subrange(0, end1) =~= spec_encode_field(f1));
    lemma_read_text_at(body, 0, f1);
    assert(body.subrange(end1, end1 + 1 + f2.len()) =~= spec_encode_field(f2));
    lemma_read_text_at(body, end1, f2);
}

/// A body that is exactly the wire form of three fields parses to them, in
/// order.
proof fn lemma_parse_three_of_encoding(body: Seq<u8>, f1: Seq<u8>, f2: Seq<u8>, f3: Seq<u8>)
    requires
        f1.len() <= 255,
        f2.len() <= 255,
        f3.len() <= 255,
        is_utf8(f1),
        is_utf8(f2),
        is_utf8(f3),
        body == spec_encode_field(f1) + spec_encode_field(f2) + spec_encode_field(f3),
    ensures
        spec_parse_three_fields(body) == Ok::<(Seq<u8>, Seq<u8>, Seq<u8>), DecodeError>((f1, f2, f3)),
{
    let end1 = 1 + f1.len() as int;
    let end2 = end1 + 1 + f2.len() as int;
    assert(body.subrange(0, end1) =~= spec_encode_field(f1));
    lemma_read_text_at(body, 0, f1);
    assert(body.subrange(end1, end2) =~= spec_encode_field(f2));
    lemma_read_text_at(body, end1, f2);
    assert(body.subrange(end2, end2 + 1 + f3.len()) =~= spec_encode_field(f3));
    lemma_read_text_at(body, end2, f3);
}

/// A strict prefix of the wire form of one field fails to parse, as
/// truncated.
proof fn lemma_parse_one_truncated(body: Seq<u8>, f1: Seq<u8>)
    requires
        f1.len() <= 255,
        body == spec_encode_field(f1).take(body.len() as int),
        body.len() < spec_encode_field(f1).len(),
    ensures
        spec_parse_one_field(body) == Err::<Seq<u8>, DecodeError>(DecodeError::TruncatedBuffer),
{
    assert(body.subrange(0, body.len() as int) =~= spec_encode_field(f1).take(body.len() as int));
    lemma_read_text_truncated(body, 0, f1);
}

/// A strict prefix of the wire form of two fields fails to parse, as
/// truncated: either the first field is cut, or it is whole and the second
/// is cut.
proof fn lemma_parse_two_truncated(body: Seq<u8>, f1: Seq<u8>, f2: Seq<u8>)
    requires
        f1.len() <= 255,
        f2.len() <= 255,
        is_utf8(f1),
        body == (spec_encode_field(f1) + spec_encode_field(f2)).take(body.len() as int),
        body.len() < (spec_encode_field(f1) + spec_encode_field(f2)).len(),
    ensures
        spec_parse_two_fields(body) == Err::<(Seq<u8>, Seq<u8>), DecodeError>(DecodeError::TruncatedBuffer),
{
    let end1 = 1 + f1.len() as int;
    if body.len() < end1 {
        assert(body.subrange(0, body.len() as int) =~= spec_encode_field(f1).take(body.len() as int));
        lemma_read_text_truncated(body, 0, f1);
    } else {
        assert(body.subrange(0, end1) =~= spec_encode_field(f1));
        lemma_read_text_at(body, 0, f1);
        assert(body.subrange(end1, body.len() as int) =~= spec_encode_field(f2).take(
            body.len() - end1,
        ));
        lemma_read_text_truncated(body, end1, f2);
    }
}

/// A strict prefix of the wire form of three fields fails to parse, as
/// truncated: the cut falls in exactly one field, and every field before
/// the cut parses whole.
proof fn lemma_parse_three_truncated(body: Seq<u8>, f1: Seq<u8>, f2: Seq<u8>, f3: Seq<u8>)
    requires
        f1.len() <= 255,
        f2.len() <= 255,
        f3.len() <= 255,
        is_utf8(f1),
        is_utf8(f2),
        body == (spec_encode_field(f1) + spec_encode_field(f2) + spec_encode_field(f3)).take(
            body.len() as int,
        ),
        body.len() < (spec_encode_field(f1) + spec_encode_field(f2) + spec_encode_field(f3)).len(),
    ensures
        spec_parse_three_fields(body) == Err::<(Seq<u8>, Seq<u8>, Seq<u8>), DecodeError>(
            DecodeError::TruncatedBuffer,
        ),
{
    let end1 = 1 + f1.len() as int;
    let end2 = end1 + 1 + f2.len() as int;
    if body.len() < end1 {
        assert(body.subrange(0, body.len() as int) =~= spec_encode_field(f1).take(body.len() as int));
        lemma_read_text_truncated(body, 0, f1);
    } else {
        assert(body.subrange(0, end1) =~= spec_encode_field(f1));
        lemma_read_text_at(body, 0, f1);
        if body.len() < end2 {
            assert(body.subrange(end1, body.len() as int) =~= spec_encode_field(f2).take(
                body.len() - end1,
            ));
            lemma_read_text_truncated(body, end1, f2);
        } else {
            assert(body.subrange(end1, end2) =~= spec_encode_field(f2));
            lemma_read_text_at(body, end1, f2);
            assert(body.subrange(end2, body.len() as int) =~= spec_encode_field(f3).take(
                body.len() - end2,
            ));
            lemma_read_text_truncated(body, end2, f3);
        }
    }
}

/// Truncation safety: cutting the wire form of a well-formed instruction
/// anywhere strictly short of its full length makes decoding fail with
/// `TruncatedBuffer` — never another error and never a successful decode.
pub proof fn lemma_truncation(m: InstructionModel, n: int)
    ensures
        m.wf() && 0 <= n < spec_encode(m).len() ==> spec_decode(spec_encode(m).take(n))
            == Err::<InstructionModel, DecodeError>(DecodeError::TruncatedBuffer),
{
    if m.wf() && 0 <= n < spec_encode(m).len() {
        let e = spec_encode(m);
        let t = e.take(n);
        if n >= 4 {
            let body_t = t.subrange(4, n);
            match m {
                InstructionModel::RegisterNode { node_id, ip_address, hardware_id } => {
                    assert(m.fields()[0] == node_id && m.fields()[1] == ip_address && m.fields()[2]
                        == hardware_id);
                    assert(le_u32(t[0], t[1], t[2], t[3]) == 0);
                    let full = spec_encode_field(node_id) + spec_encode_field(ip_address)
                        + spec_encode_field(hardware_id);
                    assert(body_t =~= full.take(n - 4));
                    lemma_parse_three_truncated(body_t, node_id, ip_address, hardware_id);
                },
                InstructionModel::RemoveNode { node_id } => {
                    assert(m.fields()[0] == node_id);
                    assert(le_u32(t[0], t[1], t[2], t[3]) == 1);
                    assert(body_t =~= spec_encode_field(node_id).take(n - 4));
                    lemma_parse_one_truncated(body_t, node_id);
                },
                InstructionModel::DispatchTask { task_id, node_id } => {
                    assert(m.fields()[0] == task_id && m.fields()[1] == node_id);
                    assert(le_u32(t[0], t[1], t[2], t[3]) == 2);
                    let full = spec_encode_field(task_id) + spec_encode_field(node_id);
                    assert(body_t =~= full.take(n - 4));
                    lemma_parse_two_truncated(body_t, task_id, node_id);
                },
                InstructionModel::ReturnAnswer { task_id, answer } => {
                    assert(m.fields()[0] == task_id && m.fields()[1] == answer);
                    assert(le_u32(t[0], t[1], t[2], t[3]) == 3);
                    let full = spec_encode_field(task_id) + spec_encode_field(answer);
                    assert(body_t =~= full.take(n - 4));
                    lemma_parse_two_truncated(body_t, task_id, answer);
                },
                InstructionModel::StartSession { node_id } => {
                    assert(m.fields()[0] == node_id);
                    assert(le_u32(t[0], t[1], t[2], t[3]) == 4);
                    assert(body_t =~= spec_encode_field(node_id).take(n - 4));
                    lemma_parse_one_truncated(body_t, node_id);
                },
                InstructionModel::EndSession { node_id } => {
                    assert(m.fields()[0] == node_id);
                    assert(le_u32(t[0], t[1], t[2], t[3]) == 5);
                    assert(body_t =~= spec_encode_field(node_id).take(n - 4));
                    lemma_parse_one_truncated(body_t, node_id);
                },
            }
        }
    }
}

/// Round-trip: encoding a well-formed instruction and decoding the result
/// reproduces the instruction, field for field.
pub proof fn lemma_round_trip(m: InstructionModel)
    ensures
        m.wf() ==> spec_decode(spec_encode(m)) == Ok::<InstructionModel, DecodeError>(m),
{
    if m.wf() {
        let e = spec_encode(m);
        let body = e.subrange(4, e.len() as int);
        match m {
            InstructionModel::RegisterNode { node_id, ip_address, hardware_id } => {
                assert(m.fields()[0] == node_id && m.fields()[1] == ip_address && m.fields()[2]
                    == hardware_id);
                assert(le_u32(e[0], e[1], e[2], e[3]) == 0);
                assert(body =~= spec_encode_field(node_id) + spec_encode_field(ip_address)
                    + spec_encode_field(hardware_id));
                lemma_parse_three_of_encoding(body, node_id, ip_address, hardware_id);
            },
            InstructionModel::RemoveNode { node_id } => {
                assert(m.fields()[0] == node_id);
                assert(le_u32(e[0], e[1], e[2], e[3]) == 1);
                assert(body =~= spec_encode_field(node_id));
                lemma_parse_one_of_encoding(body, node_id);
            },
            InstructionModel::DispatchTask { task_id, node_id } => {
                assert(m.fields()[0] == task_id && m.fields()[1] == node_id);
                assert(le_u32(e[0], e[1], e[2], e[3]) == 2);
                assert(body =~= spec_encode_field(task_id) + spec_encode_field(node_id));
                lemma_parse_two_of_encoding(body, task_id, node_id);
            },
            InstructionModel::ReturnAnswer { task_id, answer } => {
                assert(m.fields()[0] == task_id && m.fields()[1] == answer);
                assert(le_u32(e[0], e[1], e[2], e[3]) == 3);
                assert(body =~= spec_encode_field(task_id) + spec_encode_field(answer));
                lemma_parse_two_of_encoding(body, task_id, answer);
            },
            InstructionModel::StartSession { node_id } => {
                assert(m.fields()[0] == node_id);
                assert(le_u32(e[0], e[1], e[2], e[3]) == 4);
                assert(body =~= spec_encode_field(node_id));
                lemma_parse_one_of_encoding(body, node_id);
            },
            InstructionModel::EndSession { node_id } => {
                assert(m.fields()[0] == node_id);
                assert(le_u32(e[0], e[1], e[2], e[3]) == 5);
                assert(body =~= spec_encode_field(node_id));
                lemma_parse_one_of_encoding(body, node_id);
            },
        }
    }
}

} // verus!
