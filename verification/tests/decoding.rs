use fleet_dispatch::decode::{decode, parse_dispatch_task, parse_node_id, parse_register_node, parse_return_answer};
use fleet_dispatch::error::DecodeError;
use fleet_dispatch::instruction::Instruction;

#[test]
fn register_node_with_missing_field_is_truncated() {
    // opcode 0 asks for three fields; only two are present.
    let data = vec![0u8, 0, 0, 0, 2, b'A', b'B', 2, b'N', b'1'];
    assert_eq!(decode(&data), Err(DecodeError::TruncatedBuffer));
}

#[test]
fn remove_node_decodes() {
    let data = vec![1u8, 0, 0, 0, 2, b'N', b'1'];
    assert_eq!(
        decode(&data),
        Ok(Instruction::RemoveNode { node_id: b"N1".to_vec() })
    );
}

#[test]
fn dispatch_task_decodes() {
    let data = vec![2u8, 0, 0, 0, 2, b'T', b'1', 2, b'N', b'1'];
    assert_eq!(
        decode(&data),
        Ok(Instruction::DispatchTask { task_id: b"T1".to_vec(), node_id: b"N1".to_vec() })
    );
}

#[test]
fn return_answer_decodes() {
    let data = vec![3u8, 0, 0, 0, 2, b'T', b'1', 3, b'y', b'e', b's'];
    assert_eq!(
        decode(&data),
        Ok(Instruction::ReturnAnswer { task_id: b"T1".to_vec(), answer: b"yes".to_vec() })
    );
}

#[test]
fn session_opcodes_decode() {
    let start = vec![4u8, 0, 0, 0, 2, b'N', b'1'];
    assert_eq!(
        decode(&start),
        Ok(Instruction::StartSession { node_id: b"N1".to_vec() })
    );
    let end = vec![5u8, 0, 0, 0, 2, b'N', b'1'];
    assert_eq!(
        decode(&end),
        Ok(Instruction::EndSession { node_id: b"N1".to_vec() })
    );
}

#[test]
fn register_node_decodes() {
    let data = vec![
        0u8, 0, 0, 0, 2, b'N', b'1', 7, b'1', b'0', b'.', b'0', b'.', b'0', b'.', 3, b'h', b'w',
        b'0',
    ];
    assert_eq!(
        decode(&data),
        Ok(Instruction::RegisterNode {
            node_id: b"N1".to_vec(),
            ip_address: b"10.0.0.".to_vec(),
            hardware_id: b"hw0".to_vec(),
        })
    );
}

#[test]
fn unknown_opcode_is_rejected() {
    let data = vec![9u8, 0, 0, 0];
    assert_eq!(decode(&data), Err(DecodeError::InvalidOpcode));
}

#[test]
fn every_nonzero_high_byte_makes_the_opcode_invalid() {
    // 6 is the first value past the table; the high bytes weigh in too.
    for data in [
        vec![6u8, 0, 0, 0],
        vec![0u8, 1, 0, 0],
        vec![1u8, 0, 1, 0],
        vec![5u8, 0, 0, 1],
        vec![0xFFu8, 0xFF, 0xFF, 0xFF],
    ] {
        assert_eq!(decode(&data), Err(DecodeError::InvalidOpcode));
    }
}

#[test]
fn empty_buffer_is_truncated() {
    assert_eq!(decode(&[]), Err(DecodeError::TruncatedBuffer));
}

#[test]
fn short_opcode_is_truncated() {
    assert_eq!(decode(&[1u8, 0, 0]), Err(DecodeError::TruncatedBuffer));
}

#[test]
fn invalid_utf8_field_is_rejected() {
    // start_session with a one-byte field that is not UTF-8.
    let data = vec![4u8, 0, 0, 0, 1, 0xFF];
    assert_eq!(decode(&data), Err(DecodeError::InvalidEncoding));
}

#[test]
fn invalid_utf8_in_second_field_is_rejected() {
    let data = vec![2u8, 0, 0, 0, 2, b'T', b'1', 1, 0x80];
    assert_eq!(decode(&data), Err(DecodeError::InvalidEncoding));
}

#[test]
fn multibyte_utf8_field_is_accepted() {
    // 0xC3 0xA9 is a two-byte UTF-8 sequence.
    let data = vec![1u8, 0, 0, 0, 2, 0xC3, 0xA9];
    assert_eq!(
        decode(&data),
        Ok(Instruction::RemoveNode { node_id: vec![0xC3, 0xA9] })
    );
}

#[test]
fn empty_field_is_accepted() {
    let data = vec![1u8, 0, 0, 0, 0];
    assert_eq!(decode(&data), Ok(Instruction::RemoveNode { node_id: Vec::new() }));
}

#[test]
fn trailing_bytes_are_ignored() {
    let data = vec![1u8, 0, 0, 0, 2, b'N', b'1', 42, 42, 42];
    assert_eq!(
        decode(&data),
        Ok(Instruction::RemoveNode { node_id: b"N1".to_vec() })
    );
}

#[test]
fn length_byte_claiming_too_much_is_truncated() {
    // the field claims 255 bytes but only 2 are present.
    let data = vec![1u8, 0, 0, 0, 255, b'N', b'1'];
    assert_eq!(decode(&data), Err(DecodeError::TruncatedBuffer));
}

#[test]
fn rejection_is_idempotent() {
    let malformed = vec![0u8, 0, 0, 0, 2, b'A', b'B', 2, b'N', b'1'];
    let first = decode(&malformed);
    let second = decode(&malformed);
    let third = decode(&malformed);
    assert_eq!(first, Err(DecodeError::TruncatedBuffer));
    assert_eq!(first, second);
    assert_eq!(second, third);
}

#[test]
fn parse_node_id_reads_one_field() {
    assert_eq!(parse_node_id(&[2, b'N', b'1']), Ok(b"N1".to_vec()));
    assert_eq!(parse_node_id(&[]), Err(DecodeError::TruncatedBuffer));
    assert_eq!(parse_node_id(&[3, b'N', b'1']), Err(DecodeError::TruncatedBuffer));
}

#[test]
fn parse_dispatch_task_reads_two_fields() {
    assert_eq!(
        parse_dispatch_task(&[2, b'T', b'1', 2, b'N', b'1']),
        Ok((b"T1".to_vec(), b"N1".to_vec()))
    );
    assert_eq!(
        parse_dispatch_task(&[2, b'T', b'1']),
        Err(DecodeError::TruncatedBuffer)
    );
}

#[test]
fn parse_return_answer_reads_two_fields() {
    assert_eq!(
        parse_return_answer(&[1, b'T', 2, b'o', b'k']),
        Ok((b"T".to_vec(), b"ok".to_vec()))
    );
    assert_eq!(parse_return_answer(&[1, 0xFF, 1, b'a']), Err(DecodeError::InvalidEncoding));
}

#[test]
fn parse_register_node_reads_three_fields() {
    assert_eq!(
        parse_register_node(&[1, b'N', 2, b'i', b'p', 2, b'h', b'w']),
        Ok((b"N".to_vec(), b"ip".to_vec(), b"hw".to_vec()))
    );
    assert_eq!(
        parse_register_node(&[1, b'N', 2, b'i', b'p']),
        Err(DecodeError::TruncatedBuffer)
    );
}
