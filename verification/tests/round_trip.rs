use fleet_dispatch::decode::decode;
use fleet_dispatch::dispatch::{dispatch, process, Effect};
use fleet_dispatch::encode::encode;
use fleet_dispatch::error::DecodeError;
use fleet_dispatch::instruction::Instruction;

fn sample_instructions() -> Vec<Instruction> {
    vec![
        Instruction::RegisterNode {
            node_id: b"node-7".to_vec(),
            ip_address: b"192.168.1.20".to_vec(),
            hardware_id: b"hw-ab12".to_vec(),
        },
        Instruction::RemoveNode { node_id: b"node-7".to_vec() },
        Instruction::DispatchTask { task_id: b"T1".to_vec(), node_id: b"N1".to_vec() },
        Instruction::ReturnAnswer { task_id: b"T1".to_vec(), answer: b"42".to_vec() },
        Instruction::StartSession { node_id: b"N1".to_vec() },
        Instruction::EndSession { node_id: Vec::new() },
    ]
}

#[test]
fn encode_then_decode_reproduces_every_variant() {
    for instruction in sample_instructions() {
        let encoded = encode(&instruction);
        assert_eq!(decode(&encoded), Ok(instruction));
    }
}

#[test]
fn encode_writes_the_documented_wire_format() {
    let encoded = encode(&Instruction::DispatchTask {
        task_id: b"T1".to_vec(),
        node_id: b"N1".to_vec(),
    });
    assert_eq!(encoded, vec![2u8, 0, 0, 0, 2, b'T', b'1', 2, b'N', b'1']);
}

#[test]
fn every_strict_truncation_fails_as_truncated() {
    for instruction in sample_instructions() {
        let encoded = encode(&instruction);
        for cut in 0..encoded.len() {
            assert_eq!(
                decode(&encoded[..cut]),
                Err(DecodeError::TruncatedBuffer),
                "cut at {cut} of {encoded:?}"
            );
        }
    }
}

#[test]
fn dispatch_routes_each_variant_to_its_effect() {
    assert_eq!(
        dispatch(Instruction::RemoveNode { node_id: b"N1".to_vec() }),
        Effect::NodeRemoved { node_id: b"N1".to_vec() }
    );
    assert_eq!(
        dispatch(Instruction::RegisterNode {
            node_id: b"N1".to_vec(),
            ip_address: b"10.0.0.1".to_vec(),
            hardware_id: b"hw".to_vec(),
        }),
        Effect::NodeRegistered {
            node_id: b"N1".to_vec(),
            ip_address: b"10.0.0.1".to_vec(),
            hardware_id: b"hw".to_vec(),
        }
    );
    assert_eq!(
        dispatch(Instruction::DispatchTask { task_id: b"T1".to_vec(), node_id: b"N1".to_vec() }),
        Effect::TaskDispatched { task_id: b"T1".to_vec(), node_id: b"N1".to_vec() }
    );
    assert_eq!(
        dispatch(Instruction::ReturnAnswer { task_id: b"T1".to_vec(), answer: b"ok".to_vec() }),
        Effect::AnswerRecorded { task_id: b"T1".to_vec(), answer: b"ok".to_vec() }
    );
    assert_eq!(
        dispatch(Instruction::StartSession { node_id: b"N1".to_vec() }),
        Effect::SessionStarted { node_id: b"N1".to_vec() }
    );
    assert_eq!(
        dispatch(Instruction::EndSession { node_id: b"N1".to_vec() }),
        Effect::SessionEnded { node_id: b"N1".to_vec() }
    );
}

#[test]
fn process_decodes_then_dispatches() {
    let data = vec![1u8, 0, 0, 0, 2, b'N', b'1'];
    assert_eq!(
        process(&data),
        Ok(Effect::NodeRemoved { node_id: b"N1".to_vec() })
    );
}

#[test]
fn process_reports_decode_errors_without_an_effect() {
    assert_eq!(process(&[]), Err(DecodeError::TruncatedBuffer));
    assert_eq!(process(&[9u8, 0, 0, 0]), Err(DecodeError::InvalidOpcode));
    assert_eq!(process(&[4u8, 0, 0, 0, 1, 0xFF]), Err(DecodeError::InvalidEncoding));
}
