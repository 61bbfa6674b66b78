use job_escrow::codec::{decode_instruction, LifecycleCommand};
use job_escrow::error::JobError;

fn post_payload(amount: u64, a: u8, b: u8, c: u8) -> Vec<u8> {
    let mut data = vec![1u8];
    data.extend_from_slice(&amount.to_le_bytes());
    data.extend_from_slice(&[a; 8]);
    data.extend_from_slice(&[b; 8]);
    data.extend_from_slice(&[c; 8]);
    data
}

#[test]
fn decode_post_reads_amount_and_proof() {
    let data = post_payload(1000, 7, 8, 9);
    match decode_instruction(&data) {
        Ok(LifecycleCommand::Post {
            total_payment,
            zk_proof,
        }) => {
            assert_eq!(total_payment, 1000);
            let p = zk_proof.expect("post carries a proof");
            assert_eq!(p.a, vec![7; 8]);
            assert_eq!(p.b, vec![8; 8]);
            assert_eq!(p.c, vec![9; 8]);
        }
        other => panic!("unexpected decode result: {:?}", other),
    }
}

#[test]
fn decode_post_amount_little_endian() {
    let data = post_payload(0x0102_0304_0506_0708, 0, 0, 0);
    assert_eq!(data[1], 0x08);
    assert_eq!(data[8], 0x01);
    match decode_instruction(&data) {
        Ok(LifecycleCommand::Post { total_payment, .. }) => {
            assert_eq!(total_payment, 0x0102_0304_0506_0708);
        }
        other => panic!("unexpected decode result: {:?}", other),
    }
}

#[test]
fn decode_short_post_out_of_range() {
    let data = vec![1u8; 32];
    assert!(matches!(
        decode_instruction(&data),
        Err(JobError::OutOfRange)
    ));
}

#[test]
fn decode_empty_and_unknown_action() {
    assert!(matches!(
        decode_instruction(&Vec::new()),
        Err(JobError::OutOfRange)
    ));
    assert!(matches!(
        decode_instruction(&vec![42u8, 0, 0]),
        Err(JobError::OutOfRange)
    ));
}

#[test]
fn decode_accept_from_both_matching_actions() {
    assert!(matches!(
        decode_instruction(&vec![2u8]),
        Ok(LifecycleCommand::Accept)
    ));
    assert!(matches!(
        decode_instruction(&vec![3u8]),
        Ok(LifecycleCommand::Accept)
    ));
}

#[test]
fn decode_complete_milestone_index() {
    let mut data = vec![4u8];
    data.extend_from_slice(&[0u8; 8]);
    data.push(3);
    match decode_instruction(&data) {
        Ok(LifecycleCommand::CompleteMilestone { index }) => assert_eq!(index, 3),
        other => panic!("unexpected decode result: {:?}", other),
    }
}

#[test]
fn decode_confirm_dispute_cancel() {
    let mut data = vec![5u8];
    data.extend_from_slice(&777u64.to_le_bytes());
    match decode_instruction(&data) {
        Ok(LifecycleCommand::ConfirmCompletion { total_payment }) => {
            assert_eq!(total_payment, 777)
        }
        other => panic!("unexpected decode result: {:?}", other),
    }
    assert!(matches!(
        decode_instruction(&vec![6u8]),
        Ok(LifecycleCommand::Dispute)
    ));
    assert!(matches!(
        decode_instruction(&vec![7u8]),
        Ok(LifecycleCommand::Cancel)
    ));
}

#[test]
fn decode_update_progress_text() {
    let mut data = vec![8u8];
    data.extend_from_slice(&[0u8; 8]);
    data.push(1);
    data.extend_from_slice(b"halfway");
    match decode_instruction(&data) {
        Ok(LifecycleCommand::UpdateMilestoneProgress { index, progress }) => {
            assert_eq!(index, 1);
            assert_eq!(progress, "halfway");
        }
        other => panic!("unexpected decode result: {:?}", other),
    }
}

#[test]
fn decode_rate_with_feedback() {
    let mut data = vec![9u8];
    data.extend_from_slice(&[0u8; 9]);
    data.push(4);
    data.push(2);
    data.extend_from_slice(b"oktrailing ignored");
    match decode_instruction(&data) {
        Ok(LifecycleCommand::Rate { rating, feedback }) => {
            assert_eq!(rating, 4);
            assert_eq!(feedback, "ok");
        }
        other => panic!("unexpected decode result: {:?}", other),
    }
}

#[test]
fn decode_rate_truncated_feedback_out_of_range() {
    let mut data = vec![9u8];
    data.extend_from_slice(&[0u8; 9]);
    data.push(4);
    data.push(10);
    data.extend_from_slice(b"short");
    assert!(matches!(
        decode_instruction(&data),
        Err(JobError::OutOfRange)
    ));
}

#[test]
fn decode_invalid_utf8_feedback_is_empty() {
    let mut data = vec![9u8];
    data.extend_from_slice(&[0u8; 9]);
    data.push(5);
    data.push(2);
    data.push(0xff);
    data.push(0xfe);
    match decode_instruction(&data) {
        Ok(LifecycleCommand::Rate { rating, feedback }) => {
            assert_eq!(rating, 5);
            assert_eq!(feedback, "");
        }
        other => panic!("unexpected decode result: {:?}", other),
    }
}
