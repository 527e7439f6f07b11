use qorvo_blinky::ultrawideband::ranging::message::{
    DecodedMessage, MessageType, MSG_LENGTH_FINAL, SENTINEL,
};

#[test]
fn poll_and_response_frames() {
    assert_eq!(MessageType::encode_poll(7), [0xA7, 1, 7]);
    assert_eq!(MessageType::encode_response(200), [0xA7, 2, 200]);
    assert_eq!(MessageType::decode(&[0xA7, 1, 7]), Some(DecodedMessage::Poll { msg_id: 7 }));
    assert_eq!(
        MessageType::decode(&[0xA7, 2, 200]),
        Some(DecodedMessage::Response { msg_id: 200 })
    );
}

#[test]
fn final_frame_layout() {
    let frame = MessageType::encode_final(9, 0x0102_0304_0506_0708, 0xFF, u64::MAX);
    assert_eq!(frame.len(), MSG_LENGTH_FINAL);
    assert_eq!(&frame[..3], &[SENTINEL, 3, 9]);
    assert_eq!(&frame[3..11], &[8, 7, 6, 5, 4, 3, 2, 1]);
    assert_eq!(&frame[11..19], &[0xFF, 0, 0, 0, 0, 0, 0, 0]);
    assert_eq!(&frame[19..27], &[0xFF; 8]);
}

#[test]
fn final_frame_round_trip() {
    let frame = MessageType::encode_final(42, 1_099_511_627_775, 12_345, 0x00AB_CDEF_0123);
    assert_eq!(
        MessageType::decode(&frame),
        Some(DecodedMessage::Final {
            msg_id: 42,
            time_tx_poll: 1_099_511_627_775,
            time_rx_response: 12_345,
            time_tx_final: 0x00AB_CDEF_0123,
        })
    );
}

#[test]
fn decoded_frames_reencode_to_themselves() {
    let mut frame = [0u8; 27];
    frame[0] = SENTINEL;
    frame[1] = 3;
    for (i, byte) in frame.iter_mut().enumerate().skip(2) {
        *byte = (i as u8).wrapping_mul(37);
    }
    let Some(DecodedMessage::Final { msg_id, time_tx_poll, time_rx_response, time_tx_final }) =
        MessageType::decode(&frame)
    else {
        panic!("final frame did not decode");
    };
    assert_eq!(
        MessageType::encode_final(msg_id, time_tx_poll, time_rx_response, time_tx_final),
        frame
    );
}

#[test]
fn rejects_bad_sentinel() {
    assert_eq!(MessageType::decode(&[0xA6, 1, 7]), None);
}

#[test]
fn rejects_short_frames() {
    assert_eq!(MessageType::decode(&[]), None);
    assert_eq!(MessageType::decode(&[0xA7]), None);
    assert_eq!(MessageType::decode(&[0xA7, 1]), None);
}

#[test]
fn rejects_unknown_type() {
    assert_eq!(MessageType::decode(&[0xA7, 0, 7]), None);
    assert_eq!(MessageType::decode(&[0xA7, 4, 7]), None);
}

#[test]
fn rejects_wrong_lengths() {
    assert_eq!(MessageType::decode(&[0xA7, 1, 7, 0]), None);
    assert_eq!(MessageType::decode(&[0xA7, 2, 7, 0]), None);
    assert_eq!(MessageType::decode(&[0xA7, 3, 7]), None);
    let mut poll_sized_final = [0u8; 27];
    poll_sized_final[0] = SENTINEL;
    poll_sized_final[1] = 1;
    assert_eq!(MessageType::decode(&poll_sized_final), None);
    let long_final = [SENTINEL; 28];
    assert_eq!(MessageType::decode(&long_final), None);
}

#[test]
fn message_type_codes() {
    assert_eq!(MessageType::Poll.code(), 1);
    assert_eq!(MessageType::Response.code(), 2);
    assert_eq!(MessageType::Final.code(), 3);
    assert_eq!(MessageType::try_from(1), Ok(MessageType::Poll));
    assert_eq!(MessageType::try_from(2), Ok(MessageType::Response));
    assert_eq!(MessageType::try_from(3), Ok(MessageType::Final));
    assert_eq!(MessageType::try_from(0), Err("Invalid message type"));
    assert_eq!(MessageType::try_from(255), Err("Invalid message type"));
}
