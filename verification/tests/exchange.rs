use qorvo_blinky::ultrawideband::ranging::initiator::{
    next_msg_id, plan_final, response_matches, InitiatorAction, InitiatorEvent, InitiatorState,
};
use qorvo_blinky::ultrawideband::ranging::math::{
    delayed_tx_time, distance_mm, predicted_tx_time, DTU_MODULUS, REPLY_DELAY_DTU,
};
use qorvo_blinky::ema::Ema;
use qorvo_blinky::ultrawideband::ranging::message::{DecodedMessage, MessageType};
use qorvo_blinky::ultrawideband::ranging::responder::{
    poll_id, range_mm, ResponderAction, ResponderEvent, ResponderState,
};

const TX_ANTENNA_DELAY: u16 = 16385;

/// One complete exchange with a flight time of `flight` ticks; the two
/// device clocks are `offset` ticks apart.
fn run_exchange(previous_msg_id: u8, poll_tx: u64, offset: u64, flight: u64) -> (u8, i64) {
    let wrap = |t: u64| t % DTU_MODULUS;
    let msg_id = next_msg_id(previous_msg_id);
    let (initiator, poll) = InitiatorState::start(msg_id);
    assert_eq!(initiator, InitiatorState::SendingPoll { msg_id });
    assert_eq!(poll, MessageType::encode_poll(msg_id));
    let (initiator, action) = initiator.step(InitiatorEvent::Transmitted { tx_time: poll_tx }, TX_ANTENNA_DELAY);
    assert_eq!(action, InitiatorAction::Listen);

    let poll_rx = wrap(poll_tx + offset + flight);
    assert_eq!(poll_id(&poll), Some(msg_id));
    let (responder, response_at, response) = ResponderState::start(msg_id, poll_rx);
    assert_eq!(response_at, delayed_tx_time(poll_rx, REPLY_DELAY_DTU));
    let response_tx = response_at;
    let (responder, action) = responder.step(ResponderEvent::Transmitted { tx_time: response_tx });
    assert_eq!(action, ResponderAction::Listen);

    let response_rx = wrap(response_tx + DTU_MODULUS - offset + flight);
    let (initiator, action) = initiator.step(
        InitiatorEvent::Received { frame: &response, rx_time: response_rx },
        TX_ANTENNA_DELAY,
    );
    let InitiatorAction::SendFinal { at, frame } = action else {
        panic!("no final scheduled: {action:?}");
    };
    let final_tx = predicted_tx_time(at, u64::from(TX_ANTENNA_DELAY));
    assert_eq!(initiator, InitiatorState::SendingFinal { predicted_tx_time: final_tx });
    let (initiator, action) = initiator.step(InitiatorEvent::Transmitted { tx_time: final_tx }, TX_ANTENNA_DELAY);
    assert_eq!(initiator, InitiatorState::Finished);
    assert_eq!(action, InitiatorAction::Done { on_time: true });

    let final_rx = wrap(final_tx + offset + flight);
    let (responder, action) = responder.step(ResponderEvent::Received { frame: &frame, rx_time: final_rx });
    assert_eq!(responder, ResponderState::Finished);
    match action {
        ResponderAction::Ranged { msg_id: ranged, distance_mm } => (ranged, distance_mm),
        other => panic!("no range: {other:?}"),
    }
}

#[test]
fn exchange_measures_flight_distance() {
    let (msg_id, distance) = run_exchange(0, 1_000_000, 123_456_789, 1000);
    assert_eq!(msg_id, 1);
    assert_eq!(distance, distance_mm(1000));
    assert_eq!(distance, 4691);
}

#[test]
fn exchange_across_counter_wrap() {
    let (msg_id, distance) = run_exchange(255, DTU_MODULUS - 50_000, DTU_MODULUS - 7, 213);
    assert_eq!(msg_id, 0);
    assert_eq!(distance, distance_mm(213));
}

#[test]
fn message_ids_wrap() {
    assert_eq!(next_msg_id(0), 1);
    assert_eq!(next_msg_id(254), 255);
    assert_eq!(next_msg_id(255), 0);
}

#[test]
fn response_matching() {
    assert!(response_matches(&MessageType::encode_response(5), 5));
    assert!(!response_matches(&MessageType::encode_response(6), 5));
    assert!(!response_matches(&MessageType::encode_poll(5), 5));
    assert!(!response_matches(&[0xA7, 2, 5, 0], 5));
}

#[test]
fn mismatched_response_ends_exchange() {
    let state = InitiatorState::AwaitingResponse { msg_id: 3, poll_tx_time: 10 };
    let wrong = MessageType::encode_response(4);
    let (state, action) = state.step(InitiatorEvent::Received { frame: &wrong, rx_time: 99 }, TX_ANTENNA_DELAY);
    assert_eq!(state, InitiatorState::Finished);
    assert_eq!(action, InitiatorAction::ResponseMismatch);
}

#[test]
fn failed_receive_aborts() {
    let state = InitiatorState::AwaitingResponse { msg_id: 3, poll_tx_time: 10 };
    assert_eq!(
        state.step(InitiatorEvent::ReceiveFailed, TX_ANTENNA_DELAY),
        (InitiatorState::Finished, InitiatorAction::AbortReceive)
    );
    let state = ResponderState::AwaitingFinal { msg_id: 3, poll_rx_time: 10, response_tx_time: 20 };
    assert_eq!(
        state.step(ResponderEvent::ReceiveFailed),
        (ResponderState::Finished, ResponderAction::AbortReceive)
    );
}

#[test]
fn late_final_is_reported() {
    let state = InitiatorState::SendingFinal { predicted_tx_time: 5000 };
    assert_eq!(
        state.step(InitiatorEvent::Transmitted { tx_time: 5001 }, TX_ANTENNA_DELAY),
        (InitiatorState::Finished, InitiatorAction::Done { on_time: false })
    );
}

#[test]
fn final_plan_schedules_after_reply_delay() {
    let plan = plan_final(8, 100, 2_000_000, TX_ANTENNA_DELAY);
    assert_eq!(plan.at, delayed_tx_time(2_000_000, REPLY_DELAY_DTU));
    assert_eq!(plan.at % 512, 0);
    assert_eq!(plan.predicted_tx_time, plan.at + u64::from(TX_ANTENNA_DELAY));
    assert_eq!(
        MessageType::decode(&plan.frame),
        Some(DecodedMessage::Final {
            msg_id: 8,
            time_tx_poll: 100,
            time_rx_response: 2_000_000,
            time_tx_final: plan.predicted_tx_time,
        })
    );
}

#[test]
fn responder_reports_sequence_mismatch() {
    let state = ResponderState::AwaitingFinal { msg_id: 3, poll_rx_time: 10, response_tx_time: 20 };
    let frame = MessageType::encode_final(4, 1, 2, 3);
    let (_, action) = state.step(ResponderEvent::Received { frame: &frame, rx_time: 30 });
    assert_eq!(action, ResponderAction::SeqMismatch { got: 4, want: 3 });
}

#[test]
fn responder_reports_undecodable_final() {
    let state = ResponderState::AwaitingFinal { msg_id: 3, poll_rx_time: 10, response_tx_time: 20 };
    let frame = MessageType::encode_response(3);
    let (_, action) = state.step(ResponderEvent::Received { frame: &frame, rx_time: 30 });
    assert_eq!(action, ResponderAction::DecodeFailed);
}

#[test]
fn poll_detection() {
    assert_eq!(poll_id(&MessageType::encode_poll(77)), Some(77));
    assert_eq!(poll_id(&MessageType::encode_response(77)), None);
    assert_eq!(poll_id(&[1, 2, 3]), None);
}

#[test]
fn range_from_timestamps() {
    // Flight of 1000 ticks, replies of 5000 and 7000 ticks.
    let (poll_tx, poll_rx) = (10, 500);
    let response_tx = poll_rx + 5000;
    let response_rx = poll_tx + 2000 + 5000;
    let final_tx = response_rx + 7000;
    let final_rx = response_tx + 2000 + 7000;
    assert_eq!(range_mm(poll_tx, response_rx, final_tx, poll_rx, response_tx, final_rx), 4691);
}

#[test]
fn unexpected_events_end_exchange() {
    let state = ResponderState::Finished;
    assert_eq!(
        state.step(ResponderEvent::Transmitted { tx_time: 1 }),
        (ResponderState::Finished, ResponderAction::Done)
    );
    let state = ResponderState::SendingResponse { msg_id: 1, poll_rx_time: 2 };
    assert_eq!(state.step(ResponderEvent::ReceiveFailed), (ResponderState::Finished, ResponderAction::Done));
    let state = InitiatorState::SendingPoll { msg_id: 1 };
    assert_eq!(
        state.step(InitiatorEvent::ReceiveFailed, TX_ANTENNA_DELAY),
        (InitiatorState::Finished, InitiatorAction::Done { on_time: false })
    );
}

#[test]
fn response_time_is_on_a_512_tick_boundary() {
    for poll_rx in [0, 1, 777, DTU_MODULUS - 1] {
        let (state, at, frame) = ResponderState::start(9, poll_rx);
        assert_eq!(state, ResponderState::SendingResponse { msg_id: 9, poll_rx_time: poll_rx });
        assert!(at < DTU_MODULUS);
        assert_eq!(at % 512, 0);
        assert_eq!(frame, MessageType::encode_response(9));
    }
}

#[test]
fn ranges_feed_the_average() {
    let mut ema = Ema::default();
    let frame = MessageType::encode_final(3, 10, 7010, 14010);
    // Flight of 1000 ticks, replies of 5000 and 7000 ticks.
    let state = ResponderState::AwaitingFinal { msg_id: 3, poll_rx_time: 500, response_tx_time: 5500 };
    let (next, action, average) =
        state.step_and_average(ResponderEvent::Received { frame: &frame, rx_time: 14500 }, &mut ema);
    assert_eq!(next, ResponderState::Finished);
    assert_eq!(action, ResponderAction::Ranged { msg_id: 3, distance_mm: 4691 });
    assert_eq!(average, Some(4691));
    assert!(ema.is_bounded());

    let wrong = MessageType::encode_final(4, 10, 7010, 14010);
    let (_, action, average) =
        state.step_and_average(ResponderEvent::Received { frame: &wrong, rx_time: 14500 }, &mut ema);
    assert_eq!(action, ResponderAction::SeqMismatch { got: 4, want: 3 });
    assert_eq!(average, None);
    // An unchanged average: the same range again keeps it.
    let (_, _, average) =
        state.step_and_average(ResponderEvent::Received { frame: &frame, rx_time: 14500 }, &mut ema);
    assert_eq!(average, Some(4691));
}

#[test]
fn extreme_timestamps_give_bounded_ranges() {
    let bound = 1_i64 << 43;
    for times in [
        [0, DTU_MODULUS - 1, 0, 0, 0, DTU_MODULUS - 1],
        [u64::MAX, 0, u64::MAX, 0, u64::MAX, 0],
        [0, 1, 0, DTU_MODULUS - 1, 0, 1],
        [12, u64::MAX - 5, 7, 99, 1 << 39, 3],
    ] {
        let d = range_mm(times[0], times[1], times[2], times[3], times[4], times[5]);
        assert!(-bound < d && d < bound);
    }
}

#[test]
fn large_average_still_ranges() {
    // An average already at 2^62 (one sample of 2^59) accepts a range.
    let mut ema = Ema::default();
    ema.sample(1 << 59);
    assert!(!ema.is_bounded());
    let before = ema.clone();
    let state = ResponderState::AwaitingFinal { msg_id: 3, poll_rx_time: 500, response_tx_time: 5500 };
    let wrong = MessageType::encode_final(4, 10, 7010, 14010);
    let (_, action, average) =
        state.step_and_average(ResponderEvent::Received { frame: &wrong, rx_time: 14500 }, &mut ema);
    assert_eq!(action, ResponderAction::SeqMismatch { got: 4, want: 3 });
    assert_eq!(average, None);
    assert_eq!(ema.clone().sample(0), before.clone().sample(0));

    let frame = MessageType::encode_final(3, 10, 7010, 14010);
    assert!(ema.can_sample(4691));
    let (_, action, average) =
        state.step_and_average(ResponderEvent::Received { frame: &frame, rx_time: 14500 }, &mut ema);
    assert_eq!(action, ResponderAction::Ranged { msg_id: 3, distance_mm: 4691 });
    let expected = ((1_i64 << 62) + 4691 - (1 << 59)) >> 3;
    assert_eq!(average, Some(expected));
}
