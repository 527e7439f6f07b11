//! The initiator's side of a double-sided two-way ranging exchange.
//!
//! The initiator sends a poll, listens for the responder's response, and
//! then sends a final frame at a delayed time that it fixes in advance, so
//! the frame can carry its own transmit time.  The radio work is done by the
//! caller; [`InitiatorState::step`] decides what comes next.
use vstd::prelude::*;
use super::math::{
    delayed_tx_time, predicted_tx_time, spec_delayed_tx_time, spec_predicted_tx_time,
    REPLY_DELAY_DTU, DTU_MODULUS,
};
use super::message::{DecodedMessage, MessageType, spec_decode, spec_encode};

verus! {

/// Where an initiator exchange stands.
#[derive(Clone, Copy, Debug, PartialEq, Eq, Structural)]
pub enum InitiatorState {
    /// The poll is on air; its transmit time is awaited.
    SendingPoll { msg_id: u8 },
    /// Listening for the response to the poll sent at `poll_tx_time`.
    AwaitingResponse { msg_id: u8, poll_tx_time: u64 },
    /// The final is scheduled; its transmit time is awaited.
    SendingFinal { predicted_tx_time: u64 },
    /// The exchange is over.
    Finished,
}

/// What the radio reported.
#[derive(Clone, Copy, Debug)]
pub enum InitiatorEvent<'a> {
    /// A frame went out at `tx_time`.
    Transmitted { tx_time: u64 },
    /// A frame (without its checksum) came in at `rx_time`.
    Received { frame: &'a [u8], rx_time: u64 },
    /// Receiving failed or timed out.
    ReceiveFailed,
}

/// What the radio does next.
#[derive(Clone, Copy, Debug, PartialEq, Eq)]
pub enum InitiatorAction {
    /// Receive the response.
    Listen,
    /// Send the final frame at the device time `at`.
    SendFinal { at: u64, frame: [u8; 27] },
    /// Cancel the receive in flight and end the exchange.
    AbortReceive,
    /// The response did not answer this poll; end the exchange.
    ResponseMismatch,
    /// End the exchange; `on_time` tells whether the final went out when predicted.
    Done { on_time: bool },
}

/// The final frame's schedule: sent at `at`, it leaves the antenna at
/// `predicted_tx_time`, which the frame itself carries.
#[derive(Clone, Copy, Debug, PartialEq, Eq)]
pub struct FinalPlan {
    pub at: u64,
    pub predicted_tx_time: u64,
    pub frame: [u8; 27],
}

/// The message id after `previous`, wrapping.
pub open spec fn spec_next_msg_id(previous: u8) -> u8 {
    if previous == u8::MAX {
        0
    } else {
        (previous + 1) as u8
    }
}

/// Whether a frame is the response to the poll `msg_id`.
pub open spec fn spec_response_matches(frame: Seq<u8>, msg_id: u8) -> bool {
    spec_decode(frame) == Some(DecodedMessage::Response { msg_id })
}

/// The programmed transmit time of the final: a reply delay after the response.
pub open spec fn spec_final_at(response_rx_time: u64) -> u64 {
    spec_delayed_tx_time(response_rx_time as int, REPLY_DELAY_DTU as int) as u64
}

/// The predicted antenna time of the final.
pub open spec fn spec_final_predicted(response_rx_time: u64, tx_antenna_delay: u16) -> u64 {
    spec_predicted_tx_time(spec_final_at(response_rx_time) as int, tx_antenna_delay as int) as u64
}

/// The final frame: the message id and the poll, response and predicted final times.
pub open spec fn spec_final_frame(
    msg_id: u8,
    poll_tx_time: u64,
    response_rx_time: u64,
    tx_antenna_delay: u16,
) -> Seq<u8> {
    spec_encode(
        DecodedMessage::Final {
            msg_id,
            time_tx_poll: poll_tx_time,
            time_rx_response: response_rx_time,
            time_tx_final: spec_final_predicted(response_rx_time, tx_antenna_delay),
        },
    )
}

/// The state an initiator exchange moves to on an event.
pub open spec fn spec_initiator_next(
    state: InitiatorState,
    event: InitiatorEvent,
    tx_antenna_delay: u16,
) -> InitiatorState {
    match (state, event) {
        (InitiatorState::SendingPoll { msg_id }, InitiatorEvent::Transmitted { tx_time }) => {
            InitiatorState::AwaitingResponse { msg_id, poll_tx_time: tx_time }
        },
        (InitiatorState::AwaitingResponse { msg_id, .. }, InitiatorEvent::Received { frame, rx_time }) => {
            if spec_response_matches(frame@, msg_id) {
                InitiatorState::SendingFinal {
                    predicted_tx_time: spec_final_predicted(rx_time, tx_antenna_delay),
                }
            } else {
                InitiatorState::Finished
            }
        },
        (_, _) => InitiatorState::Finished,
    }
}

/// Whether `action` is what an initiator exchange does on an event: listen
/// after the poll; after the matching response send the final frame at its
/// scheduled time; give up on a mismatched response or a failed receive; and
/// after the final, report whether it left when predicted.
pub open spec fn spec_initiator_action(
    state: InitiatorState,
    event: InitiatorEvent,
    tx_antenna_delay: u16,
    action: InitiatorAction,
) -> bool {
    match (state, event) {
        (InitiatorState::SendingPoll { .. }, InitiatorEvent::Transmitted { .. }) => action
            == InitiatorAction::Listen,
        (
            InitiatorState::AwaitingResponse { msg_id, poll_tx_time },
            InitiatorEvent::Received { frame, rx_time },
        ) => if spec_response_matches(frame@, msg_id) {
            &&& action is SendFinal
            &&& action->at == spec_final_at(rx_time)
            &&& action->frame@ == spec_final_frame(msg_id, poll_tx_time, rx_time, tx_antenna_delay)
        } else {
            action == InitiatorAction::ResponseMismatch
        },
        (InitiatorState::AwaitingResponse { .. }, InitiatorEvent::ReceiveFailed) => action
            == InitiatorAction::AbortReceive,
        (
            InitiatorState::SendingFinal { predicted_tx_time },
            InitiatorEvent::Transmitted { tx_time },
        ) => action == (InitiatorAction::Done { on_time: tx_time == predicted_tx_time }),
        (_, _) => action == (InitiatorAction::Done { on_time: false }),
    }
}

/// The message id that follows `previous`, wrapping after 255.
pub fn next_msg_id(previous: u8) -> (r: u8)
    ensures
        r == spec_next_msg_id(previous),
{
    previous.wrapping_add(1)
}

/// Whether a received frame is the response to the poll `msg_id`.
pub fn response_matches(frame: &[u8], msg_id: u8) -> (r: bool)
    ensures
        r == spec_response_matches(frame@, msg_id),
{
    match MessageType::decode(frame) {
        Some(DecodedMessage::Response { msg_id: rsp_id }) => rsp_id == msg_id,
        _ => false,
    }
}

/// Schedule the final frame after a response received at `response_rx_time`.
pub fn plan_final(msg_id: u8, poll_tx_time: u64, response_rx_time: u64, tx_antenna_delay: u16) -> (r: FinalPlan)
    ensures
        r.at == spec_final_at(response_rx_time),
        r.predicted_tx_time == spec_final_predicted(response_rx_time, tx_antenna_delay),
        r.frame@ == spec_final_frame(msg_id, poll_tx_time, response_rx_time, tx_antenna_delay),
        r.at < DTU_MODULUS,
        r.at % 512 == 0,
{
    let at = delayed_tx_time(response_rx_time, REPLY_DELAY_DTU);
    let predicted = predicted_tx_time(at, tx_antenna_delay as u64);
    let frame = MessageType::encode_final(msg_id, poll_tx_time, response_rx_time, predicted);
    FinalPlan { at, predicted_tx_time: predicted, frame }
}

impl InitiatorState {
    /// Begin the exchange numbered `msg_id`: its state and the poll frame to
    /// send at once.
    pub fn start(msg_id: u8) -> (r: (InitiatorState, [u8; 3]))
        ensures
            r.0 == (InitiatorState::SendingPoll { msg_id }),
            r.1@ == spec_encode(DecodedMessage::Poll { msg_id }),
    {
        (InitiatorState::SendingPoll { msg_id }, MessageType::encode_poll(msg_id))
    }

    /// Take one radio event and decide the next state and action.
    pub fn step(self, event: InitiatorEvent, tx_antenna_delay: u16) -> (r: (InitiatorState, InitiatorAction))
        ensures
            r.0 == spec_initiator_next(self, event, tx_antenna_delay),
            spec_initiator_action(self, event, tx_antenna_delay, r.1),
            r.1 matches InitiatorAction::SendFinal { at, .. } ==> at < DTU_MODULUS && at % 512 == 0,
    {
        match (self, event) {
            (InitiatorState::SendingPoll { msg_id }, InitiatorEvent::Transmitted { tx_time }) => (
                InitiatorState::AwaitingResponse { msg_id, poll_tx_time: tx_time },
                InitiatorAction::Listen,
            ),
            (
                InitiatorState::AwaitingResponse { msg_id, poll_tx_time },
                InitiatorEvent::Received { frame, rx_time },
            ) => {
                if response_matches(frame, msg_id) {
                    let plan = plan_final(msg_id, poll_tx_time, rx_time, tx_antenna_delay);
                    (
                        InitiatorState::SendingFinal { predicted_tx_time: plan.predicted_tx_time },
                        InitiatorAction::SendFinal { at: plan.at, frame: plan.frame },
                    )
                } else {
                    (InitiatorState::Finished, InitiatorAction::ResponseMismatch)
                }
            },
            (InitiatorState::AwaitingResponse { .. }, InitiatorEvent::ReceiveFailed) => (
                InitiatorState::Finished,
                InitiatorAction::AbortReceive,
            ),
            (
                InitiatorState::SendingFinal { predicted_tx_time },
                InitiatorEvent::Transmitted { tx_time },
            ) => (
                InitiatorState::Finished,
                InitiatorAction::Done { on_time: tx_time == predicted_tx_time },
            ),
            (_, _) => (InitiatorState::Finished, InitiatorAction::Done { on_time: false }),
        }
    }
}

} // verus!
