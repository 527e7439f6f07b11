//! The responder's side of a double-sided two-way ranging exchange.
//!
//! The responder answers a poll with a response sent a reply delay after the
//! poll arrived, then receives the initiator's final frame.  With the three
//! timestamps the final carries and its own three, it holds all six times of
//! the exchange and computes the range.
use vstd::prelude::*;
use super::math::{
    delayed_tx_time, distance_mm, dtu_elapsed, time_of_flight_dtu, spec_delayed_tx_time,
    spec_distance_mm, spec_dtu_elapsed, spec_time_of_flight_dtu, lemma_dtu_durations_fit,
    spec_predicted_tx_time, is_dtu, lemma_elapsed_after_predicted,
    lemma_ideal_exchange_recovers_time_of_flight, REPLY_DELAY_DTU, DTU_MODULUS,
};
use super::message::{DecodedMessage, MessageType, spec_decode, spec_encode, lemma_decode_encode};
use super::initiator::{spec_final_frame, spec_final_predicted};
use super::math::{range_bound, lemma_time_of_flight_bounded, lemma_distance_bounded, lemma_time_of_flight_formula};
use crate::ema::{Ema, ema_bounded, ema_next, small_sample, lemma_bounded_step};

verus! {

/// Where a responder exchange stands.
#[derive(Clone, Copy, Debug, PartialEq, Eq, Structural)]
pub enum ResponderState {
    /// The response is scheduled; its transmit time is awaited.
    SendingResponse { msg_id: u8, poll_rx_time: u64 },
    /// Listening for the final frame.
    AwaitingFinal { msg_id: u8, poll_rx_time: u64, response_tx_time: u64 },
    /// The exchange is over.
    Finished,
}

/// What the radio reported.
#[derive(Clone, Copy, Debug)]
pub enum ResponderEvent<'a> {
    /// A frame went out at `tx_time`.
    Transmitted { tx_time: u64 },
    /// A frame (without its checksum) came in at `rx_time`.
    Received { frame: &'a [u8], rx_time: u64 },
    /// Receiving failed or timed out.
    ReceiveFailed,
}

/// What the responder does next.
#[derive(Clone, Copy, Debug, PartialEq, Eq, Structural)]
pub enum ResponderAction {
    /// Receive the final frame.
    Listen,
    /// Cancel the receive in flight and end the exchange.
    AbortReceive,
    /// The exchange ranged message `msg_id` at `distance_mm` millimeters.
    Ranged { msg_id: u8, distance_mm: i64 },
    /// The final frame answered another poll.
    SeqMismatch { got: u8, want: u8 },
    /// The received frame was no final frame.
    DecodeFailed,
    /// End the exchange without a range.
    Done,
}

/// The distance, in millimeters, that the six timestamps of an exchange give:
/// the round and reply durations on both sides, measured on the wrapping
/// 40-bit counter, through the double-sided time of flight.
pub open spec fn spec_range_mm(
    poll_tx_time: u64,
    response_rx_time: u64,
    final_tx_time: u64,
    poll_rx_time: u64,
    response_tx_time: u64,
    final_rx_time: u64,
) -> int {
    let time_round1 = spec_dtu_elapsed(response_rx_time as int, poll_tx_time as int);
    let time_reply1 = spec_dtu_elapsed(response_tx_time as int, poll_rx_time as int);
    let time_round2 = spec_dtu_elapsed(final_rx_time as int, response_tx_time as int);
    let time_reply2 = spec_dtu_elapsed(final_tx_time as int, response_rx_time as int);
    spec_distance_mm(spec_time_of_flight_dtu(time_round1, time_reply1, time_round2, time_reply2))
}

/// The poll a frame carries, if it is a poll.
pub open spec fn spec_poll_id(frame: Seq<u8>) -> Option<u8> {
    match spec_decode(frame) {
        Some(DecodedMessage::Poll { msg_id }) => Some(msg_id),
        _ => None,
    }
}

/// The programmed transmit time of the response: a reply delay after the poll.
pub open spec fn spec_response_at(poll_rx_time: u64) -> u64 {
    spec_delayed_tx_time(poll_rx_time as int, REPLY_DELAY_DTU as int) as u64
}

/// What the final frame tells the responder that answered poll `msg_id`.
pub open spec fn spec_final_outcome(
    msg_id: u8,
    poll_rx_time: u64,
    response_tx_time: u64,
    frame: Seq<u8>,
    final_rx_time: u64,
) -> ResponderAction {
    match spec_decode(frame) {
        Some(DecodedMessage::Final { msg_id: final_id, time_tx_poll, time_rx_response, time_tx_final }) => {
            if final_id == msg_id {
                ResponderAction::Ranged {
                    msg_id: final_id,
                    distance_mm: spec_range_mm(
                        time_tx_poll,
                        time_rx_response,
                        time_tx_final,
                        poll_rx_time,
                        response_tx_time,
                        final_rx_time,
                    ) as i64,
                }
            } else {
                ResponderAction::SeqMismatch { got: final_id, want: msg_id }
            }
        },
        _ => ResponderAction::DecodeFailed,
    }
}

/// The transition table of a responder exchange.
pub open spec fn spec_responder_step(state: ResponderState, event: ResponderEvent) -> (
    ResponderState,
    ResponderAction,
) {
    match (state, event) {
        (
            ResponderState::SendingResponse { msg_id, poll_rx_time },
            ResponderEvent::Transmitted { tx_time },
        ) => (
            ResponderState::AwaitingFinal { msg_id, poll_rx_time, response_tx_time: tx_time },
            ResponderAction::Listen,
        ),
        (
            ResponderState::AwaitingFinal { msg_id, poll_rx_time, response_tx_time },
            ResponderEvent::Received { frame, rx_time },
        ) => (
            ResponderState::Finished,
            spec_final_outcome(msg_id, poll_rx_time, response_tx_time, frame@, rx_time),
        ),
        (ResponderState::AwaitingFinal { .. }, ResponderEvent::ReceiveFailed) => (
            ResponderState::Finished,
            ResponderAction::AbortReceive,
        ),
        (_, _) => (ResponderState::Finished, ResponderAction::Done),
    }
}

/// The distance, in millimeters, from the six timestamps of an exchange.
pub fn range_mm(
    poll_tx_time: u64,
    response_rx_time: u64,
    final_tx_time: u64,
    poll_rx_time: u64,
    response_tx_time: u64,
    final_rx_time: u64,
) -> (r: i64)
    ensures
        r == spec_range_mm(
            poll_tx_time,
            response_rx_time,
            final_tx_time,
            poll_rx_time,
            response_tx_time,
            final_rx_time,
        ),
{
    let time_round1 = dtu_elapsed(response_rx_time, poll_tx_time);
    let time_reply1 = dtu_elapsed(response_tx_time, poll_rx_time);
    let time_round2 = dtu_elapsed(final_rx_time, response_tx_time);
    let time_reply2 = dtu_elapsed(final_tx_time, response_rx_time);
    proof {
        lemma_dtu_durations_fit(time_round1 as int, time_round2 as int);
        lemma_dtu_durations_fit(time_reply1 as int, time_reply2 as int);
    }
    let time_of_flight = time_of_flight_dtu(time_round1, time_reply1, time_round2, time_reply2);
    distance_mm(time_of_flight)
}

/// The poll a received frame carries, if it is a poll.
pub fn poll_id(frame: &[u8]) -> (r: Option<u8>)
    ensures
        r == spec_poll_id(frame@),
{
    match MessageType::decode(frame) {
        Some(DecodedMessage::Poll { msg_id }) => Some(msg_id),
        _ => None,
    }
}

/// Every range lies within 2^43 millimeters of zero: the durations are
/// measured modulo 2^40, so the time of flight stays below 2^40 ticks.
pub proof fn lemma_range_bounded(
    poll_tx_time: u64,
    response_rx_time: u64,
    final_tx_time: u64,
    poll_rx_time: u64,
    response_tx_time: u64,
    final_rx_time: u64,
)
    ensures
        -range_bound() < spec_range_mm(
            poll_tx_time,
            response_rx_time,
            final_tx_time,
            poll_rx_time,
            response_tx_time,
            final_rx_time,
        ) < range_bound(),
{
    let time_round1 = spec_dtu_elapsed(response_rx_time as int, poll_tx_time as int);
    let time_reply1 = spec_dtu_elapsed(response_tx_time as int, poll_rx_time as int);
    let time_round2 = spec_dtu_elapsed(final_rx_time as int, response_tx_time as int);
    let time_reply2 = spec_dtu_elapsed(final_tx_time as int, response_rx_time as int);
    lemma_time_of_flight_bounded(time_round1, time_reply1, time_round2, time_reply2);
    lemma_distance_bounded(spec_time_of_flight_dtu(time_round1, time_reply1, time_round2, time_reply2));
}

impl ResponderState {
    /// Answer the poll `msg_id` received at `poll_rx_time`: the response is
    /// sent at the returned device time, a reply delay later.
    pub fn start(msg_id: u8, poll_rx_time: u64) -> (r: (ResponderState, u64, [u8; 3]))
        ensures
            r.0 == (ResponderState::SendingResponse { msg_id, poll_rx_time }),
            r.1 == spec_response_at(poll_rx_time),
            r.1 < DTU_MODULUS,
            r.1 % 512 == 0,
            r.2@ == spec_encode(DecodedMessage::Response { msg_id }),
    {
        let at = delayed_tx_time(poll_rx_time, REPLY_DELAY_DTU);
        (ResponderState::SendingResponse { msg_id, poll_rx_time }, at, MessageType::encode_response(msg_id))
    }

    /// Take one radio event, decide the next state and action, and add the
    /// distance of a completed range to the moving average; returns the
    /// updated average when it was sampled.  A completed range must fit in
    /// the average (`Ema::can_sample`); an average that never saw a sample of
    /// 2^59 or more always fits every range, and stays so.
    pub fn step_and_average(self, event: ResponderEvent, distance_ema: &mut Ema) -> (r: (
        ResponderState,
        ResponderAction,
        Option<i64>,
    ))
        requires
            spec_responder_step(self, event).1 matches ResponderAction::Ranged { distance_mm, .. }
                ==> old(distance_ema).accepts(distance_mm),
        ensures
            (r.0, r.1) == spec_responder_step(self, event),
            r.1 matches ResponderAction::Ranged { distance_mm, .. } ==> {
                &&& final(distance_ema).smoothed() == Some(
                    ema_next(old(distance_ema).smoothed(), distance_mm),
                )
                &&& r.2 == Some(ema_next(old(distance_ema).smoothed(), distance_mm) >> 3usize)
            },
            !(r.1 is Ranged) ==> *final(distance_ema) == *old(distance_ema) && r.2 == None::<i64>,
            ema_bounded(old(distance_ema).smoothed()) ==> ema_bounded(final(distance_ema).smoothed()),
    {
        let (state, action) = self.step(event);
        match action {
            ResponderAction::Ranged { distance_mm, .. } => {
                proof {
                    if let (
                        ResponderState::AwaitingFinal { poll_rx_time, response_tx_time, .. },
                        ResponderEvent::Received { frame, rx_time },
                    ) = (self, event) {
                        if let Some(DecodedMessage::Final { time_tx_poll, time_rx_response, time_tx_final, .. }) = spec_decode(frame@) {
                            lemma_range_bounded(
                                time_tx_poll,
                                time_rx_response,
                                time_tx_final,
                                poll_rx_time,
                                response_tx_time,
                                rx_time,
                            );
                        }
                    }
                    assert(small_sample(distance_mm));
                    if ema_bounded(distance_ema.smoothed()) {
                        lemma_bounded_step(distance_ema.smoothed(), distance_mm);
                    }
                }
                let average = distance_ema.sample(distance_mm);
                (state, action, Some(average))
            },
            _ => (state, action, None),
        }
    }

    /// Take one radio event and decide the next state and action.
    pub fn step(self, event: ResponderEvent) -> (r: (ResponderState, ResponderAction))
        ensures
            r == spec_responder_step(self, event),
    {
        match (self, event) {
            (
                ResponderState::SendingResponse { msg_id, poll_rx_time },
                ResponderEvent::Transmitted { tx_time },
            ) => (
                ResponderState::AwaitingFinal { msg_id, poll_rx_time, response_tx_time: tx_time },
                ResponderAction::Listen,
            ),
            (
                ResponderState::AwaitingFinal { msg_id, poll_rx_time, response_tx_time },
                ResponderEvent::Received { frame, rx_time },
            ) => {
                let outcome = match MessageType::decode(frame) {
                    Some(
                        DecodedMessage::Final {
                            msg_id: final_id,
                            time_tx_poll,
                            time_rx_response,
                            time_tx_final,
                        },
                    ) => {
                        if final_id == msg_id {
                            ResponderAction::Ranged {
                                msg_id: final_id,
                                distance_mm: range_mm(
                                    time_tx_poll,
                                    time_rx_response,
                                    time_tx_final,
                                    poll_rx_time,
                                    response_tx_time,
                                    rx_time,
                                ),
                            }
                        } else {
                            ResponderAction::SeqMismatch { got: final_id, want: msg_id }
                        }
                    },
                    _ => ResponderAction::DecodeFailed,
                };
                (ResponderState::Finished, outcome)
            },
            (ResponderState::AwaitingFinal { .. }, ResponderEvent::ReceiveFailed) => (
                ResponderState::Finished,
                ResponderAction::AbortReceive,
            ),
            (_, _) => (ResponderState::Finished, ResponderAction::Done),
        }
    }
}


/// The final frame an initiator sends, received by the responder that
/// answered its poll, ranges that poll from the initiator's three timestamps
/// and the responder's own three.
pub proof fn lemma_final_frame_ranges(
    msg_id: u8,
    poll_tx_time: u64,
    response_rx_time: u64,
    tx_antenna_delay: u16,
    poll_rx_time: u64,
    response_tx_time: u64,
    final_rx_time: u64,
)
    ensures
        spec_final_outcome(
            msg_id,
            poll_rx_time,
            response_tx_time,
            spec_final_frame(msg_id, poll_tx_time, response_rx_time, tx_antenna_delay),
            final_rx_time,
        ) == (ResponderAction::Ranged {
            msg_id,
            distance_mm: spec_range_mm(
                poll_tx_time,
                response_rx_time,
                spec_final_predicted(response_rx_time, tx_antenna_delay),
                poll_rx_time,
                response_tx_time,
                final_rx_time,
            ) as i64,
        }),
{
    lemma_decode_encode(
        DecodedMessage::Final {
            msg_id,
            time_tx_poll: poll_tx_time,
            time_rx_response: response_rx_time,
            time_tx_final: spec_final_predicted(response_rx_time, tx_antenna_delay),
        },
    );
}

/// Ranging measures the true distance: when the signal takes `flight` ticks
/// each way and each side replies after its own delay, the six timestamps
/// give the distance of `flight`, whatever the offset between the two
/// device clocks and across wraps of the 40-bit counters.
pub proof fn lemma_range_of_ideal_exchange(
    poll_tx_time: u64,
    poll_rx_time: u64,
    flight: int,
    reply1: int,
    reply2: int,
)
    requires
        is_dtu(poll_tx_time as int),
        is_dtu(poll_rx_time as int),
        0 <= flight,
        is_dtu(2 * flight + reply1),
        is_dtu(2 * flight + reply2),
        0 <= reply1,
        0 <= reply2,
    ensures
        ({
            let response_tx_time = spec_predicted_tx_time(poll_rx_time as int, reply1) as u64;
            let response_rx_time = spec_predicted_tx_time(poll_tx_time as int, 2 * flight + reply1) as u64;
            let final_tx_time = spec_predicted_tx_time(response_rx_time as int, reply2) as u64;
            let final_rx_time = spec_predicted_tx_time(response_tx_time as int, 2 * flight + reply2) as u64;
            spec_range_mm(
                poll_tx_time,
                response_rx_time,
                final_tx_time,
                poll_rx_time,
                response_tx_time,
                final_rx_time,
            ) == spec_distance_mm(flight)
        }),
{
    let response_tx_time = spec_predicted_tx_time(poll_rx_time as int, reply1) as u64;
    let response_rx_time = spec_predicted_tx_time(poll_tx_time as int, 2 * flight + reply1) as u64;
    let final_tx_time = spec_predicted_tx_time(response_rx_time as int, reply2) as u64;
    let final_rx_time = spec_predicted_tx_time(response_tx_time as int, 2 * flight + reply2) as u64;
    lemma_elapsed_after_predicted(poll_tx_time as int, 2 * flight + reply1);
    lemma_elapsed_after_predicted(poll_rx_time as int, reply1);
    lemma_elapsed_after_predicted(response_tx_time as int, 2 * flight + reply2);
    lemma_elapsed_after_predicted(response_rx_time as int, reply2);
    lemma_ideal_exchange_recovers_time_of_flight(flight, reply1, reply2);
}


/// The range uses all four durations of the exchange: the initiator's round
/// `round1 = (response_rx - poll_tx) mod 2^40` and reply
/// `reply2 = (final_tx - response_rx) mod 2^40`, and the responder's reply
/// `reply1 = (response_tx - poll_rx) mod 2^40` and round
/// `round2 = (final_rx - response_tx) mod 2^40`.  Its time of flight `t` is
/// `(round1 * round2 - reply1 * reply2) / (round1 + reply1 + round2 + reply2)`
/// rounded toward zero, and the range is the distance of `t`.
pub proof fn lemma_range_formula(
    poll_tx_time: u64,
    response_rx_time: u64,
    final_tx_time: u64,
    poll_rx_time: u64,
    response_tx_time: u64,
    final_rx_time: u64,
)
    ensures
        ({
            let m = 0x100_0000_0000int;
            let round1 = (response_rx_time - poll_tx_time) % m;
            let reply1 = (response_tx_time - poll_rx_time) % m;
            let round2 = (final_rx_time - response_tx_time) % m;
            let reply2 = (final_tx_time - response_rx_time) % m;
            let n = round1 * round2 - reply1 * reply2;
            let sum = round1 + reply1 + round2 + reply2;
            let t = spec_time_of_flight_dtu(round1, reply1, round2, reply2);
            &&& (sum == 0 ==> t == 0)
            &&& (sum != 0 && n >= 0 ==> sum * t <= n < sum * (t + 1))
            &&& (sum != 0 && n < 0 ==> sum * (-t) <= -n < sum * (-t + 1))
            &&& spec_range_mm(
                poll_tx_time,
                response_rx_time,
                final_tx_time,
                poll_rx_time,
                response_tx_time,
                final_rx_time,
            ) == spec_distance_mm(t)
        }),
{
    let round1 = spec_dtu_elapsed(response_rx_time as int, poll_tx_time as int);
    let reply1 = spec_dtu_elapsed(response_tx_time as int, poll_rx_time as int);
    let round2 = spec_dtu_elapsed(final_rx_time as int, response_tx_time as int);
    let reply2 = spec_dtu_elapsed(final_tx_time as int, response_rx_time as int);
    lemma_time_of_flight_formula(round1, reply1, round2, reply2);
}

} // verus!
