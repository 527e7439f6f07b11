//! Message types and frame format for ultra wideband ranging.
use vstd::prelude::*;
use vstd::std_specs::convert::TryFromSpecImpl;

verus! {

/// Ranging frame sentinel.
pub const SENTINEL: u8 = 0xA7;

/// Length of a poll frame.
pub const MSG_LENGTH_POLL: usize = 3;

/// Length of a response frame.
pub const MSG_LENGTH_RESPONSE: usize = 3;

/// Length of a final frame: header and three little-endian timestamps.
pub const MSG_LENGTH_FINAL: usize = 27;

/// A decoded two-way ranging message.
#[derive(Clone, Copy, Debug, PartialEq, Eq, Structural)]
pub enum DecodedMessage {
    Poll { msg_id: u8 },
    Response { msg_id: u8 },
    Final { msg_id: u8, time_tx_poll: u64, time_rx_response: u64, time_tx_final: u64 },
}

/// Two-way ranging message types.
#[derive(Clone, Copy, Debug, PartialEq, Eq, Structural)]
pub enum MessageType {
    Poll,
    Response,
    Final,
}

/// The type byte of each message type.
pub open spec fn spec_code(t: MessageType) -> u8 {
    match t {
        MessageType::Poll => 1,
        MessageType::Response => 2,
        MessageType::Final => 3,
    }
}

/// The message type a type byte names, if any.
pub open spec fn spec_message_type(code: u8) -> Option<MessageType> {
    if code == 1 {
        Some(MessageType::Poll)
    } else if code == 2 {
        Some(MessageType::Response)
    } else if code == 3 {
        Some(MessageType::Final)
    } else {
        None
    }
}

/// The eight little-endian bytes of `v`.
pub open spec fn le_bytes(v: u64) -> Seq<u8> {
    seq![
        (v & 0xff) as u8,
        ((v >> 8) & 0xff) as u8,
        ((v >> 16) & 0xff) as u8,
        ((v >> 24) & 0xff) as u8,
        ((v >> 32) & 0xff) as u8,
        ((v >> 40) & 0xff) as u8,
        ((v >> 48) & 0xff) as u8,
        ((v >> 56) & 0xff) as u8,
    ]
}

/// The `u64` whose little-endian bytes are the first eight of `b`.
pub open spec fn le_value(b: Seq<u8>) -> u64 {
    (b[0] as u64) | ((b[1] as u64) << 8) | ((b[2] as u64) << 16) | ((b[3] as u64) << 24) | ((
    b[4] as u64) << 32) | ((b[5] as u64) << 40) | ((b[6] as u64) << 48) | ((b[7] as u64) << 56)
}

/// The frame that carries a message.
pub open spec fn spec_encode(m: DecodedMessage) -> Seq<u8> {
    match m {
        DecodedMessage::Poll { msg_id } => seq![SENTINEL, 1u8, msg_id],
        DecodedMessage::Response { msg_id } => seq![SENTINEL, 2u8, msg_id],
        DecodedMessage::Final { msg_id, time_tx_poll, time_rx_response, time_tx_final } => seq![
            SENTINEL,
            3u8,
            msg_id,
        ] + le_bytes(time_tx_poll) + le_bytes(time_rx_response) + le_bytes(time_tx_final),
    }
}

/// The message a frame carries: a sentinel, a type byte and a message id,
/// and for a final frame three little-endian timestamps; each type has one
/// exact length.
pub open spec fn spec_decode(frame: Seq<u8>) -> Option<DecodedMessage> {
    if frame.len() >= 3 && frame[0] == SENTINEL {
        let msg_id = frame[2];
        match spec_message_type(frame[1]) {
            Some(MessageType::Poll) => if frame.len() == MSG_LENGTH_POLL {
                Some(DecodedMessage::Poll { msg_id })
            } else {
                None
            },
            Some(MessageType::Response) => if frame.len() == MSG_LENGTH_RESPONSE {
                Some(DecodedMessage::Response { msg_id })
            } else {
                None
            },
            Some(MessageType::Final) => if frame.len() == MSG_LENGTH_FINAL {
                Some(
                    DecodedMessage::Final {
                        msg_id,
                        time_tx_poll: le_value(frame.subrange(3, 11)),
                        time_rx_response: le_value(frame.subrange(11, 19)),
                        time_tx_final: le_value(frame.subrange(19, 27)),
                    },
                )
            } else {
                None
            },
            None => None,
        }
    } else {
        None
    }
}

impl MessageType {
    /// The type byte of this message type.
    pub fn code(self) -> (r: u8)
        ensures
            r == spec_code(self),
    {
        match self {
            MessageType::Poll => 1,
            MessageType::Response => 2,
            MessageType::Final => 3,
        }
    }

    /// Decode a received frame.
    pub fn decode(frame: &[u8]) -> (r: Option<DecodedMessage>)
        ensures
            r == spec_decode(frame@),
    {
        if frame.len() < 3 || frame[0] != SENTINEL {
            return None;
        }
        let msg_id = frame[2];
        match (frame.len(), Self::try_from(frame[1])) {
            (MSG_LENGTH_POLL, Ok(MessageType::Poll)) => Some(DecodedMessage::Poll { msg_id }),
            (MSG_LENGTH_RESPONSE, Ok(MessageType::Response)) => Some(
                DecodedMessage::Response { msg_id },
            ),
            (MSG_LENGTH_FINAL, Ok(MessageType::Final)) => {
                let time_tx_poll = read_u64_le(frame, 3);
                let time_rx_response = read_u64_le(frame, 11);
                let time_tx_final = read_u64_le(frame, 19);
                Some(DecodedMessage::Final { msg_id, time_tx_poll, time_rx_response, time_tx_final })
            },
            (_, _) => None,
        }
    }

    /// Encode a poll frame.
    pub fn encode_poll(msg_id: u8) -> (r: [u8; 3])
        ensures
            r@ == spec_encode(DecodedMessage::Poll { msg_id }),
    {
        [SENTINEL, MessageType::Poll.code(), msg_id]
    }

    /// Encode a response frame.
    pub fn encode_response(msg_id: u8) -> (r: [u8; 3])
        ensures
            r@ == spec_encode(DecodedMessage::Response { msg_id }),
    {
        [SENTINEL, MessageType::Response.code(), msg_id]
    }

    /// Encode a final frame carrying the initiator's three timestamps.
    pub fn encode_final(msg_id: u8, time_tx_poll: u64, time_rx_response: u64, time_tx_final: u64) -> (r: [u8; 27])
        ensures
            r@ == spec_encode(DecodedMessage::Final { msg_id, time_tx_poll, time_rx_response, time_tx_final }),
    {
        let p = u64_to_le(time_tx_poll);
        let q = u64_to_le(time_rx_response);
        let f = u64_to_le(time_tx_final);
        let frame = [
            SENTINEL, MessageType::Final.code(), msg_id,
            p[0], p[1], p[2], p[3], p[4], p[5], p[6], p[7],
            q[0], q[1], q[2], q[3], q[4], q[5], q[6], q[7],
            f[0], f[1], f[2], f[3], f[4], f[5], f[6], f[7],
        ];
        assert(frame@ =~= spec_encode(DecodedMessage::Final { msg_id, time_tx_poll, time_rx_response, time_tx_final }));
        frame
    }
}

impl TryFrom<u8> for MessageType {
    type Error = &'static str;

    fn try_from(msg_type: u8) -> (r: Result<Self, Self::Error>) {
        match msg_type {
            1 => Ok(Self::Poll),
            2 => Ok(Self::Response),
            3 => Ok(Self::Final),
            _ => Err("Invalid message type"),
        }
    }
}

impl TryFromSpecImpl<u8> for MessageType {
    open spec fn obeys_try_from_spec() -> bool {
        true
    }

    open spec fn try_from_spec(msg_type: u8) -> Result<Self, Self::Error> {
        match spec_message_type(msg_type) {
            Some(t) => Ok(t),
            None => Err("Invalid message type"),
        }
    }
}

/// The eight little-endian bytes of `v`.
fn u64_to_le(v: u64) -> (r: [u8; 8])
    ensures
        r@ == le_bytes(v),
{
    let r = [
        (v & 0xff) as u8,
        ((v >> 8) & 0xff) as u8,
        ((v >> 16) & 0xff) as u8,
        ((v >> 24) & 0xff) as u8,
        ((v >> 32) & 0xff) as u8,
        ((v >> 40) & 0xff) as u8,
        ((v >> 48) & 0xff) as u8,
        ((v >> 56) & 0xff) as u8,
    ];
    assert(r@ =~= le_bytes(v));
    r
}

/// The little-endian `u64` in `frame[start..start + 8]`.
fn read_u64_le(frame: &[u8], start: usize) -> (r: u64)
    requires
        start + 8 <= frame@.len(),
    ensures
        r == le_value(frame@.subrange(start as int, start + 8)),
{
    (frame[start] as u64) | ((frame[start + 1] as u64) << 8) | ((frame[start + 2] as u64) << 16)
        | ((frame[start + 3] as u64) << 24) | ((frame[start + 4] as u64) << 32) | ((frame[start
        + 5] as u64) << 40) | ((frame[start + 6] as u64) << 48) | ((frame[start + 7] as u64) << 56)
}


/// Reading back the little-endian bytes of a value gives the value.
pub proof fn lemma_le_value_of_bytes(v: u64)
    ensures
        le_value(le_bytes(v)) == v,
{
    let b = le_bytes(v);
    let (b0, b1, b2, b3, b4, b5, b6, b7) = (b[0], b[1], b[2], b[3], b[4], b[5], b[6], b[7]);
    assert(v == (b0 as u64) | ((b1 as u64) << 8) | ((b2 as u64) << 16) | ((b3 as u64) << 24) | ((
    b4 as u64) << 32) | ((b5 as u64) << 40) | ((b6 as u64) << 48) | ((b7 as u64) << 56))
        by (bit_vector)
        requires
            b0 == (v & 0xff) as u8,
            b1 == ((v >> 8) & 0xff) as u8,
            b2 == ((v >> 16) & 0xff) as u8,
            b3 == ((v >> 24) & 0xff) as u8,
            b4 == ((v >> 32) & 0xff) as u8,
            b5 == ((v >> 40) & 0xff) as u8,
            b6 == ((v >> 48) & 0xff) as u8,
            b7 == ((v >> 56) & 0xff) as u8,
    ;
}

/// Eight bytes read as a little-endian value and written back are the same bytes.
pub proof fn lemma_le_bytes_of_value(b: Seq<u8>)
    requires
        b.len() == 8,
    ensures
        le_bytes(le_value(b)) == b,
{
    let v = le_value(b);
    let (b0, b1, b2, b3, b4, b5, b6, b7) = (b[0], b[1], b[2], b[3], b[4], b[5], b[6], b[7]);
    assert(b0 == (v & 0xff) as u8 && b1 == ((v >> 8) & 0xff) as u8 && b2 == ((v >> 16) & 0xff) as u8
        && b3 == ((v >> 24) & 0xff) as u8 && b4 == ((v >> 32) & 0xff) as u8 && b5 == ((v >> 40)
        & 0xff) as u8 && b6 == ((v >> 48) & 0xff) as u8 && b7 == ((v >> 56) & 0xff) as u8)
        by (bit_vector)
        requires
            v == (b0 as u64) | ((b1 as u64) << 8) | ((b2 as u64) << 16) | ((b3 as u64) << 24) | ((
            b4 as u64) << 32) | ((b5 as u64) << 40) | ((b6 as u64) << 48) | ((b7 as u64) << 56),
    ;
    assert(le_bytes(v) =~= b);
}

/// Every message decodes back from the frame that encodes it.
pub proof fn lemma_decode_encode(m: DecodedMessage)
    ensures
        spec_decode(spec_encode(m)) == Some(m),
{
    match m {
        DecodedMessage::Final { msg_id, time_tx_poll, time_rx_response, time_tx_final } => {
            let f = spec_encode(m);
            assert(f.subrange(3, 11) =~= le_bytes(time_tx_poll));
            assert(f.subrange(11, 19) =~= le_bytes(time_rx_response));
            assert(f.subrange(19, 27) =~= le_bytes(time_tx_final));
            lemma_le_value_of_bytes(time_tx_poll);
            lemma_le_value_of_bytes(time_rx_response);
            lemma_le_value_of_bytes(time_tx_final);
        },
        _ => {},
    }
}

/// A frame that decodes is exactly the encoding of its message: no two
/// frames carry the same message.
pub proof fn lemma_encode_decode(frame: Seq<u8>)
    requires
        spec_decode(frame) is Some,
    ensures
        spec_encode(spec_decode(frame).unwrap()) == frame,
{
    let m = spec_decode(frame).unwrap();
    match m {
        DecodedMessage::Final { .. } => {
            lemma_le_bytes_of_value(frame.subrange(3, 11));
            lemma_le_bytes_of_value(frame.subrange(11, 19));
            lemma_le_bytes_of_value(frame.subrange(19, 27));
            assert(spec_encode(m) =~= frame);
        },
        _ => {
            assert(spec_encode(m) =~= frame);
        },
    }
}


/// The poll and response frames: the sentinel, the type byte (1 for a poll,
/// 2 for a response) and the message id.
pub proof fn lemma_short_frame_layout(msg_id: u8)
    ensures
        spec_encode(DecodedMessage::Poll { msg_id }) == seq![0xA7u8, 1u8, msg_id],
        spec_encode(DecodedMessage::Response { msg_id }) == seq![0xA7u8, 2u8, msg_id],
{
}

/// The final frame's layout: the sentinel, the type byte 3 and the message
/// id, then the poll, response and final times, each as eight bytes with the
/// least significant first: byte `3 + 8k + i` is bits `8i..8i + 8` of the
/// `k`-th time.
pub proof fn lemma_final_frame_layout(
    msg_id: u8,
    time_tx_poll: u64,
    time_rx_response: u64,
    time_tx_final: u64,
)
    ensures
        ({
            let frame = spec_encode(
                DecodedMessage::Final { msg_id, time_tx_poll, time_rx_response, time_tx_final },
            );
            &&& frame.len() == 27
            &&& frame[0] == 0xA7
            &&& frame[1] == 3
            &&& frame[2] == msg_id
            &&& forall|i: int|
                0 <= i < 8 ==> {
                    &&& #[trigger] frame[3 + i] == ((time_tx_poll >> ((8 * i) as u64)) & 0xff) as u8
                    &&& frame[11 + i] == ((time_rx_response >> ((8 * i) as u64)) & 0xff) as u8
                    &&& frame[19 + i] == ((time_tx_final >> ((8 * i) as u64)) & 0xff) as u8
                }
        }),
{
    let frame = spec_encode(
        DecodedMessage::Final { msg_id, time_tx_poll, time_rx_response, time_tx_final },
    );
    assert forall|i: int| 0 <= i < 8 implies {
        &&& #[trigger] frame[3 + i] == ((time_tx_poll >> ((8 * i) as u64)) & 0xff) as u8
        &&& frame[11 + i] == ((time_rx_response >> ((8 * i) as u64)) & 0xff) as u8
        &&& frame[19 + i] == ((time_tx_final >> ((8 * i) as u64)) & 0xff) as u8
    } by {
        assert(frame[3 + i] == le_bytes(time_tx_poll)[i]);
        assert(frame[11 + i] == le_bytes(time_rx_response)[i]);
        assert(frame[19 + i] == le_bytes(time_tx_final)[i]);
        if i == 0 {
            assert(time_tx_poll >> 0u64 == time_tx_poll && time_rx_response >> 0u64 == time_rx_response
                && time_tx_final >> 0u64 == time_tx_final) by (bit_vector);
        }
    }
}

} // verus!
