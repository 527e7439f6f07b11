//! Ultra wideband ranging and radio decisions.
use vstd::prelude::*;

pub mod ranging;
pub mod transport;

verus! {

/// The UWB channels whose antenna delays the OTP memory holds.
#[derive(Clone, Copy, Debug, PartialEq, Eq, Structural)]
pub enum AntennaChannel {
    Channel5,
    Channel9,
}

/// The channel the radio is configured for.
pub const DEFAULT_ANTENNA_CHANNEL: AntennaChannel = AntennaChannel::Channel9;

/// Antenna delay used when the OTP memory holds none.
pub const DEFAULT_ANTENNA_DELAY_DTU: u16 = 16385;

/// OTP word holding the channel 5 antenna delays.
pub const OTP_ADDR_ANTENNA_DELAY_CH5: u16 = 0x01A;

/// OTP word holding the channel 9 antenna delays.
pub const OTP_ADDR_ANTENNA_DELAY_CH9: u16 = 0x01C;

/// Whether an OTP word is programmed: neither all zeros nor all ones.
pub open spec fn otp_programmed(word: u32) -> bool {
    word != 0 && word != 0xFFFF_FFFF
}

/// The receive and transmit antenna delays an OTP word holds: its high and
/// low halves when it is programmed, the default for both when it is blank.
pub open spec fn spec_delays_from_word(word: u32) -> (u16, u16) {
    if otp_programmed(word) {
        ((word / 0x1_0000) as u16, (word % 0x1_0000) as u16)
    } else {
        (DEFAULT_ANTENNA_DELAY_DTU, DEFAULT_ANTENNA_DELAY_DTU)
    }
}

/// The antenna delays from an OTP read; a failed read stays a failure.
pub open spec fn spec_antenna_delays<E>(otp_read: Result<u32, E>) -> Result<(u16, u16), E> {
    match otp_read {
        Ok(word) => Ok(spec_delays_from_word(word)),
        Err(e) => Err(e),
    }
}

/// The OTP address of a channel's antenna delays.
pub fn otp_antenna_delay_address(channel: AntennaChannel) -> (r: u16)
    ensures
        r == (match channel {
            AntennaChannel::Channel5 => OTP_ADDR_ANTENNA_DELAY_CH5,
            AntennaChannel::Channel9 => OTP_ADDR_ANTENNA_DELAY_CH9,
        }),
{
    match channel {
        AntennaChannel::Channel5 => OTP_ADDR_ANTENNA_DELAY_CH5,
        AntennaChannel::Channel9 => OTP_ADDR_ANTENNA_DELAY_CH9,
    }
}

/// The receive and transmit antenna delays from the OTP read of the
/// channel's delay word.
///
/// # Errors
/// Returns the read's error if the OTP read failed.
pub fn antenna_delays<E>(otp_read: Result<u32, E>) -> (r: Result<(u16, u16), E>)
    ensures
        r == spec_antenna_delays(otp_read),
        otp_read matches Ok(word) ==> (otp_programmed(word) ==> (r matches Ok(d) && d.0 * 0x1_0000
            + d.1 == word)),
{
    match otp_read {
        Ok(word) => {
            if word != 0 && word != 0xFFFF_FFFF {
                let rx = word >> 16;
                let tx = word & 0xFFFF;
                assert(rx == word / 0x1_0000 && tx == word % 0x1_0000) by (bit_vector)
                    requires
                        rx == word >> 16,
                        tx == word & 0xFFFF,
                ;
                Ok((rx as u16, tx as u16))
            } else {
                Ok((DEFAULT_ANTENNA_DELAY_DTU, DEFAULT_ANTENNA_DELAY_DTU))
            }
        },
        Err(e) => Err(e),
    }
}

} // verus!
