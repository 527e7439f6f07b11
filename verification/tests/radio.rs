use qorvo_blinky::ultrawideband::transport::{payload_length, MAX_PHY_PACKET_SIZE};
use qorvo_blinky::ultrawideband::{
    antenna_delays, otp_antenna_delay_address, AntennaChannel, DEFAULT_ANTENNA_CHANNEL,
    DEFAULT_ANTENNA_DELAY_DTU,
};

#[test]
fn antenna_delays_split_programmed_word() {
    assert_eq!(antenna_delays::<()>(Ok(0x4001_4002)), Ok((0x4001, 0x4002)));
    assert_eq!(antenna_delays::<()>(Ok(0x0000_0001)), Ok((0, 1)));
    assert_eq!(antenna_delays::<()>(Ok(0xFFFF_0000)), Ok((0xFFFF, 0)));
}

#[test]
fn antenna_delays_default_when_blank() {
    let default = Ok((DEFAULT_ANTENNA_DELAY_DTU, DEFAULT_ANTENNA_DELAY_DTU));
    assert_eq!(antenna_delays::<()>(Ok(0)), default);
    assert_eq!(antenna_delays::<()>(Ok(0xFFFF_FFFF)), default);
    assert_eq!(DEFAULT_ANTENNA_DELAY_DTU, 16385);
}

#[test]
fn antenna_delays_report_failed_read() {
    assert_eq!(antenna_delays(Err("OTP read failed")), Err("OTP read failed"));
}

#[test]
fn antenna_delay_halves_match_big_endian_split() {
    let word: u32 = 0x3F12_4A77;
    let [rx_upper, rx_lower, tx_upper, tx_lower] = word.to_be_bytes();
    assert_eq!(
        antenna_delays::<()>(Ok(word)),
        Ok((u16::from_be_bytes([rx_upper, rx_lower]), u16::from_be_bytes([tx_upper, tx_lower])))
    );
}

#[test]
fn otp_addresses() {
    assert_eq!(otp_antenna_delay_address(AntennaChannel::Channel5), 0x1A);
    assert_eq!(otp_antenna_delay_address(AntennaChannel::Channel9), 0x1C);
    assert_eq!(otp_antenna_delay_address(DEFAULT_ANTENNA_CHANNEL), 0x1C);
}

#[test]
fn payload_strips_checksum() {
    assert_eq!(payload_length(MAX_PHY_PACKET_SIZE), 125);
    assert_eq!(payload_length(5), 3);
    assert_eq!(payload_length(2), 0);
    assert_eq!(payload_length(1), 0);
    assert_eq!(payload_length(0), 0);
}
