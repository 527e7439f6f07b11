//! Ultra wideband frame sizes on the physical layer.
use vstd::prelude::*;

verus! {

/// Max PHY packet size (including FCS).
pub const MAX_PHY_PACKET_SIZE: usize = 127;

/// FCS packet segment length.
pub const FCS_LENGTH: usize = 2;

/// The length of a received frame without its frame check sequence.
pub fn payload_length(phy_length: usize) -> (r: usize)
    ensures
        r == if phy_length >= FCS_LENGTH { phy_length - FCS_LENGTH } else { 0 },
{
    phy_length.saturating_sub(FCS_LENGTH)
}

} // verus!
