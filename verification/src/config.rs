//! How the radio is set up.

use vstd::prelude::*;

use crate::clock;
use crate::packet::MAX_PAYLOAD_LEN;

verus! {

/// The modulation and its rate.
#[derive(Clone, Copy, Debug, PartialEq, Eq, Structural)]
pub enum Bitrate {
    Esb1Mbps,
    Esb2Mbps,
    Ble1Mbps,
}

/// The checksum at the end of each packet.
#[derive(Clone, Copy, Debug, PartialEq, Eq, Structural)]
pub enum Crc {
    Crc16Bit,
    Crc8Bit,
    Off,
}

/// The code of 0 dBm in the radio's TXPOWER register.
pub const TXPOWER_0_DBM: u8 = 0;

/// The settings of a radio.
#[derive(Clone, Copy, Debug, PartialEq, Eq, Structural)]
pub struct Config {
    pub bitrate: Bitrate,
    pub crc: Crc,
    /// The output power, as the code that the TXPOWER register takes.
    pub tx_output_power: u8,
    /// How long after its start an unacknowledged attempt is repeated, in
    /// ticks of [`crate::clock`].
    pub retransmit_delay: u64,
    /// How many times a packet that wants an acknowledgement is sent.
    pub retransmit_count: u16,
    /// The longest payload that is received, at most [`MAX_PAYLOAD_LEN`].
    pub max_payload_length: u8,
    pub use_fast_ramp_up: bool,
}

impl Config {
    /// The settings that a radio can be made with.
    pub open spec fn wf(&self) -> bool {
        self.max_payload_length <= MAX_PAYLOAD_LEN
    }
}

impl Default for Config {
    fn default() -> (r: Self)
        ensures
            r.wf(),
            r == (Config {
                bitrate: Bitrate::Esb2Mbps,
                crc: Crc::Crc16Bit,
                tx_output_power: TXPOWER_0_DBM,
                retransmit_delay: clock::micros_in_ticks(600) as u64,
                retransmit_count: 3,
                max_payload_length: 252,
                use_fast_ramp_up: true,
            }),
    {
        Config {
            bitrate: Bitrate::Esb2Mbps,
            crc: Crc::Crc16Bit,
            tx_output_power: TXPOWER_0_DBM,
            retransmit_delay: clock::from_micros(600),
            retransmit_count: 3,
            max_payload_length: 252,
            use_fast_ramp_up: true,
        }
    }
}

} // verus!
