//! Enhanced ShockBurst for the radio of the nRF52840.
//!
//! Everything the driver decides is decided here: what is written to which
//! register, what an interrupt calls for, when a packet is sent again, how the radio
//! is switched off. The functions take what was read from the hardware as plain
//! values and return [`ops::Op`]s, which the caller carries out in order.

pub mod bits;
pub mod clock;
pub mod config;
pub mod disable;
pub mod error;
pub mod exchange;
pub mod interrupt;
pub mod laws;
pub mod ops;
pub mod packet;
pub mod radio;
pub mod regs;
pub mod setup;
pub mod transfer;

pub use config::{Bitrate, Config, Crc};
pub use error::Error;
pub use interrupt::InterruptHandler;
pub use packet::{Packet, MAX_PAYLOAD_LEN, PACKET_SIZE};
pub use radio::Radio;
