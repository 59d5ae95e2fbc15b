//! The Enhanced ShockBurst radio driver.

use vstd::prelude::*;

use crate::config::Config;
use crate::disable::Disable;
use crate::error::Error;
use crate::exchange::Exchange;
use crate::interrupt::{AckSetup, State};
use crate::ops::{Op, Register};
use crate::packet::{Packet, MAX_PAYLOAD_LEN};
use crate::setup;
use crate::transfer;

verus! {

/// Enhanced ShockBurst radio driver.
#[derive(Debug)]
pub struct Radio {
    config: Config,
    last_pid: u8,
}

/// The packet identifier that comes after `pid`.
pub open spec fn next_pid(pid: int) -> int {
    (pid + 1) % 4
}

/// What is done to send a packet that wants no acknowledgement.
pub open spec fn send_ops(packet_addr: u32, address: u8) -> Seq<Op> {
    seq![
        Op::Write(Register::PacketPtr, packet_addr),
        Op::Write(Register::TxAddress, address as u32),
        Op::Write(Register::Shorts, transfer::shorts_word(true)),
        Op::Write(Register::IntenSet, transfer::int_disabled_word()),
        Op::Write(Register::EventsDisabled, 0),
        Op::DmaStartFence,
        Op::Write(Register::TasksTxEn, 1),
    ]
}

/// What is done to receive a packet, and to have a reply ready for it.
pub open spec fn recv_ops(address_mask: u8, packet_addr: u32, reply_addr: u32) -> Seq<Op> {
    seq![
        Op::Write(Register::PacketPtr, packet_addr),
        Op::Write(Register::RxAddresses, address_mask as u32),
        Op::Write(Register::Shorts, transfer::shorts_word(false)),
        Op::Write(Register::EventsCrcOk, 0),
        Op::Write(Register::EventsEnd, 0),
        Op::PublishReply(reply_addr),
        Op::Write(Register::IntenSet, transfer::int_crcok_word()),
        Op::DmaStartFence,
        Op::Write(Register::TasksRxEn, 1),
    ]
}

/// The S1 field of a packet.
pub open spec fn s1_field(pid: int, no_ack: bool) -> int {
    2 * pid + if no_ack {
        1int
    } else {
        0int
    }
}

/// Refuses an address that is not one of the eight logical addresses.
pub fn check_address(address: u8) -> (r: Result<(), Error>)
    ensures
        r == if address < 8 {
            Ok::<(), Error>(())
        } else {
            Err::<(), Error>(Error::InvalidAddress)
        },
{
    if address >= 8 {
        Err(Error::InvalidAddress)
    } else {
        Ok(())
    }
}

impl Radio {
    #[verifier::type_invariant]
    spec fn inv(self) -> bool {
        self.last_pid < 4 && self.config.wf()
    }

    /// The settings that the radio was made with.
    pub closed spec fn config(&self) -> Config {
        self.config
    }

    /// The packet identifier that the next packet gets.
    pub closed spec fn last_pid(&self) -> int {
        self.last_pid as int
    }

    /// Creates a driver, and says what sets up its radio.
    pub fn new(config: Config) -> (r: (Self, [Op; 18]))
        requires
            config.max_payload_length <= MAX_PAYLOAD_LEN,
        ensures
            r.0.config() == config,
            r.0.last_pid() == 0,
            r.1@ == setup::setup_ops(config),
    {
        let ops = setup::setup(&config);
        (Radio { config, last_pid: 0 }, ops)
    }

    /// Takes the packet identifier for a new packet.
    fn take_pid(&mut self) -> (r: u8)
        ensures
            r == old(self).last_pid(),
            r < 4,
            final(self).last_pid() == next_pid(old(self).last_pid()),
            final(self).config() == old(self).config(),
    {
        proof {
            use_type_invariant(&*self);
        }
        let pid: u8 = self.last_pid;
        assert((pid + 1) as u8 & 0b11 == (pid + 1) % 4 && (pid + 1) as u8 & 0b11 < 4) by (bit_vector)
            requires
                pid < 4,
        ;
        self.last_pid = (pid + 1) & 0b11;
        pid
    }

    /// Sends `packet`, which lies at `packet_addr`, to one of the eight logical
    /// addresses, and asks for no acknowledgement.
    ///
    /// What is returned starts the transfer; [`transfer::poll_disabled`] then says
    /// when it is over. Should it be given up, [`Radio::disable`] ends it.
    pub fn try_send_no_ack(
        &mut self,
        packet: &mut Packet,
        address: u8,
        packet_addr: u32,
    ) -> (r: Result<[Op; 7], Error>)
        ensures
            match r {
                Ok(ops) => {
                    &&& address < 8
                    &&& ops@ == send_ops(packet_addr, address)
                    &&& final(packet).bytes() == old(packet).bytes().update(
                        1,
                        s1_field(old(self).last_pid(), true) as u8,
                    )
                    &&& final(packet).spec_pid() == old(self).last_pid()
                    &&& final(packet).spec_no_ack()
                    &&& old(packet).wf() ==> final(packet).wf() && final(packet)@ == old(packet)@
                    &&& final(self).last_pid() == next_pid(old(self).last_pid())
                    &&& final(self).config() == old(self).config()
                },
                Err(e) => {
                    &&& address >= 8
                    &&& e == Error::InvalidAddress
                    &&& *final(self) == *old(self)
                    &&& *final(packet) == *old(packet)
                },
            },
    {
        if let Err(e) = check_address(address) {
            return Err(e);
        }
        let our_pid: u8 = self.take_pid();
        assert((our_pid << 1) | 0b1 == 2 * our_pid + 1) by (bit_vector)
            requires
                our_pid < 4,
        ;
        packet.set_s1((our_pid << 1) | 0b1);
        let ops = [
            Op::Write(Register::PacketPtr, packet_addr),
            Op::Write(Register::TxAddress, transfer::tx_address(address)),
            Op::Write(Register::Shorts, transfer::shorts(true)),
            Op::Write(Register::IntenSet, transfer::int_disabled()),
            Op::Write(Register::EventsDisabled, 0),
            Op::DmaStartFence,
            Op::Write(Register::TasksTxEn, 1),
        ];
        assert(ops@ =~= send_ops(packet_addr, address));
        Ok(ops)
    }

    /// Sends `packet`, which lies at `packet_addr`, to one of the eight logical
    /// addresses, until it is acknowledged or has been sent as often as the
    /// settings permit.
    ///
    /// The acknowledgement is received into `received`, whose memory `ack` points to,
    /// and which starts out all zero. What is returned hands out the attempts.
    pub fn try_send_with_ack(
        &mut self,
        packet: &mut Packet,
        address: u8,
        packet_addr: u32,
        received: &mut Packet,
        ack: AckSetup,
    ) -> (r: Result<Exchange, Error>)
        ensures
            match r {
                Ok(exchange) => {
                    &&& address < 8
                    &&& exchange.attempts_left() == old(self).config().retransmit_count
                    &&& exchange.delay() == old(self).config().retransmit_delay
                    &&& exchange.packet_addr() == packet_addr
                    &&& exchange.address() == address
                    &&& exchange.ack() == ack
                    &&& final(received).is_zeroed()
                    &&& final(packet).bytes() == old(packet).bytes().update(
                        1,
                        s1_field(old(self).last_pid(), false) as u8,
                    )
                    &&& final(packet).spec_pid() == old(self).last_pid()
                    &&& !final(packet).spec_no_ack()
                    &&& old(packet).wf() ==> final(packet).wf() && final(packet)@ == old(packet)@
                    &&& final(self).last_pid() == next_pid(old(self).last_pid())
                    &&& final(self).config() == old(self).config()
                },
                Err(e) => {
                    &&& address >= 8
                    &&& e == Error::InvalidAddress
                    &&& *final(self) == *old(self)
                    &&& *final(packet) == *old(packet)
                    &&& *final(received) == *old(received)
                },
            },
    {
        if let Err(e) = check_address(address) {
            return Err(e);
        }
        let our_pid: u8 = self.take_pid();
        assert(our_pid << 1 == 2 * our_pid) by (bit_vector)
            requires
                our_pid < 4,
        ;
        packet.set_s1(our_pid << 1);
        *received = Packet::new();
        Ok(
            Exchange::new(
                self.config.retransmit_count,
                self.config.retransmit_delay,
                packet_addr,
                address,
                ack,
            ),
        )
    }

    /// Receives a packet that is sent to one of the logical addresses of the mask,
    /// and replies to it with the packet at `reply_addr` if its sender wants an
    /// acknowledgement.
    ///
    /// The packet is received into `received`, which lies at `packet_addr` and starts
    /// out all zero.
    ///
    /// What is returned starts the reception; [`transfer::poll_end`] then says when
    /// it is over. Should it be given up, [`Radio::disable`] ends it.
    pub fn try_recv(
        &mut self,
        address_mask: u8,
        received: &mut Packet,
        packet_addr: u32,
        reply_addr: u32,
    ) -> (r: [Op; 9])
        ensures
            final(received).is_zeroed(),
            r@ == recv_ops(address_mask, packet_addr, reply_addr),
            *final(self) == *old(self),
    {
        *received = Packet::new();
        let ops = [
            Op::Write(Register::PacketPtr, packet_addr),
            Op::Write(Register::RxAddresses, address_mask as u32),
            Op::Write(Register::Shorts, transfer::shorts(false)),
            Op::Write(Register::EventsCrcOk, 0),
            Op::Write(Register::EventsEnd, 0),
            Op::PublishReply(reply_addr),
            Op::Write(Register::IntenSet, transfer::int_crcok()),
            Op::DmaStartFence,
            Op::Write(Register::TasksRxEn, 1),
        ];
        assert(ops@ =~= recv_ops(address_mask, packet_addr, reply_addr));
        ops
    }

    /// Begins to move the radio from any state to the DISABLED state: what was
    /// published for the interrupt handler is taken back, and the state that the
    /// radio is in decides what comes next.
    pub fn disable(&mut self, state: &mut State) -> (r: Disable)
        ensures
            r == Disable::Decide,
            final(state).is_clear(),
            final(state).ack() is None,
            final(state).reply() is None,
            *final(self) == *old(self),
    {
        state.clear();
        Disable::Decide
    }
}

} // verus!
