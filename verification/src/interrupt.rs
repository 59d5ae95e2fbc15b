//! What the interrupt handler does, and what transfers leave for it to do.

use vstd::prelude::*;

use crate::ops::{Op, Register};
use crate::regs;
use crate::transfer;

verus! {

/// How many PPI channels can be wired freely.
pub const PPI_CHANNELS: usize = 20;

/// What the interrupt handler needs to receive an acknowledgement.
#[derive(Clone, Copy, Debug, PartialEq, Eq)]
pub struct AckSetup {
    packet_addr: u32,
    channels: [usize; 3],
    timer: usize,
}

impl AckSetup {
    #[verifier::type_invariant]
    spec fn inv(self) -> bool {
        self.channels[0] < PPI_CHANNELS && self.channels[1] < PPI_CHANNELS && self.channels[2]
            < PPI_CHANNELS
    }

    /// The address of the packet that the acknowledgement is received into.
    pub closed spec fn spec_packet_addr(&self) -> u32 {
        self.packet_addr
    }

    /// The PPI channels that are used.
    pub closed spec fn spec_channels(&self) -> Seq<usize> {
        self.channels@
    }

    /// The address of the timer that is used.
    pub closed spec fn spec_timer(&self) -> usize {
        self.timer
    }

    /// Receives into the packet at `packet_addr`, with three PPI channels and the
    /// timer at `timer` to end the reception.
    pub fn new(packet_addr: u32, channels: [usize; 3], timer: usize) -> (r: Self)
        requires
            channels[0] < PPI_CHANNELS,
            channels[1] < PPI_CHANNELS,
            channels[2] < PPI_CHANNELS,
        ensures
            r.spec_packet_addr() == packet_addr,
            r.spec_channels() == channels@,
            r.spec_timer() == timer,
    {
        AckSetup { packet_addr, channels, timer }
    }

    /// The address of the timer.
    pub fn timer(&self) -> (r: usize)
        ensures
            r == self.spec_timer(),
    {
        self.timer
    }
}

/// What the transfers have published for the next interrupt.
#[derive(Clone, Copy, Debug)]
pub struct State {
    ack: Option<AckSetup>,
    reply: Option<u32>,
}

impl State {
    /// The acknowledgement that is to be received, if any.
    pub closed spec fn ack(&self) -> Option<AckSetup> {
        self.ack
    }

    /// The address of the packet to reply with, if any.
    pub closed spec fn reply(&self) -> Option<u32> {
        self.reply
    }

    /// Nothing is published.
    pub open spec fn is_clear(&self) -> bool {
        self.ack() is None && self.reply() is None
    }

    /// A state in which nothing is published.
    pub fn new() -> (r: Self)
        ensures
            r.is_clear(),
            r.ack() is None,
            r.reply() is None,
    {
        State { ack: None, reply: None }
    }

    /// Publishes the reception of an acknowledgement.
    pub fn publish_ack(&mut self, ack: AckSetup)
        ensures
            final(self).ack() == Some(ack),
            final(self).reply() == old(self).reply(),
    {
        self.ack = Some(ack);
    }

    /// Publishes the packet to reply with.
    pub fn publish_reply(&mut self, packet_addr: u32)
        ensures
            final(self).ack() == old(self).ack(),
            final(self).reply() == Some(packet_addr),
    {
        self.reply = Some(packet_addr);
    }

    /// Takes back whatever is published.
    pub fn clear(&mut self)
        ensures
            final(self).is_clear(),
            final(self).ack() is None,
            final(self).reply() is None,
    {
        self.ack = None;
        self.reply = None;
    }
}

/// What an interrupt calls for.
#[derive(Clone, Copy, Debug, PartialEq, Eq)]
pub enum Interrupt {
    /// The transfer is over.
    Wake([Op; 2]),
    /// A packet has come in, and what follows depends on its S1 field.
    Received([Op; 1], PendingReply),
    /// A packet has gone out, and its acknowledgement is to be received.
    Listen([Op; 22], AckSetup),
}

/// What a received packet calls for.
#[derive(Clone, Copy, Debug, PartialEq, Eq)]
pub enum Reply {
    /// No acknowledgement is wanted.
    Wake([Op; 1]),
    /// The acknowledgement is sent.
    Transmit([Op; 6]),
}

/// The PPI channels as a mask.
pub open spec fn channel_mask(channels: Seq<usize>) -> u32 {
    (1u32 << channels[0] as u32) | (1u32 << channels[1] as u32) | (1u32 << channels[2] as u32)
}

/// What is done to receive an acknowledgement after its packet has gone out.
///
/// The first channel starts the timer once the receiver is ready, the second
/// stops it when an address comes in, and the third switches the radio off when
/// the timer runs out.
pub open spec fn listen_ops(ack: AckSetup) -> Seq<Op> {
    let c = ack.spec_channels();
    seq![
        Op::Write(Register::IntenClr, 0xFFFF_FFFF),
        Op::Write(Register::Shorts, transfer::shorts_word(true)),
        Op::Write(Register::PacketPtr, ack.spec_packet_addr()),
        Op::Write(Register::EventsReady, 0),
        Op::Write(Register::EventsAddress, 0),
        Op::Write(Register::TimerEventsCompare0, 0),
        Op::Write(Register::PpiChEnClr, channel_mask(c)),
        Op::Write(Register::PpiForkTep(c[0]), 0),
        Op::WriteAddress(Register::PpiEep(c[0]), Register::EventsReady),
        Op::WriteAddress(Register::PpiTep(c[0]), Register::TimerTasksStart),
        Op::Write(Register::PpiForkTep(c[1]), 0),
        Op::WriteAddress(Register::PpiEep(c[1]), Register::EventsAddress),
        Op::WriteAddress(Register::PpiTep(c[1]), Register::TimerTasksStop),
        Op::Write(Register::PpiForkTep(c[2]), 0),
        Op::WriteAddress(Register::PpiEep(c[2]), Register::TimerEventsCompare0),
        Op::WriteAddress(Register::PpiTep(c[2]), Register::TasksDisable),
        Op::Write(Register::PpiChEnSet, channel_mask(c)),
        Op::Write(Register::EventsEnd, 0),
        Op::Write(Register::EventsDisabled, 0),
        Op::Write(Register::IntenSet, transfer::int_disabled_word()),
        Op::DmaStartFence,
        Op::Write(Register::TasksRxEn, 1),
    ]
}

/// What is done to reply with the packet at `packet_addr`.
pub open spec fn reply_ops(packet_addr: u32) -> Seq<Op> {
    seq![
        Op::Write(Register::Shorts, transfer::shorts_word(true)),
        Op::Write(Register::PacketPtr, packet_addr),
        Op::Write(Register::EventsDisabled, 0),
        Op::Write(Register::IntenSet, transfer::int_disabled_word()),
        Op::DmaStartFence,
        Op::Write(Register::TasksTxEn, 1),
    ]
}

/// Whether the sender of a packet with the S1 field `s1` wants an acknowledgement.
pub open spec fn wants_reply(s1: u8) -> bool {
    s1 % 2 == 0
}

/// The PPI channels as a mask.
fn mask(channels: &[usize; 3]) -> (w: u32)
    requires
        channels[0] < 32,
        channels[1] < 32,
        channels[2] < 32,
    ensures
        w == channel_mask(channels@),
{
    let w0: u32 = regs::ppi_ch(0, channels[0], true);
    let w1: u32 = regs::ppi_ch(w0, channels[1], true);
    let w2: u32 = regs::ppi_ch(w1, channels[2], true);
    let ghost c0 = channels[0] as u32;
    let ghost c1 = channels[1] as u32;
    let ghost c2 = channels[2] as u32;
    assert(w2 == (1u32 << c0) | (1u32 << c1) | (1u32 << c2)) by (bit_vector)
        requires
            c0 < 32,
            c1 < 32,
            c2 < 32,
            w0 == regs::with_field(0, 0x01, c0, 1),
            w1 == regs::with_field(w0, 0x01, c1, 1),
            w2 == regs::with_field(w1, 0x01, c2, 1),
    ;
    w2
}

/// The reply that waits for the packet that has come in to be looked at.
#[derive(Clone, Copy, Debug, PartialEq, Eq)]
pub struct PendingReply {
    packet_addr: u32,
}

impl PendingReply {
    /// The address of the packet to reply with.
    pub closed spec fn spec_packet_addr(&self) -> u32 {
        self.packet_addr
    }

    /// Decides on the reply to the packet whose S1 field is `s1`.
    pub fn reply_to(self, s1: u8) -> (r: Reply)
        ensures
            r is Transmit <==> s1 % 2 == 0,
            r is Transmit <==> wants_reply(s1),
            r matches Reply::Wake(ops) ==> ops@ == seq![Op::Wake],
            r matches Reply::Transmit(ops) ==> ops@ == reply_ops(self.spec_packet_addr()),
    {
        assert(s1 & 1 == s1 % 2) by (bit_vector);
        if s1 & 1 == 1 {
            let ops = [Op::Wake];
            assert(ops@ =~= seq![Op::Wake]);
            Reply::Wake(ops)
        } else {
            let ops = [
                Op::Write(Register::Shorts, transfer::shorts(true)),
                Op::Write(Register::PacketPtr, self.packet_addr),
                Op::Write(Register::EventsDisabled, 0),
                Op::Write(Register::IntenSet, transfer::int_disabled()),
                Op::DmaStartFence,
                Op::Write(Register::TasksTxEn, 1),
            ];
            assert(ops@ =~= reply_ops(self.packet_addr));
            Reply::Transmit(ops)
        }
    }
}

/// The radio's interrupt handler.
pub struct InterruptHandler;

impl InterruptHandler {
    /// Handles an interrupt of the radio, and takes whatever was published for it.
    ///
    /// An acknowledgement that is to be received goes before a reply.
    pub fn on_interrupt(state: &mut State) -> (r: Interrupt)
        ensures
            final(state).is_clear(),
            final(state).ack() is None,
            final(state).reply() is None,
            match old(state).ack() {
                Some(ack) => r matches Interrupt::Listen(ops, a) && a == ack && ops@ == listen_ops(ack),
                None => match old(state).reply() {
                    Some(packet_addr) => {
                        &&& r matches Interrupt::Received(ops, pending)
                        &&& ops@ == seq![Op::Write(Register::IntenClr, 0xFFFF_FFFF)]
                        &&& pending.spec_packet_addr() == packet_addr
                    },
                    None => r matches Interrupt::Wake(ops) && ops@ == seq![
                        Op::Write(Register::IntenClr, 0xFFFF_FFFF),
                        Op::Wake,
                    ],
                },
            },
    {
        let ack = state.ack;
        let reply = state.reply;
        state.clear();
        match ack {
            Some(ack) => {
                proof {
                    use_type_invariant(&ack);
                }
                let c = ack.channels;
                let ops = [
                    Op::Write(Register::IntenClr, 0xFFFF_FFFF),
                    Op::Write(Register::Shorts, transfer::shorts(true)),
                    Op::Write(Register::PacketPtr, ack.packet_addr),
                    Op::Write(Register::EventsReady, 0),
                    Op::Write(Register::EventsAddress, 0),
                    Op::Write(Register::TimerEventsCompare0, 0),
                    Op::Write(Register::PpiChEnClr, mask(&c)),
                    Op::Write(Register::PpiForkTep(c[0]), 0),
                    Op::WriteAddress(Register::PpiEep(c[0]), Register::EventsReady),
                    Op::WriteAddress(Register::PpiTep(c[0]), Register::TimerTasksStart),
                    Op::Write(Register::PpiForkTep(c[1]), 0),
                    Op::WriteAddress(Register::PpiEep(c[1]), Register::EventsAddress),
                    Op::WriteAddress(Register::PpiTep(c[1]), Register::TimerTasksStop),
                    Op::Write(Register::PpiForkTep(c[2]), 0),
                    Op::WriteAddress(Register::PpiEep(c[2]), Register::TimerEventsCompare0),
                    Op::WriteAddress(Register::PpiTep(c[2]), Register::TasksDisable),
                    Op::Write(Register::PpiChEnSet, mask(&c)),
                    Op::Write(Register::EventsEnd, 0),
                    Op::Write(Register::EventsDisabled, 0),
                    Op::Write(Register::IntenSet, transfer::int_disabled()),
                    Op::DmaStartFence,
                    Op::Write(Register::TasksRxEn, 1),
                ];
                assert(ops@ =~= listen_ops(ack));
                Interrupt::Listen(ops, ack)
            },
            None => match reply {
                Some(packet_addr) => {
                    let ops = [Op::Write(Register::IntenClr, 0xFFFF_FFFF)];
                    assert(ops@ =~= seq![Op::Write(Register::IntenClr, 0xFFFF_FFFF)]);
                    Interrupt::Received(ops, PendingReply { packet_addr })
                },
                None => {
                    let ops = [Op::Write(Register::IntenClr, 0xFFFF_FFFF), Op::Wake];
                    assert(ops@ =~= seq![Op::Write(Register::IntenClr, 0xFFFF_FFFF), Op::Wake]);
                    Interrupt::Wake(ops)
                },
            },
        }
    }
}

} // verus!
