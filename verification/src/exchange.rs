//! Sending a packet until it is acknowledged.
//!
//! An [`Exchange`] hands out attempts until one is acknowledged or none is left.
//! An attempt goes through [`Programmed`], when the registers are written and the
//! clock is to be read, and [`OnAir`], when the packet is on its way.

use vstd::prelude::*;

use crate::error::Error;
use crate::interrupt::AckSetup;
use crate::ops::{Op, Register};
use crate::packet::Packet;
use crate::regs;
use crate::transfer;

verus! {

/// The packet to send, and the attempts that are left for it.
#[derive(Clone, Copy, Debug)]
pub struct Exchange {
    left: u16,
    delay: u64,
    packet_addr: u32,
    address: u8,
    ack: AckSetup,
}

/// An attempt whose registers are written.
#[derive(Clone, Copy, Debug)]
pub struct Programmed {
    rest: Exchange,
}

/// An attempt that is on air.
#[derive(Clone, Copy, Debug)]
pub struct OnAir {
    rest: Exchange,
    retransmit_at: u64,
}

/// How an attempt ended.
#[derive(Clone, Copy, Debug)]
pub enum Outcome {
    /// This valid acknowledgement has come in.
    Acked(Packet),
    /// There was none. Sleep until `at`, and go on with `rest`.
    Retry { at: u64, rest: Exchange },
}

/// The TIMER SHORTS word: compare channel 0 stops and clears the timer.
pub open spec fn timer_shorts_word() -> u32 {
    (1u32 << 0) | (1u32 << 8)
}

/// What is done for one attempt, up to the reading of the clock.
///
/// The timer, of which one tick is a microsecond (16 MHz divided by 2^4), is set
/// to run out after 300 of them.
pub open spec fn attempt_ops(packet_addr: u32, address: u8, ack: AckSetup) -> Seq<Op> {
    seq![
        Op::Write(Register::TimerShorts, timer_shorts_word()),
        Op::Write(Register::TimerCc0, 300),
        Op::Write(Register::TimerPrescaler, 4),
        Op::Write(Register::TimerEventsCompare0, 0),
        Op::Write(Register::TimerTasksClear, 1),
        Op::Write(Register::PacketPtr, packet_addr),
        Op::Write(Register::TxAddress, address as u32),
        Op::Write(Register::RxAddresses, 1u32 << (address as u32)),
        Op::Write(Register::Shorts, transfer::shorts_word(false)),
        Op::Write(Register::EventsEnd, 0),
        Op::PublishAck(ack),
        Op::Write(Register::IntenSet, transfer::int_end_word()),
    ]
}

/// What puts an attempt on air.
pub open spec fn start_ops() -> Seq<Op> {
    seq![Op::DmaStartFence, Op::Write(Register::TasksTxEn, 1)]
}

/// Whether an attempt was acknowledged: EVENTS_END is set, and the checksum of
/// the packet that was received is right.
pub open spec fn acknowledged(events_end: u32, crcstatus: u32) -> bool {
    events_end == 1 && crcstatus & 1 == 1
}

/// The TIMER SHORTS word.
fn timer_shorts() -> (w: u32)
    ensures
        w == timer_shorts_word(),
{
    let w0: u32 = regs::timer_compare_stop(0, 0, true);
    let w1: u32 = regs::timer_compare_clear(w0, 0, true);
    assert(w1 == (1u32 << 0) | (1u32 << 8)) by (bit_vector)
        requires
            w0 == regs::with_field(0, 0x01, 8, 1),
            w1 == regs::with_field(w0, 0x01, 0, 1),
    ;
    w1
}

/// The TIMER PRESCALER word for one microsecond per tick.
fn timer_prescaler() -> (w: u32)
    ensures
        w == 4,
{
    let w: u32 = regs::timer_prescaler(0, 4);
    assert(w == 4) by (bit_vector)
        requires
            w == regs::with_field(0, 0x0f, 0, 4),
    ;
    w
}

impl Exchange {
    #[verifier::type_invariant]
    spec fn inv(self) -> bool {
        self.address < 8
    }

    /// How many attempts are left.
    pub closed spec fn attempts_left(&self) -> nat {
        self.left as nat
    }

    /// How long after its start an attempt is repeated, in ticks.
    pub closed spec fn delay(&self) -> u64 {
        self.delay
    }

    /// The address of the packet to send.
    pub closed spec fn packet_addr(&self) -> u32 {
        self.packet_addr
    }

    /// The logical address to send to.
    pub closed spec fn address(&self) -> u8 {
        self.address
    }

    /// How the acknowledgement is received.
    pub closed spec fn ack(&self) -> AckSetup {
        self.ack
    }

    /// What is done for the next attempt, up to the reading of the clock.
    pub open spec fn ops(&self) -> Seq<Op> {
        attempt_ops(self.packet_addr(), self.address(), self.ack())
    }

    /// `self` and `other` send the same packet in the same way.
    pub open spec fn same_packet(&self, other: Exchange) -> bool {
        &&& self.delay() == other.delay()
        &&& self.packet_addr() == other.packet_addr()
        &&& self.address() == other.address()
        &&& self.ack() == other.ack()
    }

    /// What is left of the exchange after one attempt.
    pub closed spec fn after_attempt(&self) -> Exchange {
        Exchange { left: (self.left - 1) as u16, ..*self }
    }

    /// Sends the packet at `packet_addr` to `address`, at most `attempts` times.
    pub(crate) fn new(
        attempts: u16,
        delay: u64,
        packet_addr: u32,
        address: u8,
        ack: AckSetup,
    ) -> (r: Self)
        requires
            address < 8,
        ensures
            r.attempts_left() == attempts,
            r.delay() == delay,
            r.packet_addr() == packet_addr,
            r.address() == address,
            r.ack() == ack,
    {
        Exchange { left: attempts, delay, packet_addr, address, ack }
    }

    /// Begins the next attempt, or fails where none is left.
    pub fn begin(self) -> (r: Result<(Programmed, [Op; 12]), Error>)
        ensures
            match r {
                Ok((attempt, ops)) => {
                    &&& self.attempts_left() > 0
                    &&& ops@ == attempt_ops(self.packet_addr(), self.address(), self.ack())
                    &&& ops@ == self.ops()
                    &&& attempt.rest() == self.after_attempt()
                    &&& attempt.rest().attempts_left() == self.attempts_left() - 1
                    &&& attempt.rest().same_packet(self)
                    &&& attempt.rest().delay() == self.delay()
                    &&& attempt.rest().packet_addr() == self.packet_addr()
                    &&& attempt.rest().address() == self.address()
                    &&& attempt.rest().ack() == self.ack()
                },
                Err(e) => self.attempts_left() == 0 && e == Error::MaxRetryExceeded,
            },
    {
        proof {
            use_type_invariant(&self);
        }
        if self.left == 0 {
            return Err(Error::MaxRetryExceeded);
        }
        let ops = [
            Op::Write(Register::TimerShorts, timer_shorts()),
            Op::Write(Register::TimerCc0, 300),
            Op::Write(Register::TimerPrescaler, timer_prescaler()),
            Op::Write(Register::TimerEventsCompare0, 0),
            Op::Write(Register::TimerTasksClear, 1),
            Op::Write(Register::PacketPtr, self.packet_addr),
            Op::Write(Register::TxAddress, transfer::tx_address(self.address)),
            Op::Write(Register::RxAddresses, 1u32 << (self.address as u32)),
            Op::Write(Register::Shorts, transfer::shorts(false)),
            Op::Write(Register::EventsEnd, 0),
            Op::PublishAck(self.ack),
            Op::Write(Register::IntenSet, transfer::int_end()),
        ];
        assert(ops@ =~= self.ops());
        let rest = Exchange {
            left: self.left - 1,
            delay: self.delay,
            packet_addr: self.packet_addr,
            address: self.address,
            ack: self.ack,
        };
        Ok((Programmed { rest }, ops))
    }
}

impl Programmed {
    /// What is left of the exchange after this attempt.
    pub closed spec fn rest(&self) -> Exchange {
        self.rest
    }

    /// Puts the attempt on air at the time `now`.
    pub fn start(self, now: u64) -> (r: (OnAir, [Op; 2]))
        requires
            now + self.rest().delay() <= u64::MAX,
        ensures
            r.0.rest() == self.rest(),
            r.0.retransmit_at() == now + self.rest().delay(),
            r.1@ == start_ops(),
    {
        let retransmit_at: u64 = crate::clock::add(now, self.rest.delay);
        let ops = [Op::DmaStartFence, Op::Write(Register::TasksTxEn, 1)];
        assert(ops@ =~= start_ops());
        (OnAir { rest: self.rest, retransmit_at }, ops)
    }
}

impl OnAir {
    /// What is left of the exchange after this attempt.
    pub closed spec fn rest(&self) -> Exchange {
        self.rest
    }

    /// When the packet is sent again, unless it is acknowledged.
    pub closed spec fn retransmit_at(&self) -> u64 {
        self.retransmit_at
    }

    /// What is done before the radio is switched off, if the attempt is given up
    /// while it is on air.
    pub fn abort(&self) -> (r: [Op; 1])
        ensures
            r@ == seq![Op::Write(Register::TimerTasksStop, 1)],
    {
        let ops = [Op::Write(Register::TimerTasksStop, 1)];
        assert(ops@ =~= seq![Op::Write(Register::TimerTasksStop, 1)]);
        ops
    }

    /// Ends the attempt, once the radio has switched off, by what its EVENTS_END
    /// and CRCSTATUS registers then read, and with what it has left in `received`.
    pub fn settle(self, events_end: u32, crcstatus: u32, received: &Packet) -> (r: Outcome)
        ensures
            r is Acked <==> events_end == 1 && crcstatus % 2 == 1,
            r is Acked <==> acknowledged(events_end, crcstatus),
            r matches Outcome::Acked(packet) ==> packet == *received,
            r matches Outcome::Retry { at, rest } ==> at == self.retransmit_at() && rest
                == self.rest(),
    {
        assert(crcstatus & 1 == crcstatus % 2) by (bit_vector);
        if events_end == 1 && regs::crcstatus_ok(crcstatus) {
            Outcome::Acked(*received)
        } else {
            Outcome::Retry { at: self.retransmit_at, rest: self.rest }
        }
    }
}

/// One attempt takes one from the attempts that are left, and keeps the packet.
pub proof fn lemma_after_attempt(exchange: Exchange)
    requires
        exchange.attempts_left() > 0,
    ensures
        exchange.after_attempt().attempts_left() == exchange.attempts_left() - 1,
        exchange.after_attempt().same_packet(exchange),
{
}

/// What is left of the exchange after `n` attempts.
pub open spec fn after_attempts(exchange: Exchange, n: nat) -> Exchange
    decreases n,
{
    if n == 0 {
        exchange
    } else {
        after_attempts(exchange, (n - 1) as nat).after_attempt()
    }
}

/// Every attempt sends the packet from the same memory, to the same address and with
/// the same registers as the first, and the attempts end after as many as were left.
pub proof fn lemma_attempts_are_alike(exchange: Exchange, n: nat)
    requires
        n <= exchange.attempts_left(),
    ensures
        after_attempts(exchange, n).attempts_left() == exchange.attempts_left() - n,
        after_attempts(exchange, n).same_packet(exchange),
        after_attempts(exchange, n).delay() == exchange.delay(),
        after_attempts(exchange, n).packet_addr() == exchange.packet_addr(),
        after_attempts(exchange, n).address() == exchange.address(),
        after_attempts(exchange, n).ack() == exchange.ack(),
        after_attempts(exchange, n).ops() == exchange.ops(),
    decreases n,
{
    if n > 0 {
        lemma_attempts_are_alike(exchange, (n - 1) as nat);
        lemma_after_attempt(after_attempts(exchange, (n - 1) as nat));
    }
}

/// How the exchange ends when its attempts end with these EVENTS_END and CRCSTATUS
/// words, or `None` if it then still goes on.
pub open spec fn verdict(exchange: Exchange, ends: Seq<(u32, u32)>) -> Option<Result<(), Error>>
    decreases ends.len(),
{
    if exchange.attempts_left() == 0 {
        Some(Err(Error::MaxRetryExceeded))
    } else if ends.len() == 0 {
        None
    } else if acknowledged(ends[0].0, ends[0].1) {
        Some(Ok(()))
    } else {
        verdict(exchange.after_attempt(), ends.skip(1))
    }
}

/// One of the first `n` attempts was acknowledged.
pub open spec fn acknowledged_within(ends: Seq<(u32, u32)>, n: nat) -> bool {
    exists|i: int|
        0 <= i < ends.len() && i < n && acknowledged((#[trigger] ends[i]).0, ends[i].1)
}

/// A packet is delivered if and only if one of the attempts that it has is
/// acknowledged. The exchange fails if and only if it has made all of them and none
/// was acknowledged.
pub proof fn lemma_delivered_iff_acknowledged(exchange: Exchange, ends: Seq<(u32, u32)>)
    ensures
        verdict(exchange, ends) == Some(Ok::<(), Error>(())) <==> acknowledged_within(
            ends,
            exchange.attempts_left(),
        ),
        verdict(exchange, ends) == Some(Err::<(), Error>(Error::MaxRetryExceeded))
            <==> exchange.attempts_left() <= ends.len() && !acknowledged_within(
            ends,
            exchange.attempts_left(),
        ),
    decreases ends.len(),
{
    let n = exchange.attempts_left();
    if n > 0 && ends.len() > 0 && !acknowledged(ends[0].0, ends[0].1) {
        let rest = ends.skip(1);
        lemma_after_attempt(exchange);
        lemma_delivered_iff_acknowledged(exchange.after_attempt(), rest);
        if acknowledged_within(ends, n) {
            let i = choose|i: int|
                0 <= i < ends.len() && i < n && acknowledged((#[trigger] ends[i]).0, ends[i].1);
            assert(rest[i - 1] == ends[i]);
        }
        if acknowledged_within(rest, (n - 1) as nat) {
            let i = choose|i: int|
                0 <= i < rest.len() && i < n - 1 && acknowledged((#[trigger] rest[i]).0, rest[i].1);
            assert(ends[i + 1] == rest[i]);
        }
    }
}

} // verus!
