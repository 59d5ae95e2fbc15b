//! What holds of the driver as a whole.

use vstd::prelude::*;

use crate::bits;
use crate::clock;
use crate::config::{Config, Crc};
use crate::exchange;
use crate::exchange::Exchange;
use crate::interrupt;
use crate::interrupt::AckSetup;
use crate::ops;
use crate::ops::{Op, Register, Written};
use crate::packet::Packet;
use crate::radio;
use crate::setup;
use crate::transfer;

verus! {

/// The packet identifier of the packet that is sent `n` packets after one that
/// gets `pid`.
pub open spec fn nth_pid(pid: int, n: nat) -> int
    decreases n,
{
    if n == 0 {
        pid
    } else {
        radio::next_pid(nth_pid(pid, (n - 1) as nat))
    }
}

/// Packet identifiers count up and start again after four packets.
pub proof fn lemma_pids_cycle(pid: int, n: nat)
    requires
        0 <= pid < 4,
    ensures
        nth_pid(pid, n) == (pid + n) % 4,
    decreases n,
{
    if n > 0 {
        lemma_pids_cycle(pid, (n - 1) as nat);
    }
}

/// No two of any four packets in a row have the same identifier.
pub proof fn lemma_pids_differ(pid: int, m: nat, n: nat)
    requires
        0 <= pid < 4,
        m < n < m + 4,
    ensures
        nth_pid(pid, m) != nth_pid(pid, n),
{
    lemma_pids_cycle(pid, m);
    lemma_pids_cycle(pid, n);
}

/// The S1 field of every packet that is sent holds the identifier and the flag, and fits
/// in the bits of it that go on air.
pub proof fn lemma_s1_fits(pid: int, no_ack: bool)
    requires
        0 <= pid < 4,
    ensures
        0 <= radio::s1_field(pid, no_ack) < vstd::arithmetic::power2::pow2(setup::s1_bits() as nat),
        radio::s1_field(pid, no_ack) < 8,
        radio::s1_field(pid, no_ack) / 2 == pid,
        radio::s1_field(pid, no_ack) % 2 == 1 <==> no_ack,
{
    vstd::arithmetic::power2::lemma2_to64();
}

/// The length of every payload that the radio is set up for fits in the bits of the
/// LENGTH field that go on air.
pub proof fn lemma_length_fits(config: Config, len: int)
    requires
        config.wf(),
        0 <= len <= config.max_payload_length,
    ensures
        len < vstd::arithmetic::power2::pow2(setup::length_bits(config.max_payload_length) as nat),
{
    vstd::arithmetic::power2::lemma2_to64();
}

/// The interrupt handler replies to a packet that was sent with an acknowledgement
/// in mind, and never to one that was not.
pub proof fn lemma_replies_as_asked(pid: int, no_ack: bool)
    requires
        0 <= pid < 4,
    ensures
        interrupt::wants_reply(radio::s1_field(pid, no_ack) as u8) == !no_ack,
{
}

/// Whatever the driver has done to the hardware, a fence before a transfer is
/// followed at once by a write to a register. And no fence after a transfer is among
/// the steps that start something: such fences come only as an answer to what was
/// read from a register.
pub proof fn lemma_fences_are_paired(
    config: Config,
    ack: AckSetup,
    address: u8,
    packet_addr: u32,
    reply_addr: u32,
)
    ensures
        transfer::fences_are_followed(setup::setup_ops(config)),
        transfer::has_no_end_fence(setup::setup_ops(config)),
        transfer::fences_are_followed(radio::send_ops(packet_addr, address)),
        transfer::has_no_end_fence(radio::send_ops(packet_addr, address)),
        transfer::fences_are_followed(radio::recv_ops(address, packet_addr, reply_addr)),
        transfer::has_no_end_fence(radio::recv_ops(address, packet_addr, reply_addr)),
        transfer::fences_are_followed(exchange::attempt_ops(packet_addr, address, ack)),
        transfer::has_no_end_fence(exchange::attempt_ops(packet_addr, address, ack)),
        transfer::fences_are_followed(exchange::start_ops()),
        transfer::has_no_end_fence(exchange::start_ops()),
        transfer::fences_are_followed(interrupt::listen_ops(ack)),
        transfer::has_no_end_fence(interrupt::listen_ops(ack)),
        transfer::fences_are_followed(interrupt::reply_ops(packet_addr)),
        transfer::has_no_end_fence(interrupt::reply_ops(packet_addr)),
{
}

/// The fields of the packet format do not overlap: each can be read back from the
/// words that are written, and every other bit of them is zero.
pub proof fn lemma_format_fields(max_payload_length: u8)
    ensures
        setup::pcnf0_word(max_payload_length) == 0x0003_0000 + if max_payload_length >= 32 {
            8int
        } else {
            6int
        },
        setup::pcnf1_word(max_payload_length) == 0x0104_0000 + max_payload_length,
        setup::pcnf0_word(max_payload_length) & 0x0f == setup::length_bits(max_payload_length),
        (setup::pcnf0_word(max_payload_length) >> 16) & 0x0f == setup::s1_bits(),
        setup::pcnf1_word(max_payload_length) & 0xff == max_payload_length,
        (setup::pcnf1_word(max_payload_length) >> 16) & 0x07 == 4,
        (setup::pcnf1_word(max_payload_length) >> 24) & 0x01 == 1,
{
    let l = setup::length_bits(max_payload_length) as u32;
    assert((l | (3u32 << 16)) == 0x0003_0000 + l && (l | (3u32 << 16)) & 0x0f == l && ((l | (3u32 << 16)) >> 16) & 0x0f == 3) by (bit_vector)
        requires
            l < 16,
    ;
    let m = max_payload_length as u32;
    assert((m | (4u32 << 16) | (1u32 << 24)) == 0x0104_0000 + m && (m | (4u32 << 16) | (1u32
        << 24)) & 0xff == m && ((m | (4u32 << 16) | (1u32 << 24)) >> 16)
        & 0x07 == 4 && ((m | (4u32 << 16) | (1u32 << 24)) >> 24) & 0x01 == 1) by (bit_vector)
        requires
            m < 256,
    ;
}

/// The checksum's polynomial has the degree that its length asks for, and its
/// initial value fills that length with ones.
pub proof fn lemma_crc_words_agree(crc: Crc)
    ensures
        setup::crcinit_word(crc) == vstd::arithmetic::power2::pow2(
            8 * setup::crccnf_word(crc) as nat,
        ) - 1,
        crc != Crc::Off ==> vstd::arithmetic::power2::pow2(8 * setup::crccnf_word(crc) as nat)
            <= setup::crcpoly_word(crc) < 2 * vstd::arithmetic::power2::pow2(
            8 * setup::crccnf_word(crc) as nat,
        ),
{
    vstd::arithmetic::power2::lemma2_to64();
}

/// A delay is never shorter than asked for, and less than one tick longer.
pub proof fn lemma_delay_rounds_up(micros: int)
    requires
        micros >= 0,
    ensures
        (clock::micros_in_ticks(micros) - 1) * 1_000_000 < micros * 32_768
            <= clock::micros_in_ticks(micros) * 1_000_000,
{
}

/// Shortening a packet keeps the front of its payload, and giving it its length
/// back brings back the whole of it.
pub proof fn lemma_set_len_keeps_payload(before: Packet, short: Packet, after: Packet, len: u8)
    requires
        before.wf(),
        len <= before.spec_len(),
        short.bytes() == before.bytes().update(0, len),
        after.bytes() == short.bytes().update(0, before.spec_len() as u8),
    ensures
        short@ == before@.take(len as int),
        after.bytes() == before.bytes(),
        after@ == before@,
{
    assert(short@ =~= before@.take(len as int));
    assert(after.bytes() =~= before.bytes());
}

/// The values of the words that are put together from single bits.
proof fn lemma_bit_words()
    ensures
        transfer::int_end_word() == 8,
        transfer::int_disabled_word() == 16,
        transfer::int_crcok_word() == 4096,
        exchange::timer_shorts_word() == 257,
{
    assert(1u32 << 3 == 8 && 1u32 << 4 == 16 && 1u32 << 12 == 4096 && (1u32 << 0) | (1u32 << 8)
        == 257) by (bit_vector);
}

/// For every setting, what the radio is set up with is what the setting says, and
/// nothing else: the whole code of the output power, the modulation, the format, the
/// longest payload, the addresses and the checksum. The radio is switched off and on
/// before anything else, and its interrupts are masked before it may interrupt.
pub proof fn lemma_setup(config: Config)
    ensures
        ({
            let ops = setup::setup_ops(config);
            &&& ops.len() == 18
            &&& ops[0] == Op::Write(Register::Power, 0)
            &&& ops[1] == Op::Write(Register::Power, 1)
            &&& ops::holds(ops, Register::Power, 1)
            &&& ops::holds(ops, Register::Frequency, 2)
            &&& ops::holds(ops, Register::TxPower, config.tx_output_power as int)
            &&& config.bitrate is Esb1Mbps ==> ops::holds(ops, Register::Mode, 0)
            &&& config.bitrate is Esb2Mbps ==> ops::holds(ops, Register::Mode, 1)
            &&& config.bitrate is Ble1Mbps ==> ops::holds(ops, Register::Mode, 3)
            &&& config.max_payload_length >= 32 ==> ops::holds(ops, Register::Pcnf0, 0x0003_0008)
            &&& config.max_payload_length < 32 ==> ops::holds(ops, Register::Pcnf0, 0x0003_0006)
            &&& ops::holds(ops, Register::Pcnf1, 0x0104_0000 + config.max_payload_length)
            &&& ops::holds(ops, Register::Base0, 0xE7E7_E7E7)
            &&& ops::holds(ops, Register::Base1, 0x4343_4343)
            &&& ops::holds(ops, Register::Prefix0, 0x23C3_43E7)
            &&& ops::holds(ops, Register::Prefix1, 0x13E3_63A3)
            &&& config.crc is Crc16Bit ==> ops::holds(ops, Register::CrcCnf, 2) && ops::holds(
                ops,
                Register::CrcPoly,
                0x1_1021,
            ) && ops::holds(ops, Register::CrcInit, 0xFFFF)
            &&& config.crc is Crc8Bit ==> ops::holds(ops, Register::CrcCnf, 1) && ops::holds(
                ops,
                Register::CrcPoly,
                0x107,
            ) && ops::holds(ops, Register::CrcInit, 0xFF)
            &&& config.crc is Off ==> ops::holds(ops, Register::CrcCnf, 0) && ops::holds(
                ops,
                Register::CrcPoly,
                0,
            ) && ops::holds(ops, Register::CrcInit, 0)
            &&& config.use_fast_ramp_up ==> ops::holds(ops, Register::ModeCnf0, 1)
            &&& !config.use_fast_ramp_up ==> ops::holds(ops, Register::ModeCnf0, 0)
            &&& ops::holds(ops, Register::IntenClr, 0xFFFF_FFFF)
            &&& ops[15] == Op::Write(Register::IntenClr, 0xFFFF_FFFF)
            &&& ops[16] is UnpendInterrupt
            &&& ops[17] is EnableInterrupt
        }),
{
    lemma_format_fields(config.max_payload_length);
    reveal_with_fuel(ops::written_by, 19);
}

/// Settings that differ in the output power, in the modulation, in the longest payload,
/// in the checksum or in the ramp-up set up the radio differently.
pub proof fn lemma_setup_tells_settings_apart(a: Config, b: Config)
    requires
        setup::setup_ops(a) == setup::setup_ops(b),
    ensures
        a.tx_output_power == b.tx_output_power,
        a.bitrate == b.bitrate,
        a.max_payload_length == b.max_payload_length,
        a.crc == b.crc,
        a.use_fast_ramp_up == b.use_fast_ramp_up,
{
    lemma_setup(a);
    lemma_setup(b);
}

/// Once a packet is being sent without an acknowledgement in mind, the radio reads the
/// packet that was given, sends it to the address that was given, starts when it is
/// ready, switches off at the end, and interrupts when it is off, of which no earlier
/// event is left. Nothing else about it is changed.
pub proof fn lemma_send(packet_addr: u32, address: u8)
    ensures
        ({
            let ops = radio::send_ops(packet_addr, address);
            &&& ops.len() == 7
            &&& ops::holds(ops, Register::PacketPtr, packet_addr as int)
            &&& ops::holds(ops, Register::TxAddress, address as int)
            &&& ops::holds(ops, Register::Shorts, 3)
            &&& ops::holds(ops, Register::IntenSet, 16)
            &&& ops::holds(ops, Register::EventsDisabled, 0)
            &&& ops::ends_with_start(ops, Register::TasksTxEn)
        }),
{
    lemma_bit_words();
    reveal_with_fuel(ops::written_by, 8);
}

/// Once a packet is being received, the radio writes to the memory that was given,
/// listens on exactly the logical addresses of the mask, and interrupts when a packet
/// with a right checksum is in; neither of the events that are looked at is left from
/// before, and the reply is published before there can be an interrupt. Nothing else
/// about the radio is changed.
pub proof fn lemma_recv(address_mask: u8, packet_addr: u32, reply_addr: u32, k: u32)
    requires
        k < 32,
    ensures
        ({
            let ops = radio::recv_ops(address_mask, packet_addr, reply_addr);
            &&& ops.len() == 9
            &&& ops::holds(ops, Register::PacketPtr, packet_addr as int)
            &&& ops::written_by(ops, Register::RxAddresses, 9) matches Some(Written::Word(w)) && {
                &&& w < 256
                &&& (w >> k) & 1 == 1 <==> k < 8 && (address_mask >> k as u8) & 1 == 1
            }
            &&& ops::holds(ops, Register::Shorts, 1)
            &&& ops::holds(ops, Register::EventsCrcOk, 0)
            &&& ops::holds(ops, Register::EventsEnd, 0)
            &&& ops::holds(ops, Register::IntenSet, 4096)
            &&& ops::precedes(ops, Register::EventsCrcOk, Register::IntenSet)
            &&& ops::precedes(ops, Register::EventsEnd, Register::IntenSet)
            &&& exists|i: int|
                #![trigger ops[i]]
                0 <= i < ops.len() && ops[i] == Op::PublishReply(reply_addr) && forall|j: int|
                    0 <= j < ops.len() && ops::writes(#[trigger] ops[j], Register::IntenSet) ==> i
                        < j
            &&& ops::ends_with_start(ops, Register::TasksRxEn)
        }),
{
    let ops = radio::recv_ops(address_mask, packet_addr, reply_addr);
    lemma_bit_words();
    reveal_with_fuel(ops::written_by, 10);
    let w = address_mask as u32;
    let b = k as u8;
    assert((w >> k) & 1 == 1 <==> k < 8 && (address_mask >> b) & 1 == 1) by (bit_vector)
        requires
            k < 32,
            w == address_mask,
            b == k,
    ;
    assert(ops[5] == Op::PublishReply(reply_addr));
}

/// A reception with only one address in its mask is on the address that a transmission
/// to that address goes to, whether or not an acknowledgement is wanted, and the
/// acknowledgement is listened for on that address and on no other.
pub proof fn lemma_listens_where_it_sends(
    address: u8,
    packet_addr: u32,
    reply_addr: u32,
    ack: AckSetup,
)
    requires
        address < 8,
    ensures
        ops::holds(radio::send_ops(packet_addr, address), Register::TxAddress, address as int),
        ops::holds(
            exchange::attempt_ops(packet_addr, address, ack),
            Register::TxAddress,
            address as int,
        ),
        ops::holds(
            exchange::attempt_ops(packet_addr, address, ack),
            Register::RxAddresses,
            vstd::arithmetic::power2::pow2(address as nat) as int,
        ),
        ops::holds(
            radio::recv_ops(
                vstd::arithmetic::power2::pow2(address as nat) as u8,
                packet_addr,
                reply_addr,
            ),
            Register::RxAddresses,
            vstd::arithmetic::power2::pow2(address as nat) as int,
        ),
{
    vstd::arithmetic::power2::lemma2_to64();
    let a = address as u32;
    assert((a == 0 ==> 1u32 << a == 1) && (a == 1 ==> 1u32 << a == 2) && (a == 2 ==> 1u32 << a
        == 4) && (a == 3 ==> 1u32 << a == 8) && (a == 4 ==> 1u32 << a == 16) && (a == 5 ==> 1u32
        << a == 32) && (a == 6 ==> 1u32 << a == 64) && (a == 7 ==> 1u32 << a == 128))
        by (bit_vector);
    reveal_with_fuel(ops::written_by, 13);
}

/// For every attempt, the radio reads the packet that was given, sends it to the address
/// that was given, starts when it is ready, stays on at the end, and interrupts at the
/// end, of which no earlier event is left; the reception of the acknowledgement is
/// published before there can be an interrupt. The timer, at 16 MHz divided by two to the
/// power of its prescaler, is at zero, stops after 300 microseconds and is then cleared,
/// and no earlier event of it is left either. Nothing else is changed, and the radio is
/// not started yet.
pub proof fn lemma_attempt(packet_addr: u32, address: u8, ack: AckSetup)
    ensures
        ({
            let ops = exchange::attempt_ops(packet_addr, address, ack);
            &&& ops.len() == 12
            &&& ops::holds(ops, Register::PacketPtr, packet_addr as int)
            &&& ops::holds(ops, Register::TxAddress, address as int)
            &&& address < 8 ==> ops::holds(
                ops,
                Register::RxAddresses,
                vstd::arithmetic::power2::pow2(address as nat) as int,
            )
            &&& ops::holds(ops, Register::Shorts, 1)
            &&& ops::holds(ops, Register::EventsEnd, 0)
            &&& ops::holds(ops, Register::IntenSet, 8)
            &&& ops::holds(ops, Register::TimerShorts, 257)
            &&& ops::holds(ops, Register::TimerCc0, 300)
            &&& ops::holds(ops, Register::TimerPrescaler, 4)
            &&& ops::holds(ops, Register::TimerEventsCompare0, 0)
            &&& ops::holds(ops, Register::TimerTasksClear, 1)
            &&& exists|i: int|
                #![trigger ops[i]]
                0 <= i < ops.len() && ops[i] == Op::PublishAck(ack) && forall|j: int|
                    0 <= j < ops.len() && ops::writes(#[trigger] ops[j], Register::IntenSet) ==> i
                        < j
            &&& ops::precedes(ops, Register::EventsEnd, Register::IntenSet)
            &&& ops::untouched(ops, Register::TasksTxEn)
            &&& ops::untouched(ops, Register::TasksRxEn)
            &&& exchange::start_ops().len() == 2
            &&& ops::ends_with_start(exchange::start_ops(), Register::TasksTxEn)
        }),
{
    let ops = exchange::attempt_ops(packet_addr, address, ack);
    lemma_bit_words();
    reveal_with_fuel(ops::written_by, 13);
    if address < 8 {
        lemma_listens_where_it_sends(address, packet_addr, 0, ack);
    }
    assert(ops[10] == Op::PublishAck(ack));
}

/// Every attempt of an exchange sends the packet of that exchange to its address, listens
/// for the acknowledgement on that address alone, and has it received as the exchange says.
pub proof fn lemma_exchange_attempt(exchange: Exchange)
    requires
        exchange.address() < 8,
    ensures
        ({
            let ops = exchange.ops();
            &&& ops.len() == 12
            &&& ops::holds(ops, Register::PacketPtr, exchange.packet_addr() as int)
            &&& ops::holds(ops, Register::TxAddress, exchange.address() as int)
            &&& ops::holds(
                ops,
                Register::RxAddresses,
                vstd::arithmetic::power2::pow2(exchange.address() as nat) as int,
            )
            &&& exists|i: int|
                #![trigger ops[i]]
                0 <= i < ops.len() && ops[i] == Op::PublishAck(exchange.ack())
        }),
{
    lemma_attempt(exchange.packet_addr(), exchange.address(), exchange.ack());
}

/// Once an acknowledgement is listened for, the radio writes to the memory that was
/// published for it, and three PPI channels watch over it. Whatever the channels are,
/// the third switches the radio off when the timer runs out; where they are distinct, the
/// second stops the timer when an address comes in, and the first starts it when the
/// receiver is ready. No other channel is wired, and none of the three triggers a second
/// task.
pub proof fn lemma_listen_wiring(ack: AckSetup, other: usize)
    ensures
        ({
            let ops = interrupt::listen_ops(ack);
            let c = ack.spec_channels();
            &&& ops::holds_address(ops, Register::PpiEep(c[2]), Register::TimerEventsCompare0)
            &&& ops::holds_address(ops, Register::PpiTep(c[2]), Register::TasksDisable)
            &&& c[1] != c[2] ==> ops::holds_address(
                ops,
                Register::PpiEep(c[1]),
                Register::EventsAddress,
            ) && ops::holds_address(ops, Register::PpiTep(c[1]), Register::TimerTasksStop)
            &&& c[0] != c[1] && c[0] != c[2] ==> ops::holds_address(
                ops,
                Register::PpiEep(c[0]),
                Register::EventsReady,
            ) && ops::holds_address(ops, Register::PpiTep(c[0]), Register::TimerTasksStart)
            &&& ops::holds(ops, Register::PpiForkTep(c[0]), 0)
            &&& ops::holds(ops, Register::PpiForkTep(c[1]), 0)
            &&& ops::holds(ops, Register::PpiForkTep(c[2]), 0)
            &&& other != c[0] && other != c[1] && other != c[2] ==> ops::untouched(
                ops,
                Register::PpiEep(other),
            ) && ops::untouched(ops, Register::PpiTep(other)) && ops::untouched(
                ops,
                Register::PpiForkTep(other),
            )
            &&& ops::precedes(ops, Register::PpiChEnClr, Register::PpiEep(other))
            &&& ops::precedes(ops, Register::PpiChEnClr, Register::PpiTep(other))
            &&& ops::precedes(ops, Register::PpiEep(other), Register::PpiChEnSet)
            &&& ops::precedes(ops, Register::PpiTep(other), Register::PpiChEnSet)
            &&& ops::precedes(ops, Register::PpiForkTep(other), Register::PpiChEnSet)
        }),
{
    reveal_with_fuel(ops::written_by, 23);
}

/// Exactly the three channels that were published are switched off before they are
/// rewired and on after it.
pub proof fn lemma_listen_channels(ack: AckSetup, n: u32)
    requires
        n < 32,
        ack.spec_channels()[0] < interrupt::PPI_CHANNELS,
        ack.spec_channels()[1] < interrupt::PPI_CHANNELS,
        ack.spec_channels()[2] < interrupt::PPI_CHANNELS,
    ensures
        ({
            let ops = interrupt::listen_ops(ack);
            let c = ack.spec_channels();
            &&& ops::written_by(ops, Register::PpiChEnClr, 22) matches Some(Written::Word(w)) && (
            (w >> n) & 1 == 1 <==> n == c[0] || n == c[1] || n == c[2])
            &&& ops::written_by(ops, Register::PpiChEnSet, 22) matches Some(Written::Word(w)) && (
            (w >> n) & 1 == 1 <==> n == c[0] || n == c[1] || n == c[2])
        }),
{
    reveal_with_fuel(ops::written_by, 23);
    let c0 = ack.spec_channels()[0] as u32;
    let c1 = ack.spec_channels()[1] as u32;
    let c2 = ack.spec_channels()[2] as u32;
    let w = (1u32 << c0) | (1u32 << c1) | (1u32 << c2);
    assert((w >> n) & 1 == 1 <==> n == c0 || n == c1 || n == c2) by (bit_vector)
        requires
            n < 32,
            c0 < 32,
            c1 < 32,
            c2 < 32,
            w == (1u32 << c0) | (1u32 << c1) | (1u32 << c2),
    ;
}

/// Once an acknowledgement is listened for, the radio writes to the memory that was
/// published for it, starts when it is ready, switches off at the end, and interrupts
/// when it is off and at no other event; none of the events that are looked at or that
/// drive a channel is left from before. Beyond that only the channels are touched.
pub proof fn lemma_listen(ack: AckSetup)
    ensures
        ({
            let ops = interrupt::listen_ops(ack);
            &&& ops.len() == 22
            &&& ops::holds(ops, Register::PacketPtr, ack.spec_packet_addr() as int)
            &&& ops::holds(ops, Register::Shorts, 3)
            &&& ops::holds(ops, Register::IntenClr, 0xFFFF_FFFF)
            &&& ops::holds(ops, Register::IntenSet, 16)
            &&& ops::precedes(ops, Register::IntenClr, Register::IntenSet)
            &&& ops::holds(ops, Register::EventsReady, 0)
            &&& ops::holds(ops, Register::EventsAddress, 0)
            &&& ops::holds(ops, Register::EventsEnd, 0)
            &&& ops::holds(ops, Register::EventsDisabled, 0)
            &&& ops::holds(ops, Register::TimerEventsCompare0, 0)
            &&& ops::precedes(ops, Register::EventsReady, Register::PpiChEnSet)
            &&& ops::precedes(ops, Register::EventsAddress, Register::PpiChEnSet)
            &&& ops::precedes(ops, Register::TimerEventsCompare0, Register::PpiChEnSet)
            &&& ops::precedes(ops, Register::EventsDisabled, Register::IntenSet)
            &&& ops::ends_with_start(ops, Register::TasksRxEn)
            &&& forall|i: int|
                0 <= i < 20 ==> match #[trigger] ops[i] {
                    Op::Write(r, _) => r is PacketPtr || r is Shorts || r is IntenClr
                        || r is IntenSet || r is EventsReady || r is EventsAddress || r is EventsEnd
                        || r is EventsDisabled || r is TimerEventsCompare0 || r is PpiChEnClr
                        || r is PpiChEnSet || r is PpiForkTep,
                    Op::WriteAddress(r, _) => r is PpiEep || r is PpiTep,
                    _ => false,
                }
        }),
{
    lemma_bit_words();
    reveal_with_fuel(ops::written_by, 23);
}

/// Once a reply is being sent, the radio reads the packet that was published for it,
/// starts when it is ready, switches off at the end, and interrupts when it is off, of
/// which no earlier event is left. Nothing else about it is changed.
pub proof fn lemma_reply(packet_addr: u32)
    ensures
        ({
            let ops = interrupt::reply_ops(packet_addr);
            &&& ops.len() == 6
            &&& ops::holds(ops, Register::PacketPtr, packet_addr as int)
            &&& ops::holds(ops, Register::Shorts, 3)
            &&& ops::holds(ops, Register::EventsDisabled, 0)
            &&& ops::holds(ops, Register::IntenSet, 16)
            &&& ops::precedes(ops, Register::EventsDisabled, Register::IntenSet)
            &&& ops::ends_with_start(ops, Register::TasksTxEn)
        }),
{
    lemma_bit_words();
    reveal_with_fuel(ops::written_by, 7);
}

/// Whatever packet has come in, it is replied to if and only if it does not say that its
/// sender wants no acknowledgement, which the lowest bit of its S1 field says.
pub proof fn lemma_reply_follows_flag(packet: Packet)
    ensures
        interrupt::wants_reply(packet.bytes()[1]) == !packet.spec_no_ack(),
        interrupt::wants_reply(packet.bytes()[1]) <==> packet.bytes()[1] % 2 == 0,
{
}

/// An attempt counts as acknowledged if and only if EVENTS_END is 1 and the lowest bit of
/// CRCSTATUS is set, whatever its other bits are.
pub proof fn lemma_acknowledged(events_end: u32, crcstatus: u32)
    ensures
        exchange::acknowledged(events_end, crcstatus) <==> events_end == 1 && crcstatus % 2 == 1,
{
    assert(crcstatus & 1 == crcstatus % 2) by (bit_vector);
}

} // verus!
