//! The words that set up the radio.

use vstd::prelude::*;

use crate::bits;
use crate::config::{Bitrate, Config, Crc};
use crate::ops::{Op, Register};
use crate::regs;
use crate::regs::{
    AddressCrc, BitOrder, ChannelMap, CrcLen, DefaultTx, LengthCrc, Preamble, RadioMode, RampUp,
};

verus! {

/// The base address of logical address 0, in the order in which it is sent.
pub const BASE_ADDRESS_0: u32 = 0xE7E7_E7E7;

/// The base address of the other logical addresses, in the order in which it is sent.
pub const BASE_ADDRESS_1: u32 = 0xC2C2_C2C2;

/// The MODE word: the code of the modulation.
pub open spec fn mode_word(bitrate: Bitrate) -> u32 {
    match bitrate {
        Bitrate::Esb1Mbps => 0,
        Bitrate::Esb2Mbps => 1,
        Bitrate::Ble1Mbps => 3,
    }
}

/// How many bits of the LENGTH field are sent.
pub open spec fn length_bits(max_payload_length: u8) -> u8 {
    if max_payload_length >= 32 {
        8
    } else {
        6
    }
}

/// How many bits of the S1 field are sent.
pub open spec fn s1_bits() -> u8 {
    3
}

/// The PCNF0 word: LFLEN in bits 0 to 3, S1LEN in bits 16 to 19, and zero in
/// every other field (no S0, no CI, an eight-bit preamble, a LENGTH that counts
/// no checksum, no TERM).
pub open spec fn pcnf0_word(max_payload_length: u8) -> u32 {
    (length_bits(max_payload_length) as u32) | ((s1_bits() as u32) << 16)
}

/// The PCNF1 word: MAXLEN in bits 0 to 7, BALEN (four bytes of base address) in
/// bits 16 to 18, the most significant bit on air first, no static length and no
/// whitening.
pub open spec fn pcnf1_word(max_payload_length: u8) -> u32 {
    (max_payload_length as u32) | (4u32 << 16) | (1u32 << 24)
}

/// The CRCCNF word: the checksum's length in bytes; it covers the address.
pub open spec fn crccnf_word(crc: Crc) -> u32 {
    match crc {
        Crc::Crc16Bit => 2,
        Crc::Crc8Bit => 1,
        Crc::Off => 0,
    }
}

/// The CRCPOLY word: x^16 + x^12 + x^5 + 1, or x^8 + x^2 + x + 1.
pub open spec fn crcpoly_word(crc: Crc) -> u32 {
    match crc {
        Crc::Crc16Bit => 0b1_0001_0000_0010_0001,
        Crc::Crc8Bit => 0b1_0000_0111,
        Crc::Off => 0,
    }
}

/// The CRCINIT word: all ones, over the checksum's length.
pub open spec fn crcinit_word(crc: Crc) -> u32 {
    match crc {
        Crc::Crc16Bit => 0xFFFF,
        Crc::Crc8Bit => 0xFF,
        Crc::Off => 0,
    }
}

/// The BASE0 word.
pub open spec fn base0_word() -> u32 {
    0xE7E7_E7E7
}

/// The BASE1 word.
pub open spec fn base1_word() -> u32 {
    0x4343_4343
}

/// The PREFIX0 word: the address prefixes E7, C2, C3 and C4, each with its bits
/// reversed, from the lowest byte up.
pub open spec fn prefix0_word() -> u32 {
    0x23C3_43E7
}

/// The PREFIX1 word: the address prefixes C5, C6, C7 and C8, each with its bits
/// reversed, from the lowest byte up.
pub open spec fn prefix1_word() -> u32 {
    0x13E3_63A3
}

/// All that is done to set up the radio, in order.
pub open spec fn setup_ops(config: Config) -> Seq<Op> {
    seq![
        Op::Write(Register::Power, 0),
        Op::Write(Register::Power, 1),
        Op::Write(Register::Frequency, 2),
        Op::Write(Register::TxPower, config.tx_output_power as u32),
        Op::Write(Register::Mode, mode_word(config.bitrate)),
        Op::Write(Register::Pcnf0, pcnf0_word(config.max_payload_length)),
        Op::Write(Register::Pcnf1, pcnf1_word(config.max_payload_length)),
        Op::Write(Register::Base0, base0_word()),
        Op::Write(Register::Base1, base1_word()),
        Op::Write(Register::Prefix0, prefix0_word()),
        Op::Write(Register::Prefix1, prefix1_word()),
        Op::Write(Register::CrcCnf, crccnf_word(config.crc)),
        Op::Write(Register::CrcPoly, crcpoly_word(config.crc)),
        Op::Write(Register::CrcInit, crcinit_word(config.crc)),
        Op::Write(Register::ModeCnf0, regs::flag(config.use_fast_ramp_up)),
        Op::Write(Register::IntenClr, 0xFFFF_FFFF),
        Op::UnpendInterrupt,
        Op::EnableInterrupt,
    ]
}

/// The prefixes of the eight logical addresses, in the order in which they are sent.
pub open spec fn prefixes() -> Seq<u8> {
    seq![0xE7, 0xC2, 0xC3, 0xC4, 0xC5, 0xC6, 0xC7, 0xC8]
}

/// The prefix that the PREFIX words hold for logical address `k`.
pub open spec fn prefix_byte(k: int) -> u8 {
    if k < 4 {
        ((prefix0_word() >> (8 * k) as u32) & 0xff) as u8
    } else {
        ((prefix1_word() >> (8 * (k - 4)) as u32) & 0xff) as u8
    }
}

/// The radio gets the base addresses, and the prefix of every logical address,
/// with their bits reversed.
pub proof fn lemma_addresses_are_reversed(k: int)
    requires
        0 <= k < 8,
    ensures
        bits::reversed32(BASE_ADDRESS_0, base0_word()),
        bits::reversed32(BASE_ADDRESS_1, base1_word()),
        bits::reversed8(prefixes()[k], prefix_byte(k)),
{
    lemma_constants_are_reversed();
    assert(((0x23C3_43E7u32 >> 0u32) & 0xff) as u8 == 0xE7 && ((0x23C3_43E7u32 >> 8u32) & 0xff) as u8
        == 0x43 && ((0x23C3_43E7u32 >> 16u32) & 0xff) as u8 == 0xC3 && ((0x23C3_43E7u32 >> 24u32)
        & 0xff) as u8 == 0x23 && ((0x13E3_63A3u32 >> 0u32) & 0xff) as u8 == 0xA3 && ((0x13E3_63A3u32
        >> 8u32) & 0xff) as u8 == 0x63 && ((0x13E3_63A3u32 >> 16u32) & 0xff) as u8 == 0xE3 && ((
    0x13E3_63A3u32 >> 24u32) & 0xff) as u8 == 0x13) by (bit_vector);
}

/// The constants in the address words are reversals.
proof fn lemma_constants_are_reversed()
    ensures
        bits::reversed32(BASE_ADDRESS_0, base0_word()),
        bits::reversed32(BASE_ADDRESS_1, base1_word()),
        bits::reversed8(0xE7, 0xE7),
        bits::reversed8(0xC2, 0x43),
        bits::reversed8(0xC3, 0xC3),
        bits::reversed8(0xC4, 0x23),
        bits::reversed8(0xC5, 0xA3),
        bits::reversed8(0xC6, 0x63),
        bits::reversed8(0xC7, 0xE3),
        bits::reversed8(0xC8, 0x13),
{
    assert forall|i: u32| i < 32 implies #[trigger] bits::bit32(0xE7E7_E7E7, i) == bits::bit32(
        0xE7E7_E7E7,
        (31 - i) as u32,
    ) by {
        let j = (31 - i) as u32;
        assert(bits::bit32(0xE7E7_E7E7, i) == bits::bit32(0xE7E7_E7E7, j)) by (bit_vector)
            requires
                i < 32,
                j == 31 - i,
        ;
    }
    assert forall|i: u32| i < 32 implies #[trigger] bits::bit32(0x4343_4343, i) == bits::bit32(
        0xC2C2_C2C2,
        (31 - i) as u32,
    ) by {
        let j = (31 - i) as u32;
        assert(bits::bit32(0x4343_4343, i) == bits::bit32(0xC2C2_C2C2, j)) by (bit_vector)
            requires
                i < 32,
                j == 31 - i,
        ;
    }
    assert(bits::mirror8(0xE7) == 0xE7
        && bits::mirror8(0xC2) == 0x43
        && bits::mirror8(0xC3) == 0xC3
        && bits::mirror8(0xC4) == 0x23
        && bits::mirror8(0xC5) == 0xA3
        && bits::mirror8(0xC6) == 0x63
        && bits::mirror8(0xC7) == 0xE3
        && bits::mirror8(0xC8) == 0x13) by (bit_vector);
    bits::lemma_mirror8(0xE7);
    bits::lemma_mirror8(0xC2);
    bits::lemma_mirror8(0xC3);
    bits::lemma_mirror8(0xC4);
    bits::lemma_mirror8(0xC5);
    bits::lemma_mirror8(0xC6);
    bits::lemma_mirror8(0xC7);
    bits::lemma_mirror8(0xC8);
}

/// The POWER word.
fn power(on: bool) -> (w: u32)
    ensures
        w == regs::flag(on),
{
    let w0: u32 = regs::power_power(0, on);
    assert(w0 == regs::flag(on)) by (bit_vector)
        requires
            w0 == regs::with_field(0, 0x01, 0, regs::flag(on)),
    ;
    w0
}

/// The FREQUENCY word: channel 2 of the default band.
fn frequency() -> (w: u32)
    ensures
        w == 2,
{
    let w0: u32 = regs::frequency_map(0, ChannelMap::Default);
    let w1: u32 = regs::frequency_frequency(w0, 2);
    assert(w1 == 2) by (bit_vector)
        requires
            w0 == regs::with_field(0, 0x01, 8, 0),
            w1 == regs::with_field(w0, 0x7f, 0, 2),
    ;
    w1
}

/// The TXPOWER word.
fn tx_power(code: u8) -> (w: u32)
    ensures
        w == code as u32,
{
    let w0: u32 = regs::txpower_txpower(0, code);
    assert(w0 == code as u32) by (bit_vector)
        requires
            w0 == regs::with_field(0, 0xff, 0, code as u32),
    ;
    w0
}

/// The MODE word.
fn mode(bitrate: Bitrate) -> (w: u32)
    ensures
        w == mode_word(bitrate),
{
    let value = match bitrate {
        Bitrate::Esb1Mbps => RadioMode::Nrf1Mbit,
        Bitrate::Esb2Mbps => RadioMode::Nrf2Mbit,
        Bitrate::Ble1Mbps => RadioMode::Ble1Mbit,
    };
    let w: u32 = regs::mode_mode(0, value);
    let ghost code = value.code();
    assert(w == code) by (bit_vector)
        requires
            w == regs::with_field(0, 0x0f, 0, code),
            code <= 3,
    ;
    w
}

/// The PCNF0 word.
fn pcnf0(max_payload_length: u8) -> (w: u32)
    ensures
        w == pcnf0_word(max_payload_length),
{
    let lflen: u8 = if max_payload_length >= 32 {
        8
    } else {
        6
    };
    let w0: u32 = regs::pcnf0_lflen(0, lflen);
    let w1: u32 = regs::pcnf0_s0len(w0, false);
    let w2: u32 = regs::pcnf0_s1len(w1, 3);
    let w3: u32 = regs::pcnf0_cilen(w2, 0);
    let w4: u32 = regs::pcnf0_plen(w3, Preamble::EightBit);
    let w5: u32 = regs::pcnf0_crcinc(w4, LengthCrc::Exclude);
    let w6: u32 = regs::pcnf0_termlen(w5, 0);
    assert(w6 == (lflen as u32) | (3u32 << 16)) by (bit_vector)
        requires
            lflen == 8 || lflen == 6,
            w0 == regs::with_field(0, 0x0f, 0, lflen as u32),
            w1 == regs::with_field(w0, 0x01, 8, 0),
            w2 == regs::with_field(w1, 0x0f, 16, 3),
            w3 == regs::with_field(w2, 0x03, 22, 0),
            w4 == regs::with_field(w3, 0x03, 24, 0),
            w5 == regs::with_field(w4, 0x01, 26, 0),
            w6 == regs::with_field(w5, 0x03, 29, 0),
    ;
    w6
}

/// The PCNF1 word.
fn pcnf1(max_payload_length: u8) -> (w: u32)
    ensures
        w == pcnf1_word(max_payload_length),
{
    let w0: u32 = regs::pcnf1_maxlen(0, max_payload_length);
    let w1: u32 = regs::pcnf1_balen(w0, 4);
    let w2: u32 = regs::pcnf1_endian(w1, BitOrder::Big);
    let w3: u32 = regs::pcnf1_statlen(w2, 0);
    let w4: u32 = regs::pcnf1_whiteen(w3, false);
    assert(w4 == (max_payload_length as u32) | (4u32 << 16) | (1u32 << 24)) by (bit_vector)
        requires
            w0 == regs::with_field(0, 0xff, 0, max_payload_length as u32),
            w1 == regs::with_field(w0, 0x07, 16, 4),
            w2 == regs::with_field(w1, 0x01, 24, 1),
            w3 == regs::with_field(w2, 0xff, 8, 0),
            w4 == regs::with_field(w3, 0x01, 25, 0),
    ;
    w4
}

/// The PREFIX0 word.
fn prefix0() -> (w: u32)
    ensures
        w == prefix0_word(),
{
    let p0: u8 = 0xE7u8.reverse_bits();
    let p1: u8 = 0xC2u8.reverse_bits();
    let p2: u8 = 0xC3u8.reverse_bits();
    let p3: u8 = 0xC4u8.reverse_bits();
    proof {
        lemma_constants_are_reversed();
        bits::lemma_reversed8_unique(0xE7, p0, 0xE7);
        bits::lemma_reversed8_unique(0xC2, p1, 0x43);
        bits::lemma_reversed8_unique(0xC3, p2, 0xC3);
        bits::lemma_reversed8_unique(0xC4, p3, 0x23);
    }
    let w0: u32 = regs::prefix0_ap0(0, p0);
    let w1: u32 = regs::prefix0_ap1(w0, p1);
    let w2: u32 = regs::prefix0_ap2(w1, p2);
    let w3: u32 = regs::prefix0_ap3(w2, p3);
    assert(w3 == 0x23C3_43E7) by (bit_vector)
        requires
            w0 == regs::with_field(0, 0xff, 0, 0xE7),
            w1 == regs::with_field(w0, 0xff, 8, 0x43),
            w2 == regs::with_field(w1, 0xff, 16, 0xC3),
            w3 == regs::with_field(w2, 0xff, 24, 0x23),
    ;
    w3
}

/// The PREFIX1 word.
fn prefix1() -> (w: u32)
    ensures
        w == prefix1_word(),
{
    let p0: u8 = 0xC5u8.reverse_bits();
    let p1: u8 = 0xC6u8.reverse_bits();
    let p2: u8 = 0xC7u8.reverse_bits();
    let p3: u8 = 0xC8u8.reverse_bits();
    proof {
        lemma_constants_are_reversed();
        bits::lemma_reversed8_unique(0xC5, p0, 0xA3);
        bits::lemma_reversed8_unique(0xC6, p1, 0x63);
        bits::lemma_reversed8_unique(0xC7, p2, 0xE3);
        bits::lemma_reversed8_unique(0xC8, p3, 0x13);
    }
    let w0: u32 = regs::prefix1_ap4(0, p0);
    let w1: u32 = regs::prefix1_ap5(w0, p1);
    let w2: u32 = regs::prefix1_ap6(w1, p2);
    let w3: u32 = regs::prefix1_ap7(w2, p3);
    assert(w3 == 0x13E3_63A3) by (bit_vector)
        requires
            w0 == regs::with_field(0, 0xff, 0, 0xA3),
            w1 == regs::with_field(w0, 0xff, 8, 0x63),
            w2 == regs::with_field(w1, 0xff, 16, 0xE3),
            w3 == regs::with_field(w2, 0xff, 24, 0x13),
    ;
    w3
}

/// The BASE0 word.
fn base0() -> (w: u32)
    ensures
        w == base0_word(),
{
    let w: u32 = BASE_ADDRESS_0.reverse_bits();
    proof {
        lemma_constants_are_reversed();
        bits::lemma_reversed32_unique(BASE_ADDRESS_0, w, base0_word());
    }
    w
}

/// The BASE1 word.
fn base1() -> (w: u32)
    ensures
        w == base1_word(),
{
    let w: u32 = BASE_ADDRESS_1.reverse_bits();
    proof {
        lemma_constants_are_reversed();
        bits::lemma_reversed32_unique(BASE_ADDRESS_1, w, base1_word());
    }
    w
}

/// The CRCCNF word.
fn crccnf(crc: Crc) -> (w: u32)
    ensures
        w == crccnf_word(crc),
{
    let len = match crc {
        Crc::Crc16Bit => CrcLen::Two,
        Crc::Crc8Bit => CrcLen::One,
        Crc::Off => CrcLen::Disabled,
    };
    let w0: u32 = regs::crccnf_len(0, len);
    let w1: u32 = regs::crccnf_skipaddr(w0, AddressCrc::Include);
    let ghost code = len.code();
    assert(w1 == code) by (bit_vector)
        requires
            code <= 2,
            w0 == regs::with_field(0, 0x03, 0, code),
            w1 == regs::with_field(w0, 0x03, 8, 0),
    ;
    w1
}

/// The CRCPOLY word.
fn crcpoly(crc: Crc) -> (w: u32)
    ensures
        w == crcpoly_word(crc),
{
    let value: u32 = match crc {
        Crc::Crc16Bit => 0b1_0001_0000_0010_0001,
        Crc::Crc8Bit => 0b1_0000_0111,
        Crc::Off => 0,
    };
    let w: u32 = regs::crcpoly_crcpoly(0, value);
    assert(w == value) by (bit_vector)
        requires
            value <= 0x00ff_ffff,
            w == regs::with_field(0, 0x00ff_ffff, 0, value),
    ;
    w
}

/// The CRCINIT word.
fn crcinit(crc: Crc) -> (w: u32)
    ensures
        w == crcinit_word(crc),
{
    let value: u32 = match crc {
        Crc::Crc16Bit => 0xFFFF,
        Crc::Crc8Bit => 0xFF,
        Crc::Off => 0,
    };
    let w: u32 = regs::crcinit_crcinit(0, value);
    assert(w == value) by (bit_vector)
        requires
            value <= 0x00ff_ffff,
            w == regs::with_field(0, 0x00ff_ffff, 0, value),
    ;
    w
}

/// The MODECNF0 word: the ramp-up; a one is sent before the first bit.
fn modecnf0(fast: bool) -> (w: u32)
    ensures
        w == regs::flag(fast),
{
    let ru = if fast {
        RampUp::Fast
    } else {
        RampUp::Default
    };
    let w0: u32 = regs::modecnf0_ru(0, ru);
    let w1: u32 = regs::modecnf0_dtx(w0, DefaultTx::B1);
    let ghost code = ru.code();
    assert(w1 == code) by (bit_vector)
        requires
            code <= 1,
            w0 == regs::with_field(0, 0x01, 0, code),
            w1 == regs::with_field(w0, 0x03, 8, 0),
    ;
    w1
}

/// Sets up the radio for `config`.
pub fn setup(config: &Config) -> (r: [Op; 18])
    ensures
        r@ == setup_ops(*config),
{
    let r = [
        Op::Write(Register::Power, power(false)),
        Op::Write(Register::Power, power(true)),
        Op::Write(Register::Frequency, frequency()),
        Op::Write(Register::TxPower, tx_power(config.tx_output_power)),
        Op::Write(Register::Mode, mode(config.bitrate)),
        Op::Write(Register::Pcnf0, pcnf0(config.max_payload_length)),
        Op::Write(Register::Pcnf1, pcnf1(config.max_payload_length)),
        Op::Write(Register::Base0, base0()),
        Op::Write(Register::Base1, base1()),
        Op::Write(Register::Prefix0, prefix0()),
        Op::Write(Register::Prefix1, prefix1()),
        Op::Write(Register::CrcCnf, crccnf(config.crc)),
        Op::Write(Register::CrcPoly, crcpoly(config.crc)),
        Op::Write(Register::CrcInit, crcinit(config.crc)),
        Op::Write(Register::ModeCnf0, modecnf0(config.use_fast_ramp_up)),
        Op::Write(Register::IntenClr, 0xFFFF_FFFF),
        Op::UnpendInterrupt,
        Op::EnableInterrupt,
    ];
    assert(r@ =~= setup_ops(*config));
    r
}

} // verus!
