//! The fields of the registers that the driver writes, and of those it reads.
//!
//! A register is a 32-bit word. Every word that the driver writes is built up
//! from zero with the field setters of `embassy_nrf::pac`, one function here
//! for each setter.

use vstd::prelude::*;

use embassy_nrf::pac::{ppi, radio, timer};

verus! {

/// `word` with the field that has the bits of `mask`, moved up by `shift`, set to
/// `value`, and all other bits as they were.
pub open spec fn with_field(word: u32, mask: u32, shift: u32, value: u32) -> u32 {
    (word & !(mask << shift)) | ((value & mask) << shift)
}

/// A flag as the value of a field that is one bit wide.
pub open spec fn flag(b: bool) -> u32 {
    if b {
        1
    } else {
        0
    }
}

/// The band that channel numbers count in.
#[derive(Clone, Copy, Debug, PartialEq, Eq, Structural)]
pub enum ChannelMap {
    Default,
    Low,
}

impl ChannelMap {
    /// The code of this value in the register.
    pub open spec fn code(self) -> u32 {
        match self {
            ChannelMap::Default => 0,
            ChannelMap::Low => 1,
        }
    }
}

/// The modulation of the radio.
#[derive(Clone, Copy, Debug, PartialEq, Eq, Structural)]
pub enum RadioMode {
    Nrf1Mbit,
    Nrf2Mbit,
    Ble1Mbit,
}

impl RadioMode {
    /// The code of this value in the register.
    pub open spec fn code(self) -> u32 {
        match self {
            RadioMode::Nrf1Mbit => 0,
            RadioMode::Nrf2Mbit => 1,
            RadioMode::Ble1Mbit => 3,
        }
    }
}

/// The length of the preamble.
#[derive(Clone, Copy, Debug, PartialEq, Eq, Structural)]
pub enum Preamble {
    EightBit,
    SixteenBit,
}

impl Preamble {
    /// The code of this value in the register.
    pub open spec fn code(self) -> u32 {
        match self {
            Preamble::EightBit => 0,
            Preamble::SixteenBit => 1,
        }
    }
}

/// Whether the LENGTH field counts the checksum.
#[derive(Clone, Copy, Debug, PartialEq, Eq, Structural)]
pub enum LengthCrc {
    Exclude,
    Include,
}

impl LengthCrc {
    /// The code of this value in the register.
    pub open spec fn code(self) -> u32 {
        match self {
            LengthCrc::Exclude => 0,
            LengthCrc::Include => 1,
        }
    }
}

/// The order in which bits go on air.
#[derive(Clone, Copy, Debug, PartialEq, Eq, Structural)]
pub enum BitOrder {
    Little,
    Big,
}

impl BitOrder {
    /// The code of this value in the register.
    pub open spec fn code(self) -> u32 {
        match self {
            BitOrder::Little => 0,
            BitOrder::Big => 1,
        }
    }
}

/// The length of the checksum.
#[derive(Clone, Copy, Debug, PartialEq, Eq, Structural)]
pub enum CrcLen {
    Disabled,
    One,
    Two,
}

impl CrcLen {
    /// The code of this value in the register.
    pub open spec fn code(self) -> u32 {
        match self {
            CrcLen::Disabled => 0,
            CrcLen::One => 1,
            CrcLen::Two => 2,
        }
    }
}

/// Whether the checksum covers the address.
#[derive(Clone, Copy, Debug, PartialEq, Eq, Structural)]
pub enum AddressCrc {
    Include,
    Skip,
}

impl AddressCrc {
    /// The code of this value in the register.
    pub open spec fn code(self) -> u32 {
        match self {
            AddressCrc::Include => 0,
            AddressCrc::Skip => 1,
        }
    }
}

/// How fast the radio ramps up.
#[derive(Clone, Copy, Debug, PartialEq, Eq, Structural)]
pub enum RampUp {
    Default,
    Fast,
}

impl RampUp {
    /// The code of this value in the register.
    pub open spec fn code(self) -> u32 {
        match self {
            RampUp::Default => 0,
            RampUp::Fast => 1,
        }
    }
}

/// What is on air before the first bit of a packet.
#[derive(Clone, Copy, Debug, PartialEq, Eq, Structural)]
pub enum DefaultTx {
    B1,
    B0,
    Center,
}

impl DefaultTx {
    /// The code of this value in the register.
    pub open spec fn code(self) -> u32 {
        match self {
            DefaultTx::B1 => 0,
            DefaultTx::B0 => 1,
            DefaultTx::Center => 2,
        }
    }
}

/// `radio::regs::Power::set_power`: sets bit 0 of the word, and no others.
#[verifier::external_body]
pub(crate) fn power_power(word: u32, value: bool) -> (r: u32)
    ensures
        r == with_field(word, 0x01, 0, flag(value)),
{
    let mut reg = radio::regs::Power(word);
    reg.set_power(value);
    reg.0
}

/// `radio::regs::Frequency::set_map`: sets bit 8 of the word, and no others.
#[verifier::external_body]
pub(crate) fn frequency_map(word: u32, value: ChannelMap) -> (r: u32)
    ensures
        r == with_field(word, 0x01, 8, value.code()),
{
    let mut reg = radio::regs::Frequency(word);
    reg.set_map(match value {
        ChannelMap::Default => radio::vals::Map::DEFAULT,
        ChannelMap::Low => radio::vals::Map::LOW,
    });
    reg.0
}

/// `radio::regs::Frequency::set_frequency`: sets bits 0 to 6 of the word, and no others.
#[verifier::external_body]
pub(crate) fn frequency_frequency(word: u32, value: u8) -> (r: u32)
    ensures
        r == with_field(word, 0x7f, 0, value as u32),
{
    let mut reg = radio::regs::Frequency(word);
    reg.set_frequency(value);
    reg.0
}

/// `radio::regs::Txpower::set_txpower`, the power given by its code: sets bits 0 to 7 of the word, and no others.
#[verifier::external_body]
pub(crate) fn txpower_txpower(word: u32, value: u8) -> (r: u32)
    ensures
        r == with_field(word, 0xff, 0, value as u32),
{
    let mut reg = radio::regs::Txpower(word);
    reg.set_txpower(radio::vals::Txpower::from_bits(value));
    reg.0
}

/// `radio::regs::Mode::set_mode`: sets bits 0 to 3 of the word, and no others.
#[verifier::external_body]
pub(crate) fn mode_mode(word: u32, value: RadioMode) -> (r: u32)
    ensures
        r == with_field(word, 0x0f, 0, value.code()),
{
    let mut reg = radio::regs::Mode(word);
    reg.set_mode(match value {
        RadioMode::Nrf1Mbit => radio::vals::Mode::NRF_1MBIT,
        RadioMode::Nrf2Mbit => radio::vals::Mode::NRF_2MBIT,
        RadioMode::Ble1Mbit => radio::vals::Mode::BLE_1MBIT,
    });
    reg.0
}

/// `radio::regs::Pcnf0::set_lflen`: sets bits 0 to 3 of the word, and no others.
#[verifier::external_body]
pub(crate) fn pcnf0_lflen(word: u32, value: u8) -> (r: u32)
    ensures
        r == with_field(word, 0x0f, 0, value as u32),
{
    let mut reg = radio::regs::Pcnf0(word);
    reg.set_lflen(value);
    reg.0
}

/// `radio::regs::Pcnf0::set_s0len`: sets bit 8 of the word, and no others.
#[verifier::external_body]
pub(crate) fn pcnf0_s0len(word: u32, value: bool) -> (r: u32)
    ensures
        r == with_field(word, 0x01, 8, flag(value)),
{
    let mut reg = radio::regs::Pcnf0(word);
    reg.set_s0len(value);
    reg.0
}

/// `radio::regs::Pcnf0::set_s1len`: sets bits 16 to 19 of the word, and no others.
#[verifier::external_body]
pub(crate) fn pcnf0_s1len(word: u32, value: u8) -> (r: u32)
    ensures
        r == with_field(word, 0x0f, 16, value as u32),
{
    let mut reg = radio::regs::Pcnf0(word);
    reg.set_s1len(value);
    reg.0
}

/// `radio::regs::Pcnf0::set_cilen`: sets bits 22 to 23 of the word, and no others.
#[verifier::external_body]
pub(crate) fn pcnf0_cilen(word: u32, value: u8) -> (r: u32)
    ensures
        r == with_field(word, 0x03, 22, value as u32),
{
    let mut reg = radio::regs::Pcnf0(word);
    reg.set_cilen(value);
    reg.0
}

/// `radio::regs::Pcnf0::set_plen`: sets bits 24 to 25 of the word, and no others.
#[verifier::external_body]
pub(crate) fn pcnf0_plen(word: u32, value: Preamble) -> (r: u32)
    ensures
        r == with_field(word, 0x03, 24, value.code()),
{
    let mut reg = radio::regs::Pcnf0(word);
    reg.set_plen(match value {
        Preamble::EightBit => radio::vals::Plen::_8BIT,
        Preamble::SixteenBit => radio::vals::Plen::_16BIT,
    });
    reg.0
}

/// `radio::regs::Pcnf0::set_crcinc`: sets bit 26 of the word, and no others.
#[verifier::external_body]
pub(crate) fn pcnf0_crcinc(word: u32, value: LengthCrc) -> (r: u32)
    ensures
        r == with_field(word, 0x01, 26, value.code()),
{
    let mut reg = radio::regs::Pcnf0(word);
    reg.set_crcinc(match value {
        LengthCrc::Exclude => radio::vals::Crcinc::EXCLUDE,
        LengthCrc::Include => radio::vals::Crcinc::INCLUDE,
    });
    reg.0
}

/// `radio::regs::Pcnf0::set_termlen`: sets bits 29 to 30 of the word, and no others.
#[verifier::external_body]
pub(crate) fn pcnf0_termlen(word: u32, value: u8) -> (r: u32)
    ensures
        r == with_field(word, 0x03, 29, value as u32),
{
    let mut reg = radio::regs::Pcnf0(word);
    reg.set_termlen(value);
    reg.0
}

/// `radio::regs::Pcnf1::set_maxlen`: sets bits 0 to 7 of the word, and no others.
#[verifier::external_body]
pub(crate) fn pcnf1_maxlen(word: u32, value: u8) -> (r: u32)
    ensures
        r == with_field(word, 0xff, 0, value as u32),
{
    let mut reg = radio::regs::Pcnf1(word);
    reg.set_maxlen(value);
    reg.0
}

/// `radio::regs::Pcnf1::set_statlen`: sets bits 8 to 15 of the word, and no others.
#[verifier::external_body]
pub(crate) fn pcnf1_statlen(word: u32, value: u8) -> (r: u32)
    ensures
        r == with_field(word, 0xff, 8, value as u32),
{
    let mut reg = radio::regs::Pcnf1(word);
    reg.set_statlen(value);
    reg.0
}

/// `radio::regs::Pcnf1::set_balen`: sets bits 16 to 18 of the word, and no others.
#[verifier::external_body]
pub(crate) fn pcnf1_balen(word: u32, value: u8) -> (r: u32)
    ensures
        r == with_field(word, 0x07, 16, value as u32),
{
    let mut reg = radio::regs::Pcnf1(word);
    reg.set_balen(value);
    reg.0
}

/// `radio::regs::Pcnf1::set_endian`: sets bit 24 of the word, and no others.
#[verifier::external_body]
pub(crate) fn pcnf1_endian(word: u32, value: BitOrder) -> (r: u32)
    ensures
        r == with_field(word, 0x01, 24, value.code()),
{
    let mut reg = radio::regs::Pcnf1(word);
    reg.set_endian(match value {
        BitOrder::Little => radio::vals::Endian::LITTLE,
        BitOrder::Big => radio::vals::Endian::BIG,
    });
    reg.0
}

/// `radio::regs::Pcnf1::set_whiteen`: sets bit 25 of the word, and no others.
#[verifier::external_body]
pub(crate) fn pcnf1_whiteen(word: u32, value: bool) -> (r: u32)
    ensures
        r == with_field(word, 0x01, 25, flag(value)),
{
    let mut reg = radio::regs::Pcnf1(word);
    reg.set_whiteen(value);
    reg.0
}

/// `radio::regs::Prefix0::set_ap0`: sets bits 0 to 7 of the word, and no others.
#[verifier::external_body]
pub(crate) fn prefix0_ap0(word: u32, value: u8) -> (r: u32)
    ensures
        r == with_field(word, 0xff, 0, value as u32),
{
    let mut reg = radio::regs::Prefix0(word);
    reg.set_ap0(value);
    reg.0
}

/// `radio::regs::Prefix0::set_ap1`: sets bits 8 to 15 of the word, and no others.
#[verifier::external_body]
pub(crate) fn prefix0_ap1(word: u32, value: u8) -> (r: u32)
    ensures
        r == with_field(word, 0xff, 8, value as u32),
{
    let mut reg = radio::regs::Prefix0(word);
    reg.set_ap1(value);
    reg.0
}

/// `radio::regs::Prefix0::set_ap2`: sets bits 16 to 23 of the word, and no others.
#[verifier::external_body]
pub(crate) fn prefix0_ap2(word: u32, value: u8) -> (r: u32)
    ensures
        r == with_field(word, 0xff, 16, value as u32),
{
    let mut reg = radio::regs::Prefix0(word);
    reg.set_ap2(value);
    reg.0
}

/// `radio::regs::Prefix0::set_ap3`: sets bits 24 to 31 of the word, and no others.
#[verifier::external_body]
pub(crate) fn prefix0_ap3(word: u32, value: u8) -> (r: u32)
    ensures
        r == with_field(word, 0xff, 24, value as u32),
{
    let mut reg = radio::regs::Prefix0(word);
    reg.set_ap3(value);
    reg.0
}

/// `radio::regs::Prefix1::set_ap4`: sets bits 0 to 7 of the word, and no others.
#[verifier::external_body]
pub(crate) fn prefix1_ap4(word: u32, value: u8) -> (r: u32)
    ensures
        r == with_field(word, 0xff, 0, value as u32),
{
    let mut reg = radio::regs::Prefix1(word);
    reg.set_ap4(value);
    reg.0
}

/// `radio::regs::Prefix1::set_ap5`: sets bits 8 to 15 of the word, and no others.
#[verifier::external_body]
pub(crate) fn prefix1_ap5(word: u32, value: u8) -> (r: u32)
    ensures
        r == with_field(word, 0xff, 8, value as u32),
{
    let mut reg = radio::regs::Prefix1(word);
    reg.set_ap5(value);
    reg.0
}

/// `radio::regs::Prefix1::set_ap6`: sets bits 16 to 23 of the word, and no others.
#[verifier::external_body]
pub(crate) fn prefix1_ap6(word: u32, value: u8) -> (r: u32)
    ensures
        r == with_field(word, 0xff, 16, value as u32),
{
    let mut reg = radio::regs::Prefix1(word);
    reg.set_ap6(value);
    reg.0
}

/// `radio::regs::Prefix1::set_ap7`: sets bits 24 to 31 of the word, and no others.
#[verifier::external_body]
pub(crate) fn prefix1_ap7(word: u32, value: u8) -> (r: u32)
    ensures
        r == with_field(word, 0xff, 24, value as u32),
{
    let mut reg = radio::regs::Prefix1(word);
    reg.set_ap7(value);
    reg.0
}

/// `radio::regs::Crccnf::set_len`: sets bits 0 to 1 of the word, and no others.
#[verifier::external_body]
pub(crate) fn crccnf_len(word: u32, value: CrcLen) -> (r: u32)
    ensures
        r == with_field(word, 0x03, 0, value.code()),
{
    let mut reg = radio::regs::Crccnf(word);
    reg.set_len(match value {
        CrcLen::Disabled => radio::vals::Len::DISABLED,
        CrcLen::One => radio::vals::Len::ONE,
        CrcLen::Two => radio::vals::Len::TWO,
    });
    reg.0
}

/// `radio::regs::Crccnf::set_skipaddr`: sets bits 8 to 9 of the word, and no others.
#[verifier::external_body]
pub(crate) fn crccnf_skipaddr(word: u32, value: AddressCrc) -> (r: u32)
    ensures
        r == with_field(word, 0x03, 8, value.code()),
{
    let mut reg = radio::regs::Crccnf(word);
    reg.set_skipaddr(match value {
        AddressCrc::Include => radio::vals::Skipaddr::INCLUDE,
        AddressCrc::Skip => radio::vals::Skipaddr::SKIP,
    });
    reg.0
}

/// `radio::regs::Crcpoly::set_crcpoly`: sets bits 0 to 23 of the word, and no others.
#[verifier::external_body]
pub(crate) fn crcpoly_crcpoly(word: u32, value: u32) -> (r: u32)
    ensures
        r == with_field(word, 0x00ff_ffff, 0, value),
{
    let mut reg = radio::regs::Crcpoly(word);
    reg.set_crcpoly(value);
    reg.0
}

/// `radio::regs::Crcinit::set_crcinit`: sets bits 0 to 23 of the word, and no others.
#[verifier::external_body]
pub(crate) fn crcinit_crcinit(word: u32, value: u32) -> (r: u32)
    ensures
        r == with_field(word, 0x00ff_ffff, 0, value),
{
    let mut reg = radio::regs::Crcinit(word);
    reg.set_crcinit(value);
    reg.0
}

/// `radio::regs::Modecnf0::set_ru`: sets bit 0 of the word, and no others.
#[verifier::external_body]
pub(crate) fn modecnf0_ru(word: u32, value: RampUp) -> (r: u32)
    ensures
        r == with_field(word, 0x01, 0, value.code()),
{
    let mut reg = radio::regs::Modecnf0(word);
    reg.set_ru(match value {
        RampUp::Default => radio::vals::Ru::DEFAULT,
        RampUp::Fast => radio::vals::Ru::FAST,
    });
    reg.0
}

/// `radio::regs::Modecnf0::set_dtx`: sets bits 8 to 9 of the word, and no others.
#[verifier::external_body]
pub(crate) fn modecnf0_dtx(word: u32, value: DefaultTx) -> (r: u32)
    ensures
        r == with_field(word, 0x03, 8, value.code()),
{
    let mut reg = radio::regs::Modecnf0(word);
    reg.set_dtx(match value {
        DefaultTx::B1 => radio::vals::Dtx::B1,
        DefaultTx::B0 => radio::vals::Dtx::B0,
        DefaultTx::Center => radio::vals::Dtx::CENTER,
    });
    reg.0
}

/// `radio::regs::Txaddress::set_txaddress`: sets bits 0 to 2 of the word, and no others.
#[verifier::external_body]
pub(crate) fn txaddress_txaddress(word: u32, value: u8) -> (r: u32)
    ensures
        r == with_field(word, 0x07, 0, value as u32),
{
    let mut reg = radio::regs::Txaddress(word);
    reg.set_txaddress(value);
    reg.0
}

/// `radio::regs::Shorts::set_ready_start`: sets bit 0 of the word, and no others.
#[verifier::external_body]
pub(crate) fn shorts_ready_start(word: u32, value: bool) -> (r: u32)
    ensures
        r == with_field(word, 0x01, 0, flag(value)),
{
    let mut reg = radio::regs::Shorts(word);
    reg.set_ready_start(value);
    reg.0
}

/// `radio::regs::Shorts::set_end_disable`: sets bit 1 of the word, and no others.
#[verifier::external_body]
pub(crate) fn shorts_end_disable(word: u32, value: bool) -> (r: u32)
    ensures
        r == with_field(word, 0x01, 1, flag(value)),
{
    let mut reg = radio::regs::Shorts(word);
    reg.set_end_disable(value);
    reg.0
}

/// `radio::regs::Int::set_end`: sets bit 3 of the word, and no others.
#[verifier::external_body]
pub(crate) fn int_end(word: u32, value: bool) -> (r: u32)
    ensures
        r == with_field(word, 0x01, 3, flag(value)),
{
    let mut reg = radio::regs::Int(word);
    reg.set_end(value);
    reg.0
}

/// `radio::regs::Int::set_disabled`: sets bit 4 of the word, and no others.
#[verifier::external_body]
pub(crate) fn int_disabled(word: u32, value: bool) -> (r: u32)
    ensures
        r == with_field(word, 0x01, 4, flag(value)),
{
    let mut reg = radio::regs::Int(word);
    reg.set_disabled(value);
    reg.0
}

/// `radio::regs::Int::set_crcok`: sets bit 12 of the word, and no others.
#[verifier::external_body]
pub(crate) fn int_crcok(word: u32, value: bool) -> (r: u32)
    ensures
        r == with_field(word, 0x01, 12, flag(value)),
{
    let mut reg = radio::regs::Int(word);
    reg.set_crcok(value);
    reg.0
}

/// `timer::regs::Prescaler::set_prescaler`: sets bits 0 to 3 of the word, and no others.
#[verifier::external_body]
pub(crate) fn timer_prescaler(word: u32, value: u8) -> (r: u32)
    ensures
        r == with_field(word, 0x0f, 0, value as u32),
{
    let mut reg = timer::regs::Prescaler(word);
    reg.set_prescaler(value);
    reg.0
}

/// `timer::regs::Shorts::set_compare_clear`: sets bit `n` of the word, and no others. Left out
/// is an `n` from 6 on, on which the setter panics.
#[verifier::external_body]
pub(crate) fn timer_compare_clear(word: u32, n: usize, value: bool) -> (r: u32)
    requires
        n < 6,
    ensures
        r == with_field(word, 0x01, n as u32, flag(value)),
{
    let mut reg = timer::regs::Shorts(word);
    reg.set_compare_clear(n, value);
    reg.0
}

/// `timer::regs::Shorts::set_compare_stop`: sets bit `8 + n` of the word, and no others. Left out
/// is an `n` from 6 on, on which the setter panics.
#[verifier::external_body]
pub(crate) fn timer_compare_stop(word: u32, n: usize, value: bool) -> (r: u32)
    requires
        n < 6,
    ensures
        r == with_field(word, 0x01, (8 + n) as u32, flag(value)),
{
    let mut reg = timer::regs::Shorts(word);
    reg.set_compare_stop(n, value);
    reg.0
}

/// `ppi::regs::Chen::set_ch`: sets bit `n` of the word, and no others. Left out
/// is an `n` from 32 on, on which the setter panics.
#[verifier::external_body]
pub(crate) fn ppi_ch(word: u32, n: usize, value: bool) -> (r: u32)
    requires
        n < 32,
    ensures
        r == with_field(word, 0x01, n as u32, flag(value)),
{
    let mut reg = ppi::regs::Chen(word);
    reg.set_ch(n, value);
    reg.0
}

/// `radio::regs::Crcstatus::crcstatus`: whether bit 0 of the word says that the
/// checksum of the last packet was right.
#[verifier::external_body]
pub(crate) fn crcstatus_ok(word: u32) -> (r: bool)
    ensures
        r <==> word & 1 == 1,
{
    match radio::regs::Crcstatus(word).crcstatus() {
        radio::vals::Crcstatus::CRCOK => true,
        radio::vals::Crcstatus::CRCERROR => false,
    }
}

/// The states of the radio.
#[derive(Clone, Copy, Debug, PartialEq, Eq, Structural)]
pub enum RadioState {
    Disabled,
    RxRu,
    RxIdle,
    Rx,
    RxDisable,
    TxRu,
    TxIdle,
    Tx,
    TxDisable,
}

/// The state that a word of the STATE register holds in bits 0 to 3, or `None`
/// where the radio's manual gives the code no meaning.
pub open spec fn state_of(word: u32) -> Option<RadioState> {
    let code = word & 0x0f;
    if code == 0 {
        Some(RadioState::Disabled)
    } else if code == 1 {
        Some(RadioState::RxRu)
    } else if code == 2 {
        Some(RadioState::RxIdle)
    } else if code == 3 {
        Some(RadioState::Rx)
    } else if code == 4 {
        Some(RadioState::RxDisable)
    } else if code == 9 {
        Some(RadioState::TxRu)
    } else if code == 10 {
        Some(RadioState::TxIdle)
    } else if code == 11 {
        Some(RadioState::Tx)
    } else if code == 12 {
        Some(RadioState::TxDisable)
    } else {
        None
    }
}

/// `radio::regs::State::state`: the state whose code is in bits 0 to 3 of the
/// word; the codes that have no state there are 5 to 8 and 13 to 15.
#[verifier::external_body]
pub(crate) fn state_state(word: u32) -> (r: Option<RadioState>)
    ensures
        r == state_of(word),
{
    match radio::regs::State(word).state() {
        radio::vals::State::DISABLED => Some(RadioState::Disabled),
        radio::vals::State::RX_RU => Some(RadioState::RxRu),
        radio::vals::State::RX_IDLE => Some(RadioState::RxIdle),
        radio::vals::State::RX => Some(RadioState::Rx),
        radio::vals::State::RX_DISABLE => Some(RadioState::RxDisable),
        radio::vals::State::TX_RU => Some(RadioState::TxRu),
        radio::vals::State::TX_IDLE => Some(RadioState::TxIdle),
        radio::vals::State::TX => Some(RadioState::Tx),
        radio::vals::State::TX_DISABLE => Some(RadioState::TxDisable),
        _ => None,
    }
}

} // verus!
