use embassy_nrf::pac::radio::regs;
use embassy_nrf::pac::radio::vals;
use nrf_esb::config::TXPOWER_0_DBM;
use nrf_esb::ops::{Op, Register};
use nrf_esb::{Bitrate, Config, Crc, Radio};

fn word(ops: &[Op], register: Register) -> u32 {
    let mut found = None;
    for op in ops {
        if let Op::Write(r, w) = *op {
            if r == register {
                found = Some(w);
            }
        }
    }
    found.unwrap()
}

fn config(bitrate: Bitrate, crc: Crc, max_payload_length: u8) -> Config {
    Config {
        bitrate,
        crc,
        tx_output_power: vals::Txpower::POS4_DBM.to_bits(),
        retransmit_delay: 33,
        retransmit_count: 5,
        max_payload_length,
        use_fast_ramp_up: false,
    }
}

#[test]
fn the_default_settings() {
    let c = Config::default();
    assert_eq!(c.bitrate, Bitrate::Esb2Mbps);
    assert_eq!(c.crc, Crc::Crc16Bit);
    assert_eq!(c.tx_output_power, 0);
    assert_eq!(c.retransmit_delay, 20);
    assert_eq!(c.retransmit_count, 3);
    assert_eq!(c.max_payload_length, 252);
    assert!(c.use_fast_ramp_up);
    assert_eq!(TXPOWER_0_DBM, vals::Txpower::_0_DBM.to_bits());
    assert_eq!(
        embassy_time::Duration::from_micros(600).as_ticks(),
        c.retransmit_delay
    );
}

#[test]
fn the_default_setup_step_by_step() {
    let (_, ops) = Radio::new(Config::default());
    assert_eq!(
        ops,
        [
            Op::Write(Register::Power, 0),
            Op::Write(Register::Power, 1),
            Op::Write(Register::Frequency, 2),
            Op::Write(Register::TxPower, 0),
            Op::Write(Register::Mode, 1),
            Op::Write(Register::Pcnf0, 0x0003_0008),
            Op::Write(Register::Pcnf1, 0x0104_00FC),
            Op::Write(Register::Base0, 0xE7E7_E7E7),
            Op::Write(Register::Base1, 0x4343_4343),
            Op::Write(Register::Prefix0, 0x23C3_43E7),
            Op::Write(Register::Prefix1, 0x13E3_63A3),
            Op::Write(Register::CrcCnf, 2),
            Op::Write(Register::CrcPoly, 0x1_1021),
            Op::Write(Register::CrcInit, 0xFFFF),
            Op::Write(Register::ModeCnf0, 1),
            Op::Write(Register::IntenClr, 0xFFFF_FFFF),
            Op::UnpendInterrupt,
            Op::EnableInterrupt,
        ]
    );
}

#[test]
fn the_words_are_those_of_the_field_setters() {
    let (_, ops) = Radio::new(config(Bitrate::Ble1Mbps, Crc::Crc8Bit, 31));

    let mut frequency = regs::Frequency(0);
    frequency.set_map(vals::Map::DEFAULT);
    frequency.set_frequency(2);
    assert_eq!(word(&ops, Register::Frequency), frequency.0);

    let mut txpower = regs::Txpower(0);
    txpower.set_txpower(vals::Txpower::POS4_DBM);
    assert_eq!(word(&ops, Register::TxPower), txpower.0);

    let mut mode = regs::Mode(0);
    mode.set_mode(vals::Mode::BLE_1MBIT);
    assert_eq!(word(&ops, Register::Mode), mode.0);

    let mut pcnf0 = regs::Pcnf0(0);
    pcnf0.set_lflen(6);
    pcnf0.set_s0len(false);
    pcnf0.set_s1len(3);
    pcnf0.set_cilen(0);
    pcnf0.set_plen(vals::Plen::_8BIT);
    pcnf0.set_crcinc(vals::Crcinc::EXCLUDE);
    pcnf0.set_termlen(0);
    assert_eq!(word(&ops, Register::Pcnf0), pcnf0.0);

    let mut pcnf1 = regs::Pcnf1(0);
    pcnf1.set_maxlen(31);
    pcnf1.set_balen(4);
    pcnf1.set_endian(vals::Endian::BIG);
    pcnf1.set_statlen(0);
    pcnf1.set_whiteen(false);
    assert_eq!(word(&ops, Register::Pcnf1), pcnf1.0);

    let mut prefix0 = regs::Prefix0(0);
    prefix0.set_ap0(0xE7u8.reverse_bits());
    prefix0.set_ap1(0xC2u8.reverse_bits());
    prefix0.set_ap2(0xC3u8.reverse_bits());
    prefix0.set_ap3(0xC4u8.reverse_bits());
    assert_eq!(word(&ops, Register::Prefix0), prefix0.0);

    let mut prefix1 = regs::Prefix1(0);
    prefix1.set_ap4(0xC5u8.reverse_bits());
    prefix1.set_ap5(0xC6u8.reverse_bits());
    prefix1.set_ap6(0xC7u8.reverse_bits());
    prefix1.set_ap7(0xC8u8.reverse_bits());
    assert_eq!(word(&ops, Register::Prefix1), prefix1.0);

    let mut crccnf = regs::Crccnf(0);
    crccnf.set_len(vals::Len::ONE);
    crccnf.set_skipaddr(vals::Skipaddr::INCLUDE);
    assert_eq!(word(&ops, Register::CrcCnf), crccnf.0);

    let mut modecnf0 = regs::Modecnf0(0);
    modecnf0.set_ru(vals::Ru::DEFAULT);
    modecnf0.set_dtx(vals::Dtx::B1);
    assert_eq!(word(&ops, Register::ModeCnf0), modecnf0.0);
}

#[test]
fn the_addresses_are_reversed() {
    let (_, ops) = Radio::new(Config::default());
    assert_eq!(word(&ops, Register::Base0), 0xE7E7_E7E7u32.reverse_bits());
    assert_eq!(word(&ops, Register::Base1), 0xC2C2_C2C2u32.reverse_bits());
    let prefixes = [0xE7u8, 0xC2, 0xC3, 0xC4, 0xC5, 0xC6, 0xC7, 0xC8];
    let low = word(&ops, Register::Prefix0).to_le_bytes();
    let high = word(&ops, Register::Prefix1).to_le_bytes();
    for k in 0..4 {
        assert_eq!(low[k], prefixes[k].reverse_bits());
        assert_eq!(high[k], prefixes[k + 4].reverse_bits());
    }
}

#[test]
fn the_mode_follows_the_bitrate() {
    for (bitrate, code) in [
        (Bitrate::Esb1Mbps, 0),
        (Bitrate::Esb2Mbps, 1),
        (Bitrate::Ble1Mbps, 3),
    ] {
        let (_, ops) = Radio::new(config(bitrate, Crc::Off, 32));
        assert_eq!(word(&ops, Register::Mode), code);
    }
}

#[test]
fn the_checksum_words_follow_the_checksum() {
    for (crc, len, poly, init) in [
        (Crc::Crc16Bit, 2, 0b10001000000100001, 0xFFFF),
        (Crc::Crc8Bit, 1, 0b100000111, 0xFF),
        (Crc::Off, 0, 0, 0),
    ] {
        let (_, ops) = Radio::new(config(Bitrate::Esb1Mbps, crc, 32));
        assert_eq!(word(&ops, Register::CrcCnf), len);
        assert_eq!(word(&ops, Register::CrcPoly), poly);
        assert_eq!(word(&ops, Register::CrcInit), init);
        assert_eq!(init as u64 + 1, 1u64 << (8 * len));
    }
}

#[test]
fn the_length_field_is_wide_enough() {
    for max in 0..=252u8 {
        let (_, ops) = Radio::new(config(Bitrate::Esb1Mbps, Crc::Off, max));
        let lflen = word(&ops, Register::Pcnf0) & 0x0f;
        assert_eq!(lflen, if max >= 32 { 8 } else { 6 });
        assert!((max as u32) < 1 << lflen);
        assert_eq!(word(&ops, Register::Pcnf1) & 0xff, max as u32);
    }
}
