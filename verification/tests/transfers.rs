use nrf_esb::exchange::{Exchange, Outcome};
use nrf_esb::interrupt::{AckSetup, Interrupt, Reply, State};
use nrf_esb::ops::{Op, Register};
use nrf_esb::transfer::{poll_disabled, poll_end};
use nrf_esb::{Config, Error, InterruptHandler, Packet, Radio};

const TX: u32 = 0x2000_1000;
const RX: u32 = 0x2000_2000;

fn radio(retransmit_count: u16) -> Radio {
    let mut config = Config::default();
    config.retransmit_count = retransmit_count;
    Radio::new(config).0
}

fn ack() -> AckSetup {
    AckSetup::new(RX, [3, 19, 0], 0x4000_8000)
}

fn received() -> Packet {
    let mut packet = Packet::new();
    packet.copy_from_slice(&[4, 5]);
    packet
}

fn used() -> Packet {
    let mut packet = Packet::new();
    *packet.as_mut_bytes() = [0xAA; 254];
    packet
}

fn fences_are_followed(ops: &[Op]) -> bool {
    ops.iter().enumerate().all(|(i, op)| {
        *op != Op::DmaStartFence || matches!(ops.get(i + 1), Some(Op::Write(_, _)))
    })
}

fn attempt(exchange: Exchange, now: u64, end: u32, crc: u32) -> Outcome {
    let (programmed, ops) = exchange.begin().unwrap();
    assert_eq!(ops.len(), 12);
    let (on_air, ops) = programmed.start(now);
    assert_eq!(ops, [Op::DmaStartFence, Op::Write(Register::TasksTxEn, 1)]);
    assert_eq!(on_air.abort(), [Op::Write(Register::TimerTasksStop, 1)]);
    on_air.settle(end, crc, &received())
}

#[test]
fn a_packet_without_acknowledgement() {
    let mut radio = radio(3);
    let mut packet = Packet::new();
    packet.copy_from_slice(&[1, 2, 3]);
    let ops = radio.try_send_no_ack(&mut packet, 5, TX).unwrap();
    assert_eq!(
        ops,
        [
            Op::Write(Register::PacketPtr, TX),
            Op::Write(Register::TxAddress, 5),
            Op::Write(Register::Shorts, 3),
            Op::Write(Register::IntenSet, 16),
            Op::Write(Register::EventsDisabled, 0),
            Op::DmaStartFence,
            Op::Write(Register::TasksTxEn, 1),
        ]
    );
    assert!(fences_are_followed(&ops));
    assert_eq!(packet.as_bytes()[1], 0b001);
    assert!(packet.no_ack());
    assert_eq!(packet.deref(), &[1, 2, 3]);
}

#[test]
fn identifiers_cycle_over_both_ways_to_send() {
    let mut radio = radio(3);
    let mut packet = Packet::new();
    for n in 0..10u8 {
        if n % 3 == 0 {
            radio.try_send_with_ack(&mut packet, 0, TX, &mut Packet::new(), ack()).unwrap();
        } else {
            radio.try_send_no_ack(&mut packet, 0, TX).unwrap();
        }
        assert_eq!(packet.pid(), n % 4);
        assert_eq!(packet.no_ack(), n % 3 != 0);
        assert!(packet.as_bytes()[1] < 8);
    }
}

#[test]
fn a_ninth_address_is_refused() {
    let mut radio = radio(3);
    let mut packet = Packet::new();
    for address in [8, 9, 255] {
        assert_eq!(
            radio.try_send_no_ack(&mut packet, address, TX).err(),
            Some(Error::InvalidAddress)
        );
        assert_eq!(
            radio
                .try_send_with_ack(&mut packet, address, TX, &mut Packet::new(), ack())
                .err(),
            Some(Error::InvalidAddress)
        );
    }
    assert_eq!(packet.as_bytes(), Packet::new().as_bytes());
    radio.try_send_no_ack(&mut packet, 7, TX).unwrap();
    assert_eq!(packet.pid(), 0);
}

#[test]
fn there_are_eight_addresses() {
    for address in 0..=255u8 {
        let expected = if address < 8 {
            Ok(())
        } else {
            Err(Error::InvalidAddress)
        };
        assert_eq!(nrf_esb::radio::check_address(address), expected);
    }
}

#[test]
fn the_registers_of_an_attempt() {
    let mut radio = radio(3);
    let mut packet = Packet::new();
    let exchange = radio.try_send_with_ack(&mut packet, 6, TX, &mut Packet::new(), ack()).unwrap();
    let (_, ops) = exchange.begin().unwrap();
    assert_eq!(
        ops,
        [
            Op::Write(Register::TimerShorts, 0x101),
            Op::Write(Register::TimerCc0, 300),
            Op::Write(Register::TimerPrescaler, 4),
            Op::Write(Register::TimerEventsCompare0, 0),
            Op::Write(Register::TimerTasksClear, 1),
            Op::Write(Register::PacketPtr, TX),
            Op::Write(Register::TxAddress, 6),
            Op::Write(Register::RxAddresses, 64),
            Op::Write(Register::Shorts, 1),
            Op::Write(Register::EventsEnd, 0),
            Op::PublishAck(ack()),
            Op::Write(Register::IntenSet, 8),
        ]
    );
    assert_eq!(packet.as_bytes()[1], 0);
}

#[test]
fn a_packet_that_is_never_acknowledged() {
    let mut radio = radio(3);
    let mut packet = Packet::new();
    let mut exchange = radio.try_send_with_ack(&mut packet, 1, TX, &mut Packet::new(), ack()).unwrap();
    let first = exchange.begin().unwrap().1;
    for (now, end, crc) in [(1000, 0, 1), (2000, 1, 0), (3000, 2, 1)] {
        assert_eq!(exchange.begin().unwrap().1, first);
        match attempt(exchange, now, end, crc) {
            Outcome::Retry { at, rest } => {
                assert_eq!(at, now + 20);
                exchange = rest;
            }
            Outcome::Acked(_) => unreachable!(),
        }
    }
    assert_eq!(exchange.begin().err(), Some(Error::MaxRetryExceeded));
}

#[test]
fn a_packet_that_is_acknowledged_at_last() {
    let mut radio = radio(2);
    let mut packet = Packet::new();
    let exchange = radio.try_send_with_ack(&mut packet, 1, TX, &mut Packet::new(), ack()).unwrap();
    let rest = match attempt(exchange, 0, 0, 0) {
        Outcome::Retry { rest, .. } => rest,
        Outcome::Acked(_) => unreachable!(),
    };
    match attempt(rest, 50, 1, 0xFFFF_FFFF) {
        Outcome::Acked(packet) => assert_eq!(packet.deref(), &[4, 5]),
        Outcome::Retry { .. } => unreachable!(),
    }
    assert!(matches!(attempt(rest, 50, 1, 0xFFFF_FFFE), Outcome::Retry { .. }));
}

#[test]
fn an_acknowledgement_is_received_into_zeroed_memory() {
    let mut radio = radio(1);
    let mut packet = Packet::new();
    let mut memory = used();
    assert!(radio
        .try_send_with_ack(&mut packet, 8, TX, &mut memory, ack())
        .is_err());
    assert_eq!(memory.as_bytes(), &[0xAA; 254]);
    radio
        .try_send_with_ack(&mut packet, 7, TX, &mut memory, ack())
        .unwrap();
    assert_eq!(memory.as_bytes(), &[0; 254]);
}

#[test]
fn no_attempts_at_all() {
    let mut radio = radio(0);
    let mut packet = Packet::new();
    let exchange = radio.try_send_with_ack(&mut packet, 1, TX, &mut Packet::new(), ack()).unwrap();
    assert_eq!(exchange.begin().err(), Some(Error::MaxRetryExceeded));
}

#[test]
fn a_reception() {
    let mut radio = radio(3);
    let mut memory = used();
    let ops = radio.try_recv(0b1000_0001, &mut memory, RX, TX);
    assert_eq!(memory.as_bytes(), &[0; 254]);
    assert_eq!(
        ops,
        [
            Op::Write(Register::PacketPtr, RX),
            Op::Write(Register::RxAddresses, 0x81),
            Op::Write(Register::Shorts, 1),
            Op::Write(Register::EventsCrcOk, 0),
            Op::Write(Register::EventsEnd, 0),
            Op::PublishReply(TX),
            Op::Write(Register::IntenSet, 0x1000),
            Op::DmaStartFence,
            Op::Write(Register::TasksRxEn, 1),
        ]
    );
    assert!(fences_are_followed(&ops));
}

#[test]
fn a_wait_ends_with_its_event() {
    assert_eq!(poll_disabled(0), None);
    assert_eq!(
        poll_disabled(1),
        Some([Op::Write(Register::EventsDisabled, 0), Op::DmaEndFence])
    );
    assert_eq!(poll_end(0), None);
    assert_eq!(
        poll_end(7),
        Some([Op::Write(Register::EventsEnd, 0), Op::DmaEndFence])
    );
}

#[test]
fn an_interrupt_with_nothing_published_wakes() {
    let mut state = State::new();
    assert_eq!(
        InterruptHandler::on_interrupt(&mut state),
        Interrupt::Wake([Op::Write(Register::IntenClr, 0xFFFF_FFFF), Op::Wake])
    );
}

#[test]
fn an_interrupt_listens_for_the_acknowledgement() {
    let mut state = State::new();
    state.publish_reply(TX);
    state.publish_ack(ack());
    let mask = (1 << 3) | (1 << 19) | 1;
    let (ops, setup) = match InterruptHandler::on_interrupt(&mut state) {
        Interrupt::Listen(ops, setup) => (ops, setup),
        other => panic!("{:?}", other),
    };
    assert_eq!(setup, ack());
    assert_eq!(setup.timer(), 0x4000_8000);
    assert_eq!(
        ops,
        [
            Op::Write(Register::IntenClr, 0xFFFF_FFFF),
            Op::Write(Register::Shorts, 3),
            Op::Write(Register::PacketPtr, RX),
            Op::Write(Register::EventsReady, 0),
            Op::Write(Register::EventsAddress, 0),
            Op::Write(Register::TimerEventsCompare0, 0),
            Op::Write(Register::PpiChEnClr, mask),
            Op::Write(Register::PpiForkTep(3), 0),
            Op::WriteAddress(Register::PpiEep(3), Register::EventsReady),
            Op::WriteAddress(Register::PpiTep(3), Register::TimerTasksStart),
            Op::Write(Register::PpiForkTep(19), 0),
            Op::WriteAddress(Register::PpiEep(19), Register::EventsAddress),
            Op::WriteAddress(Register::PpiTep(19), Register::TimerTasksStop),
            Op::Write(Register::PpiForkTep(0), 0),
            Op::WriteAddress(Register::PpiEep(0), Register::TimerEventsCompare0),
            Op::WriteAddress(Register::PpiTep(0), Register::TasksDisable),
            Op::Write(Register::PpiChEnSet, mask),
            Op::Write(Register::EventsEnd, 0),
            Op::Write(Register::EventsDisabled, 0),
            Op::Write(Register::IntenSet, 16),
            Op::DmaStartFence,
            Op::Write(Register::TasksRxEn, 1),
        ]
    );
    assert!(fences_are_followed(&ops));
    // both were taken
    assert!(matches!(
        InterruptHandler::on_interrupt(&mut state),
        Interrupt::Wake(_)
    ));
}

#[test]
fn an_interrupt_replies_as_the_sender_asked() {
    let mut radio = radio(3);
    let mut packet = Packet::new();
    for _ in 0..4 {
        let mut state = State::new();
        state.publish_reply(TX);
        let (ops, pending) = match InterruptHandler::on_interrupt(&mut state) {
            Interrupt::Received(ops, pending) => (ops, pending),
            other => panic!("{:?}", other),
        };
        assert_eq!(ops, [Op::Write(Register::IntenClr, 0xFFFF_FFFF)]);

        radio.try_send_no_ack(&mut packet, 0, TX).unwrap();
        assert_eq!(
            pending.reply_to(packet.as_bytes()[1]),
            Reply::Wake([Op::Wake])
        );

        radio.try_send_with_ack(&mut packet, 0, TX, &mut Packet::new(), ack()).unwrap();
        let reply = [
            Op::Write(Register::Shorts, 3),
            Op::Write(Register::PacketPtr, TX),
            Op::Write(Register::EventsDisabled, 0),
            Op::Write(Register::IntenSet, 16),
            Op::DmaStartFence,
            Op::Write(Register::TasksTxEn, 1),
        ];
        assert_eq!(
            pending.reply_to(packet.as_bytes()[1]),
            Reply::Transmit(reply)
        );
        assert!(fences_are_followed(&reply));
        assert!(matches!(
            InterruptHandler::on_interrupt(&mut state),
            Interrupt::Wake(_)
        ));
    }
}
