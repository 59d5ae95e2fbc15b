use embassy_nrf::pac::radio::vals::State as Code;
use nrf_esb::disable::{radio_state, wait_for_radio_state, Disable, DisableAction};
use nrf_esb::interrupt::State;
use nrf_esb::ops::{Op, Register};
use nrf_esb::regs::RadioState;
use nrf_esb::{Config, InterruptHandler, Radio};

fn word(code: Code) -> u32 {
    // the other bits of the register do not count
    0xFFFF_FFF0 | code.to_bits() as u32
}

fn write(register: Register) -> Op {
    Op::Write(register, 1)
}

#[test]
fn the_states_of_the_radio() {
    assert_eq!(radio_state(word(Code::DISABLED)), Some(RadioState::Disabled));
    assert_eq!(radio_state(word(Code::RX_RU)), Some(RadioState::RxRu));
    assert_eq!(radio_state(word(Code::RX_IDLE)), Some(RadioState::RxIdle));
    assert_eq!(radio_state(word(Code::RX)), Some(RadioState::Rx));
    assert_eq!(radio_state(word(Code::RX_DISABLE)), Some(RadioState::RxDisable));
    assert_eq!(radio_state(word(Code::TX_RU)), Some(RadioState::TxRu));
    assert_eq!(radio_state(word(Code::TX_IDLE)), Some(RadioState::TxIdle));
    assert_eq!(radio_state(word(Code::TX)), Some(RadioState::Tx));
    assert_eq!(radio_state(word(Code::TX_DISABLE)), Some(RadioState::TxDisable));
    for code in [5, 6, 7, 8, 13, 14, 15] {
        assert_eq!(radio_state(code), None);
    }
}

#[test]
fn a_wait_ends_with_its_state() {
    assert!(wait_for_radio_state(word(Code::TX_IDLE), RadioState::TxIdle));
    assert!(!wait_for_radio_state(word(Code::TX), RadioState::TxIdle));
    assert!(!wait_for_radio_state(5, RadioState::TxIdle));
}

#[test]
fn a_disabled_radio_is_left_alone() {
    assert_eq!(
        Disable::Decide.observe(word(Code::DISABLED)),
        (Disable::Done, DisableAction::Finish)
    );
}

#[test]
fn an_idle_radio_is_switched_off() {
    for code in [Code::RX_RU, Code::RX_IDLE, Code::TX_RU, Code::TX_IDLE] {
        assert_eq!(
            Disable::Decide.observe(word(code)),
            (
                Disable::AwaitDisabled,
                DisableAction::Issue(write(Register::TasksDisable))
            )
        );
    }
}

#[test]
fn a_radio_that_ramps_down_is_waited_for() {
    for code in [Code::RX_DISABLE, Code::TX_DISABLE] {
        assert_eq!(
            Disable::Decide.observe(word(code)),
            (Disable::AwaitDisabled, DisableAction::Reread)
        );
    }
}

#[test]
fn a_reception_is_stopped_first() {
    let (step, action) = Disable::Decide.observe(word(Code::RX));
    assert_eq!(
        action,
        DisableAction::IssueBoth(write(Register::TasksCcaStop), write(Register::TasksStop))
    );
    let (step, action) = step.observe(word(Code::RX));
    assert_eq!(action, DisableAction::Nop);
    let (step, action) = step.observe(word(Code::RX_IDLE));
    assert_eq!((step, action), (Disable::Decide, DisableAction::Reread));
    let (step, action) = step.observe(word(Code::RX_IDLE));
    assert_eq!(action, DisableAction::Issue(write(Register::TasksDisable)));
    let (step, action) = step.observe(word(Code::RX_DISABLE));
    assert_eq!(action, DisableAction::Nop);
    assert_eq!(
        step.observe(word(Code::DISABLED)),
        (Disable::Done, DisableAction::FinishWith(Op::DmaEndFence))
    );
}

#[test]
fn a_transmission_is_stopped_first() {
    let (step, action) = Disable::Decide.observe(word(Code::TX));
    assert_eq!(step, Disable::AwaitIdle(RadioState::TxIdle));
    assert_eq!(action, DisableAction::Issue(write(Register::TasksStop)));
    assert_eq!(step.observe(word(Code::TX_RU)), (step, DisableAction::Nop));
    assert_eq!(step.observe(7), (step, DisableAction::Nop));
    assert_eq!(
        step.observe(word(Code::TX_IDLE)),
        (Disable::Decide, DisableAction::Reread)
    );
}

#[test]
fn a_transmission_that_ends_by_itself() {
    let (step, _) = Disable::Decide.observe(word(Code::TX));
    let (step, action) = step.observe(word(Code::TX_DISABLE));
    assert_eq!((step, action), (Disable::AwaitDisabled, DisableAction::Nop));
    assert_eq!(
        step.observe(word(Code::DISABLED)),
        (Disable::Done, DisableAction::FinishWith(Op::DmaEndFence))
    );
}

#[test]
fn a_reception_that_ends_by_itself() {
    let (step, _) = Disable::Decide.observe(word(Code::RX));
    let (step, action) = step.observe(word(Code::RX_DISABLE));
    assert_eq!((step, action), (Disable::AwaitDisabled, DisableAction::Nop));
    assert_eq!(
        step.observe(word(Code::DISABLED)),
        (Disable::Done, DisableAction::FinishWith(Op::DmaEndFence))
    );
}

#[test]
fn a_transfer_that_is_over_before_it_is_looked_at_again() {
    for code in [Code::TX, Code::RX] {
        let (step, _) = Disable::Decide.observe(word(code));
        assert_eq!(
            step.observe(word(Code::DISABLED)),
            (Disable::Done, DisableAction::FinishWith(Op::DmaEndFence))
        );
    }
}

#[test]
fn switching_off_is_over_when_disabled_is_read() {
    let codes = [
        Code::RX_RU,
        Code::RX_IDLE,
        Code::RX,
        Code::RX_DISABLE,
        Code::TX_RU,
        Code::TX_IDLE,
        Code::TX,
        Code::TX_DISABLE,
    ];
    for a in codes {
        for b in codes {
            for c in codes {
                let mut step = Disable::Decide;
                for code in [a, b, c] {
                    step = step.observe(word(code)).0;
                    assert_ne!(step, Disable::Done);
                }
                assert_eq!(step.observe(word(Code::DISABLED)).0, Disable::Done);
            }
        }
    }
}

#[test]
fn switching_off_takes_back_what_was_published() {
    let (mut radio, _) = Radio::new(Config::default());
    let mut state = State::new();
    state.publish_reply(0x2000_0000);
    assert_eq!(radio.disable(&mut state), Disable::Decide);
    assert!(matches!(
        InterruptHandler::on_interrupt(&mut state),
        nrf_esb::interrupt::Interrupt::Wake(_)
    ));
}
