//! Words and steps that all transfers share.

use vstd::prelude::*;

use crate::ops::{Op, Register};
use crate::regs;

verus! {

/// The SHORTS word: start as soon as the radio is ready, and, if `end_disable`,
/// switch it off at the end of the packet.
pub open spec fn shorts_word(end_disable: bool) -> u32 {
    if end_disable {
        0b11
    } else {
        0b01
    }
}

/// The interrupt mask of the END event.
pub open spec fn int_end_word() -> u32 {
    1u32 << 3
}

/// The interrupt mask of the DISABLED event.
pub open spec fn int_disabled_word() -> u32 {
    1u32 << 4
}

/// The interrupt mask of the CRCOK event.
pub open spec fn int_crcok_word() -> u32 {
    1u32 << 12
}

/// Every fence before a transfer is followed at once by a write to a register.
pub open spec fn fences_are_followed(ops: Seq<Op>) -> bool {
    forall|i: int|
        0 <= i < ops.len() && #[trigger] ops[i] is DmaStartFence ==> i + 1 < ops.len() && ops[i
            + 1] is Write
}

/// There is no fence after a transfer.
pub open spec fn has_no_end_fence(ops: Seq<Op>) -> bool {
    forall|i: int| 0 <= i < ops.len() ==> !(#[trigger] ops[i] is DmaEndFence)
}

/// The SHORTS word.
pub(crate) fn shorts(end_disable: bool) -> (w: u32)
    ensures
        w == shorts_word(end_disable),
{
    let w0: u32 = regs::shorts_ready_start(0, true);
    assert(w0 == 0b01) by (bit_vector)
        requires
            w0 == regs::with_field(0, 0x01, 0, 1),
    ;
    if end_disable {
        let w1: u32 = regs::shorts_end_disable(w0, true);
        assert(w1 == 0b11) by (bit_vector)
            requires
                w1 == regs::with_field(0b01, 0x01, 1, 1),
        ;
        w1
    } else {
        w0
    }
}

/// The interrupt mask of the END event.
pub(crate) fn int_end() -> (w: u32)
    ensures
        w == int_end_word(),
{
    let w: u32 = regs::int_end(0, true);
    assert(w == 1u32 << 3) by (bit_vector)
        requires
            w == regs::with_field(0, 0x01, 3, 1),
    ;
    w
}

/// The interrupt mask of the DISABLED event.
pub(crate) fn int_disabled() -> (w: u32)
    ensures
        w == int_disabled_word(),
{
    let w: u32 = regs::int_disabled(0, true);
    assert(w == 1u32 << 4) by (bit_vector)
        requires
            w == regs::with_field(0, 0x01, 4, 1),
    ;
    w
}

/// The interrupt mask of the CRCOK event.
pub(crate) fn int_crcok() -> (w: u32)
    ensures
        w == int_crcok_word(),
{
    let w: u32 = regs::int_crcok(0, true);
    assert(w == 1u32 << 12) by (bit_vector)
        requires
            w == regs::with_field(0, 0x01, 12, 1),
    ;
    w
}

/// The TXADDRESS word: the logical address itself.
pub(crate) fn tx_address(address: u8) -> (w: u32)
    requires
        address < 8,
    ensures
        w == address,
{
    let w: u32 = regs::txaddress_txaddress(0, address);
    assert(w == address) by (bit_vector)
        requires
            address < 8,
            w == regs::with_field(0, 0x07, 0, address as u32),
    ;
    w
}

/// Looks at EVENTS_DISABLED while a transfer waits for the radio to switch off:
/// `None` to go on waiting, else what ends the wait.
pub fn poll_disabled(events_disabled: u32) -> (r: Option<[Op; 2]>)
    ensures
        r is Some <==> events_disabled != 0,
        r matches Some(ops) ==> ops@ == seq![
            Op::Write(Register::EventsDisabled, 0),
            Op::DmaEndFence,
        ],
{
    if events_disabled != 0 {
        let ops = [Op::Write(Register::EventsDisabled, 0), Op::DmaEndFence];
        assert(ops@ =~= seq![Op::Write(Register::EventsDisabled, 0), Op::DmaEndFence]);
        Some(ops)
    } else {
        None
    }
}

/// Looks at EVENTS_END while a reception waits for a packet: `None` to go on
/// waiting, else what ends the wait.
pub fn poll_end(events_end: u32) -> (r: Option<[Op; 2]>)
    ensures
        r is Some <==> events_end != 0,
        r matches Some(ops) ==> ops@ == seq![Op::Write(Register::EventsEnd, 0), Op::DmaEndFence],
{
    if events_end != 0 {
        let ops = [Op::Write(Register::EventsEnd, 0), Op::DmaEndFence];
        assert(ops@ =~= seq![Op::Write(Register::EventsEnd, 0), Op::DmaEndFence]);
        Some(ops)
    } else {
        None
    }
}

} // verus!
