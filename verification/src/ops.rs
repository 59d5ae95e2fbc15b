//! What the driver asks of the hardware.

use vstd::prelude::*;

use crate::interrupt::AckSetup;

verus! {

/// The registers that the driver writes.
#[derive(Clone, Copy, Debug, PartialEq, Eq, Structural)]
pub enum Register {
    Power,
    Frequency,
    TxPower,
    Mode,
    Pcnf0,
    Pcnf1,
    Base0,
    Base1,
    Prefix0,
    Prefix1,
    CrcCnf,
    CrcPoly,
    CrcInit,
    ModeCnf0,
    IntenSet,
    IntenClr,
    PacketPtr,
    TxAddress,
    RxAddresses,
    Shorts,
    EventsReady,
    EventsAddress,
    EventsEnd,
    EventsDisabled,
    EventsCrcOk,
    TasksTxEn,
    TasksRxEn,
    TasksStop,
    TasksDisable,
    TasksCcaStop,
    TimerShorts,
    TimerCc0,
    TimerPrescaler,
    TimerEventsCompare0,
    TimerTasksStart,
    TimerTasksStop,
    TimerTasksClear,
    PpiChEnSet,
    PpiChEnClr,
    /// The event endpoint of a PPI channel.
    PpiEep(usize),
    /// The task endpoint of a PPI channel.
    PpiTep(usize),
    /// The second task endpoint of a PPI channel.
    PpiForkTep(usize),
}

/// One step of work on the hardware.
#[derive(Clone, Copy, Debug, PartialEq, Eq)]
pub enum Op {
    /// Write the word to the register.
    Write(Register, u32),
    /// Write the address of the second register to the first.
    WriteAddress(Register, Register),
    /// Keep writes to packet memory from moving down past this point. The next
    /// step must be a write to a register.
    DmaStartFence,
    /// Keep reads of packet memory from moving up past this point.
    DmaEndFence,
    /// Drop a radio interrupt that is pending.
    UnpendInterrupt,
    /// Let the radio interrupt.
    EnableInterrupt,
    /// Hand the interrupt handler the reception of an acknowledgement.
    PublishAck(AckSetup),
    /// Hand the interrupt handler the address of the packet to reply with.
    PublishReply(u32),
    /// Wake the task that waits for the radio.
    Wake,
}

/// What a register was last written with.
pub enum Written {
    /// This word.
    Word(u32),
    /// The address of this register.
    AddressOf(Register),
}

/// Whether the step writes to `register`.
pub open spec fn writes(op: Op, register: Register) -> bool {
    match op {
        Op::Write(r, _) => r == register,
        Op::WriteAddress(r, _) => r == register,
        _ => false,
    }
}

/// What `register` was last written with once the first `n` steps are carried out in
/// order, or `None` if none of them writes to it.
pub open spec fn written_by(ops: Seq<Op>, register: Register, n: nat) -> Option<Written>
    decreases n,
{
    if n == 0 {
        None
    } else {
        match ops[n - 1] {
            Op::Write(r, word) if r == register => Some(Written::Word(word)),
            Op::WriteAddress(r, of) if r == register => Some(Written::AddressOf(of)),
            _ => written_by(ops, register, (n - 1) as nat),
        }
    }
}

/// The last thing written to `register` is `word`.
pub open spec fn holds(ops: Seq<Op>, register: Register, word: int) -> bool {
    written_by(ops, register, ops.len()) matches Some(Written::Word(w)) && w == word
}

/// The last thing written to `register` is the address of `of`.
pub open spec fn holds_address(ops: Seq<Op>, register: Register, of: Register) -> bool {
    written_by(ops, register, ops.len()) == Some(Written::AddressOf(of))
}

/// No step writes to `register`.
pub open spec fn untouched(ops: Seq<Op>, register: Register) -> bool {
    forall|i: int| 0 <= i < ops.len() ==> !writes(#[trigger] ops[i], register)
}

/// Every write to `first` comes before every write to `second`.
pub open spec fn precedes(ops: Seq<Op>, first: Register, second: Register) -> bool {
    forall|i: int, j: int|
        0 <= i < ops.len() && 0 <= j < ops.len() && writes(#[trigger] ops[i], first) && writes(
            #[trigger] ops[j],
            second,
        ) ==> i < j
}

/// The last step triggers `task`, right after the fence, and no step before that one
/// starts the radio.
pub open spec fn ends_with_start(ops: Seq<Op>, task: Register) -> bool {
    &&& ops.len() >= 2
    &&& ops[ops.len() - 1] == Op::Write(task, 1)
    &&& ops[ops.len() - 2] is DmaStartFence
    &&& forall|i: int|
        0 <= i < ops.len() - 1 ==> !writes(#[trigger] ops[i], Register::TasksTxEn) && !writes(
            ops[i],
            Register::TasksRxEn,
        )
}

} // verus!
