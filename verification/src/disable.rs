//! Switching the radio off from any state.

use vstd::prelude::*;

use crate::ops::{Op, Register};
use crate::regs;
use crate::regs::RadioState;

verus! {

/// How far the radio is on its way to the DISABLED state.
///
/// Each read of the STATE register takes this a step further.
#[derive(Clone, Copy, Debug, PartialEq, Eq, Structural)]
pub enum Disable {
    /// The next read decides what to do.
    Decide,
    /// A transfer was stopped, and the radio is to become idle, unless the end of
    /// the packet has already set it on its way to being disabled.
    AwaitIdle(RadioState),
    /// The radio is ramping down, and is to become disabled.
    AwaitDisabled,
    /// The radio is disabled.
    Done,
}

/// What is to be done after a read of the STATE register.
#[derive(Clone, Copy, Debug, PartialEq, Eq)]
pub enum DisableAction {
    /// Read the register again.
    Reread,
    /// Let one instruction pass and read the register again.
    Nop,
    /// Do this and read the register again.
    Issue(Op),
    /// Do both and read the register again.
    IssueBoth(Op, Op),
    /// Nothing is left to do.
    Finish,
    /// Do this, and nothing is left to do.
    FinishWith(Op),
}

/// Whether the radio is ramping down.
pub open spec fn ramping_down(state: RadioState) -> bool {
    state == RadioState::RxDisable || state == RadioState::TxDisable
}

/// The next step, after a read that showed `observed` (`None` for a code that is
/// no state).
pub open spec fn next(step: Disable, observed: Option<RadioState>) -> Disable {
    match step {
        Disable::Decide => match observed {
            Some(RadioState::Disabled) => Disable::Done,
            Some(RadioState::Rx) => Disable::AwaitIdle(RadioState::RxIdle),
            Some(RadioState::Tx) => Disable::AwaitIdle(RadioState::TxIdle),
            Some(_) => Disable::AwaitDisabled,
            None => Disable::Decide,
        },
        Disable::AwaitIdle(idle) => match observed {
            Some(RadioState::Disabled) => Disable::Done,
            Some(state) => if ramping_down(state) {
                Disable::AwaitDisabled
            } else if state == idle {
                Disable::Decide
            } else {
                step
            },
            None => step,
        },
        Disable::AwaitDisabled => if observed == Some(RadioState::Disabled) {
            Disable::Done
        } else {
            step
        },
        Disable::Done => Disable::Done,
    }
}

/// What is done after a read that showed `observed`.
pub open spec fn action(step: Disable, observed: Option<RadioState>) -> DisableAction {
    match step {
        Disable::Decide => match observed {
            Some(RadioState::Disabled) => DisableAction::Finish,
            Some(RadioState::Rx) => DisableAction::IssueBoth(
                Op::Write(Register::TasksCcaStop, 1),
                Op::Write(Register::TasksStop, 1),
            ),
            Some(RadioState::Tx) => DisableAction::Issue(Op::Write(Register::TasksStop, 1)),
            Some(state) => if ramping_down(state) {
                DisableAction::Reread
            } else {
                DisableAction::Issue(Op::Write(Register::TasksDisable, 1))
            },
            None => DisableAction::Reread,
        },
        Disable::AwaitIdle(idle) => match observed {
            Some(RadioState::Disabled) => DisableAction::FinishWith(Op::DmaEndFence),
            Some(state) => if state == idle && !ramping_down(state) {
                DisableAction::Reread
            } else {
                DisableAction::Nop
            },
            None => DisableAction::Nop,
        },
        Disable::AwaitDisabled => if observed == Some(RadioState::Disabled) {
            DisableAction::FinishWith(Op::DmaEndFence)
        } else {
            DisableAction::Nop
        },
        Disable::Done => DisableAction::Finish,
    }
}

/// The state that the STATE register shows when it reads `word`, or `None` for a code
/// that is no state.
pub fn radio_state(word: u32) -> (r: Option<RadioState>)
    ensures
        r == regs::state_of(word),
{
    regs::state_state(word)
}

/// Whether a wait for the radio to be in `state` is over when the STATE register
/// reads `word`.
pub fn wait_for_radio_state(word: u32, state: RadioState) -> (r: bool)
    ensures
        r <==> regs::state_of(word) == Some(state),
{
    match radio_state(word) {
        Some(observed) => observed == state,
        None => false,
    }
}

impl Disable {
    /// Takes a step, after the STATE register has read `word`.
    ///
    /// A read that decides must show a state.
    pub fn observe(self, word: u32) -> (r: (Disable, DisableAction))
        requires
            self is Decide ==> regs::state_of(word) is Some,
        ensures
            r.0 == next(self, regs::state_of(word)),
            r.1 == action(self, regs::state_of(word)),
    {
        match self {
            Disable::Decide => match radio_state(word) {
                Some(RadioState::Disabled) => (Disable::Done, DisableAction::Finish),
                // idle or ramping up
                Some(RadioState::RxRu)
                | Some(RadioState::RxIdle)
                | Some(RadioState::TxRu)
                | Some(RadioState::TxIdle) => (
                    Disable::AwaitDisabled,
                    DisableAction::Issue(Op::Write(Register::TasksDisable, 1)),
                ),
                // ramping down
                Some(RadioState::RxDisable) | Some(RadioState::TxDisable) => (
                    Disable::AwaitDisabled,
                    DisableAction::Reread,
                ),
                // cancel the transfer that is going on
                Some(RadioState::Rx) => (
                    Disable::AwaitIdle(RadioState::RxIdle),
                    DisableAction::IssueBoth(
                        Op::Write(Register::TasksCcaStop, 1),
                        Op::Write(Register::TasksStop, 1),
                    ),
                ),
                Some(RadioState::Tx) => (
                    Disable::AwaitIdle(RadioState::TxIdle),
                    DisableAction::Issue(Op::Write(Register::TasksStop, 1)),
                ),
                None => (self, DisableAction::Reread),
            },
            Disable::AwaitIdle(idle) => match radio_state(word) {
                // the end of the packet has switched the radio off
                Some(RadioState::Disabled) => (
                    Disable::Done,
                    DisableAction::FinishWith(Op::DmaEndFence),
                ),
                // the end of the packet is switching the radio off
                Some(RadioState::RxDisable) | Some(RadioState::TxDisable) => (
                    Disable::AwaitDisabled,
                    DisableAction::Nop,
                ),
                _ => if wait_for_radio_state(word, idle) {
                    (Disable::Decide, DisableAction::Reread)
                } else {
                    (self, DisableAction::Nop)
                },
            },
            Disable::AwaitDisabled => if wait_for_radio_state(word, RadioState::Disabled) {
                (Disable::Done, DisableAction::FinishWith(Op::DmaEndFence))
            } else {
                (self, DisableAction::Nop)
            },
            Disable::Done => (self, DisableAction::Finish),
        }
    }
}

/// The step that is reached from `step` after the reads `observed`.
pub open spec fn run(step: Disable, observed: Seq<Option<RadioState>>) -> Disable
    decreases observed.len(),
{
    if observed.len() == 0 {
        step
    } else {
        next(run(step, observed.drop_last()), observed.last())
    }
}

/// One of the reads showed the DISABLED state.
pub open spec fn seen_disabled(observed: Seq<Option<RadioState>>) -> bool {
    exists|i: int| 0 <= i < observed.len() && observed[i] == Some(RadioState::Disabled)
}

/// From whatever state the radio is in, and however it behaves, the procedure is over
/// if and only if a read has shown the DISABLED state: it never ends before the radio
/// is off, and it never waits on once the radio is seen to be off.
pub proof fn lemma_done_iff_disabled(observed: Seq<Option<RadioState>>)
    ensures
        run(Disable::Decide, observed) is Done <==> seen_disabled(observed),
        run(Disable::Decide, observed) is Done <==> exists|i: int|
            0 <= i < observed.len() && observed[i] == Some(RadioState::Disabled),
    decreases observed.len(),
{
    if observed.len() > 0 {
        let before = observed.drop_last();
        lemma_done_iff_disabled(before);
        if seen_disabled(before) {
            let i = choose|i: int|
                0 <= i < before.len() && before[i] == Some(RadioState::Disabled);
            assert(observed[i] == Some(RadioState::Disabled));
        }
        if seen_disabled(observed) && observed.last() != Some(RadioState::Disabled) {
            let i = choose|i: int|
                0 <= i < observed.len() && observed[i] == Some(RadioState::Disabled);
            assert(before[i] == Some(RadioState::Disabled));
        }
    }
}

/// The fence after a transfer comes right after a read that showed the radio disabled,
/// and tasks are the only other steps that are issued.
pub proof fn lemma_fence_follows_read(step: Disable, observed: Option<RadioState>)
    ensures
        action(step, observed) matches DisableAction::FinishWith(op) ==> op == Op::DmaEndFence
            && observed == Some(RadioState::Disabled),
        action(step, observed) matches DisableAction::Issue(op) ==> op is Write,
        action(step, observed) matches DisableAction::IssueBoth(first, second) ==> first is Write
            && second is Write,
{
}

/// Tasks are triggered only by a read that decides, and only where they have an effect:
/// DISABLE if and only if the radio is idle or ramping up, STOP if and only if it is in a
/// transfer, and CCASTOP before it if and only if it is receiving.
pub proof fn lemma_tasks_fit_state(step: Disable, observed: Option<RadioState>)
    ensures
        action(step, observed) == DisableAction::Issue(Op::Write(Register::TasksDisable, 1)) <==> {
            &&& step is Decide
            &&& observed == Some(RadioState::RxRu) || observed == Some(RadioState::RxIdle)
                || observed == Some(RadioState::TxRu) || observed == Some(RadioState::TxIdle)
        },
        action(step, observed) == DisableAction::Issue(Op::Write(Register::TasksStop, 1)) <==> step
            is Decide && observed == Some(RadioState::Tx),
        action(step, observed) == DisableAction::IssueBoth(
            Op::Write(Register::TasksCcaStop, 1),
            Op::Write(Register::TasksStop, 1),
        ) <==> step is Decide && observed == Some(RadioState::Rx),
        action(step, observed) matches DisableAction::Issue(op) ==> op == Op::Write(
            Register::TasksDisable,
            1,
        ) || op == Op::Write(Register::TasksStop, 1),
        action(step, observed) is IssueBoth ==> step is Decide && observed == Some(RadioState::Rx),
{
}

/// What a read that decides leads to: a stopped transfer is waited for to become idle in
/// its own direction, and DISABLED is waited for only where it is on its way, because the
/// task was triggered or because the radio is ramping down already.
pub proof fn lemma_decides(observed: RadioState)
    ensures
        next(Disable::Decide, Some(observed)) == Disable::AwaitIdle(RadioState::RxIdle) <==> observed
            == RadioState::Rx,
        next(Disable::Decide, Some(observed)) == Disable::AwaitIdle(RadioState::TxIdle) <==> observed
            == RadioState::Tx,
        next(Disable::Decide, Some(observed)) is Done <==> observed == RadioState::Disabled,
        next(Disable::Decide, Some(observed)) is AwaitDisabled <==> action(
            Disable::Decide,
            Some(observed),
        ) == DisableAction::Issue(Op::Write(Register::TasksDisable, 1)) || observed
            == RadioState::RxDisable || observed == RadioState::TxDisable,
        !(next(Disable::Decide, Some(observed)) is Decide),
        action(Disable::Decide, Some(observed)) is Finish <==> observed == RadioState::Disabled,
        action(Disable::Decide, Some(observed)) is Reread <==> observed == RadioState::RxDisable
            || observed == RadioState::TxDisable,
{
}

/// How a wait for an idle radio ends: in a new decision when the radio is idle, at once
/// when it is off, and in a wait for that when it is ramping down. Until then it goes on,
/// and nothing is done but let time pass.
pub proof fn lemma_idle_wait(idle: RadioState, observed: Option<RadioState>)
    requires
        idle == RadioState::RxIdle || idle == RadioState::TxIdle,
    ensures
        next(Disable::AwaitIdle(idle), observed) is Decide <==> observed == Some(idle),
        next(Disable::AwaitIdle(idle), observed) is Done <==> observed == Some(
            RadioState::Disabled,
        ),
        next(Disable::AwaitIdle(idle), observed) is AwaitDisabled <==> observed == Some(
            RadioState::RxDisable,
        ) || observed == Some(RadioState::TxDisable),
        next(Disable::AwaitIdle(idle), observed) is AwaitIdle ==> next(
            Disable::AwaitIdle(idle),
            observed,
        ) == Disable::AwaitIdle(idle),
        action(Disable::AwaitIdle(idle), observed) is Reread <==> observed == Some(idle),
        action(Disable::AwaitIdle(idle), observed) == DisableAction::FinishWith(Op::DmaEndFence)
            <==> observed == Some(RadioState::Disabled),
        action(Disable::AwaitIdle(idle), observed) is Nop <==> observed != Some(idle) && observed
            != Some(RadioState::Disabled),
{
}

/// A wait for the radio to be off ends when it is off, with the fence, and not before.
pub proof fn lemma_disabled_wait(observed: Option<RadioState>)
    ensures
        next(Disable::AwaitDisabled, observed) == if observed == Some(RadioState::Disabled) {
            Disable::Done
        } else {
            Disable::AwaitDisabled
        },
        action(Disable::AwaitDisabled, observed) == DisableAction::FinishWith(Op::DmaEndFence)
            <==> observed == Some(RadioState::Disabled),
        action(Disable::AwaitDisabled, observed) is Nop <==> observed != Some(RadioState::Disabled),
{
}

} // verus!
