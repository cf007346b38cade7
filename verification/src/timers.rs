//! From the engine's timer instructions to system timers.
use vstd::prelude::*;

use crate::chord::TimerCommand;
use crate::clock::timer_period;

verus! {

/// One call on the service's hidden window.
#[derive(Clone, Copy, Debug, PartialEq, Eq, Structural)]
pub enum TimerOp {
    /// Starts the timer with that period; a running one with the same id is
    /// replaced.
    Start { id: usize, period_ms: u32 },
    /// Stops the timer.
    Kill { id: usize },
}

/// The call that carries out an instruction.
pub open spec fn op_of(command: TimerCommand) -> TimerOp {
    match command {
        TimerCommand::Start { id, duration } => TimerOp::Start {
            id,
            period_ms: crate::clock::period(duration),
        },
        TimerCommand::Kill { id } => TimerOp::Kill { id },
    }
}

/// The calls that carry out instructions, in the same order.
pub open spec fn ops_of(commands: Seq<TimerCommand>) -> Seq<TimerOp> {
    commands.map_values(|command: TimerCommand| op_of(command))
}

/// The call that carries out an instruction.
pub fn timer_op(command: TimerCommand) -> (op: TimerOp)
    ensures
        op == op_of(command),
{
    match command {
        TimerCommand::Start { id, duration } => TimerOp::Start {
            id,
            period_ms: timer_period(duration),
        },
        TimerCommand::Kill { id } => TimerOp::Kill { id },
    }
}

/// The timer that a call is about.
pub open spec fn op_id(op: TimerOp) -> usize {
    match op {
        TimerOp::Start { id, .. } => id,
        TimerOp::Kill { id } => id,
    }
}

/// The running timers with their periods after one call. A timer runs until it
/// is stopped: its firing does not end it.
pub open spec fn running_after_op(running: Map<usize, u32>, op: TimerOp) -> Map<usize, u32> {
    match op {
        TimerOp::Start { id, period_ms } => running.insert(id, period_ms),
        TimerOp::Kill { id } => running.remove(id),
    }
}

/// The running timers after calls in order.
pub open spec fn running_after(running: Map<usize, u32>, ops: Seq<TimerOp>) -> Map<usize, u32>
    decreases ops.len(),
{
    if ops.len() == 0 {
        running
    } else {
        running_after_op(running_after(running, ops.drop_last()), ops.last())
    }
}

/// Whether the call at `at` is the last one about its timer.
pub open spec fn is_last_about(ops: Seq<TimerOp>, at: int) -> bool {
    &&& 0 <= at < ops.len()
    &&& forall|i: int| at < i < ops.len() ==> op_id(#[trigger] ops[i]) != op_id(ops[at])
}

/// A timer that no call mentions keeps running, or keeps standing still.
pub proof fn lemma_other_timers_keep(running: Map<usize, u32>, ops: Seq<TimerOp>, id: usize)
    requires
        forall|i: int| 0 <= i < ops.len() ==> op_id(#[trigger] ops[i]) != id,
    ensures
        running_after(running, ops).dom().contains(id) == running.dom().contains(id),
        running.dom().contains(id) ==> running_after(running, ops)[id] == running[id],
    decreases ops.len(),
{
    if ops.len() > 0 {
        let shorter = ops.drop_last();
        assert forall|i: int| 0 <= i < shorter.len() implies op_id(#[trigger] shorter[i]) != id by {
            assert(shorter[i] == ops[i]);
        }
        lemma_other_timers_keep(running, shorter, id);
        assert(op_id(ops[ops.len() - 1]) != id);
    }
}

/// The last instruction about a timer decides: after a kill the timer does not
/// run and so cannot fire again, after a start it runs with that start's period.
pub proof fn lemma_last_instruction_decides(
    running: Map<usize, u32>,
    commands: Seq<TimerCommand>,
    at: int,
)
    requires
        is_last_about(ops_of(commands), at),
    ensures
        match commands[at] {
            TimerCommand::Start { id, duration } => {
                &&& running_after(running, ops_of(commands)).dom().contains(id)
                &&& running_after(running, ops_of(commands))[id] == crate::clock::period(duration)
            },
            TimerCommand::Kill { id } => !running_after(running, ops_of(commands)).dom().contains(
                id,
            ),
        },
{
    lemma_last_op_decides(running, ops_of(commands), at);
}

proof fn lemma_last_op_decides(running: Map<usize, u32>, ops: Seq<TimerOp>, at: int)
    requires
        is_last_about(ops, at),
    ensures
        match ops[at] {
            TimerOp::Start { id, period_ms } => {
                &&& running_after(running, ops).dom().contains(id)
                &&& running_after(running, ops)[id] == period_ms
            },
            TimerOp::Kill { id } => !running_after(running, ops).dom().contains(id),
        },
    decreases ops.len(),
{
    if at < ops.len() - 1 {
        let shorter = ops.drop_last();
        assert forall|i: int| at < i < shorter.len() implies op_id(#[trigger] shorter[i]) != op_id(
            shorter[at],
        ) by {
            assert(shorter[i] == ops[i]);
        }
        lemma_last_op_decides(running, shorter, at);
        assert(op_id(ops[ops.len() - 1]) != op_id(ops[at]));
    }
}

} // verus!
