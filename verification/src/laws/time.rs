//! Laws of time: stamps, periods, and the timers that run.
use vstd::prelude::*;

use crate::chord::TimerCommand;
use crate::clock::{millis, now_ms, timer_period, Span};
use crate::timers::{timer_op, TimerOp};

verus! {

/// Whether `ms` is a span in whole milliseconds: not longer than the span, while one
/// more would be.
pub open spec fn is_floor(ms: int, span: Span) -> bool {
    ms * 1_000_000 <= span.secs * 1_000_000_000 + span.nanos < (ms + 1) * 1_000_000
}

/// Whether `earlier` is not longer than `later`.
pub open spec fn not_longer(earlier: Span, later: Span) -> bool {
    earlier.secs * 1_000_000_000 + earlier.nanos <= later.secs * 1_000_000_000 + later.nanos
}

/// Milliseconds are counted whole, and what is beyond them is dropped.
pub proof fn lemma_millis_are_whole(span: Span, ms: u128)
    requires
        call_ensures(millis, (span,), ms),
    ensures
        is_floor(ms as int, span),
{
}

/// A time stamp is the elapsed time in whole milliseconds, until the count no longer
/// fits; from then on it is the largest stamp.
pub proof fn lemma_stamp_is_the_time(elapsed: Span, now: u64)
    requires
        call_ensures(now_ms, (elapsed,), now),
    ensures
        is_floor(now as int, elapsed) || now == u64::MAX && elapsed.secs * 1_000_000_000
            + elapsed.nanos >= 0x1_0000_0000_0000_0000 * 1_000_000,
{
}

/// Time stamps never go back.
pub proof fn lemma_stamps_never_go_back(earlier: Span, later: Span, first: u64, second: u64)
    requires
        not_longer(earlier, later),
        call_ensures(now_ms, (earlier,), first),
        call_ensures(now_ms, (later,), second),
    ensures
        first <= second,
{
}

/// A timer's period is its duration in whole milliseconds, until that no longer fits;
/// from then on it is the longest period.
pub proof fn lemma_period_is_the_duration(duration: Span, period: u32)
    requires
        call_ensures(timer_period, (duration,), period),
    ensures
        is_period(period, duration),
{
}

/// Whether a period is that of a duration: the duration in whole milliseconds, or the
/// longest period where that does not fit.
pub open spec fn is_period(period: u32, duration: Span) -> bool {
    is_floor(period as int, duration) || period == 0xFFFF_FFFF && duration.secs * 1_000_000_000
        + duration.nanos >= 0x1_0000_0000 * 1_000_000
}

/// Longer durations never get shorter periods.
pub proof fn lemma_periods_keep_order(shorter: Span, longer: Span, first: u32, second: u32)
    requires
        not_longer(shorter, longer),
        call_ensures(timer_period, (shorter,), first),
        call_ensures(timer_period, (longer,), second),
    ensures
        first <= second,
{
}

/// Whether a call on the hidden window carries out an instruction: a start starts the
/// same timer with the duration's period, a kill stops the same timer.
pub open spec fn carries_out(op: TimerOp, command: TimerCommand) -> bool {
    match command {
        TimerCommand::Start { id, duration } => op is Start && op->Start_id == id && is_period(
            op->period_ms,
            duration,
        ),
        TimerCommand::Kill { id } => op is Kill && op->Kill_id == id,
    }
}

/// An instruction is carried out by one call that does what it says.
pub proof fn lemma_instruction_is_carried_out(command: TimerCommand, op: TimerOp)
    requires
        call_ensures(timer_op, (command,), op),
    ensures
        carries_out(op, command),
{
}

/// The timer that an instruction is about.
pub open spec fn subject(command: TimerCommand) -> usize {
    match command {
        TimerCommand::Start { id, .. } => id,
        TimerCommand::Kill { id } => id,
    }
}

/// The timers that run after calls in order, with their periods, where `running` ran
/// before.
pub open spec fn running_then(running: Map<usize, u32>, ops: Seq<TimerOp>) -> Map<usize, u32>
    decreases ops.len(),
{
    if ops.len() == 0 {
        running
    } else {
        let before = running_then(running, ops.drop_last());
        match ops.last() {
            TimerOp::Start { id, period_ms } => before.insert(id, period_ms),
            TimerOp::Kill { id } => before.remove(id),
        }
    }
}

/// Calls that carry out instructions one for one leave each timer as the last
/// instruction about it says: running with its period, or stopped. A timer that no
/// instruction is about stays as it was.
pub proof fn lemma_timers_obey(
    running: Map<usize, u32>,
    commands: Seq<TimerCommand>,
    ops: Seq<TimerOp>,
    id: usize,
)
    requires
        ops.len() == commands.len(),
        forall|i: int| 0 <= i < ops.len() ==> carries_out(#[trigger] ops[i], commands[i]),
    ensures
        forall|at: int|
            0 <= at < commands.len() && subject(commands[at]) == id && (forall|i: int|
                at < i < commands.len() ==> subject(#[trigger] commands[i]) != id) ==> {
                let after = running_then(running, ops);
                match #[trigger] commands[at] {
                    TimerCommand::Start { duration, .. } => after.dom().contains(id) && is_period(
                        after[id],
                        duration,
                    ),
                    TimerCommand::Kill { .. } => !after.dom().contains(id),
                }
            },
        (forall|i: int| 0 <= i < commands.len() ==> subject(#[trigger] commands[i]) != id) ==> {
            let after = running_then(running, ops);
            &&& after.dom().contains(id) == running.dom().contains(id)
            &&& running.dom().contains(id) ==> after[id] == running[id]
        },
    decreases ops.len(),
{
    if ops.len() > 0 {
        let fewer = commands.drop_last();
        let fewer_ops = ops.drop_last();
        assert forall|i: int| 0 <= i < fewer_ops.len() implies carries_out(
            #[trigger] fewer_ops[i],
            fewer[i],
        ) by {
            assert(fewer_ops[i] == ops[i]);
        }
        lemma_timers_obey(running, fewer, fewer_ops, id);
        let last = commands.len() - 1;
        assert(carries_out(ops[last], commands[last]));
        assert forall|at: int|
            0 <= at < commands.len() && subject(commands[at]) == id && (forall|i: int|
                at < i < commands.len() ==> subject(#[trigger] commands[i]) != id) implies {
            let after = running_then(running, ops);
            match #[trigger] commands[at] {
                TimerCommand::Start { duration, .. } => after.dom().contains(id) && is_period(
                    after[id],
                    duration,
                ),
                TimerCommand::Kill { .. } => !after.dom().contains(id),
            }
        } by {
            if at < last {
                assert(subject(commands[last]) != id);
                assert(fewer[at] == commands[at]);
                assert forall|i: int| at < i < fewer.len() implies subject(#[trigger] fewer[i])
                    != id by {
                    assert(fewer[i] == commands[i]);
                }
            }
        }
        if forall|i: int| 0 <= i < commands.len() ==> subject(#[trigger] commands[i]) != id {
            assert(subject(commands[last]) != id);
            assert forall|i: int| 0 <= i < fewer.len() implies subject(#[trigger] fewer[i])
                != id by {
                assert(fewer[i] == commands[i]);
            }
        }
    }
}

} // verus!
