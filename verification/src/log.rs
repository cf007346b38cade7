//! Lines of the service's log.
use vstd::prelude::*;

use crate::clock::{millis, Span};

verus! {

/// A decimal digit.
pub open spec fn decimal_digit(value: int) -> char {
    ('0' as int + value) as char
}

/// A number in decimal digits, without leading zeros.
pub open spec fn decimal(value: nat) -> Seq<char>
    decreases value,
{
    if value < 10 {
        seq![decimal_digit(value as int)]
    } else {
        decimal(value / 10).push(decimal_digit((value % 10) as int))
    }
}

/// The line for a message: when it was written, in milliseconds since the epoch,
/// and by which process. A clock that stands before the epoch reads as zero.
pub open spec fn line_of(since_epoch: Option<Span>, pid: u32, msg: Seq<char>) -> Seq<char> {
    let now = match since_epoch {
        Some(span) => span.ms() as nat,
        None => 0,
    };
    "["@ + decimal(now) + " pid="@ + decimal(pid as nat) + "] "@ + msg + "\n"@
}

fn digit(value: u128) -> (c: char)
    requires
        value < 10,
    ensures
        c == decimal_digit(value as int),
{
    match value {
        0 => '0',
        1 => '1',
        2 => '2',
        3 => '3',
        4 => '4',
        5 => '5',
        6 => '6',
        7 => '7',
        8 => '8',
        _ => '9',
    }
}

fn push_decimal(out: &mut String, value: u128)
    ensures
        final(out)@ == old(out)@ + decimal(value as nat),
    decreases value,
{
    let ghost before = out@;
    if value >= 10 {
        push_decimal(out, value / 10);
    }
    let ghost higher = out@;
    let last: char = digit(value % 10);
    out.push(last);
    proof {
        if value >= 10 {
            assert(higher == before + decimal((value / 10) as nat));
            assert(higher.push(last) =~= before + decimal((value / 10) as nat).push(last));
        } else {
            assert(higher.push(last) =~= before + seq![last]);
        }
    }
}

/// The line for a message, with its line break.
pub fn log_line(since_epoch: Option<Span>, pid: u32, msg: &str) -> (line: String)
    ensures
        line@ == line_of(since_epoch, pid, msg@),
{
    let now: u128 = match since_epoch {
        Some(span) => millis(span),
        None => 0,
    };
    let mut line: String = "[".to_owned();
    push_decimal(&mut line, now);
    vstd::string::StringExecFns::append(&mut line, " pid=");
    push_decimal(&mut line, pid as u128);
    vstd::string::StringExecFns::append(&mut line, "] ");
    vstd::string::StringExecFns::append(&mut line, msg);
    vstd::string::StringExecFns::append(&mut line, "\n");
    line
}

} // verus!
