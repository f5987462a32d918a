//! What is done to one display for an action: at most one brightness read,
//! then at most one brightness write, then a result to report.
//!
//! The caller performs each operation on the display and hands back what came
//! of it; the task decides the next operation.

use vstd::prelude::*;
use crate::command::Action;
use crate::number::{adjusted, clamp_level};

verus! {

/// The control code of the brightness feature.
pub const BRIGHTNESS_FEATURE: u8 = 0x10;

/// How work on one display ended.
#[derive(Clone, Copy, Debug, PartialEq, Eq, Structural)]
pub enum Outcome {
    /// The display answered a brightness read.
    Supported,
    /// The display did not answer a brightness read.
    Unsupported,
    /// The display reported this brightness.
    Brightness(u16),
    /// Reading the brightness to print it failed.
    NoReading,
    /// Reading the brightness to change it failed; nothing was written.
    NoCurrent,
    /// The display took this level as a change of its brightness.
    Adjusted(u16),
    /// The display took this level.
    Written(u16),
    /// The display refused this level.
    WriteFailed(u16),
}

/// The next thing to do to the display.
#[derive(Clone, Copy, Debug, PartialEq, Eq, Structural)]
pub enum Op {
    /// Read the brightness feature.
    Read,
    /// Write this value to the brightness feature.
    Write(u16),
    /// Report this outcome; the display is done with.
    Finish(Outcome),
}

/// What the caller hands back to the task.
#[derive(Clone, Copy, Debug, PartialEq, Eq, Structural)]
pub enum Event {
    /// Work on the display starts.
    Begin,
    /// The read finished: the value read, or `None` when it failed.
    ReadDone(Option<u16>),
    /// The write finished: whether it succeeded.
    WriteDone(bool),
}

/// Where the task stands.
#[derive(Clone, Copy, Debug, PartialEq, Eq, Structural)]
pub enum Phase {
    Start,
    Reading,
    Writing(u16),
    Done,
}

/// The phase and operation that follow `event` in `phase`.
pub open spec fn next(action: Action, phase: Phase, event: Event) -> (Phase, Op) {
    match event {
        Event::Begin => match action {
            Action::SetLevel(n) => (Phase::Writing(n), Op::Write(n)),
            _ => (Phase::Reading, Op::Read),
        },
        Event::ReadDone(read) => match read {
            Some(c) => match action {
                Action::Status => (Phase::Done, Op::Finish(Outcome::Supported)),
                Action::Adjust(d) => {
                    let v = clamp_level(c as int + d as int) as u16;
                    (Phase::Writing(v), Op::Write(v))
                },
                _ => (Phase::Done, Op::Finish(Outcome::Brightness(c))),
            },
            None => match action {
                Action::Status => (Phase::Done, Op::Finish(Outcome::Unsupported)),
                Action::Adjust(_) => (Phase::Done, Op::Finish(Outcome::NoCurrent)),
                _ => (Phase::Done, Op::Finish(Outcome::NoReading)),
            },
        },
        Event::WriteDone(ok) => {
            let v = match phase {
                Phase::Writing(v) => v,
                _ => 0,
            };
            if !ok {
                (Phase::Done, Op::Finish(Outcome::WriteFailed(v)))
            } else if action is Adjust {
                (Phase::Done, Op::Finish(Outcome::Adjusted(v)))
            } else {
                (Phase::Done, Op::Finish(Outcome::Written(v)))
            }
        },
    }
}

/// The event that a display answering reads with `read` and writes with
/// `write_ok` gives back after `op`.
pub open spec fn reply(op: Op, read: Option<u16>, write_ok: bool) -> Event {
    match op {
        Op::Read => Event::ReadDone(read),
        Op::Write(_) => Event::WriteDone(write_ok),
        Op::Finish(_) => Event::Begin,
    }
}

/// The operations issued from `phase` on, for at most `fuel` steps, up to and
/// including the first `Finish`.
pub open spec fn ops_from(
    action: Action,
    phase: Phase,
    event: Event,
    read: Option<u16>,
    write_ok: bool,
    fuel: nat,
) -> Seq<Op>
    decreases fuel,
{
    if fuel == 0 {
        Seq::empty()
    } else {
        let (p, op) = next(action, phase, event);
        if op is Finish {
            seq![op]
        } else {
            seq![op] + ops_from(action, p, reply(op, read, write_ok), read, write_ok, (fuel - 1) as nat)
        }
    }
}

/// Every operation issued on a display that answers reads with `read` and
/// writes with `write_ok`.
pub open spec fn display_ops(action: Action, read: Option<u16>, write_ok: bool) -> Seq<Op> {
    ops_from(action, Phase::Start, Event::Begin, read, write_ok, 3)
}

/// The work on one display.
pub struct DisplayTask {
    pub action: Action,
    pub phase: Phase,
}

impl DisplayTask {
    /// A task for an action that works on displays.
    pub fn new(action: Action) -> (r: DisplayTask)
        requires
            action !is Help,
        ensures
            r.action == action,
            r.phase == Phase::Start,
    {
        DisplayTask { action, phase: Phase::Start }
    }

    /// Takes what came of the last operation and gives the next one.
    pub fn step(&mut self, event: Event) -> (op: Op)
        ensures
            final(self).action == old(self).action,
            (final(self).phase, op) == next(old(self).action, old(self).phase, event),
            op is Finish <==> final(self).phase is Done,
    {
        let (phase, op) = match event {
            Event::Begin => match self.action {
                Action::SetLevel(n) => (Phase::Writing(n), Op::Write(n)),
                _ => (Phase::Reading, Op::Read),
            },
            Event::ReadDone(read) => match read {
                Some(c) => match self.action {
                    Action::Status => (Phase::Done, Op::Finish(Outcome::Supported)),
                    Action::Adjust(d) => {
                        let v = adjusted(c, d);
                        (Phase::Writing(v), Op::Write(v))
                    },
                    _ => (Phase::Done, Op::Finish(Outcome::Brightness(c))),
                },
                None => match self.action {
                    Action::Status => (Phase::Done, Op::Finish(Outcome::Unsupported)),
                    Action::Adjust(_) => (Phase::Done, Op::Finish(Outcome::NoCurrent)),
                    _ => (Phase::Done, Op::Finish(Outcome::NoReading)),
                },
            },
            Event::WriteDone(ok) => {
                let v = match self.phase {
                    Phase::Writing(v) => v,
                    _ => 0,
                };
                if !ok {
                    (Phase::Done, Op::Finish(Outcome::WriteFailed(v)))
                } else if let Action::Adjust(_) = self.action {
                    (Phase::Done, Op::Finish(Outcome::Adjusted(v)))
                } else {
                    (Phase::Done, Op::Finish(Outcome::Written(v)))
                }
            },
        };
        self.phase = phase;
        op
    }
}

} // verus!
