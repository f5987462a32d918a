//! The argument list and the action it selects.

use vstd::prelude::*;
use crate::number::{delta_of, level_of, parse_delta, parse_level, MAX_BRIGHTNESS};
use crate::text::{same_text, starts_with_char};

verus! {

/// What one invocation does.
#[derive(Clone, Copy, Debug, PartialEq, Eq, Structural)]
pub enum Action {
    /// Print how to use the tool.
    Help,
    /// Tell, for each display, whether it answers a brightness read.
    Status,
    /// Print the brightness of each display.
    Get,
    /// Move the brightness of each display by this amount, kept within range.
    Adjust(i16),
    /// Set the brightness of each display to this level.
    SetLevel(u16),
}

/// Why an argument list selects no action. Positions count the arguments
/// after the program name, from zero.
#[derive(Clone, Copy, Debug, PartialEq, Eq, Structural)]
pub enum ArgError {
    /// No argument was given.
    NoCommand,
    /// The argument at this position begins with a sign but is no 16-bit
    /// signed number.
    InvalidAdjustment(usize),
    /// A second plain value stands at this position.
    UnexpectedArgument(usize),
    /// The plain value at this position is no 16-bit unsigned number.
    InvalidBrightness(usize),
    /// The level asked for lies above the brightness range.
    OutOfRange(u16),
}

/// What the arguments read so far have asked for.
#[derive(Clone, Copy, Debug, PartialEq, Eq, Structural)]
pub struct Scan {
    pub help: bool,
    pub status: bool,
    pub get: bool,
    /// The last signed change given.
    pub delta: Option<i16>,
    /// The position of the plain value, if one was given.
    pub value: Option<usize>,
}

/// The characters of each argument.
pub open spec fn texts(args: Seq<String>) -> Seq<Seq<char>> {
    args.map_values(|a: String| a@)
}

pub open spec fn empty_scan() -> Scan {
    Scan { help: false, status: false, get: false, delta: None, value: None }
}

/// The effect of the argument `a`, standing at position `i`, on `st`.
pub open spec fn scan_token(st: Scan, a: Seq<char>, i: usize) -> Result<Scan, ArgError> {
    if a == "--help"@ || a == "-h"@ {
        Ok(Scan { help: true, ..st })
    } else if a == "--status"@ || a == "-s"@ {
        Ok(Scan { status: true, ..st })
    } else if a == "--get"@ || a == "-g"@ {
        Ok(Scan { get: true, ..st })
    } else if a.len() > 0 && (a[0] == '+' || a[0] == '-') {
        match delta_of(a) {
            Some(d) => Ok(Scan { delta: Some(d), ..st }),
            None => Err(ArgError::InvalidAdjustment(i)),
        }
    } else if st.value is Some {
        Err(ArgError::UnexpectedArgument(i))
    } else {
        Ok(Scan { value: Some(i), ..st })
    }
}

/// Reads the arguments in order, stopping at the first that is refused.
pub open spec fn scan_args(args: Seq<Seq<char>>) -> Result<Scan, ArgError>
    decreases args.len(),
{
    if args.len() == 0 {
        Ok(empty_scan())
    } else {
        match scan_args(args.drop_last()) {
            Ok(st) => scan_token(st, args.last(), (args.len() - 1) as usize),
            Err(e) => Err(e),
        }
    }
}

/// The action that a completed scan selects: help before status, status
/// before reading the level, that before a change, and a change before an
/// absolute level.
pub open spec fn resolve(args: Seq<Seq<char>>, st: Scan) -> Result<Action, ArgError> {
    if st.help {
        Ok(Action::Help)
    } else if st.status {
        Ok(Action::Status)
    } else if st.get {
        Ok(Action::Get)
    } else if st.delta is Some {
        Ok(Action::Adjust(st.delta->0))
    } else {
        match st.value {
            Some(i) => match level_of(args[i as int]) {
                Some(n) => if n <= MAX_BRIGHTNESS {
                    Ok(Action::SetLevel(n))
                } else {
                    Err(ArgError::OutOfRange(n))
                },
                None => Err(ArgError::InvalidBrightness(i)),
            },
            None => Err(ArgError::NoCommand),
        }
    }
}

/// The action that the arguments after the program name select.
pub open spec fn action_of(args: Seq<Seq<char>>) -> Result<Action, ArgError> {
    if args.len() == 0 {
        Err(ArgError::NoCommand)
    } else {
        match scan_args(args) {
            Ok(st) => resolve(args, st),
            Err(e) => Err(e),
        }
    }
}

/// Whether an outcome of reading the arguments leads to any display being
/// enumerated, read or written.
pub open spec fn touches_displays(r: Result<Action, ArgError>) -> bool {
    r matches Ok(a) && a !is Help
}

fn scan_one(st: Scan, a: &str, i: usize) -> (r: Result<Scan, ArgError>)
    ensures
        r == scan_token(st, a@, i),
{
    if same_text(a, "--help") || same_text(a, "-h") {
        Ok(Scan { help: true, ..st })
    } else if same_text(a, "--status") || same_text(a, "-s") {
        Ok(Scan { status: true, ..st })
    } else if same_text(a, "--get") || same_text(a, "-g") {
        Ok(Scan { get: true, ..st })
    } else if starts_with_char(a, '+') || starts_with_char(a, '-') {
        match parse_delta(a) {
            Some(d) => Ok(Scan { delta: Some(d), ..st }),
            None => Err(ArgError::InvalidAdjustment(i)),
        }
    } else if st.value.is_some() {
        Err(ArgError::UnexpectedArgument(i))
    } else {
        Ok(Scan { value: Some(i), ..st })
    }
}

/// Reads the arguments after the program name into the action they select.
pub fn parse_args(args: &Vec<String>) -> (r: Result<Action, ArgError>)
    ensures
        r == action_of(texts(args@)),
{
    let ghost all = texts(args@);
    if args.len() == 0 {
        return Err(ArgError::NoCommand);
    }
    let mut st = Scan { help: false, status: false, get: false, delta: None, value: None };
    let mut i: usize = 0;
    while i < args.len()
        invariant
            all == texts(args@),
            0 <= i <= args@.len(),
            scan_args(all.take(i as int)) == Ok::<Scan, ArgError>(st),
            st.value matches Some(k) ==> k < i,
        decreases args.len() - i,
    {
        assert(all.take(i + 1).drop_last() =~= all.take(i as int));
        assert(all.take(i + 1).last() == args@[i as int]@);
        match scan_one(st, args[i].as_str(), i) {
            Ok(next) => {
                st = next;
            },
            Err(e) => {
                proof {
                    lemma_scan_stops(all, i as int + 1);
                }
                return Err(e);
            },
        }
        i = i + 1;
    }
    assert(all.take(i as int) =~= all);
    if st.help {
        Ok(Action::Help)
    } else if st.status {
        Ok(Action::Status)
    } else if st.get {
        Ok(Action::Get)
    } else if let Some(d) = st.delta {
        Ok(Action::Adjust(d))
    } else {
        match st.value {
            Some(k) => match parse_level(args[k].as_str()) {
                Some(n) => if n <= MAX_BRIGHTNESS {
                    Ok(Action::SetLevel(n))
                } else {
                    Err(ArgError::OutOfRange(n))
                },
                None => Err(ArgError::InvalidBrightness(k)),
            },
            None => Err(ArgError::NoCommand),
        }
    }
}

/// Once an argument is refused, the scan of every longer prefix fails with
/// the same error.
proof fn lemma_scan_stops(args: Seq<Seq<char>>, k: int)
    requires
        0 < k <= args.len(),
        scan_args(args.take(k)) is Err,
    ensures
        scan_args(args) == scan_args(args.take(k)),
    decreases args.len() - k,
{
    if k < args.len() {
        assert(args.take(k + 1).drop_last() =~= args.take(k));
        lemma_scan_stops(args, k + 1);
    } else {
        assert(args.take(k) =~= args);
    }
}

} // verus!
