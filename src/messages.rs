//! The text the tool prints for usage and refusals, and its exit codes.

use vstd::prelude::*;
use crate::command::{Action, ArgError};

verus! {

/// Exit code of a run that did what was asked.
pub const EXIT_OK: i32 = 0;

/// Exit code of a run that was refused before any display was written.
pub const EXIT_FAILURE: i32 = 1;

/// One line of the usage text: the program's name, then `rest`, which ends
/// the line.
pub open spec fn usage_line(program: Seq<char>, rest: Seq<char>) -> Seq<char> {
    "  "@ + program + rest
}

/// The usage text for a program called `program`.
pub open spec fn usage_of(program: Seq<char>) -> Seq<char> {
    "Usage:\n"@
        + usage_line(program, " <brightness>    Set brightness level (0-100) on supported displays\n"@)
        + usage_line(program, " --help          Print usage information\n"@)
        + usage_line(program, " --status        Check if displays support brightness adjustment\n"@)
        + usage_line(program, " --get           Get current brightness level\n"@)
        + usage_line(program, " +/-<number>     Adjust brightness by the specified value (0-100)\n"@)
}

fn append_usage_line(out: &mut String, program: &str, rest: &str)
    ensures
        final(out)@ == old(out)@ + usage_line(program@, rest@),
{
    out.append("  ");
    out.append(program);
    out.append(rest);
    assert(final(out)@ =~= old(out)@ + usage_line(program@, rest@));
}

/// The usage text, one line per form of invocation, each line ended.
pub fn usage_text(program: &str) -> (r: String)
    ensures
        r@ == usage_of(program@),
{
    let mut out = String::from_str("Usage:\n");
    append_usage_line(
        &mut out,
        program,
        " <brightness>    Set brightness level (0-100) on supported displays\n",
    );
    append_usage_line(&mut out, program, " --help          Print usage information\n");
    append_usage_line(
        &mut out,
        program,
        " --status        Check if displays support brightness adjustment\n",
    );
    append_usage_line(&mut out, program, " --get           Get current brightness level\n");
    append_usage_line(
        &mut out,
        program,
        " +/-<number>     Adjust brightness by the specified value (0-100)\n",
    );
    out
}

/// The argument at position `k`, or nothing where there is none.
pub open spec fn arg_at(args: Seq<String>, k: usize) -> Seq<char> {
    if k < args.len() {
        args[k as int]@
    } else {
        Seq::empty()
    }
}

/// The message that reports `e`, for the arguments `args`.
pub open spec fn error_text(e: ArgError, args: Seq<String>) -> Seq<char> {
    match e {
        ArgError::NoCommand => "No command specified. Type -h or --help for help"@,
        ArgError::InvalidAdjustment(k) => "Invalid adjustment value '"@ + arg_at(args, k) + "'."@,
        ArgError::UnexpectedArgument(k) => "Error: Unexpected argument '"@ + arg_at(args, k) + "'."@,
        ArgError::InvalidBrightness(k) => "Invalid brightness value: "@ + arg_at(args, k),
        ArgError::OutOfRange(_) => "Brightness value must be between 0 and 100."@,
    }
}

fn text_at(args: &Vec<String>, k: usize) -> (r: &str)
    ensures
        r@ == arg_at(args@, k),
{
    if k < args.len() {
        args[k].as_str()
    } else {
        let e = "";
        proof {
            reveal_strlit("");
        }
        assert(e@ =~= Seq::<char>::empty());
        e
    }
}

fn quoted(before: &str, arg: &str, after: &str) -> (r: String)
    ensures
        r@ == before@ + arg@ + after@,
{
    let mut out = String::from_str(before);
    out.append(arg);
    out.append(after);
    out
}

impl ArgError {
    /// The message that reports this error; `args` are the arguments after
    /// the program name that were read.
    pub fn message(&self, args: &Vec<String>) -> (r: String)
        ensures
            r@ == error_text(*self, args@),
    {
        match *self {
            ArgError::NoCommand => String::from_str("No command specified. Type -h or --help for help"),
            ArgError::InvalidAdjustment(k) => quoted("Invalid adjustment value '", text_at(args, k), "'."),
            ArgError::UnexpectedArgument(k) => quoted(
                "Error: Unexpected argument '",
                text_at(args, k),
                "'.",
            ),
            ArgError::InvalidBrightness(k) => {
                let r = quoted("Invalid brightness value: ", text_at(args, k), "");
                proof {
                    reveal_strlit("");
                }
                assert(r@ =~= "Invalid brightness value: "@ + arg_at(args@, k));
                r
            },
            ArgError::OutOfRange(_) => String::from_str("Brightness value must be between 0 and 100."),
        }
    }

    /// Whether the usage text follows the message: it does for an argument
    /// that could not be read as a flag, a change or a single value.
    pub fn shows_usage(&self) -> (r: bool)
        ensures
            r == (*self is InvalidAdjustment || *self is UnexpectedArgument),
    {
        match *self {
            ArgError::InvalidAdjustment(_) | ArgError::UnexpectedArgument(_) => true,
            _ => false,
        }
    }

    /// Every refused argument list ends the run with a failure.
    pub fn exit_code(&self) -> (r: i32)
        ensures
            r == EXIT_FAILURE,
    {
        EXIT_FAILURE
    }
}

/// Whether the run goes on to the displays once `count` of them were found:
/// setting a level with no display to take it is a failure; every other
/// action simply has nothing to do.
pub fn displays_suffice(action: Action, count: usize) -> (r: bool)
    ensures
        r == !(action is SetLevel && count == 0),
{
    match action {
        Action::SetLevel(_) => count > 0,
        _ => true,
    }
}

/// The message when no display was found to take a level.
pub fn no_displays_message() -> (r: String)
    ensures
        r@ == "No displays supporting DDC/CI found."@,
{
    String::from_str("No displays supporting DDC/CI found.")
}

} // verus!
