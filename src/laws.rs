//! Properties that relate reading the arguments to what is done to displays.

use vstd::prelude::*;
use crate::command::{action_of, empty_scan, resolve, scan_args, scan_token, touches_displays, Action, ArgError, Scan};
use crate::display::{display_ops, Op, Outcome};
use crate::number::{all_digits, clamp_level, digits_value, level_of, unsigned_text_value, MAX_BRIGHTNESS};

verus! {

/// A run of digits is none of the flags and begins with no sign.
proof fn lemma_digits_are_plain(t: Seq<char>)
    requires
        all_digits(t),
    ensures
        scan_token(empty_scan(), t, 0) == Ok::<Scan, ArgError>(Scan { value: Some(0), ..empty_scan() }),
        unsigned_text_value(t) == Some(digits_value(t)),
{
    reveal_strlit("--help");
    reveal_strlit("-h");
    reveal_strlit("--status");
    reveal_strlit("-s");
    reveal_strlit("--get");
    reveal_strlit("-g");
    assert(crate::number::is_digit(t[0]));
    assert(t != "--help"@ && t != "-h"@);
    assert(t != "--status"@ && t != "-s"@);
    assert(t != "--get"@ && t != "-g"@);
}

/// The only argument being a run of digits worth `n`, with `n` at most 100,
/// selects setting level `n`; then every display gets exactly one write, of
/// `n`, and nothing else but the report of how it went.
pub proof fn set_writes_level_once(token: Seq<char>, read: Option<u16>, write_ok: bool)
    requires
        all_digits(token),
        digits_value(token) <= MAX_BRIGHTNESS as int,
    ensures
        ({
            let n = digits_value(token) as u16;
            &&& action_of(seq![token]) == Ok::<Action, ArgError>(Action::SetLevel(n))
            &&& display_ops(Action::SetLevel(n), read, write_ok) == seq![
                Op::Write(n),
                Op::Finish(if write_ok { Outcome::Written(n) } else { Outcome::WriteFailed(n) }),
            ]
        }),
{
    let args = seq![token];
    lemma_digits_are_plain(token);
    crate::number::lemma_value_nonneg(token);
    assert(args.drop_last() =~= Seq::<Seq<char>>::empty());
    assert(args.last() == token);
    assert(scan_args(args.drop_last()) == Ok::<Scan, ArgError>(empty_scan()));
    assert(scan_args(args) == Ok::<Scan, ArgError>(Scan { value: Some(0), ..empty_scan() }));
    assert(args[0] == token);
    assert(level_of(token) == Some(digits_value(token) as u16));
    let n = digits_value(token) as u16;
    assert(resolve(args, Scan { value: Some(0), ..empty_scan() }) == Ok::<Action, ArgError>(Action::SetLevel(n)));
    reveal_with_fuel(crate::display::ops_from, 3);
    assert(display_ops(Action::SetLevel(n), read, write_ok) =~= seq![
        Op::Write(n),
        Op::Finish(if write_ok { Outcome::Written(n) } else { Outcome::WriteFailed(n) }),
    ]);
}

/// The only argument being a run of digits worth more than 100 is refused,
/// so no display is touched.
pub proof fn level_above_range_refused(token: Seq<char>)
    requires
        all_digits(token),
        digits_value(token) > MAX_BRIGHTNESS as int,
    ensures
        action_of(seq![token]) is Err,
        !touches_displays(action_of(seq![token])),
        digits_value(token) <= u16::MAX ==> action_of(seq![token]) == Err::<Action, ArgError>(
            ArgError::OutOfRange(digits_value(token) as u16),
        ),
        digits_value(token) > u16::MAX ==> action_of(seq![token]) == Err::<Action, ArgError>(
            ArgError::InvalidBrightness(0),
        ),
{
    let args = seq![token];
    lemma_digits_are_plain(token);
    assert(args.drop_last() =~= Seq::<Seq<char>>::empty());
    assert(args.last() == token);
    assert(scan_args(args.drop_last()) == Ok::<Scan, ArgError>(empty_scan()));
    assert(scan_args(args) == Ok::<Scan, ArgError>(Scan { value: Some(0), ..empty_scan() }));
    assert(args[0] == token);
}

/// Changing by `delta` a display that reads `current` reads it once, then
/// writes `current + delta` kept within `0..=100`, once.
pub proof fn adjust_writes_clamped_sum(delta: i16, current: u16, write_ok: bool)
    ensures
        ({
            let v = clamp_level(current as int + delta as int) as u16;
            &&& 0 <= v <= MAX_BRIGHTNESS
            &&& v as int == clamp_level(current as int + delta as int)
            &&& display_ops(Action::Adjust(delta), Some(current), write_ok) == seq![
                Op::Read,
                Op::Write(v),
                Op::Finish(if write_ok { Outcome::Adjusted(v) } else { Outcome::WriteFailed(v) }),
            ]
        }),
{
    let v = clamp_level(current as int + delta as int) as u16;
    reveal_with_fuel(crate::display::ops_from, 3);
    assert(display_ops(Action::Adjust(delta), Some(current), write_ok) =~= seq![
        Op::Read,
        Op::Write(v),
        Op::Finish(if write_ok { Outcome::Adjusted(v) } else { Outcome::WriteFailed(v) }),
    ]);
}

} // verus!
