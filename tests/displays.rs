use ddc_brightness::command::{parse_args, Action};
use ddc_brightness::display::{DisplayTask, Event, Op, Outcome, Phase, BRIGHTNESS_FEATURE};

/// Runs a task against a display that answers reads with `read` and writes
/// with `write_ok`, and gives every operation issued.
fn run(action: Action, read: Option<u16>, write_ok: bool) -> Vec<Op> {
    let mut task = DisplayTask::new(action);
    let mut event = Event::Begin;
    let mut ops = Vec::new();
    loop {
        let op = task.step(event);
        ops.push(op);
        match op {
            Op::Read => event = Event::ReadDone(read),
            Op::Write(_) => event = Event::WriteDone(write_ok),
            Op::Finish(_) => break,
        }
        assert!(ops.len() <= 3);
    }
    assert_eq!(task.phase, Phase::Done);
    ops
}

#[test]
fn set_writes_once_per_display() {
    let action = parse_args(&vec!["50".to_string()]).unwrap();
    for _display in 0..3 {
        assert_eq!(
            run(action, Some(10), true),
            vec![Op::Write(50), Op::Finish(Outcome::Written(50))]
        );
        assert_eq!(
            run(action, None, false),
            vec![Op::Write(50), Op::Finish(Outcome::WriteFailed(50))]
        );
    }
}

#[test]
fn adjust_reads_then_writes_clamped() {
    assert_eq!(
        run(Action::Adjust(20), Some(90), true),
        vec![Op::Read, Op::Write(100), Op::Finish(Outcome::Adjusted(100))]
    );
    assert_eq!(
        run(Action::Adjust(-30), Some(20), true),
        vec![Op::Read, Op::Write(0), Op::Finish(Outcome::Adjusted(0))]
    );
    assert_eq!(
        run(Action::Adjust(5), Some(40), false),
        vec![Op::Read, Op::Write(45), Op::Finish(Outcome::WriteFailed(45))]
    );
}

#[test]
fn adjust_skips_write_when_read_fails() {
    assert_eq!(
        run(Action::Adjust(5), None, true),
        vec![Op::Read, Op::Finish(Outcome::NoCurrent)]
    );
}

#[test]
fn status_only_reads() {
    assert_eq!(
        run(Action::Status, Some(30), true),
        vec![Op::Read, Op::Finish(Outcome::Supported)]
    );
    assert_eq!(
        run(Action::Status, None, true),
        vec![Op::Read, Op::Finish(Outcome::Unsupported)]
    );
}

#[test]
fn get_only_reads() {
    assert_eq!(
        run(Action::Get, Some(30), true),
        vec![Op::Read, Op::Finish(Outcome::Brightness(30))]
    );
    assert_eq!(
        run(Action::Get, None, true),
        vec![Op::Read, Op::Finish(Outcome::NoReading)]
    );
}

#[test]
fn brightness_feature_code() {
    assert_eq!(BRIGHTNESS_FEATURE, 0x10);
}
