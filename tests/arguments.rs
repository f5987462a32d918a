use ddc_brightness::command::{parse_args, Action, ArgError};
use ddc_brightness::messages::{displays_suffice, no_displays_message, usage_text, EXIT_FAILURE};
use ddc_brightness::number::{adjusted, parse_delta, parse_level, read_digits};
use ddc_brightness::text::{same_text, starts_with_char};

fn args(items: &[&str]) -> Vec<String> {
    items.iter().map(|s| s.to_string()).collect()
}

#[test]
fn no_arguments_is_refused() {
    let a = args(&[]);
    let r = parse_args(&a);
    assert_eq!(r, Err(ArgError::NoCommand));
    assert_eq!(r.unwrap_err().exit_code(), 1);
    assert_eq!(
        r.unwrap_err().message(&a),
        "No command specified. Type -h or --help for help"
    );
    assert!(!r.unwrap_err().shows_usage());
}

#[test]
fn help_flags_select_help() {
    assert_eq!(parse_args(&args(&["--help"])), Ok(Action::Help));
    assert_eq!(parse_args(&args(&["-h"])), Ok(Action::Help));
}

#[test]
fn help_takes_precedence() {
    assert_eq!(parse_args(&args(&["-s", "--help"])), Ok(Action::Help));
    assert_eq!(parse_args(&args(&["abc", "-h"])), Ok(Action::Help));
    assert_eq!(parse_args(&args(&["-g", "+5", "-h"])), Ok(Action::Help));
}

#[test]
fn status_before_get_before_change() {
    assert_eq!(parse_args(&args(&["--status"])), Ok(Action::Status));
    assert_eq!(parse_args(&args(&["-g", "-s"])), Ok(Action::Status));
    assert_eq!(parse_args(&args(&["--get"])), Ok(Action::Get));
    assert_eq!(parse_args(&args(&["+5", "-g"])), Ok(Action::Get));
    assert_eq!(parse_args(&args(&["500", "-g"])), Ok(Action::Get));
    assert_eq!(parse_args(&args(&["50", "+5"])), Ok(Action::Adjust(5)));
}

#[test]
fn plain_value_sets_level() {
    assert_eq!(parse_args(&args(&["50"])), Ok(Action::SetLevel(50)));
    assert_eq!(parse_args(&args(&["0"])), Ok(Action::SetLevel(0)));
    assert_eq!(parse_args(&args(&["100"])), Ok(Action::SetLevel(100)));
    assert_eq!(parse_args(&args(&["007"])), Ok(Action::SetLevel(7)));
}

#[test]
fn level_above_range_is_refused() {
    let a = args(&["101"]);
    let r = parse_args(&a);
    assert_eq!(r, Err(ArgError::OutOfRange(101)));
    assert_eq!(r.unwrap_err().exit_code(), EXIT_FAILURE);
    assert_eq!(
        r.unwrap_err().message(&a),
        "Brightness value must be between 0 and 100."
    );
    assert_eq!(parse_args(&args(&["65535"])), Err(ArgError::OutOfRange(65535)));
    assert_eq!(parse_args(&args(&["65536"])), Err(ArgError::InvalidBrightness(0)));
}

#[test]
fn unreadable_value_fails_at_number() {
    let a = args(&["abc"]);
    let r = parse_args(&a);
    assert_eq!(r, Err(ArgError::InvalidBrightness(0)));
    assert_eq!(r.unwrap_err().message(&a), "Invalid brightness value: abc");
    assert_eq!(r.unwrap_err().exit_code(), 1);
    assert!(!r.unwrap_err().shows_usage());
}

#[test]
fn second_value_is_unexpected() {
    let a = args(&["50", "60"]);
    let r = parse_args(&a);
    assert_eq!(r, Err(ArgError::UnexpectedArgument(1)));
    let m = r.unwrap_err().message(&a);
    assert_eq!(m, "Error: Unexpected argument '60'.");
    assert!(m.contains("Unexpected argument"));
    assert!(r.unwrap_err().shows_usage());
    assert_eq!(r.unwrap_err().exit_code(), 1);
}

#[test]
fn second_value_refused_even_with_help_after() {
    assert_eq!(
        parse_args(&args(&["50", "60", "--help"])),
        Err(ArgError::UnexpectedArgument(1))
    );
}

#[test]
fn signed_values_are_changes() {
    assert_eq!(parse_args(&args(&["+10"])), Ok(Action::Adjust(10)));
    assert_eq!(parse_args(&args(&["-10"])), Ok(Action::Adjust(-10)));
    assert_eq!(parse_args(&args(&["-32768"])), Ok(Action::Adjust(-32768)));
    assert_eq!(parse_args(&args(&["+32767"])), Ok(Action::Adjust(32767)));
    assert_eq!(parse_args(&args(&["+5", "-3"])), Ok(Action::Adjust(-3)));
}

#[test]
fn bad_change_is_refused() {
    let a = args(&["+x"]);
    let r = parse_args(&a);
    assert_eq!(r, Err(ArgError::InvalidAdjustment(0)));
    assert_eq!(r.unwrap_err().message(&a), "Invalid adjustment value '+x'.");
    assert!(r.unwrap_err().shows_usage());
    assert_eq!(parse_args(&args(&["-"])), Err(ArgError::InvalidAdjustment(0)));
    assert_eq!(parse_args(&args(&["+32768"])), Err(ArgError::InvalidAdjustment(0)));
    assert_eq!(parse_args(&args(&["50", "--verbose"])), Err(ArgError::InvalidAdjustment(1)));
}

#[test]
fn delta_text() {
    assert_eq!(parse_delta("+12"), Some(12));
    assert_eq!(parse_delta("-12"), Some(-12));
    assert_eq!(parse_delta("12"), Some(12));
    assert_eq!(parse_delta("-32769"), None);
    assert_eq!(parse_delta("+-1"), None);
    assert_eq!(parse_delta(""), None);
    assert_eq!(parse_delta("1a"), None);
}

#[test]
fn level_text() {
    assert_eq!(parse_level("42"), Some(42));
    assert_eq!(parse_level("+42"), Some(42));
    assert_eq!(parse_level("-0"), None);
    assert_eq!(parse_level("+"), None);
    assert_eq!(parse_level(""), None);
    assert_eq!(parse_level("65535"), Some(65535));
    assert_eq!(parse_level("99999999999"), None);
    assert_eq!(read_digits("x123", 1, 200), Some(123));
    assert_eq!(read_digits("x123", 1, 100), None);
    assert_eq!(read_digits("x123", 4, 100), None);
}

#[test]
fn clamped_change() {
    assert_eq!(adjusted(50, 7), 57);
    assert_eq!(adjusted(90, 20), 100);
    assert_eq!(adjusted(5, -10), 0);
    assert_eq!(adjusted(0, 0), 0);
    assert_eq!(adjusted(100, -100), 0);
    assert_eq!(adjusted(65535, 1), 100);
    assert_eq!(adjusted(40, -32768), 0);
}

#[test]
fn setting_needs_a_display() {
    assert!(!displays_suffice(Action::SetLevel(50), 0));
    assert!(displays_suffice(Action::SetLevel(50), 2));
    assert!(displays_suffice(Action::Adjust(5), 0));
    assert!(displays_suffice(Action::Status, 0));
    assert_eq!(no_displays_message(), "No displays supporting DDC/CI found.");
}

#[test]
fn usage_lists_every_form() {
    let expected = [
        "Usage:\n",
        "  prog <brightness>    Set brightness level (0-100) on supported displays\n",
        "  prog --help          Print usage information\n",
        "  prog --status        Check if displays support brightness adjustment\n",
        "  prog --get           Get current brightness level\n",
        "  prog +/-<number>     Adjust brightness by the specified value (0-100)\n",
    ]
    .concat();
    assert_eq!(usage_text("prog"), expected);
}

#[test]
fn text_helpers() {
    assert!(same_text("--help", "--help"));
    assert!(!same_text("--help", "--hel"));
    assert!(!same_text("-h", "-s"));
    assert!(starts_with_char("+5", '+'));
    assert!(!starts_with_char("", '+'));
}
