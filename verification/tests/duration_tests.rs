use my_board::DurationInput;

#[test]
fn test_duration_round_trip() {
    for value in [0u32, 1, 45, 59, 60, 61, 75, 90, 600, 100_000] {
        assert_eq!(value, DurationInput::from(value).value());
    }
}

#[test]
fn test_duration_from_splits_over_an_hour() {
    assert_eq!(DurationInput::HoursAndMinutes(1, 15), DurationInput::from(75));
    assert_eq!(DurationInput::HoursAndMinutes(1, 30), DurationInput::from(90));
    assert_eq!(DurationInput::HoursAndMinutes(1, 0), DurationInput::from(60));
}

#[test]
fn test_duration_from_keeps_minutes_under_an_hour() {
    assert_eq!(DurationInput::Minutes(45), DurationInput::from(45));
    assert_eq!(DurationInput::Minutes(0), DurationInput::from(0));
    assert_eq!(DurationInput::Minutes(59), DurationInput::from(59));
}

#[test]
fn test_duration_value_adds_hours() {
    assert_eq!(75, DurationInput::HoursAndMinutes(1, 15).value());
    assert_eq!(45, DurationInput::Minutes(45).value());
    assert_eq!(120, DurationInput::HoursAndMinutes(2, 0).value());
}
