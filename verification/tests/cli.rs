use ae5_control::cli::{smoke_test_value, SMOKE_TEST_CANDIDATES};
use ae5_control::controls::Level;
use ae5_control::cli::{missing_level, parse_color, parse_switch, CliError};
use ae5_control::lighting::RgbColor;

#[test]
fn switches_are_on_or_off() {
    assert_eq!(parse_switch("on"), Ok(true));
    assert_eq!(parse_switch("off"), Ok(false));
    assert_eq!(
        parse_switch("On"),
        Err(CliError::InvalidInput("switch value must be 'on' or 'off'".to_owned()))
    );
}

#[test]
fn colors_are_three_bytes() {
    assert_eq!(parse_color("255", "+160", "0"), Ok(RgbColor::new(255, 160, 0)));
    assert_eq!(
        parse_color("256", "x", "0"),
        Err(CliError::InvalidInput("red must be an integer from 0 through 255".to_owned()))
    );
    assert_eq!(
        parse_color("1", "-1", "0"),
        Err(CliError::InvalidInput("green must be an integer from 0 through 255".to_owned()))
    );
    assert_eq!(
        parse_color("1", "2", ""),
        Err(CliError::InvalidInput("blue must be an integer from 0 through 255".to_owned()))
    );
    for text in ["0", "7", "42", "255", "+1", "", "+", "-0", " 1", "1 ", "256", "0255"] {
        assert_eq!(
            parse_color(text, "0", "0").ok().map(|color| color.red),
            text.parse::<u8>().ok(),
            "{text:?}"
        );
    }
}

#[test]
fn a_missing_level_names_its_control() {
    assert_eq!(
        missing_level("Front"),
        CliError::Other("'Front' has no playback level".to_owned())
    );
}

#[test]
fn smoke_tests_step_inside_the_range() {
    let level = |value, min, max| Level {
        value,
        min,
        max,
        db: None,
    };
    assert_eq!(smoke_test_value(&level(3, 0, 10)), Some(4));
    assert_eq!(smoke_test_value(&level(10, 0, 10)), Some(9));
    assert_eq!(smoke_test_value(&level(5, 5, 5)), None);
    assert_eq!(
        SMOKE_TEST_CANDIDATES[1],
        ("Bass Redirection", "Bass Redirection Crossover")
    );
}
