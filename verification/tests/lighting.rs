use ae5_control::lighting::{
    check_led_channels, check_written_color, led_index, lighting_config_path, led_slot,
    parse_led_intensity, read_color, read_number, save_failure, set_saved_led, write_color_text,
    Ae5Lighting, LedDiscovery, LightingConfig, LightingError, LightingStep, RgbColor,
    ONBOARD_LED_COUNT,
};

#[test]
fn validates_names_channels_and_saved_configuration() {
    assert_eq!(led_index("hdaudioC0D1:rgb:ae5-1"), Some(0));
    assert_eq!(led_index("hdaudioC0D1:rgb:ae5-5"), Some(4));
    assert_eq!(led_index("hdaudioC0D1:rgb:ae5-0"), None);
    assert_eq!(led_index("hdaudioC0D1:rgb:ae5-01"), None);
    assert_eq!(led_index("other"), None);

    let colors = [RgbColor::new(12, 34, 56); ONBOARD_LED_COUNT];
    let config = LightingConfig::new(colors);
    assert_eq!(
        LightingConfig::load(Some((200, Ok(config.clone())))),
        Ok(Some(config))
    );

    let foreign = LightingConfig {
        format_version: 2,
        target: "x".to_owned(),
        leds: colors,
    };
    assert!(LightingConfig::load(Some((40, Ok(foreign)))).is_err());
}

#[test]
fn led_names_need_a_device_part_and_a_plain_number() {
    assert_eq!(led_index(":rgb:ae5-1"), None);
    assert_eq!(led_index("hdaudioC0D1:rgb:ae5-+1"), None);
    assert_eq!(led_index("hdaudioC0D1:rgb:ae5-6"), None);
    assert_eq!(led_index("a:rgb:ae5-2:rgb:ae5-3"), Some(2));
    assert_eq!(led_index("hdaudioC0D1:rgb:ae5-"), None);
}

#[test]
fn saved_lighting_is_refused_when_foreign_or_too_large() {
    let colors = [RgbColor::new(1, 2, 3); ONBOARD_LED_COUNT];
    assert_eq!(LightingConfig::load(None), Ok(None));
    assert_eq!(
        LightingConfig::load(Some((4097, Ok(LightingConfig::new(colors))))),
        Err(LightingError::InvalidData("lighting configuration is too large".to_owned()))
    );
    assert_eq!(
        LightingConfig::load(Some((10, Err("expected value at line 1 column 1".to_owned())))),
        Err(LightingError::InvalidData("expected value at line 1 column 1".to_owned()))
    );
    let wrong_target = LightingConfig {
        format_version: 1,
        target: "1102:0012/1102:0052".to_owned(),
        leds: colors,
    };
    assert_eq!(
        wrong_target.validate(),
        Err(LightingError::InvalidData(
            "lighting targets '1102:0012/1102:0052', expected '1102:0012/1102:0051'".to_owned()
        ))
    );
    let wrong_version = LightingConfig {
        format_version: 9,
        ..LightingConfig::new(colors)
    };
    assert_eq!(
        wrong_version.validate(),
        Err(LightingError::InvalidData("unsupported lighting format version 9".to_owned()))
    );
}

#[test]
fn reads_scaled_colors_from_the_led_files() {
    let intensity = parse_led_intensity("10 20 30\n").unwrap();
    assert_eq!(intensity, [10, 20, 30]);
    assert_eq!(read_color(&intensity, "255\n"), Ok(RgbColor::new(10, 20, 30)));
    assert_eq!(
        read_color(&[255, 128, 1], "128"),
        Ok(RgbColor::new(128, 64, 1))
    );
    assert_eq!(
        parse_led_intensity("10 20"),
        Err(LightingError::InvalidData(
            "lighting intensity must contain red, green, and blue".to_owned()
        ))
    );
    assert_eq!(
        parse_led_intensity("10 300 x"),
        Err(LightingError::InvalidData("lighting intensity exceeds 255".to_owned()))
    );
    assert_eq!(
        parse_led_intensity("10 x 300"),
        Err(LightingError::InvalidData(
            "x".parse::<u16>().unwrap_err().to_string()
        ))
    );
    assert_eq!(
        read_color(&[1, 2, 3], "256"),
        Err(LightingError::InvalidData("lighting brightness exceeds 255".to_owned()))
    );
    assert_eq!(read_number(" 255 \n"), Ok(255));
    assert_eq!(
        read_number("70000"),
        Err(LightingError::InvalidData(
            "70000".parse::<u16>().unwrap_err().to_string()
        ))
    );
    assert_eq!(write_color_text(RgbColor::new(255, 160, 0)), "255 160 0\n");
    assert_eq!(RgbColor::new(255, 160, 10).hex_text(), "#FFA00A");
}

#[test]
fn discovery_needs_five_distinct_leds_with_the_driver_layout() {
    assert_eq!(
        check_led_channels("/sys/class/leds/x", "green red blue\n"),
        Err(LightingError::InvalidData(
            "/sys/class/leds/x has an unexpected multicolor channel order".to_owned()
        ))
    );
    assert_eq!(check_led_channels("/sys/class/leds/x", "red green blue\n"), Ok(()));
    let mut found = LedDiscovery::new();
    for index in 0..ONBOARD_LED_COUNT {
        found
            .add(index, format!("/sys/class/leds/led{}", index + 1), "255\n")
            .unwrap();
    }
    assert_eq!(
        found.add(2, "/sys/class/leds/again".to_owned(), "255\n"),
        Err(LightingError::InvalidData("duplicate AE-5 onboard LED 3".to_owned()))
    );
    let lighting = found.finish().unwrap();
    assert_eq!(lighting.leds[4], "/sys/class/leds/led5");

    let mut partial = LedDiscovery::new();
    assert_eq!(
        partial.add(0, "/sys/class/leds/led1".to_owned(), "100"),
        Err(LightingError::InvalidData(
            "/sys/class/leds/led1 has an unexpected maximum brightness".to_owned()
        ))
    );
    partial.add(0, "/sys/class/leds/led1".to_owned(), "255").unwrap();
    assert_eq!(
        partial.finish().map(|_| ()),
        Err(LightingError::NotFound(
            "expected 5 AE-5 onboard LEDs from the patched CA0132 driver".to_owned()
        ))
    );
}

fn lighting() -> Ae5Lighting {
    Ae5Lighting {
        leds: [
            "led1".to_owned(),
            "led2".to_owned(),
            "led3".to_owned(),
            "led4".to_owned(),
            "led5".to_owned(),
        ],
    }
}

/// Drives a write transaction against LEDs held in memory; the write to
/// `blocked` fails once.
fn run(
    leds: &mut [RgbColor; ONBOARD_LED_COUNT],
    colors: [RgbColor; ONBOARD_LED_COUNT],
    blocked: Option<&str>,
) -> Result<(), LightingError> {
    let lighting = lighting();
    let position = |path: &str| lighting.leds.iter().position(|led| led == path).unwrap();
    let before = *leds;
    let (mut transaction, mut step) = lighting.set_colors(before, colors);
    let mut blocked_once = false;
    loop {
        step = match step {
            LightingStep::Write(path, color) => {
                if Some(path.as_str()) == blocked && !blocked_once {
                    blocked_once = true;
                    transaction.written(Err(LightingError::Other(
                        "injected LED write failure".to_owned(),
                    )))
                } else {
                    leds[position(&path)] = color;
                    transaction.written(Ok(()))
                }
            }
            LightingStep::Read(path) => transaction.read(Ok(leds[position(&path)])),
            LightingStep::Done(result) => return result,
        };
    }
}

#[test]
fn a_failed_led_write_rolls_every_led_back() {
    let mut leds = [RgbColor::new(10, 20, 30); ONBOARD_LED_COUNT];
    let colors = [
        RgbColor::new(255, 0, 0),
        RgbColor::new(0, 255, 0),
        RgbColor::new(0, 0, 255),
        RgbColor::new(255, 160, 0),
        RgbColor::new(180, 0, 255),
    ];
    run(&mut leds, colors, None).unwrap();
    assert_eq!(leds, colors);

    let error = run(&mut leds, [RgbColor::new(1, 2, 3); ONBOARD_LED_COUNT], Some("led3")).unwrap_err();
    assert!(!error.message().contains("rollback failed"));
    assert_eq!(error.message(), "injected LED write failure");
    assert_eq!(leds, colors);
}

#[test]
fn a_failed_rollback_is_reported_with_the_write_failure() {
    let lighting = lighting();
    let before = [RgbColor::new(0, 0, 0); ONBOARD_LED_COUNT];
    let (mut transaction, step) = lighting.set_colors(before, [RgbColor::new(9, 9, 9); ONBOARD_LED_COUNT]);
    assert_eq!(step, LightingStep::Write("led1".to_owned(), RgbColor::new(9, 9, 9)));
    let step = transaction.written(Err(LightingError::Other("write failed".to_owned())));
    assert_eq!(step, LightingStep::Read("led1".to_owned()));
    let step = transaction.read(Err(LightingError::InvalidData("unreadable".to_owned())));
    assert_eq!(step, LightingStep::Read("led2".to_owned()));
    let mut step = step;
    for _ in 0..4 {
        step = transaction.read(Ok(RgbColor::new(0, 0, 0)));
    }
    assert_eq!(
        step,
        LightingStep::Done(Err(LightingError::Other(
            "lighting write failed: write failed; rollback failed: unreadable".to_owned()
        )))
    );
}

#[test]
fn saving_one_led_changes_only_that_led() {
    let before = [RgbColor::new(1, 1, 1); ONBOARD_LED_COUNT];
    let colors = set_saved_led(2, RgbColor::new(9, 8, 7), &before).unwrap();
    assert_eq!(colors[1], RgbColor::new(9, 8, 7));
    assert_eq!(colors[0], before[0]);
    assert_eq!(colors[4], before[4]);
    assert_eq!(
        set_saved_led(6, RgbColor::new(9, 8, 7), &before),
        Err(LightingError::InvalidInput("LED index must be 1 through 5".to_owned()))
    );
    assert_eq!(led_slot(0).is_err(), true);
    assert_eq!(led_slot(5), Ok(4));
    let saved = LightingError::Other("disk full".to_owned());
    assert_eq!(save_failure(&saved, &Ok(())), saved);
    assert_eq!(
        save_failure(&saved, &Err(LightingError::Other("busy".to_owned()))),
        LightingError::Other(
            "saving lighting failed: disk full; hardware rollback failed: busy".to_owned()
        )
    );
    assert_eq!(
        check_written_color("led1", RgbColor::new(1, 2, 3), RgbColor::new(1, 2, 4)),
        Err(LightingError::InvalidData(
            "led1 read back as #010203, expected #010204".to_owned()
        ))
    );
    assert_eq!(lighting_config_path("/home/u/.config/ae5-control"), "/home/u/.config/ae5-control/lighting.json");
    assert_eq!(lighting_config_path("/cfg/"), "/cfg/lighting.json");
}

#[test]
fn lighting_page_summarizes_one_shared_color_or_a_mix() {
    let red = ae5_control::lighting::RgbColor::new(255, 0, 0);
    let blue = ae5_control::lighting::RgbColor::new(0, 0, 255);
    assert_eq!(
        ae5_control::lighting::lighting_summary(&[red; 5]),
        "All five LEDs are #FF0000"
    );
    assert_eq!(
        ae5_control::lighting::lighting_summary(&[red, red, red, red, blue]),
        "The five LEDs currently use different colors"
    );
}

#[test]
fn discovers_writes_and_reads_the_five_leds() {
    // The sysfs LED class held in memory: each LED's directory name and its
    // multi_index, multi_intensity, brightness and max_brightness files.
    let mut files: Vec<(String, String, String, String, String)> = (1..=ONBOARD_LED_COUNT)
        .rev()
        .map(|index| {
            (
                format!("hdaudioC0D1:rgb:ae5-{index}"),
                "red green blue\n".to_owned(),
                "10 20 30\n".to_owned(),
                "255\n".to_owned(),
                "255\n".to_owned(),
            )
        })
        .collect();
    files.push((
        "input0::capslock".to_owned(),
        String::new(),
        String::new(),
        String::new(),
        String::new(),
    ));

    let mut found = LedDiscovery::new();
    for (name, channels, _, _, max_brightness) in &files {
        let Some(index) = led_index(name) else {
            continue;
        };
        check_led_channels(name, channels).unwrap();
        found.add(index, name.clone(), max_brightness).unwrap();
    }
    let lighting = found.finish().unwrap();
    assert_eq!(lighting.leds[0], "hdaudioC0D1:rgb:ae5-1");

    let read = |files: &Vec<(String, String, String, String, String)>, path: &str| {
        let (_, _, intensity, brightness, _) =
            files.iter().find(|(name, ..)| name == path).unwrap();
        read_color(&parse_led_intensity(intensity).unwrap(), brightness)
    };
    let colors_of = |files: &Vec<(String, String, String, String, String)>| {
        let mut colors = [RgbColor::new(0, 0, 0); ONBOARD_LED_COUNT];
        for (color, path) in colors.iter_mut().zip(&lighting.leds) {
            *color = read(files, path).unwrap();
        }
        colors
    };
    assert_eq!(colors_of(&files), [RgbColor::new(10, 20, 30); 5]);

    let apply = |files: &mut Vec<(String, String, String, String, String)>,
                 colors: [RgbColor; ONBOARD_LED_COUNT],
                 blocked: Option<&str>| {
        let before = colors_of(files);
        let (mut transaction, mut step) = lighting.set_colors(before, colors);
        let mut blocked_once = false;
        loop {
            step = match step {
                LightingStep::Write(path, color) => {
                    if Some(path.as_str()) == blocked && !blocked_once {
                        blocked_once = true;
                        transaction.written(Err(LightingError::Other(
                            "injected LED write failure".to_owned(),
                        )))
                    } else {
                        let entry = files.iter_mut().find(|(name, ..)| *name == path).unwrap();
                        entry.2 = write_color_text(color);
                        entry.3 = "255\n".to_owned();
                        let actual = read(files, &path).unwrap();
                        transaction.written(check_written_color(&path, actual, color))
                    }
                }
                LightingStep::Read(path) => transaction.read(read(files, &path)),
                LightingStep::Done(result) => return (result, blocked_once),
            };
        }
    };

    let colors = [
        RgbColor::new(255, 0, 0),
        RgbColor::new(0, 255, 0),
        RgbColor::new(0, 0, 255),
        RgbColor::new(255, 160, 0),
        RgbColor::new(180, 0, 255),
    ];
    assert_eq!(apply(&mut files, colors, None), (Ok(()), false));
    assert_eq!(colors_of(&files), colors);

    let (result, blocked_once) = apply(
        &mut files,
        [RgbColor::new(1, 2, 3); ONBOARD_LED_COUNT],
        Some("hdaudioC0D1:rgb:ae5-3"),
    );
    assert!(blocked_once);
    assert!(!result.unwrap_err().message().contains("rollback failed"));
    assert_eq!(colors_of(&files), colors);
}
