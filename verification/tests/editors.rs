use ae5_control::controls::ControlSnapshot;
use ae5_control::editors::{control_display_name, control_row_description, Category};

#[test]
fn every_control_category_is_exclusive() {
    for name in [
        "Output Select",
        "FX: Crystalizer",
        "EQ Band0",
        "FX: Noise Reduction",
    ] {
        assert_eq!(
            Category::ALL
                .iter()
                .filter(|category| category.matches(name))
                .count(),
            1
        );
    }
}

#[test]
fn command_primary_controls_appear_first() {
    assert!(
        Category::Playback.control_order("Output Select")
            < Category::Playback.control_order("AE-5: Headphone Gain")
    );
    assert!(
        Category::Effects.control_order("FX: Surround")
            < Category::Effects.control_order("FX: Dialog Plus")
    );
    assert!(
        Category::Recording.control_order("Input Source")
            < Category::Recording.control_order("FX: Noise Reduction")
    );
    assert_eq!(
        Category::Playback.control_order("unrecognized future control"),
        u8::MAX
    );
}

#[test]
fn labels_equalizer_frequencies_and_command_aliases() {
    assert_eq!(control_display_name("EQ Band0"), "EQ Band0 · 31 Hz");
    assert_eq!(
        control_display_name("EQ Band1"),
        "EQ Band1 · 62 Hz (Bass in Command)"
    );
    assert_eq!(
        control_display_name("EQ Band8"),
        "EQ Band8 · 8 kHz (Treble in Command)"
    );
    assert_eq!(control_display_name("EQ Band9"), "EQ Band9 · 16 kHz");
    assert_eq!(control_display_name("EQ Band10"), "EQ Band10");
    assert_eq!(control_display_name("Master"), "Master");
}

#[test]
fn control_rows_describe_current_and_blocked_state() {
    let control = ControlSnapshot {
        name: "Bass Redirection".to_owned(),
        selected: None,
        choices: Vec::new(),
        playback_switch: Some(false),
        capture_switch: None,
        playback_level: None,
        capture_level: None,
        playback_channels: Vec::new(),
        capture_channels: Vec::new(),
    };

    assert_eq!(
        control_row_description(
            &control,
            Some("Select Speakers output before enabling bass redirection.")
        ),
        "Current state: Bass Redirection | playback off. Unavailable: Select Speakers output before enabling bass redirection."
    );
    assert_eq!(
        control_row_description(&control, None),
        "Current state: Bass Redirection | playback off"
    );
}

#[test]
fn band_numbers_parse_as_unsigned_integers() {
    assert_eq!(control_display_name("EQ Band+3"), "EQ Band+3 · 250 Hz");
    assert_eq!(control_display_name("EQ Band05"), "EQ Band05 · 1 kHz");
    assert_eq!(control_display_name("EQ Band"), "EQ Band");
    assert_eq!(control_display_name("EQ Band-1"), "EQ Band-1");
    assert_eq!(
        control_display_name("EQ Band99999999999999999999999"),
        "EQ Band99999999999999999999999"
    );
}

#[test]
fn every_name_has_a_page_and_unlisted_controls_sort_last() {
    for name in ["Master", "Wedge Angle", "Enable OutFX", "FX: Equalizer Preset", ""] {
        assert!(Category::ALL.iter().any(|category| category.matches(name)));
    }
    assert!(Category::Recording.matches("Wedge Angle"));
    assert!(Category::Effects.matches("Enable OutFX"));
    assert!(Category::Equalizer.matches("FX: Equalizer Preset"));
    assert!(Category::Effects.matches("FX: Equalizer"));
    assert!(Category::Playback.matches("Master"));
    assert_eq!(Category::Equalizer.control_order("FX: Equalizer Preset"), 1);
    assert_eq!(Category::Effects.control_order("Output Select"), u8::MAX);
}

#[test]
fn a_band_named_like_a_capture_control_reads_on_two_pages() {
    let name = "EQ Band Capture";
    let pages = Category::ALL
        .iter()
        .filter(|category| category.matches(name))
        .count();
    assert_eq!(pages, 2);
}

#[test]
fn pages_have_identifiers_and_titles() {
    let ids: Vec<&str> = Category::ALL.iter().map(|category| category.id()).collect();
    assert_eq!(ids, ["playback", "effects", "equalizer", "recording"]);
    assert_eq!(Category::Effects.title(), "Sound effects");
    assert!(Category::Equalizer.description().starts_with("Control the ten hardware"));
}
