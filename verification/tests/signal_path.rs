use ae5_control::controls::{ControlSnapshot, Level};
use ae5_control::signal_path::{effects_stage, jack_stage, output_stage, signal_path, StageState};

fn control(name: &str) -> ControlSnapshot {
    ControlSnapshot {
        name: name.to_owned(),
        selected: None,
        choices: Vec::new(),
        playback_switch: None,
        capture_switch: None,
        playback_level: None,
        capture_level: None,
        playback_channels: Vec::new(),
        capture_channels: Vec::new(),
    }
}

fn switch(name: &str, on: bool) -> ControlSnapshot {
    ControlSnapshot {
        playback_switch: Some(on),
        ..control(name)
    }
}

fn choice(name: &str, selected: &str) -> ControlSnapshot {
    ControlSnapshot {
        selected: Some(selected.to_owned()),
        ..control(name)
    }
}

#[test]
fn a_muted_output_stage_blocks_the_path() {
    let controls = vec![switch("Master", false)];
    let stage = output_stage(&controls);
    assert_eq!(stage.state, StageState::Blocked);
    assert_eq!(stage.reading, "muted");
}

#[test]
fn an_output_at_its_ceiling_reads_as_zero_db() {
    let controls = vec![ControlSnapshot {
        playback_switch: Some(true),
        playback_level: Some(Level {
            value: 99,
            min: 0,
            max: 99,
            db: None,
        }),
        ..control("Master")
    }];
    let stage = output_stage(&controls);
    assert_eq!(stage.state, StageState::Passing);
    assert_eq!(stage.reading, "0 dB");
}

#[test]
fn a_bypassed_processor_wants_attention_rather_than_looking_healthy() {
    let stage = effects_stage(&[switch("Enable OutFX", false)]);
    assert_eq!(stage.state, StageState::Attention);
    assert_eq!(stage.reading, "bypassed");
}

#[test]
fn active_effects_are_counted_with_natural_grammar() {
    let one = effects_stage(&[switch("Enable OutFX", true), switch("FX: X-Bass", true)]);
    assert_eq!(one.reading, "1 effect");

    let several = effects_stage(&[
        switch("Enable OutFX", true),
        switch("FX: X-Bass", true),
        switch("FX: Crystalizer", true),
    ]);
    assert_eq!(several.reading, "2 effects");

    let none = effects_stage(&[switch("Enable OutFX", true)]);
    assert_eq!(none.reading, "on, none active");
}

#[test]
fn high_headphone_gain_is_always_surfaced() {
    let controls = vec![
        choice("Output Select", "Headphone"),
        choice("AE-5: Headphone Gain", "High (150-600 Ohms)"),
    ];
    let stage = jack_stage(&controls);
    assert_eq!(stage.state, StageState::Attention);
    assert_eq!(stage.reading, "Headphone, High gain");

    let low = vec![
        choice("Output Select", "Headphone"),
        choice("AE-5: Headphone Gain", "Low (16-31  Ohms)"),
    ];
    assert_eq!(jack_stage(&low).state, StageState::Passing);
}

#[test]
fn missing_controls_read_as_unknown_never_as_healthy() {
    assert_eq!(output_stage(&[]).state, StageState::Unknown);
    assert_eq!(effects_stage(&[]).state, StageState::Unknown);
    assert_eq!(jack_stage(&[]).state, StageState::Unknown);
}

#[test]
fn every_state_has_a_distinct_mark_so_colour_is_not_load_bearing() {
    let marks = [
        StageState::Passing.mark(),
        StageState::Attention.mark(),
        StageState::Blocked.mark(),
        StageState::Unknown.mark(),
    ];
    let unique: std::collections::BTreeSet<_> = marks.iter().collect();
    assert_eq!(unique.len(), marks.len());
}

#[test]
fn a_partial_level_reads_as_its_raw_value_and_maximum() {
    let controls = vec![ControlSnapshot {
        playback_switch: Some(true),
        playback_level: Some(Level {
            value: 19,
            min: 0,
            max: 99,
            db: None,
        }),
        ..control("Master")
    }];
    assert_eq!(output_stage(&controls).reading, "19/99");
    assert_eq!(output_stage(&[switch("Master", true)]).reading, "on");
}

#[test]
fn a_route_without_gain_reads_as_the_route_alone() {
    let controls = vec![choice("Output Select", "Speakers")];
    let stage = jack_stage(&controls);
    assert_eq!(stage.reading, "Speakers");
    assert_eq!(stage.state, StageState::Passing);
    assert_eq!(stage.accessible_label(), "Jack: Speakers");
}

#[test]
fn the_whole_path_is_blocked_by_a_muted_master_and_lists_stages_in_order() {
    let controls = vec![
        switch("Enable OutFX", true),
        switch("Master", false),
        choice("Output Select", "Headphone"),
    ];
    let path = signal_path(&controls);
    assert!(path.blocked);
    let labels: Vec<&str> = path.stages.iter().map(|stage| stage.label).collect();
    assert_eq!(labels, ["Processing", "Output", "Jack"]);
    assert_eq!(path.stages[1].state.css_class(), "stage-blocked");

    let healthy = signal_path(&[switch("Enable OutFX", true), switch("Master", true)]);
    assert!(!healthy.blocked);
    assert_eq!(healthy.stages[2].state, StageState::Unknown);
}
