use ae5_control::controls::{
    choice_rollback, prepare_choice_restore, unrouted_choice_write_failure, verify_choice_restore,
};
use ae5_control::controls::{
    check_choice_request, choice_write_failure, prepare_choice, project_route_choice,
    route_repair_changes, route_repair_not_converged, route_repair_plan, selected_choice,
    verify_choice, ControlError, ControlSnapshot, EnumElement, RouteRepairPlan,
    BASS_NEEDS_LFE_LAYOUT, DIRECT_MODE_CONTROL, UNSAFE_OUTPUT_ROUTE_TRANSITION,
};

fn snapshot(name: &str) -> ControlSnapshot {
    ControlSnapshot {
        name: name.to_owned(),
        selected: None,
        choices: Vec::new(),
        playback_switch: None,
        capture_switch: None,
        playback_level: None,
        capture_level: None,
        playback_channels: Vec::new(),
        capture_channels: Vec::new(),
    }
}

fn playback_switch(name: &str, enabled: bool) -> ControlSnapshot {
    ControlSnapshot {
        playback_switch: Some(enabled),
        ..snapshot(name)
    }
}

fn selected_choice_control(name: &str, selected: &str) -> ControlSnapshot {
    ControlSnapshot {
        selected: Some(selected.to_owned()),
        choices: vec![selected.to_owned()],
        ..snapshot(name)
    }
}

fn no_repair() -> RouteRepairPlan {
    RouteRepairPlan {
        output: None,
        input: None,
        unmute_master: false,
        unmute_front: false,
    }
}

// PipeWire's route verdicts come from the application; the first and third
// states below have matching routes, the second has both routes split.
#[test]
fn plans_only_the_required_route_repairs() {
    let mut controls = vec![
        selected_choice_control("Output Select", "Headphone"),
        selected_choice_control("Surround Channel Config", "2.0"),
        selected_choice_control("Input Source", "Microphone"),
        playback_switch("Master", true),
        playback_switch("Front", true),
    ];
    assert_eq!(route_repair_plan(&controls, false, false).unwrap(), no_repair());

    assert_eq!(
        route_repair_plan(&controls, true, true).unwrap(),
        RouteRepairPlan {
            output: Some("Headphone".to_owned()),
            input: Some("Microphone".to_owned()),
            unmute_master: false,
            unmute_front: false,
        }
    );

    controls[4].playback_switch = Some(false);
    assert_eq!(
        route_repair_plan(&controls, false, false).unwrap(),
        RouteRepairPlan {
            unmute_front: true,
            ..no_repair()
        }
    );

    controls[4].playback_switch = Some(true);
    controls[3].playback_switch = Some(false);
    assert_eq!(
        route_repair_plan(&controls, false, false).unwrap(),
        RouteRepairPlan {
            unmute_master: true,
            ..no_repair()
        }
    );

    controls[3].playback_switch = Some(true);
    controls.push(playback_switch(DIRECT_MODE_CONTROL, true));
    assert_eq!(route_repair_plan(&controls, false, false).unwrap(), no_repair());

    controls.pop();
    controls.pop();
    assert!(matches!(
        route_repair_plan(&controls, false, false),
        Err(ControlError::Missing(name)) if name == "Front playback switch"
    ));

    controls.push(playback_switch("Front", true));
    controls.remove(3);
    assert!(matches!(
        route_repair_plan(&controls, false, false),
        Err(ControlError::Missing(name)) if name == "Master playback switch"
    ));
}

#[test]
fn route_repair_needs_every_selection() {
    let controls = vec![selected_choice_control("Output Select", "Speakers")];
    assert!(matches!(
        route_repair_plan(&controls, false, false),
        Err(ControlError::Missing(name)) if name == "Surround Channel Config"
    ));
    assert!(matches!(
        selected_choice(&controls, "Input Source"),
        Err(ControlError::Missing(name)) if name == "Input Source"
    ));
    assert_eq!(selected_choice(&controls, "Output Select").unwrap(), "Speakers");
}

#[test]
fn route_repair_reports_each_change_in_order() {
    let plan = RouteRepairPlan {
        output: Some("Headphone".to_owned()),
        input: Some("Microphone".to_owned()),
        unmute_master: true,
        unmute_front: true,
    };
    assert_eq!(
        route_repair_changes(&plan),
        vec![
            "reapplied Headphone output".to_owned(),
            "reapplied Microphone input".to_owned(),
            "unmuted hardware Master playback".to_owned(),
            "unmuted Front playback".to_owned(),
        ]
    );
    assert!(route_repair_changes(&no_repair()).is_empty());
    let error = route_repair_not_converged(&plan);
    assert!(matches!(
        error,
        ControlError::Verification(message)
            if message == format!("route repair did not converge: {plan:?}")
    ));
}

#[test]
fn choice_requests_are_refused_before_reading_the_control() {
    assert_eq!(
        check_choice_request("Output Select", "Speakers", true),
        Err(ControlError::Invalid(UNSAFE_OUTPUT_ROUTE_TRANSITION.to_owned()))
    );
    assert_eq!(
        check_choice_request("AE-5: Headphone Gain", "HIGH (150-600 Ohms)", false),
        Err(ControlError::Invalid(
            "high headphone gain requires explicit approval".to_owned()
        ))
    );
    assert_eq!(
        check_choice_request("AE-5: Headphone Gain", "High (150-600 Ohms)", true),
        Ok(())
    );
    assert_eq!(check_choice_request("Input Source", "Line In", false), Ok(()));
}

#[test]
fn choice_writes_select_an_offered_choice_ignoring_case() {
    let element = EnumElement {
        enumerated: true,
        choices: vec!["Microphone".to_owned(), "Line In".to_owned()],
        current: 0,
    };
    let write = prepare_choice("Input Source", "line in", Some(&element)).unwrap();
    assert_eq!(write.index, 1);
    assert_eq!(write.expected, "Line In");
    assert_eq!(write.previous.as_deref(), Some("Microphone"));
    assert!(!write.changes_output_route);

    assert_eq!(
        prepare_choice("Input Source", "Optical", Some(&element)),
        Err(ControlError::Invalid(
            "'Optical' is not valid for 'Input Source'; expected one of: Microphone, Line In"
                .to_owned()
        ))
    );
    assert_eq!(
        prepare_choice("Input Source", "Line In", None),
        Err(ControlError::Missing("Input Source".to_owned()))
    );
    let plain = EnumElement {
        enumerated: false,
        choices: Vec::new(),
        current: 0,
    };
    assert_eq!(
        prepare_choice("Front", "on", Some(&plain)),
        Err(ControlError::Invalid("'Front' is not an enumerated control".to_owned()))
    );
    let stale = EnumElement {
        enumerated: true,
        choices: vec!["Speakers".to_owned(), "Headphone".to_owned()],
        current: 7,
    };
    let write = prepare_choice("Output Select", "Headphone", Some(&stale)).unwrap();
    assert_eq!(write.previous, None);
    assert!(write.changes_output_route);
}

#[test]
fn route_choice_projection_refuses_an_inconsistent_bass_state() {
    let controls = vec![
        selected_choice_control("Output Select", "Speakers"),
        selected_choice_control("Surround Channel Config", "5.1"),
        playback_switch("Bass Redirection", true),
        playback_switch("FX: X-Bass", false),
    ];
    assert_eq!(
        project_route_choice("Surround Channel Config", &"2.0".to_owned(), controls.clone()),
        Err(ControlError::Invalid(BASS_NEEDS_LFE_LAYOUT.to_owned()))
    );
    let projected =
        project_route_choice("Surround Channel Config", &"4.1".to_owned(), controls.clone())
            .unwrap();
    assert_eq!(projected[1].selected.as_deref(), Some("4.1"));
    assert_eq!(
        project_route_choice("Surround Channel Config", &"5.1".to_owned(), controls.clone())
            .unwrap(),
        controls
    );
}

#[test]
fn choice_readback_and_rollback_messages() {
    assert_eq!(verify_choice("Input Source", "Line In", &Some("Line In".to_owned())), Ok(()));
    assert_eq!(
        verify_choice("Input Source", "Line In", &Some("Microphone".to_owned())),
        Err(ControlError::Verification(
            "'Input Source' read back as Some(\"Microphone\"), expected 'Line In'".to_owned()
        ))
    );
    assert_eq!(
        verify_choice("Input Source", "Line In", &None),
        Err(ControlError::Verification(
            "'Input Source' read back as None, expected 'Line In'".to_owned()
        ))
    );
    let failure = choice_write_failure(
        &ControlError::Alsa("busy".to_owned()),
        "PipeWire profile unchanged",
        "restored 'Speakers'",
        "route-sensitive playback state unchanged",
    );
    assert_eq!(
        failure,
        ControlError::Verification(
            "busy; PipeWire profile unchanged; restored 'Speakers'; route-sensitive playback state unchanged"
                .to_owned()
        )
    );
}

#[test]
fn channels_are_found_ignoring_case_and_unknown_ones_list_the_choices() {
    let names = vec!["Front Left".to_owned(), "Front Right".to_owned()];
    assert_eq!(ae5_control::controls::find_channel(&names, "front right"), Ok(1));
    assert_eq!(
        ae5_control::controls::find_channel(&names, "Woofer"),
        Err(ae5_control::controls::ControlError::Invalid(
            "'Woofer' is not a valid channel; expected one of: Front Left, Front Right".to_owned()
        ))
    );
    assert!(ae5_control::controls::has_capture_level("Capture", true));
    assert!(!ae5_control::controls::has_capture_level("Bass Redirection Crossover", true));
    assert!(!ae5_control::controls::has_capture_level("Capture", false));
}

#[test]
fn a_failed_choice_write_rolls_back_and_says_how() {
    let choices = vec!["Low (16-31 Ohms)".to_owned(), "Medium".to_owned()];
    assert_eq!(prepare_choice_restore("AE-5: Headphone Gain", "medium", &choices), Ok(1));
    assert_eq!(
        prepare_choice_restore("AE-5: Headphone Gain", "High", &choices),
        Err(ControlError::Invalid(
            "'High' is no longer valid for 'AE-5: Headphone Gain'".to_owned()
        ))
    );
    assert_eq!(verify_choice_restore("Medium", &Some("Medium".to_owned())), Ok(()));
    assert_eq!(
        verify_choice_restore("Medium", &None),
        Err(ControlError::Verification(
            "rollback read back as None, expected 'Medium'".to_owned()
        ))
    );
    let previous = Some("Medium".to_owned());
    assert_eq!(choice_rollback(&previous, &Ok(())), "restored 'Medium'");
    assert_eq!(
        choice_rollback(&previous, &Err(ControlError::Alsa("busy".to_owned()))),
        "choice rollback failed: busy"
    );
    assert_eq!(choice_rollback(&None, &Ok(())), "previous ALSA choice unavailable");
    assert_eq!(
        unrouted_choice_write_failure(
            &ControlError::Verification("'X' read back as None, expected 'Y'".to_owned()),
            "restored 'Medium'"
        ),
        ControlError::Verification(
            "'X' read back as None, expected 'Y'; PipeWire profile unchanged; restored 'Medium'; \
             route-sensitive playback state unchanged"
                .to_owned()
        )
    );
}
