use ae5_control::feature_parity::{
    check_feature_table, feature_parity, feature_status_report, parse_row, FeatureSupport,
};
use std::collections::BTreeSet;

// The compatibility matrix the daemon embeds is a data file of the
// application; this table has its header and one row per status.
const FEATURE_PARITY_TSV: &str = "Area\tFeature\tStatus\tLinux mechanism\tCurrent evidence\tRemaining gate\tSource\n\
Playback\tOutput selection\tverified\tALSA Output Select\tHardware readback\tNone\tCommand 3.5\n\
Effects\tSurround\tintentionally substituted\tLADSPA matrix spatialiser\tGraph render\tListening test\tCommand 3.5\n\
Lighting\tOnboard LEDs\tdeferred\tsysfs multicolor LEDs\tDriver patch\tUpstream driver\tCommand 3.5\n\
Recording\tWhat U Hear\tunsupported\tNone\tDSP loopback bypass\tDriver support\tCommand 3.5\n";

#[test]
fn embeds_every_validated_feature_once() {
    let features = feature_parity(FEATURE_PARITY_TSV);
    assert_eq!(features.len(), FEATURE_PARITY_TSV.lines().count() - 1);
    assert!(FeatureSupport::ALL
        .into_iter()
        .all(|support| { features.iter().any(|feature| feature.support == support) }));

    let unique = features
        .iter()
        .map(|feature| (feature.area, feature.feature))
        .collect::<BTreeSet<_>>();
    assert_eq!(unique.len(), features.len());
    assert!(features.iter().all(|feature| {
        !feature.area.is_empty()
            && !feature.feature.is_empty()
            && !feature.linux_mechanism.is_empty()
            && !feature.current_evidence.is_empty()
            && !feature.remaining_gate.is_empty()
            && !feature.source.is_empty()
    }));
}

#[test]
fn accepts_cli_status_names() {
    assert_eq!(
        FeatureSupport::parse("substituted"),
        Some(FeatureSupport::Substituted)
    );
    for support in FeatureSupport::ALL {
        assert_eq!(FeatureSupport::parse(support.label()), Some(support));
    }
    assert_eq!(FeatureSupport::parse("unknown"), None);
}

#[test]
fn parses_every_field_of_a_row() {
    let row = parse_row("Playback\tOutput selection\tverified\tALSA\tReadback\tNone\tCommand");
    assert_eq!(row.area, "Playback");
    assert_eq!(row.feature, "Output selection");
    assert_eq!(row.support, FeatureSupport::Verified);
    assert_eq!(row.linux_mechanism, "ALSA");
    assert_eq!(row.current_evidence, "Readback");
    assert_eq!(row.remaining_gate, "None");
    assert_eq!(row.source, "Command");
    assert_eq!(
        FeatureSupport::Deferred.description(),
        "Implemented or exposed, but still needs acceptance evidence"
    );
}

#[test]
fn windows_line_endings_and_a_header_only_table_are_read() {
    let rows = feature_parity("header\r\nA\tB\tdeferred\tC\tD\tE\tF\r\n");
    assert_eq!(rows.len(), 1);
    assert_eq!(rows[0].source, "F");
    assert!(feature_parity("header only").is_empty());
    assert!(feature_parity("").is_empty());
}

#[test]
fn feature_report_filters_details_but_keeps_summary_counts() {
    let features = feature_parity(FEATURE_PARITY_TSV);
    let report = feature_status_report(&features, Some(FeatureSupport::Unsupported));
    assert!(report.contains(&format!(
        "Sound Blaster Command feature compatibility ({} tracked)",
        features.len()
    )));
    for support in FeatureSupport::ALL {
        let count = features
            .iter()
            .filter(|feature| feature.support == support)
            .count();
        assert!(report.contains(&format!("{}: {count}", support.label())));
    }
    for feature in &features {
        assert_eq!(
            report.contains(&format!("{} · {}", feature.area, feature.feature)),
            feature.support == FeatureSupport::Unsupported
        );
    }
}

#[test]
fn full_report_lists_each_row_with_its_details() {
    let features = feature_parity("header\nLighting\tLEDs\tdeferred\tsysfs\tpatch\tdriver\tsrc\n");
    let report = feature_status_report(&features, None);
    let expected = format!(
        "Sound Blaster Command feature compatibility (1 tracked)\n  {}: 0\n  {}: 0\n  {}: 1\n  {}: 0\n\n{} (0) — {}\n\n{} (0) — {}\n\n{} (1) — {}\n  Lighting · LEDs\n    Linux: sysfs\n    Evidence: patch\n    Remaining: driver\n\n{} (0) — {}\n",
        FeatureSupport::Verified.label(),
        FeatureSupport::Substituted.label(),
        FeatureSupport::Deferred.label(),
        FeatureSupport::Unsupported.label(),
        FeatureSupport::Verified.label(),
        FeatureSupport::Verified.description(),
        FeatureSupport::Substituted.label(),
        FeatureSupport::Substituted.description(),
        FeatureSupport::Deferred.label(),
        FeatureSupport::Deferred.description(),
        FeatureSupport::Unsupported.label(),
        FeatureSupport::Unsupported.description(),
    );
    assert_eq!(report, expected);
}

#[test]
fn tables_are_checked_before_they_are_read() {
    assert_eq!(check_feature_table(FEATURE_PARITY_TSV), Ok(()));
    assert_eq!(check_feature_table(""), Ok(()));
    assert_eq!(check_feature_table("header only"), Ok(()));
    assert_eq!(
        check_feature_table("header\nA\tB\tdeferred\tC\tD\tE\tF\nA\tB\tmaybe\tC\tD\tE\tF\n"),
        Err("feature table line 3 is not a row of seven fields with a known status".to_owned())
    );
    assert_eq!(
        check_feature_table("header\nA\tB\tdeferred\tC\n"),
        Err("feature table line 2 is not a row of seven fields with a known status".to_owned())
    );
}
