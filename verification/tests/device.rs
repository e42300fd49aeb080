use ae5_control::device::{is_supported_ae5, parse_card_index, Ae5Device};

#[test]
fn parses_only_alsa_card_directory_names() {
    assert_eq!(parse_card_index("card0"), Some(0));
    assert_eq!(parse_card_index("card12"), Some(12));
    assert_eq!(parse_card_index("controlC1"), None);
    assert_eq!(parse_card_index("card"), None);
    assert_eq!(parse_card_index("card1x"), None);
}

#[test]
fn matches_the_audited_ae5_revision_only() {
    assert!(is_supported_ae5(0x1102, 0x0012, 0x1102, 0x0051));
    assert!(!is_supported_ae5(0x1102, 0x0012, 0x1102, 0x0052));
    assert!(!is_supported_ae5(0x1234, 0x0012, 0x1102, 0x0051));
}

#[test]
fn card_indices_must_fit_an_i32_and_be_plain_digits() {
    assert_eq!(parse_card_index("card2147483647"), Some(2147483647));
    assert_eq!(parse_card_index("card2147483648"), None);
    assert_eq!(parse_card_index("card+1"), None);
    assert_eq!(parse_card_index("card007"), Some(7));
}

#[test]
fn pci_ids_are_four_lower_case_hex_digits() {
    let device = Ae5Device {
        card_index: 1,
        alsa_name: "HDA Creative".to_owned(),
        alsa_long_name: "HDA Creative at test".to_owned(),
        codec_name: None,
        vendor_id: 0x1102,
        device_id: 0x0012,
        subsystem_vendor_id: 0x1102,
        subsystem_device_id: 0x00af,
    };
    assert_eq!(device.pci_id(), "1102:0012");
    assert_eq!(device.subsystem_id(), "1102:00af");
}
