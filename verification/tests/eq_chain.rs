use ae5_control::eq_chain::{validate_target_node, EqChainError};

#[test]
fn target_node_rejects_pipewire_config_injection() {
    let error = validate_target_node("alsa_output.valid\" node.dont-fallback=false").unwrap_err();

    assert!(error.message().contains("unsupported characters"));
    assert_eq!(
        error,
        EqChainError::Invalid(
            "PipeWire target node 'alsa_output.valid\" node.dont-fallback=false' contains unsupported characters"
                .to_owned()
        )
    );
}

#[test]
fn target_node_accepts_plain_pipewire_names() {
    assert_eq!(validate_target_node("alsa_output.current-profile"), Ok(()));
    assert!(validate_target_node("").is_err());
    assert!(validate_target_node("alsa output").is_err());
}
