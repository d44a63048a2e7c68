use api_key_crypto::constants::FALLBACK_WARNING;
use api_key_crypto::runtime_secret;

#[test]
fn configured_value_is_the_secret() {
    let resolved = runtime_secret(Some("operator-secret"));
    assert_eq!(resolved.bytes, b"operator-secret".to_vec());
    assert!(resolved.warning.is_none());
}

#[test]
fn configured_value_is_taken_byte_for_byte() {
    let resolved = runtime_secret(Some("pässwörd \u{1F511}"));
    assert_eq!(resolved.bytes, "pässwörd \u{1F511}".as_bytes().to_vec());
    assert!(resolved.warning.is_none());
}

#[test]
fn absent_value_falls_back_to_default_secret() {
    let resolved = runtime_secret(None);
    assert_eq!(resolved.bytes, b"voquill-default-secret".to_vec());
    assert!(resolved.warning.is_some());
}

#[test]
fn empty_value_falls_back_to_default_secret() {
    let resolved = runtime_secret(Some(""));
    assert_eq!(resolved.bytes, b"voquill-default-secret".to_vec());
    assert!(resolved.warning.is_some());
}

#[test]
fn fallback_carries_the_warning_text() {
    let resolved = runtime_secret(None);
    assert_eq!(
        resolved.warning,
        Some(
            "VOQUILL_API_KEY_SECRET not set; falling back to default secret. Set this environment variable to secure stored API keys."
                .to_string()
        )
    );
    assert_eq!(resolved.warning.unwrap(), FALLBACK_WARNING);
}

#[test]
fn whitespace_value_is_a_secret_of_its_own() {
    let resolved = runtime_secret(Some(" "));
    assert_eq!(resolved.bytes, b" ".to_vec());
    assert!(resolved.warning.is_none());
}

#[test]
fn resolution_is_the_same_on_every_call() {
    let first = runtime_secret(None);
    for _ in 0..16 {
        let again = runtime_secret(None);
        assert_eq!(again.bytes, first.bytes);
        assert_eq!(again.warning, first.warning);
    }
    let first = runtime_secret(Some("configured"));
    for _ in 0..16 {
        assert_eq!(runtime_secret(Some("configured")).bytes, first.bytes);
    }
}

#[test]
fn warning_is_handed_out_once() {
    let mut resolved = runtime_secret(None);
    assert_eq!(resolved.take_warning(), Some(FALLBACK_WARNING.to_string()));
    assert_eq!(resolved.take_warning(), None);
    assert_eq!(resolved.take_warning(), None);
    assert_eq!(resolved.bytes, b"voquill-default-secret".to_vec());
}

#[test]
fn no_warning_is_handed_out_for_a_configured_secret() {
    let mut resolved = runtime_secret(Some("operator-secret"));
    assert_eq!(resolved.take_warning(), None);
    assert_eq!(resolved.bytes, b"operator-secret".to_vec());
}
