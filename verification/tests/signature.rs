use pulsar::context::models::file::signature::{
    catalog_needed, check_is_microsoft, embedded_names_needed, status_from_trust_code,
    DigitalSignature, SignatureStatus, SignatureType, CERT_E_EXPIRED, TRUST_E_BAD_DIGEST,
    TRUST_E_NOSIGNATURE,
};

#[test]
fn trust_codes_map_to_statuses() {
    assert_eq!(status_from_trust_code(0), SignatureStatus::SignedVerified);
    assert_eq!(status_from_trust_code(CERT_E_EXPIRED), SignatureStatus::SignedExpired);
    assert_eq!(status_from_trust_code(TRUST_E_BAD_DIGEST), SignatureStatus::InvalidSignature);
    assert_eq!(status_from_trust_code(0x800B010C), SignatureStatus::SignedRevoked);
    assert_eq!(status_from_trust_code(0x800B0111), SignatureStatus::SignedRevoked);
    assert_eq!(status_from_trust_code(0x800B0109), SignatureStatus::SignedUntrustedRoot);
    assert_eq!(status_from_trust_code(TRUST_E_NOSIGNATURE), SignatureStatus::Unsigned);
    assert_eq!(status_from_trust_code(12345), SignatureStatus::Unsigned);
    assert!(embedded_names_needed(0));
    assert!(!embedded_names_needed(TRUST_E_NOSIGNATURE));
    assert!(catalog_needed(TRUST_E_NOSIGNATURE));
    assert!(!catalog_needed(5));
}

#[test]
fn microsoft_identities() {
    assert!(check_is_microsoft(Some("Microsoft Windows"), None));
    assert!(check_is_microsoft(None, Some("MICROSOFT CORPORATION")));
    assert!(!check_is_microsoft(Some("Contoso Ltd"), Some("Contoso CA")));
    assert!(!check_is_microsoft(None, None));
}

#[test]
fn verdicts_from_trust_results() {
    let embedded = DigitalSignature::from_trust_results(
        7,
        0,
        (Some("Microsoft Windows".to_string()), Some("Microsoft Windows Production PCA 2011".to_string())),
        None,
    );
    assert!(embedded.is_signed());
    assert!(embedded.is_trusted());
    assert!(embedded.is_microsoft());
    assert_eq!(embedded.signature_type, Some(SignatureType::Embedded));

    let catalog = DigitalSignature::from_trust_results(8, TRUST_E_NOSIGNATURE, (None, None), Some((0, None, None)));
    assert_eq!(catalog.signature_type, Some(SignatureType::Catalog));
    assert_eq!(catalog.signer_name.as_deref(), Some("Microsoft Windows"));
    assert_eq!(catalog.issuer_name.as_deref(), Some("Microsoft Root Certificate Authority"));
    assert!(catalog.is_microsoft());

    let unsigned = DigitalSignature::from_trust_results(9, TRUST_E_NOSIGNATURE, (None, None), None);
    assert!(unsigned.is_unsigned());
    assert_eq!(unsigned.win32_error, TRUST_E_NOSIGNATURE);

    let expired = DigitalSignature::from_trust_results(9, CERT_E_EXPIRED, (Some("Contoso".to_string()), None), None);
    assert!(expired.is_signed());
    assert!(!expired.is_trusted());
    assert!(!expired.is_microsoft());

    let missing = DigitalSignature::file_not_found(3);
    assert_eq!(missing.status, SignatureStatus::VerificationFailed);
    assert!(!missing.is_signed());
    assert_eq!(missing.win32_error, 2);

    assert_eq!(DigitalSignature::unchecked().status, SignatureStatus::Unchecked);
    assert_eq!(DigitalSignature::unsigned(4).win32_error, TRUST_E_NOSIGNATURE);
}
