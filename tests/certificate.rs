use base64::engine::general_purpose::STANDARD as BASE64_STANDARD;
use base64::Engine;
use device_identity::{
    CertificateError, DeviceIdError, KeyCertPair, KeyKind, NewCertificateConfig, PemCertificate,
    Timestamp,
};
use sha1::Digest;
use x509_parser::der_parser::asn1_rs::FromDer;

fn new_selfsigned_certificate_with_new_key(
    config: &NewCertificateConfig,
    id: &str,
) -> Result<KeyCertPair, CertificateError> {
    KeyCertPair::new_selfsigned_certificate(config, id, &KeyKind::New)
}

fn pem_of_keypair(keypair: &KeyCertPair) -> PemCertificate {
    let pem_string = keypair
        .certificate_pem_string()
        .expect("Fail to read the certificate PEM");
    PemCertificate::from_pem_string(&pem_string).expect("Fail to decode the certificate PEM")
}

fn subject_of_csr(keypair: &KeyCertPair) -> String {
    let csr = keypair
        .certificate_signing_request_string()
        .expect("Failed to read the CSR string");

    let pem = x509_parser::pem::Pem::iter_from_buffer(csr.as_bytes())
        .next()
        .unwrap()
        .expect("Reading PEM block failed");

    x509_parser::certification_request::X509CertificationRequest::from_der(&pem.contents)
        .unwrap()
        .1
        .certification_request_info
        .subject
        .to_string()
}

/// 2021-03-31 16:39:57 +01:00
fn birthdate() -> Timestamp {
    let t = time::Date::from_calendar_date(2021, time::Month::March, 31)
        .unwrap()
        .with_hms(16, 39, 57)
        .unwrap()
        .assume_offset(time::UtcOffset::from_hms(1, 0, 0).unwrap())
        .unix_timestamp();
    Timestamp::from_unix_seconds(t).unwrap()
}

#[test]
fn self_signed_cert_subject_is_the_device() {
    let config = NewCertificateConfig {
        organization_name: "Acme".to_owned(),
        organizational_unit_name: "IoT".to_owned(),
        ..Default::default()
    };
    let id = "device-serial-number";

    let keypair =
        new_selfsigned_certificate_with_new_key(&config, id).expect("Fail to create a certificate");

    let pem = pem_of_keypair(&keypair);
    let subject = pem.subject().expect("Fail to extract the subject");
    assert_eq!(subject, "CN=device-serial-number, O=Acme, OU=IoT");
}

#[test]
fn self_signed_cert_common_name_is_the_device_id() {
    let config = NewCertificateConfig {
        organization_name: "Acme".to_owned(),
        organizational_unit_name: "IoT".to_owned(),
        ..Default::default()
    };
    let device_id = "device-identifier";

    let keypair = new_selfsigned_certificate_with_new_key(&config, device_id)
        .expect("Fail to create a certificate");

    let pem = pem_of_keypair(&keypair);
    let common_name = pem
        .subject_common_name()
        .expect("Fail to extract the common name");
    assert_eq!(common_name, device_id);
}

#[test]
fn self_signed_cert_issuer_is_the_device() {
    let config = NewCertificateConfig {
        organization_name: "Acme".to_owned(),
        organizational_unit_name: "IoT".to_owned(),
        ..Default::default()
    };
    let id = "device-serial-number";

    let keypair =
        new_selfsigned_certificate_with_new_key(&config, id).expect("Fail to create a certificate");

    let pem = pem_of_keypair(&keypair);
    let issuer = pem.issuer().expect("Fail to extract the issuer");
    assert_eq!(issuer, "CN=device-serial-number, O=Acme, OU=IoT");
}

#[test]
fn self_signed_cert_no_before_is_birthdate() {
    let config = NewCertificateConfig::default();
    let id = "some-id";

    let params = KeyCertPair::create_selfsigned_certificate_parameters(
        &config,
        id,
        &KeyKind::New,
        birthdate(),
    )
    .expect("Fail to get a certificate parameters");

    let keypair = KeyCertPair::from_parameters(params).expect("Fail to create a certificate");

    let pem = pem_of_keypair(&keypair);
    let not_before = pem
        .not_before()
        .expect("Fail to extract the not_before date");
    assert_eq!(not_before, "Wed, 31 Mar 2021 15:39:57 +0000");
}

#[test]
fn self_signed_cert_no_after_is_related_to_birthdate() {
    let config = NewCertificateConfig {
        validity_period_days: 10,
        ..Default::default()
    };
    let id = "some-id";

    let params = KeyCertPair::create_selfsigned_certificate_parameters(
        &config,
        id,
        &KeyKind::New,
        birthdate(),
    )
    .expect("Fail to get a certificate parameters");

    let keypair = KeyCertPair::from_parameters(params).expect("Fail to create a certificate");

    let pem = pem_of_keypair(&keypair);
    let not_after = pem.not_after().expect("Fail to extract the not_after date");
    assert_eq!(not_after, "Sat, 10 Apr 2021 15:39:57 +0000");
}

#[test]
fn create_certificate_sign_request() {
    let config = NewCertificateConfig::default();
    let id = "some-id";

    let params = KeyCertPair::create_csr_parameters(&config, id, &KeyKind::New)
        .expect("Fail to get a certificate parameters");

    let keypair = KeyCertPair::from_parameters(params).expect("Fail to create a certificate");

    let subject = subject_of_csr(&keypair);
    assert_eq!(subject, "CN=some-id, O=Thin Edge, OU=Test Device");
}

#[test]
fn check_certificate_thumbprint_b64_decode_sha1() {
    let id = "my-device-id";
    let config = NewCertificateConfig::default();
    let keypair =
        new_selfsigned_certificate_with_new_key(&config, id).expect("Fail to create a certificate");

    let pem_string = keypair
        .certificate_pem_string()
        .expect("Fail to read the certificate PEM");
    let pem =
        PemCertificate::from_pem_string(&pem_string).expect("Fail to decode the certificate PEM");

    let thumbprint = pem.thumbprint().expect("Fail to compute the thumbprint");

    let cert_cont = pem_string.replace(&['\r', '\n'][..], "");
    let header_len = "-----BEGIN CERTIFICATE-----".len();
    let footer_len = "-----END CERTIFICATE-----".len();
    let b64_bytes = BASE64_STANDARD
        .decode(&cert_cont[header_len..cert_cont.len() - footer_len])
        .unwrap();
    let expected_thumbprint = format!("{:x}", sha1::Sha1::digest(b64_bytes));

    assert_eq!(thumbprint, expected_thumbprint.to_uppercase());
}

#[test]
fn check_translate_rustls_error() {
    let expired_error = rustls::Error::InvalidCertificate(rustls::CertificateError::Expired);
    let translated_error = device_identity::translate_rustls_error(&expired_error);

    println!("plaintext error: {expired_error}");

    if let Some(inner) = &translated_error {
        println!("translated error: {inner:?}");
    }
    assert!(matches!(
        translated_error,
        Some(CertificateError::CertificateValidationFailure { .. })
    ));
}

#[test]
fn csr_keeps_the_organization_fields() {
    let config = NewCertificateConfig {
        organization_name: "Acme".to_owned(),
        organizational_unit_name: "IoT".to_owned(),
        ..Default::default()
    };
    let keypair = KeyCertPair::new_certificate_sign_request(&config, "dev-7", &KeyKind::New)
        .expect("Fail to create a CSR");
    assert_eq!(subject_of_csr(&keypair), "CN=dev-7, O=Acme, OU=IoT");
    let model = keypair.model();
    assert!(model.validity.is_none());
    assert!(!model.is_ca);
    assert!(!model.reuses_key);
}

#[test]
fn common_name_is_the_id_for_several_ids() {
    let config = NewCertificateConfig::default();
    for id in ["a", "device-001", "dev_with.dots", "x".repeat(64).as_str()] {
        let keypair = new_selfsigned_certificate_with_new_key(&config, id).unwrap();
        assert_eq!(pem_of_keypair(&keypair).subject_common_name().unwrap(), id);
        assert_eq!(keypair.model().common_name, id);
    }
}

#[test]
fn too_long_identifier_is_refused_for_certificate_and_csr() {
    let config = NewCertificateConfig {
        max_cn_size: 8,
        ..Default::default()
    };
    let id = "123456789";
    assert!(matches!(
        KeyCertPair::new_selfsigned_certificate(&config, id, &KeyKind::New),
        Err(CertificateError::InvalidDeviceID(DeviceIdError::TooLongName))
    ));
    assert!(matches!(
        KeyCertPair::new_certificate_sign_request(&config, id, &KeyKind::New),
        Err(CertificateError::InvalidDeviceID(DeviceIdError::TooLongName))
    ));
    assert!(KeyCertPair::new_certificate_sign_request(&config, "12345678", &KeyKind::New).is_ok());
}

#[test]
fn empty_identifier_is_refused() {
    let config = NewCertificateConfig::default();
    assert!(matches!(
        KeyCertPair::new_certificate_sign_request(&config, "", &KeyKind::New),
        Err(CertificateError::InvalidDeviceID(DeviceIdError::EmptyName))
    ));
}

#[test]
fn certificate_issued_at_birthdate_starts_one_day_before() {
    let config = NewCertificateConfig {
        validity_period_days: 10,
        ..Default::default()
    };
    let keypair =
        KeyCertPair::new_selfsigned_certificate_at(&config, "some-id", &KeyKind::New, birthdate())
            .unwrap();
    let validity = keypair.model().validity.unwrap();
    assert_eq!(
        validity.not_before.unix_seconds,
        birthdate().unix_seconds - 86400
    );
    assert_eq!(
        validity.not_after.unix_seconds,
        validity.not_before.unix_seconds + 10 * 86400
    );
    assert!(keypair.model().is_ca);
    let pem = pem_of_keypair(&keypair);
    assert_eq!(pem.not_before().unwrap(), "Tue, 30 Mar 2021 15:39:57 +0000");
    assert_eq!(pem.not_after().unwrap(), "Fri, 09 Apr 2021 15:39:57 +0000");
}

#[test]
fn zero_day_validity_ends_when_it_starts() {
    let config = NewCertificateConfig {
        validity_period_days: 0,
        ..Default::default()
    };
    let params = KeyCertPair::create_selfsigned_certificate_parameters(
        &config,
        "some-id",
        &KeyKind::New,
        birthdate(),
    )
    .unwrap();
    let v = params.model().validity.unwrap();
    assert_eq!(v.not_before, v.not_after);
}

#[test]
fn validity_past_the_last_date_is_refused() {
    let config = NewCertificateConfig::default();
    let late = Timestamp::from_unix_seconds(253402300799 - 86400).unwrap();
    assert!(matches!(
        KeyCertPair::create_selfsigned_certificate_parameters(&config, "id", &KeyKind::New, late),
        Err(CertificateError::InvalidValidityPeriod)
    ));
}

#[test]
fn reused_key_pair_is_kept() {
    let config = NewCertificateConfig::default();
    let first = KeyCertPair::new_selfsigned_certificate(&config, "dev", &KeyKind::New).unwrap();
    let key_pem = first.private_key_pem_string().unwrap().expose().to_owned();
    assert!(key_pem.contains("PRIVATE KEY"));
    let reuse = KeyKind::Reuse {
        keypair_pem: key_pem.clone(),
    };
    let csr = KeyCertPair::new_certificate_sign_request(&config, "dev", &reuse).unwrap();
    assert!(csr.model().reuses_key);
    assert_eq!(csr.private_key_pem_string().unwrap().expose(), key_pem);
}

#[test]
fn unreadable_key_pair_is_a_cryptography_error() {
    let config = NewCertificateConfig::default();
    let reuse = KeyKind::Reuse {
        keypair_pem: "not a key".to_owned(),
    };
    assert!(matches!(
        KeyCertPair::create_csr_parameters(&config, "dev", &reuse),
        Err(CertificateError::CryptographyError(_))
    ));
    assert!(matches!(
        KeyCertPair::new_selfsigned_certificate(&config, "dev", &reuse),
        Err(CertificateError::CryptographyError(_))
    ));
}

#[test]
fn default_config_values() {
    let c = NewCertificateConfig::default();
    assert_eq!(c.max_cn_size, 64);
    assert_eq!(c.validity_period_days, 365);
    assert_eq!(c.organization_name, "Thin Edge");
    assert_eq!(c.organizational_unit_name, "Test Device");
}

#[test]
fn new_certificate_starts_one_day_before_now() {
    let config = NewCertificateConfig::default();
    let before = time::OffsetDateTime::now_utc().unix_timestamp();
    let keypair = KeyCertPair::new_selfsigned_certificate(&config, "now", &KeyKind::New).unwrap();
    let after = time::OffsetDateTime::now_utc().unix_timestamp();
    let v = keypair.model().validity.unwrap();
    assert!(before - 86400 <= v.not_before.unix_seconds);
    assert!(v.not_before.unix_seconds <= after - 86400);
    assert_eq!(
        v.not_after.unix_seconds - v.not_before.unix_seconds,
        365 * 86400
    );
}

#[test]
fn birthdate_before_year_zero_is_not_a_timestamp() {
    assert!(Timestamp::from_unix_seconds(-62167219201).is_none());
    let first = Timestamp::from_unix_seconds(-62167219200 + 86400).unwrap();
    let config = NewCertificateConfig {
        validity_period_days: 1,
        ..Default::default()
    };
    let keypair =
        KeyCertPair::new_selfsigned_certificate_at(&config, "old", &KeyKind::New, first).unwrap();
    assert_eq!(
        keypair.model().validity.unwrap().not_before.unix_seconds,
        -62167219200
    );
    assert!(keypair
        .certificate_pem_string()
        .unwrap()
        .starts_with("-----BEGIN CERTIFICATE-----"));
}

#[test]
fn reused_key_is_handed_back_unchanged_by_both_paths() {
    let config = NewCertificateConfig::default();
    let first = KeyCertPair::new_certificate_sign_request(&config, "dev", &KeyKind::New).unwrap();
    let key_pem = first.private_key_pem_string().unwrap().expose().to_owned();
    let reuse = KeyKind::Reuse {
        keypair_pem: key_pem.clone(),
    };
    let cert = KeyCertPair::new_selfsigned_certificate(&config, "dev", &reuse).unwrap();
    assert_eq!(cert.private_key_pem_string().unwrap().expose(), key_pem);
    assert!(cert.model().reuses_key);
    assert!(cert
        .certificate_pem_string()
        .unwrap()
        .starts_with("-----BEGIN CERTIFICATE-----"));
    assert!(first
        .certificate_signing_request_string()
        .unwrap()
        .starts_with("-----BEGIN CERTIFICATE REQUEST-----"));
}
