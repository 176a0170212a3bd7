use device_identity::pem::thumbprint_of_digest;
use device_identity::text::to_hex_upper;
use device_identity::{CertificateError, KeyCertPair, KeyKind, NewCertificateConfig, PemCertificate};

fn fresh_pem(id: &str) -> String {
    let config = NewCertificateConfig::default();
    KeyCertPair::new_selfsigned_certificate(&config, id, &KeyKind::New)
        .unwrap()
        .certificate_pem_string()
        .unwrap()
}

#[test]
fn reading_the_same_pem_twice_gives_the_same_fields() {
    let text = fresh_pem("twice");
    let a = PemCertificate::from_pem_string(&text).unwrap();
    let b = PemCertificate::from_pem_string(&text).unwrap();
    assert_eq!(a.subject().unwrap(), b.subject().unwrap());
    assert_eq!(a.issuer().unwrap(), b.issuer().unwrap());
    assert_eq!(a.thumbprint().unwrap(), b.thumbprint().unwrap());
    assert_eq!(a.der(), b.der());
}

#[test]
fn only_the_first_block_is_read() {
    let first = fresh_pem("first");
    let second = fresh_pem("second");
    let both = format!("{first}{second}");
    let p = PemCertificate::from_pem_string(&both).unwrap();
    assert_eq!(p.subject_common_name().unwrap(), "first");
}

#[test]
fn text_without_pem_is_a_pem_error() {
    assert!(matches!(
        PemCertificate::from_pem_string("hello"),
        Err(CertificateError::PemError(_))
    ));
}

#[test]
fn block_without_certificate_is_an_x509_error() {
    let text = "-----BEGIN CERTIFICATE-----\nAAECAw==\n-----END CERTIFICATE-----\n";
    let p = PemCertificate::from_pem_string(text).unwrap();
    assert_eq!(p.der(), &[0u8, 1, 2, 3][..]);
    assert!(matches!(p.subject(), Err(CertificateError::X509Error(_))));
    assert!(matches!(p.not_after(), Err(CertificateError::X509Error(_))));
    assert!(matches!(p.subject_common_name(), Err(CertificateError::X509Error(_))));
    // The thumbprint needs no parsing: SHA-1 of the four bytes.
    assert_eq!(
        p.thumbprint().unwrap(),
        "A02A05B025B928C039CF1AE7E8EE04E7C190C0DB"
    );
}

#[test]
fn self_signed_certificate_is_recognised() {
    let p = PemCertificate::from_pem_string(&fresh_pem("self")).unwrap();
    assert!(p.is_self_signed().unwrap());
}

#[test]
fn serial_in_decimal_and_hex_agree() {
    let p = PemCertificate::from_pem_string(&fresh_pem("serial")).unwrap();
    let dec = p.serial().unwrap();
    let hex = p.serial_hex().unwrap();
    assert!(!dec.is_empty());
    assert!(hex.chars().all(|c| c.is_ascii_hexdigit() && !c.is_ascii_uppercase()));
    if hex.len() <= 32 {
        assert_eq!(u128::from_str_radix(&hex, 16).unwrap().to_string(), dec);
    }
}

#[test]
fn thumbprint_of_digest_is_uppercase_hex() {
    assert_eq!(thumbprint_of_digest(&[0x86, 0x02, 0x18, 0xad, 0x0a]), "860218AD0A");
    assert_eq!(thumbprint_of_digest(&[]), "");
}

#[test]
fn hex_rendering_pads_each_byte() {
    assert_eq!(to_hex_upper(&[0x00, 0x0f, 0xf0, 0xff]), "000FF0FF");
}
