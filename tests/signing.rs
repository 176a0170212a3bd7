use device_identity::daemon::MALFORMED_REQUEST;
use device_identity::protocol::{
    decode_request, decode_response, encode_request, encode_response, frame_payload_len, Request,
    Response,
};
use device_identity::scheme::ECDSA_NISTP256_SHA256;
use device_identity::tls::{translate_validation_failure, EXPIRED_HINT, NOT_VALID_YET_HINT, OTHER_HINT};
use device_identity::{
    choose_scheme, CertificateError, CryptokiConfigDirect, DaemonAction, DaemonState, P11Service,
    ServiceError, SignatureAlgorithm, SignatureScheme, SigningError, TedgeP11Client,
    ValidationFailure,
};
use ring::signature::KeyPair;

const ECDSA: SignatureScheme = SignatureScheme {
    code: ECDSA_NISTP256_SHA256,
};
const RSA_PSS: SignatureScheme = SignatureScheme { code: 0x0804 };

fn config() -> CryptokiConfigDirect {
    CryptokiConfigDirect {
        module_file: "/usr/lib/softhsm/libsofthsm2.so".to_owned(),
        pin: "123456".to_owned(),
        serial: None,
    }
}

fn listening_daemon() -> P11Service {
    let mut service = P11Service::from_config(config())
        .unwrap()
        .session_opened(Ok(()))
        .unwrap();
    service.start_listening();
    service
}

#[test]
fn choose_scheme_picks_ecdsa_when_offered() {
    assert_eq!(choose_scheme(&[RSA_PSS, ECDSA]), Some(ECDSA));
    assert_eq!(choose_scheme(&[ECDSA]), Some(ECDSA));
    assert_eq!(choose_scheme(&[RSA_PSS]), None);
    assert_eq!(choose_scheme(&[]), None);
}

#[test]
fn sign_request_bytes_are_length_framed() {
    let bytes = encode_request(&Request::Sign {
        data: vec![0xaa, 0xbb, 0xcc],
    });
    assert_eq!(bytes, vec![0x02, 0, 0, 0, 3, 0xaa, 0xbb, 0xcc]);
    assert_eq!(frame_payload_len(&bytes), 3);
}

#[test]
fn choose_scheme_request_bytes() {
    let bytes = encode_request(&Request::ChooseScheme {
        offered: vec![ECDSA, RSA_PSS],
    });
    assert_eq!(bytes, vec![0x01, 0, 0, 0, 4, 0x04, 0x03, 0x08, 0x04]);
    match decode_request(&bytes) {
        Some(Request::ChooseScheme { offered }) => assert_eq!(offered, vec![ECDSA, RSA_PSS]),
        other => panic!("unexpected {other:?}"),
    }
}

#[test]
fn responses_round_trip() {
    let chosen = encode_response(&Response::Chosen { scheme: Some(ECDSA) });
    assert_eq!(chosen, vec![0x11, 0, 0, 0, 2, 0x04, 0x03]);
    assert!(matches!(
        decode_response(&chosen),
        Some(Response::Chosen { scheme: Some(s) }) if s == ECDSA
    ));
    let none = encode_response(&Response::Chosen { scheme: None });
    assert_eq!(none, vec![0x11, 0, 0, 0, 0]);
    let big: Vec<u8> = (0..3000u32).map(|i| (i % 251) as u8).collect();
    let sig = encode_response(&Response::Signature {
        signature: big.clone(),
    });
    assert_eq!(&sig[..5], &[0x12, 0, 0, 0x0b, 0xb8]);
    match decode_response(&sig) {
        Some(Response::Signature { signature }) => assert_eq!(signature, big),
        other => panic!("unexpected {other:?}"),
    }
}

#[test]
fn malformed_frames_are_refused() {
    assert!(decode_request(&[]).is_none());
    assert!(decode_request(&[0x02, 0, 0, 0, 4, 1, 2, 3]).is_none());
    assert!(decode_request(&[0x01, 0, 0, 0, 1, 1]).is_none());
    assert!(decode_request(&[0x07, 0, 0, 0, 0]).is_none());
    assert!(decode_response(&[0x11, 0, 0, 0, 1, 4]).is_none());
    assert!(decode_response(&[0x12, 0, 0, 1]).is_none());
}

#[test]
fn daemon_life_cycle() {
    let service = P11Service::from_config(config()).unwrap();
    assert_eq!(service.state(), DaemonState::AwaitingSession);
    assert_eq!(service.config().pin, "123456");
    let mut service = service.session_opened(Ok(())).unwrap();
    assert_eq!(service.state(), DaemonState::SessionOpen);
    service.start_listening();
    assert_eq!(service.state(), DaemonState::Listening);
}

#[test]
fn daemon_refuses_a_config_without_module() {
    let mut c = config();
    c.module_file = String::new();
    assert_eq!(
        P11Service::from_config(c).err(),
        Some(ServiceError::MissingModulePath)
    );
}

#[test]
fn daemon_stops_when_the_session_cannot_open() {
    let service = P11Service::from_config(config()).unwrap();
    assert_eq!(
        service.session_opened(Err("PIN rejected".to_owned())).err(),
        Some(ServiceError::SessionFailed("PIN rejected".to_owned()))
    );
}

#[test]
fn daemon_answers_scheme_choice() {
    let daemon = listening_daemon();
    let client = TedgeP11Client::new("/tmp/p11.sock".to_owned());
    let request = client.choose_scheme_request(&[RSA_PSS, ECDSA]);
    let reply = match daemon.handle_request(&request) {
        DaemonAction::Reply(bytes) => bytes,
        other => panic!("unexpected {other:?}"),
    };
    assert_eq!(client.choose_scheme_reply(&reply).unwrap(), Some(ECDSA));

    let request = client.choose_scheme_request(&[RSA_PSS]);
    let reply = match daemon.handle_request(&request) {
        DaemonAction::Reply(bytes) => bytes,
        other => panic!("unexpected {other:?}"),
    };
    assert_eq!(client.choose_scheme_reply(&reply).unwrap(), None);
}

#[test]
fn daemon_refuses_malformed_requests() {
    let daemon = listening_daemon();
    let client = TedgeP11Client::new("/tmp/p11.sock".to_owned());
    let reply = match daemon.handle_request(b"offered = []\n") {
        DaemonAction::Reply(bytes) => bytes,
        other => panic!("unexpected {other:?}"),
    };
    match client.sign_reply(&reply) {
        Err(SigningError::Remote(reason)) => assert_eq!(reason, MALFORMED_REQUEST.as_bytes()),
        other => panic!("unexpected {other:?}"),
    }
}

#[test]
fn session_failure_reaches_the_client() {
    let daemon = listening_daemon();
    let client = TedgeP11Client::new("/tmp/p11.sock".to_owned());
    let reply = daemon.signing_done(Err(b"token removed".to_vec()));
    match client.sign_reply(&reply) {
        Err(SigningError::Remote(reason)) => assert_eq!(reason, b"token removed".to_vec()),
        other => panic!("unexpected {other:?}"),
    }
}

#[test]
fn client_refuses_wrong_replies() {
    let client = TedgeP11Client::new("/tmp/p11.sock".to_owned());
    assert!(matches!(
        client.sign_reply(&[0x11, 0, 0, 0, 0]),
        Err(SigningError::UnexpectedReply)
    ));
    assert!(matches!(
        client.choose_scheme_reply(&[0x12, 0, 0, 0, 0]),
        Err(SigningError::UnexpectedReply)
    ));
    assert!(matches!(
        client.sign_reply(&[1, 2, 3]),
        Err(SigningError::MalformedReply)
    ));
    assert_eq!(client.algorithm(), SignatureAlgorithm::Ecdsa);
    assert_eq!(client.signer_scheme(), ECDSA);
}

#[test]
fn direct_and_delegated_signatures_both_verify() {
    let rng = ring::rand::SystemRandom::new();
    let alg = &ring::signature::ECDSA_P256_SHA256_ASN1_SIGNING;
    let pkcs8 = ring::signature::EcdsaKeyPair::generate_pkcs8(alg, &rng).unwrap();
    let key = ring::signature::EcdsaKeyPair::from_pkcs8(alg, pkcs8.as_ref(), &rng).unwrap();
    let public_key = key.public_key().as_ref().to_vec();
    let message = b"TLS 1.3, client CertificateVerify".to_vec();

    // The session as the TLS stack uses it in process.
    let key_der = rustls::pki_types::PrivateKeyDer::Pkcs8(pkcs8.as_ref().to_vec().into());
    let session = rustls::crypto::ring::sign::any_ecdsa_type(&key_der).unwrap();
    let signer = session
        .choose_scheme(&[rustls::SignatureScheme::ECDSA_NISTP256_SHA256])
        .unwrap();
    let direct = signer.sign(&message).unwrap();

    // The same session behind the daemon.
    let daemon = listening_daemon();
    let client = TedgeP11Client::new("/tmp/p11.sock".to_owned());
    let request = client.sign_request(&message);
    let reply = match daemon.handle_request(&request) {
        DaemonAction::SignWithSession(m) => {
            assert_eq!(m, message);
            daemon.signing_done(Ok(signer.sign(&m).unwrap()))
        }
        other => panic!("unexpected {other:?}"),
    };
    let delegated = client.sign_reply(&reply).unwrap();

    let verifier = ring::signature::UnparsedPublicKey::new(
        &ring::signature::ECDSA_P256_SHA256_ASN1,
        &public_key,
    );
    assert!(verifier.verify(&message, &direct).is_ok());
    assert!(verifier.verify(&message, &delegated).is_ok());
}

#[test]
fn validation_failures_get_their_hints() {
    let expired = rustls::Error::InvalidCertificate(rustls::CertificateError::Expired);
    match device_identity::translate_rustls_error(&expired) {
        Some(CertificateError::CertificateValidationFailure { hint, msg }) => {
            assert_eq!(hint, EXPIRED_HINT);
            assert_eq!(msg, expired.to_string());
        }
        other => panic!("unexpected {other:?}"),
    }
    let early = rustls::Error::InvalidCertificate(rustls::CertificateError::NotValidYet);
    assert!(matches!(
        device_identity::translate_rustls_error(&early),
        Some(CertificateError::CertificateValidationFailure { hint, .. }) if hint == NOT_VALID_YET_HINT
    ));
    let other = rustls::Error::InvalidCertificate(rustls::CertificateError::BadEncoding);
    assert!(matches!(
        device_identity::translate_rustls_error(&other),
        Some(CertificateError::CertificateValidationFailure { hint, .. }) if hint == OTHER_HINT
    ));
    assert!(device_identity::translate_rustls_error(&rustls::Error::DecryptError).is_none());
}

#[test]
fn translate_validation_failure_keeps_the_message() {
    match translate_validation_failure(ValidationFailure::NotValidYet, "m".to_owned()) {
        CertificateError::CertificateValidationFailure { hint, msg } => {
            assert_eq!(hint, NOT_VALID_YET_HINT);
            assert_eq!(msg, "m");
        }
        other => panic!("unexpected {other:?}"),
    }
}
