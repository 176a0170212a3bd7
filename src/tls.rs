//! Turning a TLS validation failure of a peer certificate into a hint for
//! the person who runs the device. The failure stays fatal.
use crate::certificate::CertificateError;
use rustls::CertificateError as C;
use vstd::prelude::*;

verus! {

#[verifier::external_type_specification]
#[verifier::external_body]
pub struct ExRustlsError(rustls::Error);

/// The hint for a certificate that has expired.
pub const EXPIRED_HINT: &'static str = "The server certificate has expired, the time it is being validated for is later than the certificate's `notAfter` time.";

/// The hint for a certificate that is not valid yet.
pub const NOT_VALID_YET_HINT: &'static str = "The server certificate is not valid yet, the time it is being validated for is earlier than the certificate's `notBefore` time.";

/// The hint for any other invalid certificate.
pub const OTHER_HINT: &'static str = "Server certificate validation error.";

/// How a peer certificate failed validation.
#[derive(Debug, Clone, Copy, PartialEq, Eq, Structural)]
pub enum ValidationFailure {
    /// Validated at a time after its `notAfter`.
    Expired,
    /// Validated at a time before its `notBefore`.
    NotValidYet,
    /// Invalid for another reason.
    Other,
}

/// The hint that goes with a validation failure.
pub open spec fn hint_of(failure: ValidationFailure) -> Seq<char> {
    match failure {
        ValidationFailure::Expired => EXPIRED_HINT@,
        ValidationFailure::NotValidYet => NOT_VALID_YET_HINT@,
        ValidationFailure::Other => OTHER_HINT@,
    }
}

/// How the TLS error is a validation failure of the peer certificate, if it
/// is one: told by the variants of `rustls::Error` and
/// `rustls::CertificateError`.
pub uninterp spec fn validation_failure_kind(err: rustls::Error) -> Option<ValidationFailure>;

/// Relies on the variants of `rustls::Error` and `rustls::CertificateError`:
/// an invalid certificate, and whether it was so by its validity dates.
#[verifier::external_body]
fn validation_failure_of(err: &rustls::Error) -> (r: Option<ValidationFailure>)
    ensures
        r == validation_failure_kind(*err),
{
    match err {
        rustls::Error::InvalidCertificate(C::Expired) => Some(ValidationFailure::Expired),
        rustls::Error::InvalidCertificate(C::ExpiredContext { .. }) => {
            Some(ValidationFailure::Expired)
        },
        rustls::Error::InvalidCertificate(C::NotValidYet) => Some(ValidationFailure::NotValidYet),
        rustls::Error::InvalidCertificate(C::NotValidYetContext { .. }) => {
            Some(ValidationFailure::NotValidYet)
        },
        rustls::Error::InvalidCertificate(_) => Some(ValidationFailure::Other),
        _ => None,
    }
}

/// The description of a TLS error, as its `Display` writes it.
pub uninterp spec fn rustls_error_text(err: rustls::Error) -> Seq<char>;

/// Relies on the `Display` of `rustls::Error`: the error's own description,
/// a function of the error alone.
#[verifier::external_body]
fn describe(err: &rustls::Error) -> (r: String)
    ensures
        r@ == rustls_error_text(*err),
{
    err.to_string()
}

/// The error that a validation failure becomes: its hint, with `msg`, the
/// TLS library's own description.
pub fn translate_validation_failure(failure: ValidationFailure, msg: String) -> (r:
    CertificateError)
    ensures
        r matches CertificateError::CertificateValidationFailure { hint, msg: m } && hint@
            == hint_of(failure) && m == msg,
{
    let hint = match failure {
        ValidationFailure::Expired => EXPIRED_HINT.to_owned(),
        ValidationFailure::NotValidYet => NOT_VALID_YET_HINT.to_owned(),
        ValidationFailure::Other => OTHER_HINT.to_owned(),
    };
    CertificateError::CertificateValidationFailure { hint, msg }
}

/// The descriptive error for a TLS error that is an invalid peer
/// certificate; `None` for any other TLS error.
pub fn translate_rustls_error(err: &rustls::Error) -> (r: Option<CertificateError>)
    ensures
        validation_failure_kind(*err) is None ==> r is None,
        validation_failure_kind(*err) matches Some(f) ==> r matches Some(
            CertificateError::CertificateValidationFailure { hint, msg },
        ) && hint@ == hint_of(f) && msg@ == rustls_error_text(*err),
{
    match validation_failure_of(err) {
        Some(failure) => Some(translate_validation_failure(failure, describe(err))),
        None => None,
    }
}

} // verus!
