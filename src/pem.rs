//! Reading PEM certificates back: subject, issuer, validity, serial and
//! thumbprint.
//!
//! Only the first PEM block of the text is read. The X.509 grammar is left
//! to `x509-parser`, whose errors come back flattened to a description.
use crate::certificate::CertificateError;
use crate::text::{hex_upper, to_hex_upper};
use vstd::prelude::*;

verus! {

/// The decoded contents of the first PEM block of `content`, if it holds one
/// that `x509_parser::pem::Pem::read` accepts.
pub uninterp spec fn pem_contents_of(content: Seq<char>) -> Option<Seq<u8>>;

/// The subject of the DER certificate `der` as `x509-parser` renders it
/// (`CN=.., O=..`), or the description of its parse error.
pub uninterp spec fn x509_subject_of(der: Seq<u8>) -> Result<Seq<char>, Seq<char>>;

/// The issuer of the DER certificate `der`, rendered like the subject.
pub uninterp spec fn x509_issuer_of(der: Seq<u8>) -> Result<Seq<char>, Seq<char>>;

/// The first Common Name attribute of the subject of `der`, if any, as text
/// or as the description of why it is no text; `Err` when `der` does not
/// parse.
pub uninterp spec fn x509_common_name_of(der: Seq<u8>) -> Result<
    Option<Result<Seq<char>, Seq<char>>>,
    Seq<char>,
>;

/// The start of the validity of `der`, formatted as in RFC 2822.
pub uninterp spec fn x509_not_before_of(der: Seq<u8>) -> Result<Seq<char>, Seq<char>>;

/// The end of the validity of `der`, formatted as in RFC 2822.
pub uninterp spec fn x509_not_after_of(der: Seq<u8>) -> Result<Seq<char>, Seq<char>>;

/// The serial number of `der`, in decimal.
pub uninterp spec fn x509_serial_of(der: Seq<u8>) -> Result<Seq<char>, Seq<char>>;

/// The serial number of `der`, in lowercase hexadecimal.
pub uninterp spec fn x509_serial_hex_of(der: Seq<u8>) -> Result<Seq<char>, Seq<char>>;

/// The SHA-1 digest of `b`.
pub uninterp spec fn sha1_of(b: Seq<u8>) -> Seq<u8>;

/// A result of strings, as a result of character sequences.
pub open spec fn text_result(r: Result<String, String>) -> Result<Seq<char>, Seq<char>> {
    match r {
        Ok(s) => Ok(s@),
        Err(e) => Err(e@),
    }
}

/// A lookup of a Common Name, as character sequences.
pub open spec fn name_lookup(r: Result<Option<Result<String, String>>, String>) -> Result<
    Option<Result<Seq<char>, Seq<char>>>,
    Seq<char>,
> {
    match r {
        Ok(Some(Ok(s))) => Ok(Some(Ok(s@))),
        Ok(Some(Err(e))) => Ok(Some(Err(e@))),
        Ok(None) => Ok(None),
        Err(e) => Err(e@),
    }
}

/// Relies on `x509_parser::pem::Pem::read`: reads the first PEM block of the
/// text and decodes its base64 contents; the outcome depends on the text
/// alone.
#[verifier::external_body]
fn read_pem(content: &str) -> (r: Result<Vec<u8>, x509_parser::error::PEMError>)
    ensures
        r is Ok <==> pem_contents_of(content@) is Some,
        r matches Ok(v) ==> v@ == pem_contents_of(content@)->Some_0,
{
    let reader = std::io::BufReader::new(std::io::Cursor::new(content.as_bytes()));
    x509_parser::pem::Pem::read(reader).map(|(pem, _)| pem.contents)
}

/// Relies on `x509_parser::parse_x509_certificate` and the `Display` of
/// `X509Name`: the subject of the certificate.
#[verifier::external_body]
fn parsed_subject(der: &[u8]) -> (r: Result<String, String>)
    ensures
        text_result(r) == x509_subject_of(der@),
{
    match x509_parser::parse_x509_certificate(der) {
        Ok((_, x509)) => Ok(x509.tbs_certificate.subject.to_string()),
        Err(err) => Err(format!("{}", err)),
    }
}

/// Relies on `x509_parser::parse_x509_certificate` and the `Display` of
/// `X509Name`: the issuer of the certificate.
#[verifier::external_body]
fn parsed_issuer(der: &[u8]) -> (r: Result<String, String>)
    ensures
        text_result(r) == x509_issuer_of(der@),
{
    match x509_parser::parse_x509_certificate(der) {
        Ok((_, x509)) => Ok(x509.tbs_certificate.issuer.to_string()),
        Err(err) => Err(format!("{}", err)),
    }
}

/// Relies on `x509_parser::parse_x509_certificate`,
/// `X509Name::iter_common_name` and `AttributeTypeAndValue::as_str`: the
/// first Common Name of the subject.
#[verifier::external_body]
fn parsed_common_name(der: &[u8]) -> (r: Result<Option<Result<String, String>>, String>)
    ensures
        name_lookup(r) == x509_common_name_of(der@),
{
    match x509_parser::parse_x509_certificate(der) {
        Ok((_, x509)) => Ok(x509.tbs_certificate.subject.iter_common_name().next().map(
            |cn| cn.as_str().map(|s| s.to_owned()).map_err(|e| format!("{}", e)),
        )),
        Err(err) => Err(format!("{}", err)),
    }
}

/// Relies on `x509_parser::parse_x509_certificate` and
/// `ASN1Time::to_rfc2822`: the start of the validity.
#[verifier::external_body]
fn parsed_not_before(der: &[u8]) -> (r: Result<String, String>)
    ensures
        text_result(r) == x509_not_before_of(der@),
{
    match x509_parser::parse_x509_certificate(der) {
        Ok((_, x509)) => x509.tbs_certificate.validity.not_before.to_rfc2822(),
        Err(err) => Err(format!("{}", err)),
    }
}

/// Relies on `x509_parser::parse_x509_certificate` and
/// `ASN1Time::to_rfc2822`: the end of the validity.
#[verifier::external_body]
fn parsed_not_after(der: &[u8]) -> (r: Result<String, String>)
    ensures
        text_result(r) == x509_not_after_of(der@),
{
    match x509_parser::parse_x509_certificate(der) {
        Ok((_, x509)) => x509.tbs_certificate.validity.not_after.to_rfc2822(),
        Err(err) => Err(format!("{}", err)),
    }
}

/// Relies on `x509_parser::parse_x509_certificate` and the `Display` of the
/// serial's `BigUint`: the serial number in decimal.
#[verifier::external_body]
fn parsed_serial(der: &[u8]) -> (r: Result<String, String>)
    ensures
        text_result(r) == x509_serial_of(der@),
{
    match x509_parser::parse_x509_certificate(der) {
        Ok((_, x509)) => Ok(x509.tbs_certificate.serial.to_string()),
        Err(err) => Err(format!("{}", err)),
    }
}

/// Relies on `x509_parser::parse_x509_certificate` and the `LowerHex` of the
/// serial's `BigUint`: the serial number in hexadecimal.
#[verifier::external_body]
fn parsed_serial_hex(der: &[u8]) -> (r: Result<String, String>)
    ensures
        text_result(r) == x509_serial_hex_of(der@),
{
    match x509_parser::parse_x509_certificate(der) {
        Ok((_, x509)) => Ok(format!("{:x}", x509.tbs_certificate.serial)),
        Err(err) => Err(format!("{}", err)),
    }
}

/// Relies on `sha1::Sha1::digest`: the SHA-1 digest, twenty bytes.
#[verifier::external_body]
fn sha1_digest(b: &[u8]) -> (r: Vec<u8>)
    ensures
        r@ == sha1_of(b@),
        r@.len() == 20,
{
    <sha1::Sha1 as sha1::Digest>::digest(b).as_slice().to_vec()
}

/// The outcome of an accessor, with a parse error as `X509Error`.
pub open spec fn as_x509_result(
    r: Result<String, CertificateError>,
    expected: Result<Seq<char>, Seq<char>>,
) -> bool {
    match expected {
        Ok(s) => r matches Ok(v) && v@ == s,
        Err(e) => r matches Err(CertificateError::X509Error(m)) && m@ == e,
    }
}

/// The Common Name that `subject_common_name` gives for a lookup: empty when
/// the subject has none.
pub open spec fn common_name_result(
    lookup: Result<Option<Result<Seq<char>, Seq<char>>>, Seq<char>>,
) -> Result<Seq<char>, Seq<char>> {
    match lookup {
        Ok(None) => Ok(Seq::empty()),
        Ok(Some(Ok(name))) => Ok(name),
        Ok(Some(Err(e))) => Err(e),
        Err(e) => Err(e),
    }
}

/// A certificate read from PEM text: the DER bytes of its first block.
pub struct PemCertificate {
    der: Vec<u8>,
}

/// `p` is what reading the PEM text `content` gives.
pub open spec fn read_as(content: Seq<char>, p: PemCertificate) -> bool {
    pem_contents_of(content) == Some(p.spec_der())
}

impl PemCertificate {
    /// The DER bytes of the certificate.
    pub closed spec fn spec_der(&self) -> Seq<u8> {
        self.der@
    }

    pub open spec fn spec_subject(&self) -> Result<Seq<char>, Seq<char>> {
        x509_subject_of(self.spec_der())
    }

    pub open spec fn spec_issuer(&self) -> Result<Seq<char>, Seq<char>> {
        x509_issuer_of(self.spec_der())
    }

    pub open spec fn spec_thumbprint(&self) -> Seq<char> {
        hex_upper(sha1_of(self.spec_der()))
    }

    /// Reads the first PEM block of `content`; later blocks are ignored.
    pub fn from_pem_string(content: &str) -> (r: Result<PemCertificate, CertificateError>)
        ensures
            r is Ok <==> pem_contents_of(content@) is Some,
            r matches Ok(p) ==> read_as(content@, p),
            r is Err ==> r matches Err(CertificateError::PemError(_)),
    {
        match read_pem(content) {
            Ok(der) => Ok(PemCertificate { der }),
            Err(e) => Err(CertificateError::PemError(e)),
        }
    }

    /// The DER bytes of the certificate.
    pub fn der(&self) -> (r: &[u8])
        ensures
            r@ == self.spec_der(),
    {
        self.der.as_slice()
    }

    fn x509_result(r: Result<String, String>) -> (out: Result<String, CertificateError>)
        ensures
            as_x509_result(out, text_result(r)),
    {
        match r {
            Ok(s) => Ok(s),
            Err(e) => Err(CertificateError::X509Error(e)),
        }
    }

    /// The subject, as `CN=.., O=.., OU=..`.
    pub fn subject(&self) -> (r: Result<String, CertificateError>)
        ensures
            as_x509_result(r, self.spec_subject()),
    {
        Self::x509_result(parsed_subject(self.der.as_slice()))
    }

    /// The subject's Common Name; empty when the subject has none. Fails only
    /// when the certificate does not parse or the name is not text.
    pub fn subject_common_name(&self) -> (r: Result<String, CertificateError>)
        ensures
            as_x509_result(r, common_name_result(x509_common_name_of(self.spec_der()))),
    {
        match parsed_common_name(self.der.as_slice()) {
            Ok(None) => Ok(String::new()),
            Ok(Some(Ok(name))) => Ok(name),
            Ok(Some(Err(e))) => Err(CertificateError::X509Error(e)),
            Err(e) => Err(CertificateError::X509Error(e)),
        }
    }

    /// The issuer, rendered like the subject.
    pub fn issuer(&self) -> (r: Result<String, CertificateError>)
        ensures
            as_x509_result(r, self.spec_issuer()),
    {
        Self::x509_result(parsed_issuer(self.der.as_slice()))
    }

    /// The start of the validity, as in RFC 2822.
    pub fn not_before(&self) -> (r: Result<String, CertificateError>)
        ensures
            as_x509_result(r, x509_not_before_of(self.spec_der())),
    {
        Self::x509_result(parsed_not_before(self.der.as_slice()))
    }

    /// The end of the validity, as in RFC 2822.
    pub fn not_after(&self) -> (r: Result<String, CertificateError>)
        ensures
            as_x509_result(r, x509_not_after_of(self.spec_der())),
    {
        Self::x509_result(parsed_not_after(self.der.as_slice()))
    }

    /// The serial number, in decimal.
    pub fn serial(&self) -> (r: Result<String, CertificateError>)
        ensures
            as_x509_result(r, x509_serial_of(self.spec_der())),
    {
        Self::x509_result(parsed_serial(self.der.as_slice()))
    }

    /// The serial number, in lowercase hexadecimal.
    pub fn serial_hex(&self) -> (r: Result<String, CertificateError>)
        ensures
            as_x509_result(r, x509_serial_hex_of(self.spec_der())),
    {
        Self::x509_result(parsed_serial_hex(self.der.as_slice()))
    }

    /// The thumbprint: the SHA-1 digest of the DER bytes (not of the PEM
    /// text), in uppercase hexadecimal with no separator.
    pub fn thumbprint(&self) -> (r: Result<String, CertificateError>)
        ensures
            r matches Ok(t) && t@ == self.spec_thumbprint(),
    {
        let digest = sha1_digest(self.der.as_slice());
        Ok(thumbprint_of_digest(digest.as_slice()))
    }

    /// Whether the certificate is self-signed: its issuer is its subject.
    pub fn is_self_signed(&self) -> (r: Result<bool, CertificateError>)
        ensures
            (self.spec_subject() is Err || self.spec_issuer() is Err) <==> r is Err,
            r matches Ok(b) ==> b == (self.spec_subject() == self.spec_issuer()),
    {
        let issuer = match self.issuer() {
            Ok(s) => s,
            Err(e) => return Err(e),
        };
        let subject = match self.subject() {
            Ok(s) => s,
            Err(e) => return Err(e),
        };
        Ok(issuer == subject)
    }
}

/// The thumbprint of a certificate whose SHA-1 digest is `digest`: the
/// digest in uppercase hexadecimal with no separator.
pub fn thumbprint_of_digest(digest: &[u8]) -> (r: String)
    ensures
        r@ == hex_upper(digest@),
{
    to_hex_upper(digest)
}

/// Reading the same PEM text twice gives certificates with the same subject,
/// issuer and thumbprint: reading keeps no hidden state.
pub proof fn lemma_reading_is_repeatable(content: Seq<char>, a: PemCertificate, b: PemCertificate)
    requires
        read_as(content, a),
        read_as(content, b),
    ensures
        a.spec_subject() == b.spec_subject(),
        a.spec_issuer() == b.spec_issuer(),
        a.spec_thumbprint() == b.spec_thumbprint(),
{
}

} // verus!
