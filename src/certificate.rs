//! Self-signed device certificates and certificate signing requests.
//!
//! What the library asks of a certificate is kept as a plain
//! [`CertificateModel`]: subject naming, validity window, authority flag and
//! key origin. The same values are handed to `rcgen`, which encodes and
//! signs.
use crate::identity::{device_id_check, is_valid_device_id, valid_device_id, DeviceIdError};
use crate::validity::{
    backdated, spec_backdated, spec_validity_from, validity_from, Timestamp, ValidityPeriod,
    MAX_UNIX_SECONDS, MIN_UNIX_SECONDS,
};
use crate::secret::{secret_from, secret_text, SecretString};
use vstd::prelude::*;

verus! {

#[verifier::external_type_specification]
#[verifier::external_body]
pub struct ExCertificateParams(rcgen::CertificateParams);

#[verifier::external_type_specification]
#[verifier::external_body]
pub struct ExCertificate(rcgen::Certificate);

#[verifier::external_type_specification]
#[verifier::external_body]
pub struct ExKeyPair(rcgen::KeyPair);

#[verifier::external_type_specification]
#[verifier::external_body]
pub struct ExRcgenError(rcgen::Error);

#[verifier::external_type_specification]
#[verifier::external_body]
pub struct ExDistinguishedName(rcgen::DistinguishedName);

#[verifier::external_type_specification]
#[verifier::external_body]
pub struct ExOffsetDateTime(time::OffsetDateTime);

#[verifier::external_type_specification]
#[verifier::external_body]
pub struct ExComponentRange(time::error::ComponentRange);

#[verifier::external_type_specification]
#[verifier::external_body]
pub struct ExPemError(x509_parser::error::PEMError);

/// The attributes of a distinguished name, in insertion order, with their
/// text values: what `rcgen::DistinguishedName` holds.
pub uninterp spec fn dn_entries(dn: rcgen::DistinguishedName) -> Seq<(DnAttribute, Seq<char>)>;

/// What `rcgen::CertificateParams` ask of a certificate.
pub uninterp spec fn params_view(p: rcgen::CertificateParams) -> ParamsView;

/// What a `rcgen::Certificate` was built from, and its key pair.
pub uninterp spec fn certificate_view(c: rcgen::Certificate) -> ParamsView;

/// The PKCS#8 DER bytes that a `rcgen::KeyPair` was read from.
pub uninterp spec fn keypair_der(k: rcgen::KeyPair) -> Seq<u8>;

/// The instant of a `time::OffsetDateTime`, in Unix seconds.
pub uninterp spec fn datetime_unix(t: time::OffsetDateTime) -> int;

/// The decoded contents of the text, if `pem::parse` reads it as PEM.
pub uninterp spec fn pem_der_of(pem: Seq<char>) -> Option<Seq<u8>>;

/// The PEM text that rcgen writes for a private key with these PKCS#8 DER
/// bytes (label "PRIVATE KEY").
pub uninterp spec fn private_key_pem_of(der: Seq<u8>) -> Seq<char>;

/// The first instant that `time::OffsetDateTime` can hold: -9999-01-01.
const TIME_MIN_UNIX_SECONDS: i64 = -377705116800;

/// rcgen's default `not_before`: 1975-01-01 00:00:00 UTC.
pub const DEFAULT_NOT_BEFORE: i64 = 157766400;

/// rcgen's default `not_after`: 4096-01-01 00:00:00 UTC.
pub const DEFAULT_NOT_AFTER: i64 = 67090118400;

/// Relies on `rcgen::KeyPair::from_pem`: parses the text with `pem::parse`
/// and keeps its contents as the key's PKCS#8 DER bytes.
#[verifier::external_body]
fn keypair_from_pem(pem: &str) -> (r: Result<rcgen::KeyPair, rcgen::Error>)
    ensures
        r matches Ok(k) ==> pem_der_of(pem@) == Some(keypair_der(k)),
{
    rcgen::KeyPair::from_pem(pem)
}

/// Relies on `rcgen::DistinguishedName::new`: an empty distinguished name.
#[verifier::external_body]
fn new_distinguished_name() -> (r: rcgen::DistinguishedName)
    ensures
        dn_entries(r) == Seq::<(DnAttribute, Seq<char>)>::empty(),
{
    rcgen::DistinguishedName::new()
}

/// Some entry of the distinguished name has the attribute.
pub open spec fn dn_has(entries: Seq<(DnAttribute, Seq<char>)>, attr: DnAttribute) -> bool {
    exists|i: int| 0 <= i < entries.len() && entries[i].0 == attr
}

/// Relies on `rcgen::DistinguishedName::push`: a new attribute goes after
/// those already there; an attribute already there gets the new value in
/// its place. A `&str` becomes a UTF-8 string value.
#[verifier::external_body]
fn push_dn_entry(dn: &mut rcgen::DistinguishedName, attr: DnAttribute, value: &str)
    ensures
        !dn_has(dn_entries(*old(dn)), attr) ==> dn_entries(*final(dn)) == dn_entries(
            *old(dn),
        ).push((attr, value@)),
        dn_has(dn_entries(*old(dn)), attr) ==> exists|i: int|
            0 <= i < dn_entries(*old(dn)).len() && dn_entries(*old(dn))[i].0 == attr
                && dn_entries(*final(dn)) == dn_entries(*old(dn)).update(i, (attr, value@)),
{
    let ty = match attr {
        DnAttribute::CommonName => rcgen::DnType::CommonName,
        DnAttribute::OrganizationName => rcgen::DnType::OrganizationName,
        DnAttribute::OrganizationalUnitName => rcgen::DnType::OrganizationalUnitName,
    };
    dn.push(ty, value)
}

/// Relies on `rcgen::CertificateParams::default`: subject
/// `CN=rcgen self signed cert`, ECDSA P-256 SHA-256, valid from 1975-01-01 to
/// 4096-01-01, not an authority, no key pair.
#[verifier::external_body]
fn default_params() -> (r: rcgen::CertificateParams)
    ensures
        params_view(r) == (ParamsView {
            subject: seq![(DnAttribute::CommonName, "rcgen self signed cert"@)],
            algorithm: Some(CertificateAlgorithm::EcdsaP256Sha256),
            validity: (DEFAULT_NOT_BEFORE as int, DEFAULT_NOT_AFTER as int),
            authority: Some(CertificateAuthority::NotCa),
            key_der: None,
        }),
{
    rcgen::CertificateParams::default()
}

/// Sets `distinguished_name` of the parameters: the certificate's subject.
#[verifier::external_body]
fn set_subject(params: &mut rcgen::CertificateParams, dn: rcgen::DistinguishedName)
    ensures
        params_view(*final(params)) == (ParamsView {
            subject: dn_entries(dn),
            ..params_view(*old(params))
        }),
{
    params.distinguished_name = dn;
}

/// Sets `alg` of the parameters.
#[verifier::external_body]
fn set_signature_algorithm(params: &mut rcgen::CertificateParams, alg: CertificateAlgorithm)
    ensures
        params_view(*final(params)) == (ParamsView {
            algorithm: Some(alg),
            ..params_view(*old(params))
        }),
{
    params.alg = match alg {
        CertificateAlgorithm::EcdsaP256Sha256 => &rcgen::PKCS_ECDSA_P256_SHA256,
    };
}

/// Sets `key_pair` of the parameters: the key that `from_params` then uses
/// instead of generating one.
#[verifier::external_body]
fn set_key_pair(params: &mut rcgen::CertificateParams, key_pair: rcgen::KeyPair)
    ensures
        params_view(*final(params)) == (ParamsView {
            key_der: Some(keypair_der(key_pair)),
            ..params_view(*old(params))
        }),
{
    params.key_pair = Some(key_pair);
}

/// Sets `not_before` and `not_after` of the parameters.
#[verifier::external_body]
fn set_validity(
    params: &mut rcgen::CertificateParams,
    not_before: time::OffsetDateTime,
    not_after: time::OffsetDateTime,
)
    ensures
        params_view(*final(params)) == (ParamsView {
            validity: (datetime_unix(not_before), datetime_unix(not_after)),
            ..params_view(*old(params))
        }),
{
    params.not_before = not_before;
    params.not_after = not_after;
}

/// Sets `is_ca` of the parameters.
#[verifier::external_body]
fn set_authority(params: &mut rcgen::CertificateParams, authority: CertificateAuthority)
    ensures
        params_view(*final(params)) == (ParamsView {
            authority: Some(authority),
            ..params_view(*old(params))
        }),
{
    params.is_ca = match authority {
        CertificateAuthority::NotCa => rcgen::IsCa::NoCa,
        CertificateAuthority::Unconstrained => rcgen::IsCa::Ca(
            rcgen::BasicConstraints::Unconstrained,
        ),
    };
}

/// Relies on `time::OffsetDateTime::from_unix_timestamp`: fails exactly
/// outside the years -9999 to 9999.
#[verifier::external_body]
fn datetime_from_unix(
    unix_seconds: i64,
) -> (r: Result<time::OffsetDateTime, time::error::ComponentRange>)
    ensures
        r is Ok <==> TIME_MIN_UNIX_SECONDS <= unix_seconds <= MAX_UNIX_SECONDS,
        r matches Ok(t) ==> datetime_unix(t) == unix_seconds,
{
    time::OffsetDateTime::from_unix_timestamp(unix_seconds)
}

/// Relies on `time::OffsetDateTime::now_utc` and `unix_timestamp`: the
/// current time, in the range of `OffsetDateTime`.
#[verifier::external_body]
fn now_unix_seconds() -> (r: i64)
    ensures
        TIME_MIN_UNIX_SECONDS <= r <= MAX_UNIX_SECONDS,
{
    time::OffsetDateTime::now_utc().unix_timestamp()
}

/// Relies on `rcgen::Certificate::from_params`: keeps the parameters, and
/// binds them to their key pair, or to a freshly generated one when none is
/// set.
#[verifier::external_body]
fn certificate_from_params(
    params: rcgen::CertificateParams,
) -> (r: Result<rcgen::Certificate, rcgen::Error>)
    ensures
        r matches Ok(c) ==> {
            &&& certificate_view(c).subject == params_view(params).subject
            &&& certificate_view(c).algorithm == params_view(params).algorithm
            &&& certificate_view(c).validity == params_view(params).validity
            &&& certificate_view(c).authority == params_view(params).authority
            &&& certificate_view(c).key_der is Some
            &&& params_view(params).key_der is Some ==> certificate_view(c).key_der == params_view(
                params,
            ).key_der
        },
{
    rcgen::Certificate::from_params(params)
}

/// A certificate with its key pair, held in memory that is overwritten when
/// it is dropped, by `zeroize::Zeroizing`. Verus cannot declare `Zeroizing`
/// itself (its `Zeroize` bound), so the wrapper is held opaquely here.
#[verifier::external_body]
pub struct SecretCertificate {
    inner: zeroize::Zeroizing<rcgen::Certificate>,
}

/// What the held certificate was built from, and its key pair.
pub uninterp spec fn secret_certificate_view(c: SecretCertificate) -> ParamsView;

/// Relies on `zeroize::Zeroizing::new`: moves the certificate into a wrapper
/// that overwrites it, key pair included, when dropped.
#[verifier::external_body]
fn secret_certificate(c: rcgen::Certificate) -> (r: SecretCertificate)
    ensures
        secret_certificate_view(r) == certificate_view(c),
{
    SecretCertificate { inner: zeroize::Zeroizing::new(c) }
}

/// Relies on `rcgen::Certificate::serialize_pem`: the self-signed certificate
/// in PEM, starting with its "CERTIFICATE" header. Its dates are written as
/// UTCTime or GeneralizedTime, which panics outside the years 0 to 9999.
#[verifier::external_body]
fn serialize_certificate_pem(c: &SecretCertificate) -> (r: Result<String, rcgen::Error>)
    requires
        dates_in_range(secret_certificate_view(*c).validity),
    ensures
        r matches Ok(s) ==> "-----BEGIN CERTIFICATE-----"@.is_prefix_of(s@),
{
    c.inner.serialize_pem()
}

/// Relies on `rcgen::Certificate::serialize_request_pem`: the signing request
/// in PEM, starting with its "CERTIFICATE REQUEST" header.
#[verifier::external_body]
fn serialize_request_pem(c: &SecretCertificate) -> (r: Result<String, rcgen::Error>)
    ensures
        r matches Ok(s) ==> "-----BEGIN CERTIFICATE REQUEST-----"@.is_prefix_of(s@),
{
    c.inner.serialize_request_pem()
}

/// Relies on `rcgen::Certificate::serialize_private_key_pem`: the key pair's
/// PKCS#8 DER bytes as PEM; it panics only for a remote key pair (never
/// built here).
#[verifier::external_body]
fn serialize_private_key_pem(c: &SecretCertificate) -> (r: String)
    requires
        secret_certificate_view(*c).key_der is Some,
    ensures
        r@ == private_key_pem_of(secret_certificate_view(*c).key_der->Some_0),
{
    c.inner.serialize_private_key_pem()
}

/// The attributes of a subject name that the library sets.
#[derive(Debug, Clone, Copy, PartialEq, Eq, Structural)]
pub enum DnAttribute {
    CommonName,
    OrganizationName,
    OrganizationalUnitName,
}

/// The signature algorithm of a certificate.
#[derive(Debug, Clone, Copy, PartialEq, Eq, Structural)]
pub enum CertificateAlgorithm {
    /// ECDSA on the NIST P-256 curve with SHA-256, as per RFC 5758.
    EcdsaP256Sha256,
}

/// Whether a certificate is a certificate authority.
#[derive(Debug, Clone, Copy, PartialEq, Eq, Structural)]
pub enum CertificateAuthority {
    NotCa,
    /// An authority with no path-length constraint.
    Unconstrained,
}

/// What certificate parameters, or a certificate, hold.
pub struct ParamsView {
    /// The subject's attributes, in order.
    pub subject: Seq<(DnAttribute, Seq<char>)>,
    /// The signature algorithm; `None` for one that the library never sets.
    pub algorithm: Option<CertificateAlgorithm>,
    /// `not_before` and `not_after`, in Unix seconds.
    pub validity: (int, int),
    /// The authority setting; `None` for one that the library never sets.
    pub authority: Option<CertificateAuthority>,
    /// The PKCS#8 DER bytes of the key pair, if one is set.
    pub key_der: Option<Seq<u8>>,
}

/// Both dates lie between 0000-01-01 and 9999-12-31, where a certificate can
/// hold them.
pub open spec fn dates_in_range(validity: (int, int)) -> bool {
    &&& MIN_UNIX_SECONDS <= validity.0 <= MAX_UNIX_SECONDS
    &&& MIN_UNIX_SECONDS <= validity.1 <= MAX_UNIX_SECONDS
}

/// Where the key pair of a new certificate comes from.
pub enum KeyKind {
    /// Create a new key
    New,
    /// Reuse the existing PEM-encoded key pair
    Reuse { keypair_pem: String },
}

/// The settings of new certificates and signing requests.
pub struct NewCertificateConfig {
    pub max_cn_size: usize,
    pub validity_period_days: u32,
    pub organization_name: String,
    pub organizational_unit_name: String,
}

impl Default for NewCertificateConfig {
    fn default() -> (r: Self)
        ensures
            r.max_cn_size == 64,
            r.validity_period_days == 365,
            r.organization_name@ == "Thin Edge"@,
            r.organizational_unit_name@ == "Test Device"@,
    {
        NewCertificateConfig {
            max_cn_size: 64,
            validity_period_days: 365,
            organization_name: "Thin Edge".to_owned(),
            organizational_unit_name: "Test Device".to_owned(),
        }
    }
}

/// Why building or reading a certificate failed.
#[derive(Debug)]
pub enum CertificateError {
    /// A file could not be read.
    IoError { path: String, error: String },
    /// Key generation, key import or certificate encoding failed.
    CryptographyError(rcgen::Error),
    /// The text is not PEM.
    PemError(x509_parser::error::PEMError),
    /// The PEM block does not hold a well-formed X.509 certificate.
    X509Error(String),
    /// The device identifier breaks the naming rules.
    InvalidDeviceID(DeviceIdError),
    /// The private key is in no known format.
    UnknownPrivateKeyFormat,
    /// The validity window would end after the last representable date, or
    /// start before the first.
    InvalidValidityPeriod,
    /// A peer certificate failed TLS validation.
    CertificateValidationFailure { hint: String, msg: String },
}

/// What the library asks of a certificate or signing request.
pub struct CertificateModel {
    /// The subject's Common Name: the device identifier, verbatim.
    pub common_name: String,
    pub organization_name: String,
    pub organizational_unit_name: String,
    /// The signature algorithm.
    pub algorithm: CertificateAlgorithm,
    /// The validity window; none for a signing request, whose signer sets it.
    pub validity: Option<ValidityPeriod>,
    /// Marked as a (self-signed) certificate authority.
    pub is_ca: bool,
    /// Uses a supplied key pair rather than a fresh one.
    pub reuses_key: bool,
}

/// The subject of the model: CN, O, OU, in this order.
pub open spec fn subject_of(m: CertificateModel) -> Seq<(DnAttribute, Seq<char>)> {
    seq![
        (DnAttribute::CommonName, m.common_name@),
        (DnAttribute::OrganizationName, m.organization_name@),
        (DnAttribute::OrganizationalUnitName, m.organizational_unit_name@),
    ]
}

/// The dates that the parameters of the model carry: its window, or rcgen's
/// default one, which a signing request does not use.
pub open spec fn dates_of(m: CertificateModel) -> (int, int) {
    match m.validity {
        Some(w) => (w.not_before.unix_seconds as int, w.not_after.unix_seconds as int),
        None => (DEFAULT_NOT_BEFORE as int, DEFAULT_NOT_AFTER as int),
    }
}

/// The parameters or certificate carry what the model asks: its subject in
/// order, its algorithm, its dates and its authority setting.
pub open spec fn carries(v: ParamsView, m: CertificateModel) -> bool {
    &&& v.subject == subject_of(m)
    &&& v.algorithm == Some(m.algorithm)
    &&& v.validity == dates_of(m)
    &&& v.authority == Some(
        if m.is_ca {
            CertificateAuthority::Unconstrained
        } else {
            CertificateAuthority::NotCa
        },
    )
}

/// The subject of a certificate for `id` under `config`: CN=id,
/// O=organization, OU=organizational unit; ECDSA P-256 SHA-256.
pub open spec fn subject_matches(
    m: CertificateModel,
    config: NewCertificateConfig,
    id: Seq<char>,
    key_kind: KeyKind,
) -> bool {
    &&& m.common_name@ == id
    &&& m.organization_name@ == config.organization_name@
    &&& m.organizational_unit_name@ == config.organizational_unit_name@
    &&& m.algorithm == CertificateAlgorithm::EcdsaP256Sha256
    &&& m.reuses_key == (key_kind is Reuse)
}

/// The model of a signing request for `id`: its subject, no validity window,
/// not an authority.
pub open spec fn is_csr_model(
    m: CertificateModel,
    config: NewCertificateConfig,
    id: Seq<char>,
    key_kind: KeyKind,
) -> bool {
    &&& subject_matches(m, config, id, key_kind)
    &&& m.validity is None
    &&& !m.is_ca
}

/// The model of a self-signed certificate for `id` valid from `not_before`
/// for the configured number of days, marked as an authority.
pub open spec fn is_selfsigned_model(
    m: CertificateModel,
    config: NewCertificateConfig,
    id: Seq<char>,
    key_kind: KeyKind,
    not_before: Timestamp,
) -> bool {
    &&& subject_matches(m, config, id, key_kind)
    &&& m.validity == spec_validity_from(not_before, config.validity_period_days as nat)
    &&& m.validity is Some
    &&& m.is_ca
}

/// A key pair is to be reused, and its text is not even PEM.
pub open spec fn key_text_unreadable(key_kind: KeyKind) -> bool {
    key_kind matches KeyKind::Reuse { keypair_pem } && pem_der_of(keypair_pem@) is None
}

/// The key of the parameters is the one asked for: none for a new key (one
/// is generated), the DER of the supplied PEM for a reused one.
pub open spec fn key_as_asked(key_der: Option<Seq<u8>>, key_kind: KeyKind) -> bool {
    match key_kind {
        KeyKind::New => key_der is None,
        KeyKind::Reuse { keypair_pem } => key_der is Some && pem_der_of(keypair_pem@) == key_der,
    }
}

/// A certificate made for `key_kind` holds the reused key pair, if one was
/// supplied.
pub open spec fn key_kept(key_der: Option<Seq<u8>>, key_kind: KeyKind) -> bool {
    key_der is Some && (key_kind is Reuse ==> key_as_asked(key_der, key_kind))
}

/// The parameters of a certificate or signing request: the values handed
/// to `rcgen`, and their model.
pub struct CertificateParameters {
    params: rcgen::CertificateParams,
    model: CertificateModel,
}

impl CertificateParameters {
    #[verifier::type_invariant]
    closed spec fn inv(&self) -> bool {
        &&& carries(params_view(self.params), self.model)
        &&& dates_in_range(params_view(self.params).validity)
    }

    pub closed spec fn spec_model(&self) -> CertificateModel {
        self.model
    }

    /// What the parameters handed to rcgen hold.
    pub closed spec fn spec_view(&self) -> ParamsView {
        params_view(self.params)
    }

    /// What these parameters ask of the certificate.
    pub fn model(&self) -> (r: &CertificateModel)
        ensures
            *r == self.spec_model(),
    {
        &self.model
    }
}

/// A key pair with a self-signed certificate or a signing request over it.
pub struct KeyCertPair {
    certificate: SecretCertificate,
    model: CertificateModel,
}

impl KeyCertPair {
    #[verifier::type_invariant]
    closed spec fn inv(&self) -> bool {
        &&& carries(secret_certificate_view(self.certificate), self.model)
        &&& dates_in_range(secret_certificate_view(self.certificate).validity)
        &&& secret_certificate_view(self.certificate).key_der is Some
    }

    pub closed spec fn spec_model(&self) -> CertificateModel {
        self.model
    }

    /// What rcgen's certificate was built from, and its key pair.
    pub closed spec fn spec_view(&self) -> ParamsView {
        secret_certificate_view(self.certificate)
    }

    /// What the certificate or signing request was built from.
    pub fn model(&self) -> (r: &CertificateModel)
        ensures
            *r == self.spec_model(),
    {
        &self.model
    }

    /// Checks the device identifier against the naming rules of `config`.
    fn check_identifier(id: &str, max_cn_size: usize) -> (r: Result<(), CertificateError>)
        ensures
            r is Ok <==> valid_device_id(id@, max_cn_size as nat),
            r matches Err(e) ==> e == CertificateError::InvalidDeviceID(
                device_id_check(id@, max_cn_size as nat)->Err_0,
            ),
    {
        match is_valid_device_id(id, max_cn_size) {
            Ok(()) => Ok(()),
            Err(e) => Err(CertificateError::InvalidDeviceID(e)),
        }
    }

    /// The parameters of a signing request for `id`: subject
    /// `CN=id, O=organization, OU=organizational unit` in this order, ECDSA
    /// P-256 with SHA-256, not an authority, and the supplied key pair if one
    /// is to be reused.
    ///
    /// Fails with `InvalidDeviceID` exactly when `id` breaks the naming
    /// rules, else with `CryptographyError` only when a supplied key pair
    /// cannot be imported (always when its text is not PEM).
    pub fn create_csr_parameters(
        config: &NewCertificateConfig,
        id: &str,
        key_kind: &KeyKind,
    ) -> (r: Result<CertificateParameters, CertificateError>)
        ensures
            r matches Err(CertificateError::InvalidDeviceID(e)) <==> !valid_device_id(
                id@,
                config.max_cn_size as nat,
            ),
            r matches Err(CertificateError::InvalidDeviceID(e)) ==> e == device_id_check(
                id@,
                config.max_cn_size as nat,
            )->Err_0,
            valid_device_id(id@, config.max_cn_size as nat) && *key_kind is New ==> r is Ok,
            valid_device_id(id@, config.max_cn_size as nat) && key_text_unreadable(*key_kind)
                ==> r matches Err(CertificateError::CryptographyError(_)),
            r matches Err(e) ==> (e is InvalidDeviceID || e is CryptographyError && *key_kind is Reuse),
            r matches Ok(p) ==> {
                &&& is_csr_model(p.spec_model(), *config, id@, *key_kind)
                &&& carries(p.spec_view(), p.spec_model())
                &&& key_as_asked(p.spec_view().key_der, *key_kind)
            },
    {
        if let Err(e) = Self::check_identifier(id, config.max_cn_size) {
            return Err(e);
        }
        let mut dn = new_distinguished_name();
        push_dn_entry(&mut dn, DnAttribute::CommonName, id);
        push_dn_entry(&mut dn, DnAttribute::OrganizationName, config.organization_name.as_str());
        push_dn_entry(
            &mut dn,
            DnAttribute::OrganizationalUnitName,
            config.organizational_unit_name.as_str(),
        );
        let ghost entries = dn_entries(dn);

        let mut params = default_params();
        set_subject(&mut params, dn);
        set_signature_algorithm(&mut params, CertificateAlgorithm::EcdsaP256Sha256);
        set_authority(&mut params, CertificateAuthority::NotCa);

        let reuses_key = match key_kind {
            KeyKind::New => false,
            KeyKind::Reuse { keypair_pem } => {
                match keypair_from_pem(keypair_pem.as_str()) {
                    Ok(key_pair) => set_key_pair(&mut params, key_pair),
                    Err(e) => return Err(CertificateError::CryptographyError(e)),
                }
                true
            },
        };

        let model = CertificateModel {
            common_name: id.to_owned(),
            organization_name: config.organization_name.clone(),
            organizational_unit_name: config.organizational_unit_name.clone(),
            algorithm: CertificateAlgorithm::EcdsaP256Sha256,
            validity: None,
            is_ca: false,
            reuses_key,
        };
        assert(entries =~= subject_of(model));
        Ok(CertificateParameters { params, model })
    }

    /// The parameters of a self-signed certificate for `id`: those of a
    /// signing request, valid from `not_before` for the configured number of
    /// days, and marked as an unconstrained certificate authority (some
    /// clouds refuse a self-signed leaf).
    ///
    /// Fails with `InvalidDeviceID` exactly when `id` breaks the naming
    /// rules, else with `InvalidValidityPeriod` exactly when the window would
    /// end after the last representable date, else as
    /// `create_csr_parameters` does.
    pub fn create_selfsigned_certificate_parameters(
        config: &NewCertificateConfig,
        id: &str,
        key_kind: &KeyKind,
        not_before: Timestamp,
    ) -> (r: Result<CertificateParameters, CertificateError>)
        requires
            not_before.wf(),
        ensures
            r matches Err(CertificateError::InvalidDeviceID(e)) <==> !valid_device_id(
                id@,
                config.max_cn_size as nat,
            ),
            r matches Err(CertificateError::InvalidDeviceID(e)) ==> e == device_id_check(
                id@,
                config.max_cn_size as nat,
            )->Err_0,
            r matches Err(CertificateError::InvalidValidityPeriod) <==> valid_device_id(
                id@,
                config.max_cn_size as nat,
            ) && spec_validity_from(not_before, config.validity_period_days as nat) is None,
            valid_device_id(id@, config.max_cn_size as nat) && spec_validity_from(
                not_before,
                config.validity_period_days as nat,
            ) is Some && *key_kind is New ==> r is Ok,
            valid_device_id(id@, config.max_cn_size as nat) && spec_validity_from(
                not_before,
                config.validity_period_days as nat,
            ) is Some && key_text_unreadable(*key_kind) ==> r matches Err(
                CertificateError::CryptographyError(_),
            ),
            r matches Err(e) ==> (e is InvalidDeviceID || e is InvalidValidityPeriod
                || e is CryptographyError && *key_kind is Reuse),
            r matches Ok(p) ==> {
                &&& is_selfsigned_model(p.spec_model(), *config, id@, *key_kind, not_before)
                &&& carries(p.spec_view(), p.spec_model())
                &&& key_as_asked(p.spec_view().key_der, *key_kind)
            },
    {
        if let Err(e) = Self::check_identifier(id, config.max_cn_size) {
            return Err(e);
        }
        let validity = match validity_from(not_before, config.validity_period_days) {
            Some(v) => v,
            None => return Err(CertificateError::InvalidValidityPeriod),
        };
        let mut p = match Self::create_csr_parameters(config, id, key_kind) {
            Ok(p) => p,
            Err(e) => return Err(e),
        };
        let nb = match datetime_from_unix(validity.not_before.unix_seconds) {
            Ok(t) => t,
            Err(_) => return Err(CertificateError::InvalidValidityPeriod),
        };
        let na = match datetime_from_unix(validity.not_after.unix_seconds) {
            Ok(t) => t,
            Err(_) => return Err(CertificateError::InvalidValidityPeriod),
        };
        proof {
            use_type_invariant(&p);
        }
        let CertificateParameters { mut params, mut model } = p;
        set_validity(&mut params, nb, na);
        set_authority(&mut params, CertificateAuthority::Unconstrained);
        model.validity = Some(validity);
        model.is_ca = true;
        Ok(CertificateParameters { params, model })
    }

    /// Binds the parameters to their key pair: the supplied one, or a fresh
    /// ECDSA P-256 key pair. Only key generation can fail.
    pub fn from_parameters(p: CertificateParameters) -> (r: Result<KeyCertPair, CertificateError>)
        ensures
            r matches Ok(pair) ==> {
                &&& pair.spec_model() == p.spec_model()
                &&& carries(pair.spec_view(), pair.spec_model())
                &&& pair.spec_view().key_der is Some
                &&& p.spec_view().key_der is Some ==> pair.spec_view().key_der
                    == p.spec_view().key_der
            },
            r is Err ==> r matches Err(CertificateError::CryptographyError(_)),
    {
        proof {
            use_type_invariant(&p);
        }
        let CertificateParameters { params, model } = p;
        match certificate_from_params(params) {
            Ok(c) => Ok(KeyCertPair { certificate: secret_certificate(c), model }),
            Err(e) => Err(CertificateError::CryptographyError(e)),
        }
    }

    /// A self-signed certificate for `id` issued at `birthdate`: valid from
    /// one day before it, for the configured number of days.
    pub fn new_selfsigned_certificate_at(
        config: &NewCertificateConfig,
        id: &str,
        key_kind: &KeyKind,
        birthdate: Timestamp,
    ) -> (r: Result<KeyCertPair, CertificateError>)
        requires
            birthdate.wf(),
        ensures
            r matches Err(CertificateError::InvalidDeviceID(e)) <==> !valid_device_id(
                id@,
                config.max_cn_size as nat,
            ),
            r matches Err(CertificateError::InvalidDeviceID(e)) ==> e == device_id_check(
                id@,
                config.max_cn_size as nat,
            )->Err_0,
            r matches Err(CertificateError::InvalidValidityPeriod) <==> valid_device_id(
                id@,
                config.max_cn_size as nat,
            ) && !window_fits(birthdate, config.validity_period_days as nat),
            valid_device_id(id@, config.max_cn_size as nat) && window_fits(
                birthdate,
                config.validity_period_days as nat,
            ) ==> r is Ok || r matches Err(CertificateError::CryptographyError(_)),
            valid_device_id(id@, config.max_cn_size as nat) && window_fits(
                birthdate,
                config.validity_period_days as nat,
            ) && key_text_unreadable(*key_kind) ==> r matches Err(
                CertificateError::CryptographyError(_),
            ),
            r matches Ok(pair) ==> {
                &&& spec_backdated(birthdate) is Some
                &&& is_selfsigned_model(
                    pair.spec_model(),
                    *config,
                    id@,
                    *key_kind,
                    spec_backdated(birthdate)->Some_0,
                )
                &&& carries(pair.spec_view(), pair.spec_model())
                &&& key_kept(pair.spec_view().key_der, *key_kind)
            },
    {
        if let Err(e) = Self::check_identifier(id, config.max_cn_size) {
            return Err(e);
        }
        let not_before = match backdated(birthdate) {
            Some(t) => t,
            None => return Err(CertificateError::InvalidValidityPeriod),
        };
        let params = Self::create_selfsigned_certificate_parameters(
            config,
            id,
            key_kind,
            not_before,
        );
        match params {
            Ok(p) => Self::from_parameters(p),
            Err(e) => Err(e),
        }
    }

    /// A self-signed certificate for `id`, valid from one day before now for
    /// the configured number of days.
    pub fn new_selfsigned_certificate(
        config: &NewCertificateConfig,
        id: &str,
        key_kind: &KeyKind,
    ) -> (r: Result<KeyCertPair, CertificateError>)
        ensures
            r matches Err(CertificateError::InvalidDeviceID(e)) <==> !valid_device_id(
                id@,
                config.max_cn_size as nat,
            ),
            r matches Err(CertificateError::InvalidDeviceID(e)) ==> e == device_id_check(
                id@,
                config.max_cn_size as nat,
            )->Err_0,
            valid_device_id(id@, config.max_cn_size as nat) ==> r is Ok || r matches Err(
                CertificateError::CryptographyError(_),
            ) || r matches Err(CertificateError::InvalidValidityPeriod),
            r matches Ok(pair) ==> exists|now: Timestamp|
                #![trigger spec_backdated(now)]
                now.wf() && spec_backdated(now) is Some && is_selfsigned_model(
                    pair.spec_model(),
                    *config,
                    id@,
                    *key_kind,
                    spec_backdated(now)->Some_0,
                ),
            r matches Ok(pair) ==> carries(pair.spec_view(), pair.spec_model()) && key_kept(
                pair.spec_view().key_der,
                *key_kind,
            ),
    {
        let now = match Timestamp::from_unix_seconds(now_unix_seconds()) {
            Some(t) => t,
            None => {
                if let Err(e) = Self::check_identifier(id, config.max_cn_size) {
                    return Err(e);
                }
                return Err(CertificateError::InvalidValidityPeriod);
            },
        };
        Self::new_selfsigned_certificate_at(config, id, key_kind, now)
    }

    /// A signing request for `id`, over the supplied or a fresh key pair.
    pub fn new_certificate_sign_request(
        config: &NewCertificateConfig,
        id: &str,
        key_kind: &KeyKind,
    ) -> (r: Result<KeyCertPair, CertificateError>)
        ensures
            r matches Err(CertificateError::InvalidDeviceID(e)) <==> !valid_device_id(
                id@,
                config.max_cn_size as nat,
            ),
            r matches Err(CertificateError::InvalidDeviceID(e)) ==> e == device_id_check(
                id@,
                config.max_cn_size as nat,
            )->Err_0,
            valid_device_id(id@, config.max_cn_size as nat) ==> r is Ok || r matches Err(
                CertificateError::CryptographyError(_),
            ),
            valid_device_id(id@, config.max_cn_size as nat) && key_text_unreadable(*key_kind)
                ==> r matches Err(CertificateError::CryptographyError(_)),
            r matches Ok(pair) ==> {
                &&& is_csr_model(pair.spec_model(), *config, id@, *key_kind)
                &&& carries(pair.spec_view(), pair.spec_model())
                &&& key_kept(pair.spec_view().key_der, *key_kind)
            },
    {
        match Self::create_csr_parameters(config, id, key_kind) {
            Ok(p) => Self::from_parameters(p),
            Err(e) => Err(e),
        }
    }

    /// The certificate in PEM.
    pub fn certificate_pem_string(&self) -> (r: Result<String, CertificateError>)
        ensures
            r matches Ok(s) ==> "-----BEGIN CERTIFICATE-----"@.is_prefix_of(s@),
            r is Err ==> r matches Err(CertificateError::CryptographyError(_)),
    {
        proof {
            use_type_invariant(self);
        }
        match serialize_certificate_pem(&self.certificate) {
            Ok(s) => Ok(s),
            Err(e) => Err(CertificateError::CryptographyError(e)),
        }
    }

    /// The private key in PEM, held in memory that is overwritten when
    /// dropped: for a reused key pair, the PEM of the very DER bytes that
    /// were supplied.
    pub fn private_key_pem_string(&self) -> (r: Result<SecretString, CertificateError>)
        ensures
            r matches Ok(s) && secret_text(s) == private_key_pem_of(
                self.spec_view().key_der->Some_0,
            ),
    {
        proof {
            use_type_invariant(self);
        }
        Ok(secret_from(serialize_private_key_pem(&self.certificate)))
    }

    /// The certificate signing request in PEM.
    pub fn certificate_signing_request_string(&self) -> (r: Result<String, CertificateError>)
        ensures
            r matches Ok(s) ==> "-----BEGIN CERTIFICATE REQUEST-----"@.is_prefix_of(s@),
            r is Err ==> r matches Err(CertificateError::CryptographyError(_)),
    {
        match serialize_request_pem(&self.certificate) {
            Ok(s) => Ok(s),
            Err(e) => Err(CertificateError::CryptographyError(e)),
        }
    }
}

/// One day before `birthdate` is a representable date, and so is the end of
/// a window of `days` days from there.
pub open spec fn window_fits(birthdate: Timestamp, days: nat) -> bool {
    spec_backdated(birthdate) is Some && spec_validity_from(spec_backdated(birthdate)->Some_0, days)
        is Some
}

} // verus!
