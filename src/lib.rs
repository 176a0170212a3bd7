//! Device identity material and signing delegation for an edge agent.
//!
//! The library builds self-signed device certificates and certificate
//! signing requests, reads PEM certificates back, and carries TLS client
//! signatures between a client and a daemon that owns the private key.
pub mod certificate;
pub mod client;
pub mod daemon;
pub mod identity;
pub mod multi;
pub mod pem;
pub mod protocol;
pub mod scheme;
pub mod secret;
pub mod text;
pub mod tls;
pub mod validity;

pub use certificate::{
    CertificateError, CertificateModel, CertificateParameters, KeyCertPair, KeyKind,
    NewCertificateConfig,
};
pub use client::{SigningError, TedgeP11Client};
pub use daemon::{CryptokiConfigDirect, DaemonAction, DaemonState, P11Service, ServiceError};
pub use identity::{is_valid_device_id, DeviceIdError};
pub use multi::{MultiDto, MultiError, MultiReader};
pub use pem::PemCertificate;
pub use secret::SecretString;
pub use scheme::{choose_scheme, SignatureAlgorithm, SignatureScheme};
pub use tls::{translate_rustls_error, ValidationFailure};
pub use validity::{Timestamp, ValidityPeriod};
