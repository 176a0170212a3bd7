//! Signature schemes offered in a TLS handshake, and the choice among them.
use vstd::prelude::*;

verus! {

/// The TLS code of ECDSA on the NIST P-256 curve with SHA-256.
pub const ECDSA_NISTP256_SHA256: u16 = 0x0403;

/// A TLS signature scheme, by its code point.
#[derive(Debug, Clone, Copy, PartialEq, Eq, Structural)]
pub struct SignatureScheme {
    pub code: u16,
}

/// The family of the key that signs.
#[derive(Debug, Clone, Copy, PartialEq, Eq, Structural)]
pub enum SignatureAlgorithm {
    Ecdsa,
}

/// The one scheme that the library signs with.
pub open spec fn supported_scheme() -> SignatureScheme {
    SignatureScheme { code: ECDSA_NISTP256_SHA256 }
}

/// The scheme chosen among those offered: ECDSA P-256 SHA-256 when it is
/// offered, else none.
pub open spec fn spec_choose_scheme(offered: Seq<SignatureScheme>) -> Option<SignatureScheme> {
    if offered.contains(supported_scheme()) {
        Some(supported_scheme())
    } else {
        None
    }
}

impl SignatureScheme {
    /// ECDSA on the NIST P-256 curve with SHA-256.
    pub fn ecdsa_nistp256_sha256() -> (r: SignatureScheme)
        ensures
            r == supported_scheme(),
    {
        SignatureScheme { code: ECDSA_NISTP256_SHA256 }
    }
}

/// Chooses the scheme to sign with among those offered. `None` tells the TLS
/// stack to go on without client authentication.
pub fn choose_scheme(offered: &[SignatureScheme]) -> (r: Option<SignatureScheme>)
    ensures
        r == spec_choose_scheme(offered@),
{
    let mut i: usize = 0;
    while i < offered.len()
        invariant
            i <= offered@.len(),
            !offered@.subrange(0, i as int).contains(supported_scheme()),
        decreases offered@.len() - i,
    {
        if offered[i].code == ECDSA_NISTP256_SHA256 {
            assert(offered@[i as int] == supported_scheme());
            return Some(SignatureScheme::ecdsa_nistp256_sha256());
        }
        assert(offered@.subrange(0, i + 1) =~= offered@.subrange(0, i as int).push(offered@[i as int]));
        i = i + 1;
    }
    assert(offered@.subrange(0, i as int) =~= offered@);
    None
}

/// The key family that the signing key reports: ECDSA.
pub fn key_algorithm() -> (r: SignatureAlgorithm)
    ensures
        r == SignatureAlgorithm::Ecdsa,
{
    SignatureAlgorithm::Ecdsa
}

/// The scheme is chosen exactly when ECDSA P-256 SHA-256 is offered, and
/// then it is that scheme; an empty offer chooses none.
pub proof fn lemma_choice_follows_offer(offered: Seq<SignatureScheme>)
    ensures
        spec_choose_scheme(offered) == Some(supported_scheme()) <==> offered.contains(
            supported_scheme(),
        ),
        spec_choose_scheme(offered) is None <==> !offered.contains(supported_scheme()),
        offered.len() == 0 ==> spec_choose_scheme(offered) is None,
{
}

} // verus!
