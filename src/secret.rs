//! Text that must not outlive its use: held in memory that is overwritten
//! when it is dropped.
use vstd::prelude::*;

verus! {

/// A string whose memory is overwritten when it is dropped, by
/// `zeroize::Zeroizing`. Verus cannot declare `Zeroizing` itself (its
/// `Zeroize` bound), so the wrapper is held opaquely here.
#[verifier::external_body]
pub struct SecretString {
    inner: zeroize::Zeroizing<String>,
}

/// The characters that a secret string holds.
pub uninterp spec fn secret_text(s: SecretString) -> Seq<char>;

/// Relies on `zeroize::Zeroizing::new`: moves the string, without a copy,
/// into a wrapper that overwrites it when dropped.
#[verifier::external_body]
pub(crate) fn secret_from(s: String) -> (r: SecretString)
    ensures
        secret_text(r) == s@,
{
    SecretString { inner: zeroize::Zeroizing::new(s) }
}

/// Relies on `Deref` of `zeroize::Zeroizing<String>`: the text it holds.
#[verifier::external_body]
fn secret_str(s: &SecretString) -> (r: &str)
    ensures
        r@ == secret_text(*s),
{
    s.inner.as_str()
}

impl SecretString {
    /// The text, borrowed for as long as the secret lives.
    pub fn expose(&self) -> (r: &str)
        ensures
            r@ == secret_text(*self),
    {
        secret_str(self)
    }
}

} // verus!
