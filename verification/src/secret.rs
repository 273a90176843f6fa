//! Secrets held in memory that is wiped when dropped.
use vstd::prelude::*;
use zeroize::Zeroizing;

verus! {

/// A string whose memory is zeroized when it is dropped (held in a
/// `zeroize::Zeroizing<String>`).
#[verifier::external_body]
pub struct SecretString {
    inner: Zeroizing<String>,
}

/// The text held by a secret string.
pub uninterp spec fn secret_text(s: SecretString) -> Seq<char>;

impl SecretString {
    /// `Zeroizing::new`: moves the string into the wiping wrapper; the
    /// wrapper holds the same text.
    #[verifier::external_body]
    pub fn new(s: String) -> (r: SecretString)
        ensures
            secret_text(r) == s@,
    {
        SecretString { inner: Zeroizing::new(s) }
    }

    /// `<Zeroizing<String> as Deref>::deref`: the held text.
    #[verifier::external_body]
    pub fn as_str(&self) -> (r: &str)
        ensures
            r@ == secret_text(*self),
    {
        self.inner.as_str()
    }
}


/// Login credentials: a user name and a secret kept in wiped memory.
pub struct Credentials {
    username: String,
    secret: SecretString,
}

impl Credentials {
    /// The user name.
    pub closed spec fn username_view(&self) -> Seq<char> {
        self.username@
    }

    /// The secret.
    pub closed spec fn secret_view(&self) -> Seq<char> {
        secret_text(self.secret)
    }

    /// Credentials with the given user name and secret.
    pub fn new(username: &str, secret: &str) -> (r: Self)
        ensures
            r.username_view() == username@,
            r.secret_view() == secret@,
    {
        Credentials { username: username.to_owned(), secret: SecretString::new(secret.to_owned()) }
    }

    /// The user name.
    pub fn username(&self) -> (r: &str)
        ensures
            r@ == self.username_view(),
    {
        self.username.as_str()
    }

    /// The secret.
    pub fn secret(&self) -> (r: &str)
        ensures
            r@ == self.secret_view(),
    {
        self.secret.as_str()
    }
}

} // verus!
