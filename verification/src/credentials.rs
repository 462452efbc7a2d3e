//! Which credentials a remote is offered.
//!
//! A remote that is reached over https is offered the access token that the
//! secret backend keeps; any other remote is offered the user's ssh key pair.
//! The backend is asked by the driver, and only when `git_credentials` says
//! so; what it answered comes back as a `SecretLookup`.

use vstd::prelude::*;
use vstd::string::*;
use crate::error::MissingCredential;
use crate::error::SecretOperation;
use crate::error::SyncError;
use crate::error::SyncErrorView;
use crate::session::path_under;
use crate::text::starts_with;

verus! {

/// What a transport is handed when the remote asks who is there.
#[derive(Clone, Debug, PartialEq, Eq)]
pub enum Credential {
    /// A user name and the secret token that stands for the password.
    Token { username: String, secret: Vec<u8> },
    /// A user name and the two files of an ssh key pair, without passphrase.
    KeyPair { username: String, public_key: String, private_key: String },
}

/// The mathematical value of a `Credential`.
pub enum CredentialView {
    Token { username: Seq<char>, secret: Seq<u8> },
    KeyPair { username: Seq<char>, public_key: Seq<char>, private_key: Seq<char> },
}

impl View for Credential {
    type V = CredentialView;

    open spec fn view(&self) -> CredentialView {
        match self {
            Credential::Token { username, secret } => CredentialView::Token {
                username: username@,
                secret: secret@,
            },
            Credential::KeyPair { username, public_key, private_key } => CredentialView::KeyPair {
                username: username@,
                public_key: public_key@,
                private_key: private_key@,
            },
        }
    }
}

/// What the secret backend answered when it was asked for the token.
#[derive(Clone, Debug, PartialEq, Eq)]
pub enum SecretLookup {
    /// The backend could not be reached.
    Unavailable { message: String },
    /// No item carries the token's attribute.
    NotFound,
    /// The first such item does not give its secret.
    Unreadable,
    /// The secret of the first such item.
    Secret { bytes: Vec<u8> },
}

/// The mathematical value of a `SecretLookup`.
pub enum SecretLookupView {
    Unavailable { message: Seq<char> },
    NotFound,
    Unreadable,
    Secret { bytes: Seq<u8> },
}

impl View for SecretLookup {
    type V = SecretLookupView;

    open spec fn view(&self) -> SecretLookupView {
        match self {
            SecretLookup::Unavailable { message } => SecretLookupView::Unavailable { message: message@ },
            SecretLookup::NotFound => SecretLookupView::NotFound,
            SecretLookup::Unreadable => SecretLookupView::Unreadable,
            SecretLookup::Secret { bytes } => SecretLookupView::Secret { bytes: bytes@ },
        }
    }
}

/// How the credentials for a remote are come by.
#[derive(Clone, Debug, PartialEq, Eq)]
pub enum CredentialStep {
    /// They are these; the secret backend is not asked.
    Resolved { credential: Credential },
    /// The secret backend is asked for the item that carries
    /// `token_attribute()`, and `token_credentials` gets its answer.
    QuerySecret,
}

/// An item of the secret backend, as it is stored.
#[derive(Clone, Debug, PartialEq, Eq)]
pub struct SecretItem {
    pub label: String,
    pub attribute_name: String,
    pub attribute_value: String,
    pub secret: Vec<u8>,
    pub replace: bool,
    pub content_type: String,
}

/// Whether a remote is reached over https.
pub open spec fn is_https(url: Seq<char>) -> bool {
    "https://"@.is_prefix_of(url)
}

/// The key pair that every remote but an https one is offered: the user
/// `git`, and the RSA key in `.ssh` under the home directory.
pub open spec fn ssh_key_pair(home_root: Seq<char>) -> CredentialView {
    CredentialView::KeyPair {
        username: "git"@,
        public_key: path_under(home_root, ".ssh/id_rsa.pub"@),
        private_key: path_under(home_root, ".ssh/id_rsa"@),
    }
}

/// The credentials that an answer of the secret backend gives, or the error
/// that it stands for.
pub open spec fn token_of(username: Seq<char>, lookup: SecretLookupView) -> Result<
    CredentialView,
    SyncErrorView,
> {
    match lookup {
        SecretLookupView::Unavailable { message } => Err(
            SyncErrorView::SecretBackendUnavailable { request: SecretOperation::Connect, message },
        ),
        SecretLookupView::NotFound => Err(
            SyncErrorView::CredentialsMissing { reason: MissingCredential::NotStored },
        ),
        SecretLookupView::Unreadable => Err(
            SyncErrorView::CredentialsMissing { reason: MissingCredential::NoSecret },
        ),
        SecretLookupView::Secret { bytes } => Ok(CredentialView::Token { username, secret: bytes }),
    }
}

/// What resolving the credentials for `url` ends in, where `lookup` is what
/// the secret backend would answer.
pub open spec fn resolution(
    username: Seq<char>,
    url: Seq<char>,
    home_root: Seq<char>,
    lookup: SecretLookupView,
) -> Result<CredentialView, SyncErrorView> {
    if is_https(url) {
        token_of(username, lookup)
    } else {
        Ok(ssh_key_pair(home_root))
    }
}

/// The attribute that marks the token among the items of the secret backend.
pub fn token_attribute() -> (attribute: (String, String))
    ensures
        attribute.0@ == "github"@,
        attribute.1@ == "access_token"@,
{
    ("github".to_owned(), "access_token".to_owned())
}

/// Tells an https remote from any other.
pub fn uses_https(url: &str) -> (https: bool)
    ensures
        https == is_https(url@),
{
    starts_with(url, "https://")
}

/// The first half of resolving credentials: for an https remote the secret
/// backend has to be asked, for any other remote the key pair under
/// `home_root` is the answer and the backend is left alone.
pub fn git_credentials(home_root: &str, url: &str) -> (step: CredentialStep)
    ensures
        is_https(url@) <==> step is QuerySecret,
        !is_https(url@) ==> step is Resolved && step->credential@ == ssh_key_pair(home_root@),
{
    if uses_https(url) {
        CredentialStep::QuerySecret
    } else {
        let mut public_key = home_root.to_owned();
        public_key.append("/");
        public_key.append(".ssh/id_rsa.pub");
        let mut private_key = home_root.to_owned();
        private_key.append("/");
        private_key.append(".ssh/id_rsa");
        CredentialStep::Resolved {
            credential: Credential::KeyPair { username: "git".to_owned(), public_key, private_key },
        }
    }
}

/// The second half, for an https remote: the token credentials that the
/// backend's answer gives. A backend that could not be reached is
/// `SecretBackendUnavailable`; an item that is missing or keeps its secret
/// is `CredentialsMissing`.
pub fn token_credentials(username: &str, lookup: SecretLookup) -> (r: Result<Credential, SyncError>)
    ensures
        match r {
            Ok(credential) => token_of(username@, lookup@) == Ok::<CredentialView, SyncErrorView>(
                credential@,
            ),
            Err(error) => token_of(username@, lookup@) == Err::<CredentialView, SyncErrorView>(error@),
        },
{
    match lookup {
        SecretLookup::Unavailable { message } => Err(
            SyncError::SecretBackendUnavailable { request: SecretOperation::Connect, message },
        ),
        SecretLookup::NotFound => Err(
            SyncError::CredentialsMissing { reason: MissingCredential::NotStored },
        ),
        SecretLookup::Unreadable => Err(
            SyncError::CredentialsMissing { reason: MissingCredential::NoSecret },
        ),
        SecretLookup::Secret { bytes } => Ok(
            Credential::Token { username: username.to_owned(), secret: bytes },
        ),
    }
}

/// The item under which `auth` keeps a token: labelled `flake`, marked with
/// `token_attribute()`, holding the token's bytes as plain text, and taking
/// the place of an item that is already there.
pub fn auth(token: &str) -> (item: SecretItem)
    ensures
        item.label@ == "flake"@,
        item.attribute_name@ == "github"@,
        item.attribute_value@ == "access_token"@,
        item.secret@ == token.spec_bytes(),
        item.replace,
        item.content_type@ == "text/plain"@,
{
    let attribute = token_attribute();
    SecretItem {
        label: "flake".to_owned(),
        attribute_name: attribute.0,
        attribute_value: attribute.1,
        secret: token.as_bytes_vec(),
        replace: true,
        content_type: "text/plain".to_owned(),
    }
}

/// An https remote is offered a token from the secret backend or nothing, and
/// never a key pair; any other remote is offered the key pair under the home
/// directory, whatever the secret backend would have answered.
pub proof fn credential_dispatch(
    username: Seq<char>,
    url: Seq<char>,
    home_root: Seq<char>,
    lookup: SecretLookupView,
    other: SecretLookupView,
)
    ensures
        is_https(url) ==> !(resolution(username, url, home_root, lookup) matches Ok(credential)
            && credential is KeyPair),
        is_https(url) ==> (resolution(username, url, home_root, lookup) is Ok <==> lookup is Secret),
        is_https(url) && lookup is Secret ==> resolution(username, url, home_root, lookup) == Ok::<
            CredentialView,
            SyncErrorView,
        >(CredentialView::Token { username, secret: lookup->bytes }),
        !is_https(url) ==> resolution(username, url, home_root, lookup) == Ok::<
            CredentialView,
            SyncErrorView,
        >(ssh_key_pair(home_root)),
        !is_https(url) ==> resolution(username, url, home_root, lookup) == resolution(
            username,
            url,
            home_root,
            other,
        ),
{
}

} // verus!
