//! What can go wrong, and the one line that is shown for it.

use vstd::prelude::*;
use vstd::string::*;

verus! {

/// The version-control operations that the engine asks for.
#[derive(Clone, Copy, Debug, PartialEq, Eq)]
pub enum GitOperation {
    Open,
    Reset,
    Status,
    Commit,
    Push,
}

/// The two requests that are made of the secret backend.
#[derive(Clone, Copy, Debug, PartialEq, Eq)]
pub enum SecretOperation {
    Connect,
    Store,
}

/// The two values that are read from the user's configuration.
#[derive(Clone, Copy, Debug, PartialEq, Eq)]
pub enum ConfigKey {
    /// The remote repository, used where the command line names none.
    Repository,
    /// The user's name with the remote; there is no default for it.
    Username,
}

/// Why no token could be had from a backend that answered.
#[derive(Clone, Copy, Debug, PartialEq, Eq)]
pub enum MissingCredential {
    /// No item carries the token's attribute.
    NotStored,
    /// The item is there, its secret cannot be read.
    NoSecret,
}

/// A fatal error. Each of them ends the process with `exit_code()`.
#[derive(Clone, Debug, PartialEq, Eq)]
pub enum SyncError {
    ConfigMissing { key: ConfigKey },
    StorageConflict { path: String },
    SecretBackendUnavailable { request: SecretOperation, message: String },
    CredentialsMissing { reason: MissingCredential },
    GitOperationFailed { operation: GitOperation, message: String },
}

/// The mathematical value of a `SyncError`.
pub enum SyncErrorView {
    ConfigMissing { key: ConfigKey },
    StorageConflict { path: Seq<char> },
    SecretBackendUnavailable { request: SecretOperation, message: Seq<char> },
    CredentialsMissing { reason: MissingCredential },
    GitOperationFailed { operation: GitOperation, message: Seq<char> },
}

impl View for SyncError {
    type V = SyncErrorView;

    open spec fn view(&self) -> SyncErrorView {
        match self {
            SyncError::ConfigMissing { key } => SyncErrorView::ConfigMissing { key: *key },
            SyncError::StorageConflict { path } => SyncErrorView::StorageConflict { path: path@ },
            SyncError::SecretBackendUnavailable { request, message } =>
                SyncErrorView::SecretBackendUnavailable { request: *request, message: message@ },
            SyncError::CredentialsMissing { reason } => SyncErrorView::CredentialsMissing { reason: *reason },
            SyncError::GitOperationFailed { operation, message } =>
                SyncErrorView::GitOperationFailed { operation: *operation, message: message@ },
        }
    }
}

/// Exit status of a run that ended without an error.
pub const EXIT_OK: i32 = 0;

/// Exit status of a run that ended in a `SyncError`.
pub const EXIT_FAILURE: i32 = 1;

/// The name under which a value is looked up in the configuration.
pub open spec fn key_name(key: ConfigKey) -> Seq<char> {
    match key {
        ConfigKey::Repository => "github.dotfiles"@,
        ConfigKey::Username => "github.username"@,
    }
}

/// The words that stand before the message of a failed version-control operation.
pub open spec fn git_failure_prefix(operation: GitOperation) -> Seq<char> {
    match operation {
        GitOperation::Open => "failed to open repository: "@,
        GitOperation::Reset => "failed the initial sync: "@,
        GitOperation::Status => "failed the sync repository: "@,
        GitOperation::Commit => "failed the sync repository: "@,
        GitOperation::Push => "failed the sync repository: "@,
    }
}

/// The line that is shown for an error.
pub open spec fn description(error: SyncErrorView) -> Seq<char> {
    match error {
        SyncErrorView::ConfigMissing { key } => match key {
            ConfigKey::Repository =>
                "repository url not provided, use `git config --global --add github.dotfiles URL` to set a default repository"@,
            ConfigKey::Username =>
                "GitHub username not provided, use `git config --global --add github.username USERNAME` to set your username"@,
        },
        SyncErrorView::StorageConflict { path } => path + " is a file!"@,
        SyncErrorView::SecretBackendUnavailable { request, message } => match request {
            SecretOperation::Connect => "Unable to connect with the secret service: "@ + message,
            SecretOperation::Store => "Something went wrong saving the access token :/ "@ + message,
        },
        SyncErrorView::CredentialsMissing { reason } => match reason {
            MissingCredential::NotStored =>
                "GitHub credentials are not in the store, use `flake auth` to set them up"@,
            MissingCredential::NoSecret => "Missing access token, use `flake auth` to set it up"@,
        },
        SyncErrorView::GitOperationFailed { operation, message } =>
            git_failure_prefix(operation) + message,
    }
}

impl ConfigKey {
    /// The name under which this value is looked up in the configuration.
    pub fn name(&self) -> (name: String)
        ensures
            name@ == key_name(*self),
    {
        match self {
            ConfigKey::Repository => "github.dotfiles".to_owned(),
            ConfigKey::Username => "github.username".to_owned(),
        }
    }
}

impl SyncError {
    /// The status with which the process ends on this error: never zero.
    pub fn exit_code(&self) -> (code: i32)
        ensures
            code == EXIT_FAILURE,
            code != EXIT_OK,
    {
        EXIT_FAILURE
    }

    /// The line that is shown for this error.
    pub fn describe(&self) -> (line: String)
        ensures
            line@ == description(self@),
    {
        match self {
            SyncError::ConfigMissing { key } => match key {
                ConfigKey::Repository =>
                    "repository url not provided, use `git config --global --add github.dotfiles URL` to set a default repository".to_owned(),
                ConfigKey::Username =>
                    "GitHub username not provided, use `git config --global --add github.username USERNAME` to set your username".to_owned(),
            },
            SyncError::StorageConflict { path } => {
                let mut line = path.clone();
                line.append(" is a file!");
                line
            },
            SyncError::SecretBackendUnavailable { request, message } => {
                let mut line = match request {
                    SecretOperation::Connect => "Unable to connect with the secret service: ".to_owned(),
                    SecretOperation::Store => "Something went wrong saving the access token :/ ".to_owned(),
                };
                line.append(message.as_str());
                line
            },
            SyncError::CredentialsMissing { reason } => match reason {
                MissingCredential::NotStored =>
                    "GitHub credentials are not in the store, use `flake auth` to set them up".to_owned(),
                MissingCredential::NoSecret => "Missing access token, use `flake auth` to set it up".to_owned(),
            },
            SyncError::GitOperationFailed { operation, message } => {
                let mut line = match operation {
                    GitOperation::Open => "failed to open repository: ".to_owned(),
                    GitOperation::Reset => "failed the initial sync: ".to_owned(),
                    GitOperation::Status => "failed the sync repository: ".to_owned(),
                    GitOperation::Commit => "failed the sync repository: ".to_owned(),
                    GitOperation::Push => "failed the sync repository: ".to_owned(),
                };
                line.append(message.as_str());
                line
            },
        }
    }
}

} // verus!
