use flake::error::{
    ConfigKey, GitOperation, MissingCredential, SecretOperation, SyncError, EXIT_FAILURE, EXIT_OK,
};

#[test]
fn every_error_exits_with_one() {
    let errors = vec![
        SyncError::ConfigMissing { key: ConfigKey::Username },
        SyncError::StorageConflict { path: "/home/ada/.snowflakes".to_string() },
        SyncError::SecretBackendUnavailable { request: SecretOperation::Connect, message: "no bus".to_string() },
        SyncError::CredentialsMissing { reason: MissingCredential::NotStored },
        SyncError::GitOperationFailed { operation: GitOperation::Push, message: "rejected".to_string() },
    ];
    for error in errors {
        assert_eq!(error.exit_code(), 1);
    }
    assert_eq!(EXIT_FAILURE, 1);
    assert_eq!(EXIT_OK, 0);
}

#[test]
fn config_missing_says_how_to_set_the_value() {
    assert_eq!(
        SyncError::ConfigMissing { key: ConfigKey::Repository }.describe(),
        "repository url not provided, use `git config --global --add github.dotfiles URL` to set a default repository"
    );
    assert_eq!(
        SyncError::ConfigMissing { key: ConfigKey::Username }.describe(),
        "GitHub username not provided, use `git config --global --add github.username USERNAME` to set your username"
    );
}

#[test]
fn storage_conflict_names_the_path() {
    assert_eq!(
        SyncError::StorageConflict { path: "/home/ada/.snowflakes".to_string() }.describe(),
        "/home/ada/.snowflakes is a file!"
    );
}

#[test]
fn secret_backend_errors_carry_the_backend_message() {
    assert_eq!(
        SyncError::SecretBackendUnavailable { request: SecretOperation::Connect, message: "no bus".to_string() }
            .describe(),
        "Unable to connect with the secret service: no bus"
    );
    assert_eq!(
        SyncError::SecretBackendUnavailable { request: SecretOperation::Store, message: "locked".to_string() }
            .describe(),
        "Something went wrong saving the access token :/ locked"
    );
}

#[test]
fn credentials_missing_points_to_auth() {
    assert_eq!(
        SyncError::CredentialsMissing { reason: MissingCredential::NotStored }.describe(),
        "GitHub credentials are not in the store, use `flake auth` to set them up"
    );
    assert_eq!(
        SyncError::CredentialsMissing { reason: MissingCredential::NoSecret }.describe(),
        "Missing access token, use `flake auth` to set it up"
    );
}

#[test]
fn git_failures_are_told_by_operation() {
    let told = |operation: GitOperation| {
        SyncError::GitOperationFailed { operation, message: "boom".to_string() }.describe()
    };
    assert_eq!(told(GitOperation::Open), "failed to open repository: boom");
    assert_eq!(told(GitOperation::Reset), "failed the initial sync: boom");
    assert_eq!(told(GitOperation::Status), "failed the sync repository: boom");
    assert_eq!(told(GitOperation::Commit), "failed the sync repository: boom");
    assert_eq!(told(GitOperation::Push), "failed the sync repository: boom");
}

#[test]
fn an_empty_message_leaves_the_prefix() {
    assert_eq!(
        SyncError::GitOperationFailed { operation: GitOperation::Open, message: String::new() }.describe(),
        "failed to open repository: "
    );
}
