use codex_nano_manager::error::AppError;

#[test]
fn no_providers_message_uses_codex_nano_manager_command() {
    assert_eq!(
        AppError::NoProvidersConfigured.message(),
        "no providers configured; run `codex-nano-manager add` first"
    );
}

#[test]
fn error_messages_are_exact() {
    assert_eq!(AppError::provider_not_found("x").message(), "provider 'x' not found");
    assert_eq!(AppError::validation("bad".into()).message(), "bad");
    assert_eq!(
        AppError::HomeDirectoryUnavailable.message(),
        "could not resolve the home directory"
    );
    assert_eq!(AppError::Io("disk full".into()).message(), "disk full");
}
