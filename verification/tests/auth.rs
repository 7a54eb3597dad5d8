use kt_ui::auth::{
    auth_challenge_secret, auth_challenge_vault_id, host_key_step, key_passphrase_vault_id, password_lookup_after_scoped,
    password_vault_id, pending_auth_secret, secret_from_lookup, secret_is_savable, HostKeyCheck, HostKeyDecision,
    HostKeyStep, PasswordLookup, SecretLookup,
};
use kt_ui::session_data::{AuthChallenge, AuthPrompt, SessionId};

#[test]
fn password_challenge_creates_pending_secret_for_session() {
    let challenge = AuthChallenge::Password { user: "root".to_string(), host: "example.com".to_string(), port: 2222 };
    let pending = pending_auth_secret(SessionId(7), &challenge, &[" secret ".to_string()]).expect("pending secret");
    assert_eq!(pending.session_id, SessionId(7));
    assert_eq!(pending.vault_id, "root@example.com:2222");
    assert_eq!(pending.password, " secret ");
}

#[test]
fn whitespace_only_password_is_preserved() {
    let challenge = AuthChallenge::Password { user: "root".to_string(), host: "example.com".to_string(), port: 22 };
    let pending = pending_auth_secret(SessionId(1), &challenge, &["   ".to_string()]).expect("pending secret");
    assert_eq!(pending.password, "   ");
}

#[test]
fn keyboard_interactive_challenge_is_not_saved_as_password() {
    let challenge = AuthChallenge::KeyboardInteractive {
        name: "otp".to_string(),
        instructions: String::new(),
        prompts: vec![AuthPrompt { text: "code".to_string(), echo: false }],
    };
    assert!(pending_auth_secret(SessionId(1), &challenge, &["123456".to_string()]).is_none());
}

#[test]
fn key_passphrases_are_saved_under_the_key_path() {
    let challenge = AuthChallenge::KeyPassphrase { key_path: "/home/me/.ssh/id_ed25519".to_string() };
    assert_eq!(auth_challenge_vault_id(&challenge).as_deref(), Some("key:/home/me/.ssh/id_ed25519"));
    assert_eq!(key_passphrase_vault_id("k"), "key:k");
    let pending = pending_auth_secret(SessionId(3), &challenge, &["pass".to_string(), "ignored".to_string()]).unwrap();
    assert_eq!(pending.vault_id, "key:/home/me/.ssh/id_ed25519");
    assert_eq!(pending.password, "pass");
}

#[test]
fn empty_or_missing_answers_are_not_saved() {
    let challenge = AuthChallenge::Password { user: "u".to_string(), host: "h".to_string(), port: 1 };
    assert!(auth_challenge_secret(&challenge, &[]).is_none());
    assert!(auth_challenge_secret(&challenge, &[String::new(), "x".to_string()]).is_none());
    assert!(pending_auth_secret(SessionId(1), &challenge, &[]).is_none());
    assert_eq!(password_vault_id("u", "h", 65535), "u@h:65535");
}

#[test]
fn only_complete_secrets_are_savable() {
    assert!(secret_is_savable("root@h:22", "pw"));
    assert!(!secret_is_savable("", "pw"));
    assert!(!secret_is_savable("root@h:22", ""));
}

#[test]
fn saved_password_lookup_prefers_the_host_scoped_entry() {
    assert_eq!(
        password_lookup_after_scoped(SecretLookup::Found("saved-pw".to_string()), "custom"),
        PasswordLookup::Done(Some("saved-pw".to_string()))
    );
    assert_eq!(password_lookup_after_scoped(SecretLookup::Failed, "custom"), PasswordLookup::Done(None));
    assert_eq!(
        password_lookup_after_scoped(SecretLookup::Missing, "custom-vault-id"),
        PasswordLookup::Read("custom-vault-id".to_string())
    );
    assert_eq!(secret_from_lookup(SecretLookup::Found("saved-pw".to_string())).as_deref(), Some("saved-pw"));
    assert!(secret_from_lookup(SecretLookup::Missing).is_none());
    assert!(secret_from_lookup(SecretLookup::Failed).is_none());
}

#[test]
fn host_keys_are_accepted_only_when_trusted_or_temporarily_allowed() {
    assert_eq!(host_key_step(true, None), HostKeyStep::Decide(HostKeyDecision::Accept));
    assert_eq!(host_key_step(false, None), HostKeyStep::CheckStore);
    assert_eq!(host_key_step(false, Some(HostKeyCheck::Trusted)), HostKeyStep::Decide(HostKeyDecision::Accept));
    assert_eq!(host_key_step(false, Some(HostKeyCheck::NewlyTrusted)), HostKeyStep::Decide(HostKeyDecision::Accept));
    assert_eq!(host_key_step(false, Some(HostKeyCheck::Failed)), HostKeyStep::Decide(HostKeyDecision::Reject));
    let unknown = HostKeyCheck::Unknown { fingerprint: "SHA256:abc".to_string() };
    assert_eq!(host_key_step(false, Some(unknown.clone())), HostKeyStep::RecordPendingAndReject(unknown));
    let changed = HostKeyCheck::Changed { expected: "SHA256:a".to_string(), actual: "SHA256:b".to_string() };
    assert_eq!(host_key_step(false, Some(changed.clone())), HostKeyStep::RecordPendingAndReject(changed));
}

#[test]
fn a_saved_password_is_stored_where_the_next_login_looks() {
    let challenge = AuthChallenge::Password { user: "root".to_string(), host: "example.com".to_string(), port: 2222 };
    let pending = pending_auth_secret(SessionId(1), &challenge, &["pw".to_string()]).unwrap();
    assert_eq!(pending.vault_id, password_vault_id("root", "example.com", 2222));
}

fn vault_read(vault: &[(&str, &str)], id: &str) -> SecretLookup {
    match vault.iter().find(|(key, _)| *key == id) {
        Some((_, secret)) => SecretLookup::Found(secret.to_string()),
        None => SecretLookup::Missing,
    }
}

fn saved_password(vault: &[(&str, &str)], user: &str, host: &str, port: u16, profile_vault_id: &str) -> Option<String> {
    let scoped = vault_read(vault, &password_vault_id(user, host, port));
    match password_lookup_after_scoped(scoped, profile_vault_id) {
        PasswordLookup::Done(secret) => secret,
        PasswordLookup::Read(id) => secret_from_lookup(vault_read(vault, &id)),
    }
}

#[test]
fn store_auth_provider_reads_saved_password_from_vault() {
    let vault = [("root@example.com:2222", "saved-pw")];
    assert_eq!(saved_password(&vault, "root", "example.com", 2222, ""), Some("saved-pw".to_string()));
}

#[test]
fn store_auth_provider_falls_back_to_profile_vault_id() {
    let vault = [("custom-vault-id", "saved-pw")];
    assert_eq!(saved_password(&vault, "root", "example.com", 22, "custom-vault-id"), Some("saved-pw".to_string()));
}
