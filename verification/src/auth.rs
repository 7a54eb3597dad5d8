//! Saved credentials and host keys: which vault entry an authentication
//! answer is saved under, how a saved password is looked up, and what is
//! decided about a server's host key.

use vstd::prelude::*;
use crate::session_data::{AuthChallenge, SessionId};
use crate::text::{decimal, push_decimal};

verus! {

/// A secret typed into an authentication dialog, waiting to be saved once
/// the login succeeds.
#[derive(Clone, PartialEq, Eq)]
pub struct PendingAuthSecret {
    pub session_id: SessionId,
    pub vault_id: String,
    pub password: String,
}

/// The vault id of a password for `user@host:port`.
pub open spec fn password_vault_key(user: Seq<char>, host: Seq<char>, port: u16) -> Seq<char> {
    user + "@"@ + host + ":"@ + decimal(port as nat)
}

/// The vault id of the passphrase of a private key file.
pub open spec fn key_vault_key(key_path: Seq<char>) -> Seq<char> {
    "key:"@ + key_path
}

/// The vault id an answer to a challenge is saved under; keyboard-interactive
/// answers are never saved.
pub open spec fn challenge_vault_key(challenge: AuthChallenge) -> Option<Seq<char>> {
    match challenge {
        AuthChallenge::Password { user, host, port } => Some(password_vault_key(user@, host@, port)),
        AuthChallenge::KeyPassphrase { key_path } => Some(key_vault_key(key_path@)),
        AuthChallenge::KeyboardInteractive { .. } => None,
    }
}

/// The secret to save from the answers to a challenge: the first answer,
/// unless it is empty, for password and passphrase challenges.
pub open spec fn challenge_secret(challenge: AuthChallenge, answers: Seq<String>) -> Option<Seq<char>> {
    match challenge {
        AuthChallenge::KeyboardInteractive { .. } => None,
        _ => if answers.len() > 0 && answers[0]@.len() > 0 {
            Some(answers[0]@)
        } else {
            None
        },
    }
}

/// The vault id of a password for `user@host:port`.
pub fn password_vault_id(user: &str, host: &str, port: u16) -> (r: String)
    ensures
        r@ == password_vault_key(user@, host@, port),
{
    let mut id = String::new();
    id.append(user);
    id.append("@");
    id.append(host);
    id.append(":");
    push_decimal(&mut id, port as u128);
    id
}

/// The vault id of the passphrase of the key at `key_path`.
pub fn key_passphrase_vault_id(key_path: &str) -> (r: String)
    ensures
        r@ == key_vault_key(key_path@),
{
    let mut id = String::new();
    id.append("key:");
    id.append(key_path);
    id
}

/// The vault id an answer to `challenge` is saved under, or `None` for a
/// keyboard-interactive challenge.
pub fn auth_challenge_vault_id(challenge: &AuthChallenge) -> (r: Option<String>)
    ensures
        match (r, challenge_vault_key(*challenge)) {
            (Some(id), Some(key)) => id@ == key,
            (None, None) => true,
            _ => false,
        },
{
    match challenge {
        AuthChallenge::Password { user, host, port } => Some(password_vault_id(user.as_str(), host.as_str(), *port)),
        AuthChallenge::KeyPassphrase { key_path } => Some(key_passphrase_vault_id(key_path.as_str())),
        AuthChallenge::KeyboardInteractive { .. } => None,
    }
}

/// The secret worth saving from the answers to `challenge`: the first
/// answer as typed (whitespace kept), unless it is empty; never for a
/// keyboard-interactive challenge.
pub fn auth_challenge_secret(challenge: &AuthChallenge, answers: &[String]) -> (r: Option<String>)
    ensures
        match (r, challenge_secret(*challenge, answers@)) {
            (Some(secret), Some(expected)) => secret@ == expected,
            (None, None) => true,
            _ => false,
        },
{
    match challenge {
        AuthChallenge::KeyboardInteractive { .. } => None,
        _ => {
            if answers.len() > 0 && answers[0].unicode_len() > 0 {
                Some(answers[0].clone())
            } else {
                None
            }
        },
    }
}

/// The secret to save for `session_id` once its login succeeds: present
/// exactly when the challenge has a vault id and the answers a secret.
pub fn pending_auth_secret(session_id: SessionId, challenge: &AuthChallenge, answers: &[String]) -> (r: Option<PendingAuthSecret>)
    ensures
        match (r, challenge_vault_key(*challenge), challenge_secret(*challenge, answers@)) {
            (Some(p), Some(key), Some(secret)) => p.session_id == session_id && p.vault_id@ == key && p.password@ == secret,
            (None, None, _) => true,
            (None, _, None) => true,
            _ => false,
        },
{
    let vault_id = match auth_challenge_vault_id(challenge) {
        Some(id) => id,
        None => return None,
    };
    let password = match auth_challenge_secret(challenge, answers) {
        Some(secret) => secret,
        None => return None,
    };
    Some(PendingAuthSecret { session_id, vault_id, password })
}

/// Whether a pending secret is saved at all: both its vault id and its
/// password must be non-empty.
pub fn secret_is_savable(vault_id: &str, password: &str) -> (r: bool)
    ensures
        r == (vault_id@.len() > 0 && password@.len() > 0),
{
    vault_id.unicode_len() > 0 && password.unicode_len() > 0
}

/// What reading one vault entry gave.
#[derive(Clone, Debug, PartialEq, Eq)]
pub enum SecretLookup {
    /// The entry holds this secret.
    Found(String),
    /// No such entry.
    Missing,
    /// The vault could not be read.
    Failed,
}

/// The next step of looking up a saved password.
#[derive(Clone, Debug, PartialEq, Eq)]
pub enum PasswordLookup {
    /// The lookup is over, with this password (if any).
    Done(Option<String>),
    /// Read the vault entry with this id next.
    Read(String),
}

/// After the entry scoped to `user@host:port` was read: a found password
/// is the answer, a failed read ends the lookup with none, and a missing one
/// falls back to the profile's own vault id.
pub fn password_lookup_after_scoped(scoped: SecretLookup, profile_vault_id: &str) -> (r: PasswordLookup)
    ensures
        match scoped {
            SecretLookup::Found(p) => r == PasswordLookup::Done(Some(p)),
            SecretLookup::Failed => r == PasswordLookup::Done(None),
            SecretLookup::Missing => r matches PasswordLookup::Read(id) && id@ == profile_vault_id@,
        },
{
    match scoped {
        SecretLookup::Found(p) => PasswordLookup::Done(Some(p)),
        SecretLookup::Failed => PasswordLookup::Done(None),
        SecretLookup::Missing => {
            let mut id = String::new();
            id.append(profile_vault_id);
            PasswordLookup::Read(id)
        },
    }
}

/// The secret a final vault read gives: found or nothing (a failed read
/// counts as nothing).
pub fn secret_from_lookup(lookup: SecretLookup) -> (r: Option<String>)
    ensures
        match lookup {
            SecretLookup::Found(s) => r == Some(s),
            _ => r is None,
        },
{
    match lookup {
        SecretLookup::Found(s) => Some(s),
        _ => None,
    }
}

/// What the known-hosts store says of a host key.
#[derive(Clone, Debug, PartialEq, Eq)]
pub enum HostKeyCheck {
    /// The key is the one on record.
    Trusted,
    /// The key was recorded now.
    NewlyTrusted,
    /// No key is on record for the host.
    Unknown { fingerprint: String },
    /// A different key is on record.
    Changed { expected: String, actual: String },
    /// The store could not be read.
    Failed,
}

/// The answer given to the SSH layer about a host key.
#[derive(Clone, Copy, Debug, PartialEq, Eq, Structural)]
pub enum HostKeyDecision {
    Accept,
    Reject,
}

/// What the host-key check does next.
#[derive(Clone, Debug, PartialEq, Eq)]
pub enum HostKeyStep {
    /// Answer the SSH layer.
    Decide(HostKeyDecision),
    /// Ask the known-hosts store about the key.
    CheckStore,
    /// Record this check as waiting for the user's confirmation, and reject.
    RecordPendingAndReject(HostKeyCheck),
}

/// The step after a host-key event: a one-time allowance accepts the key;
/// otherwise the store is asked, a trusted key is accepted, an unknown or
/// changed key is recorded for the user to confirm and rejected, and a
/// failed check is rejected.
pub open spec fn spec_host_key_step(temporarily_allowed: bool, check: Option<HostKeyCheck>) -> HostKeyStep {
    if temporarily_allowed {
        HostKeyStep::Decide(HostKeyDecision::Accept)
    } else {
        match check {
            None => HostKeyStep::CheckStore,
            Some(HostKeyCheck::Trusted) => HostKeyStep::Decide(HostKeyDecision::Accept),
            Some(HostKeyCheck::NewlyTrusted) => HostKeyStep::Decide(HostKeyDecision::Accept),
            Some(HostKeyCheck::Failed) => HostKeyStep::Decide(HostKeyDecision::Reject),
            Some(pending) => HostKeyStep::RecordPendingAndReject(pending),
        }
    }
}

/// Decides about a host key.
///
/// `temporarily_allowed` is whether a one-time allowance was consumed for
/// this key; `check` is the store's answer, `None` until it was asked.
pub fn host_key_step(temporarily_allowed: bool, check: Option<HostKeyCheck>) -> (r: HostKeyStep)
    ensures
        r == spec_host_key_step(temporarily_allowed, check),
{
    if temporarily_allowed {
        return HostKeyStep::Decide(HostKeyDecision::Accept);
    }
    match check {
        None => HostKeyStep::CheckStore,
        Some(HostKeyCheck::Trusted) => HostKeyStep::Decide(HostKeyDecision::Accept),
        Some(HostKeyCheck::NewlyTrusted) => HostKeyStep::Decide(HostKeyDecision::Accept),
        Some(HostKeyCheck::Failed) => HostKeyStep::Decide(HostKeyDecision::Reject),
        Some(pending) => HostKeyStep::RecordPendingAndReject(pending),
    }
}

/// A host key is accepted only on a one-time allowance or when the store
/// trusts it; a key the store does not know, or knows differently, is held
/// for the user's confirmation, never accepted.
pub proof fn law_host_keys_are_accepted_only_when_trusted(temporarily_allowed: bool, check: Option<HostKeyCheck>)
    ensures
        spec_host_key_step(temporarily_allowed, check) == HostKeyStep::Decide(HostKeyDecision::Accept)
            ==> temporarily_allowed || check == Some(HostKeyCheck::Trusted) || check == Some(HostKeyCheck::NewlyTrusted),
        !temporarily_allowed && (check matches Some(HostKeyCheck::Unknown { .. }) || check matches Some(
            HostKeyCheck::Changed { .. },
        )) ==> spec_host_key_step(temporarily_allowed, check) == HostKeyStep::RecordPendingAndReject(check.unwrap()),
{
}

/// A password saved after a password prompt is found again by the next
/// login to the same account: it is saved under the vault id that the
/// saved-password lookup reads first.
pub proof fn law_saved_password_is_read_back(user: String, host: String, port: u16)
    ensures
        challenge_vault_key(AuthChallenge::Password { user, host, port }) == Some(password_vault_key(user@, host@, port)),
{
}

} // verus!
