//! The session-side data that the interface logic reads: identifiers, SFTP
//! directory entries, transfer outcomes and authentication prompts.

use vstd::prelude::*;
use crate::text::clone_opt_string;

verus! {

/// Identifies one SSH session.
#[derive(Clone, Copy, Debug, PartialEq, Eq, Hash, Structural)]
pub struct SessionId(pub u64);

/// Identifies one SFTP request of a session.
#[derive(Clone, Copy, Debug, PartialEq, Eq, Hash, Structural)]
pub struct SftpRequestId(pub u64);

/// The kind of a finished SFTP transfer.
#[derive(Clone, Copy, Debug, PartialEq, Eq, Structural)]
pub enum SftpOp {
    Download,
    Upload,
    List,
    Remove,
    Rename,
    Mkdir,
}

/// One entry of a remote directory listing.
#[derive(Clone, Debug, PartialEq, Eq)]
pub struct SftpEntry {
    pub name: String,
    pub is_dir: bool,
    pub size: u64,
    pub modified: Option<u32>,
    pub permissions: Option<u32>,
    pub user: Option<String>,
    pub group: Option<String>,
    pub uid: Option<u32>,
    pub gid: Option<u32>,
}

/// One prompt of a keyboard-interactive challenge.
#[derive(Clone, Debug, PartialEq, Eq)]
pub struct AuthPrompt {
    pub text: String,
    pub echo: bool,
}

/// A question the server asks before the session can authenticate.
#[derive(Clone, Debug, PartialEq, Eq)]
pub enum AuthChallenge {
    Password { user: String, host: String, port: u16 },
    KeyPassphrase { key_path: String },
    KeyboardInteractive { name: String, instructions: String, prompts: Vec<AuthPrompt> },
}

/// A copy of a directory entry.
pub fn clone_entry(e: &SftpEntry) -> (r: SftpEntry)
    ensures
        r == *e,
{
    SftpEntry {
        name: e.name.clone(),
        is_dir: e.is_dir,
        size: e.size,
        modified: e.modified,
        permissions: e.permissions,
        user: clone_opt_string(&e.user),
        group: clone_opt_string(&e.group),
        uid: e.uid,
        gid: e.gid,
    }
}

/// A copy of a directory listing.
pub fn clone_entries(v: &Vec<SftpEntry>) -> (r: Vec<SftpEntry>)
    ensures
        r@ == v@,
{
    let mut r: Vec<SftpEntry> = Vec::new();
    let mut i: usize = 0;
    while i < v.len()
        invariant
            i <= v@.len(),
            r@ == v@.take(i as int),
        decreases v@.len() - i,
    {
        r.push(clone_entry(&v[i]));
        assert(v@.take(i as int + 1) =~= v@.take(i as int).push(v@[i as int]));
        i = i + 1;
    }
    assert(v@.take(v@.len() as int) =~= v@);
    r
}

/// A copy of a list of prompts.
fn clone_prompts(prompts: &Vec<AuthPrompt>) -> (r: Vec<AuthPrompt>)
    ensures
        r@ == prompts@,
{
    let mut copied: Vec<AuthPrompt> = Vec::new();
    let mut i: usize = 0;
    while i < prompts.len()
        invariant
            i <= prompts@.len(),
            copied@ == prompts@.take(i as int),
        decreases prompts@.len() - i,
    {
        let p = AuthPrompt { text: prompts[i].text.clone(), echo: prompts[i].echo };
        copied.push(p);
        assert(prompts@.take(i as int + 1) =~= prompts@.take(i as int).push(prompts@[i as int]));
        i = i + 1;
    }
    assert(prompts@.take(prompts@.len() as int) =~= prompts@);
    copied
}

/// Whether two challenges ask the same question (prompt lists compared by content).
pub open spec fn same_challenge(a: AuthChallenge, b: AuthChallenge) -> bool {
    match (a, b) {
        (
            AuthChallenge::KeyboardInteractive { name: n1, instructions: i1, prompts: p1 },
            AuthChallenge::KeyboardInteractive { name: n2, instructions: i2, prompts: p2 },
        ) => n1 == n2 && i1 == i2 && p1@ == p2@,
        (AuthChallenge::KeyboardInteractive { .. }, _) => false,
        (_, AuthChallenge::KeyboardInteractive { .. }) => false,
        _ => a == b,
    }
}

/// A copy of an authentication challenge.
pub fn clone_challenge(c: &AuthChallenge) -> (r: AuthChallenge)
    ensures
        same_challenge(r, *c),
{
    match c {
        AuthChallenge::Password { user, host, port } => {
            let u = user.clone();
            let h = host.clone();
            AuthChallenge::Password { user: u, host: h, port: *port }
        },
        AuthChallenge::KeyPassphrase { key_path } => AuthChallenge::KeyPassphrase {
            key_path: key_path.clone(),
        },
        AuthChallenge::KeyboardInteractive { name, instructions, prompts } => {
            AuthChallenge::KeyboardInteractive {
                name: name.clone(),
                instructions: instructions.clone(),
                prompts: clone_prompts(prompts),
            }
        },
    }
}

} // verus!
