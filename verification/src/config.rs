//! Saved connection settings: authentication methods, proxies and profiles.

use vstd::prelude::*;
use crate::text::clone_opt_string;

verus! {

/// One way of authenticating to the server, tried in list order.
#[derive(Clone, Debug, PartialEq, Eq)]
pub enum AuthMethod {
    Password,
    PublicKey { key_path: String },
    KeyboardInteractive,
    Agent,
}

/// How the TCP connection to the server is made.
#[derive(Clone, Debug, PartialEq, Eq)]
pub enum ProxyConfig {
    Direct,
    System,
    Socks5 { host: String, port: u16, username: Option<String> },
    Http { host: String, port: u16, username: Option<String> },
}

/// The target and options of one connection.
#[derive(Clone, Debug, PartialEq, Eq)]
pub struct ConnectParams {
    pub host: String,
    pub port: u16,
    pub user: String,
    pub auth: Vec<AuthMethod>,
    pub vault_id: Option<String>,
    pub proxy_jump: Option<String>,
    pub proxy: ProxyConfig,
    pub forward_agent: bool,
}

/// A saved connection with its display name and optional group.
#[derive(Clone, Debug, PartialEq, Eq)]
pub struct SessionProfile {
    pub name: String,
    pub group: Option<String>,
    pub params: ConnectParams,
}

/// A copy of an authentication method.
pub fn clone_auth_method(m: &AuthMethod) -> (r: AuthMethod)
    ensures
        r == *m,
{
    match m {
        AuthMethod::Password => AuthMethod::Password,
        AuthMethod::PublicKey { key_path } => AuthMethod::PublicKey { key_path: key_path.clone() },
        AuthMethod::KeyboardInteractive => AuthMethod::KeyboardInteractive,
        AuthMethod::Agent => AuthMethod::Agent,
    }
}

/// A copy of a list of authentication methods.
pub fn clone_auth_methods(v: &Vec<AuthMethod>) -> (r: Vec<AuthMethod>)
    ensures
        r@ == v@,
{
    let mut r: Vec<AuthMethod> = Vec::new();
    let mut i: usize = 0;
    while i < v.len()
        invariant
            i <= v@.len(),
            r@ == v@.take(i as int),
        decreases v@.len() - i,
    {
        r.push(clone_auth_method(&v[i]));
        assert(v@.take(i as int + 1) =~= v@.take(i as int).push(v@[i as int]));
        i = i + 1;
    }
    assert(v@.take(v@.len() as int) =~= v@);
    r
}

/// A copy of a proxy setting.
pub fn clone_proxy(p: &ProxyConfig) -> (r: ProxyConfig)
    ensures
        r == *p,
{
    match p {
        ProxyConfig::Direct => ProxyConfig::Direct,
        ProxyConfig::System => ProxyConfig::System,
        ProxyConfig::Socks5 { host, port, username } => ProxyConfig::Socks5 {
            host: host.clone(),
            port: *port,
            username: clone_opt_string(username),
        },
        ProxyConfig::Http { host, port, username } => ProxyConfig::Http {
            host: host.clone(),
            port: *port,
            username: clone_opt_string(username),
        },
    }
}

/// A copy of connection settings.
pub fn clone_params(p: &ConnectParams) -> (r: ConnectParams)
    ensures
        r.host == p.host,
        r.port == p.port,
        r.user == p.user,
        r.auth@ == p.auth@,
        r.vault_id == p.vault_id,
        r.proxy_jump == p.proxy_jump,
        r.proxy == p.proxy,
        r.forward_agent == p.forward_agent,
{
    ConnectParams {
        host: p.host.clone(),
        port: p.port,
        user: p.user.clone(),
        auth: clone_auth_methods(&p.auth),
        vault_id: clone_opt_string(&p.vault_id),
        proxy_jump: clone_opt_string(&p.proxy_jump),
        proxy: clone_proxy(&p.proxy),
        forward_agent: p.forward_agent,
    }
}

/// Whether two connection settings are the same, method list included.
pub open spec fn same_params(a: ConnectParams, b: ConnectParams) -> bool {
    &&& a.host == b.host
    &&& a.port == b.port
    &&& a.user == b.user
    &&& a.auth@ == b.auth@
    &&& a.vault_id == b.vault_id
    &&& a.proxy_jump == b.proxy_jump
    &&& a.proxy == b.proxy
    &&& a.forward_agent == b.forward_agent
}

/// Whether two profiles are the same, method lists included.
pub open spec fn same_profile(a: SessionProfile, b: SessionProfile) -> bool {
    a.name == b.name && a.group == b.group && same_params(a.params, b.params)
}

/// A copy of a saved connection.
pub fn clone_profile(p: &SessionProfile) -> (r: SessionProfile)
    ensures
        same_profile(r, *p),
{
    SessionProfile { name: p.name.clone(), group: clone_opt_string(&p.group), params: clone_params(&p.params) }
}

} // verus!
