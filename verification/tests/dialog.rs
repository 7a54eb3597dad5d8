use kt_ui::config::{AuthMethod, ConnectParams, ProxyConfig, SessionProfile};
use kt_ui::dialog::{
    auth_methods_from_inputs, first_public_key_path, jump_spec, parse_u16, proxy_fields, proxy_from_inputs,
    proxy_kind_label, proxy_mode, saved_connection_refs,
};

/// A connection to `host` as `user` on the default SSH port with default options.
fn params(host: &str, user: &str) -> ConnectParams {
    ConnectParams {
        host: host.to_string(),
        port: 22,
        user: user.to_string(),
        auth: vec![AuthMethod::Password],
        vault_id: None,
        proxy_jump: None,
        proxy: ProxyConfig::Direct,
        forward_agent: false,
    }
}

#[test]
fn auth_methods_include_public_key_before_fallbacks() {
    let auth = auth_methods_from_inputs(" ~/.ssh/id_ed25519 ", true);
    assert_eq!(
        auth,
        vec![
            AuthMethod::PublicKey { key_path: "~/.ssh/id_ed25519".to_string() },
            AuthMethod::Agent,
            AuthMethod::Password,
        ]
    );
}

#[test]
fn auth_methods_keep_password_fallback_without_key_or_agent() {
    assert_eq!(auth_methods_from_inputs("   ", false), vec![AuthMethod::Password]);
}

#[test]
fn first_public_key_path_returns_existing_key_for_editing() {
    let auth = vec![
        AuthMethod::Agent,
        AuthMethod::PublicKey { key_path: "/home/me/.ssh/id_rsa".to_string() },
        AuthMethod::Password,
    ];
    assert_eq!(first_public_key_path(&auth), "/home/me/.ssh/id_rsa");
}

#[test]
fn proxy_from_inputs_builds_expected_variants() {
    assert_eq!(proxy_from_inputs("direct", "", "", ""), ProxyConfig::Direct);
    assert_eq!(proxy_from_inputs("system", "", "", ""), ProxyConfig::System);
    assert_eq!(
        proxy_from_inputs("socks5", "127.0.0.1", "1080", "me"),
        ProxyConfig::Socks5 { host: "127.0.0.1".to_string(), port: 1080, username: Some("me".to_string()) }
    );
    assert_eq!(
        proxy_from_inputs("http", "proxy.local", "8080", ""),
        ProxyConfig::Http { host: "proxy.local".to_string(), port: 8080, username: None }
    );
    assert_eq!(proxy_from_inputs("socks5", "  ", "1080", ""), ProxyConfig::Direct);
}

#[test]
fn proxy_kind_label_and_fields_roundtrip() {
    let proxy = ProxyConfig::Socks5 { host: "h".to_string(), port: 9050, username: Some("u".to_string()) };
    assert_eq!(proxy_kind_label(&proxy), "socks5");
    assert_eq!(proxy_fields(&proxy), ("h".to_string(), "9050".to_string(), "u".to_string()));
    assert_eq!(proxy_kind_label(&ProxyConfig::System), "system");
}

#[test]
fn proxy_mode_inferred_from_params() {
    let mut params = params("h", "u");
    assert_eq!(proxy_mode(&params), "direct");
    params.proxy_jump = Some("bastion".into());
    assert_eq!(proxy_mode(&params), "jump");
    params.proxy = ProxyConfig::Socks5 { host: "p".into(), port: 1080, username: None };
    assert_eq!(proxy_mode(&params), "socks5");
    params.proxy = ProxyConfig::System;
    assert_eq!(proxy_mode(&params), "system");
    params.proxy = ProxyConfig::Direct;
    params.proxy_jump = None;
    assert_eq!(proxy_mode(&params), "direct");
}

#[test]
fn saved_connection_refs_exclude_self_and_format_jump_spec() {
    let profiles = vec![
        SessionProfile { name: "web".into(), group: None, params: params("10.0.0.5", "deploy") },
        SessionProfile {
            name: "db".into(),
            group: None,
            params: ConnectParams {
                host: "db.local".into(),
                port: 2222,
                user: "admin".into(),
                auth: vec![AuthMethod::Password],
                vault_id: None,
                proxy_jump: None,
                proxy: ProxyConfig::Direct,
                forward_agent: false,
            },
        },
    ];
    let refs = saved_connection_refs(&profiles, "web");
    assert_eq!(refs.len(), 1);
    assert_eq!(refs[0].name, "db");
    assert_eq!(refs[0].jump_spec, "admin@db.local:2222");
    let refs_default_port = saved_connection_refs(&profiles, "missing");
    assert_eq!(refs_default_port.len(), 2);
    assert!(refs_default_port.iter().any(|r| r.name == "web" && r.jump_spec == "deploy@10.0.0.5"));
}

#[test]
fn port_fields_parse_like_u16_from_str() {
    for text in ["0", "22", "+22", "0080", "65535", "", "+", "-1", "65536", "99999999999", "1 2", "٣", "12a"] {
        assert_eq!(parse_u16(text), text.parse::<u16>().ok(), "{text:?}");
    }
}

#[test]
fn unparsable_proxy_ports_fall_back_to_1080() {
    assert_eq!(
        proxy_from_inputs("http", " proxy ", " 70000 ", "  "),
        ProxyConfig::Http { host: "proxy".to_string(), port: 1080, username: None }
    );
    assert_eq!(
        proxy_from_inputs("socks5", "p", " +8080 ", " bob "),
        ProxyConfig::Socks5 { host: "p".to_string(), port: 8080, username: Some("bob".to_string()) }
    );
    assert_eq!(proxy_from_inputs("ftp", "p", "1", ""), ProxyConfig::Direct);
}

#[test]
fn connections_without_a_key_have_no_key_path_to_edit() {
    assert_eq!(first_public_key_path(&[AuthMethod::Agent, AuthMethod::Password]), "");
    assert_eq!(first_public_key_path(&[]), "");
    assert_eq!(jump_spec(&params("h", "u")), "u@h");
    assert_eq!(proxy_fields(&ProxyConfig::Direct), (String::new(), String::new(), String::new()));
}
