//! The connection dialog's conversions between saved connection settings
//! and the text fields and toggles of the form.

use vstd::prelude::*;
use crate::config::{AuthMethod, ConnectParams, ProxyConfig, SessionProfile};
use crate::text::{chars_of, char_is_whitespace, decimal, digit_char, lemma_decimal_nonempty, push_decimal, str_eq, trim_end_ws, trim_start_ws, trim_ws, trimmed};

verus! {

/// A saved connection offered as a jump host: its display name and its
/// target `user@host[:port]`.
#[derive(Clone, Debug, PartialEq)]
pub struct SavedConnectionRef {
    pub name: String,
    pub jump_spec: String,
}

/// The jump target of a connection: `user@host`, with `:port` unless the
/// port is 22.
pub open spec fn jump_spec_of(p: ConnectParams) -> Seq<char> {
    if p.port == 22 {
        p.user@ + "@"@ + p.host@
    } else {
        p.user@ + "@"@ + p.host@ + ":"@ + decimal(p.port as nat)
    }
}

/// Name and jump target of every profile not named `exclude`, in order.
pub open spec fn spec_saved_refs(profiles: Seq<SessionProfile>, exclude: Seq<char>) -> Seq<(Seq<char>, Seq<char>)>
    decreases profiles.len(),
{
    if profiles.len() == 0 {
        Seq::empty()
    } else {
        let rest = spec_saved_refs(profiles.drop_last(), exclude);
        let p = profiles.last();
        if p.name@ == exclude {
            rest
        } else {
            rest.push((p.name@, jump_spec_of(p.params)))
        }
    }
}

/// The name and jump target of a reference.
pub open spec fn ref_view(r: SavedConnectionRef) -> (Seq<char>, Seq<char>) {
    (r.name@, r.jump_spec@)
}

/// The jump target of a connection.
pub fn jump_spec(p: &ConnectParams) -> (r: String)
    ensures
        r@ == jump_spec_of(*p),
{
    let mut spec = String::new();
    spec.append(p.user.as_str());
    spec.append("@");
    spec.append(p.host.as_str());
    if p.port != 22 {
        spec.append(":");
        push_decimal(&mut spec, p.port as u128);
    }
    spec
}

/// The saved connections offered as jump hosts, leaving out the one being
/// edited (`exclude_name`) so that a connection never jumps through itself.
pub fn saved_connection_refs(profiles: &[SessionProfile], exclude_name: &str) -> (r: Vec<SavedConnectionRef>)
    ensures
        r@.map_values(|c: SavedConnectionRef| ref_view(c)) == spec_saved_refs(profiles@, exclude_name@),
{
    let mut refs: Vec<SavedConnectionRef> = Vec::new();
    let mut i: usize = 0;
    while i < profiles.len()
        invariant
            i <= profiles@.len(),
            refs@.map_values(|c: SavedConnectionRef| ref_view(c)) == spec_saved_refs(profiles@.take(i as int), exclude_name@),
        decreases profiles@.len() - i,
    {
        let profile = &profiles[i];
        assert(profiles@.take(i as int + 1).drop_last() =~= profiles@.take(i as int));
        assert(profiles@.take(i as int + 1).last() == profiles@[i as int]);
        if !str_eq(profile.name.as_str(), exclude_name) {
            let item = SavedConnectionRef { name: profile.name.clone(), jump_spec: jump_spec(&profile.params) };
            let ghost before = refs@;
            refs.push(item);
            assert(refs@.map_values(|c: SavedConnectionRef| ref_view(c)) =~= before.map_values(
                |c: SavedConnectionRef| ref_view(c),
            ).push(ref_view(item)));
        }
        i = i + 1;
    }
    assert(profiles@.take(profiles@.len() as int) =~= profiles@);
    refs
}

/// Whether `r` is the list of authentication methods the form describes:
/// the key file (trimmed) when one is given, then the agent when enabled,
/// then always a password.
pub open spec fn auth_methods_match(r: Seq<AuthMethod>, key_path: Seq<char>, use_agent: bool) -> bool {
    let key = trim_ws(key_path);
    let first_fallback: int = if key.len() > 0 { 1 } else { 0 };
    &&& r.len() == first_fallback + (if use_agent { 1int } else { 0 }) + 1
    &&& key.len() > 0 ==> (r[0] matches AuthMethod::PublicKey { key_path: k } && k@ == key)
    &&& use_agent ==> r[first_fallback] == AuthMethod::Agent
    &&& r.last() == AuthMethod::Password
}

/// The authentication methods the form describes.
pub fn auth_methods_from_inputs(key_path: &str, use_agent: bool) -> (r: Vec<AuthMethod>)
    ensures
        auth_methods_match(r@, key_path@, use_agent),
{
    let mut auth: Vec<AuthMethod> = Vec::new();
    let key = trimmed(key_path);
    if key.unicode_len() > 0 {
        auth.push(AuthMethod::PublicKey { key_path: key });
    }
    if use_agent {
        auth.push(AuthMethod::Agent);
    }
    auth.push(AuthMethod::Password);
    auth
}

/// The key file of the first public-key method, or nothing.
pub open spec fn first_key_path(auth: Seq<AuthMethod>) -> Seq<char>
    decreases auth.len(),
{
    if auth.len() == 0 {
        Seq::empty()
    } else {
        match auth[0] {
            AuthMethod::PublicKey { key_path } => key_path@,
            _ => first_key_path(auth.drop_first()),
        }
    }
}

/// The key file to show when editing a connection: that of its first
/// public-key method, or the empty string.
pub fn first_public_key_path(auth: &[AuthMethod]) -> (r: String)
    ensures
        r@ == first_key_path(auth@),
{
    let mut i: usize = 0;
    assert(auth@.skip(0) =~= auth@);
    while i < auth.len()
        invariant
            i <= auth@.len(),
            first_key_path(auth@) == first_key_path(auth@.skip(i as int)),
        decreases auth@.len() - i,
    {
        match &auth[i] {
            AuthMethod::PublicKey { key_path } => {
                return key_path.clone();
            },
            _ => {},
        }
        assert(auth@.skip(i as int).drop_first() =~= auth@.skip(i as int + 1));
        i = i + 1;
    }
    String::new()
}

/// The stable name of a proxy kind, as the form's selector stores it.
pub open spec fn spec_proxy_kind(proxy: ProxyConfig) -> Seq<char> {
    match proxy {
        ProxyConfig::Direct => "direct"@,
        ProxyConfig::System => "system"@,
        ProxyConfig::Socks5 { .. } => "socks5"@,
        ProxyConfig::Http { .. } => "http"@,
    }
}

/// The stable name of a proxy kind.
pub fn proxy_kind_label(proxy: &ProxyConfig) -> (r: &'static str)
    ensures
        r@ == spec_proxy_kind(*proxy),
{
    match proxy {
        ProxyConfig::Direct => "direct",
        ProxyConfig::System => "system",
        ProxyConfig::Socks5 { .. } => "socks5",
        ProxyConfig::Http { .. } => "http",
    }
}

/// The single proxy choice the form shows: a TCP proxy wins, then a jump
/// host, else a direct connection.
pub open spec fn spec_proxy_mode(params: ConnectParams) -> Seq<char> {
    match params.proxy {
        ProxyConfig::Direct => if params.proxy_jump is Some {
            "jump"@
        } else {
            "direct"@
        },
        other => spec_proxy_kind(other),
    }
}

/// The form's proxy choice for saved settings, which keep the TCP proxy and
/// the jump host apart.
pub fn proxy_mode(params: &ConnectParams) -> (r: &'static str)
    ensures
        r@ == spec_proxy_mode(*params),
{
    match &params.proxy {
        ProxyConfig::Direct => {
            if params.proxy_jump.is_some() {
                "jump"
            } else {
                "direct"
            }
        },
        other => proxy_kind_label(other),
    }
}

/// The host, port and user name fields of a proxy (empty for a direct or
/// system connection).
pub open spec fn spec_proxy_fields(proxy: ProxyConfig) -> (Seq<char>, Seq<char>, Seq<char>) {
    match proxy {
        ProxyConfig::Socks5 { host, port, username } => (
            host@,
            decimal(port as nat),
            match username {
                Some(u) => u@,
                None => Seq::empty(),
            },
        ),
        ProxyConfig::Http { host, port, username } => (
            host@,
            decimal(port as nat),
            match username {
                Some(u) => u@,
                None => Seq::empty(),
            },
        ),
        _ => (Seq::empty(), Seq::empty(), Seq::empty()),
    }
}

/// The text of the host, port and user name fields for editing a proxy.
pub fn proxy_fields(proxy: &ProxyConfig) -> (r: (String, String, String))
    ensures
        (r.0@, r.1@, r.2@) == spec_proxy_fields(*proxy),
{
    match proxy {
        ProxyConfig::Socks5 { host, port, username } | ProxyConfig::Http { host, port, username } => {
            let mut port_text = String::new();
            push_decimal(&mut port_text, *port as u128);
            let user = match username {
                Some(u) => u.clone(),
                None => String::new(),
            };
            (host.clone(), port_text, user)
        },
        _ => (String::new(), String::new(), String::new()),
    }
}

/// Whether a character is an ASCII decimal digit.
pub open spec fn is_decimal_digit(c: char) -> bool {
    '0' <= c && c <= '9'
}

/// The number written by a string of decimal digits.
pub open spec fn digits_value(s: Seq<char>) -> nat
    decreases s.len(),
{
    if s.len() == 0 {
        0
    } else {
        digits_value(s.drop_last()) * 10 + ((s.last() as int) - ('0' as int)) as nat
    }
}

/// Whether every character is an ASCII decimal digit.
pub open spec fn all_decimal_digits(s: Seq<char>) -> bool {
    forall|i: int| 0 <= i < s.len() ==> is_decimal_digit(#[trigger] s[i])
}

/// The number `u16::from_str` reads from a string: an optional `+`, then
/// one or more ASCII digits whose value fits in 16 bits.
pub open spec fn spec_parse_u16(s: Seq<char>) -> Option<u16> {
    let digits = if s.len() > 0 && s[0] == '+' {
        s.drop_first()
    } else {
        s
    };
    if digits.len() > 0 && all_decimal_digits(digits) && digits_value(digits) <= 65535 {
        Some(digits_value(digits) as u16)
    } else {
        None
    }
}

/// A longer string of digits is worth at least its prefix.
proof fn lemma_digits_value_prefix(s: Seq<char>, k: int)
    requires
        0 <= k <= s.len(),
        forall|i: int| 0 <= i < s.len() ==> is_decimal_digit(#[trigger] s[i]),
    ensures
        digits_value(s) >= digits_value(s.take(k)),
    decreases s.len(),
{
    if k == s.len() {
        assert(s.take(k) =~= s);
    } else {
        let shorter = s.drop_last();
        assert forall|i: int| 0 <= i < shorter.len() implies is_decimal_digit(#[trigger] shorter[i]) by {
            assert(shorter[i] == s[i]);
        }
        lemma_digits_value_prefix(shorter, k);
        assert(shorter.take(k) =~= s.take(k));
        assert(is_decimal_digit(s[s.len() - 1]));
    }
}

/// Reads a port number as `str::parse::<u16>` does: an optional `+`, then
/// ASCII digits with a value of at most 65535.
pub fn parse_u16(s: &str) -> (r: Option<u16>)
    ensures
        r == spec_parse_u16(s@),
{
    let v = chars_of(s);
    let n = v.len();
    let start: usize = if n > 0 && v[0] == '+' { 1 } else { 0 };
    let ghost digits = if s@.len() > 0 && s@[0] == '+' { s@.drop_first() } else { s@ };
    assert(digits =~= v@.subrange(start as int, n as int));
    if start == n {
        return None;
    }
    let mut value: u32 = 0;
    let mut i: usize = start;
    assert(v@.subrange(start as int, start as int) =~= Seq::<char>::empty());
    while i < n
        invariant
            n == v@.len(),
            v@ == s@,
            digits == (if s@.len() > 0 && s@[0] == '+' { s@.drop_first() } else { s@ }),
            start <= i <= n,
            start < n,
            digits == v@.subrange(start as int, n as int),
            value == digits_value(v@.subrange(start as int, i as int)),
            value <= 65535,
            forall|j: int| start <= j < i ==> is_decimal_digit(#[trigger] v@[j]),
        decreases n - i,
    {
        let c = v[i];
        if !('0' <= c && c <= '9') {
            assert(digits[i - start] == c);
            assert(!is_decimal_digit(digits[i - start]));
            return None;
        }
        let d: u32 = (c as u32) - ('0' as u32);
        let ghost prefix = v@.subrange(start as int, i as int + 1);
        assert(prefix.drop_last() =~= v@.subrange(start as int, i as int));
        assert(prefix.last() == c);
        value = value * 10 + d;
        if value > 65535 {
            proof {
                if all_decimal_digits(digits) {
                    lemma_digits_value_prefix(digits, i + 1 - start);
                    assert(digits.take(i + 1 - start) =~= prefix);
                }
            }
            return None;
        }
        i = i + 1;
    }
    assert(v@.subrange(start as int, n as int) == digits);
    assert forall|j: int| 0 <= j < digits.len() implies is_decimal_digit(#[trigger] digits[j]) by {
        assert(digits[j] == v@[start + j]);
    }
    Some(value as u16)
}

/// Whether an optional user name is the trimmed form field `u`: absent
/// exactly when the field is blank.
pub open spec fn username_matches(o: Option<String>, u: Seq<char>) -> bool {
    match o {
        Some(name) => u.len() > 0 && name@ == u,
        None => u.len() == 0,
    }
}

/// The port a form field gives: its number, or 1080 when it does not parse.
pub open spec fn port_or_default(port: Seq<char>) -> u16 {
    match spec_parse_u16(trim_ws(port)) {
        Some(n) => n,
        None => 1080u16,
    }
}

/// Whether a built proxy is the one the form describes. `kind` is the
/// selector's value; host and user name are trimmed and a blank user name
/// means none; a port that does not parse falls back to 1080. A SOCKS5 or
/// HTTP proxy without a host, or an unknown kind, means a direct connection.
pub open spec fn proxy_matches_inputs(r: ProxyConfig, kind: Seq<char>, host: Seq<char>, port: Seq<char>, username: Seq<char>) -> bool {
    let h = trim_ws(host);
    let u = trim_ws(username);
    let p = port_or_default(port);
    if kind == "system"@ {
        r == ProxyConfig::System
    } else if kind == "socks5"@ && h.len() > 0 {
        r matches ProxyConfig::Socks5 { host: rh, port: rp, username: ru } && rh@ == h && rp == p && username_matches(ru, u)
    } else if kind == "http"@ && h.len() > 0 {
        r matches ProxyConfig::Http { host: rh, port: rp, username: ru } && rh@ == h && rp == p && username_matches(ru, u)
    } else {
        r == ProxyConfig::Direct
    }
}

/// Builds the proxy the form describes.
pub fn proxy_from_inputs(kind: &str, host: &str, port: &str, username: &str) -> (r: ProxyConfig)
    ensures
        proxy_matches_inputs(r, kind@, host@, port@, username@),
{
    let host = trimmed(host);
    let user = trimmed(username);
    let username: Option<String> = if user.unicode_len() == 0 {
        None
    } else {
        Some(user)
    };
    let port_text = trimmed(port);
    let port: u16 = match parse_u16(port_text.as_str()) {
        Some(n) => n,
        None => 1080,
    };
    if str_eq(kind, "system") {
        ProxyConfig::System
    } else if str_eq(kind, "socks5") && host.unicode_len() > 0 {
        ProxyConfig::Socks5 { host, port, username }
    } else if str_eq(kind, "http") && host.unicode_len() > 0 {
        ProxyConfig::Http { host, port, username }
    } else {
        ProxyConfig::Direct
    }
}

/// A decimal rendering is made of digits and reads back as its number.
pub proof fn lemma_decimal_digits(n: nat)
    ensures
        all_decimal_digits(decimal(n)),
        digits_value(decimal(n)) == n,
    decreases n,
{
    reveal_with_fuel(decimal, 2);
    if n < 10 {
        let d = decimal(n);
        assert(d == seq![digit_char(n as int)]);
        assert(d.drop_last() =~= Seq::<char>::empty());
        assert((digit_char(n as int) as int) == 48 + n);
        assert(digits_value(d.drop_last()) == 0);
        assert(('0' as int) == 48);
        assert(digits_value(d) == digits_value(d.drop_last()) * 10 + ((d.last() as int) - ('0' as int)) as nat);
    } else {
        lemma_decimal_digits(n / 10);
        let d = decimal(n);
        assert(d.drop_last() =~= decimal(n / 10));
        assert(d.last() == digit_char((n % 10) as int));
        assert((digit_char((n % 10) as int) as int) == 48 + n % 10);
        assert(('0' as int) == 48);
        assert(digits_value(d) == digits_value(d.drop_last()) * 10 + ((d.last() as int) - ('0' as int)) as nat);
        assert((n / 10) * 10 + n % 10 == n);
        assert forall|i: int| 0 <= i < d.len() implies is_decimal_digit(#[trigger] d[i]) by {
            if i < d.len() - 1 {
                assert(d[i] == decimal(n / 10)[i]);
            }
        }
    }
}

/// Text without leading or trailing whitespace is left alone by trimming.
pub proof fn lemma_trim_of_trimmed(s: Seq<char>)
    requires
        s.len() > 0 ==> !char_is_whitespace(s[0]) && !char_is_whitespace(s.last()),
    ensures
        trim_ws(s) == s,
{
    assert(trim_start_ws(s) == s);
}

/// A port number written in decimal parses back to the same number, and
/// trimming does not change its text.
pub proof fn lemma_port_text_round_trip(port: u16)
    ensures
        spec_parse_u16(decimal(port as nat)) == Some(port),
        trim_ws(decimal(port as nat)) == decimal(port as nat),
{
    let d = decimal(port as nat);
    lemma_decimal_digits(port as nat);
    lemma_decimal_nonempty(port as nat);
    assert(is_decimal_digit(d[0]));
    assert(is_decimal_digit(d[d.len() - 1]));
    lemma_trim_of_trimmed(d);
}

/// Whether a text is already trimmed and not blank.
pub open spec fn is_clean_text(t: Seq<char>) -> bool {
    t.len() > 0 && trim_ws(t) == t
}

/// Whether a proxy is in the form the dialog builds: a SOCKS5 or HTTP proxy
/// has a trimmed, non-blank host and a trimmed, non-blank user name if any.
pub open spec fn is_clean_proxy(proxy: ProxyConfig) -> bool {
    match proxy {
        ProxyConfig::Socks5 { host, port, username } => is_clean_text(host@) && match username {
            Some(u) => is_clean_text(u@),
            None => true,
        },
        ProxyConfig::Http { host, port, username } => is_clean_text(host@) && match username {
            Some(u) => is_clean_text(u@),
            None => true,
        },
        _ => true,
    }
}

/// Editing a proxy and saving it unchanged gives the same proxy back: its
/// kind and fields, read back through the form, describe it again.
pub proof fn law_proxy_fields_round_trip(proxy: ProxyConfig)
    requires
        is_clean_proxy(proxy),
    ensures
        ({
            let fields = spec_proxy_fields(proxy);
            proxy_matches_inputs(proxy, spec_proxy_kind(proxy), fields.0, fields.1, fields.2)
        }),
{
    reveal_strlit("direct");
    reveal_strlit("system");
    reveal_strlit("socks5");
    reveal_strlit("http");
    assert(trim_ws(Seq::<char>::empty()) =~= Seq::<char>::empty());
    assert("direct"@[0] != "system"@[0] && "direct"@[0] != "socks5"@[0] && "system"@[1] != "socks5"@[1]);
    assert("direct"@ != "system"@ && "direct"@ != "socks5"@ && "system"@ != "socks5"@);
    match proxy {
        ProxyConfig::Socks5 { host, port, username } => {
            lemma_port_text_round_trip(port);
            assert(port_or_default(decimal(port as nat)) == port);
        },
        ProxyConfig::Http { host, port, username } => {
            lemma_port_text_round_trip(port);
            assert(port_or_default(decimal(port as nat)) == port);
        },
        _ => {},
    }
}

} // verus!
