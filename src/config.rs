//! Where the server's base address comes from: a command-line URL, then an
//! environment URL, then the configuration file, then the defaults.

use vstd::prelude::*;
use vstd::string::*;
use crate::text::{
    decimal, decimal_string, drop_leading_slashes, drop_one_trailing_slash,
    drop_trailing_slashes, parse_u16, str_eq, strip_one_trailing_slash, strip_slashes,
    u16_of_digits,
};
use crate::error::LauncherError;

verus! {

/// The loopback address used when no other address is configured.
pub const DEFAULT_IP: &'static str = "127.0.0.1";

/// The port used when no other port is configured.
pub const DEFAULT_PORT: u16 = 4567;

/// The bind-all address, which is no address to connect to.
pub const BIND_ALL_IP: &'static str = "0.0.0.0";

/// Finds the quoted `server.ip` value at the start of a line.
pub const IP_PATTERN: &'static str = r#"(?m)^\s*server\.ip\s*=\s*\"([^\"]+)\""#;

/// Finds the digits of `server.port` at the start of a line.
pub const PORT_PATTERN: &'static str = r"(?m)^\s*server\.port\s*=\s*(\d+)";

/// Finds the quoted, possibly empty, `server.webUISubpath` value at the
/// start of a line.
pub const SUBPATH_PATTERN: &'static str = r#"(?m)^\s*server\.webUISubpath\s*=\s*\"([^\"]*)\""#;

/// What `str::trim` returns for `s`.
pub uninterp spec fn trimmed(s: Seq<char>) -> Seq<char>;

/// Group 1 of the leftmost match of the regular expression `pattern` in
/// `text`, or `None` when the pattern is invalid or does not match.
pub uninterp spec fn first_capture(pattern: Seq<char>, text: Seq<char>) -> Option<Seq<char>>;

/// For a text that parses as a URL: its host, if it has one, and its
/// serialization.
pub uninterp spec fn url_parts(raw: Seq<char>) -> Option<(Option<Seq<char>>, Seq<char>)>;

/// The serialization of the URL `raw` once its host is replaced by `host`, or
/// `None` when `raw` does not parse or the host cannot be set.
pub uninterp spec fn url_rehosted(raw: Seq<char>, host: Seq<char>) -> Option<Seq<char>>;

/// Relies on `str::trim`: the result depends on the characters of `s` alone.
#[verifier::external_body]
fn trim_str<'a>(s: &'a str) -> (r: &'a str)
    ensures
        r@ == trimmed(s@),
{
    s.trim()
}

/// Relies on `regex::Regex::new` and `Regex::captures`: the text of group 1
/// of the leftmost match, a function of the pattern and the text alone.
#[verifier::external_body]
fn capture_first_group(pattern: &str, text: &str) -> (r: Option<String>)
    ensures
        match r {
            Some(v) => first_capture(pattern@, text@) == Some(v@),
            None => first_capture(pattern@, text@) is None,
        },
{
    let re = regex::Regex::new(pattern).ok()?;
    re.captures(text)?.get(1).map(|m| m.as_str().to_string())
}

/// A URL as the logic reads it: its host and its serialization.
struct UrlParts {
    host: Option<String>,
    serialized: String,
}

pub open spec fn opt_view(o: Option<String>) -> Option<Seq<char>> {
    match o {
        Some(s) => Some(s@),
        None => None,
    }
}

/// Relies on `url::Url::parse`, `Url::host_str` and the serialization that
/// `Url` displays.
#[verifier::external_body]
fn parse_url(raw: &str) -> (r: Option<UrlParts>)
    ensures
        match r {
            Some(p) => url_parts(raw@) == Some((opt_view(p.host), p.serialized@)),
            None => url_parts(raw@) is None,
        },
{
    url::Url::parse(raw).ok().map(|u| UrlParts {
        host: u.host_str().map(|h| h.to_string()),
        serialized: u.to_string(),
    })
}

/// Relies on `url::Url::parse` and `Url::set_host`: the serialization of
/// `raw` with its host replaced.
#[verifier::external_body]
fn rehost_url(raw: &str, host: &str) -> (r: Option<String>)
    ensures
        match r {
            Some(v) => url_rehosted(raw@, host@) == Some(v@),
            None => url_rehosted(raw@, host@) is None,
        },
{
    let mut u = url::Url::parse(raw).ok()?;
    u.set_host(Some(host)).ok()?;
    Some(u.to_string())
}

pub open spec fn normalize_ip_spec(ip: Seq<char>) -> Seq<char> {
    if ip == BIND_ALL_IP@ {
        DEFAULT_IP@
    } else {
        ip
    }
}

pub open spec fn normalize_subpath_spec(s: Seq<char>) -> Seq<char> {
    let core = drop_leading_slashes(drop_trailing_slashes(trimmed(s)));
    if s.len() == 0 || s == seq!['/'] || core.len() == 0 {
        Seq::empty()
    } else {
        seq!['/'] + core
    }
}

pub open spec fn base_url_spec(ip: Seq<char>, port: u16, subpath: Seq<char>) -> Seq<char> {
    "http://"@ + normalize_ip_spec(ip) + ":"@ + decimal(port as nat) + normalize_subpath_spec(subpath)
}

/// Maps the bind-all address to the loopback address; any other address is
/// kept.
pub fn normalize_ip<'a>(ip: &'a str) -> (r: &'a str)
    ensures
        r@ == normalize_ip_spec(ip@),
{
    if str_eq(ip, BIND_ALL_IP) {
        DEFAULT_IP
    } else {
        ip
    }
}

/// Empty for an empty text, `"/"`, or one of whitespace and slashes only;
/// otherwise the trimmed text without surrounding slashes, behind exactly one
/// leading slash.
pub fn normalize_subpath(subpath: &str) -> (r: String)
    ensures
        r@ == normalize_subpath_spec(subpath@),
{
    proof {
        reveal_strlit("/");
    }
    let is_root = str_eq(subpath, "/");
    assert("/"@ =~= seq!['/']);
    let core = strip_slashes(trim_str(subpath));
    if subpath.unicode_len() == 0 || is_root || core.unicode_len() == 0 {
        return String::new();
    }
    let mut path = String::from_str("/");
    path.append(core.as_str());
    path
}

/// `http://{ip}:{port}{subpath}` with the address and the subpath
/// normalized; it never ends in a slash.
pub fn build_base_url(ip: &str, port: u16, subpath: &str) -> (r: String)
    ensures
        r@ == base_url_spec(ip@, port, subpath@),
{
    let mut url = String::from_str("http://");
    url.append(normalize_ip(ip));
    url.append(":");
    let digits = decimal_string(port as u64);
    url.append(digits.as_str());
    let sub = normalize_subpath(subpath);
    url.append(sub.as_str());
    url
}


/// The three settings that the configuration file can give.
#[derive(Debug, Clone)]
pub struct ParsedConfig {
    pub ip: String,
    pub port: u16,
    pub subpath: String,
}

impl Default for ParsedConfig {
    fn default() -> (r: Self)
        ensures
            r.ip@ == DEFAULT_IP@,
            r.port == DEFAULT_PORT,
            r.subpath@ == Seq::<char>::empty(),
    {
        ParsedConfig { ip: String::from_str(DEFAULT_IP), port: DEFAULT_PORT, subpath: String::new() }
    }
}

pub open spec fn ip_from_capture(ip: Option<Seq<char>>) -> Seq<char> {
    match ip {
        Some(v) => normalize_ip_spec(trimmed(v)),
        None => DEFAULT_IP@,
    }
}

pub open spec fn port_from_capture(port: Option<Seq<char>>) -> u16 {
    match port {
        Some(d) => match u16_of_digits(d) {
            Some(p) => p,
            None => DEFAULT_PORT,
        },
        None => DEFAULT_PORT,
    }
}

pub open spec fn subpath_from_capture(subpath: Option<Seq<char>>) -> Seq<char> {
    match subpath {
        Some(v) => normalize_subpath_spec(trimmed(v)),
        None => Seq::empty(),
    }
}

pub open spec fn conf_ip(text: Seq<char>) -> Seq<char> {
    ip_from_capture(first_capture(IP_PATTERN@, text))
}

pub open spec fn conf_port(text: Seq<char>) -> u16 {
    port_from_capture(first_capture(PORT_PATTERN@, text))
}

pub open spec fn conf_subpath(text: Seq<char>) -> Seq<char> {
    subpath_from_capture(first_capture(SUBPATH_PATTERN@, text))
}

pub open spec fn opt_str_view(o: Option<&str>) -> Option<Seq<char>> {
    match o {
        Some(s) => Some(s@),
        None => None,
    }
}

impl ParsedConfig {
    /// Builds the settings from what the three patterns captured: each
    /// captured value overrides its default; a port that is no `u16` keeps
    /// the default.
    pub fn from_captures(ip: Option<&str>, port: Option<&str>, subpath: Option<&str>) -> (r: Self)
        ensures
            r.ip@ == ip_from_capture(opt_str_view(ip)),
            r.port == port_from_capture(opt_str_view(port)),
            r.subpath@ == subpath_from_capture(opt_str_view(subpath)),
    {
        let mut config = ParsedConfig::default();
        if let Some(v) = ip {
            config.ip = String::from_str(normalize_ip(trim_str(v)));
        }
        if let Some(d) = port {
            if let Some(p) = parse_u16(d) {
                config.port = p;
            }
        }
        if let Some(v) = subpath {
            config.subpath = normalize_subpath(trim_str(v));
        }
        config
    }
}

/// Reads `server.ip`, `server.port` and `server.webUISubpath` out of the
/// configuration text; each key that is absent keeps its default.
pub fn parse_server_conf(content: &str) -> (r: ParsedConfig)
    ensures
        r.ip@ == conf_ip(content@),
        r.port == conf_port(content@),
        r.subpath@ == conf_subpath(content@),
{
    let ip = capture_first_group(IP_PATTERN, content);
    let port = capture_first_group(PORT_PATTERN, content);
    let subpath = capture_first_group(SUBPATH_PATTERN, content);
    let ip_ref = match &ip {
        Some(v) => Some(v.as_str()),
        None => None,
    };
    let port_ref = match &port {
        Some(v) => Some(v.as_str()),
        None => None,
    };
    let subpath_ref = match &subpath {
        Some(v) => Some(v.as_str()),
        None => None,
    };
    ParsedConfig::from_captures(ip_ref, port_ref, subpath_ref)
}

pub open spec fn normalized_base_url(raw: Seq<char>) -> Option<Seq<char>> {
    match url_parts(raw) {
        None => None,
        Some(parts) => if parts.0 == Some(BIND_ALL_IP@) {
            match url_rehosted(raw, DEFAULT_IP@) {
                Some(t) => Some(drop_one_trailing_slash(t)),
                None => None,
            }
        } else {
            Some(drop_one_trailing_slash(parts.1))
        },
    }
}

/// The URL `raw` in normal form: the bind-all host replaced by the loopback
/// address and one trailing slash removed; `None` when it does not parse.
pub fn normalize_base_url(raw: &str) -> (r: Option<String>)
    ensures
        opt_view(r) == normalized_base_url(raw@),
{
    let parts = parse_url(raw);
    match parts {
        None => None,
        Some(p) => {
            let bind_all = match &p.host {
                Some(h) => str_eq(h.as_str(), BIND_ALL_IP),
                None => false,
            };
            if bind_all {
                match rehost_url(raw, DEFAULT_IP) {
                    Some(t) => Some(strip_one_trailing_slash(t.as_str())),
                    None => None,
                }
            } else {
                Some(strip_one_trailing_slash(p.serialized.as_str()))
            }
        },
    }
}

/// The base address that the configuration text gives, or the defaults
/// when there is none.
pub open spec fn configured_base_url(conf: Option<Seq<char>>) -> Seq<char> {
    match conf {
        Some(t) => base_url_spec(conf_ip(t), conf_port(t), conf_subpath(t)),
        None => base_url_spec(DEFAULT_IP@, DEFAULT_PORT, Seq::empty()),
    }
}

/// The first source that gives a usable address wins: the command-line URL,
/// then the environment URL, then the configuration text or the defaults.
pub open spec fn resolved_base_url(
    cli_arg: Option<Seq<char>>,
    env_url: Option<Seq<char>>,
    conf: Option<Seq<char>>,
) -> Seq<char> {
    if cli_arg is Some && normalized_base_url(cli_arg.unwrap()) is Some {
        normalized_base_url(cli_arg.unwrap()).unwrap()
    } else if env_url is Some && normalized_base_url(env_url.unwrap()) is Some {
        normalized_base_url(env_url.unwrap()).unwrap()
    } else {
        configured_base_url(conf)
    }
}

/// Picks the base address from the command-line URL, the environment URL
/// and the configuration text, in that order; a URL that does not parse is
/// passed over.
pub fn resolve_base_url(cli_arg: Option<&str>, env_url: Option<&str>, conf_text: Option<&str>) -> (r: String)
    ensures
        r@ == resolved_base_url(opt_str_view(cli_arg), opt_str_view(env_url), opt_str_view(conf_text)),
{
    if let Some(raw) = cli_arg {
        if let Some(url) = normalize_base_url(raw) {
            return url;
        }
    }
    if let Some(raw) = env_url {
        if let Some(url) = normalize_base_url(raw) {
            return url;
        }
    }
    let parsed = match conf_text {
        Some(t) => parse_server_conf(t),
        None => ParsedConfig::default(),
    };
    proof {
        reveal_strlit("");
    }
    build_base_url(parsed.ip.as_str(), parsed.port, parsed.subpath.as_str())
}

/// The best-effort base address, with no health check, for a host that must
/// go on when the bootstrap failed.
pub fn fallback_base_url(cli_arg: Option<&str>, env_url: Option<&str>, conf_text: Option<&str>) -> (r: String)
    ensures
        r@ == resolved_base_url(opt_str_view(cli_arg), opt_str_view(env_url), opt_str_view(conf_text)),
{
    resolve_base_url(cli_arg, env_url, conf_text)
}

/// Accepts the address only where it parses as a URL.
pub fn validate_base_url(base_url: String) -> (r: Result<String, LauncherError>)
    ensures
        url_parts(base_url@) is Some <==> r is Ok,
        r matches Ok(u) ==> u == base_url,
        r matches Err(e) ==> e == LauncherError::InvalidBaseUrl(base_url),
{
    match parse_url(base_url.as_str()) {
        Some(_) => Ok(base_url),
        None => Err(LauncherError::InvalidBaseUrl(base_url)),
    }
}

/// A command-line URL that parses decides the base address, whatever the
/// environment URL and the configuration text say.
pub proof fn command_line_url_takes_precedence(
    cli_arg: Seq<char>,
    env_url: Option<Seq<char>>,
    conf: Option<Seq<char>>,
)
    requires
        normalized_base_url(cli_arg) is Some,
    ensures
        resolved_base_url(Some(cli_arg), env_url, conf) == normalized_base_url(cli_arg).unwrap(),
{
}

/// A configuration text in which none of the three keys is found gives the
/// default address, port and subpath.
pub proof fn unmatched_text_gives_defaults(text: Seq<char>)
    requires
        first_capture(IP_PATTERN@, text) is None,
        first_capture(PORT_PATTERN@, text) is None,
        first_capture(SUBPATH_PATTERN@, text) is None,
    ensures
        conf_ip(text) == DEFAULT_IP@,
        conf_port(text) == DEFAULT_PORT,
        conf_subpath(text) == Seq::<char>::empty(),
{
}

} // verus!
