//! Proxy settings: parsing `ProxyServer` and `ProxyOverride` values, and the
//! decisions around reading them from the registry and asking WinHTTP.

use vstd::prelude::*;

use crate::error::{Error, InvalidParameterError, ProxyConfigError, ProxyError};
use crate::pairs::{insert_pair, keys_distinct, lemma_pairs_insert, pairs_insert, pairs_view};
use crate::text::{
    ascii_lower, chars_of, chars_range, find_char, index_of_char, lower_chars, pieces_view,
    split_chars, split_on, str_to_string, string_from_chars, strings_view, trim_chars, trim_ws,
};

verus! {

/// `WINHTTP_AUTOPROXY_AUTO_DETECT`.
pub const AUTOPROXY_AUTO_DETECT: u32 = 0x1;
/// `WINHTTP_AUTOPROXY_CONFIG_URL`.
pub const AUTOPROXY_CONFIG_URL: u32 = 0x2;
/// `WINHTTP_AUTO_DETECT_TYPE_DHCP`.
pub const AUTO_DETECT_TYPE_DHCP: u32 = 0x1;
/// `WINHTTP_AUTO_DETECT_TYPE_DNS_A`.
pub const AUTO_DETECT_TYPE_DNS_A: u32 = 0x2;

// ---------------------------------------------------------------------------
// Parsing
// ---------------------------------------------------------------------------

/// What one trimmed, non-empty entry of a `ProxyServer` value adds:
/// `scheme=endpoint` sets the lowercased scheme (both parts trimmed, neither
/// empty), anything else sets `all`.
pub open spec fn proxy_entry_insert(m: Seq<(Seq<char>, Seq<char>)>, entry: Seq<char>) -> Seq<
    (Seq<char>, Seq<char>),
> {
    let i = index_of_char(entry, '=');
    if i >= 0 {
        let scheme = ascii_lower(trim_ws(entry.subrange(0, i)));
        let endpoint = trim_ws(entry.subrange(i + 1, entry.len() as int));
        if scheme.len() > 0 && endpoint.len() > 0 {
            pairs_insert(m, scheme, endpoint)
        } else {
            m
        }
    } else {
        pairs_insert(m, "all"@, entry)
    }
}

/// The scheme map of the `;`-separated pieces of a `ProxyServer` value,
/// entries taken in order after trimming, empty ones skipped.
pub open spec fn proxy_map(pieces: Seq<Seq<char>>) -> Seq<(Seq<char>, Seq<char>)>
    decreases pieces.len(),
{
    if pieces.len() == 0 {
        Seq::empty()
    } else {
        let m = proxy_map(pieces.drop_last());
        let e = trim_ws(pieces.last());
        if e.len() == 0 {
            m
        } else {
            proxy_entry_insert(m, e)
        }
    }
}

/// The scheme map of a `ProxyServer` value.
pub open spec fn proxy_server_map(raw: Seq<char>) -> Seq<(Seq<char>, Seq<char>)> {
    proxy_map(split_on(trim_ws(raw), ';'))
}

/// A parsed `ProxyServer` value holds each scheme once.
pub proof fn lemma_proxy_map_schemes_distinct(pieces: Seq<Seq<char>>)
    ensures
        keys_distinct(proxy_map(pieces)),
    decreases pieces.len(),
{
    if pieces.len() > 0 {
        let m = proxy_map(pieces.drop_last());
        lemma_proxy_map_schemes_distinct(pieces.drop_last());
        let e = trim_ws(pieces.last());
        if e.len() > 0 {
            let i = index_of_char(e, '=');
            if i >= 0 {
                let scheme = ascii_lower(trim_ws(e.subrange(0, i)));
                let endpoint = trim_ws(e.subrange(i + 1, e.len() as int));
                lemma_pairs_insert(m, scheme, endpoint, scheme);
            } else {
                lemma_pairs_insert(m, "all"@, e, "all"@);
            }
        }
    }
}

/// The trimmed, non-empty pieces, in order.
pub open spec fn bypass_entries(pieces: Seq<Seq<char>>) -> Seq<Seq<char>>
    decreases pieces.len(),
{
    if pieces.len() == 0 {
        Seq::empty()
    } else {
        let p = bypass_entries(pieces.drop_last());
        let e = trim_ws(pieces.last());
        if e.len() > 0 {
            p.push(e)
        } else {
            p
        }
    }
}

/// The entries of a `ProxyOverride` value; none where it is absent.
pub open spec fn proxy_bypass_list(raw: Option<Seq<char>>) -> Seq<Seq<char>> {
    bypass_entries(
        split_on(
            match raw {
                Some(r) => r,
                None => Seq::empty(),
            },
            ';',
        ),
    )
}

/// Adds one trimmed, non-empty entry; see [`proxy_entry_insert`].
fn insert_proxy_entry(map: &mut Vec<(String, String)>, entry: &Vec<char>)
    ensures
        pairs_view(final(map)@) == proxy_entry_insert(pairs_view(old(map)@), entry@),
{
    let n = entry.len();
    match find_char(entry.as_slice(), '=') {
        Some(i) => {
            let head = chars_range(entry.as_slice(), 0, i);
            let tail = chars_range(entry.as_slice(), i + 1, n);
            let scheme = lower_chars(trim_chars(head.as_slice()).as_slice());
            let endpoint = trim_chars(tail.as_slice());
            if scheme.len() > 0 && endpoint.len() > 0 {
                insert_pair(
                    map,
                    string_from_chars(scheme.as_slice()),
                    string_from_chars(endpoint.as_slice()),
                );
            }
        },
        None => {
            insert_pair(map, str_to_string("all"), string_from_chars(entry.as_slice()));
        },
    }
}

/// Parse `ProxyServer` style value into a scheme map.
///
/// Supported formats:
/// - `proxy.company.local:8080`
/// - `http=proxy:8080;https=proxy:8443`
pub fn parse_proxy_server(raw: &str) -> (r: Vec<(String, String)>)
    ensures
        pairs_view(r@) == proxy_server_map(raw@),
        keys_distinct(pairs_view(r@)),
{
    proof {
        lemma_proxy_map_schemes_distinct(split_on(trim_ws(raw@), ';'));
    }
    let cs = chars_of(raw);
    let trimmed = trim_chars(cs.as_slice());
    let pieces = split_chars(trimmed.as_slice(), ';');
    let ghost p = pieces_view(pieces@);
    let mut map: Vec<(String, String)> = Vec::new();
    let mut i: usize = 0;
    assert(pairs_view(map@) =~= proxy_map(p.subrange(0, 0)));
    while i < pieces.len()
        invariant
            p == pieces_view(pieces@),
            p == split_on(trim_ws(raw@), ';'),
            i <= pieces@.len(),
            pairs_view(map@) == proxy_map(p.subrange(0, i as int)),
        decreases pieces.len() - i,
    {
        assert(p.subrange(0, i + 1).drop_last() == p.subrange(0, i as int));
        let e = trim_chars(pieces[i].as_slice());
        if e.len() > 0 {
            insert_proxy_entry(&mut map, &e);
        }
        i = i + 1;
    }
    assert(p.subrange(0, pieces@.len() as int) == p);
    map
}

/// Parse `ProxyOverride` style bypass list.
pub fn parse_proxy_bypass(raw: Option<&str>) -> (r: Vec<String>)
    ensures
        strings_view(r@) == proxy_bypass_list(
            match raw {
                Some(s) => Some(s@),
                None => None,
            },
        ),
{
    let cs = match raw {
        Some(s) => chars_of(s),
        None => Vec::new(),
    };
    let pieces = split_chars(cs.as_slice(), ';');
    let ghost p = pieces_view(pieces@);
    let mut out: Vec<String> = Vec::new();
    let mut i: usize = 0;
    assert(strings_view(out@) =~= bypass_entries(p.subrange(0, 0)));
    while i < pieces.len()
        invariant
            p == pieces_view(pieces@),
            i <= pieces@.len(),
            strings_view(out@) == bypass_entries(p.subrange(0, i as int)),
        decreases pieces.len() - i,
    {
        assert(p.subrange(0, i + 1).drop_last() == p.subrange(0, i as int));
        let e = trim_chars(pieces[i].as_slice());
        if e.len() > 0 {
            out.push(string_from_chars(e.as_slice()));
            assert(strings_view(out@) =~= bypass_entries(p.subrange(0, i + 1)));
        }
        i = i + 1;
    }
    assert(p.subrange(0, pieces@.len() as int) == p);
    out
}

// ---------------------------------------------------------------------------
// Types
// ---------------------------------------------------------------------------

/// Proxy settings discovered from Windows configuration.
#[derive(Debug, Clone)]
pub struct ProxyConfig {
    /// Raw proxy server string (for example: "http=proxy:8080;https=proxy:8443").
    pub server: String,
    /// Bypass entries parsed from `ProxyOverride`.
    pub bypass: Vec<String>,
    /// Proxy endpoints parsed by scheme (for example `http -> proxy:8080`),
    /// each scheme once.
    pub by_scheme: Vec<(String, String)>,
    /// WPAD/auto-detect setting.
    pub auto_detect: bool,
    /// PAC script URL (`AutoConfigURL`) when configured.
    pub auto_config_url: Option<String>,
}

impl ProxyConfig {
    /// Build a proxy config from raw registry values.
    pub fn from_registry_values(
        server: String,
        bypass_raw: Option<String>,
        auto_detect: bool,
        auto_config_url: Option<String>,
    ) -> (r: Self)
        ensures
            r.server@ == server@,
            pairs_view(r.by_scheme@) == proxy_server_map(server@),
            strings_view(r.bypass@) == proxy_bypass_list(
                match bypass_raw {
                    Some(s) => Some(s@),
                    None => None,
                },
            ),
            r.auto_detect == auto_detect,
            r.auto_config_url == auto_config_url,
    {
        let by_scheme = parse_proxy_server(server.as_str());
        let bypass = match &bypass_raw {
            Some(s) => parse_proxy_bypass(Some(s.as_str())),
            None => parse_proxy_bypass(None),
        };
        ProxyConfig { by_scheme, bypass, server, auto_detect, auto_config_url }
    }
}

/// Effective proxy result for a specific URL.
#[derive(Debug, Clone)]
pub struct ProxyResolution {
    /// URL that was resolved.
    pub url: String,
    /// Raw proxy string returned by WinHTTP.
    pub proxy: Option<String>,
    /// Parsed proxy endpoints by scheme, each scheme once.
    pub by_scheme: Vec<(String, String)>,
    /// Bypass entries returned by WinHTTP.
    pub bypass: Vec<String>,
    /// Whether auto-detect (WPAD) was used for discovery.
    pub used_auto_detect: bool,
    /// Whether PAC URL was used for discovery.
    pub used_auto_config_url: bool,
}

impl ProxyResolution {
    /// Build a resolution from raw WinHTTP proxy output.
    pub fn from_winhttp(
        url: &str,
        proxy: Option<String>,
        bypass_raw: Option<String>,
        used_auto_detect: bool,
        used_auto_config_url: bool,
    ) -> (r: Self)
        ensures
            r.url@ == url@,
            r.proxy == proxy,
            pairs_view(r.by_scheme@) == match proxy {
                Some(p) => proxy_server_map(p@),
                None => Seq::empty(),
            },
            strings_view(r.bypass@) == proxy_bypass_list(
                match bypass_raw {
                    Some(s) => Some(s@),
                    None => None,
                },
            ),
            r.used_auto_detect == used_auto_detect,
            r.used_auto_config_url == used_auto_config_url,
    {
        let by_scheme = match &proxy {
            Some(p) => parse_proxy_server(p.as_str()),
            None => Vec::new(),
        };
        let bypass = match &bypass_raw {
            Some(s) => parse_proxy_bypass(Some(s.as_str())),
            None => parse_proxy_bypass(None),
        };
        ProxyResolution {
            url: str_to_string(url),
            proxy,
            by_scheme,
            bypass,
            used_auto_detect,
            used_auto_config_url,
        }
    }
}

/// IE proxy settings returned from WinHTTP/IE integration APIs.
#[derive(Debug, Clone)]
pub struct IeProxyConfig {
    /// WPAD auto-detect setting.
    pub auto_detect: bool,
    /// PAC script URL.
    pub auto_config_url: Option<String>,
    /// Raw static proxy server value.
    pub proxy: Option<String>,
    /// Raw bypass list value.
    pub proxy_bypass: Option<String>,
}

// ---------------------------------------------------------------------------
// Decisions around the registry and WinHTTP
// ---------------------------------------------------------------------------

/// A `ProxyServer` value that is present and not blank.
pub open spec fn usable_server(server: Option<String>) -> bool {
    server matches Some(s) && trim_ws(s@).len() > 0
}

/// The proxy configuration of one registry hive from its raw `Internet
/// Settings` values (each `None` where the key or value is missing):
/// nothing where neither a proxy, auto-detect nor a PAC URL is configured;
/// an error where `ProxyEnable` is 1 without a usable `ProxyServer`.
pub fn proxy_config_from_values(
    proxy_enable: Option<u32>,
    proxy_server: Option<String>,
    proxy_override: Option<String>,
    auto_detect: Option<u32>,
    auto_config_url: Option<String>,
) -> (r: Result<Option<ProxyConfig>, Error>)
    ensures
        ({
            let enabled = proxy_enable == Some(1u32);
            let detect = auto_detect == Some(1u32);
            let bypass = match proxy_override {
                Some(s) => Some(s@),
                None => None,
            };
            &&& (!enabled && !detect && auto_config_url is None) ==> r == Ok::<
                Option<ProxyConfig>,
                Error,
            >(None)
            &&& (enabled && !usable_server(proxy_server)) ==> (r matches Err(
                Error::Proxy(ProxyError::InvalidConfig(e)),
            ) && e.setting@ == "ProxyServer"@ && e.reason@
                == "ProxyEnable is 1 but ProxyServer is missing"@)
            &&& (enabled && usable_server(proxy_server)) ==> (r matches Ok(Some(c)) && c.server@
                == proxy_server->0@ && pairs_view(c.by_scheme@) == proxy_server_map(
                proxy_server->0@,
            ) && strings_view(c.bypass@) == proxy_bypass_list(bypass) && c.auto_detect == detect
                && c.auto_config_url == auto_config_url)
            &&& (!enabled && (detect || auto_config_url is Some)) ==> (r matches Ok(Some(c))
                && c.server@.len() == 0 && c.by_scheme@.len() == 0 && strings_view(c.bypass@)
                == proxy_bypass_list(bypass) && c.auto_detect == detect && c.auto_config_url
                == auto_config_url)
        }),
{
    let enabled = match proxy_enable {
        Some(v) => v == 1,
        None => false,
    };
    let server = match proxy_server {
        Some(s) => {
            let cs = chars_of(s.as_str());
            if trim_chars(cs.as_slice()).len() == 0 {
                None
            } else {
                Some(s)
            }
        },
        None => None,
    };
    let detect = match auto_detect {
        Some(v) => v == 1,
        None => false,
    };
    if !enabled && !detect && auto_config_url.is_none() {
        return Ok(None);
    }
    if enabled {
        if let Some(server) = server {
            return Ok(Some(ProxyConfig::from_registry_values(server, proxy_override, detect, auto_config_url)));
        }
        return Err(
            Error::Proxy(
                ProxyError::InvalidConfig(
                    ProxyConfigError::new(
                        "ProxyServer",
                        "ProxyEnable is 1 but ProxyServer is missing",
                    ),
                ),
            ),
        );
    }
    let bypass = match &proxy_override {
        Some(s) => parse_proxy_bypass(Some(s.as_str())),
        None => parse_proxy_bypass(None),
    };
    Ok(
        Some(
            ProxyConfig {
                server: String::new(),
                bypass,
                by_scheme: Vec::new(),
                auto_detect: detect,
                auto_config_url,
            },
        ),
    )
}

/// Whether the `ProxySettingsPerUser` policy value selects the user's
/// settings over the machine's: only a value of 1 does.
pub fn proxy_settings_per_user(value: Option<u32>) -> (r: bool)
    ensures
        r == (value == Some(1u32)),
{
    match value {
        Some(v) => v == 1,
        None => false,
    }
}

/// A URL to resolve a proxy for must not be blank.
pub fn validate_proxy_url(url: &str) -> (r: Result<(), Error>)
    ensures
        r is Ok <==> trim_ws(url@).len() > 0,
        r matches Err(Error::InvalidParameter(e)) ==> e.parameter@ == "url"@ && e.reason@
            == "url cannot be empty"@,
        r is Err ==> r matches Err(Error::InvalidParameter(_)),
{
    let cs = chars_of(url);
    if trim_chars(cs.as_slice()).len() == 0 {
        return Err(Error::InvalidParameter(InvalidParameterError::new("url", "url cannot be empty")));
    }
    Ok(())
}

/// How to find the proxy for a URL once the user's IE settings are known.
#[derive(Debug, Clone)]
pub enum ProxyLookup {
    /// Ask WinHTTP's auto-proxy with these options.
    Resolve { flags: u32, auto_detect_flags: u32, auto_config_url: Option<String> },
    /// The static proxy of the IE settings answers.
    Static(ProxyResolution),
    /// No proxy is configured.
    NoProxy,
}

/// Chooses how to find the proxy for `url`: auto-proxy with WPAD when
/// auto-detect is on, with the PAC URL when one is set; else the static
/// proxy; else none.
pub fn plan_proxy_lookup(url: &str, ie: IeProxyConfig) -> (r: ProxyLookup)
    ensures
        (ie.auto_detect || ie.auto_config_url is Some) ==> (r matches ProxyLookup::Resolve {
            flags,
            auto_detect_flags,
            auto_config_url,
        } && flags == (if ie.auto_detect {
            AUTOPROXY_AUTO_DETECT
        } else {
            0
        }) | (if ie.auto_config_url is Some {
            AUTOPROXY_CONFIG_URL
        } else {
            0
        }) && auto_detect_flags == (if ie.auto_detect {
            AUTO_DETECT_TYPE_DHCP | AUTO_DETECT_TYPE_DNS_A
        } else {
            0
        }) && auto_config_url == ie.auto_config_url),
        (!ie.auto_detect && ie.auto_config_url is None && ie.proxy is Some) ==> (r matches ProxyLookup::Static(
            res,
        ) && res.url@ == url@ && res.proxy == ie.proxy && pairs_view(res.by_scheme@)
            == proxy_server_map(ie.proxy->0@) && strings_view(res.bypass@) == proxy_bypass_list(
            match ie.proxy_bypass {
                Some(s) => Some(s@),
                None => None,
            },
        ) && !res.used_auto_detect && !res.used_auto_config_url),
        (!ie.auto_detect && ie.auto_config_url is None && ie.proxy is None) ==> r is NoProxy,
{
    let has_url = ie.auto_config_url.is_some();
    if ie.auto_detect || has_url {
        let flags: u32 = (if ie.auto_detect {
            AUTOPROXY_AUTO_DETECT
        } else {
            0
        }) | (if has_url {
            AUTOPROXY_CONFIG_URL
        } else {
            0
        });
        let auto_detect_flags: u32 = if ie.auto_detect {
            AUTO_DETECT_TYPE_DHCP | AUTO_DETECT_TYPE_DNS_A
        } else {
            0
        };
        return ProxyLookup::Resolve { flags, auto_detect_flags, auto_config_url: ie.auto_config_url };
    }
    match ie.proxy {
        Some(proxy) => ProxyLookup::Static(
            ProxyResolution::from_winhttp(url, Some(proxy), ie.proxy_bypass, false, false),
        ),
        None => ProxyLookup::NoProxy,
    }
}

} // verus!
