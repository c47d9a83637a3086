//! The server's configuration and its defaults.

use crate::api_bindings::RtcIceServer;
use vstd::prelude::*;
use vstd::string::StringSliceAdditionalSpecFns;

verus! {

/// How much is logged, from nothing to everything.
#[derive(Clone, Copy, Debug, PartialEq, Eq, Structural)]
pub enum LevelFilter {
    Off,
    Error,
    Warn,
    Info,
    Debug,
    Trace,
}

/// A span of time in whole seconds and a rest below one second.
#[derive(Clone, Copy, Debug, PartialEq, Eq, Structural)]
pub struct ConfigDuration {
    pub secs: u64,
    /// The rest in nanoseconds.
    pub nanos: u32,
}

#[derive(Clone, Debug, PartialEq, Eq)]
pub struct Config {
    pub data_storage: StorageConfig,
    pub webrtc: WebRtcConfig,
    pub web_server: WebServerConfig,
    pub moonlight: MoonlightConfig,
    pub streamer_path: String,
    pub log: LogConfig,
    /// The default settings of the browser client as JSON text.
    pub default_settings: Option<String>,
    pub discord: Option<DiscordConfig>,
}

impl Default for Config {
    fn default() -> (r: Self)
        ensures
            is_default_storage(r.data_storage),
            is_default_webrtc(r.webrtc),
            is_default_web_server(r.web_server),
            is_default_moonlight(r.moonlight),
            r.streamer_path@ == "./streamer"@,
            is_default_log(r.log),
            r.default_settings is None,
            r.discord is None,
    {
        Config {
            data_storage: StorageConfig::default(),
            streamer_path: default_streamer_path(),
            web_server: WebServerConfig::default(),
            moonlight: MoonlightConfig::default(),
            webrtc: WebRtcConfig::default(),
            log: LogConfig::default(),
            default_settings: None,
            discord: None,
        }
    }
}

#[derive(Clone, Debug, PartialEq, Eq)]
pub struct DiscordConfig {
    pub client_id: String,
    pub client_secret: String,
    /// Where the authorization comes back to; mostly the application's address.
    pub redirect_uri: Option<String>,
}

#[derive(Clone, Debug, PartialEq, Eq)]
pub struct LogConfig {
    pub level_filter: LevelFilter,
    pub file_path: Option<String>,
}

/// Whether `c` is the logging configuration that holds when none is given.
pub open spec fn is_default_log(c: LogConfig) -> bool {
    c.level_filter == LevelFilter::Info && c.file_path is None
}

impl Default for LogConfig {
    fn default() -> (r: Self)
        ensures
            is_default_log(r),
    {
        LogConfig { level_filter: default_level_filter(), file_path: None }
    }
}

pub fn default_level_filter() -> (r: LevelFilter)
    ensures
        r == LevelFilter::Info,
{
    LevelFilter::Info
}

#[derive(Clone, Debug, PartialEq, Eq)]
pub enum StorageConfig {
    Json { path: String, session_expiration_check_interval: ConfigDuration },
}

/// Whether `c` is the storage that holds when none is given: a JSON file at
/// its usual place, looked through for expired sessions every five minutes.
pub open spec fn is_default_storage(c: StorageConfig) -> bool {
    c matches StorageConfig::Json { path, session_expiration_check_interval }
        && path@ == "server/data.json"@ && session_expiration_check_interval == (ConfigDuration {
        secs: 300,
        nanos: 0,
    })
}

impl Default for StorageConfig {
    fn default() -> (r: Self)
        ensures
            is_default_storage(r),
    {
        StorageConfig::Json {
            path: "server/data.json".to_string(),
            session_expiration_check_interval: default_session_expiration_check_interval(),
        }
    }
}

/// Five minutes.
pub fn default_session_expiration_check_interval() -> (r: ConfigDuration)
    ensures
        r == (ConfigDuration { secs: 300, nanos: 0 }),
{
    ConfigDuration { secs: 300, nanos: 0 }
}

#[derive(Clone, Debug, PartialEq, Eq)]
pub struct WebRtcConfig {
    pub ice_servers: Vec<RtcIceServer>,
    pub port_range: Option<PortRange>,
    pub nat_1to1: Option<WebRtcNat1To1Mapping>,
    pub network_types: Vec<WebRtcNetworkType>,
    pub include_loopback_candidates: bool,
}

/// Whether `c` is the WebRTC configuration that holds when none is given.
pub open spec fn is_default_webrtc(c: WebRtcConfig) -> bool {
    &&& is_default_ice_servers(c.ice_servers@)
    &&& c.port_range is None
    &&& c.nat_1to1 is None
    &&& c.network_types@ == seq![WebRtcNetworkType::Udp4, WebRtcNetworkType::Udp6]
    &&& c.include_loopback_candidates
}

impl Default for WebRtcConfig {
    fn default() -> (r: Self)
        ensures
            is_default_webrtc(r),
    {
        WebRtcConfig {
            ice_servers: default_ice_servers(),
            port_range: None,
            nat_1to1: None,
            network_types: default_network_types(),
            include_loopback_candidates: default_include_loopback_candidates(),
        }
    }
}

#[derive(Clone, Copy, Debug, PartialEq, Eq, Structural)]
pub enum WebRtcNetworkType {
    Udp4,
    Udp6,
    Tcp4,
    Tcp6,
}

/// The error of reading a network type from a word that names none.
#[derive(Clone, Copy, Debug, PartialEq, Eq, Structural)]
pub struct WebRtcNetworkTypeFromStr;

#[derive(Clone, Debug, PartialEq, Eq)]
pub struct WebRtcNat1To1Mapping {
    pub ips: Vec<String>,
    pub ice_candidate_type: WebRtcNat1To1IceCandidateType,
}

#[derive(Clone, Copy, Debug, PartialEq, Eq, Structural)]
pub enum WebRtcNat1To1IceCandidateType {
    Srflx,
    Host,
}

#[derive(Clone, Copy, Debug, PartialEq, Eq, Structural)]
pub struct PortRange {
    pub min: u16,
    pub max: u16,
}

/// Why a text is no port range.
#[derive(Clone, Copy, Debug, PartialEq, Eq, Structural)]
pub enum PortRangeFromStrError {
    /// It holds no colon.
    Split,
    /// One side of the first colon is no port number.
    ParseNumber,
}

/// The addresses of the public STUN servers that are used by default.
pub open spec fn default_stun_urls() -> Seq<Seq<char>> {
    seq![
        "stun:stun.l.google.com:19302"@,
        "stun:stun.l.google.com:5349"@,
        "stun:stun1.l.google.com:3478"@,
        "stun:stun1.l.google.com:5349"@,
        "stun:stun2.l.google.com:19302"@,
        "stun:stun2.l.google.com:5349"@,
        "stun:stun3.l.google.com:3478"@,
        "stun:stun3.l.google.com:5349"@,
        "stun:stun4.l.google.com:19302"@,
        "stun:stun4.l.google.com:5349"@,
    ]
}

/// Whether `servers` is the one default entry: marked as default, without
/// credentials, with the addresses of `default_stun_urls` in that order.
pub open spec fn is_default_ice_servers(servers: Seq<RtcIceServer>) -> bool {
    &&& servers.len() == 1
    &&& servers[0].is_default
    &&& servers[0].username@ == Seq::<char>::empty()
    &&& servers[0].credential@ == Seq::<char>::empty()
    &&& servers[0].urls@.len() == default_stun_urls().len()
    &&& forall|i: int|
        0 <= i < default_stun_urls().len() ==> (#[trigger] servers[0].urls@[i])@
            == default_stun_urls()[i]
}

pub fn default_ice_servers() -> (r: Vec<RtcIceServer>)
    ensures
        is_default_ice_servers(r@),
{
    let mut urls: Vec<String> = Vec::new();
    urls.push("stun:stun.l.google.com:19302".to_string());
    urls.push("stun:stun.l.google.com:5349".to_string());
    urls.push("stun:stun1.l.google.com:3478".to_string());
    urls.push("stun:stun1.l.google.com:5349".to_string());
    urls.push("stun:stun2.l.google.com:19302".to_string());
    urls.push("stun:stun2.l.google.com:5349".to_string());
    urls.push("stun:stun3.l.google.com:3478".to_string());
    urls.push("stun:stun3.l.google.com:5349".to_string());
    urls.push("stun:stun4.l.google.com:19302".to_string());
    urls.push("stun:stun4.l.google.com:5349".to_string());
    let mut servers: Vec<RtcIceServer> = Vec::new();
    servers.push(
        RtcIceServer { is_default: true, urls, username: String::new(), credential: String::new() },
    );
    servers
}

pub fn default_network_types() -> (r: Vec<WebRtcNetworkType>)
    ensures
        r@ == seq![WebRtcNetworkType::Udp4, WebRtcNetworkType::Udp6],
{
    let mut types: Vec<WebRtcNetworkType> = Vec::new();
    types.push(WebRtcNetworkType::Udp4);
    types.push(WebRtcNetworkType::Udp6);
    types
}

pub fn default_include_loopback_candidates() -> (r: bool)
    ensures
        r,
{
    true
}

#[derive(Clone, Debug, PartialEq, Eq)]
pub struct WebServerConfig {
    /// The address and port to listen on, as `address:port`.
    pub bind_address: String,
    pub certificate: Option<ConfigSsl>,
    pub url_path_prefix: String,
    pub session_cookie_secure: bool,
    pub session_cookie_expiration: ConfigDuration,
    pub first_login_create_admin: bool,
    pub first_login_assign_global_hosts: bool,
    pub default_user_id: Option<u32>,
    pub forwarded_header: Option<ForwardedHeaders>,
}

#[derive(Clone, Debug, PartialEq, Eq)]
pub struct ConfigSsl {
    pub private_key_pem: String,
    pub certificate_pem: String,
}

/// Whether `c` is the web server configuration that holds when none is given.
pub open spec fn is_default_web_server(c: WebServerConfig) -> bool {
    &&& c.bind_address@ == "0.0.0.0:8080"@
    &&& c.certificate is None
    &&& c.url_path_prefix@ == Seq::<char>::empty()
    &&& !c.session_cookie_secure
    &&& c.session_cookie_expiration == (ConfigDuration { secs: 86400, nanos: 0 })
    &&& c.first_login_create_admin
    &&& c.first_login_assign_global_hosts
    &&& c.default_user_id is None
    &&& c.forwarded_header is None
}

impl Default for WebServerConfig {
    fn default() -> (r: Self)
        ensures
            is_default_web_server(r),
    {
        WebServerConfig {
            bind_address: default_bind_address(),
            certificate: None,
            url_path_prefix: String::new(),
            session_cookie_secure: default_session_cookie_secure(),
            session_cookie_expiration: default_session_cookie_expiration(),
            first_login_create_admin: true,
            first_login_assign_global_hosts: true,
            default_user_id: None,
            forwarded_header: None,
        }
    }
}

/// Every address of the machine, port 8080.
pub fn default_bind_address() -> (r: String)
    ensures
        r@ == "0.0.0.0:8080"@,
{
    "0.0.0.0:8080".to_string()
}

pub fn default_session_cookie_secure() -> (r: bool)
    ensures
        !r,
{
    false
}

/// One day.
pub fn default_session_cookie_expiration() -> (r: ConfigDuration)
    ensures
        r == (ConfigDuration { secs: 86400, nanos: 0 }),
{
    let day_seconds: u64 = 24 * 60 * 60;
    ConfigDuration { secs: day_seconds, nanos: 0 }
}

#[derive(Clone, Debug, PartialEq, Eq)]
pub struct ForwardedHeaders {
    pub username_header: String,
    pub auto_create_missing_user: bool,
}

impl Default for ForwardedHeaders {
    fn default() -> (r: Self)
        ensures
            r.username_header@ == "X-Forwarded-User"@,
            r.auto_create_missing_user,
    {
        ForwardedHeaders {
            username_header: "X-Forwarded-User".to_string(),
            auto_create_missing_user: default_forwarded_headers_auto_create_user(),
        }
    }
}

pub fn default_forwarded_headers_auto_create_user() -> (r: bool)
    ensures
        r,
{
    true
}

#[derive(Clone, Debug, PartialEq, Eq)]
pub struct MoonlightConfig {
    pub default_http_port: u16,
    pub pair_device_name: String,
}

/// Whether `c` is the streaming client's configuration that holds when none
/// is given.
pub open spec fn is_default_moonlight(c: MoonlightConfig) -> bool {
    c.default_http_port == 47989 && c.pair_device_name@ == "roth"@
}

impl Default for MoonlightConfig {
    fn default() -> (r: Self)
        ensures
            is_default_moonlight(r),
    {
        MoonlightConfig {
            default_http_port: default_moonlight_http_port(),
            pair_device_name: default_pair_device_name(),
        }
    }
}

pub fn default_moonlight_http_port() -> (r: u16)
    ensures
        r == 47989,
{
    47989
}

pub fn default_pair_device_name() -> (r: String)
    ensures
        r@ == "roth"@,
{
    "roth".to_string()
}

pub fn default_streamer_path() -> (r: String)
    ensures
        r@ == "./streamer"@,
{
    "./streamer".to_string()
}

impl WebRtcNetworkType {
    /// The word for the network type.
    pub open spec fn spec_name(self) -> Seq<char> {
        match self {
            WebRtcNetworkType::Udp4 => "udp4"@,
            WebRtcNetworkType::Udp6 => "udp6"@,
            WebRtcNetworkType::Tcp4 => "tcp4"@,
            WebRtcNetworkType::Tcp6 => "tcp6"@,
        }
    }

    /// The network type that a word names.
    pub open spec fn named(word: Seq<char>) -> Option<WebRtcNetworkType> {
        if word == "udp4"@ {
            Some(WebRtcNetworkType::Udp4)
        } else if word == "udp6"@ {
            Some(WebRtcNetworkType::Udp6)
        } else if word == "tcp4"@ {
            Some(WebRtcNetworkType::Tcp4)
        } else if word == "tcp6"@ {
            Some(WebRtcNetworkType::Tcp6)
        } else {
            None
        }
    }

    /// The word for the network type.
    pub fn name(&self) -> (r: &'static str)
        ensures
            r@ == self.spec_name(),
    {
        match self {
            WebRtcNetworkType::Udp4 => "udp4",
            WebRtcNetworkType::Udp6 => "udp6",
            WebRtcNetworkType::Tcp4 => "tcp4",
            WebRtcNetworkType::Tcp6 => "tcp6",
        }
    }

    /// Reads a network type from its word.
    pub fn parse(s: &str) -> (r: Result<WebRtcNetworkType, WebRtcNetworkTypeFromStr>)
        ensures
            r == (match WebRtcNetworkType::named(s@) {
                Some(ty) => Ok::<WebRtcNetworkType, WebRtcNetworkTypeFromStr>(ty),
                None => Err::<WebRtcNetworkType, WebRtcNetworkTypeFromStr>(WebRtcNetworkTypeFromStr),
            }),
    {
        let word = s.to_owned();
        if word == "udp4".to_string() {
            Ok(WebRtcNetworkType::Udp4)
        } else if word == "udp6".to_string() {
            Ok(WebRtcNetworkType::Udp6)
        } else if word == "tcp4".to_string() {
            Ok(WebRtcNetworkType::Tcp4)
        } else if word == "tcp6".to_string() {
            Ok(WebRtcNetworkType::Tcp6)
        } else {
            Err(WebRtcNetworkTypeFromStr)
        }
    }
}

impl std::str::FromStr for WebRtcNetworkType {
    type Err = WebRtcNetworkTypeFromStr;

    /// Reads a network type from its word: `udp4`, `udp6`, `tcp4` or `tcp6`.
    /// Every other text is refused.
    fn from_str(s: &str) -> (r: Result<Self, Self::Err>)
        ensures
            r == (match WebRtcNetworkType::named(s@) {
                Some(ty) => Ok::<WebRtcNetworkType, WebRtcNetworkTypeFromStr>(ty),
                None => Err::<WebRtcNetworkType, WebRtcNetworkTypeFromStr>(WebRtcNetworkTypeFromStr),
            }),
    {
        WebRtcNetworkType::parse(s)
    }
}

impl WebRtcNetworkTypeFromStr {
    /// What the error says.
    pub fn message(&self) -> (r: &'static str)
        ensures
            r@ == "not a valid network type"@,
    {
        "not a valid network type"
    }
}

/// The byte of the colon between the two ports of a range.
pub const COLON: u8 = 58;

/// Whether `byte` is a digit.
pub open spec fn is_digit(byte: u8) -> bool {
    48 <= byte <= 57
}

/// The number that the digits `digits` write in base ten.
pub open spec fn digits_value(digits: Seq<u8>) -> nat
    decreases digits.len(),
{
    if digits.len() == 0 {
        0
    } else {
        digits_value(digits.drop_last()) * 10 + (digits.last() - 48) as nat
    }
}

/// The digits of a number as it is written: what follows a plus sign at the
/// front, or all of it.
pub open spec fn unsigned_part(text: Seq<u8>) -> Seq<u8> {
    if text.len() > 0 && text[0] == 43 {
        text.subrange(1, text.len() as int)
    } else {
        text
    }
}

/// The port that `text` writes: digits, before which a plus sign may
/// stand, that write a number up to 65535. `None` for every other text.
pub open spec fn port_of(text: Seq<u8>) -> Option<u16> {
    let digits = unsigned_part(text);
    if digits.len() > 0 && (forall|i: int| 0 <= i < digits.len() ==> is_digit(#[trigger] digits[i]))
        && digits_value(digits) <= 65535 {
        Some(digits_value(digits) as u16)
    } else {
        None
    }
}

/// The place of the first colon of `text` from `from` on; the length of
/// `text` if there is none.
pub open spec fn colon_position(text: Seq<u8>, from: int) -> int
    decreases text.len() - from,
{
    if from < 0 || from >= text.len() {
        text.len() as int
    } else if text[from] == COLON {
        from
    } else {
        colon_position(text, from + 1)
    }
}

/// The range that `text` writes as `MIN:MAX`, or why it writes none. The
/// first colon parts the two ports.
pub open spec fn port_range_of(text: Seq<u8>) -> Result<PortRange, PortRangeFromStrError> {
    let colon = colon_position(text, 0);
    if colon >= text.len() {
        Err(PortRangeFromStrError::Split)
    } else {
        match (
            port_of(text.subrange(0, colon)),
            port_of(text.subrange(colon + 1, text.len() as int)),
        ) {
            (Some(min), Some(max)) => Ok(PortRange { min, max }),
            _ => Err(PortRangeFromStrError::ParseNumber),
        }
    }
}

/// More digits write no lower number.
proof fn lemma_digits_value_grows(digits: Seq<u8>, i: int)
    requires
        0 <= i <= digits.len(),
    ensures
        digits_value(digits.subrange(0, i)) <= digits_value(digits),
    decreases digits.len() - i,
{
    if i < digits.len() {
        lemma_digits_value_grows(digits, i + 1);
        let next = digits.subrange(0, i + 1);
        assert(next.drop_last() == digits.subrange(0, i));
    } else {
        assert(digits.subrange(0, i) == digits);
    }
}

/// Reads a port from bytes `from` to `to` of `text`.
fn parse_port(text: &[u8], from: usize, to: usize) -> (r: Option<u16>)
    requires
        from <= to <= text@.len(),
    ensures
        r == port_of(text@.subrange(from as int, to as int)),
{
    let ghost whole = text@.subrange(from as int, to as int);
    let start = if from < to && text[from] == 43 {
        from + 1
    } else {
        from
    };
    let ghost digits = unsigned_part(whole);
    assert(digits == text@.subrange(start as int, to as int));
    if start >= to {
        return None;
    }
    let mut value: u32 = 0;
    let mut i: usize = start;
    while i < to
        invariant
            start <= i <= to <= text@.len(),
            from <= start,
            digits == text@.subrange(start as int, to as int),
            digits == unsigned_part(text@.subrange(from as int, to as int)),
            forall|k: int| 0 <= k < i - start ==> is_digit(#[trigger] digits[k]),
            value == digits_value(digits.subrange(0, i - start)),
            value <= 65535,
        decreases to - i,
    {
        let byte = text[i];
        assert(byte == digits[i - start]);
        if byte < 48 || byte > 57 {
            assert(!is_digit(digits[i - start]));
            return None;
        }
        proof {
            let next = digits.subrange(0, i - start + 1);
            assert(next.drop_last() == digits.subrange(0, i - start));
            assert(next.last() == byte);
        }
        value = value * 10 + (byte - 48) as u32;
        if value > 65535 {
            proof {
                assert(value == digits_value(digits.subrange(0, i - start + 1)));
                lemma_digits_value_grows(digits, i - start + 1);
            }
            return None;
        }
        i += 1;
    }
    assert(digits.subrange(0, i - start) == digits);
    Some(value as u16)
}

impl PortRange {
    /// Reads a range of ports that is written as `MIN:MAX`.
    pub fn parse(s: &str) -> (r: Result<PortRange, PortRangeFromStrError>)
        ensures
            r == port_range_of(s.spec_bytes()),
    {
        let text = s.as_bytes();
        let mut colon: usize = 0;
        while colon < text.len() && text[colon] != COLON
            invariant
                colon <= text@.len(),
                colon_position(text@, 0) == colon_position(text@, colon as int),
            decreases text.len() - colon,
        {
            colon += 1;
        }
        if colon >= text.len() {
            return Err(PortRangeFromStrError::Split);
        }
        let min = parse_port(text, 0, colon);
        let max = parse_port(text, colon + 1, text.len());
        match (min, max) {
            (Some(min), Some(max)) => Ok(PortRange { min, max }),
            _ => Err(PortRangeFromStrError::ParseNumber),
        }
    }
}

impl std::str::FromStr for PortRange {
    type Err = PortRangeFromStrError;

    /// Reads a range of ports that is written as `MIN:MAX`: the range, or
    /// why the text writes none.
    fn from_str(s: &str) -> (r: Result<Self, Self::Err>)
        ensures
            r == port_range_of(s.spec_bytes()),
    {
        PortRange::parse(s)
    }
}

} // verus!
