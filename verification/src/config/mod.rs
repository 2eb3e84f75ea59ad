//! Application configuration: its sections with their defaults, and the
//! conversions from the configuration file's sections to what the engine
//! and the proxy layer take. Reading and writing the file is done by the
//! application.
pub mod custom_profiles;
pub mod session;
pub mod version;

use vstd::prelude::*;
use vstd::string::StringSliceAdditionalSpecFns;

use crate::engine::speed::SpeedConfig;
use crate::proxy::{ProxyConfig, ProxyModel};
use crate::strings::str_eq;

verus! {

/// Top-level application configuration.
#[derive(Debug, Clone)]
pub struct AppConfig {
    /// General engine settings.
    pub general: GeneralConfig,
    /// Upload speed randomization.
    pub upload: SpeedRangeConfig,
    /// Download speed randomization.
    pub download: SpeedRangeConfig,
    /// Proxy settings.
    pub proxy: ProxyToml,
    /// Stop condition settings.
    pub stop: StopToml,
    /// UI preferences.
    pub ui: UiConfig,
}

/// General engine defaults.
#[derive(Debug, Clone)]
pub struct GeneralConfig {
    /// Default client profile name.
    pub default_client: String,
    /// Default upload speed in KB/s.
    pub default_upload_speed: u64,
    /// Default download speed in KB/s.
    pub default_download_speed: u64,
    /// Default announce interval in seconds.
    pub default_interval: u64,
    /// Whether to enable the TCP handshake listener.
    pub tcp_listener: bool,
    /// Whether to enable scrape requests.
    pub scrape_enabled: bool,
    /// Whether to ignore tracker failure reasons.
    pub ignore_failure_reason: bool,
}

/// Speed randomization range.
#[derive(Debug, Clone)]
pub struct SpeedRangeConfig {
    /// Whether random speed variation is enabled.
    pub random_enabled: bool,
    /// Minimum speed in KB/s.
    pub random_min: u64,
    /// Maximum speed in KB/s.
    pub random_max: u64,
}

/// Proxy configuration in TOML format.
#[derive(Debug, Clone)]
pub struct ProxyToml {
    /// Proxy type: "none", "socks4", "socks4a", "socks5", "http".
    pub proxy_type: String,
    /// Proxy host.
    pub host: String,
    /// Proxy port.
    pub port: u16,
    /// Proxy username (SOCKS5/HTTP).
    pub username: String,
    /// Proxy password (SOCKS5/HTTP).
    pub password: String,
}

/// Stop condition in TOML format.
#[derive(Debug, Clone)]
pub struct StopToml {
    /// Stop type: "never", "upload", "download", "time", "ratio".
    pub stop_type: String,
    /// Stop value (bytes, seconds, or ratio depending on type).
    pub value: u64,
}

/// UI preferences.
#[derive(Debug, Clone)]
pub struct UiConfig {
    /// Color theme.
    pub theme: String,
    /// Maximum log lines to retain.
    pub log_max_lines: usize,
}

impl Default for GeneralConfig {
    fn default() -> (r: Self)
        ensures
            r.default_client@ == "uTorrent 3.3.2"@,
            r.default_upload_speed == 100,
            r.default_download_speed == 0,
            r.default_interval == 1800,
            !r.tcp_listener,
            r.scrape_enabled,
            !r.ignore_failure_reason,
    {
        GeneralConfig {
            default_client: String::from_str("uTorrent 3.3.2"),
            default_upload_speed: 100,
            default_download_speed: 0,
            default_interval: 1800,
            tcp_listener: false,
            scrape_enabled: true,
            ignore_failure_reason: false,
        }
    }
}

impl Default for SpeedRangeConfig {
    fn default() -> (r: Self)
        ensures
            !r.random_enabled,
            r.random_min == 50,
            r.random_max == 150,
    {
        SpeedRangeConfig { random_enabled: false, random_min: 50, random_max: 150 }
    }
}

impl Default for ProxyToml {
    fn default() -> (r: Self)
        ensures
            r.proxy_type@ == "none"@,
            r.host@.len() == 0,
            r.port == 1080,
            r.username@.len() == 0,
            r.password@.len() == 0,
    {
        ProxyToml {
            proxy_type: String::from_str("none"),
            host: String::new(),
            port: 1080,
            username: String::new(),
            password: String::new(),
        }
    }
}

impl Default for StopToml {
    fn default() -> (r: Self)
        ensures
            r.stop_type@ == "never"@,
            r.value == 0,
    {
        StopToml { stop_type: String::from_str("never"), value: 0 }
    }
}

impl Default for UiConfig {
    fn default() -> (r: Self)
        ensures
            r.theme@ == "dark"@,
            r.log_max_lines == 1000,
    {
        UiConfig { theme: String::from_str("dark"), log_max_lines: 1000 }
    }
}

impl Default for AppConfig {
    fn default() -> (r: Self)
        ensures
            r.general.default_client@ == "uTorrent 3.3.2"@,
            r.general.default_upload_speed == 100,
            r.general.default_download_speed == 0,
            r.general.default_interval == 1800,
            !r.general.tcp_listener,
            r.general.scrape_enabled,
            !r.general.ignore_failure_reason,
            !r.upload.random_enabled && r.upload.random_min == 50 && r.upload.random_max == 150,
            !r.download.random_enabled && r.download.random_min == 50 && r.download.random_max
                == 150,
            r.proxy.proxy_type@ == "none"@ && r.proxy.host@.len() == 0 && r.proxy.port == 1080
                && r.proxy.username@.len() == 0 && r.proxy.password@.len() == 0,
            r.stop.stop_type@ == "never"@ && r.stop.value == 0,
            r.ui.theme@ == "dark"@ && r.ui.log_max_lines == 1000,
    {
        AppConfig {
            general: GeneralConfig::default(),
            upload: SpeedRangeConfig::default(),
            download: SpeedRangeConfig::default(),
            proxy: ProxyToml::default(),
            stop: StopToml::default(),
            ui: UiConfig::default(),
        }
    }
}

/// The proxy a configuration section names: by its type, `socks4`,
/// `socks4a`, `socks5` or `http` (the last two with credentials when a
/// username is given); any other type means a direct connection.
pub open spec fn proxy_config_spec(
    proxy_type: Seq<char>,
    host: Seq<char>,
    port: u16,
    username: Seq<char>,
    password: Seq<char>,
) -> ProxyModel {
    let credentials = if username.len() == 0 {
        None
    } else {
        Some((username, password))
    };
    if proxy_type == "socks4"@ {
        ProxyModel::Socks4 { host, port, user_id: username }
    } else if proxy_type == "socks4a"@ {
        ProxyModel::Socks4a { host, port, user_id: username }
    } else if proxy_type == "socks5"@ {
        ProxyModel::Socks5 { host, port, credentials }
    } else if proxy_type == "http"@ {
        ProxyModel::HttpConnect { host, port, credentials }
    } else {
        ProxyModel::Direct
    }
}

impl ProxyToml {
    /// Converts the TOML proxy config to a `ProxyConfig`.
    pub fn to_proxy_config(&self) -> (r: ProxyConfig)
        ensures
            r@ == proxy_config_spec(
                self.proxy_type@,
                self.host@,
                self.port,
                self.username@,
                self.password@,
            ),
    {
        let t = self.proxy_type.as_str();
        let has_user = !str_eq(self.username.as_str(), "");
        proof {
            reveal_strlit("");
            if self.username@.len() == 0 {
                assert(self.username@ =~= ""@);
            }
        }
        if str_eq(t, "socks4") {
            ProxyConfig::Socks4 {
                proxy_host: String::from_str(self.host.as_str()),
                proxy_port: self.port,
                user_id: String::from_str(self.username.as_str()),
            }
        } else if str_eq(t, "socks4a") {
            ProxyConfig::Socks4a {
                proxy_host: String::from_str(self.host.as_str()),
                proxy_port: self.port,
                user_id: String::from_str(self.username.as_str()),
            }
        } else if str_eq(t, "socks5") {
            ProxyConfig::Socks5 {
                proxy_host: String::from_str(self.host.as_str()),
                proxy_port: self.port,
                credentials: if has_user {
                    Some(
                        crate::proxy::socks5::Credentials {
                            username: String::from_str(self.username.as_str()),
                            password: String::from_str(self.password.as_str()),
                        },
                    )
                } else {
                    None
                },
            }
        } else if str_eq(t, "http") {
            ProxyConfig::HttpConnect {
                proxy_host: String::from_str(self.host.as_str()),
                proxy_port: self.port,
                credentials: if has_user {
                    Some(
                        crate::proxy::http::Credentials {
                            username: String::from_str(self.username.as_str()),
                            password: String::from_str(self.password.as_str()),
                        },
                    )
                } else {
                    None
                },
            }
        } else {
            ProxyConfig::Direct
        }
    }
}

/// Each proxy type name selects the proxy of that protocol, at the given
/// host and port: `socks4` and `socks4a` with the username as user ID,
/// `socks5` and `http` with credentials exactly when a username is given;
/// any other name means a direct connection.
pub proof fn law_proxy_types(
    proxy_type: Seq<char>,
    host: Seq<char>,
    port: u16,
    username: Seq<char>,
    password: Seq<char>,
)
    ensures
        proxy_config_spec("socks4"@, host, port, username, password) == (ProxyModel::Socks4 {
            host,
            port,
            user_id: username,
        }),
        proxy_config_spec("socks4a"@, host, port, username, password) == (ProxyModel::Socks4a {
            host,
            port,
            user_id: username,
        }),
        proxy_config_spec("socks5"@, host, port, username, password) matches ProxyModel::Socks5 {
            host: h,
            port: p,
            credentials: c,
        } && h == host && p == port && (c is None <==> username.len() == 0) && (c matches Some(
            (u, w),
        ) ==> u == username && w == password),
        proxy_config_spec("http"@, host, port, username, password) matches ProxyModel::HttpConnect {
            host: h,
            port: p,
            credentials: c,
        } && h == host && p == port && (c is None <==> username.len() == 0) && (c matches Some(
            (u, w),
        ) ==> u == username && w == password),
        proxy_type != "socks4"@ && proxy_type != "socks4a"@ && proxy_type != "socks5"@ && proxy_type
            != "http"@ ==> proxy_config_spec(proxy_type, host, port, username, password)
            is Direct,
{
    reveal_strlit("socks4");
    reveal_strlit("socks4a");
    reveal_strlit("socks5");
    reveal_strlit("http");
    // The four names differ in length, or in their last character.
    assert("socks4"@.len() == 6 && "socks4a"@.len() == 7 && "socks5"@.len() == 6 && "http"@.len() == 4);
    assert("socks4"@[5] != "socks5"@[5]);
}

/// A speed range in bytes per second: the random range when enabled, else
/// the fixed speed (both in KB/s).
pub open spec fn speed_range(range: SpeedRangeConfig, fixed_kbs: u64) -> (int, int) {
    if range.random_enabled {
        (range.random_min * 1024, range.random_max * 1024)
    } else {
        (fixed_kbs * 1024, fixed_kbs * 1024)
    }
}

impl AppConfig {
    /// The speed simulation settings of this configuration: upload and
    /// download ranges in bytes per second, and a variation of 10 KiB/s.
    pub fn speed_config(&self) -> (r: SpeedConfig)
        requires
            speed_range(self.upload, self.general.default_upload_speed).0 <= u64::MAX,
            speed_range(self.upload, self.general.default_upload_speed).1 <= u64::MAX,
            speed_range(self.download, self.general.default_download_speed).0 <= u64::MAX,
            speed_range(self.download, self.general.default_download_speed).1 <= u64::MAX,
        ensures
            (r.upload_min as int, r.upload_max as int) == speed_range(
                self.upload,
                self.general.default_upload_speed,
            ),
            (r.download_min as int, r.download_max as int) == speed_range(
                self.download,
                self.general.default_download_speed,
            ),
            r.variation == 10 * 1024,
    {
        let upload_kbs = self.general.default_upload_speed;
        let download_kbs = self.general.default_download_speed;
        let (upload_min, upload_max) = if self.upload.random_enabled {
            (self.upload.random_min * 1024, self.upload.random_max * 1024)
        } else {
            (upload_kbs * 1024, upload_kbs * 1024)
        };
        let (download_min, download_max) = if self.download.random_enabled {
            (self.download.random_min * 1024, self.download.random_max * 1024)
        } else {
            (download_kbs * 1024, download_kbs * 1024)
        };
        SpeedConfig { upload_min, upload_max, download_min, download_max, variation: 10 * 1024 }
    }
}

impl AppConfig {
    /// The speed simulation settings of this configuration (as
    /// [`AppConfig::speed_config`]), or `None` when a speed in bytes per
    /// second does not fit in a `u64`.
    pub fn checked_speed_config(&self) -> (r: Option<SpeedConfig>)
        ensures
            ({
                let up = speed_range(self.upload, self.general.default_upload_speed);
                let down = speed_range(self.download, self.general.default_download_speed);
                let fits = up.0 <= u64::MAX && up.1 <= u64::MAX && down.0 <= u64::MAX && down.1
                    <= u64::MAX;
                match r {
                    Some(c) => fits && (c.upload_min as int, c.upload_max as int) == up && (
                    c.download_min as int, c.download_max as int) == down && c.variation == 10
                        * 1024,
                    None => !fits,
                }
            }),
    {
        let up = if self.upload.random_enabled {
            (self.upload.random_min, self.upload.random_max)
        } else {
            (self.general.default_upload_speed, self.general.default_upload_speed)
        };
        let down = if self.download.random_enabled {
            (self.download.random_min, self.download.random_max)
        } else {
            (self.general.default_download_speed, self.general.default_download_speed)
        };
        if up.0 > u64::MAX / 1024 || up.1 > u64::MAX / 1024 || down.0 > u64::MAX / 1024 || down.1
            > u64::MAX / 1024 {
            return None;
        }
        Some(self.speed_config())
    }
}

/// An ASCII letter or digit.
pub open spec fn ascii_alnum(c: char) -> bool {
    ('0' <= c && c <= '9') || ('a' <= c && c <= 'z') || ('A' <= c && c <= 'Z')
}

/// A file or directory name that a path join appends unchanged on every
/// platform: it starts with an ASCII letter or digit and holds only ASCII
/// letters, digits, `.`, `-` and `_`.
pub open spec fn plain_name(s: Seq<char>) -> bool {
    &&& s.len() > 0
    &&& ascii_alnum(s[0])
    &&& forall|i: int|
        0 <= i < s.len() ==> ascii_alnum(#[trigger] s[i]) || s[i] == '.' || s[i] == '-' || s[i]
            == '_'
}

/// A path separator of one of the platforms (`/`, or `\\` on Windows).
pub open spec fn is_separator(c: char) -> bool {
    c == '/' || c == '\\'
}

/// A Windows verbatim path (`\\?\...`), which a join normalizes.
pub open spec fn verbatim(b: Seq<char>) -> bool {
    b.len() >= 4 && b[0] == '\\' && b[1] == '\\' && b[2] == '?' && b[3] == '\\'
}

/// `r` is the non-empty path `base` extended with the relative name `name`:
/// it ends with `name` and is longer than it; and unless `base` is a
/// verbatim path, `r` is `base`, then at most one separator, then `name`,
/// with exactly one separator when `base` does not already end with a
/// separator or a drive's `:`.
pub open spec fn joined_path(base: Seq<char>, name: Seq<char>, r: Seq<char>) -> bool {
    &&& name.is_suffix_of(r)
    &&& r.len() > name.len()
    &&& !verbatim(base) ==> {
        &&& base.is_prefix_of(r)
        &&& base.len() + name.len() <= r.len() <= base.len() + 1 + name.len()
        &&& r.len() == base.len() + 1 + name.len() ==> is_separator(r[base.len() as int])
        &&& (!is_separator(base.last()) && base.last() != ':') ==> r.len() == base.len() + 1
            + name.len()
    }
}

/// A configuration directory: `ratiomaster` joined to some non-empty base
/// directory.
pub open spec fn is_config_dir(r: Seq<char>) -> bool {
    exists|b: Seq<char>| #![trigger joined_path(b, "ratiomaster"@, r)] b.len() > 0 && joined_path(b, "ratiomaster"@, r)
}

/// `name` joined to a configuration directory.
pub open spec fn in_config_dir(name: Seq<char>, r: Seq<char>) -> bool {
    exists|d: Seq<char>| #![trigger joined_path(d, name, r)] is_config_dir(d) && joined_path(d, name, r)
}

/// The user's configuration directory as `dirs::config_dir` finds it, as a
/// string. What it is depends on the platform and the environment; the
/// directories the `dirs` documentation lists are all absolute, so a
/// directory it gives is not empty.
#[verifier::external_body]
pub(crate) fn platform_config_dir() -> (r: Option<String>)
    ensures
        r matches Some(d) ==> d@.len() > 0,
{
    match dirs::config_dir() {
        Some(p) => Some(p.to_string_lossy().into_owned()),
        None => None,
    }
}

/// `base` joined with `name` by `std::path::Path::join`, as a string. What
/// is stated is what the documentation of `PathBuf::push` gives for a plain
/// relative name pushed onto a non-empty path: the path is extended by the
/// platform's separator, where one is needed, and the name (see
/// [`joined_path`]). The separator itself depends on the platform, and a
/// verbatim Windows base is normalized, so of it only the end is stated.
#[verifier::external_body]
pub(crate) fn join_path(base: &str, name: &str) -> (r: String)
    ensures
        plain_name(name@) && base@.len() > 0 ==> joined_path(base@, name@, r@),
{
    std::path::Path::new(base).join(name).to_string_lossy().into_owned()
}

/// The configuration directory under a given platform directory:
/// `ratiomaster` joined to it, or to `.` where there is none.
pub fn config_dir_under(platform: Option<String>) -> (r: String)
    requires
        platform matches Some(d) ==> d@.len() > 0,
    ensures
        joined_path(
            match platform {
                Some(d) => d@,
                None => "."@,
            },
            "ratiomaster"@,
            r@,
        ),
{
    let base = match platform {
        Some(d) => d,
        None => String::from_str("."),
    };
    proof {
        reveal_strlit("ratiomaster");
        reveal_strlit(".");
    }
    join_path(&base, "ratiomaster")
}

/// Returns the configuration directory: `ratiomaster` under the platform's
/// configuration directory, or under `.` where the platform has none.
pub fn config_dir() -> (r: String)
    ensures
        is_config_dir(r@),
{
    let platform = platform_config_dir();
    let ghost base = match &platform {
        Some(d) => d@,
        None => "."@,
    };
    proof {
        reveal_strlit(".");
    }
    let r = config_dir_under(platform);
    assert(base.len() > 0 && joined_path(base, "ratiomaster"@, r@));
    r
}

/// `name` joined to the configuration directory `dir`.
pub(crate) fn in_dir(dir: &String, name: &str) -> (r: String)
    requires
        is_config_dir(dir@),
        plain_name(name@),
    ensures
        in_config_dir(name@, r@),
{
    proof {
        reveal_strlit("ratiomaster");
    }
    let r = join_path(dir.as_str(), name);
    assert(joined_path(dir@, name@, r@));
    r
}

/// Returns the path of the main configuration file, `config.toml` in the
/// configuration directory.
pub fn config_file_path() -> (r: String)
    ensures
        in_config_dir("config.toml"@, r@),
{
    let dir = config_dir();
    proof {
        reveal_strlit("config.toml");
    }
    in_dir(&dir, "config.toml")
}

/// Configuration errors, each with the message of what went wrong.
#[derive(Debug)]
pub enum ConfigError {
    /// Reading or writing a file failed.
    Io(String),
    /// A TOML file could not be parsed.
    Parse(String),
    /// A value could not be written as TOML.
    Serialize(String),
    /// A JSON file could not be read or written.
    Json(String),
}

/// The description of a configuration error.
pub open spec fn config_message(e: ConfigError) -> Seq<char> {
    match e {
        ConfigError::Io(s) => "io error: "@ + s@,
        ConfigError::Parse(s) => "toml parse error: "@ + s@,
        ConfigError::Serialize(s) => "toml serialize error: "@ + s@,
        ConfigError::Json(s) => "json error: "@ + s@,
    }
}

impl ConfigError {
    /// The human-readable description of the error.
    pub fn message(&self) -> (r: String)
        ensures
            r@ == config_message(*self),
    {
        match self {
            ConfigError::Io(s) => String::from_str("io error: ").concat(s.as_str()),
            ConfigError::Parse(s) => String::from_str("toml parse error: ").concat(s.as_str()),
            ConfigError::Serialize(s) => String::from_str("toml serialize error: ").concat(
                s.as_str(),
            ),
            ConfigError::Json(s) => String::from_str("json error: ").concat(s.as_str()),
        }
    }
}

} // verus!
