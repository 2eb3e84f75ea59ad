//! What the command line decides: speed ranges, the proxy to use, and the
//! port to report, each from the options given and the configuration file.
use vstd::prelude::*;
use vstd::utf8::encode_utf8;

use crate::config::{law_proxy_types, proxy_config_spec, speed_range, ProxyToml, SpeedRangeConfig};
use crate::proxy::{ProxyConfig, ProxyModel};

use crate::strings::{
    char_lines_view, lemma_decimal_text, lemma_split_once, split_char, split_on, str_chars, str_eq, string_from_chars,
};
use crate::text::{ascii_chars, decimal, parse_unsigned, parse_unsigned_bytes};

verus! {

/// A decimal `u64`, or `default` when the text is not one.
pub open spec fn u64_or(s: Seq<char>, default: u64) -> int {
    match parse_unsigned(encode_utf8(s), u64::MAX as nat) {
        Some(v) => v as int,
        None => default as int,
    }
}

/// A speed range `min:max` in KB/s, in bytes per second; a part that is not
/// a number counts as `default`, and text that is not two parts gives
/// `default` for both.
pub open spec fn range_spec(s: Seq<char>, default: u64) -> (int, int) {
    let parts = split_on(s, ':');
    if parts.len() == 2 {
        (u64_or(parts[0], default) * 1024, u64_or(parts[1], default) * 1024)
    } else {
        (default * 1024, default * 1024)
    }
}

fn u64_or_default(s: &[char], default: u64) -> (r: u64)
    ensures
        r == u64_or(s@, default),
{
    let text = string_from_chars(s);
    match parse_unsigned_bytes(text.as_str().as_bytes(), u64::MAX) {
        Some(v) => v,
        None => default,
    }
}

/// Parses a speed range `min:max` given in KB/s into bytes per second (as
/// [`parse_range`]), or `None` when a speed does not fit in a `u64`.
pub fn checked_range(s: &str, default: u64) -> (r: Option<(u64, u64)>)
    ensures
        match r {
            Some(p) => (p.0 as int, p.1 as int) == range_spec(s@, default),
            None => range_spec(s@, default).0 > u64::MAX || range_spec(s@, default).1 > u64::MAX,
        },
{
    let c = str_chars(s);
    let parts = split_char(c.as_slice(), ':');
    let (min, max) = if parts.len() == 2 {
        assert(char_lines_view(parts@)[0] == parts@[0]@);
        assert(char_lines_view(parts@)[1] == parts@[1]@);
        (u64_or_default(parts[0].as_slice(), default), u64_or_default(parts[1].as_slice(), default))
    } else {
        (default, default)
    };
    if min > u64::MAX / 1024 || max > u64::MAX / 1024 {
        None
    } else {
        Some((min * 1024, max * 1024))
    }
}

/// The speed range of one direction (as [`speed_bounds`]), or `None` when a
/// speed in bytes per second does not fit in a `u64`.
pub fn checked_speed_bounds(range: Option<&str>, base: &SpeedRangeConfig, speed_kbs: u64) -> (r: Option<
    (u64, u64),
>)
    ensures
        ({
            let b = speed_bounds_spec(opt_view(range), *base, speed_kbs);
            match r {
                Some(p) => (p.0 as int, p.1 as int) == b,
                None => b.0 > u64::MAX || b.1 > u64::MAX,
            }
        }),
{
    match range {
        Some(s) => checked_range(s, speed_kbs),
        None => {
            let (min, max) = if base.random_enabled {
                (base.random_min, base.random_max)
            } else {
                (speed_kbs, speed_kbs)
            };
            if min > u64::MAX / 1024 || max > u64::MAX / 1024 {
                None
            } else {
                Some((min * 1024, max * 1024))
            }
        },
    }
}

/// Parses a speed range `min:max` given in KB/s into bytes per second.
pub fn parse_range(s: &str, default: u64) -> (r: (u64, u64))
    requires
        range_spec(s@, default).0 <= u64::MAX,
        range_spec(s@, default).1 <= u64::MAX,
    ensures
        (r.0 as int, r.1 as int) == range_spec(s@, default),
{
    let c = str_chars(s);
    let parts = split_char(c.as_slice(), ':');
    if parts.len() == 2 {
        assert(char_lines_view(parts@)[0] == parts@[0]@);
        assert(char_lines_view(parts@)[1] == parts@[1]@);
        let min = u64_or_default(parts[0].as_slice(), default);
        let max = u64_or_default(parts[1].as_slice(), default);
        (min * 1024, max * 1024)
    } else {
        (default * 1024, default * 1024)
    }
}

/// The proxy types the command line accepts: `socks4`, `socks4a`, `socks5`
/// and `http`.
pub open spec fn known_proxy_type_spec(t: Seq<char>) -> bool {
    t == "socks4"@ || t == "socks4a"@ || t == "socks5"@ || t == "http"@
}

/// Whether the command line accepts a proxy type.
pub fn known_proxy_type(t: &str) -> (r: bool)
    ensures
        r == known_proxy_type_spec(t@),
{
    str_eq(t, "socks4") || str_eq(t, "socks4a") || str_eq(t, "socks5") || str_eq(t, "http")
}

/// The speed range of one direction in bytes per second: the command
/// line's `MIN:MAX` range when one was given (in KB/s, with `speed_kbs` for
/// a part that is not a number), else what the configuration file gives.
pub open spec fn speed_bounds_spec(range: Option<Seq<char>>, base: SpeedRangeConfig, speed_kbs: u64) -> (
    int,
    int,
) {
    match range {
        Some(r) => range_spec(r, speed_kbs),
        None => speed_range(base, speed_kbs),
    }
}

/// The speed range of one direction in bytes per second, from the command
/// line's range (if any), the configuration file's random range and the
/// command line's fixed speed in KB/s.
pub fn speed_bounds(range: Option<&str>, base: &SpeedRangeConfig, speed_kbs: u64) -> (r: (u64, u64))
    requires
        speed_bounds_spec(
            match range {
                Some(s) => Some(s@),
                None => None,
            },
            *base,
            speed_kbs,
        ).0 <= u64::MAX,
        speed_bounds_spec(
            match range {
                Some(s) => Some(s@),
                None => None,
            },
            *base,
            speed_kbs,
        ).1 <= u64::MAX,
    ensures
        (r.0 as int, r.1 as int) == speed_bounds_spec(
            match range {
                Some(s) => Some(s@),
                None => None,
            },
            *base,
            speed_kbs,
        ),
{
    match range {
        Some(s) => parse_range(s, speed_kbs),
        None => if base.random_enabled {
            (base.random_min * 1024, base.random_max * 1024)
        } else {
            (speed_kbs * 1024, speed_kbs * 1024)
        },
    }
}

/// The port reported to the tracker: the one given, else 6881.
pub fn engine_config_port(port: Option<u16>) -> (r: u16)
    ensures
        r == match port {
            Some(p) => p,
            None => 6881u16,
        },
{
    match port {
        Some(p) => p,
        None => 6881,
    }
}

/// The proxy the command line asks for. With no proxy type given, the
/// configuration file's proxy; with a known type, that type with each
/// setting given on the command line, else the configuration file's; an
/// unknown type is refused, with the type in the error.
pub open spec fn cli_proxy_spec(
    proxy_type: Option<Seq<char>>,
    host: Option<Seq<char>>,
    port: Option<u16>,
    user: Option<Seq<char>>,
    pass: Option<Seq<char>>,
    base: ProxyToml,
) -> Result<ProxyModel, Seq<char>> {
    match proxy_type {
        None => Ok(
            proxy_config_spec(base.proxy_type@, base.host@, base.port, base.username@, base.password@),
        ),
        Some(t) => if known_proxy_type_spec(t) {
            Ok(
                proxy_config_spec(
                    t,
                    match host {
                        Some(h) => h,
                        None => base.host@,
                    },
                    match port {
                        Some(p) => p,
                        None => base.port,
                    },
                    match user {
                        Some(u) => u,
                        None => base.username@,
                    },
                    match pass {
                        Some(p) => p,
                        None => base.password@,
                    },
                ),
            )
        } else {
            Err(t)
        },
    }
}

/// On the command line, a proxy type names the protocol as in the
/// configuration file, and each setting given there wins over the file's:
/// `socks4`, `socks4a`, `socks5` and `http` with host, port and user given
/// yield a proxy of that protocol at that host and port for that user; a
/// setting left out is taken from the file; another type name is refused
/// with that name; and with no type the file's proxy stands.
pub proof fn law_cli_proxy(
    t: Seq<char>,
    host: Seq<char>,
    port: u16,
    user: Seq<char>,
    pass: Seq<char>,
    base: ProxyToml,
)
    ensures
        cli_proxy_spec(Some("socks4"@), Some(host), Some(port), Some(user), Some(pass), base) == Ok::<
            ProxyModel,
            Seq<char>,
        >(ProxyModel::Socks4 { host, port, user_id: user }),
        cli_proxy_spec(Some("socks4a"@), Some(host), Some(port), Some(user), Some(pass), base) == Ok::<
            ProxyModel,
            Seq<char>,
        >(ProxyModel::Socks4a { host, port, user_id: user }),
        cli_proxy_spec(Some("socks5"@), Some(host), Some(port), Some(user), Some(pass), base) matches Ok(
            m,
        ) && m is Socks5 && m->Socks5_host == host && m->Socks5_port == port,
        cli_proxy_spec(Some("http"@), Some(host), Some(port), Some(user), Some(pass), base) matches Ok(
            m,
        ) && m is HttpConnect && m->HttpConnect_host == host && m->HttpConnect_port == port,
        cli_proxy_spec(Some(t), None, None, None, None, base) == cli_proxy_spec(
            Some(t),
            Some(base.host@),
            Some(base.port),
            Some(base.username@),
            Some(base.password@),
            base,
        ),
        !known_proxy_type_spec(t) ==> cli_proxy_spec(Some(t), Some(host), Some(port), Some(user), Some(pass), base)
            == Err::<ProxyModel, Seq<char>>(t),
        cli_proxy_spec(None, Some(host), Some(port), Some(user), Some(pass), base) == Ok::<
            ProxyModel,
            Seq<char>,
        >(proxy_config_spec(base.proxy_type@, base.host@, base.port, base.username@, base.password@)),
{
    law_proxy_types(t, host, port, user, pass);
}

/// The decimal text of a number.
pub open spec fn decimal_chars(n: nat) -> Seq<char> {
    ascii_chars(decimal(n))
}

/// A speed range `MIN:MAX` of two numbers gives those numbers of KB/s in
/// bytes per second, in that order; a part that is not a number gives the
/// default speed, and so does text with no `:` for both.
pub proof fn law_speed_range(min: u64, max: u64, s: Seq<char>, default: u64)
    ensures
        range_spec(decimal_chars(min as nat) + ":"@ + decimal_chars(max as nat), default) == (
            min * 1024,
            max * 1024,
        ),
        (forall|j: int| 0 <= j < s.len() ==> s[j] != ':') ==> range_spec(s, default) == (
            default * 1024,
            default * 1024,
        ),
{
    reveal_strlit(":");
    lemma_decimal_text(min as nat, u64::MAX as nat);
    lemma_decimal_text(max as nat, u64::MAX as nat);
    let a = decimal_chars(min as nat);
    let b = decimal_chars(max as nat);
    lemma_split_once(a, b, ':');
    assert(a + ":"@ + b =~= a + seq![':'] + b);
    assert(u64_or(a, default) == min && u64_or(b, default) == max);
    if forall|j: int| 0 <= j < s.len() ==> s[j] != ':' {
        lemma_split_once(s, Seq::<char>::empty(), ':');
    }
}

/// The view of an optional string.
pub open spec fn opt_view(s: Option<&str>) -> Option<Seq<char>> {
    match s {
        Some(t) => Some(t@),
        None => None,
    }
}

fn text_or(s: Option<&str>, default: &String) -> (r: String)
    ensures
        r@ == match s {
            Some(t) => t@,
            None => default@,
        },
{
    match s {
        Some(t) => t.to_string(),
        None => default.clone(),
    }
}

/// Builds the proxy configuration from the command line's proxy options
/// and the configuration file's proxy section. An unknown proxy type is
/// returned as the error.
pub fn build_proxy_config(
    proxy_type: Option<&str>,
    host: Option<&str>,
    port: Option<u16>,
    user: Option<&str>,
    pass: Option<&str>,
    base: &ProxyToml,
) -> (r: Result<ProxyConfig, String>)
    ensures
        match (r, cli_proxy_spec(opt_view(proxy_type), opt_view(host), port, opt_view(user), opt_view(pass), *base)) {
            (Ok(c), Ok(m)) => c@ == m,
            (Err(e), Err(t)) => e@ == t,
            _ => false,
        },
{
    match proxy_type {
        None => Ok(base.to_proxy_config()),
        Some(t) => {
            if !known_proxy_type(t) {
                return Err(t.to_string());
            }
            let merged = ProxyToml {
                proxy_type: t.to_string(),
                host: text_or(host, &base.host),
                port: match port {
                    Some(p) => p,
                    None => base.port,
                },
                username: text_or(user, &base.username),
                password: text_or(pass, &base.password),
            };
            Ok(merged.to_proxy_config())
        },
    }
}

} // verus!
