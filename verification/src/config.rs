//! Desired-state configuration: the snapshot every operation reads, and the
//! in-memory updates behind each settings change. Persistence of the snapshot
//! is the embedding program's job; each setter mutates the snapshot exactly
//! as stated and the caller reports whether the save succeeded.

use vstd::prelude::*;

use crate::dirs::{join_path, joined};

verus! {

/// Application configuration snapshot.
pub struct Config {
    pub app_log_level: String,
    pub web_server_enable: bool,
    pub web_server_host: String,
    pub web_server_port: u32,
    pub ray_enable: bool,
    pub ray_host: String,
    pub ray_socks_port: u32,
    pub ray_http_port: u32,
    pub auto_setup_pac: bool,
    pub auto_setup_socks: bool,
    pub auto_setup_http: bool,
    pub auto_setup_https: bool,
}

/// The field values of the configuration used before any file has been
/// loaded.
pub open spec fn is_default_config(c: Config) -> bool {
    &&& c.app_log_level@ == "info"@
    &&& c.web_server_enable == true
    &&& c.web_server_host@ == "127.0.0.1"@
    &&& c.web_server_port == 18687
    &&& c.ray_enable == false
    &&& c.ray_host@ == "127.0.0.1"@
    &&& c.ray_socks_port == 1086
    &&& c.ray_http_port == 1089
    &&& c.auto_setup_pac == false
    &&& c.auto_setup_socks == true
    &&& c.auto_setup_http == false
    &&& c.auto_setup_https == false
}

impl Default for Config {
    /// The configuration used before any file has been loaded.
    fn default() -> (c: Config)
        ensures
            is_default_config(c),
    {
        Config {
            app_log_level: "info".to_owned(),
            web_server_enable: true,
            web_server_host: "127.0.0.1".to_owned(),
            web_server_port: 18687,
            ray_enable: false,
            ray_host: "127.0.0.1".to_owned(),
            ray_socks_port: 1086,
            ray_http_port: 1089,
            auto_setup_pac: false,
            auto_setup_socks: true,
            auto_setup_http: false,
            auto_setup_https: false,
        }
    }
}

/// Initial configuration: the loaded file when one parsed, else the default.
pub fn init(loaded: Option<Config>) -> (c: Config)
    ensures
        loaded is Some ==> c == loaded->0,
        loaded is None ==> is_default_config(c),
{
    match loaded {
        Some(c) => c,
        None => Config::default(),
    }
}

/// A copy of the current snapshot.
pub fn get_config(config: &Config) -> (c: Config)
    ensures
        c == *config,
{
    Config {
        app_log_level: config.app_log_level.clone(),
        web_server_enable: config.web_server_enable,
        web_server_host: config.web_server_host.clone(),
        web_server_port: config.web_server_port,
        ray_enable: config.ray_enable,
        ray_host: config.ray_host.clone(),
        ray_socks_port: config.ray_socks_port,
        ray_http_port: config.ray_http_port,
        auto_setup_pac: config.auto_setup_pac,
        auto_setup_socks: config.auto_setup_socks,
        auto_setup_http: config.auto_setup_http,
        auto_setup_https: config.auto_setup_https,
    }
}

pub fn set_app_log_level(config: &mut Config, value: &str)
    ensures
        final(config).app_log_level@ == value@,
        *final(config) == (Config { app_log_level: final(config).app_log_level, ..*old(config) }),
{
    config.app_log_level = value.to_owned();
}

pub fn set_web_server_enable(config: &mut Config, value: bool)
    ensures
        *final(config) == (Config { web_server_enable: value, ..*old(config) }),
{
    config.web_server_enable = value;
}

pub fn set_web_server_host(config: &mut Config, value: &str)
    ensures
        final(config).web_server_host@ == value@,
        *final(config) == (Config { web_server_host: final(config).web_server_host, ..*old(config) }),
{
    config.web_server_host = value.to_owned();
}

pub fn set_web_server_port(config: &mut Config, value: u32)
    ensures
        *final(config) == (Config { web_server_port: value, ..*old(config) }),
{
    config.web_server_port = value;
}

pub fn set_ray_enable(config: &mut Config, value: bool)
    ensures
        *final(config) == (Config { ray_enable: value, ..*old(config) }),
{
    config.ray_enable = value;
}

pub fn set_ray_host(config: &mut Config, value: &str)
    ensures
        final(config).ray_host@ == value@,
        *final(config) == (Config { ray_host: final(config).ray_host, ..*old(config) }),
{
    config.ray_host = value.to_owned();
}

pub fn set_ray_socks_port(config: &mut Config, value: u32)
    ensures
        *final(config) == (Config { ray_socks_port: value, ..*old(config) }),
{
    config.ray_socks_port = value;
}

pub fn set_ray_http_port(config: &mut Config, value: u32)
    ensures
        *final(config) == (Config { ray_http_port: value, ..*old(config) }),
{
    config.ray_http_port = value;
}

pub fn set_auto_setup_pac(config: &mut Config, value: bool)
    ensures
        *final(config) == (Config { auto_setup_pac: value, ..*old(config) }),
{
    config.auto_setup_pac = value;
}

pub fn set_auto_setup_socks(config: &mut Config, value: bool)
    ensures
        *final(config) == (Config { auto_setup_socks: value, ..*old(config) }),
{
    config.auto_setup_socks = value;
}

pub fn set_auto_setup_http(config: &mut Config, value: bool)
    ensures
        *final(config) == (Config { auto_setup_http: value, ..*old(config) }),
{
    config.auto_setup_http = value;
}

pub fn set_auto_setup_https(config: &mut Config, value: bool)
    ensures
        *final(config) == (Config { auto_setup_https: value, ..*old(config) }),
{
    config.auto_setup_https = value;
}

/// The configuration files a caller may read or write by name.
pub open spec fn allowed_conf_file(name: Seq<char>) -> bool {
    ||| name == "ray_common_config.json"@
    ||| name == "server.json"@
    ||| name == "subscription.json"@
    ||| name == "rule_config.json"@
    ||| name == "rule_domain.json"@
    ||| name == "rule_mode_list.json"@
    ||| name == "dns_config.json"@
    ||| name == "dns_mode_list.json"@
    ||| name == "dns_table_list.json"@
    ||| name == "speed_test_config.json"@
}

/// Path of a named configuration file under `conf_dir`, or a descriptive
/// error when the name is not an allowed configuration file.
pub fn get_conf_path(conf_dir: &str, filename: &str) -> (r: Result<String, String>)
    ensures
        allowed_conf_file(filename@) <==> r is Ok,
        r is Ok ==> r->Ok_0@ == joined(conf_dir@, filename@),
        r is Err ==> r->Err_0@ == "Filename '"@ + filename@ + "' is not allowed"@,
{
    let allowed = crate::strutil::str_eq(filename, "ray_common_config.json")
        || crate::strutil::str_eq(filename, "server.json")
        || crate::strutil::str_eq(filename, "subscription.json")
        || crate::strutil::str_eq(filename, "rule_config.json")
        || crate::strutil::str_eq(filename, "rule_domain.json")
        || crate::strutil::str_eq(filename, "rule_mode_list.json")
        || crate::strutil::str_eq(filename, "dns_config.json")
        || crate::strutil::str_eq(filename, "dns_mode_list.json")
        || crate::strutil::str_eq(filename, "dns_table_list.json")
        || crate::strutil::str_eq(filename, "speed_test_config.json");
    if allowed {
        Ok(join_path(conf_dir, filename))
    } else {
        let mut msg = "Filename '".to_owned();
        msg.append(filename);
        msg.append("' is not allowed");
        Err(msg)
    }
}

/// A character allowed in a speed-test configuration filename: ASCII letters,
/// digits, `_`, `.` and `-`.
pub open spec fn speed_test_filename_char(c: char) -> bool {
    ||| ('a' <= c && c <= 'z')
    ||| ('A' <= c && c <= 'Z')
    ||| ('0' <= c && c <= '9')
    ||| c == '_'
    ||| c == '.'
    ||| c == '-'
}

/// A speed-test configuration filename is non-empty and made of allowed
/// characters only; anything else is rejected before any file is touched.
/// The class is deliberately the ASCII word characters plus `.` and `-`:
/// these names are generated by the application itself and never leave that
/// alphabet, and a fixed ASCII class keeps the accepted set exactly stated
/// rather than resting on a Unicode word-character table.
pub open spec fn valid_speed_test_filename(name: Seq<char>) -> bool {
    name.len() > 0 && forall|i: int| 0 <= i < name.len() ==> speed_test_filename_char(name[i])
}

/// Filename check for speed-test configuration files.
pub fn speed_test_filename_ok(name: &str) -> (r: bool)
    ensures
        r == valid_speed_test_filename(name@),
{
    let len = name.unicode_len();
    if len == 0 {
        return false;
    }
    let mut i: usize = 0;
    while i < len
        invariant
            len == name@.len(),
            i <= len,
            forall|j: int| 0 <= j < i ==> speed_test_filename_char(name@[j]),
        decreases len - i,
    {
        let c = name.get_char(i);
        let ok = ('a' <= c && c <= 'z') || ('A' <= c && c <= 'Z') || ('0' <= c && c <= '9') || c
            == '_' || c == '.' || c == '-';
        if !ok {
            return false;
        }
        i = i + 1;
    }
    true
}

} // verus!
