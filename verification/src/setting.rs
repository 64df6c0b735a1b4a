//! Settings changes as the GUI command surface sees them: each updates one
//! configuration field and combines the persistence outcome with the outcome
//! of the OS-side follow-up (restarting the engine, re-applying proxy modes)
//! that the embedding program performs. `saved` reports whether the updated
//! snapshot was persisted; a follow-up is attempted only after a successful
//! save, so its outcome exists exactly then.

use vstd::prelude::*;

use crate::config;
use crate::config::Config;

verus! {

/// Change the application log level; the logging sink is re-initialised by
/// the embedding program afterwards.
pub fn set_app_log_level(config: &mut Config, value: &str, saved: bool) -> (r: bool)
    ensures
        final(config).app_log_level@ == value@,
        *final(config) == (Config {
            app_log_level: final(config).app_log_level,
            ..*old(config)
        }),
        r == saved,
{
    config::set_app_log_level(config, value);
    saved
}

/// Toggle the embedded web server; on success the embedding program starts
/// or stops it accordingly.
pub fn set_web_server_enable(config: &mut Config, value: bool, saved: bool) -> (r: bool)
    ensures
        *final(config) == (Config { web_server_enable: value, ..*old(config) }),
        r == saved,
{
    config::set_web_server_enable(config, value);
    saved
}

/// Change the web server host; when the server is enabled the embedding
/// program restarts it and re-applies the PAC mode, without affecting the
/// reported result.
pub fn set_web_server_host(config: &mut Config, value: &str, saved: bool) -> (r: bool)
    ensures
        final(config).web_server_host@ == value@,
        *final(config) == (Config {
            web_server_host: final(config).web_server_host,
            ..*old(config)
        }),
        r == saved,
{
    config::set_web_server_host(config, value);
    saved
}

/// Change the web server port; when the server is enabled the embedding
/// program restarts it and re-applies the PAC mode, without affecting the
/// reported result.
pub fn set_web_server_port(config: &mut Config, value: u32, saved: bool) -> (r: bool)
    ensures
        *final(config) == (Config { web_server_port: value, ..*old(config) }),
        r == saved,
{
    config::set_web_server_port(config, value);
    saved
}

/// Toggle the engine: on a successful save the embedding program either
/// starts the engine and sets up the proxy modes, or force-kills it and
/// disables them; `effects_ok` is that follow-up's outcome and exists exactly
/// when it was attempted.
pub fn set_ray_enable(config: &mut Config, value: bool, saved: bool, effects_ok: Option<bool>) -> (r:
    bool)
    requires
        (effects_ok is Some) == saved,
    ensures
        *final(config) == (Config { ray_enable: value, ..*old(config) }),
        r == (saved && effects_ok == Some(true)),
{
    config::set_ray_enable(config, value);
    match effects_ok {
        Some(ok) => saved && ok,
        None => false,
    }
}

/// Change the engine host; after a successful save the embedding program
/// re-applies every enabled proxy mode, and `effects_ok` reports that
/// outcome.
pub fn set_ray_host(config: &mut Config, value: &str, saved: bool, effects_ok: Option<bool>) -> (r:
    bool)
    requires
        (effects_ok is Some) == saved,
    ensures
        final(config).ray_host@ == value@,
        *final(config) == (Config { ray_host: final(config).ray_host, ..*old(config) }),
        r == (saved && effects_ok == Some(true)),
{
    config::set_ray_host(config, value);
    match effects_ok {
        Some(ok) => saved && ok,
        None => false,
    }
}

/// Change the engine SOCKS port; after a successful save the embedding
/// program re-applies the SOCKS (and PAC) modes, and `effects_ok` reports
/// that outcome.
pub fn set_ray_socks_port(config: &mut Config, value: u32, saved: bool, effects_ok: Option<bool>) -> (r:
    bool)
    requires
        (effects_ok is Some) == saved,
    ensures
        *final(config) == (Config { ray_socks_port: value, ..*old(config) }),
        r == (saved && effects_ok == Some(true)),
{
    config::set_ray_socks_port(config, value);
    match effects_ok {
        Some(ok) => saved && ok,
        None => false,
    }
}

/// Change the engine HTTP port; after a successful save the embedding
/// program re-applies the HTTP (and HTTPS) modes, and `effects_ok` reports
/// that outcome.
pub fn set_ray_http_port(config: &mut Config, value: u32, saved: bool, effects_ok: Option<bool>) -> (r:
    bool)
    requires
        (effects_ok is Some) == saved,
    ensures
        *final(config) == (Config { ray_http_port: value, ..*old(config) }),
        r == (saved && effects_ok == Some(true)),
{
    config::set_ray_http_port(config, value);
    match effects_ok {
        Some(ok) => saved && ok,
        None => false,
    }
}

/// Toggle the auto/PAC mode; after a successful save the embedding program
/// enables or disables it to match, and `effect_ok` reports that outcome.
pub fn set_auto_setup_pac(config: &mut Config, value: bool, saved: bool, effect_ok: Option<bool>) -> (r:
    bool)
    requires
        (effect_ok is Some) == saved,
    ensures
        *final(config) == (Config { auto_setup_pac: value, ..*old(config) }),
        r == (saved && effect_ok == Some(true)),
{
    config::set_auto_setup_pac(config, value);
    match effect_ok {
        Some(ok) => saved && ok,
        None => false,
    }
}

/// Toggle the SOCKS mode; after a successful save the embedding program
/// enables or disables it to match, and `effect_ok` reports that outcome.
pub fn set_auto_setup_socks(config: &mut Config, value: bool, saved: bool, effect_ok: Option<
    bool,
>) -> (r: bool)
    requires
        (effect_ok is Some) == saved,
    ensures
        *final(config) == (Config { auto_setup_socks: value, ..*old(config) }),
        r == (saved && effect_ok == Some(true)),
{
    config::set_auto_setup_socks(config, value);
    match effect_ok {
        Some(ok) => saved && ok,
        None => false,
    }
}

/// Toggle the HTTP mode; after a successful save the embedding program
/// enables or disables it to match, and `effect_ok` reports that outcome.
pub fn set_auto_setup_http(config: &mut Config, value: bool, saved: bool, effect_ok: Option<
    bool,
>) -> (r: bool)
    requires
        (effect_ok is Some) == saved,
    ensures
        *final(config) == (Config { auto_setup_http: value, ..*old(config) }),
        r == (saved && effect_ok == Some(true)),
{
    config::set_auto_setup_http(config, value);
    match effect_ok {
        Some(ok) => saved && ok,
        None => false,
    }
}

/// Toggle the HTTPS mode; after a successful save the embedding program
/// enables or disables it to match, and `effect_ok` reports that outcome.
pub fn set_auto_setup_https(config: &mut Config, value: bool, saved: bool, effect_ok: Option<
    bool,
>) -> (r: bool)
    requires
        (effect_ok is Some) == saved,
    ensures
        *final(config) == (Config { auto_setup_https: value, ..*old(config) }),
        r == (saved && effect_ok == Some(true)),
{
    config::set_auto_setup_https(config, value);
    match effect_ok {
        Some(ok) => saved && ok,
        None => false,
    }
}

} // verus!
