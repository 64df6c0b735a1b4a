//! Windows proxy-setting backend. Every change is a discrete `reg` write to
//! the current user's Internet Settings key; after the writes of an operation
//! succeed, the OS must be notified of the settings change (two notification
//! flags, performed by the embedding program through the WinINet API) or
//! running applications will not observe the new proxy settings.

use vstd::prelude::*;

use crate::config::Config;
use crate::network::{cmd_is, Cmd, OsOp};
use crate::strutil::{dec_seq, u32_to_string};

verus! {

/// The current user's Internet Settings registry key.
pub open spec fn win_settings_key() -> Seq<char> {
    "HKCU\\Software\\Microsoft\\Windows\\CurrentVersion\\Internet Settings"@
}

/// Arguments of a `reg add` writing a string value under the settings key.
pub open spec fn reg_add_sz_args(name: Seq<char>, value: Seq<char>) -> Seq<Seq<char>> {
    seq!["add"@, win_settings_key(), "/v"@, name, "/t"@, "REG_SZ"@, "/d"@, value, "/f"@]
}

/// Arguments of a `reg add` writing a DWORD value under the settings key.
pub open spec fn reg_add_dword_args(name: Seq<char>, value: Seq<char>) -> Seq<Seq<char>> {
    seq!["add"@, win_settings_key(), "/v"@, name, "/t"@, "REG_DWORD"@, "/d"@, value, "/f"@]
}

/// Arguments of a `reg delete` removing a value under the settings key.
pub open spec fn reg_delete_args(name: Seq<char>) -> Seq<Seq<char>> {
    seq!["delete"@, win_settings_key(), "/v"@, name, "/f"@]
}

/// The operation runs the given `reg` invocations and then notifies the OS of
/// the settings change.
pub open spec fn reg_plan(op: OsOp, cmds: Seq<Seq<Seq<char>>>) -> bool {
    &&& op.notify_after == true
    &&& op.commands@.len() == cmds.len()
    &&& forall|i: int| 0 <= i < cmds.len() ==> cmd_is(#[trigger] op.commands@[i], "reg"@, cmds[i])
}

fn settings_key() -> (r: String)
    ensures
        r@ == win_settings_key(),
{
    "HKCU\\Software\\Microsoft\\Windows\\CurrentVersion\\Internet Settings".to_owned()
}

fn reg_add_sz(name: &str, value: String) -> (c: Cmd)
    ensures
        cmd_is(c, "reg"@, reg_add_sz_args(name@, value@)),
{
    let mut args: Vec<String> = Vec::new();
    args.push("add".to_owned());
    args.push(settings_key());
    args.push("/v".to_owned());
    args.push(name.to_owned());
    args.push("/t".to_owned());
    args.push("REG_SZ".to_owned());
    args.push("/d".to_owned());
    args.push(value);
    args.push("/f".to_owned());
    let c = Cmd { program: "reg".to_owned(), args };
    proof {
        assert(c.args.deep_view() =~= reg_add_sz_args(name@, c.args@[7]@));
    }
    c
}

fn reg_add_dword(name: &str, value: &str) -> (c: Cmd)
    ensures
        cmd_is(c, "reg"@, reg_add_dword_args(name@, value@)),
{
    let mut args: Vec<String> = Vec::new();
    args.push("add".to_owned());
    args.push(settings_key());
    args.push("/v".to_owned());
    args.push(name.to_owned());
    args.push("/t".to_owned());
    args.push("REG_DWORD".to_owned());
    args.push("/d".to_owned());
    args.push(value.to_owned());
    args.push("/f".to_owned());
    let c = Cmd { program: "reg".to_owned(), args };
    proof {
        assert(c.args.deep_view() =~= reg_add_dword_args(name@, value@));
    }
    c
}

fn reg_delete(name: &str) -> (c: Cmd)
    ensures
        cmd_is(c, "reg"@, reg_delete_args(name@)),
{
    let mut args: Vec<String> = Vec::new();
    args.push("delete".to_owned());
    args.push(settings_key());
    args.push("/v".to_owned());
    args.push(name.to_owned());
    args.push("/f".to_owned());
    let c = Cmd { program: "reg".to_owned(), args };
    proof {
        assert(c.args.deep_view() =~= reg_delete_args(name@));
    }
    c
}

/// URL of the served proxy auto-configuration script used on Windows.
pub open spec fn win_pac_url(config: Config) -> Seq<char> {
    "http://"@ + config.web_server_host@ + ":"@ + dec_seq(config.web_server_port as int)
        + "/proxy.pac"@
}

pub open spec fn enable_auto_proxy_cmds(config: Config) -> Seq<Seq<Seq<char>>> {
    seq![
        reg_add_sz_args("AutoConfigURL"@, win_pac_url(config)),
        reg_add_dword_args("ProxyEnable"@, "0"@),
    ]
}

/// Point Windows at the served PAC script and clear the manual-proxy flag.
pub fn enable_auto_proxy(config: &Config) -> (r: OsOp)
    ensures
        reg_plan(r, enable_auto_proxy_cmds(*config)),
{
    let mut url = "http://".to_owned();
    url.append(config.web_server_host.as_str());
    url.append(":");
    url.append(u32_to_string(config.web_server_port).as_str());
    url.append("/proxy.pac");
    proof {
        assert(url@ =~= win_pac_url(*config));
    }
    let mut commands: Vec<Cmd> = Vec::new();
    commands.push(reg_add_sz("AutoConfigURL", url));
    commands.push(reg_add_dword("ProxyEnable", "0"));
    OsOp { commands, notify_after: true }
}

pub open spec fn enable_proxy_cmds(host: Seq<char>, port: int) -> Seq<Seq<Seq<char>>> {
    seq![
        reg_add_sz_args("ProxyServer"@, host + ":"@ + dec_seq(port)),
        reg_add_dword_args("ProxyEnable"@, "1"@),
    ]
}

/// Set the manual proxy server to `host:port` and set the manual-proxy flag.
pub fn enable_proxy(host: &str, port: u32) -> (r: OsOp)
    ensures
        reg_plan(r, enable_proxy_cmds(host@, port as int)),
{
    let mut server = host.to_owned();
    server.append(":");
    server.append(u32_to_string(port).as_str());
    proof {
        assert(server@ =~= host@ + ":"@ + dec_seq(port as int));
    }
    let mut commands: Vec<Cmd> = Vec::new();
    commands.push(reg_add_sz("ProxyServer", server));
    commands.push(reg_add_dword("ProxyEnable", "1"));
    OsOp { commands, notify_after: true }
}

/// Route through the engine's SOCKS port as the manual proxy server.
pub fn enable_socks_proxy(config: &Config) -> (r: OsOp)
    ensures
        reg_plan(r, enable_proxy_cmds(config.ray_host@, config.ray_socks_port as int)),
{
    enable_proxy(config.ray_host.as_str(), config.ray_socks_port)
}

/// Route through the engine's HTTP port as the manual proxy server.
pub fn enable_web_proxy(config: &Config) -> (r: OsOp)
    ensures
        reg_plan(r, enable_proxy_cmds(config.ray_host@, config.ray_http_port as int)),
{
    enable_proxy(config.ray_host.as_str(), config.ray_http_port)
}

/// Route through the engine's HTTP port as the manual proxy server; Windows
/// keeps no separate secure-proxy setting.
pub fn enable_secure_web_proxy(config: &Config) -> (r: OsOp)
    ensures
        reg_plan(r, enable_proxy_cmds(config.ray_host@, config.ray_http_port as int)),
{
    enable_proxy(config.ray_host.as_str(), config.ray_http_port)
}

pub open spec fn disable_auto_proxy_cmds() -> Seq<Seq<Seq<char>>> {
    seq![
        reg_delete_args("AutoConfigURL"@),
        reg_add_dword_args("ProxyEnable"@, "0"@),
    ]
}

/// Remove the PAC URL and clear the manual-proxy flag.
pub fn disable_auto_proxy() -> (r: OsOp)
    ensures
        reg_plan(r, disable_auto_proxy_cmds()),
{
    let mut commands: Vec<Cmd> = Vec::new();
    commands.push(reg_delete("AutoConfigURL"));
    commands.push(reg_add_dword("ProxyEnable", "0"));
    OsOp { commands, notify_after: true }
}

pub open spec fn disable_proxies_cmds() -> Seq<Seq<Seq<char>>> {
    seq![
        reg_delete_args("ProxyServer"@),
        reg_add_dword_args("ProxyEnable"@, "0"@),
    ]
}

/// Remove the manual proxy server and clear the manual-proxy flag.
pub fn disable_proxies() -> (r: OsOp)
    ensures
        reg_plan(r, disable_proxies_cmds()),
{
    let mut commands: Vec<Cmd> = Vec::new();
    commands.push(reg_delete("ProxyServer"));
    commands.push(reg_add_dword("ProxyEnable", "0"));
    OsOp { commands, notify_after: true }
}

/// Windows keeps one manual proxy setting, so disabling SOCKS clears it all.
pub fn disable_socks_proxy() -> (r: OsOp)
    ensures
        reg_plan(r, disable_proxies_cmds()),
{
    disable_proxies()
}

/// Windows keeps one manual proxy setting, so disabling HTTP clears it all.
pub fn disable_web_proxy() -> (r: OsOp)
    ensures
        reg_plan(r, disable_proxies_cmds()),
{
    disable_proxies()
}

/// Windows keeps one manual proxy setting, so disabling HTTPS clears it all.
pub fn disable_secure_web_proxy() -> (r: OsOp)
    ensures
        reg_plan(r, disable_proxies_cmds()),
{
    disable_proxies()
}

} // verus!
