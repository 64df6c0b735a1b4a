//! macOS proxy-setting backend. Every change is a `networksetup` invocation
//! against the active network service, whose name must be re-resolved on
//! every operation (the user may switch networks): the embedding program runs
//! `networksetup -listallnetworkservices` and hands the output to
//! [`get_active_network_interface`], which picks the first service not marked
//! disabled and falls back to a default name when detection fails.

use vstd::prelude::*;

use crate::config::Config;
use crate::network::{cmd_is, pac_js_url, pac_js_url_exec, Cmd, OsOp};
use crate::strutil::{dec_seq, lines_from, split_lines, trim, trim_spec, u32_to_string};

verus! {

/// The first line at or after index `i` that is not marked disabled with a
/// leading `*`, if any.
pub open spec fn first_active_service(lines: Seq<Seq<char>>, i: int) -> Option<Seq<char>>
    decreases lines.len() - i,
{
    if i < 0 || i >= lines.len() {
        None
    } else if lines[i].len() == 0 || lines[i][0] != '*' {
        Some(lines[i])
    } else {
        first_active_service(lines, i + 1)
    }
}

/// The service name [`get_active_network_interface`] returns for a listing:
/// the first line after the leading caption that is not marked disabled,
/// trimmed, or the default `Wi-Fi` when there is no listing or no such line.
pub open spec fn active_interface_of(listing: Option<Seq<char>>) -> Seq<char> {
    match listing {
        Some(out) => match first_active_service(lines_from(out, 0), 1) {
            Some(l) => trim_spec(l),
            None => "Wi-Fi"@,
        },
        None => "Wi-Fi"@,
    }
}

proof fn lemma_service_agree(lines: Seq<Seq<char>>, from: int, i: int)
    requires
        0 <= from <= i <= lines.len(),
        forall|j: int| from <= j < i ==> lines[j].len() > 0 && lines[j][0] == '*',
    ensures
        first_active_service(lines, from) == first_active_service(lines, i),
    decreases i - from,
{
    if from < i {
        lemma_service_agree(lines, from + 1, i);
    }
}

/// Name of the network service proxy changes are applied to, resolved from
/// the output of `networksetup -listallnetworkservices` (`None` when running
/// the listing failed). The first line of the output is a caption and is
/// skipped; a line starting with `*` is a disabled service.
pub fn get_active_network_interface(listing: &Option<String>) -> (r: String)
    ensures
        r@ == active_interface_of(listing.deep_view()),
{
    match listing {
        None => "Wi-Fi".to_owned(),
        Some(out) => {
            let lines = split_lines(out.as_str());
            let n = lines.len();
            if n <= 1 {
                return "Wi-Fi".to_owned();
            }
            let mut i: usize = 1;
            while i < n
                invariant
                    listing.deep_view() == Some(out@),
                    n == lines@.len(),
                    lines.deep_view() == lines_from(out@, 0),
                    1 <= i <= n,
                    forall|j: int|
                        1 <= j < i ==> lines.deep_view()[j].len() > 0 && lines.deep_view()[j][0]
                            == '*',
                decreases n - i,
            {
                let line = &lines[i];
                let llen = line.as_str().unicode_len();
                proof {
                    assert(lines.deep_view()[i as int] == line@);
                }
                if llen == 0 || line.as_str().get_char(0) != '*' {
                    proof {
                        lemma_service_agree(lines.deep_view(), 1, i as int);
                        assert(first_active_service(lines.deep_view(), i as int) == Some(line@));
                        assert(first_active_service(lines_from(out@, 0), 1) == Some(line@));
                        assert(active_interface_of(Some(out@)) == trim_spec(line@));
                    }
                    let t = trim(line.as_str());
                    proof {
                        assert(t@ == active_interface_of(listing.deep_view()));
                    }
                    return t;
                }
                i = i + 1;
            }
            proof {
                lemma_service_agree(lines.deep_view(), 1, n as int);
            }
            "Wi-Fi".to_owned()
        },
    }
}

/// The operation runs the given `networksetup` invocations with no follow-up
/// notification.
pub open spec fn ns_plan(op: OsOp, cmds: Seq<Seq<Seq<char>>>) -> bool {
    &&& op.notify_after == false
    &&& op.commands@.len() == cmds.len()
    &&& forall|i: int|
        0 <= i < cmds.len() ==> cmd_is(#[trigger] op.commands@[i], "networksetup"@, cmds[i])
}

fn ns_cmd2(a0: &str, a1: &str) -> (c: Cmd)
    ensures
        cmd_is(c, "networksetup"@, seq![a0@, a1@]),
{
    let mut args: Vec<String> = Vec::new();
    args.push(a0.to_owned());
    args.push(a1.to_owned());
    let c = Cmd { program: "networksetup".to_owned(), args };
    proof {
        assert(c.args.deep_view() =~= seq![a0@, a1@]);
    }
    c
}

fn ns_cmd3(a0: &str, a1: &str, a2: &str) -> (c: Cmd)
    ensures
        cmd_is(c, "networksetup"@, seq![a0@, a1@, a2@]),
{
    let mut args: Vec<String> = Vec::new();
    args.push(a0.to_owned());
    args.push(a1.to_owned());
    args.push(a2.to_owned());
    let c = Cmd { program: "networksetup".to_owned(), args };
    proof {
        assert(c.args.deep_view() =~= seq![a0@, a1@, a2@]);
    }
    c
}

fn ns_cmd4(a0: &str, a1: &str, a2: &str, a3: &str) -> (c: Cmd)
    ensures
        cmd_is(c, "networksetup"@, seq![a0@, a1@, a2@, a3@]),
{
    let mut args: Vec<String> = Vec::new();
    args.push(a0.to_owned());
    args.push(a1.to_owned());
    args.push(a2.to_owned());
    args.push(a3.to_owned());
    let c = Cmd { program: "networksetup".to_owned(), args };
    proof {
        assert(c.args.deep_view() =~= seq![a0@, a1@, a2@, a3@]);
    }
    c
}

pub open spec fn enable_auto_proxy_cmds(interface: Seq<char>, config: Config) -> Seq<
    Seq<Seq<char>>,
> {
    seq![
        seq!["-setautoproxyurl"@, interface, pac_js_url(config)],
        seq!["-setautoproxystate"@, interface, "on"@],
    ]
}

/// Point the active service at the served PAC script and turn the auto-proxy
/// state on.
pub fn enable_auto_proxy(interface: &str, config: &Config) -> (r: OsOp)
    ensures
        ns_plan(r, enable_auto_proxy_cmds(interface@, *config)),
{
    let url = pac_js_url_exec(config);
    let mut commands: Vec<Cmd> = Vec::new();
    commands.push(ns_cmd3("-setautoproxyurl", interface, url.as_str()));
    commands.push(ns_cmd3("-setautoproxystate", interface, "on"));
    OsOp { commands, notify_after: false }
}

pub open spec fn enable_socks_proxy_cmds(interface: Seq<char>, config: Config) -> Seq<
    Seq<Seq<char>>,
> {
    seq![
        seq![
            "-setsocksfirewallproxy"@,
            interface,
            config.ray_host@,
            dec_seq(config.ray_socks_port as int),
        ],
        seq!["-setsocksfirewallproxystate"@, interface, "on"@],
    ]
}

/// Set the active service's SOCKS proxy to the engine's host and SOCKS port
/// and turn it on.
pub fn enable_socks_proxy(interface: &str, config: &Config) -> (r: OsOp)
    ensures
        ns_plan(r, enable_socks_proxy_cmds(interface@, *config)),
{
    let port = u32_to_string(config.ray_socks_port);
    let mut commands: Vec<Cmd> = Vec::new();
    commands.push(
        ns_cmd4("-setsocksfirewallproxy", interface, config.ray_host.as_str(), port.as_str()),
    );
    commands.push(ns_cmd3("-setsocksfirewallproxystate", interface, "on"));
    OsOp { commands, notify_after: false }
}

pub open spec fn enable_web_proxy_cmds(interface: Seq<char>, config: Config) -> Seq<
    Seq<Seq<char>>,
> {
    seq![
        seq!["-setwebproxy"@, interface, config.ray_host@, dec_seq(config.ray_http_port as int)],
        seq!["-setwebproxystate"@, interface, "on"@],
    ]
}

/// Set the active service's HTTP proxy to the engine's host and HTTP port
/// and turn it on.
pub fn enable_web_proxy(interface: &str, config: &Config) -> (r: OsOp)
    ensures
        ns_plan(r, enable_web_proxy_cmds(interface@, *config)),
{
    let port = u32_to_string(config.ray_http_port);
    let mut commands: Vec<Cmd> = Vec::new();
    commands.push(ns_cmd4("-setwebproxy", interface, config.ray_host.as_str(), port.as_str()));
    commands.push(ns_cmd3("-setwebproxystate", interface, "on"));
    OsOp { commands, notify_after: false }
}

pub open spec fn enable_secure_web_proxy_cmds(interface: Seq<char>, config: Config) -> Seq<
    Seq<Seq<char>>,
> {
    seq![
        seq![
            "-setsecurewebproxy"@,
            interface,
            config.ray_host@,
            dec_seq(config.ray_http_port as int),
        ],
        seq!["-setsecurewebproxystate"@, interface, "on"@],
    ]
}

/// Set the active service's HTTPS proxy to the engine's host and HTTP port
/// and turn it on.
pub fn enable_secure_web_proxy(interface: &str, config: &Config) -> (r: OsOp)
    ensures
        ns_plan(r, enable_secure_web_proxy_cmds(interface@, *config)),
{
    let port = u32_to_string(config.ray_http_port);
    let mut commands: Vec<Cmd> = Vec::new();
    commands.push(
        ns_cmd4("-setsecurewebproxy", interface, config.ray_host.as_str(), port.as_str()),
    );
    commands.push(ns_cmd3("-setsecurewebproxystate", interface, "on"));
    OsOp { commands, notify_after: false }
}

pub open spec fn disable_auto_proxy_cmds(interface: Seq<char>) -> Seq<Seq<Seq<char>>> {
    seq![seq!["-setautoproxystate"@, interface, "off"@]]
}

/// Turn the active service's auto-proxy state off.
pub fn disable_auto_proxy(interface: &str) -> (r: OsOp)
    ensures
        ns_plan(r, disable_auto_proxy_cmds(interface@)),
{
    let mut commands: Vec<Cmd> = Vec::new();
    commands.push(ns_cmd3("-setautoproxystate", interface, "off"));
    OsOp { commands, notify_after: false }
}

pub open spec fn disable_socks_proxy_cmds(interface: Seq<char>) -> Seq<Seq<Seq<char>>> {
    seq![seq!["-setsocksfirewallproxystate"@, interface, "off"@]]
}

/// Turn the active service's SOCKS proxy off.
pub fn disable_socks_proxy(interface: &str) -> (r: OsOp)
    ensures
        ns_plan(r, disable_socks_proxy_cmds(interface@)),
{
    let mut commands: Vec<Cmd> = Vec::new();
    commands.push(ns_cmd3("-setsocksfirewallproxystate", interface, "off"));
    OsOp { commands, notify_after: false }
}

pub open spec fn disable_web_proxy_cmds(interface: Seq<char>) -> Seq<Seq<Seq<char>>> {
    seq![seq!["-setwebproxystate"@, interface, "off"@]]
}

/// Turn the active service's HTTP proxy off.
pub fn disable_web_proxy(interface: &str) -> (r: OsOp)
    ensures
        ns_plan(r, disable_web_proxy_cmds(interface@)),
{
    let mut commands: Vec<Cmd> = Vec::new();
    commands.push(ns_cmd3("-setwebproxystate", interface, "off"));
    OsOp { commands, notify_after: false }
}

pub open spec fn disable_secure_web_proxy_cmds(interface: Seq<char>) -> Seq<Seq<Seq<char>>> {
    seq![seq!["-setsecurewebproxystate"@, interface, "off"@]]
}

/// Turn the active service's HTTPS proxy off.
pub fn disable_secure_web_proxy(interface: &str) -> (r: OsOp)
    ensures
        ns_plan(r, disable_secure_web_proxy_cmds(interface@)),
{
    let mut commands: Vec<Cmd> = Vec::new();
    commands.push(ns_cmd3("-setsecurewebproxystate", interface, "off"));
    OsOp { commands, notify_after: false }
}

pub open spec fn disable_proxies_cmds(interface: Seq<char>) -> Seq<Seq<Seq<char>>> {
    disable_auto_proxy_cmds(interface) + disable_socks_proxy_cmds(interface)
        + disable_web_proxy_cmds(interface) + disable_secure_web_proxy_cmds(interface)
}

/// Turn every proxy mode off on the active service, resolved once for the
/// whole sweep. The runner stops at the first failing command, so the
/// composition short-circuits and succeeds only if all four disables did.
pub fn disable_proxies(interface: &str) -> (r: OsOp)
    ensures
        ns_plan(r, disable_proxies_cmds(interface@)),
{
    let mut commands: Vec<Cmd> = Vec::new();
    commands.push(ns_cmd3("-setautoproxystate", interface, "off"));
    commands.push(ns_cmd3("-setsocksfirewallproxystate", interface, "off"));
    commands.push(ns_cmd3("-setwebproxystate", interface, "off"));
    commands.push(ns_cmd3("-setsecurewebproxystate", interface, "off"));
    proof {
        assert(disable_proxies_cmds(interface@) =~= seq![
            seq!["-setautoproxystate"@, interface@, "off"@],
            seq!["-setsocksfirewallproxystate"@, interface@, "off"@],
            seq!["-setwebproxystate"@, interface@, "off"@],
            seq!["-setsecurewebproxystate"@, interface@, "off"@],
        ]);
    }
    OsOp { commands, notify_after: false }
}

} // verus!
