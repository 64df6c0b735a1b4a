//! Linux proxy-setting backend, polymorphic over the configuration tool found
//! on the machine: GNOME's `gsettings` when it is on PATH, else
//! NetworkManager's `nmcli` against the active connection, else unsupported.
//! The detection is performed once by the embedding program and passed in;
//! without a supported tool every operation fails (degrades to a no-op).
//!
//! Under `gsettings` each command is run through `sh -c`. Under `nmcli` the
//! active connection is modified directly; NetworkManager keeps only an
//! auto (PAC) proxy configuration per connection, so enabling a manual mode
//! cannot take effect and is unsupported, while disabling a manual mode has
//! nothing to undo and succeeds with no commands. An `nmcli` operation that
//! must run a command fails when no active connection was found.

use vstd::prelude::*;

use crate::config::Config;
use crate::network::{cmd_is, pac_js_url, pac_js_url_exec, Cmd, OsOp};
use crate::strutil::{dec_seq, u32_to_string};

verus! {

/// The system-proxy configuration tool available on this machine, detected
/// once at startup; the active connection under NetworkManager is resolved by
/// the embedding program (`None` when none was found).
pub enum LinuxTool {
    GSettings,
    Nmcli { active_connection: Option<String> },
    Unsupported,
}

/// Pick the configuration tool from the one-time PATH detection: `gsettings`
/// when present, else `nmcli` with the resolved active connection, else
/// unsupported.
pub fn select_linux_tool(has_gsettings: bool, has_nmcli: bool, active_connection: Option<
    String,
>) -> (r: LinuxTool)
    ensures
        r == (if has_gsettings {
            LinuxTool::GSettings
        } else if has_nmcli {
            LinuxTool::Nmcli { active_connection }
        } else {
            LinuxTool::Unsupported
        }),
{
    if has_gsettings {
        LinuxTool::GSettings
    } else if has_nmcli {
        LinuxTool::Nmcli { active_connection }
    } else {
        LinuxTool::Unsupported
    }
}

/// A `gsettings` invocation against the GNOME system-proxy schema.
pub open spec fn gs(suffix: Seq<char>) -> Seq<char> {
    "gsettings set org.gnome.system.proxy"@ + suffix
}

/// The operation runs the given shell lines, each through `sh -c`, with no
/// follow-up notification.
pub open spec fn sh_plan(op: OsOp, lines: Seq<Seq<char>>) -> bool {
    &&& op.notify_after == false
    &&& op.commands@.len() == lines.len()
    &&& forall|i: int|
        0 <= i < lines.len() ==> cmd_is(#[trigger] op.commands@[i], "sh"@, seq!["-c"@, lines[i]])
}

/// The operation runs the given `nmcli` invocations with no follow-up
/// notification.
pub open spec fn nmcli_plan(op: OsOp, cmds: Seq<Seq<Seq<char>>>) -> bool {
    &&& op.notify_after == false
    &&& op.commands@.len() == cmds.len()
    &&& forall|i: int|
        0 <= i < cmds.len() ==> cmd_is(#[trigger] op.commands@[i], "nmcli"@, cmds[i])
}

/// Arguments of an `nmcli connection modify` setting one property on the
/// active connection.
pub open spec fn nmcli_modify_args(conn: Seq<char>, key: Seq<char>, value: Seq<char>) -> Seq<
    Seq<char>,
> {
    seq!["connection"@, "modify"@, conn, key, value]
}

/// Arguments of an `nmcli connection modify` setting two properties on the
/// active connection.
pub open spec fn nmcli_modify2_args(
    conn: Seq<char>,
    key1: Seq<char>,
    value1: Seq<char>,
    key2: Seq<char>,
    value2: Seq<char>,
) -> Seq<Seq<char>> {
    seq!["connection"@, "modify"@, conn, key1, value1, key2, value2]
}

fn sh_cmd(line: String) -> (c: Cmd)
    ensures
        cmd_is(c, "sh"@, seq!["-c"@, line@]),
{
    let mut args: Vec<String> = Vec::new();
    args.push("-c".to_owned());
    args.push(line);
    let c = Cmd { program: "sh".to_owned(), args };
    proof {
        assert(c.args.deep_view() =~= seq!["-c"@, c.args@[1]@]);
    }
    c
}

fn nmcli_modify(conn: &str, key: &str, value: &str) -> (c: Cmd)
    ensures
        cmd_is(c, "nmcli"@, nmcli_modify_args(conn@, key@, value@)),
{
    let mut args: Vec<String> = Vec::new();
    args.push("connection".to_owned());
    args.push("modify".to_owned());
    args.push(conn.to_owned());
    args.push(key.to_owned());
    args.push(value.to_owned());
    let c = Cmd { program: "nmcli".to_owned(), args };
    proof {
        assert(c.args.deep_view() =~= nmcli_modify_args(conn@, key@, value@));
    }
    c
}

fn nmcli_modify2(conn: &str, key1: &str, value1: &str, key2: &str, value2: String) -> (c: Cmd)
    ensures
        cmd_is(c, "nmcli"@, nmcli_modify2_args(conn@, key1@, value1@, key2@, value2@)),
{
    let mut args: Vec<String> = Vec::new();
    args.push("connection".to_owned());
    args.push("modify".to_owned());
    args.push(conn.to_owned());
    args.push(key1.to_owned());
    args.push(value1.to_owned());
    args.push(key2.to_owned());
    args.push(value2);
    let c = Cmd { program: "nmcli".to_owned(), args };
    proof {
        assert(c.args.deep_view() =~= nmcli_modify2_args(
            conn@,
            key1@,
            value1@,
            key2@,
            c.args@[6]@,
        ));
    }
    c
}

fn nmcli_op(cmd: Cmd) -> (r: OsOp)
    ensures
        r.notify_after == false,
        r.commands@.len() == 1,
        r.commands@[0] == cmd,
{
    let mut commands: Vec<Cmd> = Vec::new();
    commands.push(cmd);
    OsOp { commands, notify_after: false }
}

/// Under NetworkManager a manual mode is never set, so there is nothing to
/// disable and the operation succeeds with no commands.
fn nmcli_vacuous_op() -> (r: OsOp)
    ensures
        nmcli_plan(r, Seq::empty()),
{
    let commands: Vec<Cmd> = Vec::new();
    OsOp { commands, notify_after: false }
}

fn gs_prefix() -> (r: String)
    ensures
        r@ == "gsettings set org.gnome.system.proxy"@,
{
    "gsettings set org.gnome.system.proxy".to_owned()
}

pub open spec fn enable_auto_proxy_lines(config: Config) -> Seq<Seq<char>> {
    seq![
        gs(" autoconfig-url '"@ + pac_js_url(config) + "'"@),
        gs(" mode 'auto'"@),
    ]
}

pub open spec fn enable_auto_proxy_nmcli(conn: Seq<char>, config: Config) -> Seq<Seq<Seq<char>>> {
    seq![nmcli_modify2_args(conn, "proxy.method"@, "auto"@, "proxy.pac-url"@, pac_js_url(config))]
}

/// Point the system at the served PAC script and switch the proxy mode to
/// auto: GNOME's autoconfig URL and mode, or the active connection's proxy
/// method and PAC URL under NetworkManager.
pub fn enable_auto_proxy(tool: &LinuxTool, config: &Config) -> (r: Option<OsOp>)
    ensures
        match *tool {
            LinuxTool::GSettings => r is Some && sh_plan(r->0, enable_auto_proxy_lines(*config)),
            LinuxTool::Nmcli { active_connection } => match active_connection {
                Some(conn) => r is Some && nmcli_plan(r->0, enable_auto_proxy_nmcli(conn@, *config)),
                None => r is None,
            },
            LinuxTool::Unsupported => r is None,
        },
{
    match tool {
        LinuxTool::Unsupported => None,
        LinuxTool::Nmcli { active_connection } => match active_connection {
            None => None,
            Some(conn) => {
                let cmd = nmcli_modify2(
                    conn.as_str(),
                    "proxy.method",
                    "auto",
                    "proxy.pac-url",
                    pac_js_url_exec(config),
                );
                Some(nmcli_op(cmd))
            },
        },
        LinuxTool::GSettings => {
            let mut l1 = gs_prefix();
            l1.append(" autoconfig-url '");
            l1.append(pac_js_url_exec(config).as_str());
            l1.append("'");
            let mut l2 = gs_prefix();
            l2.append(" mode 'auto'");
            proof {
                assert(l1@ =~= gs(" autoconfig-url '"@ + pac_js_url(*config) + "'"@));
                assert(l2@ =~= gs(" mode 'auto'"@));
            }
            let mut commands: Vec<Cmd> = Vec::new();
            commands.push(sh_cmd(l1));
            commands.push(sh_cmd(l2));
            let op = OsOp { commands, notify_after: false };
            Some(op)
        },
    }
}

pub open spec fn enable_socks_proxy_lines(config: Config) -> Seq<Seq<char>> {
    seq![
        gs(".socks host '"@ + config.ray_host@ + "'"@),
        gs(".socks port "@ + dec_seq(config.ray_socks_port as int)),
        gs(" mode 'manual'"@),
    ]
}

/// Set the system SOCKS proxy to the engine's host and SOCKS port and switch
/// the proxy mode to manual. NetworkManager keeps no manual proxy settings,
/// so under `nmcli` this cannot take effect and fails.
pub fn enable_socks_proxy(tool: &LinuxTool, config: &Config) -> (r: Option<OsOp>)
    ensures
        match *tool {
            LinuxTool::GSettings => r is Some && sh_plan(r->0, enable_socks_proxy_lines(*config)),
            LinuxTool::Nmcli { active_connection } => r is None,
            LinuxTool::Unsupported => r is None,
        },
{
    match tool {
        LinuxTool::Unsupported => None,
        LinuxTool::Nmcli { active_connection: _ } => None,
        LinuxTool::GSettings => {
            let mut l1 = gs_prefix();
            l1.append(".socks host '");
            l1.append(config.ray_host.as_str());
            l1.append("'");
            let mut l2 = gs_prefix();
            l2.append(".socks port ");
            l2.append(u32_to_string(config.ray_socks_port).as_str());
            let mut l3 = gs_prefix();
            l3.append(" mode 'manual'");
            proof {
                assert(l1@ =~= gs(".socks host '"@ + config.ray_host@ + "'"@));
                assert(l2@ =~= gs(".socks port "@ + dec_seq(config.ray_socks_port as int)));
                assert(l3@ =~= gs(" mode 'manual'"@));
            }
            let mut commands: Vec<Cmd> = Vec::new();
            commands.push(sh_cmd(l1));
            commands.push(sh_cmd(l2));
            commands.push(sh_cmd(l3));
            let op = OsOp { commands, notify_after: false };
            Some(op)
        },
    }
}

pub open spec fn enable_web_proxy_lines(config: Config) -> Seq<Seq<char>> {
    seq![
        gs(".http host '"@ + config.ray_host@ + "'"@),
        gs(".http port "@ + dec_seq(config.ray_http_port as int)),
        gs(" mode 'manual'"@),
    ]
}

/// Set the system HTTP proxy to the engine's host and HTTP port and switch
/// the proxy mode to manual. NetworkManager keeps no manual proxy settings,
/// so under `nmcli` this cannot take effect and fails.
pub fn enable_web_proxy(tool: &LinuxTool, config: &Config) -> (r: Option<OsOp>)
    ensures
        match *tool {
            LinuxTool::GSettings => r is Some && sh_plan(r->0, enable_web_proxy_lines(*config)),
            LinuxTool::Nmcli { active_connection } => r is None,
            LinuxTool::Unsupported => r is None,
        },
{
    match tool {
        LinuxTool::Unsupported => None,
        LinuxTool::Nmcli { active_connection: _ } => None,
        LinuxTool::GSettings => {
            let mut l1 = gs_prefix();
            l1.append(".http host '");
            l1.append(config.ray_host.as_str());
            l1.append("'");
            let mut l2 = gs_prefix();
            l2.append(".http port ");
            l2.append(u32_to_string(config.ray_http_port).as_str());
            let mut l3 = gs_prefix();
            l3.append(" mode 'manual'");
            proof {
                assert(l1@ =~= gs(".http host '"@ + config.ray_host@ + "'"@));
                assert(l2@ =~= gs(".http port "@ + dec_seq(config.ray_http_port as int)));
                assert(l3@ =~= gs(" mode 'manual'"@));
            }
            let mut commands: Vec<Cmd> = Vec::new();
            commands.push(sh_cmd(l1));
            commands.push(sh_cmd(l2));
            commands.push(sh_cmd(l3));
            let op = OsOp { commands, notify_after: false };
            Some(op)
        },
    }
}

pub open spec fn enable_secure_web_proxy_lines(config: Config) -> Seq<Seq<char>> {
    seq![
        gs(".https host '"@ + config.ray_host@ + "'"@),
        gs(".https port "@ + dec_seq(config.ray_http_port as int)),
        gs(" mode 'manual'"@),
    ]
}

/// Set the system HTTPS proxy to the engine's host and HTTP port and switch
/// the proxy mode to manual. NetworkManager keeps no manual proxy settings,
/// so under `nmcli` this cannot take effect and fails.
pub fn enable_secure_web_proxy(tool: &LinuxTool, config: &Config) -> (r: Option<OsOp>)
    ensures
        match *tool {
            LinuxTool::GSettings => r is Some && sh_plan(
                r->0,
                enable_secure_web_proxy_lines(*config),
            ),
            LinuxTool::Nmcli { active_connection } => r is None,
            LinuxTool::Unsupported => r is None,
        },
{
    match tool {
        LinuxTool::Unsupported => None,
        LinuxTool::Nmcli { active_connection: _ } => None,
        LinuxTool::GSettings => {
            let mut l1 = gs_prefix();
            l1.append(".https host '");
            l1.append(config.ray_host.as_str());
            l1.append("'");
            let mut l2 = gs_prefix();
            l2.append(".https port ");
            l2.append(u32_to_string(config.ray_http_port).as_str());
            let mut l3 = gs_prefix();
            l3.append(" mode 'manual'");
            proof {
                assert(l1@ =~= gs(".https host '"@ + config.ray_host@ + "'"@));
                assert(l2@ =~= gs(".https port "@ + dec_seq(config.ray_http_port as int)));
                assert(l3@ =~= gs(" mode 'manual'"@));
            }
            let mut commands: Vec<Cmd> = Vec::new();
            commands.push(sh_cmd(l1));
            commands.push(sh_cmd(l2));
            commands.push(sh_cmd(l3));
            let op = OsOp { commands, notify_after: false };
            Some(op)
        },
    }
}

pub open spec fn disable_auto_proxy_lines() -> Seq<Seq<char>> {
    seq![gs(" mode 'none'"@)]
}

pub open spec fn disable_auto_proxy_nmcli(conn: Seq<char>) -> Seq<Seq<Seq<char>>> {
    seq![nmcli_modify_args(conn, "proxy.method"@, "none"@)]
}

/// Switch the proxy mode back to none: GNOME's mode, or the active
/// connection's proxy method under NetworkManager.
pub fn disable_auto_proxy(tool: &LinuxTool) -> (r: Option<OsOp>)
    ensures
        match *tool {
            LinuxTool::GSettings => r is Some && sh_plan(r->0, disable_auto_proxy_lines()),
            LinuxTool::Nmcli { active_connection } => match active_connection {
                Some(conn) => r is Some && nmcli_plan(r->0, disable_auto_proxy_nmcli(conn@)),
                None => r is None,
            },
            LinuxTool::Unsupported => r is None,
        },
{
    match tool {
        LinuxTool::Unsupported => None,
        LinuxTool::Nmcli { active_connection } => match active_connection {
            None => None,
            Some(conn) => Some(nmcli_op(nmcli_modify(conn.as_str(), "proxy.method", "none"))),
        },
        LinuxTool::GSettings => {
            let mut l1 = gs_prefix();
            l1.append(" mode 'none'");
            proof {
                assert(l1@ =~= gs(" mode 'none'"@));
            }
            let mut commands: Vec<Cmd> = Vec::new();
            commands.push(sh_cmd(l1));
            let op = OsOp { commands, notify_after: false };
            Some(op)
        },
    }
}

pub open spec fn disable_socks_proxy_lines() -> Seq<Seq<char>> {
    seq![gs(".socks host ''"@), gs(".socks port 0"@)]
}

/// Clear the system SOCKS proxy host and port. Under NetworkManager no manual
/// SOCKS setting exists, so there is nothing to undo and the operation
/// succeeds with no commands.
pub fn disable_socks_proxy(tool: &LinuxTool) -> (r: Option<OsOp>)
    ensures
        match *tool {
            LinuxTool::GSettings => r is Some && sh_plan(r->0, disable_socks_proxy_lines()),
            LinuxTool::Nmcli { active_connection } => r is Some && nmcli_plan(r->0, Seq::empty()),
            LinuxTool::Unsupported => r is None,
        },
{
    match tool {
        LinuxTool::Unsupported => None,
        LinuxTool::Nmcli { active_connection: _ } => Some(nmcli_vacuous_op()),
        LinuxTool::GSettings => {
            let mut l1 = gs_prefix();
            l1.append(".socks host ''");
            let mut l2 = gs_prefix();
            l2.append(".socks port 0");
            proof {
                assert(l1@ =~= gs(".socks host ''"@));
                assert(l2@ =~= gs(".socks port 0"@));
            }
            let mut commands: Vec<Cmd> = Vec::new();
            commands.push(sh_cmd(l1));
            commands.push(sh_cmd(l2));
            let op = OsOp { commands, notify_after: false };
            Some(op)
        },
    }
}

pub open spec fn disable_web_proxy_lines() -> Seq<Seq<char>> {
    seq![gs(".http host ''"@), gs(".http port 0"@)]
}

/// Clear the system HTTP proxy host and port. Under NetworkManager no manual
/// HTTP setting exists, so there is nothing to undo and the operation
/// succeeds with no commands.
pub fn disable_web_proxy(tool: &LinuxTool) -> (r: Option<OsOp>)
    ensures
        match *tool {
            LinuxTool::GSettings => r is Some && sh_plan(r->0, disable_web_proxy_lines()),
            LinuxTool::Nmcli { active_connection } => r is Some && nmcli_plan(r->0, Seq::empty()),
            LinuxTool::Unsupported => r is None,
        },
{
    match tool {
        LinuxTool::Unsupported => None,
        LinuxTool::Nmcli { active_connection: _ } => Some(nmcli_vacuous_op()),
        LinuxTool::GSettings => {
            let mut l1 = gs_prefix();
            l1.append(".http host ''");
            let mut l2 = gs_prefix();
            l2.append(".http port 0");
            proof {
                assert(l1@ =~= gs(".http host ''"@));
                assert(l2@ =~= gs(".http port 0"@));
            }
            let mut commands: Vec<Cmd> = Vec::new();
            commands.push(sh_cmd(l1));
            commands.push(sh_cmd(l2));
            let op = OsOp { commands, notify_after: false };
            Some(op)
        },
    }
}

pub open spec fn disable_secure_web_proxy_lines() -> Seq<Seq<char>> {
    seq![gs(".https host ''"@), gs(".https port 0"@)]
}

/// Clear the system HTTPS proxy host and port. Under NetworkManager no manual
/// HTTPS setting exists, so there is nothing to undo and the operation
/// succeeds with no commands.
pub fn disable_secure_web_proxy(tool: &LinuxTool) -> (r: Option<OsOp>)
    ensures
        match *tool {
            LinuxTool::GSettings => r is Some && sh_plan(r->0, disable_secure_web_proxy_lines()),
            LinuxTool::Nmcli { active_connection } => r is Some && nmcli_plan(r->0, Seq::empty()),
            LinuxTool::Unsupported => r is None,
        },
{
    match tool {
        LinuxTool::Unsupported => None,
        LinuxTool::Nmcli { active_connection: _ } => Some(nmcli_vacuous_op()),
        LinuxTool::GSettings => {
            let mut l1 = gs_prefix();
            l1.append(".https host ''");
            let mut l2 = gs_prefix();
            l2.append(".https port 0");
            proof {
                assert(l1@ =~= gs(".https host ''"@));
                assert(l2@ =~= gs(".https port 0"@));
            }
            let mut commands: Vec<Cmd> = Vec::new();
            commands.push(sh_cmd(l1));
            commands.push(sh_cmd(l2));
            let op = OsOp { commands, notify_after: false };
            Some(op)
        },
    }
}

pub open spec fn disable_proxies_lines() -> Seq<Seq<char>> {
    disable_auto_proxy_lines() + disable_socks_proxy_lines() + disable_web_proxy_lines()
        + disable_secure_web_proxy_lines()
}

pub open spec fn disable_proxies_nmcli(conn: Seq<char>) -> Seq<Seq<Seq<char>>> {
    seq![nmcli_modify2_args(conn, "proxy.method"@, "none"@, "proxy.pac-url"@, ""@)]
}

/// Disable every proxy mode. Under GNOME: mode `none`, then clear the SOCKS,
/// HTTP and HTTPS hosts and ports; the runner stops at the first failing
/// command, so the composition short-circuits and succeeds only if all four
/// disables did. Under NetworkManager: reset the active connection's proxy
/// method and PAC URL (the manual modes have nothing to undo). On a machine
/// without a supported configuration tool no operation is produced and the
/// caller reports failure.
pub fn disable_proxies(tool: &LinuxTool) -> (r: Option<OsOp>)
    ensures
        match *tool {
            LinuxTool::GSettings => r is Some && sh_plan(r->0, disable_proxies_lines()),
            LinuxTool::Nmcli { active_connection } => match active_connection {
                Some(conn) => r is Some && nmcli_plan(r->0, disable_proxies_nmcli(conn@)),
                None => r is None,
            },
            LinuxTool::Unsupported => r is None,
        },
{
    match tool {
        LinuxTool::Unsupported => None,
        LinuxTool::Nmcli { active_connection } => match active_connection {
            None => None,
            Some(conn) => {
                let cmd = nmcli_modify2(
                    conn.as_str(),
                    "proxy.method",
                    "none",
                    "proxy.pac-url",
                    String::new(),
                );
                let op = nmcli_op(cmd);
                proof {
                    reveal_strlit("");
                    assert(""@ =~= Seq::<char>::empty());
                    assert(nmcli_modify2_args(
                        conn@,
                        "proxy.method"@,
                        "none"@,
                        "proxy.pac-url"@,
                        Seq::<char>::empty(),
                    ) =~= nmcli_modify2_args(
                        conn@,
                        "proxy.method"@,
                        "none"@,
                        "proxy.pac-url"@,
                        ""@,
                    ));
                    assert(nmcli_plan(op, disable_proxies_nmcli(conn@)));
                }
                Some(op)
            },
        },
        LinuxTool::GSettings => {
            let mut l1 = gs_prefix();
            l1.append(" mode 'none'");
            let mut l2 = gs_prefix();
            l2.append(".socks host ''");
            let mut l3 = gs_prefix();
            l3.append(".socks port 0");
            let mut l4 = gs_prefix();
            l4.append(".http host ''");
            let mut l5 = gs_prefix();
            l5.append(".http port 0");
            let mut l6 = gs_prefix();
            l6.append(".https host ''");
            let mut l7 = gs_prefix();
            l7.append(".https port 0");
            proof {
                assert(l1@ =~= gs(" mode 'none'"@));
                assert(l2@ =~= gs(".socks host ''"@));
                assert(l3@ =~= gs(".socks port 0"@));
                assert(l4@ =~= gs(".http host ''"@));
                assert(l5@ =~= gs(".http port 0"@));
                assert(l6@ =~= gs(".https host ''"@));
                assert(l7@ =~= gs(".https port 0"@));
            }
            let mut commands: Vec<Cmd> = Vec::new();
            commands.push(sh_cmd(l1));
            commands.push(sh_cmd(l2));
            commands.push(sh_cmd(l3));
            commands.push(sh_cmd(l4));
            commands.push(sh_cmd(l5));
            commands.push(sh_cmd(l6));
            commands.push(sh_cmd(l7));
            let op = OsOp { commands, notify_after: false };
            proof {
                assert(disable_proxies_lines() =~= seq![
                    gs(" mode 'none'"@),
                    gs(".socks host ''"@),
                    gs(".socks port 0"@),
                    gs(".http host ''"@),
                    gs(".http port 0"@),
                    gs(".https host ''"@),
                    gs(".https port 0"@),
                ]);
                assert(sh_plan(op, disable_proxies_lines()));
            }
            Some(op)
        },
    }
}

} // verus!
