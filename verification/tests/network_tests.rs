use doay_core::config::Config;
use doay_core::network::linux::{select_linux_tool, LinuxTool};
use doay_core::network::{
    op_result, opt_op_result, pac_js_url_exec, setup_http_proxy, setup_pac_proxy,
    setup_proxies, setup_socks_proxy, Cmd, OsOp,
};
use doay_core::network::{linux, macos, windows};

fn test_config() -> Config {
    let mut c = Config::default();
    c.web_server_host = "127.0.0.1".to_string();
    c.web_server_port = 18687;
    c.ray_host = "127.0.0.1".to_string();
    c.ray_socks_port = 1086;
    c.ray_http_port = 1089;
    c
}

fn shell_lines(op: &OsOp) -> Vec<String> {
    op.commands
        .iter()
        .map(|c: &Cmd| {
            assert_eq!(c.program, "sh");
            assert_eq!(c.args[0], "-c");
            assert_eq!(c.args.len(), 2);
            c.args[1].clone()
        })
        .collect()
}

#[test]
fn pac_url_renders_host_and_port() {
    let c = test_config();
    assert_eq!(pac_js_url_exec(&c), "http://127.0.0.1:18687/doay/proxy.js");
}

#[test]
fn linux_enable_socks_commands() {
    let c = test_config();
    let op = linux::enable_socks_proxy(&LinuxTool::GSettings, &c).unwrap();
    assert!(!op.notify_after);
    let lines = shell_lines(&op);
    assert_eq!(
        lines,
        vec![
            "gsettings set org.gnome.system.proxy.socks host '127.0.0.1'".to_string(),
            "gsettings set org.gnome.system.proxy.socks port 1086".to_string(),
            "gsettings set org.gnome.system.proxy mode 'manual'".to_string(),
        ]
    );
}

#[test]
fn linux_enable_auto_commands() {
    let c = test_config();
    let op = linux::enable_auto_proxy(&LinuxTool::GSettings, &c).unwrap();
    let lines = shell_lines(&op);
    assert_eq!(
        lines,
        vec![
            "gsettings set org.gnome.system.proxy autoconfig-url 'http://127.0.0.1:18687/doay/proxy.js'"
                .to_string(),
            "gsettings set org.gnome.system.proxy mode 'auto'".to_string(),
        ]
    );
}

#[test]
fn linux_disable_proxies_commands() {
    let op = linux::disable_proxies(&LinuxTool::GSettings).unwrap();
    let lines = shell_lines(&op);
    assert_eq!(
        lines,
        vec![
            "gsettings set org.gnome.system.proxy mode 'none'".to_string(),
            "gsettings set org.gnome.system.proxy.socks host ''".to_string(),
            "gsettings set org.gnome.system.proxy.socks port 0".to_string(),
            "gsettings set org.gnome.system.proxy.http host ''".to_string(),
            "gsettings set org.gnome.system.proxy.http port 0".to_string(),
            "gsettings set org.gnome.system.proxy.https host ''".to_string(),
            "gsettings set org.gnome.system.proxy.https port 0".to_string(),
        ]
    );
}

#[test]
fn unsupported_platform_disable_fails_without_throwing() {
    // no supported configuration tool: no commands are produced and the
    // operation is reported failed
    let tool = select_linux_tool(false, false, None);
    let op = linux::disable_proxies(&tool);
    assert!(op.is_none());
    let results: Vec<bool> = Vec::new();
    assert!(!opt_op_result(&op, &results, true));
    // every other operation degrades the same way
    let c = test_config();
    assert!(linux::enable_auto_proxy(&tool, &c).is_none());
    assert!(linux::enable_socks_proxy(&tool, &c).is_none());
    assert!(linux::disable_auto_proxy(&tool).is_none());
}

#[test]
fn linux_tool_selection_prefers_gsettings() {
    assert!(matches!(select_linux_tool(true, true, None), LinuxTool::GSettings));
    assert!(matches!(select_linux_tool(true, false, None), LinuxTool::GSettings));
    assert!(matches!(
        select_linux_tool(false, true, Some("Wired 1".to_string())),
        LinuxTool::Nmcli { .. }
    ));
    assert!(matches!(select_linux_tool(false, false, None), LinuxTool::Unsupported));
}

#[test]
fn nmcli_auto_proxy_commands() {
    let c = test_config();
    let tool = select_linux_tool(false, true, Some("Wired 1".to_string()));
    let op = linux::enable_auto_proxy(&tool, &c).unwrap();
    assert!(!op.notify_after);
    assert_eq!(op.commands.len(), 1);
    assert_eq!(op.commands[0].program, "nmcli");
    assert_eq!(
        op.commands[0].args,
        vec![
            "connection",
            "modify",
            "Wired 1",
            "proxy.method",
            "auto",
            "proxy.pac-url",
            "http://127.0.0.1:18687/doay/proxy.js",
        ]
    );
    let d = linux::disable_auto_proxy(&tool).unwrap();
    assert_eq!(
        d.commands[0].args,
        vec!["connection", "modify", "Wired 1", "proxy.method", "none"]
    );
    let all = linux::disable_proxies(&tool).unwrap();
    assert_eq!(
        all.commands[0].args,
        vec!["connection", "modify", "Wired 1", "proxy.method", "none", "proxy.pac-url", ""]
    );
}

#[test]
fn nmcli_manual_modes() {
    let c = test_config();
    let tool = select_linux_tool(false, true, Some("Wired 1".to_string()));
    // NetworkManager keeps no manual proxy settings: an enable cannot take
    // effect and fails, a disable has nothing to undo and succeeds
    assert!(linux::enable_socks_proxy(&tool, &c).is_none());
    assert!(linux::enable_web_proxy(&tool, &c).is_none());
    assert!(linux::enable_secure_web_proxy(&tool, &c).is_none());
    let d = linux::disable_socks_proxy(&tool).unwrap();
    assert!(d.commands.is_empty());
    assert!(op_result(&d, &Vec::new(), false));
    assert!(linux::disable_web_proxy(&tool).unwrap().commands.is_empty());
    assert!(linux::disable_secure_web_proxy(&tool).unwrap().commands.is_empty());
}

#[test]
fn nmcli_without_active_connection_fails() {
    let c = test_config();
    let tool = select_linux_tool(false, true, None);
    assert!(linux::enable_auto_proxy(&tool, &c).is_none());
    assert!(linux::disable_auto_proxy(&tool).is_none());
    assert!(linux::disable_proxies(&tool).is_none());
    assert!(!opt_op_result(&linux::disable_proxies(&tool), &Vec::new(), true));
}

#[test]
fn windows_enable_socks_registry_writes() {
    let c = test_config();
    let op = windows::enable_socks_proxy(&c);
    assert!(op.notify_after);
    assert_eq!(op.commands.len(), 2);
    let key = "HKCU\\Software\\Microsoft\\Windows\\CurrentVersion\\Internet Settings";
    assert_eq!(op.commands[0].program, "reg");
    assert_eq!(
        op.commands[0].args,
        vec!["add", key, "/v", "ProxyServer", "/t", "REG_SZ", "/d", "127.0.0.1:1086", "/f"]
    );
    assert_eq!(
        op.commands[1].args,
        vec!["add", key, "/v", "ProxyEnable", "/t", "REG_DWORD", "/d", "1", "/f"]
    );
}

#[test]
fn windows_auto_proxy_uses_pac_url() {
    let c = test_config();
    let op = windows::enable_auto_proxy(&c);
    assert_eq!(op.commands[0].args[7], "http://127.0.0.1:18687/proxy.pac");
    let d = windows::disable_proxies();
    assert_eq!(d.commands[0].args[..2], ["delete".to_string(), "HKCU\\Software\\Microsoft\\Windows\\CurrentVersion\\Internet Settings".to_string()]);
    assert!(d.notify_after);
}

#[test]
fn macos_interface_parsing() {
    let listing = "An asterisk (*) denotes that a network service is disabled.\n*AX88179A\nWi-Fi\nBluetooth PAN\n";
    let name = macos::get_active_network_interface(&Some(listing.to_string()));
    assert_eq!(name, "Wi-Fi");
    // all services disabled: fall back to the default
    let all_off = "caption\n*A\n*B\n";
    assert_eq!(macos::get_active_network_interface(&Some(all_off.to_string())), "Wi-Fi");
    // listing failed entirely
    assert_eq!(macos::get_active_network_interface(&None), "Wi-Fi");
    // trimming of the selected line
    let padded = "caption\n  Thunderbolt Bridge  \n";
    assert_eq!(
        macos::get_active_network_interface(&Some(padded.to_string())),
        "Thunderbolt Bridge"
    );
}

#[test]
fn macos_enable_socks_commands() {
    let c = test_config();
    let op = macos::enable_socks_proxy("Wi-Fi", &c);
    assert!(!op.notify_after);
    assert_eq!(op.commands[0].program, "networksetup");
    assert_eq!(
        op.commands[0].args,
        vec!["-setsocksfirewallproxy", "Wi-Fi", "127.0.0.1", "1086"]
    );
    assert_eq!(op.commands[1].args, vec!["-setsocksfirewallproxystate", "Wi-Fi", "on"]);
}

#[test]
fn macos_disable_proxies_commands() {
    let op = macos::disable_proxies("Wi-Fi");
    let flags: Vec<String> = op.commands.iter().map(|c| c.args[0].clone()).collect();
    assert_eq!(
        flags,
        vec![
            "-setautoproxystate",
            "-setsocksfirewallproxystate",
            "-setwebproxystate",
            "-setsecurewebproxystate",
        ]
    );
    for c in op.commands.iter() {
        assert_eq!(c.args[1], "Wi-Fi");
        assert_eq!(c.args[2], "off");
    }
}

#[test]
fn reconciler_attempts_every_enabled_mode() {
    let mut c = test_config();
    c.auto_setup_pac = true;
    c.auto_setup_socks = true;
    c.auto_setup_http = false;
    c.auto_setup_https = false;
    // a PAC failure does not mask the SOCKS outcome, and vice versa
    assert!(!setup_proxies(&c, false, true, true, true));
    assert!(!setup_proxies(&c, true, false, true, true));
    assert!(setup_proxies(&c, true, true, false, false)); // disabled modes ignored
    assert!(setup_pac_proxy(&c, true));
    assert!(!setup_pac_proxy(&c, false));
    c.auto_setup_pac = false;
    assert!(setup_pac_proxy(&c, false)); // mode off: nothing attempted
    assert!(setup_socks_proxy(&c, true, false));
    c.auto_setup_http = true;
    assert!(!setup_http_proxy(&c, false, true));
}

#[test]
fn op_result_requires_all_commands_to_succeed() {
    let c = test_config();
    let op = macos::enable_web_proxy("Wi-Fi", &c);
    assert!(op_result(&op, &vec![true, true], false));
    assert!(!op_result(&op, &vec![true, false], false));
    assert!(!op_result(&op, &vec![true], true)); // runner stopped early
    let w = windows::disable_proxies();
    assert!(op_result(&w, &vec![true, true], true));
    assert!(!op_result(&w, &vec![true, true], false)); // notification failed
}
