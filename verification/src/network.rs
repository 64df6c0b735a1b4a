//! OS proxy-setting reconciliation. Each platform backend builds the exact
//! commands that realise a proxy-setting change; the embedding program runs
//! them and reports one outcome per command. The reconciler translates
//! configuration intent into per-mode operations and combines their outcomes.
//!
//! Failure policy: within one operation the commands short-circuit (the
//! runner stops at the first failure), while the reconciler's
//! [`setup_proxies`] attempts every enabled mode even after a failure and
//! reports overall success only if all attempted modes succeeded.

pub mod linux;
pub mod macos;
pub mod windows;

use vstd::prelude::*;

use crate::config::Config;
use crate::strutil::dec_seq;

verus! {

/// One external command: a program and its arguments.
pub struct Cmd {
    pub program: String,
    pub args: Vec<String>,
}

/// A command has the given program name and exactly the given arguments.
pub open spec fn cmd_is(c: Cmd, program: Seq<char>, args: Seq<Seq<char>>) -> bool {
    c.program@ == program && c.args.deep_view() == args
}

/// One proxy-setting operation: commands to run in order, stopping at the
/// first failure, and whether the OS must be notified of the settings change
/// after all commands succeeded (Windows registry edits only).
pub struct OsOp {
    pub commands: Vec<Cmd>,
    pub notify_after: bool,
}

/// Overall outcome of one operation, given the per-command results reported
/// by the runner. The runner stops at the first failing command, so
/// `command_results` is a prefix of the command list's outcomes; the
/// operation succeeded only if every command ran and succeeded and the
/// follow-up notification (where required) succeeded too.
pub fn op_result(op: &OsOp, command_results: &Vec<bool>, notify_ok: bool) -> (r: bool)
    requires
        command_results@.len() <= op.commands@.len(),
    ensures
        r == (command_results@.len() == op.commands@.len() && (forall|i: int|
            0 <= i < command_results@.len() ==> command_results@[i]) && (op.notify_after
            ==> notify_ok)),
{
    if command_results.len() != op.commands.len() {
        return false;
    }
    let mut i: usize = 0;
    while i < command_results.len()
        invariant
            i <= command_results@.len(),
            forall|j: int| 0 <= j < i ==> command_results@[j],
        decreases command_results@.len() - i,
    {
        if !command_results[i] {
            return false;
        }
        i = i + 1;
    }
    if op.notify_after {
        notify_ok
    } else {
        true
    }
}

/// Overall outcome of an operation that a platform may not support: with no
/// supported configuration tool there is no operation to run and the change
/// is reported failed (the feature degrades to a no-op, never a crash).
pub fn opt_op_result(op: &Option<OsOp>, command_results: &Vec<bool>, notify_ok: bool) -> (r: bool)
    requires
        op is Some ==> command_results@.len() <= op->0.commands@.len(),
    ensures
        op is None ==> r == false,
        op is Some ==> r == (command_results@.len() == op->0.commands@.len() && (forall|i: int|
            0 <= i < command_results@.len() ==> command_results@[i]) && (op->0.notify_after
            ==> notify_ok)),
{
    match op {
        Some(inner) => op_result(inner, command_results, notify_ok),
        None => false,
    }
}

/// URL of the served proxy auto-configuration script, as used by the Linux
/// and macOS backends.
pub open spec fn pac_js_url(config: Config) -> Seq<char> {
    "http://"@ + config.web_server_host@ + ":"@ + dec_seq(config.web_server_port as int)
        + "/doay/proxy.js"@
}

/// Build [`pac_js_url`] for the current configuration.
pub fn pac_js_url_exec(config: &Config) -> (r: String)
    ensures
        r@ == pac_js_url(*config),
{
    let mut r = "http://".to_owned();
    r.append(config.web_server_host.as_str());
    r.append(":");
    r.append(crate::strutil::u32_to_string(config.web_server_port).as_str());
    r.append("/doay/proxy.js");
    proof {
        assert(r@ =~= pac_js_url(*config));
    }
    r
}

/// Enable every mode whose auto-setup flag is set. Every enabled mode is
/// attempted even if an earlier one failed; the result is true only if all
/// attempted modes succeeded. The `*_ok` arguments are the reported outcomes
/// of the per-mode enable operations (ignored for modes that are off).
pub fn setup_proxies(config: &Config, pac_ok: bool, socks_ok: bool, http_ok: bool, https_ok: bool) -> (r:
    bool)
    ensures
        r == ((config.auto_setup_pac ==> pac_ok) && (config.auto_setup_socks ==> socks_ok) && (
        config.auto_setup_http ==> http_ok) && (config.auto_setup_https ==> https_ok)),
{
    let mut success = true;
    if config.auto_setup_pac && !pac_ok {
        success = false;
    }
    if config.auto_setup_socks && !socks_ok {
        success = false;
    }
    if config.auto_setup_http && !http_ok {
        success = false;
    }
    if config.auto_setup_https && !https_ok {
        success = false;
    }
    success
}

/// Re-apply the auto/PAC mode after a change to its configuration; a mode
/// that is off needs no OS call and trivially succeeds.
pub fn setup_pac_proxy(config: &Config, pac_ok: bool) -> (r: bool)
    ensures
        r == (config.auto_setup_pac ==> pac_ok),
{
    if config.auto_setup_pac {
        pac_ok
    } else {
        true
    }
}

/// Re-apply the SOCKS mode after a change to its configuration, and re-apply
/// the auto/PAC mode as well since SOCKS changes can interact with it.
pub fn setup_socks_proxy(config: &Config, socks_ok: bool, pac_ok: bool) -> (r: bool)
    ensures
        r == ((config.auto_setup_socks ==> socks_ok) && (config.auto_setup_pac ==> pac_ok)),
{
    let mut success = true;
    if config.auto_setup_socks && !socks_ok {
        success = false;
    }
    if config.auto_setup_pac && !pac_ok {
        success = false;
    }
    success
}

/// Re-apply the HTTP mode after a change to its configuration, and the HTTPS
/// mode as well since both share the engine's HTTP port.
pub fn setup_http_proxy(config: &Config, http_ok: bool, https_ok: bool) -> (r: bool)
    ensures
        r == ((config.auto_setup_http ==> http_ok) && (config.auto_setup_https ==> https_ok)),
{
    let mut success = true;
    if config.auto_setup_http && !http_ok {
        success = false;
    }
    if config.auto_setup_https && !https_ok {
        success = false;
    }
    success
}

} // verus!
