//! Supervision of the external proxy engine: the owned long-running engine
//! process, a scan-and-kill sweep over the OS process table, engine paths and
//! version parsing, the engine configuration file, and the registry of
//! ephemeral engine instances launched for speed tests.
//!
//! The embedding program spawns, signals and waits on real OS processes; the
//! library decides every transition and records ownership. Each operation
//! takes the reported OS outcome as a plain value, and its contract states
//! the resulting state exactly. The process-table sweep calls the `sysinfo`
//! crate through trusted declarations below.

use vstd::prelude::*;

use crate::config::Config;
use crate::dirs::{join_path, joined};
use crate::strutil::{
    contains_seq, ends_with_seq, first_line, first_line_spec, str_contains, str_ends_with, str_eq,
    trim, trim_spec,
};

verus! {

/// The operating system the backend runs on, chosen once at startup.
#[derive(Clone, Copy, PartialEq, Eq, Structural)]
pub enum Platform {
    Linux,
    MacOs,
    Windows,
}

/// Name of the proxy engine binary on the given platform.
pub open spec fn ray_bin(platform: Platform) -> Seq<char> {
    if platform is Windows {
        "xray.exe"@
    } else {
        "xray"@
    }
}

/// Name of the proxy engine binary.
pub fn ray_binary_name(platform: &Platform) -> (r: &'static str)
    ensures
        r@ == ray_bin(*platform),
{
    match platform {
        Platform::Windows => "xray.exe",
        Platform::Linux => "xray",
        Platform::MacOs => "xray",
    }
}

/// Full path of the proxy engine binary under the engine directory.
pub fn get_ray_exe(platform: &Platform, ray_dir: &str) -> (r: String)
    ensures
        r@ == joined(ray_dir@, ray_bin(*platform)),
{
    join_path(ray_dir, ray_binary_name(platform))
}

/// Full path of the engine's own configuration file.
pub fn get_ray_config_path(conf_dir: &str) -> (r: String)
    ensures
        r@ == joined(conf_dir@, "ray_config.json"@),
{
    join_path(conf_dir, "ray_config.json")
}

/// Outcome the embedding program reports after signalling an owned process:
/// sending the termination signal failed, the signal was sent but waiting for
/// exit failed, or the OS confirmed the exit.
#[derive(Clone, Copy, PartialEq, Eq, Structural)]
pub enum StopOutcome {
    KillFailed,
    WaitFailed,
    Stopped,
}

/// Owner of the zero-or-one supervised engine process, recorded by its OS
/// process id. The embedding program holds the real child handle.
pub struct ProcessManager {
    pub child: Option<u32>,
}

impl ProcessManager {
    /// A manager owning no process.
    pub fn new() -> (r: ProcessManager)
        ensures
            r.child is None,
    {
        ProcessManager { child: None }
    }

    /// A spawn attempt is due exactly when no process is owned; the caller
    /// must not spawn otherwise.
    pub fn should_spawn(&self) -> (r: bool)
        ensures
            r == (self.child is None),
    {
        self.child.is_none()
    }

    /// State and result of `start`, given the owned slot and the reported
    /// spawn outcome: an owned process rejects the start unchanged; otherwise
    /// a successful spawn is adopted and a failed spawn leaves nothing owned.
    pub open spec fn start_transition(self, spawned: Option<u32>) -> (ProcessManager, bool) {
        if self.child is Some {
            (self, false)
        } else {
            match spawned {
                Some(pid) => (ProcessManager { child: Some(pid) }, true),
                None => (self, false),
            }
        }
    }

    /// Adopt the result of a spawn attempt. `spawned` is the process id of
    /// the newly spawned engine, or `None` when spawning failed; no spawn may
    /// be attempted while a process is owned.
    pub fn start(&mut self, spawned: Option<u32>) -> (r: bool)
        requires
            old(self).child is Some ==> spawned is None,
        ensures
            (*final(self), r) == old(self).start_transition(spawned),
    {
        if self.child.is_some() {
            return false;
        }
        match spawned {
            Some(pid) => {
                self.child = Some(pid);
                true
            },
            None => false,
        }
    }

    /// State and result of `stop`: with no owned process it fails unchanged;
    /// a failed termination signal restores ownership (the handle is not
    /// lost); a failed wait after a successful signal gives up ownership (the
    /// process is presumed terminating) but still reports failure; a
    /// confirmed exit gives up ownership and succeeds.
    pub open spec fn stop_transition(self, outcome: Option<StopOutcome>) -> (ProcessManager, bool) {
        if self.child is None {
            (self, false)
        } else {
            match outcome {
                None => (self, false),
                Some(StopOutcome::KillFailed) => (self, false),
                Some(StopOutcome::WaitFailed) => (ProcessManager { child: None }, false),
                Some(StopOutcome::Stopped) => (ProcessManager { child: None }, true),
            }
        }
    }

    /// Stop the owned process. The embedding program signals and waits only
    /// when a process is owned, and reports the outcome; with no owned
    /// process there is nothing to report and no OS call is made.
    pub fn stop(&mut self, outcome: Option<StopOutcome>) -> (r: bool)
        requires
            (outcome is Some) <==> (old(self).child is Some),
        ensures
            (*final(self), r) == old(self).stop_transition(outcome),
    {
        if self.child.is_none() {
            return false;
        }
        match outcome {
            None => false,
            Some(StopOutcome::KillFailed) => false,
            Some(StopOutcome::WaitFailed) => {
                self.child = None;
                false
            },
            Some(StopOutcome::Stopped) => {
                self.child = None;
                true
            },
        }
    }
}

/// Starting while a process is owned fails and leaves the originally started
/// process owned, whatever spawn outcome is reported.
pub proof fn lemma_second_start_rejected(s: ProcessManager, spawned: Option<u32>)
    requires
        s.child is Some,
    ensures
        s.start_transition(spawned).1 == false,
        s.start_transition(spawned).0 == s,
{
}

/// Stopping with no owned process fails and changes nothing; by `stop`'s
/// precondition no OS outcome exists to report, so no OS call was made.
pub proof fn lemma_stop_without_process(s: ProcessManager)
    requires
        s.child is None,
    ensures
        s.stop_transition(None).1 == false,
        s.stop_transition(None).0 == s,
{
}

/// One OS process as seen in a process-table snapshot: id, short name, and
/// resolved executable path when the OS could provide one.
pub struct ProcEntry {
    pub pid: u32,
    pub name: String,
    pub exe: Option<String>,
}

#[verifier::external_type_specification]
#[verifier::external_body]
pub struct ExSystem(sysinfo::System);

/// Relies on `sysinfo::System::new_all`: a snapshot of the current OS
/// process table. What it holds depends on the machine at that moment, so
/// nothing is promised of it.
#[verifier::external_body]
fn system_snapshot() -> sysinfo::System {
    sysinfo::System::new_all()
}

/// Relies on `sysinfo::System::processes`, `Process::pid`, `Process::name`
/// and `Process::exe`: the snapshot's processes as plain values, in no
/// particular order. The contents depend on the machine, so nothing is
/// promised of them.
#[verifier::external_body]
fn system_process_list(sys: &sysinfo::System) -> Vec<ProcEntry> {
    let mut v = Vec::new();
    for (pid, p) in sys.processes() {
        let exe = match p.exe() {
            Some(path) => Some(path.to_string_lossy().into_owned()),
            None => None,
        };
        v.push(ProcEntry { pid: pid.as_u32(), name: p.name().to_string_lossy().into_owned(), exe });
    }
    v
}

/// Relies on `sysinfo::System::process` and `Process::kill`: sends the kill
/// signal to the process with the given id. `None` when the snapshot has no
/// such process; `Some(true)` means only that the signal was sent
/// successfully, so nothing is promised of the result.
#[verifier::external_body]
fn system_kill(sys: &sysinfo::System, pid: u32) -> Option<bool> {
    match sys.process(sysinfo::Pid::from_u32(pid)) {
        Some(p) => Some(p.kill()),
        None => None,
    }
}

/// The force-kill sweep's matching heuristic: the short process name equals
/// the engine binary name, and the resolved executable path ends with that
/// name and contains the application's install-path marker (so unrelated
/// binaries of the same name are spared). A process whose path the OS could
/// not resolve is skipped.
pub open spec fn is_engine_proc(platform: Platform, p: ProcEntry) -> bool {
    &&& p.name@ == ray_bin(platform)
    &&& match p.exe {
        Some(e) => ends_with_seq(e@, ray_bin(platform)) && contains_seq(e@, "doay"@),
        None => false,
    }
}

/// Whether one process-table entry matches the force-kill heuristic.
pub fn engine_process_matches(platform: &Platform, p: &ProcEntry) -> (r: bool)
    ensures
        r == is_engine_proc(*platform, *p),
{
    let bin = ray_binary_name(platform);
    if !str_eq(p.name.as_str(), bin) {
        return false;
    }
    match &p.exe {
        Some(e) => str_ends_with(e.as_str(), bin) && str_contains(e.as_str(), "doay"),
        None => false,
    }
}

/// Ids of the processes matching the force-kill heuristic, in table order.
pub open spec fn engine_pids_spec(platform: Platform, procs: Seq<ProcEntry>) -> Seq<u32>
    decreases procs.len(),
{
    if procs.len() == 0 {
        Seq::empty()
    } else {
        let rest = engine_pids_spec(platform, procs.drop_last());
        if is_engine_proc(platform, procs.last()) {
            rest.push(procs.last().pid)
        } else {
            rest
        }
    }
}

/// With no matching process there is nothing to kill.
pub proof fn lemma_no_match_no_kill(platform: Platform, procs: Seq<ProcEntry>)
    requires
        forall|i: int| 0 <= i < procs.len() ==> !is_engine_proc(platform, #[trigger] procs[i]),
    ensures
        engine_pids_spec(platform, procs) == Seq::<u32>::empty(),
    decreases procs.len(),
{
    if procs.len() > 0 {
        lemma_no_match_no_kill(platform, procs.drop_last());
        assert(engine_pids_spec(platform, procs) =~= Seq::<u32>::empty());
    }
}

/// Select the processes to kill from a process-table snapshot.
pub fn select_engine_pids(platform: &Platform, procs: &Vec<ProcEntry>) -> (r: Vec<u32>)
    ensures
        r@ == engine_pids_spec(*platform, procs@),
{
    let mut r: Vec<u32> = Vec::new();
    let mut i: usize = 0;
    while i < procs.len()
        invariant
            i <= procs@.len(),
            r@ == engine_pids_spec(*platform, procs@.take(i as int)),
        decreases procs@.len() - i,
    {
        let ghost prefix = procs@.take(i as int);
        if engine_process_matches(platform, &procs[i]) {
            r.push(procs[i].pid);
        }
        proof {
            assert(procs@.take(i + 1).drop_last() =~= prefix);
            assert(procs@.take(i + 1).last() == procs@[i as int]);
        }
        i = i + 1;
    }
    proof {
        assert(procs@.take(procs@.len() as int) =~= procs@);
    }
    r
}

/// Kill every matching process of the snapshot: one kill per matched process
/// and no other, with the reported outcomes returned alongside the verdict.
/// The verdict is true only if every matched process was reported killed; an
/// empty match set yields no kill and a trivial success. Each outcome itself
/// is up to the OS.
pub fn kill_engine_processes(sys: &sysinfo::System, platform: &Platform, procs: &Vec<ProcEntry>) -> (r:
    (bool, Vec<bool>))
    ensures
        r.1@.len() == engine_pids_spec(*platform, procs@).len(),
        r.0 == (forall|i: int| 0 <= i < r.1@.len() ==> r.1@[i]),
{
    let targets = select_engine_pids(platform, procs);
    let mut outcomes: Vec<bool> = Vec::new();
    let mut success = true;
    let mut i: usize = 0;
    while i < targets.len()
        invariant
            i <= targets@.len(),
            outcomes@.len() == i,
            success == (forall|j: int| 0 <= j < i ==> outcomes@[j]),
        decreases targets@.len() - i,
    {
        let killed = match system_kill(sys, targets[i]) {
            Some(ok) => ok,
            None => false,
        };
        let ghost before = outcomes@;
        outcomes.push(killed);
        proof {
            if success {
                if killed {
                    assert forall|j: int| 0 <= j < i + 1 implies outcomes@[j] by {
                        if j < i {
                            assert(before[j]);
                        }
                    }
                } else {
                    assert(!outcomes@[i as int]);
                }
            } else {
                let w = choose|j: int| 0 <= j < i && !before[j];
                assert(!outcomes@[w]);
            }
        }
        if !killed {
            success = false;
        }
        i = i + 1;
    }
    (success, outcomes)
}

/// Scan-and-kill sweep independent of the owned-handle model: enumerate all
/// OS processes and kill every one matching the engine heuristic, returning
/// the per-process outcomes and a verdict that is true only if every matched
/// process was reported killed (an empty match set kills nothing and succeeds
/// vacuously). This exists because a crashed or detached engine may not be
/// reachable through the owned handle. Which processes match is fixed by the
/// snapshot, which depends on the machine at that moment.
pub fn force_kill(platform: &Platform) -> (r: (bool, Vec<bool>))
    ensures
        r.0 == (forall|i: int| 0 <= i < r.1@.len() ==> r.1@[i]),
{
    let sys = system_snapshot();
    let procs = system_process_list(&sys);
    kill_engine_processes(&sys, platform, &procs)
}

/// Result of the stop / force-kill / start restart sequence. A disabled
/// engine rejects the restart outright, before any OS call; otherwise the
/// three stages run in order, each only if the previous succeeded, and all
/// three must succeed. The embedding program reports each attempted stage's
/// outcome; `None` means the stage was never reached.
pub fn restart(
    config: &Config,
    stop_ok: Option<bool>,
    force_kill_ok: Option<bool>,
    start_ok: Option<bool>,
) -> (r: bool)
    requires
        (stop_ok is Some) == config.ray_enable,
        (force_kill_ok is Some) == (stop_ok == Some(true)),
        (start_ok is Some) == (force_kill_ok == Some(true)),
    ensures
        r == (config.ray_enable && stop_ok == Some(true) && force_kill_ok == Some(true) && start_ok
            == Some(true)),
{
    if !config.ray_enable {
        return false;
    }
    match stop_ok {
        Some(true) => {},
        _ => {
            return false;
        },
    }
    match force_kill_ok {
        Some(true) => match start_ok {
            Some(ok) => ok,
            None => false,
        },
        _ => false,
    }
}

/// Version string of the engine, parsed from the output of the engine's
/// version query: the first line of its standard output, trimmed. `output`
/// is that standard output when the query ran and exited successfully, and
/// `None` otherwise; any failure yields the empty string.
pub fn get_ray_version(output: &Option<String>) -> (r: String)
    ensures
        match output {
            Some(out) => r@ == trim_spec(first_line_spec(out@)),
            None => r@ == Seq::<char>::empty(),
        },
{
    match output {
        Some(out) => {
            let line = first_line(out.as_str());
            trim(line.as_str())
        },
        None => String::new(),
    }
}

/// The engine's own configuration document, as last known to be on disk.
/// The embedding program mirrors every save to the real file.
pub struct RayConfigFile {
    pub content: Option<String>,
}

impl RayConfigFile {
    /// Before any save: no known-good content.
    pub fn new() -> (r: RayConfigFile)
        ensures
            r.content is None,
    {
        RayConfigFile { content: None }
    }
}

/// The engine-config content a save leaves behind: the written document on a
/// successful write, no known-good content on a failed one (the file on disk
/// may be partial).
pub open spec fn save_ray_config_spec(content: Seq<char>, written: bool) -> Option<Seq<char>> {
    if written {
        Some(content)
    } else {
        None
    }
}

/// Saving a document and reading it back yields exactly the saved text, so
/// parsing what was read equals parsing what was saved.
pub proof fn lemma_ray_config_round_trip(content: Seq<char>)
    ensures
        save_ray_config_spec(content, true) == Some(content),
{
}

/// Record a save of the engine configuration. `written` reports whether the
/// embedding program wrote the file successfully.
pub fn save_ray_config(file: &mut RayConfigFile, content: &str, written: bool) -> (r: bool)
    ensures
        r == written,
        final(file).content.deep_view() == save_ray_config_spec(content@, written),
{
    if written {
        file.content = Some(content.to_owned());
    } else {
        file.content = None;
    }
    written
}

/// The engine configuration as last saved, or `None` when none is known.
pub fn read_ray_config(file: &RayConfigFile) -> (r: Option<String>)
    ensures
        r.deep_view() == file.content.deep_view(),
{
    match &file.content {
        Some(c) => Some(c.clone()),
        None => None,
    }
}

/// First index at or after `from` whose entry is keyed by `port`, or the
/// length of `entries` when there is none.
pub open spec fn port_index(entries: Seq<(u16, u32)>, port: u16, from: int) -> int
    decreases entries.len() - from,
{
    if from < 0 || from >= entries.len() {
        entries.len() as int
    } else if entries[from].0 == port {
        from
    } else {
        port_index(entries, port, from + 1)
    }
}

pub proof fn lemma_port_index(entries: Seq<(u16, u32)>, port: u16, from: int)
    requires
        0 <= from <= entries.len(),
    ensures
        from <= port_index(entries, port, from) <= entries.len(),
        port_index(entries, port, from) < entries.len() ==> entries[port_index(
            entries,
            port,
            from,
        )].0 == port,
        forall|j: int| from <= j < port_index(entries, port, from) ==> entries[j].0 != port,
    decreases entries.len() - from,
{
    if from < entries.len() && entries[from].0 != port {
        lemma_port_index(entries, port, from + 1);
    }
}

proof fn lemma_port_index_pin(entries: Seq<(u16, u32)>, port: u16, from: int, i: int)
    requires
        0 <= from <= i < entries.len(),
        entries[i].0 == port,
        forall|j: int| from <= j < i ==> entries[j].0 != port,
    ensures
        port_index(entries, port, from) == i,
    decreases i - from,
{
    if from < i {
        lemma_port_index_pin(entries, port, from + 1, i);
    }
}

/// Some entry is keyed by `port`.
pub open spec fn has_port(entries: Seq<(u16, u32)>, port: u16) -> bool {
    exists|i: int| 0 <= i < entries.len() && entries[i].0 == port
}

/// Each port keys at most one entry.
pub open spec fn ports_unique(entries: Seq<(u16, u32)>) -> bool {
    forall|i: int, j: int|
        0 <= i < j < entries.len() ==> (#[trigger] entries[i]).0 != (#[trigger] entries[j]).0
}

/// Registry of ephemeral engine instances, keyed by the TCP port each is
/// configured to use. The embedding program holds the real child handles.
pub struct ServerRegistry {
    pub entries: Vec<(u16, u32)>,
}

impl ServerRegistry {
    /// Each port keys at most one running instance.
    pub open spec fn wf(self) -> bool {
        ports_unique(self.entries@)
    }

    /// An empty registry.
    pub fn new() -> (r: ServerRegistry)
        ensures
            r.entries@ == Seq::<(u16, u32)>::empty(),
            r.wf(),
    {
        ServerRegistry { entries: Vec::new() }
    }

    /// Number of running instances.
    pub fn server_count(&self) -> (r: usize)
        ensures
            r == self.entries@.len(),
    {
        self.entries.len()
    }

    /// Whether an instance is already registered on `port`.
    pub fn server_port_in_use(&self, port: u16) -> (r: bool)
        ensures
            r == has_port(self.entries@, port),
    {
        let mut i: usize = 0;
        while i < self.entries.len()
            invariant
                i <= self.entries@.len(),
                forall|j: int| 0 <= j < i ==> self.entries@[j].0 != port,
            decreases self.entries@.len() - i,
        {
            if self.entries[i].0 == port {
                return true;
            }
            i = i + 1;
        }
        false
    }
}

/// State and result of `start_speed_test_server`: an in-use port or a missing
/// configuration file rejects the start before any spawn; otherwise a
/// successful spawn is registered and a failed spawn changes nothing.
pub open spec fn start_server_transition(
    entries: Seq<(u16, u32)>,
    port: u16,
    conf_exists: bool,
    spawned: Option<u32>,
) -> (Seq<(u16, u32)>, bool) {
    if has_port(entries, port) {
        (entries, false)
    } else if !conf_exists {
        (entries, false)
    } else {
        match spawned {
            Some(pid) => (entries.push((port, pid)), true),
            None => (entries, false),
        }
    }
}

/// Starting on an in-use port fails and leaves the registry unchanged, in
/// particular its size.
pub proof fn lemma_duplicate_server_start_rejected(
    entries: Seq<(u16, u32)>,
    port: u16,
    conf_exists: bool,
)
    requires
        has_port(entries, port),
    ensures
        start_server_transition(entries, port, conf_exists, None).1 == false,
        start_server_transition(entries, port, conf_exists, None).0 == entries,
{
}

/// Register an ephemeral engine instance on `port`. `conf_exists` reports
/// whether the named speed-test configuration file exists; `spawned` is the
/// process id of the spawned instance, or `None` when the spawn failed or —
/// as the precondition demands — was never attempted because the start was
/// rejected first.
pub fn start_speed_test_server(
    reg: &mut ServerRegistry,
    port: u16,
    conf_exists: bool,
    spawned: Option<u32>,
) -> (r: bool)
    requires
        old(reg).wf(),
        (has_port(old(reg).entries@, port) || !conf_exists) ==> spawned is None,
    ensures
        (final(reg).entries@, r) == start_server_transition(
            old(reg).entries@,
            port,
            conf_exists,
            spawned,
        ),
        final(reg).wf(),
{
    if reg.server_port_in_use(port) {
        return false;
    }
    if !conf_exists {
        return false;
    }
    match spawned {
        Some(pid) => {
            reg.entries.push((port, pid));
            proof {
                assert forall|i: int, j: int| 0 <= i < j < reg.entries@.len() implies (
                #[trigger] reg.entries@[i]).0 != (#[trigger] reg.entries@[j]).0 by {
                    if j == reg.entries@.len() - 1 {
                        assert(!has_port(old(reg).entries@, port));
                        assert(old(reg).entries@[i].0 != port);
                    }
                }
            }
            true
        },
        None => false,
    }
}

/// State and result of `stop_speed_test_server`: an unknown port fails
/// unchanged; a failed termination signal keeps the instance registered; a
/// failed wait after a successful signal removes it but still reports
/// failure; a confirmed exit removes it and succeeds.
pub open spec fn stop_server_transition(
    entries: Seq<(u16, u32)>,
    port: u16,
    outcome: Option<StopOutcome>,
) -> (Seq<(u16, u32)>, bool) {
    let i = port_index(entries, port, 0);
    if i >= entries.len() {
        (entries, false)
    } else {
        match outcome {
            None => (entries, false),
            Some(StopOutcome::KillFailed) => (entries, false),
            Some(StopOutcome::WaitFailed) => (entries.remove(i), false),
            Some(StopOutcome::Stopped) => (entries.remove(i), true),
        }
    }
}

/// Stop the ephemeral instance on `port`. The embedding program signals and
/// waits only when the port is registered, and reports the outcome; with no
/// instance on the port there is nothing to report and no OS call is made.
pub fn stop_speed_test_server(reg: &mut ServerRegistry, port: u16, outcome: Option<StopOutcome>) -> (r:
    bool)
    requires
        old(reg).wf(),
        (outcome is Some) <==> has_port(old(reg).entries@, port),
    ensures
        (final(reg).entries@, r) == stop_server_transition(old(reg).entries@, port, outcome),
        final(reg).wf(),
{
    proof {
        lemma_port_index(reg.entries@, port, 0);
    }
    let n = reg.entries.len();
    let mut i: usize = 0;
    while i < n
        invariant
            old(reg) == reg,
            old(reg).wf(),
            (outcome is Some) <==> has_port(old(reg).entries@, port),
            n == reg.entries@.len(),
            i <= n,
            forall|j: int| 0 <= j < i ==> reg.entries@[j].0 != port,
        decreases n - i,
    {
        if reg.entries[i].0 == port {
            proof {
                lemma_port_index_pin(reg.entries@, port, 0, i as int);
            }
            match outcome {
                None => {
                    proof {
                        assert(has_port(reg.entries@, port));
                        assert(false);
                    }
                    return false;
                },
                Some(StopOutcome::KillFailed) => {
                    return false;
                },
                Some(StopOutcome::WaitFailed) => {
                    let ghost before = reg.entries@;
                    reg.entries.remove(i);
                    proof {
                        lemma_remove_keeps_unique(before, i as int);
                    }
                    return false;
                },
                Some(StopOutcome::Stopped) => {
                    let ghost before = reg.entries@;
                    reg.entries.remove(i);
                    proof {
                        lemma_remove_keeps_unique(before, i as int);
                    }
                    return true;
                },
            }
        }
        i = i + 1;
    }
    proof {
        if has_port(reg.entries@, port) {
            let witness = choose|j: int| 0 <= j < reg.entries@.len() && reg.entries@[j].0 == port;
            assert(reg.entries@[witness].0 != port);
        }
        lemma_port_index(reg.entries@, port, 0);
    }
    false
}

proof fn lemma_remove_keeps_unique(entries: Seq<(u16, u32)>, i: int)
    requires
        ports_unique(entries),
        0 <= i < entries.len(),
    ensures
        ports_unique(entries.remove(i)),
{
    let removed = entries.remove(i);
    assert forall|a: int, b: int| 0 <= a < b < removed.len() implies (#[trigger] removed[a]).0 != (
    #[trigger] removed[b]).0 by {
        let a0 = if a < i {
            a
        } else {
            a + 1
        };
        let b0 = if b < i {
            b
        } else {
            b + 1
        };
        assert(removed[a] == entries[a0]);
        assert(removed[b] == entries[b0]);
    }
}

} // verus!
