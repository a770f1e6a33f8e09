use vstd::prelude::*;
use vstd::hash_map::StringHashMap;
use vstd::string::StringExecFns;

verus! {

/// What a caller sees of one project's process: whether it runs, and its pid.
#[derive(Clone, Copy, Debug, PartialEq, Eq)]
pub struct ProjectStatus {
    pub running: bool,
    pub pid: Option<u32>,
}

impl Default for ProjectStatus {
    fn default() -> (r: ProjectStatus)
        ensures
            r == stopped_status(),
    {
        ProjectStatus { running: false, pid: None }
    }
}

/// The snapshot of a project whose process runs with id `pid`.
pub open spec fn running_status(pid: u32) -> ProjectStatus {
    ProjectStatus { running: true, pid: Some(pid) }
}

/// The snapshot of a project whose process was stopped.
pub open spec fn stopped_status() -> ProjectStatus {
    ProjectStatus { running: false, pid: None }
}

/// Failures of the supervision protocol.
#[derive(Debug)]
pub enum MonitorError {
    /// A start was asked for a project whose process already runs.
    AlreadyRunning,
    /// A stop was asked for a project that has no process.
    NotRunning,
    /// A status was asked for a project that was never started.
    NotFound,
    /// The operating system refused to create the process; the cause.
    SpawnFailed(String),
    /// The process with this pid outlived both termination signals.
    StillRunning(u32),
}

/// The abstract content of a registry: the last status recorded for each
/// project name, and the pid of each process record.
pub struct RegistryModel {
    pub statuses: Map<Seq<char>, ProjectStatus>,
    pub pids: Map<Seq<char>, u32>,
}

/// A registry is consistent when a process record exists for exactly the
/// names whose status says running, with the same pid, and a stopped status
/// carries no pid.
pub open spec fn registry_wf(m: RegistryModel) -> bool {
    &&& forall|n: Seq<char>| #[trigger] m.pids.contains_key(n) <==> (m.statuses.contains_key(n) && m.statuses[n].running)
    &&& forall|n: Seq<char>| #[trigger] m.pids.contains_key(n) ==> m.statuses[n].pid == Some(m.pids[n])
    &&& forall|n: Seq<char>| #[trigger] m.statuses.contains_key(n) && !m.statuses[n].running ==> m.statuses[n].pid is None
}

/// Whether a process record exists for `name`.
pub open spec fn is_running(m: RegistryModel, name: Seq<char>) -> bool {
    m.pids.contains_key(name)
}

/// What `GetStatus` answers on a registry.
pub open spec fn status_outcome(m: RegistryModel, name: Seq<char>) -> Result<ProjectStatus, MonitorError> {
    if m.statuses.contains_key(name) {
        Ok(m.statuses[name])
    } else {
        Err(MonitorError::NotFound)
    }
}

/// The registry after a process with id `pid` was recorded for `name`.
pub open spec fn started(m: RegistryModel, name: Seq<char>, pid: u32) -> RegistryModel {
    RegistryModel { statuses: m.statuses.insert(name, running_status(pid)), pids: m.pids.insert(name, pid) }
}

/// The registry after the process of `name` was verified gone.
pub open spec fn stopped(m: RegistryModel, name: Seq<char>) -> RegistryModel {
    RegistryModel { statuses: m.statuses.insert(name, stopped_status()), pids: m.pids.remove(name) }
}

/// The pid of a spawn's outcome, or its failure.
pub open spec fn spawned_pid<H>(spawned: Result<(u32, H), String>) -> Result<u32, String> {
    match spawned {
        Ok(p) => Ok(p.0),
        Err(c) => Err(c),
    }
}

/// What `Start` does to a registry and answers, given what spawning the
/// process gave: a duplicate start is refused before anything else; a failed
/// spawn leaves no trace; a spawned process is recorded as running.
pub open spec fn start_outcome(m: RegistryModel, name: Seq<char>, spawned: Result<u32, String>) -> (RegistryModel, Result<ProjectStatus, MonitorError>) {
    if is_running(m, name) {
        (m, Err(MonitorError::AlreadyRunning))
    } else {
        match spawned {
            Ok(pid) => (started(m, name, pid), Ok(running_status(pid))),
            Err(cause) => (m, Err(MonitorError::SpawnFailed(cause))),
        }
    }
}

/// What `Stop` does to a registry and answers, given whether the process
/// table still listed the pid after both signals: without a record it is
/// refused; a surviving process keeps its record; otherwise the record goes
/// and the status becomes stopped.
pub open spec fn stop_outcome(m: RegistryModel, name: Seq<char>, still_alive: bool) -> (RegistryModel, Result<ProjectStatus, MonitorError>) {
    if !is_running(m, name) {
        (m, Err(MonitorError::NotRunning))
    } else if still_alive {
        (m, Err(MonitorError::StillRunning(m.pids[name])))
    } else {
        (stopped(m, name), Ok(stopped_status()))
    }
}

/// How long a process is given to exit after the graceful signal.
pub const GRACE_PERIOD_MILLIS: u64 = 500;

/// One step of the shutdown protocol, for the caller to perform.
#[derive(Clone, Copy, Debug, PartialEq, Eq)]
pub enum StopAction {
    /// Signal the process and its group: gracefully, or by force.
    Terminate { pid: u32, force: bool },
    /// Wait this many milliseconds.
    Pause { millis: u64 },
    /// Wait until the operating system reports the process exited.
    Reap,
    /// Ask the process table whether `pid` is still listed.
    CheckAlive { pid: u32 },
}

/// The shutdown protocol for the process `pid`: a graceful signal, the grace
/// period, a forced signal sent whatever became of the first, the reap, and
/// an independent check of the process table.
pub open spec fn shutdown_steps(pid: u32) -> Seq<StopAction> {
    seq![
        StopAction::Terminate { pid, force: false },
        StopAction::Pause { millis: GRACE_PERIOD_MILLIS },
        StopAction::Terminate { pid, force: true },
        StopAction::Reap,
        StopAction::CheckAlive { pid },
    ]
}

/// A shutdown in progress: the steps of `shutdown_steps` for one project's
/// process, handed out one at a time. Only `MonitorState::begin_stop`
/// creates one, and only a shutdown whose steps were all handed out can
/// conclude a stop.
pub struct Shutdown {
    name: String,
    pid: u32,
    issued: usize,
}

impl Shutdown {
    /// The project being stopped.
    pub closed spec fn name(&self) -> Seq<char> {
        self.name@
    }

    /// The pid of the process being stopped.
    pub closed spec fn pid(&self) -> u32 {
        self.pid
    }

    /// How many steps were handed out so far.
    pub closed spec fn issued(&self) -> nat {
        self.issued as nat
    }

    /// Whether every step was handed out.
    pub open spec fn complete(&self) -> bool {
        self.issued() == shutdown_steps(self.pid()).len()
    }

    /// The next step of the protocol, in order; `None` once all were given.
    pub fn next_step(&mut self) -> (r: Option<StopAction>)
        requires
            old(self).issued() <= shutdown_steps(old(self).pid()).len(),
        ensures
            final(self).name() == old(self).name(),
            final(self).pid() == old(self).pid(),
            old(self).complete() ==> r is None && final(self).issued() == old(self).issued(),
            !old(self).complete() ==> r == Some(shutdown_steps(old(self).pid())[old(self).issued() as int])
                && final(self).issued() == old(self).issued() + 1,
            final(self).issued() <= shutdown_steps(final(self).pid()).len(),
    {
        let pid = self.pid;
        let step = if self.issued == 0 {
            StopAction::Terminate { pid, force: false }
        } else if self.issued == 1 {
            StopAction::Pause { millis: GRACE_PERIOD_MILLIS }
        } else if self.issued == 2 {
            StopAction::Terminate { pid, force: true }
        } else if self.issued == 3 {
            StopAction::Reap
        } else if self.issued == 4 {
            StopAction::CheckAlive { pid }
        } else {
            return None;
        };
        self.issued = self.issued + 1;
        Some(step)
    }

    /// Whether every step was handed out.
    pub fn is_complete(&self) -> (r: bool)
        ensures
            r == self.complete(),
    {
        self.issued == 5
    }

    /// The project being stopped.
    pub fn project_name(&self) -> (r: &str)
        ensures
            r@ == self.name(),
    {
        self.name.as_str()
    }
}

/// How a project's run script is handed to the platform's shell, and the
/// directory it runs in. Its standard output and standard error are to be
/// piped to the log pump, not inherited.
pub struct ShellCommand {
    pub program: String,
    pub flag: String,
    pub line: String,
    pub dir: String,
}

/// The text `npm run ` that precedes a script name.
pub open spec fn npm_run_prefix() -> Seq<char> {
    seq!['n', 'p', 'm', ' ', 'r', 'u', 'n', ' ']
}

/// Whether `c` runs `script` through npm in the directory `dir`: `cmd /C`
/// on Windows, `sh -c` elsewhere.
pub open spec fn is_command_for(c: ShellCommand, script: Seq<char>, dir: Seq<char>, windows: bool) -> bool {
    &&& c.program@ == (if windows { seq!['c', 'm', 'd'] } else { seq!['s', 'h'] })
    &&& c.flag@ == (if windows { seq!['/', 'C'] } else { seq!['-', 'c'] })
    &&& c.line@ == npm_run_prefix() + script
    &&& c.dir@ == dir
}

/// The shell invocation that runs `script` through npm in `dir`.
pub fn shell_command(script: &str, dir: &str, windows: bool) -> (r: ShellCommand)
    ensures
        is_command_for(r, script@, dir@, windows),
{
    proof {
        reveal_strlit("cmd");
        reveal_strlit("sh");
        reveal_strlit("/C");
        reveal_strlit("-c");
        reveal_strlit("npm run ");
    }
    let program = if windows { <String as StringExecFns>::from_str("cmd") } else { <String as StringExecFns>::from_str("sh") };
    let flag = if windows { <String as StringExecFns>::from_str("/C") } else { <String as StringExecFns>::from_str("-c") };
    let mut line = <String as StringExecFns>::from_str("npm run ");
    line.append(script);
    assert(line@ =~= npm_run_prefix() + script@);
    assert(program@ == (if windows { seq!['c', 'm', 'd'] } else { seq!['s', 'h'] }));
    assert(flag@ == (if windows { seq!['/', 'C'] } else { seq!['-', 'c'] }));
    let dir = <String as StringExecFns>::from_str(dir);
    ShellCommand { program, flag, line, dir }
}

/// A log line of project `name` as it is published: `<name>: <line>`.
pub open spec fn tagged(name: Seq<char>, line: Seq<char>) -> Seq<char> {
    name + seq![':', ' '] + line
}

/// Tags one output line of project `name` for the log stream.
pub fn log_line(name: &str, line: &str) -> (r: String)
    ensures
        r@ == tagged(name@, line@),
{
    proof {
        reveal_strlit(": ");
    }
    let mut r = <String as StringExecFns>::from_str(name);
    r.append(": ");
    r.append(line);
    r
}

/// What reading one output stream of a child gave.
pub enum ReadEvent {
    /// A complete line, without its terminator.
    Line(String),
    /// The stream reached its end.
    End,
    /// The read failed.
    Failed,
}

/// What the log pump does after a read.
pub enum PumpAction {
    /// Publish this text as a log event and read on.
    Emit(String),
    /// Stop forwarding this stream.
    Finish,
}

/// The text that a pump step publishes after `ev`, if any.
pub open spec fn step_emits(name: Seq<char>, ev: ReadEvent) -> Option<Seq<char>> {
    match ev {
        ReadEvent::Line(l) => Some(tagged(name, l@)),
        _ => None,
    }
}

/// The text of a pump action, if it publishes any.
pub open spec fn action_text(a: PumpAction) -> Option<Seq<char>> {
    match a {
        PumpAction::Emit(s) => Some(s@),
        PumpAction::Finish => None,
    }
}

/// The log events that a pump publishes over the reads `events`, stopping at
/// the first read that is not a line.
pub open spec fn pump_emits(name: Seq<char>, events: Seq<ReadEvent>) -> Seq<Seq<char>>
    decreases events.len(),
{
    if events.len() == 0 {
        Seq::empty()
    } else {
        match step_emits(name, events[0]) {
            Some(t) => seq![t] + pump_emits(name, events.drop_first()),
            None => Seq::empty(),
        }
    }
}

/// One step of the log pump of project `name`: a line is published tagged
/// with the project's name; the end of the stream, or a failed read, ends
/// the forwarding of that stream.
pub fn pump_step(name: &str, ev: ReadEvent) -> (r: PumpAction)
    ensures
        action_text(r) == step_emits(name@, ev),
{
    match ev {
        ReadEvent::Line(l) => PumpAction::Emit(log_line(name, l.as_str())),
        ReadEvent::End => PumpAction::Finish,
        ReadEvent::Failed => PumpAction::Finish,
    }
}

/// One process under supervision: its pid and the caller's handle on it.
pub struct ProcessRecord<H> {
    pub pid: u32,
    pub handle: H,
}

/// The registry of project processes: one map of statuses and one of
/// process records, kept consistent with each other.
#[verifier::reject_recursive_types(H)]
pub struct MonitorState<H> {
    statuses: StringHashMap<ProjectStatus>,
    processes: StringHashMap<ProcessRecord<H>>,
}

impl<H> View for MonitorState<H> {
    type V = RegistryModel;

    closed spec fn view(&self) -> RegistryModel {
        RegistryModel {
            statuses: self.statuses@,
            pids: self.processes@.map_values(|r: ProcessRecord<H>| r.pid),
        }
    }
}

impl<H> MonitorState<H> {
    /// The consistency of the registry.
    pub open spec fn wf(&self) -> bool {
        registry_wf(self@)
    }

    /// An empty registry: nothing was ever started.
    pub fn new() -> (r: MonitorState<H>)
        ensures
            r.wf(),
            r@.statuses == Map::<Seq<char>, ProjectStatus>::empty(),
            r@.pids == Map::<Seq<char>, u32>::empty(),
    {
        let r = MonitorState { statuses: StringHashMap::new(), processes: StringHashMap::new() };
        assert(r@.pids =~= Map::<Seq<char>, u32>::empty());
        r
    }

    /// The caller's handle on the process recorded for `name`.
    pub closed spec fn handle_of(&self, name: Seq<char>) -> H {
        self.processes@[name].handle
    }

    /// Whether a process record exists for `name`, read from its status as
    /// the duplicate-start guard reads it.
    fn status_says_running(&self, name: &str) -> (r: bool)
        requires
            self.wf(),
        ensures
            r == is_running(self@, name@),
    {
        match self.statuses.get(name) {
            Some(s) => s.running,
            None => false,
        }
    }

    /// The first step of a start of `name`: `AlreadyRunning` when `name` has
    /// a process record, so that no second process is created for it;
    /// otherwise the command to spawn, which runs `script` through npm in
    /// `path`.
    pub fn plan_start(&self, name: &str, path: &str, script: &str, windows: bool) -> (r: Result<ShellCommand, MonitorError>)
        requires
            self.wf(),
        ensures
            match r {
                Ok(c) => !is_running(self@, name@) && is_command_for(c, script@, path@, windows),
                Err(e) => is_running(self@, name@) && e == MonitorError::AlreadyRunning,
            },
    {
        if self.status_says_running(name) {
            Err(MonitorError::AlreadyRunning)
        } else {
            Ok(shell_command(script, path, windows))
        }
    }

    /// Records the outcome of starting `name`: `spawned` is the pid and handle
    /// of the new process, or the cause for which it could not be created.
    /// Answers the new status snapshot.
    pub fn start_project(&mut self, name: String, spawned: Result<(u32, H), String>) -> (r: Result<ProjectStatus, MonitorError>)
        requires
            old(self).wf(),
        ensures
            final(self).wf(),
            (final(self)@, r) == start_outcome(old(self)@, name@, spawned_pid(spawned)),
            r is Ok ==> final(self).handle_of(name@) == spawned->Ok_0.1,
            r is Err ==> final(self).handle_of(name@) == old(self).handle_of(name@),
            forall|n: Seq<char>| n != name@ && is_running(old(self)@, n) ==> final(self).handle_of(n) == old(self).handle_of(n),
    {
        if self.status_says_running(name.as_str()) {
            return Err(MonitorError::AlreadyRunning);
        }
        match spawned {
            Err(cause) => Err(MonitorError::SpawnFailed(cause)),
            Ok((pid, handle)) => {
                let key = name.clone();
                self.processes.insert(key, ProcessRecord { pid, handle });
                self.statuses.insert(name, ProjectStatus { running: true, pid: Some(pid) });
                proof {
                    assert(self@.pids =~= old(self)@.pids.insert(name@, pid));
                    assert(self@.statuses =~= old(self)@.statuses.insert(name@, running_status(pid)));
                }
                Ok(ProjectStatus { running: true, pid: Some(pid) })
            },
        }
    }

    /// The handle of the process recorded for `name`, if there is one.
    pub fn handle(&self, name: &str) -> (r: Option<&H>)
        ensures
            match r {
                Some(h) => is_running(self@, name@) && *h == self.handle_of(name@),
                None => !is_running(self@, name@),
            },
    {
        match self.processes.get(name) {
            Some(rec) => Some(&rec.handle),
            None => None,
        }
    }

    /// Begins the stop of `name`: `NotRunning` when `name` has no process
    /// record; otherwise the shutdown of its process, no step handed out yet.
    pub fn begin_stop(&self, name: &str) -> (r: Result<Shutdown, MonitorError>)
        requires
            self.wf(),
        ensures
            match r {
                Ok(s) => is_running(self@, name@) && s.name() == name@ && s.pid() == self@.pids[name@]
                    && s.issued() == 0,
                Err(e) => !is_running(self@, name@) && e == MonitorError::NotRunning,
            },
    {
        match self.processes.get(name) {
            Some(rec) => Ok(Shutdown { name: <String as StringExecFns>::from_str(name), pid: rec.pid, issued: 0 }),
            None => Err(MonitorError::NotRunning),
        }
    }

    /// Concludes the stop of `shutdown`'s project once every step of the
    /// protocol was performed: `still_alive` is whether the process table
    /// still listed its pid. Answers the new status snapshot.
    pub fn stop_project(&mut self, shutdown: Shutdown, still_alive: bool) -> (r: Result<ProjectStatus, MonitorError>)
        requires
            old(self).wf(),
            shutdown.complete(),
        ensures
            final(self).wf(),
            (final(self)@, r) == stop_outcome(old(self)@, shutdown.name(), still_alive),
            forall|n: Seq<char>| n != shutdown.name() && is_running(old(self)@, n) ==> final(self).handle_of(n) == old(self).handle_of(n),
            r is Err ==> final(self).handle_of(shutdown.name()) == old(self).handle_of(shutdown.name()),
    {
        let name = shutdown.project_name();
        let pid = match self.processes.get(name) {
            Some(rec) => rec.pid,
            None => {
                return Err(MonitorError::NotRunning);
            },
        };
        if still_alive {
            return Err(MonitorError::StillRunning(pid));
        }
        self.processes.remove(name);
        self.statuses.insert(<String as StringExecFns>::from_str(name), ProjectStatus { running: false, pid: None });
        proof {
            assert(self@.pids =~= old(self)@.pids.remove(name@));
            assert(self@.statuses =~= old(self)@.statuses.insert(name@, stopped_status()));
        }
        Ok(ProjectStatus { running: false, pid: None })
    }

    /// The last status recorded for `name`; `NotFound` if none ever was.
    pub fn get_project_status(&self, name: &str) -> (r: Result<ProjectStatus, MonitorError>)
        ensures
            r == status_outcome(self@, name@),
    {
        match self.statuses.get(name) {
            Some(s) => Ok(*s),
            None => Err(MonitorError::NotFound),
        }
    }
}

} // verus!
