//! Lifecycle of the local inference engine (`llama-server`): its status,
//! the arguments it is started with, and the decisions of starting it with
//! bounded retries and health polling.

use vstd::prelude::*;
use crate::llm::{local_url, local_url_of};
use crate::text::{decimal, decimal_string};

verus! {

/// The state of the inference engine.
#[derive(Debug, Clone, Copy, PartialEq, Eq, Structural)]
pub enum SidecarStatus {
    Stopped,
    Starting,
    Ready,
    Error,
}

/// How many times starting the engine is attempted.
pub const DEFAULT_MAX_RETRIES: u32 = 3;

/// How many health polls an attempt makes before it is given up.
pub const HEALTH_POLLS: u32 = 30;

/// Milliseconds slept before each health poll.
pub const POLL_DELAY_MS: u64 = 300;

/// Milliseconds slept after a failed spawn before the next attempt.
pub const RETRY_DELAY_MS: u64 = 500;

/// The inference engine as the application manages it: where its executable
/// and model are, the port it listens on, and its status.
pub struct SidecarManager {
    server_bin: String,
    model_path: String,
    port: u16,
    state: EngineState,
    max_retries: u32,
}

/// The engine's status together with how far starting it has come.
#[derive(Debug, Clone, Copy, PartialEq, Eq, Structural)]
pub struct EngineState {
    pub status: SidecarStatus,
    pub phase: StartPhase,
}

impl SidecarManager {
    /// Path of the engine executable.
    pub closed spec fn spec_server_bin(&self) -> Seq<char> {
        self.server_bin@
    }

    /// Path of the model file.
    pub closed spec fn spec_model_path(&self) -> Seq<char> {
        self.model_path@
    }

    /// Port the engine listens on.
    pub closed spec fn spec_port(&self) -> u16 {
        self.port
    }

    /// The engine's status.
    pub closed spec fn spec_status(&self) -> SidecarStatus {
        self.state.status
    }

    /// How far starting the engine has come.
    pub closed spec fn spec_phase(&self) -> StartPhase {
        self.state.phase
    }

    /// The start-up phase is consistent with the status and the attempts
    /// allowed.
    #[verifier::type_invariant]
    closed spec fn wf(self) -> bool {
        start_wf(self.state.phase, self.state.status, self.max_retries)
    }

    /// How many start attempts are made.
    pub closed spec fn spec_max_retries(&self) -> u32 {
        self.max_retries
    }

    /// A stopped engine with the given executable, model and port, started
    /// with up to three attempts.
    pub fn new(server_bin: String, model_path: String, port: u16) -> (r: SidecarManager)
        ensures
            r.spec_server_bin() == server_bin@,
            r.spec_model_path() == model_path@,
            r.spec_port() == port,
            r.spec_status() == SidecarStatus::Stopped,
            r.spec_phase() == StartPhase::Idle,
            r.spec_max_retries() == DEFAULT_MAX_RETRIES,
    {
        SidecarManager {
            server_bin,
            model_path,
            port,
            state: EngineState { status: SidecarStatus::Stopped, phase: StartPhase::Idle },
            max_retries: DEFAULT_MAX_RETRIES,
        }
    }

    /// Points the manager at another executable and model.
    pub fn update_paths(&mut self, server_bin: String, model_path: String)
        ensures
            final(self).spec_server_bin() == server_bin@,
            final(self).spec_model_path() == model_path@,
            final(self).spec_port() == old(self).spec_port(),
            final(self).spec_status() == old(self).spec_status(),
            final(self).spec_phase() == old(self).spec_phase(),
            final(self).spec_max_retries() == old(self).spec_max_retries(),
    {
        proof {
            use_type_invariant(&*self);
        }
        self.server_bin = server_bin;
        self.model_path = model_path;
    }

    /// The engine's status.
    pub fn status(&self) -> (r: SidecarStatus)
        ensures
            r == self.spec_status(),
    {
        self.state.status
    }

    /// How far starting the engine has come.
    pub fn start_phase(&self) -> (r: StartPhase)
        ensures
            r == self.spec_phase(),
    {
        self.state.phase
    }

    /// Whether the engine is ready.
    pub fn is_ready(&self) -> (r: bool)
        ensures
            r == (self.spec_status() == SidecarStatus::Ready),
    {
        self.state.status == SidecarStatus::Ready
    }

    /// The port the engine listens on.
    pub fn port(&self) -> (r: u16)
        ensures
            r == self.spec_port(),
    {
        self.port
    }

    /// The path of the engine executable.
    pub fn server_bin(&self) -> (r: &str)
        ensures
            r@ == self.spec_server_bin(),
    {
        self.server_bin.as_str()
    }

    /// The path of the model file.
    pub fn model_path(&self) -> (r: &str)
        ensures
            r@ == self.spec_model_path(),
    {
        self.model_path.as_str()
    }

    /// Marks the engine stopped, once its process, if any, is ended; any
    /// start in progress is abandoned.
    pub fn stop(&mut self) -> (r: Result<(), String>)
        ensures
            r is Ok,
            final(self).spec_status() == SidecarStatus::Stopped,
            final(self).spec_phase() == StartPhase::Idle,
            final(self).spec_server_bin() == old(self).spec_server_bin(),
            final(self).spec_model_path() == old(self).spec_model_path(),
            final(self).spec_port() == old(self).spec_port(),
            final(self).spec_max_retries() == old(self).spec_max_retries(),
    {
        self.state = EngineState { status: SidecarStatus::Stopped, phase: StartPhase::Idle };
        Ok(())
    }

    /// The URL of the engine's health endpoint.
    pub fn health_url(&self) -> (r: String)
        ensures
            r@ == local_url_of(self.spec_port(), "/health"@),
    {
        local_url(self.port, "/health")
    }

    /// The arguments the engine is started with: the model, the port, a
    /// context of 4096 tokens, and the loopback host.
    pub fn spawn_args(&self) -> (r: Vec<String>)
        ensures
            r@.len() == 8,
            r@[0]@ == "-m"@,
            r@[1]@ == self.spec_model_path(),
            r@[2]@ == "--port"@,
            r@[3]@ == decimal(self.spec_port() as nat),
            r@[4]@ == "-c"@,
            r@[5]@ == "4096"@,
            r@[6]@ == "--host"@,
            r@[7]@ == "127.0.0.1"@,
    {
        let mut r: Vec<String> = Vec::new();
        r.push(String::from_str("-m"));
        r.push(self.model_path.clone());
        r.push(String::from_str("--port"));
        r.push(decimal_string(self.port as u64));
        r.push(String::from_str("-c"));
        r.push(String::from_str("4096"));
        r.push(String::from_str("--host"));
        r.push(String::from_str("127.0.0.1"));
        r
    }
}

/// Why starting the engine failed.
#[derive(Debug, PartialEq, Eq)]
pub enum StartError {
    /// The engine executable is not at its path.
    ServerBinMissing,
    /// The model file is not at its path.
    ModelMissing,
    /// The last attempt could not spawn the process; the message says why.
    SpawnFailed(String),
    /// No attempt answered its health check; the number of attempts made.
    NeverReady(u32),
}

/// Where starting the engine stands.
#[derive(Debug, Clone, Copy, PartialEq, Eq, Structural)]
pub enum StartPhase {
    /// Not begun.
    Idle,
    /// A ready engine's health is being checked.
    CheckingHealth,
    /// The executable and model are being looked for.
    CheckingFiles,
    /// Attempt `attempt` is stopping any stale process and spawning one.
    Spawning { attempt: u32 },
    /// Attempt `attempt` slept before poll `poll` and checks whether the
    /// process has exited.
    CheckingExit { attempt: u32, poll: u32 },
    /// Attempt `attempt` checks the health endpoint at poll `poll`.
    CheckingReady { attempt: u32, poll: u32 },
    /// Attempt `attempt` failed to spawn and is sleeping before the next.
    BackingOff { attempt: u32 },
    /// Starting has ended.
    Done,
}

/// What the start-up is told as it goes.
#[derive(Debug, PartialEq, Eq)]
pub enum StartEvent {
    /// The answer of the health endpoint.
    HealthChecked(bool),
    /// Whether the executable and the model exist.
    FilesChecked { server_bin_exists: bool, model_exists: bool },
    /// The outcome of spawning the process.
    Spawned(Result<(), String>),
    /// Whether the process has exited.
    ExitChecked(bool),
    /// The back-off sleep is over.
    Slept,
}

/// What the start-up asks to be done next.
#[derive(Debug, PartialEq, Eq)]
pub enum StartAction {
    /// Ask the health endpoint.
    CheckHealth,
    /// Look for the executable and the model.
    CheckFiles,
    /// End any stale process, then spawn the engine with `spawn_args`.
    StopAndSpawn,
    /// Sleep this long, then check whether the process has exited.
    SleepThenCheckExit { millis: u64 },
    /// Sleep this long before the next attempt.
    Sleep { millis: u64 },
    /// End any stale process, then report the outcome.
    StopAndFinish(Result<(), StartError>),
    /// Report the outcome.
    Finish(Result<(), StartError>),
    /// The event was not one the start-up waits for; nothing is to be done.
    Ignore,
}

/// The phase is consistent with the number of attempts allowed and with
/// the engine's status.
pub open spec fn start_wf(p: StartPhase, status: SidecarStatus, max: u32) -> bool {
    match p {
        StartPhase::CheckingHealth => status == SidecarStatus::Ready,
        StartPhase::Spawning { attempt } => 1 <= attempt <= max && status == SidecarStatus::Starting,
        StartPhase::BackingOff { attempt } => 1 <= attempt < max && status == SidecarStatus::Starting,
        StartPhase::CheckingExit { attempt, poll } => 1 <= attempt <= max && 1 <= poll <= HEALTH_POLLS
            && status == SidecarStatus::Starting,
        StartPhase::CheckingReady { attempt, poll } => 1 <= attempt <= max && 1 <= poll <= HEALTH_POLLS
            && status == SidecarStatus::Starting,
        _ => true,
    }
}

/// How far the start-up is from its end, compared first by the attempts
/// left and then by the steps left within an attempt.
pub open spec fn progress_key(p: StartPhase, max: u32) -> (nat, nat) {
    match p {
        StartPhase::Idle => ((max + 2) as nat, 3),
        StartPhase::CheckingHealth => ((max + 2) as nat, 2),
        StartPhase::CheckingFiles => ((max + 2) as nat, 1),
        StartPhase::Spawning { attempt } => ((max + 1 - attempt) as nat, 100),
        StartPhase::BackingOff { attempt } => ((max + 1 - attempt) as nat, 0),
        StartPhase::CheckingExit { attempt, poll } => ((max + 1 - attempt) as nat, (2 * (HEALTH_POLLS - poll) + 3) as nat),
        StartPhase::CheckingReady { attempt, poll } => ((max + 1 - attempt) as nat, (2 * (HEALTH_POLLS - poll) + 2) as nat),
        StartPhase::Done => (0, 0),
    }
}

/// `a` comes strictly before `b` in lexicographic order.
pub open spec fn key_lt(a: (nat, nat), b: (nat, nat)) -> bool {
    a.0 < b.0 || (a.0 == b.0 && a.1 < b.1)
}

/// The phase waits for this kind of event.
pub open spec fn start_awaits(p: StartPhase, e: StartEvent) -> bool {
    match p {
        StartPhase::Idle => false,
        StartPhase::CheckingHealth => e is HealthChecked,
        StartPhase::CheckingFiles => e is FilesChecked,
        StartPhase::Spawning { .. } => e is Spawned,
        StartPhase::CheckingExit { .. } => e is ExitChecked,
        StartPhase::CheckingReady { .. } => e is HealthChecked,
        StartPhase::BackingOff { .. } => e is Slept,
        StartPhase::Done => false,
    }
}

/// The phase after attempt `attempt` found no ready engine: the next
/// attempt, or the end once all attempts are used.
pub open spec fn after_failed_attempt(attempt: u32, max: u32) -> (StartPhase, StartAction, SidecarStatus) {
    if attempt < max {
        (StartPhase::Spawning { attempt: (attempt + 1) as u32 }, StartAction::StopAndSpawn, SidecarStatus::Starting)
    } else {
        (StartPhase::Done, StartAction::StopAndFinish(Err(StartError::NeverReady(max))), SidecarStatus::Error)
    }
}

/// The first step of starting the engine: a ready engine's health is
/// checked first; otherwise the executable and model are looked for.
pub open spec fn start_begin_spec(status: SidecarStatus) -> (StartPhase, StartAction, SidecarStatus) {
    if status == SidecarStatus::Ready {
        (StartPhase::CheckingHealth, StartAction::CheckHealth, status)
    } else {
        (StartPhase::CheckingFiles, StartAction::CheckFiles, status)
    }
}

/// The decisions of one step of starting the engine: the next phase, the
/// action, and the status afterwards.
pub open spec fn start_step_spec(
    status: SidecarStatus,
    max: u32,
    p: StartPhase,
    e: StartEvent,
) -> (StartPhase, StartAction, SidecarStatus) {
    if !start_awaits(p, e) {
        (p, StartAction::Ignore, status)
    } else {
        match p {
            StartPhase::Idle => (p, StartAction::Ignore, status),
            StartPhase::CheckingHealth => if e == StartEvent::HealthChecked(true) {
                (StartPhase::Done, StartAction::Finish(Ok(())), status)
            } else {
                (StartPhase::CheckingFiles, StartAction::CheckFiles, status)
            },
            StartPhase::CheckingFiles => match e {
                StartEvent::FilesChecked { server_bin_exists, model_exists } => if !server_bin_exists {
                    (StartPhase::Done, StartAction::Finish(Err(StartError::ServerBinMissing)), SidecarStatus::Error)
                } else if !model_exists {
                    (StartPhase::Done, StartAction::Finish(Err(StartError::ModelMissing)), SidecarStatus::Error)
                } else if max == 0 {
                    (StartPhase::Done, StartAction::StopAndFinish(Err(StartError::NeverReady(0))), SidecarStatus::Error)
                } else {
                    (StartPhase::Spawning { attempt: 1 }, StartAction::StopAndSpawn, SidecarStatus::Starting)
                },
                _ => (p, StartAction::Ignore, status),
            },
            StartPhase::Spawning { attempt } => match e {
                StartEvent::Spawned(Ok(())) => (
                    StartPhase::CheckingExit { attempt, poll: 1 },
                    StartAction::SleepThenCheckExit { millis: POLL_DELAY_MS },
                    SidecarStatus::Starting,
                ),
                StartEvent::Spawned(Err(msg)) => if attempt == max {
                    (StartPhase::Done, StartAction::Finish(Err(StartError::SpawnFailed(msg))), SidecarStatus::Error)
                } else {
                    (StartPhase::BackingOff { attempt }, StartAction::Sleep { millis: RETRY_DELAY_MS }, SidecarStatus::Starting)
                },
                _ => (p, StartAction::Ignore, status),
            },
            StartPhase::BackingOff { attempt } => (
                StartPhase::Spawning { attempt: (attempt + 1) as u32 },
                StartAction::StopAndSpawn,
                SidecarStatus::Starting,
            ),
            StartPhase::CheckingExit { attempt, poll } => if e == StartEvent::ExitChecked(true) {
                after_failed_attempt(attempt, max)
            } else {
                (StartPhase::CheckingReady { attempt, poll }, StartAction::CheckHealth, SidecarStatus::Starting)
            },
            StartPhase::CheckingReady { attempt, poll } => if e == StartEvent::HealthChecked(true) {
                (StartPhase::Done, StartAction::Finish(Ok(())), SidecarStatus::Ready)
            } else if poll < HEALTH_POLLS {
                (
                    StartPhase::CheckingExit { attempt, poll: (poll + 1) as u32 },
                    StartAction::SleepThenCheckExit { millis: POLL_DELAY_MS },
                    SidecarStatus::Starting,
                )
            } else {
                after_failed_attempt(attempt, max)
            },
            StartPhase::Done => (p, StartAction::Ignore, status),
        }
    }
}

fn failed_attempt(attempt: u32, max: u32) -> (r: (StartPhase, StartAction, SidecarStatus))
    requires
        1 <= attempt <= max,
    ensures
        r == after_failed_attempt(attempt, max),
{
    if attempt < max {
        (StartPhase::Spawning { attempt: attempt + 1 }, StartAction::StopAndSpawn, SidecarStatus::Starting)
    } else {
        (StartPhase::Done, StartAction::StopAndFinish(Err(StartError::NeverReady(max))), SidecarStatus::Error)
    }
}

impl SidecarManager {
    /// Begins starting the engine, abandoning any start in progress: a ready
    /// engine's health is checked first; otherwise the executable and the
    /// model are looked for.
    pub fn begin_start(&mut self) -> (action: StartAction)
        ensures
            ({
                let (p2, a2, s2) = start_begin_spec(old(self).spec_status());
                &&& final(self).spec_phase() == p2
                &&& action == a2
                &&& final(self).spec_status() == s2
            }),
            old(self).spec_status() != SidecarStatus::Ready ==> action == StartAction::CheckFiles
                && final(self).spec_phase() == StartPhase::CheckingFiles,
            old(self).spec_status() == SidecarStatus::Ready ==> action == StartAction::CheckHealth
                && final(self).spec_phase() == StartPhase::CheckingHealth,
            final(self).spec_status() == old(self).spec_status(),
            final(self).spec_server_bin() == old(self).spec_server_bin(),
            final(self).spec_model_path() == old(self).spec_model_path(),
            final(self).spec_port() == old(self).spec_port(),
            final(self).spec_max_retries() == old(self).spec_max_retries(),
    {
        let status = self.state.status;
        if status == SidecarStatus::Ready {
            self.state = EngineState { status, phase: StartPhase::CheckingHealth };
            StartAction::CheckHealth
        } else {
            self.state = EngineState { status, phase: StartPhase::CheckingFiles };
            StartAction::CheckFiles
        }
    }

    /// Takes one event of starting the engine and updates its status. A ready
    /// engine that answers its health check is left as it is. Otherwise a
    /// missing executable or model ends the start with an error. Each of up
    /// to `max_retries` attempts stops any stale process and spawns a new
    /// one; a spawn that fails sleeps 500 ms and tries again, or ends the
    /// start on the last attempt; a spawned process is polled up to 30 times,
    /// 300 ms apart, and an attempt ends when the process exits or the polls
    /// run out. A healthy poll makes the engine ready; when every attempt has
    /// failed, the process is stopped and the start ends with an error. An
    /// event the start-up does not wait for changes nothing.
    pub fn start_step(&mut self, event: StartEvent) -> (action: StartAction)
        ensures
            ({
                let (p2, a2, s2) = start_step_spec(
                    old(self).spec_status(),
                    old(self).spec_max_retries(),
                    old(self).spec_phase(),
                    event,
                );
                &&& final(self).spec_phase() == p2
                &&& action == a2
                &&& final(self).spec_status() == s2
            }),
            final(self).spec_server_bin() == old(self).spec_server_bin(),
            final(self).spec_model_path() == old(self).spec_model_path(),
            final(self).spec_port() == old(self).spec_port(),
            final(self).spec_max_retries() == old(self).spec_max_retries(),
            start_awaits(old(self).spec_phase(), event) ==> key_lt(
                progress_key(final(self).spec_phase(), old(self).spec_max_retries()),
                progress_key(old(self).spec_phase(), old(self).spec_max_retries()),
            ),
            action matches StartAction::Finish(Ok(())) ==> final(self).spec_status() == SidecarStatus::Ready,
            action matches StartAction::Finish(Err(_)) ==> final(self).spec_status() == SidecarStatus::Error,
            action matches StartAction::StopAndFinish(_) ==> final(self).spec_status() == SidecarStatus::Error,
    {
        proof {
            use_type_invariant(&*self);
        }
        let max = self.max_retries;
        let status = self.state.status;
        let phase = self.state.phase;
        let (p2, a2, s2) = match phase {
            StartPhase::Idle => (phase, StartAction::Ignore, status),
            StartPhase::CheckingHealth => match event {
                StartEvent::HealthChecked(healthy) => {
                    if healthy {
                        (StartPhase::Done, StartAction::Finish(Ok(())), status)
                    } else {
                        (StartPhase::CheckingFiles, StartAction::CheckFiles, status)
                    }
                },
                _ => (phase, StartAction::Ignore, status),
            },
            StartPhase::CheckingFiles => match event {
                StartEvent::FilesChecked { server_bin_exists, model_exists } => {
                    if !server_bin_exists {
                        (StartPhase::Done, StartAction::Finish(Err(StartError::ServerBinMissing)), SidecarStatus::Error)
                    } else if !model_exists {
                        (StartPhase::Done, StartAction::Finish(Err(StartError::ModelMissing)), SidecarStatus::Error)
                    } else if max == 0 {
                        (StartPhase::Done, StartAction::StopAndFinish(Err(StartError::NeverReady(0))), SidecarStatus::Error)
                    } else {
                        (StartPhase::Spawning { attempt: 1 }, StartAction::StopAndSpawn, SidecarStatus::Starting)
                    }
                },
                _ => (phase, StartAction::Ignore, status),
            },
            StartPhase::Spawning { attempt } => match event {
                StartEvent::Spawned(outcome) => match outcome {
                    Ok(()) => (
                        StartPhase::CheckingExit { attempt, poll: 1 },
                        StartAction::SleepThenCheckExit { millis: POLL_DELAY_MS },
                        SidecarStatus::Starting,
                    ),
                    Err(msg) => {
                        if attempt == max {
                            (StartPhase::Done, StartAction::Finish(Err(StartError::SpawnFailed(msg))), SidecarStatus::Error)
                        } else {
                            (StartPhase::BackingOff { attempt }, StartAction::Sleep { millis: RETRY_DELAY_MS }, SidecarStatus::Starting)
                        }
                    },
                },
                _ => (phase, StartAction::Ignore, status),
            },
            StartPhase::BackingOff { attempt } => match event {
                StartEvent::Slept => (
                    StartPhase::Spawning { attempt: attempt + 1 },
                    StartAction::StopAndSpawn,
                    SidecarStatus::Starting,
                ),
                _ => (phase, StartAction::Ignore, status),
            },
            StartPhase::CheckingExit { attempt, poll } => match event {
                StartEvent::ExitChecked(exited) => {
                    if exited {
                        failed_attempt(attempt, max)
                    } else {
                        (StartPhase::CheckingReady { attempt, poll }, StartAction::CheckHealth, SidecarStatus::Starting)
                    }
                },
                _ => (phase, StartAction::Ignore, status),
            },
            StartPhase::CheckingReady { attempt, poll } => match event {
                StartEvent::HealthChecked(healthy) => {
                    if healthy {
                        (StartPhase::Done, StartAction::Finish(Ok(())), SidecarStatus::Ready)
                    } else if poll < HEALTH_POLLS {
                        (
                            StartPhase::CheckingExit { attempt, poll: poll + 1 },
                            StartAction::SleepThenCheckExit { millis: POLL_DELAY_MS },
                            SidecarStatus::Starting,
                        )
                    } else {
                        failed_attempt(attempt, max)
                    }
                },
                _ => (phase, StartAction::Ignore, status),
            },
            StartPhase::Done => (phase, StartAction::Ignore, status),
        };
        proof {
            if start_awaits(phase, event) {
                law_start_terminates(status, max, phase, event);
            }
            law_start_outcome_matches_status(status, max, phase, event);
        }
        self.state = EngineState { status: s2, phase: p2 };
        a2
    }
}

/// Starting the engine ends: every awaited event moves the start-up strictly
/// forward, so it makes at most `max_retries` spawn attempts of at most 30
/// health polls each before it reports an outcome; and every phase it
/// reaches stays consistent with the attempts allowed and the status.
pub proof fn law_start_terminates(status: SidecarStatus, max: u32, p: StartPhase, e: StartEvent)
    requires
        start_wf(p, status, max),
        start_awaits(p, e),
    ensures
        ({
            let (p2, a2, s2) = start_step_spec(status, max, p, e);
            &&& start_wf(p2, s2, max)
            &&& key_lt(progress_key(p2, max), progress_key(p, max))
        }),
{
}

/// Starting reports success only with the engine ready, and failure only
/// with the engine in error.
pub proof fn law_start_outcome_matches_status(status: SidecarStatus, max: u32, p: StartPhase, e: StartEvent)
    requires
        start_wf(p, status, max),
    ensures
        ({
            let (p2, a2, s2) = start_step_spec(status, max, p, e);
            &&& a2 matches StartAction::Finish(Ok(())) ==> s2 == SidecarStatus::Ready
            &&& a2 matches StartAction::Finish(Err(_)) ==> s2 == SidecarStatus::Error
            &&& a2 matches StartAction::StopAndFinish(_) ==> s2 == SidecarStatus::Error
        }),
{
}

/// Starting the engine is always attempted anew, whatever became of earlier
/// starts: from any status but ready (stopped, starting, or in error after a
/// failed start) it begins by looking for the executable and the model, and
/// a ready engine begins with a health check; beginning a start never ends
/// it, and it leaves the status as it was.
pub proof fn law_begin_start_always_tries(status: SidecarStatus)
    ensures
        ({
            let (p, a, s) = start_begin_spec(status);
            &&& status != SidecarStatus::Ready ==> p == StartPhase::CheckingFiles && a == StartAction::CheckFiles
            &&& status == SidecarStatus::Ready ==> p == StartPhase::CheckingHealth && a == StartAction::CheckHealth
            &&& s == status
        }),
{
}

/// Once the executable and the model are found, a start with at least one
/// attempt allowed spawns the engine, whatever the status was; a ready
/// engine that fails its health check is looked at again from its files.
pub proof fn law_found_files_lead_to_spawn(status: SidecarStatus, max: u32)
    requires
        max >= 1,
    ensures
        start_step_spec(
            status,
            max,
            StartPhase::CheckingFiles,
            StartEvent::FilesChecked { server_bin_exists: true, model_exists: true },
        ) == (StartPhase::Spawning { attempt: 1 }, StartAction::StopAndSpawn, SidecarStatus::Starting),
        start_step_spec(status, max, StartPhase::CheckingHealth, StartEvent::HealthChecked(false))
            == (StartPhase::CheckingFiles, StartAction::CheckFiles, status),
{
}

/// The retries of a start, as documented: a healthy poll makes the engine
/// ready; an unhealthy poll before the 30th sleeps 300 ms and polls again;
/// an attempt whose process exits or whose 30 polls run out is followed by
/// the next attempt, or, after the last, by stopping the process and
/// failing with the number of attempts made; a spawn that fails sleeps
/// 500 ms before the next attempt, or fails the start on the last one; a
/// missing executable or model fails the start at once.
pub proof fn law_start_retries(status: SidecarStatus, max: u32, attempt: u32, poll: u32, msg: String)
    requires
        1 <= attempt <= max,
        1 <= poll <= 30,
    ensures
        start_step_spec(status, max, StartPhase::CheckingReady { attempt, poll }, StartEvent::HealthChecked(true))
            == (StartPhase::Done, StartAction::Finish(Ok(())), SidecarStatus::Ready),
        poll < 30 ==> start_step_spec(status, max, StartPhase::CheckingReady { attempt, poll }, StartEvent::HealthChecked(false))
            == (StartPhase::CheckingExit { attempt, poll: (poll + 1) as u32 }, StartAction::SleepThenCheckExit { millis: 300 }, SidecarStatus::Starting),
        start_step_spec(status, max, StartPhase::CheckingExit { attempt, poll }, StartEvent::ExitChecked(false))
            == (StartPhase::CheckingReady { attempt, poll }, StartAction::CheckHealth, SidecarStatus::Starting),
        ({
            let after_exit = start_step_spec(status, max, StartPhase::CheckingExit { attempt, poll }, StartEvent::ExitChecked(true));
            let after_last_poll = start_step_spec(status, max, StartPhase::CheckingReady { attempt, poll: 30 }, StartEvent::HealthChecked(false));
            &&& attempt < max ==> after_exit == (StartPhase::Spawning { attempt: (attempt + 1) as u32 }, StartAction::StopAndSpawn, SidecarStatus::Starting)
            &&& attempt < max ==> after_last_poll == after_exit
            &&& attempt == max ==> after_exit == (StartPhase::Done, StartAction::StopAndFinish(Err(StartError::NeverReady(max))), SidecarStatus::Error)
            &&& attempt == max ==> after_last_poll == after_exit
        }),
        start_step_spec(status, max, StartPhase::Spawning { attempt }, StartEvent::Spawned(Ok(())))
            == (StartPhase::CheckingExit { attempt, poll: 1 }, StartAction::SleepThenCheckExit { millis: 300 }, SidecarStatus::Starting),
        attempt < max ==> start_step_spec(status, max, StartPhase::Spawning { attempt }, StartEvent::Spawned(Err(msg)))
            == (StartPhase::BackingOff { attempt }, StartAction::Sleep { millis: 500 }, SidecarStatus::Starting),
        attempt == max ==> start_step_spec(status, max, StartPhase::Spawning { attempt }, StartEvent::Spawned(Err(msg)))
            == (StartPhase::Done, StartAction::Finish(Err(StartError::SpawnFailed(msg))), SidecarStatus::Error),
        attempt < max ==> start_step_spec(status, max, StartPhase::BackingOff { attempt }, StartEvent::Slept)
            == (StartPhase::Spawning { attempt: (attempt + 1) as u32 }, StartAction::StopAndSpawn, SidecarStatus::Starting),
        start_step_spec(status, max, StartPhase::CheckingFiles, StartEvent::FilesChecked { server_bin_exists: false, model_exists: true })
            == (StartPhase::Done, StartAction::Finish(Err(StartError::ServerBinMissing)), SidecarStatus::Error),
        start_step_spec(status, max, StartPhase::CheckingFiles, StartEvent::FilesChecked { server_bin_exists: true, model_exists: false })
            == (StartPhase::Done, StartAction::Finish(Err(StartError::ModelMissing)), SidecarStatus::Error),
{
}

} // verus!
