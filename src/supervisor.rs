//! The supervisor state machine.
//!
//! Each step is split in two. `plan_*` names the outside work that the step
//! needs (a spawn, a line to the child, a signal) and whether the stream hub
//! of the current child must be torn down first; the caller performs it and
//! hands its outcome to `drive` or `apply_event`, which move the machine.
use vstd::prelude::*;
use crate::config::{ProcessConfig, RestartCondition};
use crate::types::{Event, ProcessState, StoppingState, WantedState};

verus! {

/// Outside work that one step of the supervisor needs.
#[derive(Debug, Clone, Copy, PartialEq, Eq, Structural)]
pub enum Work {
    Nothing,
    /// Start a new child.
    Spawn,
    /// Write the configured stop command to the child's standard input.
    SendStopCommand { pid: i32 },
    /// Send SIGTERM.
    Terminate { pid: i32 },
    /// Send SIGKILL.
    Kill { pid: i32 },
}

/// How the work of a step went.
#[derive(Debug, Clone, Copy, PartialEq, Eq, Structural)]
pub enum Outcome {
    /// A child was started with this pid.
    Spawned { pid: i32 },
    /// The work was done (or there was none).
    Done,
    /// The work failed.
    Failed,
}

/// What the caller does before it hands an outcome back.
#[derive(Debug, Clone, Copy, PartialEq, Eq, Structural)]
pub struct Plan {
    /// Drop the current child's stdin sink and output subscription first.
    pub tear_down: bool,
    pub work: Work,
}

/// The wanted state and the state of the child.
#[derive(Debug, Clone, Copy, PartialEq, Eq, Structural)]
pub struct Supervisor {
    pub wanted: WantedState,
    pub state: ProcessState,
}

/// `now + delay`, held at the largest instant where it would pass it.
pub open spec fn after(now: u64, delay: u64) -> u64 {
    if now + delay > u64::MAX {
        u64::MAX
    } else {
        (now + delay) as u64
    }
}

/// The attempt that follows `a`; the counter stays at its largest value.
pub open spec fn next_attempt(a: u16) -> u16 {
    if a < u16::MAX {
        (a + 1) as u16
    } else {
        a
    }
}

/// The pid of the child on record, if the state has one.
pub open spec fn child_pid(s: ProcessState) -> Option<i32> {
    match s {
        ProcessState::Watching { pid, .. } => Some(pid),
        ProcessState::Running { pid } => Some(pid),
        ProcessState::Stopping(StoppingState::Command { pid, .. }) => Some(pid),
        ProcessState::Stopping(StoppingState::Terminate { pid, .. }) => Some(pid),
        ProcessState::Stopping(StoppingState::Kill { pid }) => Some(pid),
        _ => None,
    }
}

/// The instant at which the state times out, if it is a timed one.
pub open spec fn deadline_of(s: ProcessState) -> Option<u64> {
    match s {
        ProcessState::Watching { timeout_at, .. } => Some(timeout_at),
        ProcessState::WaitingRestart { timeout_at, .. } => Some(timeout_at),
        ProcessState::Stopping(StoppingState::Command { timeout_at, .. }) => Some(timeout_at),
        ProcessState::Stopping(StoppingState::Terminate { timeout_at, .. }) => Some(timeout_at),
        _ => None,
    }
}

/// The attempt counter of a state in a run of failed starts.
pub open spec fn attempt_of(s: ProcessState) -> Option<u16> {
    match s {
        ProcessState::Watching { attempt, .. } => Some(attempt),
        ProcessState::WaitingRestart { attempt, .. } => Some(attempt),
        _ => None,
    }
}

/// The states in which the stream hub holds the child's stdin sink and output.
pub open spec fn hub_live(s: ProcessState) -> bool {
    ||| s is Watching
    ||| s is Running
    ||| s matches ProcessState::Stopping(StoppingState::Command { .. })
}

/// Whether a child that exited with `exit_code` from the running state is started again.
pub open spec fn restart_wanted(policy: RestartCondition, exit_code: i32) -> bool {
    match policy {
        RestartCondition::Never => false,
        RestartCondition::UnlessCrashed => exit_code == 0,
        RestartCondition::IfCrashed => exit_code != 0,
        RestartCondition::Always => true,
    }
}

/// Whether `outcome` can come of `work`.
pub open spec fn outcome_fits(work: Work, outcome: Outcome) -> bool {
    match work {
        Work::Nothing => outcome is Done,
        Work::Spawn => outcome is Spawned || outcome is Failed,
        _ => outcome is Done || outcome is Failed,
    }
}

/// Whether the spawn budget is spent after the failed attempt `attempt`.
pub open spec fn attempts_spent(cfg: ProcessConfig, attempt: u16) -> bool {
    cfg.restart_attempts >= 0 && attempt >= cfg.restart_attempts
}

/// Whether attempt `attempt` lies beyond the configured number of attempts;
/// it is then not made.
pub open spec fn attempts_exceeded(cfg: ProcessConfig, attempt: u16) -> bool {
    cfg.restart_attempts >= 0 && attempt > cfg.restart_attempts
}

/// The state after a spawn that starts a fresh run of attempts.
pub open spec fn fresh_start(cfg: ProcessConfig, now: u64, outcome: Outcome) -> ProcessState {
    match outcome {
        Outcome::Spawned { pid } => ProcessState::Watching {
            pid,
            timeout_at: after(now, cfg.watch_delay),
            attempt: 1,
        },
        _ => ProcessState::WaitingRestart { timeout_at: after(now, cfg.restart_delay), attempt: 2 },
    }
}

/// The work of the drive step, taken before each wait for an event.
pub open spec fn drive_work(s: Supervisor) -> Work {
    match (s.wanted, s.state) {
        (WantedState::Running, ProcessState::Stopped) => Work::Spawn,
        (WantedState::Stopped, ProcessState::Running { pid }) => Work::SendStopCommand { pid },
        _ => Work::Nothing,
    }
}

/// The machine after the drive step.
pub open spec fn drive_next(cfg: ProcessConfig, s: Supervisor, now: u64, outcome: Outcome) -> Supervisor {
    match (s.wanted, s.state) {
        (WantedState::Running, ProcessState::Stopped) => Supervisor {
            state: fresh_start(cfg, now, outcome),
            ..s
        },
        (WantedState::Stopped, ProcessState::Running { pid }) => {
            // Without a way to the child's stdin, the deadline is now and the
            // next wait escalates at once.
            let timeout_at = if outcome is Done {
                after(now, cfg.stop_config.term_timeout)
            } else {
                now
            };
            Supervisor {
                state: ProcessState::Stopping(StoppingState::Command { timeout_at, pid }),
                ..s
            }
        },
        _ => s,
    }
}

/// Whether `ev` is the exit of the child on record in `s`.
pub open spec fn is_exit_of_child(s: ProcessState, ev: Event) -> bool {
    ev matches Event::ProcessExited { pid, .. } && child_pid(s) == Some(pid)
}

/// The work that handling `ev` needs.
pub open spec fn event_work(cfg: ProcessConfig, s: Supervisor, ev: Event) -> Work {
    match ev {
        Event::ProcessExited { pid, exit_code } => {
            if s.state == (ProcessState::Running { pid }) && restart_wanted(cfg.restart, exit_code) {
                Work::Spawn
            } else {
                Work::Nothing
            }
        },
        Event::TimeoutReached => match s.state {
            ProcessState::WaitingRestart { attempt, .. } => if attempts_exceeded(cfg, attempt) {
                Work::Nothing
            } else {
                Work::Spawn
            },
            ProcessState::Stopping(StoppingState::Command { pid, .. }) => Work::Terminate { pid },
            ProcessState::Stopping(StoppingState::Terminate { pid, .. }) => Work::Kill { pid },
            _ => Work::Nothing,
        },
        _ => Work::Nothing,
    }
}

/// Whether handling `ev` ends the stream hub of the current child.
pub open spec fn event_tear_down(s: Supervisor, ev: Event) -> bool {
    ||| hub_live(s.state) && is_exit_of_child(s.state, ev)
    ||| ev is TimeoutReached && s.state matches ProcessState::Stopping(StoppingState::Command { .. })
}

/// The machine after handling `ev` at `now`, given the outcome of its work.
pub open spec fn event_next(
    cfg: ProcessConfig,
    s: Supervisor,
    ev: Event,
    now: u64,
    outcome: Outcome,
) -> Supervisor {
    match ev {
        Event::Start => Supervisor { wanted: WantedState::Running, ..s },
        Event::Stop => match s.state {
            ProcessState::Stopping(_) => s,
            ProcessState::Watching { pid, .. } => Supervisor {
                wanted: WantedState::Stopped,
                state: ProcessState::Running { pid },
            },
            _ => Supervisor { wanted: WantedState::Stopped, ..s },
        },
        Event::ProcessExited { pid, exit_code } => {
            if child_pid(s.state) != Some(pid) {
                s
            } else {
                match s.state {
                    ProcessState::Watching { attempt, .. } => Supervisor {
                        state: ProcessState::WaitingRestart {
                            timeout_at: after(now, cfg.restart_delay),
                            attempt: next_attempt(attempt),
                        },
                        ..s
                    },
                    ProcessState::Running { .. } => Supervisor {
                        state: if restart_wanted(cfg.restart, exit_code) {
                            fresh_start(cfg, now, outcome)
                        } else {
                            ProcessState::Stopped
                        },
                        ..s
                    },
                    _ => Supervisor { state: ProcessState::Stopped, ..s },
                }
            }
        },
        Event::TimeoutReached => match s.state {
            ProcessState::Watching { pid, .. } => Supervisor {
                state: ProcessState::Running { pid },
                ..s
            },
            ProcessState::WaitingRestart { attempt, .. } => if attempts_exceeded(cfg, attempt) {
                Supervisor { wanted: WantedState::Stopped, state: ProcessState::Stopped }
            } else {
                match outcome {
                    Outcome::Spawned { pid } => Supervisor {
                        state: ProcessState::Watching {
                            pid,
                            timeout_at: after(now, cfg.watch_delay),
                            attempt,
                        },
                        ..s
                    },
                    _ => if attempts_spent(cfg, attempt) {
                        Supervisor { wanted: WantedState::Stopped, state: ProcessState::Stopped }
                    } else {
                        Supervisor {
                            state: ProcessState::WaitingRestart {
                                timeout_at: after(now, cfg.restart_delay),
                                attempt: next_attempt(attempt),
                            },
                            ..s
                        }
                    },
                }
            },
            ProcessState::Stopping(StoppingState::Command { pid, .. }) => {
                // A failed signal still advances, with a deadline of now.
                let timeout_at = if outcome is Done {
                    after(now, cfg.stop_config.kill_timeout)
                } else {
                    now
                };
                Supervisor {
                    state: ProcessState::Stopping(StoppingState::Terminate { timeout_at, pid }),
                    ..s
                }
            },
            ProcessState::Stopping(StoppingState::Terminate { pid, .. }) => Supervisor {
                state: ProcessState::Stopping(StoppingState::Kill { pid }),
                ..s
            },
            _ => s,
        },
    }
}

/// The machine after a timeout that fires exactly at the state's deadline.
pub open spec fn on_deadline(cfg: ProcessConfig, s: Supervisor, outcome: Outcome) -> Supervisor {
    event_next(cfg, s, Event::TimeoutReached, deadline_of(s.state).unwrap(), outcome)
}

/// The stopping states whose deadlines were set no later than `t`.
pub open spec fn stopping_set_by(cfg: ProcessConfig, s: ProcessState, t: u64) -> bool {
    &&& (s matches ProcessState::Stopping(StoppingState::Command { timeout_at, .. })
        ==> timeout_at <= t + cfg.stop_config.term_timeout)
    &&& (s matches ProcessState::Stopping(StoppingState::Terminate { timeout_at, .. })
        ==> timeout_at <= t + cfg.stop_config.kill_timeout)
}

/// At most one child is alive: a spawn is asked for only when no child is on
/// record, or when the child on record has just exited, and a spawned child is
/// the one on record afterwards. An exit of any other pid changes nothing.
/// At most one timer is armed: each state carries at most one deadline, and a
/// state entered by a step is timed from that step's instant on.
pub proof fn lemma_single_child(cfg: ProcessConfig, s: Supervisor, ev: Event, now: u64, outcome: Outcome)
    ensures
        drive_work(s) is Spawn ==> child_pid(s.state) is None,
        event_work(cfg, s, ev) is Spawn ==> child_pid(s.state) is None || is_exit_of_child(s.state, ev),
        outcome matches Outcome::Spawned { pid } ==> (drive_work(s) is Spawn
            ==> child_pid(drive_next(cfg, s, now, outcome).state) == Some(pid)),
        outcome matches Outcome::Spawned { pid } ==> (event_work(cfg, s, ev) is Spawn
            ==> child_pid(event_next(cfg, s, ev, now, outcome).state) == Some(pid)),
        (ev is ProcessExited && !is_exit_of_child(s.state, ev)) ==> event_next(cfg, s, ev, now, outcome) == s,
        ({
            let n = event_next(cfg, s, ev, now, outcome).state;
            n != s.state && deadline_of(n) is Some ==> deadline_of(n).unwrap() >= now
        }),
        ({
            let n = drive_next(cfg, s, now, outcome).state;
            n != s.state && deadline_of(n) is Some ==> deadline_of(n).unwrap() >= now
        }),
{
}

/// The attempt counter never goes down within a run of failed starts: a start
/// that fails during its grace period, or a spawn that fails, counts one up.
/// Leaving the running state (or the stopped one) begins a new run at the first
/// attempt, so the counter is reset by every passage from watching to running.
pub proof fn lemma_attempts(cfg: ProcessConfig, s: Supervisor, ev: Event, now: u64, outcome: Outcome)
    requires
        outcome_fits(event_work(cfg, s, ev), outcome),
    ensures
        ({
            let n = event_next(cfg, s, ev, now, outcome).state;
            attempt_of(s.state) is Some && attempt_of(n) is Some
                ==> attempt_of(n).unwrap() >= attempt_of(s.state).unwrap()
        }),
        ({
            let n = event_next(cfg, s, ev, now, outcome).state;
            (s.state is Watching && n is WaitingRestart)
                ==> attempt_of(n).unwrap() == next_attempt(attempt_of(s.state).unwrap())
        }),
        ({
            let n = event_next(cfg, s, ev, now, outcome).state;
            (s.state is WaitingRestart && n is WaitingRestart && n != s.state)
                ==> attempt_of(n).unwrap() == next_attempt(attempt_of(s.state).unwrap())
        }),
        ({
            let n = event_next(cfg, s, ev, now, outcome).state;
            s.state is Watching && n is Running ==> attempt_of(n) is None
        }),
        ({
            let n = event_next(cfg, s, ev, now, outcome).state;
            attempt_of(s.state) is None && attempt_of(n) is Some ==> n == fresh_start(cfg, now, outcome)
        }),
        ({
            let n = drive_next(cfg, s, now, outcome).state;
            attempt_of(s.state) is None && attempt_of(n) is Some ==> n == fresh_start(cfg, now, outcome)
        }),
        fresh_start(cfg, now, outcome) matches ProcessState::Watching { attempt, .. } ==> attempt == 1,
        fresh_start(cfg, now, outcome) matches ProcessState::WaitingRestart { attempt, .. } ==> attempt == 2,
{
}

/// The attempt counters that a limit of `restart_attempts` allows: a start
/// is watched only within the limit, and a restart waits for at most the
/// attempt one past it (which then is not made).
pub open spec fn attempts_within_limit(cfg: ProcessConfig, s: ProcessState) -> bool {
    cfg.restart_attempts >= 0 ==> {
        &&& (s matches ProcessState::Watching { attempt, .. } ==> 1 <= attempt <= cfg.restart_attempts)
        &&& (s matches ProcessState::WaitingRestart { attempt, .. } ==> 1 <= attempt <= cfg.restart_attempts + 1)
    }
}

/// Every step keeps the attempt counters within the configured limit. A limit
/// of zero is left out: the first start is already attempt one.
pub proof fn lemma_attempts_within_limit(cfg: ProcessConfig, s: Supervisor, ev: Event, now: u64, outcome: Outcome)
    requires
        cfg.restart_attempts != 0,
        attempts_within_limit(cfg, s.state),
    ensures
        outcome_fits(event_work(cfg, s, ev), outcome)
            ==> attempts_within_limit(cfg, event_next(cfg, s, ev, now, outcome).state),
        outcome_fits(drive_work(s), outcome) ==> attempts_within_limit(cfg, drive_next(cfg, s, now, outcome).state),
{
}

/// The steps of a run of failed starts, where no counter or deadline reaches
/// its largest value: a start that exits during its grace period waits for the
/// restart delay with the attempt counted up, and nothing is spawned on that
/// exit; a restart that spawns is watched under the same attempt; a spawn that
/// fails within the limit waits again with the attempt counted up. The wanted
/// state is left as it was.
pub proof fn lemma_failure_run(cfg: ProcessConfig, s: Supervisor, ev: Event, now: u64, outcome: Outcome)
    requires
        outcome_fits(event_work(cfg, s, ev), outcome),
        attempt_of(s.state) is Some ==> attempt_of(s.state).unwrap() < u16::MAX,
        now + cfg.restart_delay <= u64::MAX,
        now + cfg.watch_delay <= u64::MAX,
    ensures
        ({
            let n = event_next(cfg, s, ev, now, outcome);
            (s.state is Watching && is_exit_of_child(s.state, ev)) ==> {
                &&& event_work(cfg, s, ev) == Work::Nothing
                &&& n.wanted == s.wanted
                &&& n.state == (ProcessState::WaitingRestart {
                    timeout_at: (now + cfg.restart_delay) as u64,
                    attempt: (s.state->Watching_attempt + 1) as u16,
                })
            }
        }),
        ({
            let n = event_next(cfg, s, ev, now, outcome);
            s.state matches ProcessState::WaitingRestart { attempt, .. } ==> (
                (ev is TimeoutReached && !attempts_exceeded(cfg, attempt)) ==> {
                    &&& event_work(cfg, s, ev) == Work::Spawn
                    &&& (outcome matches Outcome::Spawned { pid } ==> n == Supervisor {
                        wanted: s.wanted,
                        state: ProcessState::Watching {
                            pid,
                            timeout_at: (now + cfg.watch_delay) as u64,
                            attempt,
                        },
                    })
                    &&& ((outcome is Failed && (cfg.restart_attempts < 0 || attempt < cfg.restart_attempts))
                        ==> n == Supervisor {
                        wanted: s.wanted,
                        state: ProcessState::WaitingRestart {
                            timeout_at: (now + cfg.restart_delay) as u64,
                            attempt: (attempt + 1) as u16,
                        },
                    })
                })
        }),
{
}

/// The deadlines of stopping: the stop command is given `term_timeout` from
/// the instant it is sent (none where it cannot be sent), SIGTERM is given
/// `kill_timeout` from the instant it is sent (none where it fails), and
/// SIGKILL ends the timed states. The wanted state is left as it was.
pub proof fn lemma_escalation_deadlines(cfg: ProcessConfig, s: Supervisor, now: u64, outcome: Outcome)
    requires
        outcome is Done || outcome is Failed,
        now + cfg.stop_config.term_timeout <= u64::MAX,
        now + cfg.stop_config.kill_timeout <= u64::MAX,
    ensures
        (s.wanted is Stopped && s.state is Running) ==> {
            &&& drive_work(s) == (Work::SendStopCommand { pid: s.state->Running_pid })
            &&& drive_next(cfg, s, now, outcome) == Supervisor {
                wanted: s.wanted,
                state: ProcessState::Stopping(StoppingState::Command {
                    timeout_at: if outcome is Done { (now + cfg.stop_config.term_timeout) as u64 } else { now },
                    pid: s.state->Running_pid,
                }),
            }
        },
        s.state matches ProcessState::Stopping(StoppingState::Command { pid, .. }) ==> {
            &&& event_work(cfg, s, Event::TimeoutReached) == (Work::Terminate { pid })
            &&& event_next(cfg, s, Event::TimeoutReached, now, outcome) == Supervisor {
                wanted: s.wanted,
                state: ProcessState::Stopping(StoppingState::Terminate {
                    timeout_at: if outcome is Done { (now + cfg.stop_config.kill_timeout) as u64 } else { now },
                    pid,
                }),
            }
        },
        s.state matches ProcessState::Stopping(StoppingState::Terminate { pid, .. }) ==> {
            &&& event_work(cfg, s, Event::TimeoutReached) == (Work::Kill { pid })
            &&& event_next(cfg, s, Event::TimeoutReached, now, outcome) == Supervisor {
                wanted: s.wanted,
                state: ProcessState::Stopping(StoppingState::Kill { pid }),
            }
        },
{
}

/// After `Stop` at `t0`, a child that is running, starting or already being
/// stopped is sent SIGKILL by `t0 + term_timeout + kill_timeout` at the latest,
/// whether or not it heeds the stop command or SIGTERM, and whether or not
/// those could be delivered; once it is reaped the machine is stopped.
/// Timeouts are taken to fire at their deadlines. A machine waiting to
/// restart is not covered: `Stop` leaves that state as it is, and its timeout
/// still makes the restart attempt.
pub proof fn lemma_stop_bounded(
    cfg: ProcessConfig,
    s: Supervisor,
    t0: u64,
    sent: Outcome,
    term: Outcome,
    kill: Outcome,
    exit_code: i32,
    reaped_at: u64,
)
    requires
        s.state is Watching || s.state is Running || s.state is Stopping,
        stopping_set_by(cfg, s.state, t0),
        outcome_fits(drive_work(event_next(cfg, s, Event::Stop, t0, Outcome::Done)), sent),
        term is Done || term is Failed,
        kill is Done || kill is Failed,
    ensures
        ({
            let on_stop = event_next(cfg, s, Event::Stop, t0, Outcome::Done);
            let driven = drive_next(cfg, on_stop, t0, sent);
            let termed = if driven.state is Stopping && driven.state->Stopping_0 is Command {
                on_deadline(cfg, driven, term)
            } else {
                driven
            };
            let killed = if termed.state is Stopping && termed.state->Stopping_0 is Terminate {
                on_deadline(cfg, termed, kill)
            } else {
                termed
            };
            &&& driven.state is Stopping
            &&& (deadline_of(driven.state) is Some ==> deadline_of(driven.state).unwrap()
                <= t0 + cfg.stop_config.term_timeout + cfg.stop_config.kill_timeout)
            &&& (deadline_of(termed.state) is Some ==> deadline_of(termed.state).unwrap()
                <= t0 + cfg.stop_config.term_timeout + cfg.stop_config.kill_timeout)
            &&& killed.state is Stopping && killed.state->Stopping_0 is Kill
            &&& child_pid(killed.state) == child_pid(s.state)
            &&& event_next(
                cfg,
                killed,
                Event::ProcessExited { pid: child_pid(s.state).unwrap(), exit_code },
                reaped_at,
                Outcome::Done,
            ).state == ProcessState::Stopped
        }),
{
}

/// The stream hub holds the child's stdin sink and output exactly in the
/// watching, running and stop-command states, provided the caller tears it
/// down when a plan says so and a spawned child installs a fresh one.
pub proof fn lemma_hub_follows_state(
    cfg: ProcessConfig,
    s: Supervisor,
    ev: Event,
    now: u64,
    outcome: Outcome,
    hub: bool,
)
    requires
        hub == hub_live(s.state),
        outcome_fits(event_work(cfg, s, ev), outcome),
    ensures
        ({
            let after_tear_down = hub && !event_tear_down(s, ev);
            let installed = event_work(cfg, s, ev) is Spawn && outcome is Spawned;
            (after_tear_down || installed) == hub_live(event_next(cfg, s, ev, now, outcome).state)
        }),
        ({
            let installed = drive_work(s) is Spawn && outcome is Spawned;
            outcome_fits(drive_work(s), outcome) ==> (hub || installed) == hub_live(
                drive_next(cfg, s, now, outcome).state,
            )
        }),
{
}

fn deadline_after(now: u64, delay: u64) -> (r: u64)
    ensures
        r == after(now, delay),
{
    now.saturating_add(delay)
}

fn bump_attempt(a: u16) -> (r: u16)
    ensures
        r == next_attempt(a),
{
    a.saturating_add(1)
}

/// Whether a child that exited with `exit_code` from the running state is
/// started again under `policy`.
pub fn should_restart(policy: RestartCondition, exit_code: i32) -> (r: bool)
    ensures
        r == restart_wanted(policy, exit_code),
{
    match policy {
        RestartCondition::Never => false,
        RestartCondition::UnlessCrashed => exit_code == 0,
        RestartCondition::IfCrashed => exit_code != 0,
        RestartCondition::Always => true,
    }
}

fn exceeds_attempts(cfg: &ProcessConfig, attempt: u16) -> (r: bool)
    ensures
        r == attempts_exceeded(*cfg, attempt),
{
    cfg.restart_attempts >= 0 && attempt as i32 > cfg.restart_attempts as i32
}

fn start_fresh(cfg: &ProcessConfig, now: u64, outcome: Outcome) -> (r: ProcessState)
    ensures
        r == fresh_start(*cfg, now, outcome),
{
    match outcome {
        Outcome::Spawned { pid } => ProcessState::Watching {
            pid,
            timeout_at: deadline_after(now, cfg.watch_delay),
            attempt: 1,
        },
        _ => ProcessState::WaitingRestart {
            timeout_at: deadline_after(now, cfg.restart_delay),
            attempt: 2,
        },
    }
}

impl Supervisor {
    /// A machine with no child that is asked to run one.
    pub fn new() -> (r: Supervisor)
        ensures
            r.wanted == WantedState::Running,
            r.state == ProcessState::Stopped,
    {
        Supervisor { wanted: WantedState::Running, state: ProcessState::Stopped }
    }

    /// The instant at which the current state times out, if it is a timed one.
    pub fn timeout_at(&self) -> (r: Option<u64>)
        ensures
            r == deadline_of(self.state),
    {
        match self.state {
            ProcessState::Watching { timeout_at, .. } => Some(timeout_at),
            ProcessState::WaitingRestart { timeout_at, .. } => Some(timeout_at),
            ProcessState::Stopping(StoppingState::Command { timeout_at, .. }) => Some(timeout_at),
            ProcessState::Stopping(StoppingState::Terminate { timeout_at, .. }) => Some(timeout_at),
            _ => None,
        }
    }

    /// The work of the drive step.
    pub fn plan_drive(&self) -> (r: Work)
        ensures
            r == drive_work(*self),
    {
        match (self.wanted, self.state) {
            (WantedState::Running, ProcessState::Stopped) => Work::Spawn,
            (WantedState::Stopped, ProcessState::Running { pid }) => Work::SendStopCommand { pid },
            _ => Work::Nothing,
        }
    }

    /// The drive step: start a child that is wanted, or begin stopping one that is not.
    pub fn drive(&mut self, cfg: &ProcessConfig, now: u64, outcome: Outcome)
        requires
            outcome_fits(drive_work(*old(self)), outcome),
        ensures
            *final(self) == drive_next(*cfg, *old(self), now, outcome),
    {
        match (self.wanted, self.state) {
            (WantedState::Running, ProcessState::Stopped) => {
                self.state = start_fresh(cfg, now, outcome);
            },
            (WantedState::Stopped, ProcessState::Running { pid }) => {
                let timeout_at = match outcome {
                    Outcome::Done => deadline_after(now, cfg.stop_config.term_timeout),
                    _ => now,
                };
                self.state = ProcessState::Stopping(StoppingState::Command { timeout_at, pid });
            },
            _ => {},
        }
    }

    /// The work that handling `ev` needs, and whether the hub goes first.
    pub fn plan_event(&self, cfg: &ProcessConfig, ev: Event) -> (r: Plan)
        ensures
            r.work == event_work(*cfg, *self, ev),
            r.tear_down == event_tear_down(*self, ev),
    {
        let work = match ev {
            Event::ProcessExited { pid, exit_code } => {
                if self.state == (ProcessState::Running { pid }) && should_restart(cfg.restart, exit_code) {
                    Work::Spawn
                } else {
                    Work::Nothing
                }
            },
            Event::TimeoutReached => match self.state {
                ProcessState::WaitingRestart { attempt, .. } => {
                    if exceeds_attempts(cfg, attempt) {
                        Work::Nothing
                    } else {
                        Work::Spawn
                    }
                },
                ProcessState::Stopping(StoppingState::Command { pid, .. }) => Work::Terminate { pid },
                ProcessState::Stopping(StoppingState::Terminate { pid, .. }) => Work::Kill { pid },
                _ => Work::Nothing,
            },
            _ => Work::Nothing,
        };
        let exit_of_live = match (ev, self.state) {
            (Event::ProcessExited { pid, .. }, ProcessState::Watching { pid: p, .. }) => p == pid,
            (Event::ProcessExited { pid, .. }, ProcessState::Running { pid: p }) => p == pid,
            (Event::ProcessExited { pid, .. }, ProcessState::Stopping(StoppingState::Command { pid: p, .. })) => p == pid,
            _ => false,
        };
        let escalating = match (ev, self.state) {
            (Event::TimeoutReached, ProcessState::Stopping(StoppingState::Command { .. })) => true,
            _ => false,
        };
        Plan { tear_down: exit_of_live || escalating, work }
    }

    /// Handles `ev` at `now`, given how the planned work went.
    pub fn apply_event(&mut self, cfg: &ProcessConfig, ev: Event, now: u64, outcome: Outcome)
        requires
            outcome_fits(event_work(*cfg, *old(self), ev), outcome),
        ensures
            *final(self) == event_next(*cfg, *old(self), ev, now, outcome),
    {
        match ev {
            Event::Start => {
                self.wanted = WantedState::Running;
            },
            Event::Stop => match self.state {
                ProcessState::Stopping(_) => {},
                ProcessState::Watching { pid, .. } => {
                    self.wanted = WantedState::Stopped;
                    self.state = ProcessState::Running { pid };
                },
                _ => {
                    self.wanted = WantedState::Stopped;
                },
            },
            Event::ProcessExited { pid, exit_code } => self.handle_exit_event(cfg, pid, exit_code, now, outcome),
            Event::TimeoutReached => self.handle_timeout_reached(cfg, now, outcome),
        }
    }

    /// The exit of a child: a failed start, a finished run, or the end of a stop.
    /// The exit of any child but the one on record is dropped.
    pub fn handle_exit_event(&mut self, cfg: &ProcessConfig, pid: i32, exit_code: i32, now: u64, outcome: Outcome)
        requires
            outcome_fits(event_work(*cfg, *old(self), Event::ProcessExited { pid, exit_code }), outcome),
        ensures
            *final(self) == event_next(*cfg, *old(self), Event::ProcessExited { pid, exit_code }, now, outcome),
    {
        match self.state {
            ProcessState::Watching { pid: existing, attempt, .. } => {
                if existing == pid {
                    self.state = ProcessState::WaitingRestart {
                        timeout_at: deadline_after(now, cfg.restart_delay),
                        attempt: bump_attempt(attempt),
                    };
                }
            },
            ProcessState::Running { pid: existing } => {
                if existing == pid {
                    if should_restart(cfg.restart, exit_code) {
                        self.state = start_fresh(cfg, now, outcome);
                    } else {
                        self.state = ProcessState::Stopped;
                    }
                }
            },
            ProcessState::Stopping(stopping) => {
                let existing = match stopping {
                    StoppingState::Command { pid, .. } => pid,
                    StoppingState::Terminate { pid, .. } => pid,
                    StoppingState::Kill { pid } => pid,
                };
                if existing == pid {
                    self.state = ProcessState::Stopped;
                }
            },
            _ => {},
        }
    }

    /// The deadline of the current state has passed.
    pub fn handle_timeout_reached(&mut self, cfg: &ProcessConfig, now: u64, outcome: Outcome)
        requires
            outcome_fits(event_work(*cfg, *old(self), Event::TimeoutReached), outcome),
        ensures
            *final(self) == event_next(*cfg, *old(self), Event::TimeoutReached, now, outcome),
    {
        match self.state {
            ProcessState::Watching { pid, .. } => {
                self.state = ProcessState::Running { pid };
            },
            ProcessState::WaitingRestart { attempt, .. } => if exceeds_attempts(cfg, attempt) {
                self.wanted = WantedState::Stopped;
                self.state = ProcessState::Stopped;
            } else {
                match outcome {
                    Outcome::Spawned { pid } => {
                        self.state = ProcessState::Watching {
                            pid,
                            timeout_at: deadline_after(now, cfg.watch_delay),
                            attempt,
                        };
                    },
                    _ => {
                        if cfg.restart_attempts >= 0 && attempt as i32 >= cfg.restart_attempts as i32 {
                            self.wanted = WantedState::Stopped;
                            self.state = ProcessState::Stopped;
                        } else {
                            self.state = ProcessState::WaitingRestart {
                                timeout_at: deadline_after(now, cfg.restart_delay),
                                attempt: bump_attempt(attempt),
                            };
                        }
                    },
                }
            },
            ProcessState::Stopping(StoppingState::Command { pid, .. }) => {
                let timeout_at = match outcome {
                    Outcome::Done => deadline_after(now, cfg.stop_config.kill_timeout),
                    _ => now,
                };
                self.state = ProcessState::Stopping(StoppingState::Terminate { timeout_at, pid });
            },
            ProcessState::Stopping(StoppingState::Terminate { pid, .. }) => {
                self.state = ProcessState::Stopping(StoppingState::Kill { pid });
            },
            _ => {},
        }
    }
}

} // verus!
