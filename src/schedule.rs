//! The task scheduler's decisions: when a task fires, whether it runs, and
//! what its actions ask of the other components.
use vstd::prelude::*;
use chrono::{Local, TimeZone, Utc};
use cron::Schedule;
use crate::config::ActionType;
use crate::types::{Controls, ProcessState};

verus! {

#[verifier::external_type_specification]
#[verifier::external_body]
pub struct ExSchedule(Schedule);

#[verifier::external_type_specification]
#[verifier::external_body]
pub struct ExCronError(cron::error::Error);

/// The earliest instant at which fire times are looked for: the start of the
/// year 1, in milliseconds since the Unix epoch.
pub const FIRE_TIME_MIN: i64 = -62_135_596_800_000;

/// The latest instant at which fire times are looked for: the end of the year
/// 9999, in milliseconds since the Unix epoch. It lies far inside chrono's
/// range, so adding a second to it cannot overflow.
pub const FIRE_TIME_MAX: i64 = 253_402_300_799_999;

/// How many times, one second apart, a fire time is looked for again when
/// the one found lies before the instant asked about (two hours' worth).
pub const FIRE_TIME_RETRIES: u32 = 7200;

/// Whether the `cron` crate parses `expr` as a schedule.
pub uninterp spec fn cron_accepts(expr: Seq<char>) -> bool;

/// Relies on `Schedule::from_str`: the expression parses or is refused.
#[verifier::external_body]
fn parse_cron(expr: &str) -> (r: Result<Schedule, cron::error::Error>)
    ensures
        r is Ok <==> cron_accepts(expr@),
{
    <Schedule as core::str::FromStr>::from_str(expr)
}

/// Relies on `Schedule::after`, in local time: a fire time of the schedule
/// for the instant `after_ms` (milliseconds since the Unix epoch), or `None`.
/// Nothing is promised of its order: where the local clock passes an hour
/// twice, the time found may lie before `after_ms`. The instant is bounded
/// so that chrono's date arithmetic cannot overflow.
#[verifier::external_body]
fn next_fire_after(schedule: &Schedule, after_ms: i64) -> (r: Option<i64>)
    requires
        FIRE_TIME_MIN <= after_ms <= FIRE_TIME_MAX,
{
    let after = Utc.timestamp_millis_opt(after_ms).single()?.with_timezone(&Local);
    schedule.after(&after).next().map(|t| t.timestamp_millis())
}

/// Why a task cannot be scheduled.
#[derive(Debug, Clone, Copy, PartialEq, Eq, Structural)]
pub enum ScheduleError {
    /// The cron expression does not parse.
    Invalid,
}

/// The schedule of a task, parsed once when the task starts.
pub fn parse_schedule(expr: &str) -> (r: Result<Schedule, ScheduleError>)
    ensures
        r is Ok <==> cron_accepts(expr@),
        r is Err ==> r->Err_0 == ScheduleError::Invalid,
{
    match parse_cron(expr) {
        Ok(s) => Ok(s),
        Err(_) => Err(ScheduleError::Invalid),
    }
}

/// What the search for a fire time does with one answer of cron.
#[derive(Debug, Clone, Copy, PartialEq, Eq, Structural)]
pub enum FireSearch {
    /// The fire time is found.
    Found { at_ms: i64 },
    /// There is no fire time to be had.
    NoMore,
    /// The answer repeats an earlier wall-clock time; ask again for this instant.
    LookAgain { after_ms: i64 },
}

/// The decision on `found`, cron's answer for the instant `at` in the search
/// for the first fire time after `now_ms`: a time later than `now_ms` is taken;
/// no answer ends the search; an earlier time means asking again one second
/// after `at`, unless that passes `FIRE_TIME_MAX`.
pub fn fire_search_step(found: Option<i64>, now_ms: i64, at: i64) -> (r: FireSearch)
    requires
        FIRE_TIME_MIN <= now_ms <= at <= FIRE_TIME_MAX,
    ensures
        found is None ==> r == FireSearch::NoMore,
        (found is Some && found->Some_0 > now_ms) ==> r == (FireSearch::Found { at_ms: found->Some_0 }),
        (found is Some && found->Some_0 <= now_ms && at > FIRE_TIME_MAX - 1000) ==> r == FireSearch::NoMore,
        (found is Some && found->Some_0 <= now_ms && at <= FIRE_TIME_MAX - 1000)
            ==> r == (FireSearch::LookAgain { after_ms: (at + 1000) as i64 }),
{
    match found {
        None => FireSearch::NoMore,
        Some(t) => {
            if t > now_ms {
                FireSearch::Found { at_ms: t }
            } else if at > FIRE_TIME_MAX - 1000 {
                FireSearch::NoMore
            } else {
                FireSearch::LookAgain { after_ms: at + 1000 }
            }
        },
    }
}

/// The next fire time of `schedule` after `now_ms`, in milliseconds since the
/// Unix epoch: strictly later, or `None`. Cron is asked for `now_ms` first,
/// and each answer is decided by `fire_search_step`; `None` also comes where
/// `now_ms` lies outside the years 1 to 9999, and where no later time turns up
/// within `FIRE_TIME_RETRIES` seconds of looking again.
pub fn next_fire_time(schedule: &Schedule, now_ms: i64) -> (r: Option<i64>)
    ensures
        r is Some ==> r->Some_0 > now_ms,
        !(FIRE_TIME_MIN <= now_ms <= FIRE_TIME_MAX) ==> r is None,
{
    if now_ms < FIRE_TIME_MIN || now_ms > FIRE_TIME_MAX {
        return None;
    }
    let mut at: i64 = now_ms;
    let mut tries: u32 = 0;
    while tries < FIRE_TIME_RETRIES
        invariant
            FIRE_TIME_MIN <= now_ms <= at <= FIRE_TIME_MAX,
        decreases FIRE_TIME_RETRIES - tries,
    {
        match fire_search_step(next_fire_after(schedule, at), now_ms, at) {
            FireSearch::Found { at_ms } => return Some(at_ms),
            FireSearch::NoMore => return None,
            FireSearch::LookAgain { after_ms } => {
                at = after_ms;
            },
        }
        tries = tries + 1;
    }
    None
}

/// What to do about a fire time.
#[derive(Debug, Clone, Copy, PartialEq, Eq, Structural)]
pub enum Firing {
    /// The fire time has already passed; it is skipped.
    Missed,
    /// Sleep this many milliseconds, then fire.
    WaitFor { ms: u64 },
}

/// How to meet the fire time `fire_at` at the instant `now` (both in
/// milliseconds on one clock).
pub fn wait_for_fire(fire_at: i64, now: i64) -> (r: Firing)
    ensures
        fire_at < now ==> r == Firing::Missed,
        fire_at >= now ==> r == (Firing::WaitFor { ms: (fire_at - now) as u64 }),
{
    if fire_at < now {
        Firing::Missed
    } else {
        let d: i128 = fire_at as i128 - now as i128;
        Firing::WaitFor { ms: d as u64 }
    }
}

/// Whether a task runs when it fires while the supervisor is in `state`: a
/// task that is not to run while stopped is skipped while no child is up.
pub fn task_may_run(run_if_stopped: bool, state: &ProcessState) -> (r: bool)
    ensures
        r == (run_if_stopped || !(*state is Stopped || *state is WaitingRestart)),
{
    run_if_stopped || !matches!(state, ProcessState::Stopped | ProcessState::WaitingRestart { .. })
}

/// The controls that an action sends to the supervisor, in order.
pub open spec fn action_controls(a: ActionType) -> Seq<Controls> {
    match a {
        ActionType::Start => seq![Controls::Start],
        ActionType::Stop => seq![Controls::Stop],
        ActionType::Restart => seq![Controls::Stop, Controls::Start],
        _ => seq![],
    }
}

/// What an action asks for.
#[derive(Debug)]
pub enum ActionPlan {
    /// Run the backup recipe of this name.
    Backup { name: String },
    /// Send this line to the child's stdin; an error where there is no child.
    Command { text: String },
    /// Send these controls to the supervisor, in order.
    Control { controls: Vec<Controls> },
}

/// The controls that `action` sends to the supervisor, in order.
pub fn controls_for(action: &ActionType) -> (r: Vec<Controls>)
    ensures
        r@ == action_controls(*action),
{
    let mut r: Vec<Controls> = Vec::new();
    match action {
        ActionType::Start => r.push(Controls::Start),
        ActionType::Stop => r.push(Controls::Stop),
        ActionType::Restart => {
            r.push(Controls::Stop);
            r.push(Controls::Start);
        },
        _ => {},
    }
    assert(r@ =~= action_controls(*action));
    r
}

/// What `action` asks of the backup engine, the child or the supervisor.
pub fn plan_action(action: &ActionType) -> (r: ActionPlan)
    ensures
        action matches ActionType::Backup { backup } ==> (r matches ActionPlan::Backup { name } && name@ == backup@),
        action matches ActionType::Command { command } ==> (r matches ActionPlan::Command { text } && text@ == command@),
        (*action is Start || *action is Stop || *action is Restart) ==> (r matches ActionPlan::Control { controls }
            && controls@ == action_controls(*action)),
{
    match action {
        ActionType::Backup { backup } => ActionPlan::Backup { name: backup.clone() },
        ActionType::Command { command } => ActionPlan::Command { text: command.clone() },
        _ => ActionPlan::Control { controls: controls_for(action) },
    }
}

} // verus!
