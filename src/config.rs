//! The configuration of the supervisor, as plain values.
//!
//! Durations are held in milliseconds; paths as strings.
use vstd::prelude::*;

verus! {

/// When a child that left the running state on its own is started again.
#[derive(Debug, Clone, Copy, PartialEq, Eq, Structural)]
pub enum RestartCondition {
    Never,
    /// Restart after a zero exit code.
    UnlessCrashed,
    /// Restart after a non-zero exit code.
    IfCrashed,
    Always,
}

/// How a running child is asked to stop.
#[derive(Debug, Clone)]
pub struct StopProperties {
    /// The line written to the child's standard input first.
    pub stop_command: String,
    /// Milliseconds to wait for the child after the stop command, before SIGTERM.
    pub term_timeout: u64,
    /// Milliseconds to wait for the child after SIGTERM, before SIGKILL.
    pub kill_timeout: u64,
}

/// The child program and the policy around it.
#[derive(Debug, Clone)]
pub struct ProcessConfig {
    /// The command line, split into words the way a POSIX shell would.
    pub command: String,
    /// Size in bytes of the output history.
    pub cache_size: u32,
    pub restart: RestartCondition,
    pub stop_config: StopProperties,
    pub working_directory: String,
    /// How many spawns are tried in a row; a negative value means no limit.
    pub restart_attempts: i16,
    /// Milliseconds between a failed start and the next attempt.
    pub restart_delay: u64,
    /// Milliseconds after which a start is considered done. The attempt counter is reset.
    pub watch_delay: u64,
}

/// The whole configuration.
#[derive(Debug)]
pub struct DolorousConfig {
    /// Where the control socket is bound, if anywhere.
    pub socket: Option<String>,
    pub log_filter: String,
    pub process: ProcessConfig,
    /// The scheduled tasks, by name.
    pub tasks: Vec<(String, TaskConfig)>,
    /// The backup recipes, by name.
    pub backups: Vec<(String, BackupsConfig)>,
}

/// Whether no two entries share a name.
pub open spec fn unique_names<T>(entries: Seq<(String, T)>) -> bool {
    forall|i: int, j: int|
        #![trigger entries[i], entries[j]]
        0 <= i < entries.len() && 0 <= j < entries.len() && i != j ==> entries[i].0@ != entries[j].0@
}

/// Whether no two entries share a name.
pub fn has_unique_names<T>(entries: &Vec<(String, T)>) -> (r: bool)
    ensures
        r == unique_names(entries@),
{
    let n = entries.len();
    let mut i: usize = 0;
    while i < n
        invariant
            n == entries@.len(),
            0 <= i <= n,
            forall|a: int, b: int|
                #![trigger entries@[a], entries@[b]]
                0 <= a < i && 0 <= b < n && a != b ==> entries@[a].0@ != entries@[b].0@,
        decreases n - i,
    {
        let mut j: usize = 0;
        while j < n
            invariant
                n == entries@.len(),
                0 <= i < n,
                0 <= j <= n,
                forall|a: int, b: int|
                    #![trigger entries@[a], entries@[b]]
                    0 <= a < i && 0 <= b < n && a != b ==> entries@[a].0@ != entries@[b].0@,
                forall|b: int| #![trigger entries@[b]] 0 <= b < j && b != i ==> entries@[i as int].0@ != entries@[b].0@,
            decreases n - j,
        {
            if j != i && entries[i].0 == entries[j].0 {
                return false;
            }
            j = j + 1;
        }
        i = i + 1;
    }
    true
}

impl DolorousConfig {
    /// Task names are unique, and so are backup recipe names, as the keys of
    /// the file's maps are.
    pub open spec fn wf(&self) -> bool {
        unique_names(self.tasks@) && unique_names(self.backups@)
    }

    /// Whether task names and backup recipe names are each unique.
    pub fn names_are_unique(&self) -> (r: bool)
        ensures
            r == self.wf(),
    {
        has_unique_names(&self.tasks) && has_unique_names(&self.backups)
    }
}

/// One backup recipe.
#[derive(Debug)]
pub struct BackupsConfig {
    /// The directory the backup is written to.
    pub output: String,
    /// The directory the globs are taken from.
    pub location: String,
    /// The format of the date in the name.
    pub time_format: String,
    /// The template of the name, over `{date}` and `{extension}`.
    pub name: String,
    pub file_type: BackupFileType,
    pub files: Vec<String>,
}

/// A task fired on a cron schedule.
#[derive(Debug)]
pub struct TaskConfig {
    /// When the task is scheduled. Uses cron syntax.
    pub schedule: String,
    pub run_if_stopped: bool,
    pub actions: Vec<ActionType>,
}

/// One step of a task.
#[derive(Debug)]
pub enum ActionType {
    Backup { backup: String },
    Command { command: String },
    Start,
    Stop,
    Restart,
}

/// The kind of archive a backup is written as.
#[derive(Debug, Clone, Copy, PartialEq, Eq, Structural)]
pub enum BackupFileType {
    Zip,
    TarGz,
    TarGzFast,
    TarGzSmall,
    Tar,
    Copy,
}

impl Default for BackupFileType {
    fn default() -> (r: Self)
        ensures
            r == BackupFileType::Zip,
    {
        BackupFileType::Zip
    }
}

/// 180 seconds, in milliseconds.
pub fn default_duration() -> (r: u64)
    ensures
        r == 180_000,
{
    180_000
}

pub fn default_stop_command() -> (r: String)
    ensures
        r@ == "stop"@,
{
    "stop".to_owned()
}

pub fn default_time_format() -> (r: String)
    ensures
        r@ == "%Y%m%d-%H"@,
{
    "%Y%m%d-%H".to_owned()
}

pub fn default_name() -> (r: String)
    ensures
        r@ == "{date}.{extension}"@,
{
    "{date}.{extension}".to_owned()
}

pub fn default_log_filter() -> (r: String)
    ensures
        r@ == "info"@,
{
    "info".to_owned()
}

/// 8 KiB.
pub fn default_cache_size() -> (r: u32)
    ensures
        r == 8192,
{
    8 * 1024
}

pub fn default_restart_attempts() -> (r: i16)
    ensures
        r == 5,
{
    5
}

/// 30 seconds, in milliseconds.
pub fn default_restart_delay() -> (r: u64)
    ensures
        r == 30_000,
{
    30_000
}

/// The server's working directory in container builds.
pub fn default_wroking_directory() -> (r: String)
    ensures
        r@ == "/server"@,
{
    "/server".to_owned()
}

/// 60 seconds, in milliseconds.
pub fn default_watch_delay() -> (r: u64)
    ensures
        r == 60_000,
{
    60_000
}

} // verus!
