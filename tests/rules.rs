use dolorous::backup::{archive_of, backup_file_name, find_backup, find_extension, lookup_backup, render_name, Archive, BackupError};
use dolorous::command::{parse_command, program_and_args, CommandError};
use dolorous::config::{has_unique_names, DolorousConfig, ProcessConfig, RestartCondition, StopProperties, default_cache_size, default_duration, default_log_filter, default_name, default_restart_attempts, default_restart_delay, default_stop_command, default_time_format, default_watch_delay, default_wroking_directory, ActionType, BackupFileType, BackupsConfig};
use dolorous::schedule::{controls_for, fire_search_step, next_fire_time, FireSearch, FIRE_TIME_MAX, parse_schedule, plan_action, task_may_run, wait_for_fire, ActionPlan, Firing, ScheduleError};
use dolorous::types::{Controls, ProcessState, StoppingState};

fn recipe(name: &str, file_type: BackupFileType) -> BackupsConfig {
    BackupsConfig {
        output: "/backups".to_string(),
        location: "/server".to_string(),
        time_format: default_time_format(),
        name: name.to_string(),
        file_type,
        files: vec!["world/**".to_string()],
    }
}

#[test]
fn defaults() {
    assert_eq!(default_duration(), 180_000);
    assert_eq!(default_stop_command(), "stop");
    assert_eq!(default_time_format(), "%Y%m%d-%H");
    assert_eq!(default_name(), "{date}.{extension}");
    assert_eq!(default_log_filter(), "info");
    assert_eq!(default_cache_size(), 8192);
    assert_eq!(default_restart_attempts(), 5);
    assert_eq!(default_restart_delay(), 30_000);
    assert_eq!(default_wroking_directory(), "/server");
    assert_eq!(default_watch_delay(), 60_000);
    assert_eq!(BackupFileType::default(), BackupFileType::Zip);
}

#[test]
fn extensions_and_archives() {
    assert_eq!(find_extension(&BackupFileType::Zip), "zip");
    assert_eq!(find_extension(&BackupFileType::TarGz), "tar.gz");
    assert_eq!(find_extension(&BackupFileType::TarGzFast), "tar.gz");
    assert_eq!(find_extension(&BackupFileType::TarGzSmall), "tar.gz");
    assert_eq!(find_extension(&BackupFileType::Tar), "tar");
    assert_eq!(find_extension(&BackupFileType::Copy), "d");
    assert_eq!(archive_of(BackupFileType::TarGz), Archive::TarGz { level: 6 });
    assert_eq!(archive_of(BackupFileType::TarGzFast), Archive::TarGz { level: 1 });
    assert_eq!(archive_of(BackupFileType::TarGzSmall), Archive::TarGz { level: 9 });
    assert_eq!(archive_of(BackupFileType::Zip), Archive::Zip);
    assert_eq!(archive_of(BackupFileType::Tar), Archive::Tar);
    assert_eq!(archive_of(BackupFileType::Copy), Archive::Copy);
}

#[test]
fn backup_names_are_rendered() {
    assert_eq!(render_name("{date}.{extension}", "20240101-10", &BackupFileType::Zip), Ok("20240101-10.zip".to_string()));
    assert_eq!(render_name("world-{ date }.{extension}", "x", &BackupFileType::TarGzSmall), Ok("world-x.tar.gz".to_string()));
    assert_eq!(render_name("plain", "x", &BackupFileType::Tar), Ok("plain".to_string()));
    assert_eq!(render_name("{when}.zip", "x", &BackupFileType::Zip), Err(BackupError::InvalidName));
    assert_eq!(backup_file_name(&recipe("{date}.{extension}", BackupFileType::Copy), "d1"), Ok("d1.d".to_string()));
}

#[test]
fn backups_are_found_by_name() {
    let backups = vec![
        ("daily".to_string(), recipe("{date}.{extension}", BackupFileType::Zip)),
        ("hourly".to_string(), recipe("{date}.{extension}", BackupFileType::Tar)),
    ];
    assert_eq!(find_backup(&backups, "hourly"), Some(1));
    assert_eq!(find_backup(&backups, "daily"), Some(0));
    assert_eq!(find_backup(&backups, "weekly"), None);
    assert_eq!(find_backup(&Vec::new(), "daily"), None);
}

#[test]
fn command_lines_are_split() {
    let c = parse_command("/bin/sh -c 'echo hi; sleep 3600'").unwrap();
    assert_eq!(c.program, "/bin/sh");
    assert_eq!(c.args, vec!["-c".to_string(), "echo hi; sleep 3600".to_string()]);
    let c = parse_command("/bin/false").unwrap();
    assert_eq!(c.program, "/bin/false");
    assert!(c.args.is_empty());
    assert_eq!(parse_command("java \"-Xmx2G").unwrap_err(), CommandError::Invalid);
    assert_eq!(parse_command("   ").unwrap_err(), CommandError::Empty);
    assert_eq!(parse_command("").unwrap_err(), CommandError::Empty);
    assert_eq!(program_and_args(&Vec::new()).unwrap_err(), CommandError::Empty);
    let c = program_and_args(&vec!["a".to_string(), "b c".to_string()]).unwrap();
    assert_eq!(c.program, "a");
    assert_eq!(c.args, vec!["b c".to_string()]);
}

#[test]
fn schedules_parse() {
    assert!(parse_schedule("*/1 * * * * *").is_ok());
    assert!(parse_schedule("0 30 4 * * Sun *").is_ok());
    assert_eq!(parse_schedule("every hour").unwrap_err(), ScheduleError::Invalid);
}

#[test]
fn every_second_schedule_fires_within_a_second() {
    let schedule = parse_schedule("*/1 * * * * *").unwrap();
    let now: i64 = 1_700_000_000_250;
    let next = next_fire_time(&schedule, now).unwrap();
    assert!(next > now);
    assert!(next - now <= 1_000);
    assert_eq!(next, 1_700_000_001_000);
    assert_eq!(next_fire_time(&schedule, i64::MAX), None);
}

#[test]
fn fire_times_in_the_past_are_missed() {
    assert_eq!(wait_for_fire(900, 1000), Firing::Missed);
    assert_eq!(wait_for_fire(1000, 1000), Firing::WaitFor { ms: 0 });
    assert_eq!(wait_for_fire(1500, 1000), Firing::WaitFor { ms: 500 });
    assert_eq!(wait_for_fire(i64::MAX, i64::MIN), Firing::WaitFor { ms: u64::MAX });
}

#[test]
fn tasks_skip_while_stopped_unless_asked() {
    assert!(!task_may_run(false, &ProcessState::Stopped));
    assert!(!task_may_run(false, &ProcessState::WaitingRestart { timeout_at: 0, attempt: 2 }));
    assert!(task_may_run(false, &ProcessState::Running { pid: 1 }));
    assert!(task_may_run(false, &ProcessState::Stopping(StoppingState::Kill { pid: 1 })));
    assert!(task_may_run(true, &ProcessState::Stopped));
}

#[test]
fn actions_map_to_controls() {
    assert_eq!(controls_for(&ActionType::Restart), vec![Controls::Stop, Controls::Start]);
    assert_eq!(controls_for(&ActionType::Start), vec![Controls::Start]);
    assert_eq!(controls_for(&ActionType::Stop), vec![Controls::Stop]);
    assert!(controls_for(&ActionType::Command { command: "x".to_string() }).is_empty());
    match plan_action(&ActionType::Command { command: "save-all".to_string() }) {
        ActionPlan::Command { text } => assert_eq!(text, "save-all"),
        other => panic!("unexpected {:?}", other),
    }
    match plan_action(&ActionType::Backup { backup: "daily".to_string() }) {
        ActionPlan::Backup { name } => assert_eq!(name, "daily"),
        other => panic!("unexpected {:?}", other),
    }
    match plan_action(&ActionType::Restart) {
        ActionPlan::Control { controls } => assert_eq!(controls, vec![Controls::Stop, Controls::Start]),
        other => panic!("unexpected {:?}", other),
    }
}

fn whole_config(backups: Vec<(String, BackupsConfig)>) -> DolorousConfig {
    DolorousConfig {
        socket: None,
        log_filter: default_log_filter(),
        process: ProcessConfig {
            command: "/bin/true".to_string(),
            cache_size: default_cache_size(),
            restart: RestartCondition::Never,
            stop_config: StopProperties {
                stop_command: default_stop_command(),
                term_timeout: default_duration(),
                kill_timeout: default_duration(),
            },
            working_directory: default_wroking_directory(),
            restart_attempts: default_restart_attempts(),
            restart_delay: default_restart_delay(),
            watch_delay: default_watch_delay(),
        },
        tasks: Vec::new(),
        backups,
    }
}

#[test]
fn backup_lookup_reports_undefined() {
    let config = whole_config(vec![
        ("daily".to_string(), recipe("{date}.{extension}", BackupFileType::Zip)),
        ("hourly".to_string(), recipe("{date}.{extension}", BackupFileType::Tar)),
    ]);
    assert!(config.names_are_unique());
    assert_eq!(lookup_backup(&config, "hourly"), Ok(1));
    assert_eq!(lookup_backup(&config, "weekly"), Err(BackupError::Undefined));
}

#[test]
fn duplicate_names_are_detected() {
    let names = |ns: &[&str]| ns.iter().map(|n| (n.to_string(), 0u8)).collect::<Vec<_>>();
    assert!(has_unique_names(&names(&[])));
    assert!(has_unique_names(&names(&["a", "b", "c"])));
    assert!(!has_unique_names(&names(&["a", "b", "a"])));
    let config = whole_config(vec![
        ("daily".to_string(), recipe("{date}.{extension}", BackupFileType::Zip)),
        ("daily".to_string(), recipe("{date}.{extension}", BackupFileType::Tar)),
    ]);
    assert!(!config.names_are_unique());
}

#[test]
fn fire_search_decides_each_answer() {
    assert_eq!(fire_search_step(None, 100, 100), FireSearch::NoMore);
    assert_eq!(fire_search_step(Some(101), 100, 100), FireSearch::Found { at_ms: 101 });
    assert_eq!(fire_search_step(Some(50), 100, 2100), FireSearch::LookAgain { after_ms: 3100 });
    assert_eq!(fire_search_step(Some(100), 100, 100), FireSearch::LookAgain { after_ms: 1100 });
    assert_eq!(fire_search_step(Some(5), 100, FIRE_TIME_MAX - 999), FireSearch::NoMore);
}
