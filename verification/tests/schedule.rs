use std::path::PathBuf;

use aqbot_agent_runtime::backup::BackupManifest;
use aqbot_agent_runtime::location::Location;
use aqbot_agent_runtime::schedule::{
    auto_backup_step, backup_interval, delay_after, get_backup_settings, initial_delay_secs,
    restart_auto_backup, update_backup_settings, AutoBackupSettings, LoopAction, LoopInput,
    RestartAction, RestartInput,
};
use aqbot_agent_runtime::time::{is_in_calendar, Moment, FIRST_SECOND, LAST_SECOND};

fn text(s: &str) -> String {
    s.to_string()
}

fn settings(enabled: bool, interval_hours: u32, backup_dir: Option<&str>) -> AutoBackupSettings {
    AutoBackupSettings { enabled, interval_hours, max_count: 5, backup_dir: backup_dir.map(text) }
}

fn made_at(created_at: &str) -> BackupManifest {
    BackupManifest {
        id: text("b1"),
        version: text("zip"),
        created_at: text(created_at),
        encrypted: false,
        checksum: text(""),
        object_counts_json: text(""),
        source_app_version: text(""),
        file_path: None,
        file_size: 0,
    }
}

fn at(secs: i64, nanos: u32) -> Moment {
    Moment { secs, nanos }
}

#[test]
fn settings_show_the_default_directory() {
    let shown = get_backup_settings(settings(true, 24, None), text("/app/backups"));
    assert_eq!(shown.backup_dir, Some(text("/app/backups")));
    assert!(shown.enabled);
    assert_eq!(shown.interval_hours, 24);
    assert_eq!(shown.max_count, 5);
    let made = settings(false, 6, Some("/mine"));
    let stored = update_backup_settings(&made, Some(text("/mine")));
    let shown = get_backup_settings(stored, text("/app/backups"));
    assert_eq!(shown.backup_dir, made.backup_dir);
    assert_eq!(shown.enabled, made.enabled);
    assert_eq!(shown.interval_hours, made.interval_hours);
    assert_eq!(update_backup_settings(&made, None).backup_dir, None);
}

#[test]
fn automatic_backups_need_an_interval() {
    assert_eq!(backup_interval(&settings(true, 2, None)), Some(7200));
    assert_eq!(backup_interval(&settings(true, 0, None)), None);
    assert_eq!(backup_interval(&settings(false, 2, None)), None);
    assert_eq!(backup_interval(&settings(true, u32::MAX, None)), Some(15_461_882_262_000));
}

#[test]
fn a_held_task_is_stopped_and_a_wanted_one_started() {
    let on = settings(true, 2, None);
    let off = settings(false, 2, None);
    let actions = restart_auto_backup(&on, RestartInput::Requested { held: true });
    assert_eq!(actions.len(), 2);
    assert!(matches!(actions[0], RestartAction::Stop));
    assert!(matches!(actions[1], RestartAction::ListBackups));
    let actions = restart_auto_backup(&on, RestartInput::Requested { held: false });
    assert_eq!(actions.len(), 1);
    assert!(matches!(actions[0], RestartAction::ListBackups));
    let actions = restart_auto_backup(&off, RestartInput::Requested { held: true });
    assert_eq!(actions.len(), 1);
    assert!(matches!(actions[0], RestartAction::Stop));
    assert!(restart_auto_backup(&off, RestartInput::Requested { held: false }).is_empty());
    let never = settings(true, 0, None);
    assert_eq!(restart_auto_backup(&never, RestartInput::Requested { held: true }).len(), 1);
}

#[test]
fn a_new_task_waits_for_what_is_left_of_the_interval() {
    let on = settings(true, 2, None);
    let listed = Some(vec![made_at("1970-01-01 00:00:00")]);
    let actions =
        restart_auto_backup(&on, RestartInput::BackupsListed { listed, now: at(3600, 0) });
    assert_eq!(actions.len(), 1);
    assert!(matches!(
        actions[0],
        RestartAction::Start { delay_secs: 3600, interval_secs: 7200, max_count: 5 }
    ));
    let actions =
        restart_auto_backup(&on, RestartInput::BackupsListed { listed: None, now: at(0, 0) });
    assert!(matches!(
        actions[0],
        RestartAction::Start { delay_secs: 7200, interval_secs: 7200, max_count: 5 }
    ));
    let off = settings(false, 2, None);
    let listed = RestartInput::BackupsListed { listed: None, now: at(0, 0) };
    assert!(restart_auto_backup(&off, listed).is_empty());
}

#[test]
fn the_first_backup_catches_up() {
    let now = at(1_704_067_199, 250);
    let earlier = vec![made_at("2023-12-31 23:00:00"), made_at("garbage")];
    assert_eq!(initial_delay_secs(7200, Some(&earlier), now), 7200 - 3599);
    let overdue = vec![made_at("2023-12-01 00:00:00")];
    assert_eq!(initial_delay_secs(7200, Some(&overdue), now), 0);
    let future = vec![made_at("2024-01-02 00:00:00")];
    assert_eq!(initial_delay_secs(7200, Some(&future), now), 7200);
    let garbage = vec![made_at("yesterday")];
    assert_eq!(initial_delay_secs(7200, Some(&garbage), now), 7200);
    assert_eq!(initial_delay_secs(7200, Some(&Vec::new()), now), 7200);
    assert_eq!(initial_delay_secs(7200, None, now), 7200);
}

#[test]
fn fractions_of_a_second_do_not_count() {
    assert_eq!(delay_after(100, Some(at(10, 900_000_000)), at(12, 0)), 99);
    assert_eq!(delay_after(100, Some(at(12, 0)), at(10, 900_000_000)), 100);
    assert_eq!(delay_after(100, Some(at(0, 0)), at(100, 0)), 0);
    assert_eq!(delay_after(100, None, at(100, 0)), 100);
    assert_eq!(delay_after(0, None, at(100, 0)), 0);
}

#[test]
fn leap_seconds_count_where_they_fall_between() {
    let leap = vec![made_at("2016-12-31 23:59:60")];
    assert_eq!(initial_delay_secs(100, Some(&leap), at(1_483_228_801, 0)), 99);
    assert_eq!(delay_after(100, Some(at(59, 1_000_000_000)), at(61, 0)), 98);
    let reference = |secs: i64, nanos: u32| {
        chrono::DateTime::from_timestamp(secs, nanos).unwrap().naive_utc()
    };
    for (later, earlier) in [
        (at(61, 0), at(59, 1_000_000_000)),
        (at(119, 1_500_000_000), at(59, 0)),
        (at(86_400 + 59, 1_200_000_000), at(86_399, 1_900_000_000)),
        (at(5, 1), at(0, 2)),
    ] {
        let elapsed = reference(later.secs, later.nanos)
            .signed_duration_since(reference(earlier.secs, earlier.nanos))
            .num_seconds();
        assert_eq!(delay_after(1_000_000, Some(earlier), later), 1_000_000 - elapsed as u64);
    }
}

#[test]
fn the_calendar_has_its_ends() {
    assert!(is_in_calendar(&at(FIRST_SECOND, 0)));
    assert!(is_in_calendar(&at(LAST_SECOND, 0)));
    assert!(!is_in_calendar(&at(FIRST_SECOND - 1, 0)));
    assert!(!is_in_calendar(&at(LAST_SECOND + 1, 0)));
    assert!(chrono::DateTime::from_timestamp(FIRST_SECOND, 0).is_some());
    assert!(chrono::DateTime::from_timestamp(LAST_SECOND, 0).is_some());
    assert!(chrono::DateTime::from_timestamp(FIRST_SECOND - 1, 0).is_none());
    assert!(chrono::DateTime::from_timestamp(LAST_SECOND + 1, 0).is_none());
    for (secs, nanos) in [(59, 1_500_000_000), (58, 1_500_000_000), (-1, 1_000_000_000),
        (-60, 1_000_000_000), (-61, 1_999_999_999), (59, 2_000_000_000), (0, 999_999_999)] {
        assert_eq!(
            is_in_calendar(&at(secs, nanos)),
            chrono::DateTime::from_timestamp(secs, nanos).is_some()
        );
    }
}

#[test]
fn the_loop_makes_a_backup_prunes_and_sleeps() {
    let app = PathBuf::from("/app");
    let step = |input: LoopInput| auto_backup_step(&app, 3600, 5, input);
    assert!(matches!(step(LoopInput::Slept), LoopAction::LoadSettings));
    match step(LoopInput::SettingsLoaded(Some(Some(text("/mine"))))) {
        LoopAction::CreateBackup { format, dir, database } => {
            assert_eq!(format, "zip");
            assert!(matches!(dir, Location::Explicit(path) if path == "/mine"));
            assert!(matches!(
                database,
                Location::Below { base, steps } if base == &app && steps == vec!["aqbot.db"]
            ));
        }
        _ => panic!("no backup"),
    }
    for setting in [None, Some(None), Some(Some(text("")))] {
        match step(LoopInput::SettingsLoaded(setting)) {
            LoopAction::CreateBackup { dir, .. } => assert!(matches!(
                dir,
                Location::Below { steps, .. } if steps == vec!["backups"]
            )),
            _ => panic!("no backup"),
        }
    }
    assert!(matches!(
        step(LoopInput::BackupCreated(true)),
        LoopAction::CleanUp { max_count: 5 }
    ));
    assert!(matches!(
        step(LoopInput::BackupCreated(false)),
        LoopAction::Sleep { secs: 3600 }
    ));
    assert!(matches!(step(LoopInput::CleanedUp), LoopAction::Sleep { secs: 3600 }));
}
