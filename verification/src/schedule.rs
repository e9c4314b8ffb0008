//! Automatic backups: their settings, when the first one is due, and the loop that makes
//! them.
use vstd::prelude::*;
use vstd::string::*;

use crate::backup::{backup_place, resolve_backup_dir, BackupManifest, ManifestView};
use crate::location::{below, Location, LocationView};
use crate::text::{opt_view, views};
use crate::time::{in_calendar, parse_time, parsed_time, seconds_between, whole_seconds, Moment};

verus! {

/// The settings of automatic backups.
#[derive(Debug)]
pub struct AutoBackupSettings {
    pub enabled: bool,
    pub interval_hours: u32,
    pub max_count: u32,
    pub backup_dir: Option<String>,
}

/// The settings, their text as a sequence of characters.
pub struct AutoBackupSettingsView {
    pub enabled: bool,
    pub interval_hours: u32,
    pub max_count: u32,
    pub backup_dir: Option<Seq<char>>,
}

impl View for AutoBackupSettings {
    type V = AutoBackupSettingsView;

    open spec fn view(&self) -> AutoBackupSettingsView {
        AutoBackupSettingsView {
            enabled: self.enabled,
            interval_hours: self.interval_hours,
            max_count: self.max_count,
            backup_dir: opt_view(self.backup_dir),
        }
    }
}

/// The settings as the user sees them: a directory that is not set shows as the default one.
pub open spec fn shown_settings(
    stored: AutoBackupSettingsView,
    default_dir: Seq<char>,
) -> AutoBackupSettingsView {
    AutoBackupSettingsView {
        backup_dir: match stored.backup_dir {
            Some(dir) => Some(dir),
            None => Some(default_dir),
        },
        ..stored
    }
}

/// Shows the stored settings to the user.
pub fn get_backup_settings(
    stored: AutoBackupSettings,
    default_dir: String,
) -> (shown: AutoBackupSettings)
    ensures
        shown@ == shown_settings(stored@, default_dir@),
{
    let dir = match stored.backup_dir {
        Some(dir) => dir,
        None => default_dir,
    };
    AutoBackupSettings {
        enabled: stored.enabled,
        interval_hours: stored.interval_hours,
        max_count: stored.max_count,
        backup_dir: Some(dir),
    }
}

/// The settings that are stored of those that the user has made: their directory is encoded.
pub open spec fn stored_settings(
    made: AutoBackupSettingsView,
    encoded_dir: Option<Seq<char>>,
) -> AutoBackupSettingsView {
    AutoBackupSettingsView { backup_dir: encoded_dir, ..made }
}

/// Makes the settings to store from those that the user has made, with their directory
/// encoded.
pub fn update_backup_settings(
    made: &AutoBackupSettings,
    encoded_dir: Option<String>,
) -> (stored: AutoBackupSettings)
    ensures
        stored@ == stored_settings(made@, opt_view(encoded_dir)),
{
    AutoBackupSettings {
        enabled: made.enabled,
        interval_hours: made.interval_hours,
        max_count: made.max_count,
        backup_dir: encoded_dir,
    }
}

/// Settings are read back as they were made, however their directory is encoded: once the
/// stored directory is decoded to the one that was set, a set directory shows as it was set,
/// and no directory shows as the default one.
pub proof fn settings_are_read_back(
    made: AutoBackupSettingsView,
    encoded_dir: Option<Seq<char>>,
    default_dir: Seq<char>,
)
    ensures
        ({
            let stored = stored_settings(made, encoded_dir);
            let decoded = AutoBackupSettingsView { backup_dir: made.backup_dir, ..stored };
            let shown = shown_settings(decoded, default_dir);
            &&& made.backup_dir is Some ==> shown == made
            &&& made.backup_dir is None ==> shown == (AutoBackupSettingsView {
                backup_dir: Some(default_dir),
                ..made
            })
        }),
{
}

// ---------------------------------------------------------------------------------------
// When a backup is due
// ---------------------------------------------------------------------------------------

/// The seconds between two automatic backups, where there are any.
pub open spec fn interval_of(settings: AutoBackupSettingsView) -> Option<int> {
    if !settings.enabled || settings.interval_hours == 0 {
        None
    } else {
        Some(settings.interval_hours * 3600)
    }
}

/// Finds out how many seconds lie between two automatic backups, where there are any.
pub fn backup_interval(settings: &AutoBackupSettings) -> (interval_secs: Option<u64>)
    ensures
        match interval_secs {
            Some(secs) => interval_of(settings@) == Some(secs as int),
            None => interval_of(settings@) is None,
        },
{
    if !settings.enabled || settings.interval_hours == 0 {
        None
    } else {
        Some(settings.interval_hours as u64 * 3600)
    }
}

/// The seconds until the first backup, given when the last one was made: what is left of the
/// interval, nothing if it is overdue, and the whole interval if the last one is not known or
/// lies in the future.
pub open spec fn delay_view(interval: int, last: Option<Moment>, now: Moment) -> int {
    match last {
        Some(last) => {
            let seconds = whole_seconds(now, last);
            let elapsed = if seconds > 0 {
                seconds
            } else {
                0
            };
            if elapsed >= interval {
                0
            } else {
                interval - elapsed
            }
        },
        None => interval,
    }
}

/// Finds out how many seconds to wait for the first backup, given when the last one was made.
pub fn delay_after(interval_secs: u64, last: Option<Moment>, now: Moment) -> (delay: u64)
    requires
        in_calendar(now),
        last matches Some(last) ==> in_calendar(last),
    ensures
        delay == delay_view(interval_secs as int, last, now),
{
    match last {
        Some(last) => {
            let seconds: i64 = seconds_between(now, last);
            let elapsed: u64 = if seconds > 0 {
                seconds as u64
            } else {
                0
            };
            if elapsed >= interval_secs {
                0
            } else {
                interval_secs - elapsed
            }
        },
        None => interval_secs,
    }
}

/// The format of the time of a backup's record.
pub open spec fn record_format() -> Seq<char> {
    "%Y-%m-%d %H:%M:%S"@
}

/// When the last of the backups was made, the newest first, as far as its record tells.
pub open spec fn last_backup(manifests: Seq<ManifestView>) -> Option<Moment> {
    if manifests.len() == 0 {
        None
    } else {
        parsed_time(manifests[0].created_at, record_format())
    }
}

/// When the last of the listed backups was made, as far as that is known.
pub open spec fn last_listed(listed: Option<Seq<ManifestView>>) -> Option<Moment> {
    match listed {
        Some(manifests) => last_backup(manifests),
        None => None,
    }
}

/// Finds out how many seconds to wait for the first backup, given all backups, the newest
/// first, where they could be listed.
pub fn initial_delay_secs(
    interval_secs: u64,
    listed: Option<&Vec<BackupManifest>>,
    now: Moment,
) -> (delay: u64)
    requires
        in_calendar(now),
    ensures
        delay == delay_view(
            interval_secs as int,
            last_listed(
                match listed {
                    Some(manifests) => Some(views(manifests@)),
                    None => None,
                },
            ),
            now,
        ),
{
    let last = match listed {
        Some(manifests) => {
            if manifests.len() == 0 {
                None
            } else {
                parse_time(manifests[0].created_at.as_str(), "%Y-%m-%d %H:%M:%S")
            }
        },
        None => None,
    };
    delay_after(interval_secs, last, now)
}

/// The first backup never waits longer than the interval, and not at all where it is overdue;
/// else the wait and the time since the last backup make up the interval.
pub proof fn the_first_backup_comes_in_time(interval: int, last: Moment, now: Moment)
    requires
        interval >= 0,
    ensures
        0 <= delay_view(interval, Some(last), now) <= interval,
        delay_view(interval, None, now) == interval,
        whole_seconds(now, last) >= interval ==> delay_view(interval, Some(last), now) == 0,
        0 <= whole_seconds(now, last) < interval ==> delay_view(interval, Some(last), now)
            + whole_seconds(now, last) == interval,
{
}

// ---------------------------------------------------------------------------------------
// Starting and stopping
// ---------------------------------------------------------------------------------------

/// What is known when automatic backups are to be started anew.
pub enum RestartInput {
    /// The settings apply from now on; whether a task that makes backups is held.
    Requested { held: bool },
    /// The answer to `ListBackups`: all backups, the newest first, where they could be listed,
    /// and the time.
    BackupsListed { listed: Option<Vec<BackupManifest>>, now: Moment },
}

/// What is known, the backups as views.
pub enum RestartInputView {
    Requested { held: bool },
    BackupsListed { listed: Option<Seq<ManifestView>>, now: Moment },
}

impl View for RestartInput {
    type V = RestartInputView;

    open spec fn view(&self) -> RestartInputView {
        match self {
            RestartInput::Requested { held } => RestartInputView::Requested { held: *held },
            RestartInput::BackupsListed { listed, now } => RestartInputView::BackupsListed {
                listed: match listed {
                    Some(manifests) => Some(views(manifests@)),
                    None => None,
                },
                now: *now,
            },
        }
    }
}

/// Whether the time in what is known is in the calendar.
pub open spec fn restart_in_calendar(input: RestartInputView) -> bool {
    input matches RestartInputView::BackupsListed { now, .. } ==> in_calendar(now)
}

/// Something to do for automatic backups.
pub enum RestartAction {
    /// Stop the held task, which is held no longer.
    Stop,
    /// List the backups; answered by `BackupsListed`.
    ListBackups,
    /// Start a task and hold it. It waits for the first backup and then makes one after each
    /// interval.
    Start { delay_secs: u64, interval_secs: u64, max_count: u32 },
}

/// An action, its times as numbers.
pub enum RestartActionView {
    Stop,
    ListBackups,
    Start { delay_secs: int, interval_secs: int, max_count: u32 },
}

impl View for RestartAction {
    type V = RestartActionView;

    open spec fn view(&self) -> RestartActionView {
        match self {
            RestartAction::Stop => RestartActionView::Stop,
            RestartAction::ListBackups => RestartActionView::ListBackups,
            RestartAction::Start { delay_secs, interval_secs, max_count } =>
                RestartActionView::Start {
                    delay_secs: *delay_secs as int,
                    interval_secs: *interval_secs as int,
                    max_count: *max_count,
                },
        }
    }
}

/// What to do for automatic backups with the given settings: a held task is stopped in any
/// case, and a new one is started where the settings want one.
pub open spec fn restart_actions(
    settings: AutoBackupSettingsView,
    input: RestartInputView,
) -> Seq<RestartActionView> {
    match input {
        RestartInputView::Requested { held } => {
            let first = if held {
                seq![RestartActionView::Stop]
            } else {
                Seq::empty()
            };
            if interval_of(settings) is Some {
                first.push(RestartActionView::ListBackups)
            } else {
                first
            }
        },
        RestartInputView::BackupsListed { listed, now } => match interval_of(settings) {
            Some(interval) => seq![
                RestartActionView::Start {
                    delay_secs: delay_view(interval, last_listed(listed), now),
                    interval_secs: interval,
                    max_count: settings.max_count,
                },
            ],
            None => Seq::empty(),
        },
    }
}

/// Starts automatic backups anew: takes whether a task is held, and then the answer to the
/// last action, and says what to do.
pub fn restart_auto_backup(settings: &AutoBackupSettings, input: RestartInput) -> (actions: Vec<
    RestartAction,
>)
    requires
        restart_in_calendar(input@),
    ensures
        views(actions@) == restart_actions(settings@, input@),
{
    let mut actions: Vec<RestartAction> = Vec::new();
    match input {
        RestartInput::Requested { held } => {
            if held {
                actions.push(RestartAction::Stop);
            }
            if backup_interval(settings).is_some() {
                actions.push(RestartAction::ListBackups);
            }
        },
        RestartInput::BackupsListed { listed, now } => {
            if let Some(interval_secs) = backup_interval(settings) {
                let delay_secs: u64 = initial_delay_secs(interval_secs, listed.as_ref(), now);
                actions.push(
                    RestartAction::Start {
                        delay_secs,
                        interval_secs,
                        max_count: settings.max_count,
                    },
                );
            }
        },
    }
    assert(views(actions@) =~= restart_actions(settings@, input@));
    actions
}

/// The tasks that make automatic backups: the one that is held, those that are active, and how
/// many have been started so far. A task is known by how many were started before it.
pub struct Tasks {
    pub held: Option<nat>,
    pub active: Set<nat>,
    pub started: nat,
}

/// No task was ever started.
pub open spec fn no_tasks() -> Tasks {
    Tasks { held: None, active: Set::empty(), started: 0 }
}

/// The tasks after an action.
pub open spec fn performed(tasks: Tasks, action: RestartActionView) -> Tasks {
    match action {
        RestartActionView::Stop => Tasks {
            held: None,
            active: match tasks.held {
                Some(task) => tasks.active.remove(task),
                None => tasks.active,
            },
            ..tasks
        },
        RestartActionView::ListBackups => tasks,
        RestartActionView::Start { .. } => Tasks {
            held: Some(tasks.started),
            active: tasks.active.insert(tasks.started),
            started: tasks.started + 1,
        },
    }
}

/// The tasks after actions, one after another.
pub open spec fn all_performed(tasks: Tasks, actions: Seq<RestartActionView>) -> Tasks
    decreases actions.len(),
{
    if actions.len() == 0 {
        tasks
    } else {
        performed(all_performed(tasks, actions.drop_last()), actions.last())
    }
}

/// One call to start automatic backups anew: the settings, and what is found when the backups
/// are listed.
pub struct RestartCall {
    pub settings: AutoBackupSettingsView,
    pub listed: Option<Seq<ManifestView>>,
    pub now: Moment,
}

/// The tasks after a call. The backups are listed only where the call asks for that.
pub open spec fn restarted(tasks: Tasks, call: RestartCall) -> Tasks {
    let first = restart_actions(
        call.settings,
        RestartInputView::Requested { held: tasks.held is Some },
    );
    let then = if first.contains(RestartActionView::ListBackups) {
        restart_actions(
            call.settings,
            RestartInputView::BackupsListed { listed: call.listed, now: call.now },
        )
    } else {
        Seq::empty()
    };
    all_performed(all_performed(tasks, first), then)
}

/// The tasks after calls, one after another.
pub open spec fn after_restarts(calls: Seq<RestartCall>) -> Tasks
    decreases calls.len(),
{
    if calls.len() == 0 {
        no_tasks()
    } else {
        restarted(after_restarts(calls.drop_last()), calls.last())
    }
}

/// Whether exactly the held task is active.
pub open spec fn only_held_is_active(tasks: Tasks) -> bool {
    &&& tasks.held matches Some(task) ==> task < tasks.started && tasks.active == set![task]
    &&& tasks.held is None ==> tasks.active == Set::<nat>::empty()
}

/// A held task is stopped by every call. Afterwards one is held exactly where backups are
/// enabled with an interval, and it is the one newly started task.
pub proof fn a_restart_replaces_the_task(tasks: Tasks, call: RestartCall)
    requires
        only_held_is_active(tasks),
    ensures
        ({
            let next = restarted(tasks, call);
            &&& only_held_is_active(next)
            &&& tasks.held matches Some(task) ==> !next.active.contains(task)
            &&& next.held is None <==> !call.settings.enabled || call.settings.interval_hours == 0
            &&& next.held matches Some(task) ==> task == tasks.started && next.started
                == tasks.started + 1
            &&& next.held is None ==> next.started == tasks.started
        }),
{
    reveal_with_fuel(all_performed, 4);
    let held = tasks.held is Some;
    let first = restart_actions(call.settings, RestartInputView::Requested { held });
    let stopped = Tasks { held: None, active: Set::empty(), ..tasks };
    if held {
        assert(tasks.active.remove(tasks.held->0) =~= Set::empty());
    }
    if interval_of(call.settings) is Some {
        assert(first.last() == RestartActionView::ListBackups);
        assert(first[first.len() - 1] == RestartActionView::ListBackups);
        assert(first.contains(RestartActionView::ListBackups));
        if held {
            assert(first.drop_last() =~= seq![RestartActionView::Stop]);
            assert(first.drop_last().drop_last() =~= Seq::empty());
        } else {
            assert(first.drop_last() =~= Seq::empty());
        }
        assert(all_performed(tasks, first) == stopped);
        assert(stopped.active.insert(tasks.started) =~= set![tasks.started]);
    } else {
        assert(!first.contains(RestartActionView::ListBackups));
        if held {
            assert(first.drop_last() =~= Seq::empty());
        }
        assert(all_performed(tasks, first) == stopped);
    }
}

/// After any calls at most one task is active, the held one; there is one exactly where the
/// last call wanted one.
pub proof fn at_most_one_task_is_active(calls: Seq<RestartCall>)
    ensures
        only_held_is_active(after_restarts(calls)),
        after_restarts(calls).active.len() <= 1,
        after_restarts(calls).held is Some <==> calls.len() > 0 && calls.last().settings.enabled
            && calls.last().settings.interval_hours > 0,
    decreases calls.len(),
{
    if calls.len() > 0 {
        at_most_one_task_is_active(calls.drop_last());
        a_restart_replaces_the_task(after_restarts(calls.drop_last()), calls.last());
    }
}

// ---------------------------------------------------------------------------------------
// The loop
// ---------------------------------------------------------------------------------------

/// The answer to an action.
pub enum LoopInput {
    /// The time to sleep is over.
    Slept,
    /// The directory of the backups in the settings, decoded, where they could be read.
    SettingsLoaded(Option<Option<String>>),
    /// Whether a backup was made.
    BackupCreated(bool),
    /// The old backups were deleted, or that failed.
    CleanedUp,
}

/// An answer, its text as a sequence of characters.
pub enum LoopInputView {
    Slept,
    SettingsLoaded(Option<Option<Seq<char>>>),
    BackupCreated(bool),
    CleanedUp,
}

impl View for LoopInput {
    type V = LoopInputView;

    open spec fn view(&self) -> LoopInputView {
        match self {
            LoopInput::Slept => LoopInputView::Slept,
            LoopInput::SettingsLoaded(Some(dir)) => LoopInputView::SettingsLoaded(
                Some(opt_view(*dir)),
            ),
            LoopInput::SettingsLoaded(None) => LoopInputView::SettingsLoaded(None),
            LoopInput::BackupCreated(made) => LoopInputView::BackupCreated(*made),
            LoopInput::CleanedUp => LoopInputView::CleanedUp,
        }
    }
}

/// Something to do in the loop. Each action is answered by the input of the like name.
pub enum LoopAction<'a, B> {
    Sleep { secs: u64 },
    LoadSettings,
    /// Make a backup of the database in a format and a directory.
    CreateBackup { format: &'static str, dir: Location<'a, B>, database: Location<'a, B> },
    /// Delete the backups beyond a number.
    CleanUp { max_count: u32 },
}

/// An action, its texts as sequences of characters.
pub enum LoopActionView<B> {
    Sleep { secs: u64 },
    LoadSettings,
    CreateBackup { format: Seq<char>, dir: LocationView<B>, database: LocationView<B> },
    CleanUp { max_count: u32 },
}

impl<'a, B> View for LoopAction<'a, B> {
    type V = LoopActionView<B>;

    open spec fn view(&self) -> LoopActionView<B> {
        match self {
            LoopAction::Sleep { secs } => LoopActionView::Sleep { secs: *secs },
            LoopAction::LoadSettings => LoopActionView::LoadSettings,
            LoopAction::CreateBackup { format, dir, database } => LoopActionView::CreateBackup {
                format: format@,
                dir: dir@,
                database: database@,
            },
            LoopAction::CleanUp { max_count } => LoopActionView::CleanUp { max_count: *max_count },
        }
    }
}

/// What the loop does after an answer: a backup, the deleting of old ones only where that
/// backup was made, and then a sleep.
pub open spec fn loop_next<B>(
    app_data_dir: B,
    interval_secs: u64,
    max_count: u32,
    input: LoopInputView,
) -> LoopActionView<B> {
    match input {
        LoopInputView::Slept => LoopActionView::LoadSettings,
        LoopInputView::SettingsLoaded(setting) => LoopActionView::CreateBackup {
            format: "zip"@,
            dir: backup_place(
                match setting {
                    Some(dir) => dir,
                    None => None,
                },
                app_data_dir,
            ),
            database: LocationView::Below { base: app_data_dir, steps: seq!["aqbot.db"@] },
        },
        LoopInputView::BackupCreated(made) => if made {
            LoopActionView::CleanUp { max_count }
        } else {
            LoopActionView::Sleep { secs: interval_secs }
        },
        LoopInputView::CleanedUp => LoopActionView::Sleep { secs: interval_secs },
    }
}

/// Takes the answer to the last action of the loop and says what to do next. The loop begins
/// with a sleep until the first backup is due.
pub fn auto_backup_step<'a, B>(
    app_data_dir: &'a B,
    interval_secs: u64,
    max_count: u32,
    input: LoopInput,
) -> (action: LoopAction<'a, B>)
    ensures
        action@ == loop_next(*app_data_dir, interval_secs, max_count, input@),
{
    match input {
        LoopInput::Slept => LoopAction::LoadSettings,
        LoopInput::SettingsLoaded(setting) => {
            let dir = match &setting {
                Some(dir) => match dir {
                    Some(dir) => resolve_backup_dir(Some(dir.as_str()), app_data_dir),
                    None => resolve_backup_dir(None, app_data_dir),
                },
                None => resolve_backup_dir(None, app_data_dir),
            };
            LoopAction::CreateBackup {
                format: "zip",
                dir,
                database: below(app_data_dir, "aqbot.db"),
            }
        },
        LoopInput::BackupCreated(made) => {
            if made {
                LoopAction::CleanUp { max_count }
            } else {
                LoopAction::Sleep { secs: interval_secs }
            }
        },
        LoopInput::CleanedUp => LoopAction::Sleep { secs: interval_secs },
    }
}

/// Old backups are deleted only after a new one was made, and the loop always sleeps for the
/// whole interval between two backups.
pub proof fn old_backups_go_only_for_new_ones<B>(
    app_data_dir: B,
    interval_secs: u64,
    max_count: u32,
    input: LoopInputView,
)
    ensures
        ({
            let action = loop_next(app_data_dir, interval_secs, max_count, input);
            &&& action is CleanUp <==> input == LoopInputView::BackupCreated(true)
            &&& action is CreateBackup <==> input is SettingsLoaded
            &&& action matches LoopActionView::Sleep { secs } ==> secs == interval_secs
            &&& action is Sleep <==> input == LoopInputView::BackupCreated(false) || input
                is CleanedUp
        }),
{
}

/// Backups are made by themselves if and only if they are enabled with an interval, which is as
/// many hours as are set.
pub proof fn an_interval_is_as_many_hours_as_are_set(settings: AutoBackupSettingsView)
    ensures
        interval_of(settings) is Some <==> settings.enabled && settings.interval_hours > 0,
        interval_of(settings) matches Some(secs) ==> secs == 3600 * settings.interval_hours,
{
}

/// Of the backups that are listed, newest first, the first one alone tells when the last backup
/// was made, and where none is listed that is not known. A time that is still to come is no
/// reason to wait for longer than the interval.
pub proof fn the_newest_backup_counts(
    newest: ManifestView,
    older: Seq<ManifestView>,
    interval: int,
    last: Moment,
    now: Moment,
)
    requires
        interval >= 0,
    ensures
        last_listed(Some(seq![newest] + older)) == parsed_time(
            newest.created_at,
            "%Y-%m-%d %H:%M:%S"@,
        ),
        last_listed(Some(Seq::empty())) is None,
        last_listed(None) is None,
        whole_seconds(now, last) <= 0 ==> delay_view(interval, Some(last), now) == interval,
{
    assert((seq![newest] + older)[0] == newest);
}

/// Settings that want backups stop the held task, list the backups and start a task that waits
/// for the first backup and keeps as many as are set; settings that want none only stop.
pub proof fn a_restart_goes_by_the_settings(
    settings: AutoBackupSettingsView,
    listed: Option<Seq<ManifestView>>,
    now: Moment,
)
    ensures
        ({
            let wanted = settings.enabled && settings.interval_hours > 0;
            let free = restart_actions(settings, RestartInputView::Requested { held: false });
            let held = restart_actions(settings, RestartInputView::Requested { held: true });
            let then = restart_actions(settings, RestartInputView::BackupsListed { listed, now });
            &&& held == seq![RestartActionView::Stop] + free
            &&& wanted ==> free == seq![RestartActionView::ListBackups]
            &&& !wanted ==> free.len() == 0 && then.len() == 0
            &&& wanted ==> then == seq![
                RestartActionView::Start {
                    delay_secs: delay_view(
                        3600 * settings.interval_hours,
                        last_listed(listed),
                        now,
                    ),
                    interval_secs: 3600 * settings.interval_hours,
                    max_count: settings.max_count,
                },
            ]
        }),
{
    let free = restart_actions(settings, RestartInputView::Requested { held: false });
    let held = restart_actions(settings, RestartInputView::Requested { held: true });
    assert(held =~= seq![RestartActionView::Stop] + free);
}

/// The loop backs the database of the application up as an archive, into the directory of the
/// settings where they could be read and name one, else below the data directory; it keeps as
/// many backups as it was told.
pub proof fn the_loop_backs_the_database_up<B>(
    app_data_dir: B,
    interval_secs: u64,
    max_count: u32,
    setting: Option<Option<Seq<char>>>,
)
    ensures
        loop_next(app_data_dir, interval_secs, max_count, LoopInputView::Slept)
            == LoopActionView::<B>::LoadSettings,
        loop_next(app_data_dir, interval_secs, max_count, LoopInputView::BackupCreated(true)) == (
        LoopActionView::<B>::CleanUp { max_count }),
        loop_next(
            app_data_dir,
            interval_secs,
            max_count,
            LoopInputView::SettingsLoaded(setting),
        ) matches LoopActionView::CreateBackup { format, dir, database } && {
            &&& format == "zip"@
            &&& database == (LocationView::Below { base: app_data_dir, steps: seq!["aqbot.db"@] })
            &&& dir == if setting is Some && setting->0 is Some && setting->0->0.len() > 0 {
                LocationView::Explicit(setting->0->0)
            } else {
                LocationView::Below { base: app_data_dir, steps: seq!["backups"@] }
            }
        },
{
}

} // verus!
