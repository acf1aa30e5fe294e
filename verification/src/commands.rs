//! What each user command and each monitor step does to the application's
//! state. The caller performs the file, sound, network and power work in
//! between and hands the outcome back.

use vstd::prelude::*;
use crate::alarm::{mode_name, mode_name_spec, AlarmMode};
use crate::settings::{normalize_settings, normalized, Settings, SettingsView};
use crate::alarm::{opt_fingerprint, opt_text};
use crate::status::{
    append_log, cleared, clear_alarm_status, shown_fingerprint, status_fingerprint, with_log,
    AppData, DataView, LogLevel, LogView, StatusView,
};
use crate::text::{ascii_ci_eq, eq_ignore_ascii_case_text};
use crate::time::{
    format_utc_seconds, mute_deadline, mute_minutes, utc_seconds_text, UtcInstant, MAX_TIMESTAMP,
    MIN_TIMESTAMP,
};

verus! {

/// Informational events that the log records with a fixed text.
#[derive(Clone, Copy, Debug, PartialEq, Eq, Structural)]
pub enum Notice {
    SettingsSaved,
    MonitorAlreadyRunning,
    MonitorStarted,
}

/// The log text of a notice.
pub open spec fn notice_text(n: Notice) -> Seq<char> {
    match n {
        Notice::SettingsSaved => "Settings saved"@,
        Notice::MonitorAlreadyRunning => "Monitor is already running"@,
        Notice::MonitorStarted => "Monitor started"@,
    }
}

/// Logs a notice at `now`.
pub fn log_notice(data: &mut AppData, notice: Notice, now: UtcInstant)
    ensures
        final(data)@ == with_log(old(data)@, LogLevel::Info, notice_text(notice), now),
        final(data)@.logs.last() == (LogView { at: now, level: LogLevel::Info, message: notice_text(notice) }),
        final(data)@.status == old(data)@.status,
{
    let text = match notice {
        Notice::SettingsSaved => String::from_str("Settings saved"),
        Notice::MonitorAlreadyRunning => String::from_str("Monitor is already running"),
        Notice::MonitorStarted => String::from_str("Monitor started"),
    };
    append_log(data, LogLevel::Info, text, now);
}

/// Normalizes and stores the settings that the user saved, and returns them for
/// writing to disk.
pub fn store_settings(data: &mut AppData, settings: Settings) -> (r: Settings)
    ensures
        final(data)@ == (DataView { settings: normalized(settings@), ..old(data)@ }),
        r@ == normalized(settings@),
        final(data)@.status == old(data)@.status,
        final(data)@.logs == old(data)@.logs,
{
    let next = normalize_settings(settings);
    let copy = next.duplicate();
    data.settings = next;
    copy
}

/// Stores whether the sleep guard is wanted, and returns the settings for
/// writing to disk.
pub fn set_sleep_guard_setting(data: &mut AppData, enabled: bool) -> (r: Settings)
    ensures
        final(data)@ == (DataView {
            settings: SettingsView { sleep_guard_enabled: enabled, ..old(data)@.settings },
            ..old(data)@
        }),
        r@ == final(data)@.settings,
        final(data).settings.sleep_guard_enabled == enabled,
        final(data).settings.start_monitor_on_launch == old(data).settings.start_monitor_on_launch,
        final(data).settings.poll_interval_secs == old(data).settings.poll_interval_secs,
        final(data)@.status == old(data)@.status,
{
    data.settings.sleep_guard_enabled = enabled;
    data.settings.duplicate()
}

/// The log text for the sleep guard being switched.
pub open spec fn sleep_guard_text(enabled: bool) -> Seq<char> {
    if enabled {
        "Windows sleep guard enabled"@
    } else {
        "Windows sleep guard disabled"@
    }
}

/// Records that the operating system accepted the sleep guard being switched.
pub fn record_sleep_guard(data: &mut AppData, enabled: bool, now: UtcInstant)
    ensures
        final(data)@ == with_log(
            DataView { status: StatusView { sleep_guard_active: enabled, ..old(data)@.status }, ..old(data)@ },
            LogLevel::Info,
            sleep_guard_text(enabled),
            now,
        ),
        final(data).status.sleep_guard_active == enabled,
        final(data).status.running == old(data).status.running,
        final(data).status.alarm_active == old(data).status.alarm_active,
        final(data)@.logs.last().message == sleep_guard_text(enabled),
{
    data.status.sleep_guard_active = enabled;
    let text = if enabled {
        String::from_str("Windows sleep guard enabled")
    } else {
        String::from_str("Windows sleep guard disabled")
    };
    append_log(data, LogLevel::Info, text, now);
}

/// The log text for a silenced alarm.
pub open spec fn alarm_stopped_text() -> Seq<char> {
    "Alarm sound stopped until the current alarm changes or clears"@
}

/// The state once the alarm that is shown is silenced: it becomes the silenced
/// alarm, and the status says whether a sound is held back.
pub open spec fn silenced(d: DataView) -> DataView {
    DataView {
        status: StatusView { sound_suppressed: shown_fingerprint(d.status) is Some, ..d.status },
        dismissed: shown_fingerprint(d.status),
        ..d
    }
}

/// Silences the alarm that is shown until it changes or clears.
pub fn stop_alarm(data: &mut AppData, now: UtcInstant)
    ensures
        final(data)@ == with_log(silenced(old(data)@), LogLevel::Info, alarm_stopped_text(), now),
        opt_fingerprint(final(data).dismissed_alarm) == shown_fingerprint(old(data)@.status),
        final(data).status.sound_suppressed == final(data).dismissed_alarm.is_some(),
        final(data).status.alarm_active == old(data).status.alarm_active,
        final(data).status.muted_until == old(data).status.muted_until,
        final(data)@.logs.last().message == alarm_stopped_text(),
{
    let fingerprint = status_fingerprint(&data.status);
    let suppressed = fingerprint.is_some();
    data.dismissed_alarm = fingerprint;
    data.status.sound_suppressed = suppressed;
    append_log(
        data,
        LogLevel::Info,
        String::from_str("Alarm sound stopped until the current alarm changes or clears"),
        now,
    );
}

/// The state once a mute until `until` is set.
pub open spec fn with_mute(d: DataView, until: UtcInstant) -> DataView {
    DataView { status: StatusView { muted_until: Some(until), ..d.status }, ..d }
}

/// Mutes all sound for `minutes` minutes (at least one) from `now`.
pub fn mute_for_minutes(data: &mut AppData, minutes: u64, now: UtcInstant)
    requires
        now.valid(),
        MIN_TIMESTAMP <= now.shifted_secs(mute_minutes(minutes)) <= MAX_TIMESTAMP,
    ensures
        ({
            let until = now.plus_minutes(mute_minutes(minutes));
            final(data)@ == with_log(
                with_mute(old(data)@, until),
                LogLevel::Info,
                "Alarm muted until "@ + utc_seconds_text(until.secs, until.nanos),
                now,
            )
        }),
        final(data).status.muted_until == Some(now.plus_minutes(mute_minutes(minutes))),
        final(data).status.alarm_active == old(data).status.alarm_active,
        final(data)@.dismissed == old(data)@.dismissed,
{
    let until = mute_deadline(now, minutes);
    data.status.muted_until = Some(until);
    let text = String::from_str("Alarm muted until ").concat(format_utc_seconds(until).as_str());
    append_log(data, LogLevel::Info, text, now);
}

/// The mode of a test sound: gentle when `gentle` is asked for (any ASCII case), else the alarm.
pub fn test_alarm_mode(requested: &str) -> (r: AlarmMode)
    ensures
        r == (if ascii_ci_eq(requested@, "gentle"@) {
            AlarmMode::Gentle
        } else {
            AlarmMode::Alarm
        }),
{
    if eq_ignore_ascii_case_text(requested, "gentle") {
        AlarmMode::Gentle
    } else {
        AlarmMode::Alarm
    }
}

/// The status while a test sound plays in `mode`.
pub open spec fn test_status(s: StatusView, mode: AlarmMode) -> StatusView {
    StatusView {
        alarm_active: true,
        alarm_mode: Some(mode),
        alarm_text: Some("Test alarm"@),
        alarm_link: None,
        alarm_count: 1,
        sound_suppressed: false,
        ..s
    }
}

/// Shows a test alarm in `mode` once its sound has started, and forgets any
/// silenced alarm.
pub fn start_test_alarm(data: &mut AppData, mode: AlarmMode, now: UtcInstant)
    ensures
        final(data)@ == with_log(
            DataView { status: test_status(old(data)@.status, mode), dismissed: None, ..old(data)@ },
            LogLevel::Info,
            "Test "@ + mode_name_spec(mode) + " sound started"@,
            now,
        ),
        final(data).status.alarm_active,
        final(data).status.alarm_mode == Some(mode),
        final(data).status.alarm_count == 1,
        !final(data).status.sound_suppressed,
        final(data).dismissed_alarm.is_none(),
        final(data).status.muted_until == old(data).status.muted_until,
        final(data)@.logs.last().message == "Test "@ + mode_name_spec(mode) + " sound started"@,
{
    data.status.alarm_active = true;
    data.status.alarm_mode = Some(mode);
    data.status.alarm_text = Some(String::from_str("Test alarm"));
    data.status.alarm_link = None;
    data.status.alarm_count = 1;
    data.status.sound_suppressed = false;
    data.dismissed_alarm = None;
    let text = String::from_str("Test ").concat(mode_name(mode).as_str()).concat(" sound started");
    append_log(data, LogLevel::Info, text, now);
}

/// Marks the monitor as running and returns whether the sleep guard is wanted.
pub fn mark_monitor_running(data: &mut AppData) -> (r: bool)
    ensures
        final(data)@ == (DataView { status: StatusView { running: true, ..old(data)@.status }, ..old(data)@ }),
        r == old(data)@.settings.sleep_guard_enabled,
        final(data).status.running,
        final(data).status.alarm_active == old(data).status.alarm_active,
{
    data.status.running = true;
    data.settings.sleep_guard_enabled
}

/// Marks the monitor as stopped: nothing is running, no alarm is shown and no
/// alarm stays silenced.
pub fn mark_monitor_stopped(data: &mut AppData, now: UtcInstant)
    ensures
        final(data)@ == with_log(
            DataView {
                status: cleared(StatusView { running: false, ..old(data)@.status }),
                dismissed: None,
                ..old(data)@
            },
            LogLevel::Info,
            "Monitor stopped"@,
            now,
        ),
        !final(data).status.running,
        !final(data).status.alarm_active,
        final(data).status.alarm_mode.is_none(),
        !final(data).status.sound_suppressed,
        final(data).dismissed_alarm.is_none(),
        final(data).status.muted_until == old(data).status.muted_until,
        final(data).status.watchdog_restarts == old(data).status.watchdog_restarts,
        final(data)@.logs.last().message == "Monitor stopped"@,
{
    data.status.running = false;
    clear_alarm_status(&mut data.status);
    data.dismissed_alarm = None;
    append_log(data, LogLevel::Info, String::from_str("Monitor stopped"), now);
}

/// How a monitor worker ended.
#[derive(Debug)]
pub enum WorkerOutcome {
    /// It returned.
    Finished,
    /// It panicked.
    Panicked,
    /// It could not be started, for this reason.
    SpawnFailed(String),
}

/// Why the watchdog restarts the monitor after `outcome`, or `None` when it
/// stops: a finished worker, or a panicked one while a stop was asked for, ends
/// the watchdog.
pub open spec fn restart_reason(outcome: WorkerOutcome, stop_requested: bool) -> Option<Seq<char>> {
    match outcome {
        WorkerOutcome::Finished => None,
        WorkerOutcome::Panicked => if stop_requested {
            None
        } else {
            Some("Monitor worker panicked"@)
        },
        WorkerOutcome::SpawnFailed(e) => Some("Monitor worker could not start: "@ + e@),
    }
}

/// Why the watchdog restarts the monitor after `outcome`, or `None` when it stops.
pub fn watchdog_restart_reason(outcome: &WorkerOutcome, stop_requested: bool) -> (r: Option<String>)
    ensures
        match r {
            Some(s) => restart_reason(*outcome, stop_requested) == Some(s@),
            None => restart_reason(*outcome, stop_requested) is None,
        },
{
    match outcome {
        WorkerOutcome::Finished => None,
        WorkerOutcome::Panicked => if stop_requested {
            None
        } else {
            Some(String::from_str("Monitor worker panicked"))
        },
        WorkerOutcome::SpawnFailed(e) => Some(
            String::from_str("Monitor worker could not start: ").concat(e.as_str()),
        ),
    }
}

/// The restart count after one more restart: it stops at its maximum.
pub open spec fn one_more(n: u64) -> u64 {
    if n == u64::MAX {
        n
    } else {
        (n + 1) as u64
    }
}

/// Records a watchdog restart for `reason`.
pub fn record_watchdog_restart(data: &mut AppData, reason: &str, now: UtcInstant)
    ensures
        final(data)@ == with_log(
            DataView {
                status: StatusView {
                    watchdog_restarts: one_more(old(data)@.status.watchdog_restarts),
                    last_error: Some(reason@),
                    ..old(data)@.status
                },
                ..old(data)@
            },
            LogLevel::Error,
            reason@ + "; watchdog restarting monitor"@,
            now,
        ),
        old(data).status.watchdog_restarts < u64::MAX ==> final(data).status.watchdog_restarts
            == old(data).status.watchdog_restarts + 1,
        final(data).status.watchdog_restarts >= old(data).status.watchdog_restarts,
        opt_text(final(data).status.last_error) == Some(reason@),
        final(data).status.alarm_active == old(data).status.alarm_active,
        final(data)@.logs.last().level == LogLevel::Error,
{
    data.status.watchdog_restarts = data.status.watchdog_restarts.saturating_add(1);
    data.status.last_error = Some(String::from_str(reason));
    let text = String::from_str(reason).concat("; watchdog restarting monitor");
    append_log(data, LogLevel::Error, text, now);
}

/// Records that a poll began at `now`.
pub fn begin_poll(data: &mut AppData, now: UtcInstant)
    ensures
        final(data)@ == (DataView { status: StatusView { last_check: Some(now), ..old(data)@.status }, ..old(data)@ }),
        final(data).status.last_check == Some(now),
        final(data).status.last_success == old(data).status.last_success,
        final(data).status.alarm_active == old(data).status.alarm_active,
{
    data.status.last_check = Some(now);
}

/// Records that a poll succeeded at `now`.
pub fn record_poll_success(data: &mut AppData, now: UtcInstant)
    ensures
        final(data)@ == (DataView {
            status: StatusView { last_success: Some(now), last_error: None, ..old(data)@.status },
            ..old(data)@
        }),
        final(data).status.last_success == Some(now),
        final(data).status.last_error.is_none(),
        final(data).status.alarm_active == old(data).status.alarm_active,
        final(data).status.last_check == old(data).status.last_check,
{
    data.status.last_success = Some(now);
    data.status.last_error = None;
}

/// Records that a poll failed with `error`: no alarm is shown any more, and the
/// error is shown and logged.
pub fn record_poll_failure(data: &mut AppData, error: String, now: UtcInstant)
    ensures
        final(data)@ == with_log(
            DataView { status: StatusView { last_error: Some(error@), ..cleared(old(data)@.status) }, ..old(data)@ },
            LogLevel::Error,
            error@,
            now,
        ),
        !final(data).status.alarm_active,
        final(data).status.alarm_mode.is_none(),
        final(data).status.alarm_count == 0,
        !final(data).status.sound_suppressed,
        opt_text(final(data).status.last_error) == Some(error@),
        final(data).status.last_success == old(data).status.last_success,
        final(data).status.muted_until == old(data).status.muted_until,
        final(data)@.logs.last() == (LogView { at: now, level: LogLevel::Error, message: error@ }),
{
    clear_alarm_status(&mut data.status);
    data.status.last_error = Some(error.clone());
    append_log(data, LogLevel::Error, error, now);
}

} // verus!
