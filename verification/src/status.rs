//! The application's state: the settings in use, the status that the window
//! shows, the event log and the alarm that the user silenced. Each operation
//! states how it changes that state.

use vstd::prelude::*;
use crate::alarm::{
    copy_opt_text, decision_fingerprint, opt_fingerprint, opt_text, same_fingerprint,
    AlarmDecision, AlarmDecisionView, AlarmFingerprint, AlarmFingerprintView, AlarmMode,
};
use crate::settings::{Settings, SettingsView};
use crate::time::UtcInstant;

verus! {

/// The most log entries that are kept.
pub const MAX_LOG_ENTRIES: usize = 500usize;

/// The most log entries that a snapshot carries.
pub const SNAPSHOT_LOG_ENTRIES: usize = 200usize;

/// What the window shows about the monitor and the current alarm.
#[derive(Debug)]
pub struct RuntimeStatus {
    pub running: bool,
    pub sleep_guard_active: bool,
    pub alarm_active: bool,
    pub alarm_mode: Option<AlarmMode>,
    pub alarm_text: Option<String>,
    pub alarm_link: Option<String>,
    pub alarm_count: usize,
    pub sound_suppressed: bool,
    pub watchdog_restarts: u64,
    pub muted_until: Option<UtcInstant>,
    pub last_check: Option<UtcInstant>,
    pub last_success: Option<UtcInstant>,
    pub last_error: Option<String>,
}

/// The status as plain values.
pub struct StatusView {
    pub running: bool,
    pub sleep_guard_active: bool,
    pub alarm_active: bool,
    pub alarm_mode: Option<AlarmMode>,
    pub alarm_text: Option<Seq<char>>,
    pub alarm_link: Option<Seq<char>>,
    pub alarm_count: nat,
    pub sound_suppressed: bool,
    pub watchdog_restarts: u64,
    pub muted_until: Option<UtcInstant>,
    pub last_check: Option<UtcInstant>,
    pub last_success: Option<UtcInstant>,
    pub last_error: Option<Seq<char>>,
}

impl View for RuntimeStatus {
    type V = StatusView;

    open spec fn view(&self) -> StatusView {
        StatusView {
            running: self.running,
            sleep_guard_active: self.sleep_guard_active,
            alarm_active: self.alarm_active,
            alarm_mode: self.alarm_mode,
            alarm_text: opt_text(self.alarm_text),
            alarm_link: opt_text(self.alarm_link),
            alarm_count: self.alarm_count as nat,
            sound_suppressed: self.sound_suppressed,
            watchdog_restarts: self.watchdog_restarts,
            muted_until: self.muted_until,
            last_check: self.last_check,
            last_success: self.last_success,
            last_error: opt_text(self.last_error),
        }
    }
}

/// The status before anything happened: everything off, empty and unset.
pub open spec fn initial_status() -> StatusView {
    StatusView {
        running: false,
        sleep_guard_active: false,
        alarm_active: false,
        alarm_mode: None,
        alarm_text: None,
        alarm_link: None,
        alarm_count: 0,
        sound_suppressed: false,
        watchdog_restarts: 0,
        muted_until: None,
        last_check: None,
        last_success: None,
        last_error: None,
    }
}

impl Default for RuntimeStatus {
    fn default() -> (r: RuntimeStatus)
        ensures
            r@ == initial_status(),
    {
        RuntimeStatus {
            running: false,
            sleep_guard_active: false,
            alarm_active: false,
            alarm_mode: None,
            alarm_text: None,
            alarm_link: None,
            alarm_count: 0,
            sound_suppressed: false,
            watchdog_restarts: 0,
            muted_until: None,
            last_check: None,
            last_success: None,
            last_error: None,
        }
    }
}

impl RuntimeStatus {
    /// A copy of this status.
    pub fn duplicate(&self) -> (r: RuntimeStatus)
        ensures
            r@ == self@,
    {
        RuntimeStatus {
            running: self.running,
            sleep_guard_active: self.sleep_guard_active,
            alarm_active: self.alarm_active,
            alarm_mode: self.alarm_mode,
            alarm_text: copy_opt_text(&self.alarm_text),
            alarm_link: copy_opt_text(&self.alarm_link),
            alarm_count: self.alarm_count,
            sound_suppressed: self.sound_suppressed,
            watchdog_restarts: self.watchdog_restarts,
            muted_until: self.muted_until,
            last_check: self.last_check,
            last_success: self.last_success,
            last_error: copy_opt_text(&self.last_error),
        }
    }
}

/// How serious a log entry is.
#[derive(Clone, Copy, Debug, PartialEq, Eq, Structural)]
pub enum LogLevel {
    Info,
    Error,
}

/// One entry of the event log.
#[derive(Debug)]
pub struct LogEntry {
    pub at: UtcInstant,
    pub level: LogLevel,
    pub message: String,
}

/// A log entry as plain values.
pub struct LogView {
    pub at: UtcInstant,
    pub level: LogLevel,
    pub message: Seq<char>,
}

impl View for LogEntry {
    type V = LogView;

    open spec fn view(&self) -> LogView {
        LogView { at: self.at, level: self.level, message: self.message@ }
    }
}

impl LogEntry {
    /// A copy of this entry.
    pub fn duplicate(&self) -> (r: LogEntry)
        ensures
            r@ == self@,
    {
        LogEntry { at: self.at, level: self.level, message: self.message.clone() }
    }
}

/// A list of log entries as plain values.
pub open spec fn logs_view(v: Vec<LogEntry>) -> Seq<LogView> {
    v@.map_values(|e: LogEntry| e@)
}

/// The last `n` elements of `s` (all of them when there are fewer).
pub open spec fn last_n<A>(s: Seq<A>, n: nat) -> Seq<A> {
    if s.len() <= n {
        s
    } else {
        s.subrange(s.len() - n, s.len() as int)
    }
}

/// Everything the application keeps between two commands.
#[derive(Debug)]
pub struct AppData {
    pub settings: Settings,
    pub status: RuntimeStatus,
    pub logs: Vec<LogEntry>,
    pub dismissed_alarm: Option<AlarmFingerprint>,
}

/// The application's state as plain values.
pub struct DataView {
    pub settings: SettingsView,
    pub status: StatusView,
    pub logs: Seq<LogView>,
    pub dismissed: Option<AlarmFingerprintView>,
}

impl View for AppData {
    type V = DataView;

    open spec fn view(&self) -> DataView {
        DataView {
            settings: self.settings@,
            status: self.status@,
            logs: logs_view(self.logs),
            dismissed: opt_fingerprint(self.dismissed_alarm),
        }
    }
}

/// What the window receives: the settings, the status and the latest log entries.
#[derive(Debug)]
pub struct AppSnapshot {
    pub settings: Settings,
    pub status: RuntimeStatus,
    pub logs: Vec<LogEntry>,
}

/// The log after `entry` is added: the oldest entries beyond the limit are dropped.
pub open spec fn logged(logs: Seq<LogView>, entry: LogView) -> Seq<LogView> {
    last_n(logs.push(entry), MAX_LOG_ENTRIES as nat)
}

/// The state after `message` is logged at `level` at `now`.
pub open spec fn with_log(d: DataView, level: LogLevel, message: Seq<char>, now: UtcInstant) -> DataView {
    DataView { logs: logged(d.logs, LogView { at: now, level, message }), ..d }
}

/// The state after the status is replaced.
pub open spec fn with_status(d: DataView, s: StatusView) -> DataView {
    DataView { status: s, ..d }
}

impl AppData {
    /// The state of a freshly started application with `settings`.
    pub fn new(settings: Settings) -> (r: AppData)
        ensures
            r@ == (DataView {
                settings: settings@,
                status: initial_status(),
                logs: Seq::empty(),
                dismissed: None,
            }),
    {
        let r = AppData {
            settings,
            status: RuntimeStatus::default(),
            logs: Vec::new(),
            dismissed_alarm: None,
        };
        assert(logs_view(r.logs) =~= Seq::<LogView>::empty());
        r
    }
}

/// Adds an entry to the log; the log keeps at most `MAX_LOG_ENTRIES`, the newest.
pub fn append_log(data: &mut AppData, level: LogLevel, message: String, now: UtcInstant)
    ensures
        final(data)@ == with_log(old(data)@, level, message@, now),
        final(data)@.logs.len() <= MAX_LOG_ENTRIES,
        final(data)@.logs.last() == (LogView { at: now, level, message: message@ }),
        old(data)@.logs.len() < MAX_LOG_ENTRIES ==> final(data)@.logs == old(data)@.logs.push(
            LogView { at: now, level, message: message@ },
        ),
        final(data)@.settings == old(data)@.settings,
        final(data)@.status == old(data)@.status,
        final(data)@.dismissed == old(data)@.dismissed,
{
    let ghost before = logs_view(data.logs);
    let entry = LogEntry { at: now, level, message };
    data.logs.push(entry);
    assert(logs_view(data.logs) =~= before.push(entry@));
    if data.logs.len() > MAX_LOG_ENTRIES {
        let overflow = data.logs.len() - MAX_LOG_ENTRIES;
        let ghost all = logs_view(data.logs);
        let kept = data.logs.split_off(overflow);
        data.logs = kept;
        assert(logs_view(data.logs) =~= all.subrange(overflow as int, all.len() as int));
    }
}

/// The settings, the status and the latest `SNAPSHOT_LOG_ENTRIES` log entries, oldest first.
pub fn snapshot(data: &AppData) -> (r: AppSnapshot)
    ensures
        r.settings@ == data.settings@,
        r.status@ == data.status@,
        logs_view(r.logs) == last_n(data@.logs, SNAPSHOT_LOG_ENTRIES as nat),
{
    let n = data.logs.len();
    let start: usize = if n > SNAPSHOT_LOG_ENTRIES { n - SNAPSHOT_LOG_ENTRIES } else { 0 };
    let mut logs: Vec<LogEntry> = Vec::new();
    let mut i: usize = start;
    while i < n
        invariant
            n == data.logs.len(),
            start <= i <= n,
            logs_view(logs) =~= logs_view(data.logs).subrange(start as int, i as int),
        decreases n - i,
    {
        let ghost prev = logs_view(logs);
        let e = data.logs[i].duplicate();
        logs.push(e);
        assert(logs_view(logs) =~= prev.push(e@));
        assert(e@ == logs_view(data.logs)[i as int]);
        i = i + 1;
        assert(logs_view(logs) =~= logs_view(data.logs).subrange(start as int, i as int));
    }
    assert(logs_view(data.logs).subrange(start as int, n as int) =~= last_n(
        data@.logs,
        SNAPSHOT_LOG_ENTRIES as nat,
    ));
    AppSnapshot { settings: data.settings.duplicate(), status: data.status.duplicate(), logs }
}

/// The status with the alarm fields cleared.
pub open spec fn cleared(s: StatusView) -> StatusView {
    StatusView {
        alarm_active: false,
        alarm_mode: None,
        alarm_text: None,
        alarm_link: None,
        alarm_count: 0,
        sound_suppressed: false,
        ..s
    }
}

/// Clears what the status shows of an alarm; the rest is kept.
pub fn clear_alarm_status(status: &mut RuntimeStatus)
    ensures
        final(status)@ == cleared(old(status)@),
{
    status.alarm_active = false;
    status.alarm_mode = None;
    status.alarm_text = None;
    status.alarm_link = None;
    status.alarm_count = 0;
    status.sound_suppressed = false;
}

/// The fingerprint of the alarm that the status shows, if one is active.
pub open spec fn shown_fingerprint(s: StatusView) -> Option<AlarmFingerprintView> {
    if !s.alarm_active {
        None
    } else {
        match s.alarm_mode {
            Some(mode) => Some(AlarmFingerprintView { mode, text: s.alarm_text, link: s.alarm_link }),
            None => None,
        }
    }
}

/// The fingerprint of the alarm that the status shows, if one is active.
pub fn status_fingerprint(status: &RuntimeStatus) -> (r: Option<AlarmFingerprint>)
    ensures
        opt_fingerprint(r) == shown_fingerprint(status@),
{
    if !status.alarm_active {
        return None;
    }
    match status.alarm_mode {
        Some(mode) => Some(
            AlarmFingerprint {
                mode,
                text: copy_opt_text(&status.alarm_text),
                link: copy_opt_text(&status.alarm_link),
            },
        ),
        None => None,
    }
}

/// The mute after `now`: a mute whose end is not later than `now` is over.
pub open spec fn mute_left(m: Option<UtcInstant>, now: UtcInstant) -> Option<UtcInstant> {
    match m {
        Some(until) => if until.not_after(now) {
            None
        } else {
            Some(until)
        },
        None => None,
    }
}

/// The silenced alarm after a decision: kept only while the decision is active
/// and names the same alarm.
pub open spec fn dismissal_left(
    dismissed: Option<AlarmFingerprintView>,
    d: AlarmDecisionView,
) -> Option<AlarmFingerprintView> {
    if !d.active || dismissed != decision_fingerprint(d) {
        None
    } else {
        dismissed
    }
}

/// The user silenced exactly the alarm that the decision names.
pub open spec fn manually_suppressed(data: DataView, d: AlarmDecisionView) -> bool {
    &&& decision_fingerprint(d) is Some
    &&& dismissal_left(data.dismissed, d) == decision_fingerprint(d)
}

/// A mute is still running at `now`.
pub open spec fn muted_at(data: DataView, now: UtcInstant) -> bool {
    mute_left(data.status.muted_until, now) is Some
}

/// Whether the sound is held back after the decision: the user silenced this
/// alarm, or a mute is still running.
pub open spec fn suppresses(data: DataView, d: AlarmDecisionView, now: UtcInstant) -> bool {
    manually_suppressed(data, d) || muted_at(data, now)
}

/// The state after a decision at `now`: an expired mute is dropped, the status
/// shows the decision, and the silenced alarm is kept only while it is still
/// the one decided on.
pub open spec fn after_decision(data: DataView, d: AlarmDecisionView, now: UtcInstant) -> DataView {
    DataView {
        status: StatusView {
            muted_until: mute_left(data.status.muted_until, now),
            alarm_active: d.active,
            alarm_mode: d.mode,
            alarm_text: d.text,
            alarm_link: d.link,
            alarm_count: d.count,
            sound_suppressed: manually_suppressed(data, d),
            ..data.status
        },
        dismissed: dismissal_left(data.dismissed, d),
        ..data
    }
}

/// Shows `decision` in the status and returns whether its sound is held back.
pub fn update_alarm_status(data: &mut AppData, decision: &AlarmDecision, now: UtcInstant) -> (r: bool)
    ensures
        final(data)@ == after_decision(old(data)@, decision@, now),
        r == suppresses(old(data)@, decision@, now),
        final(data).status.alarm_active == decision.active,
        final(data).status.alarm_mode == decision.mode,
        opt_text(final(data).status.alarm_text) == opt_text(decision.text),
        opt_text(final(data).status.alarm_link) == opt_text(decision.link),
        final(data).status.alarm_count == decision.count,
{
    let expired = match &data.status.muted_until {
        Some(until) => until.is_not_after(&now),
        None => false,
    };
    if expired {
        data.status.muted_until = None;
    }
    let fingerprint = decision.fingerprint();
    if !decision.active || !same_fingerprint(&data.dismissed_alarm, &fingerprint) {
        data.dismissed_alarm = None;
    }
    let manually_suppressed = fingerprint.is_some() && data.dismissed_alarm.is_some()
        && same_fingerprint(&fingerprint, &data.dismissed_alarm);
    let muted = match &data.status.muted_until {
        Some(until) => !until.is_not_after(&now),
        None => false,
    };
    data.status.alarm_active = decision.active;
    data.status.alarm_mode = decision.mode;
    data.status.alarm_text = copy_opt_text(&decision.text);
    data.status.alarm_link = copy_opt_text(&decision.link);
    data.status.alarm_count = decision.count;
    data.status.sound_suppressed = manually_suppressed;
    manually_suppressed || muted
}

/// What the sound does after a decision.
#[derive(Clone, Copy, Debug, PartialEq, Eq, Structural)]
pub enum AudioAction {
    /// Play the sound of this mode.
    Play(AlarmMode),
    /// Stop any sound.
    Stop,
}

/// The sound after a decision: its mode plays unless the sound is held back.
pub open spec fn audio_for(d: AlarmDecisionView, suppressed: bool) -> AudioAction {
    match d.mode {
        Some(mode) => if suppressed {
            AudioAction::Stop
        } else {
            AudioAction::Play(mode)
        },
        None => AudioAction::Stop,
    }
}

/// Applies a decision at `now` and says what the sound does next.
pub fn apply_alarm_decision(data: &mut AppData, decision: &AlarmDecision, now: UtcInstant) -> (r: AudioAction)
    ensures
        final(data)@ == after_decision(old(data)@, decision@, now),
        r == audio_for(decision@, suppresses(old(data)@, decision@, now)),
        decision.mode is Some && !suppresses(old(data)@, decision@, now) ==> r == AudioAction::Play(
            decision.mode->0,
        ),
        decision.mode is None || suppresses(old(data)@, decision@, now) ==> r == AudioAction::Stop,
{
    let suppressed = update_alarm_status(data, decision, now);
    match decision.mode {
        Some(mode) => if suppressed {
            AudioAction::Stop
        } else {
            AudioAction::Play(mode)
        },
        None => AudioAction::Stop,
    }
}

/// Whether a sound has to be started for `requested` while `playing` plays.
pub fn audio_needs_start(playing: Option<AlarmMode>, requested: AlarmMode) -> (r: bool)
    ensures
        r == (playing != Some(requested)),
{
    match playing {
        Some(mode) => mode != requested,
        None => true,
    }
}

} // verus!
