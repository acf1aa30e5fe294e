use kds_guard::alarm::{
    mode_name, parse_alarm_decision, AlarmDecision, AlarmFeed, AlarmItem, AlarmMode,
};
use kds_guard::commands::{
    begin_poll, log_notice, mark_monitor_running, mark_monitor_stopped, mute_for_minutes,
    record_poll_failure, record_poll_success, record_sleep_guard, record_watchdog_restart,
    set_sleep_guard_setting, start_test_alarm, stop_alarm, store_settings, test_alarm_mode,
    watchdog_restart_reason, Notice, WorkerOutcome,
};
use kds_guard::poll::{
    build_poll_request, decimal_text, is_success_status, poll_failure_message, PollFailure,
};
use kds_guard::power::{set_sleep_guard_os, sleep_guard_flags};
use kds_guard::settings::{normalize_base_url, normalize_settings, poll_wait_secs, Settings};
use kds_guard::status::{
    append_log, apply_alarm_decision, audio_needs_start, snapshot, status_fingerprint,
    update_alarm_status, AppData, AudioAction, LogLevel,
};
use kds_guard::text::{eq_ignore_ascii_case_text, starts_with_text, trim_end_char, trim_text};
use kds_guard::time::{mute_deadline, UtcInstant};

fn at(secs: i64) -> UtcInstant {
    UtcInstant { secs, nanos: 0 }
}

fn fresh() -> AppData {
    AppData::new(Settings::default())
}

fn alarm(text: &str) -> AlarmDecision {
    AlarmDecision {
        active: true,
        mode: Some(AlarmMode::Alarm),
        text: Some(text.to_string()),
        link: None,
        count: 1,
    }
}

fn quiet() -> AlarmDecision {
    AlarmDecision { active: false, mode: None, text: None, link: None, count: 0 }
}

fn item(severity: Option<&str>, reason: Option<&str>) -> AlarmItem {
    AlarmItem {
        severity: severity.map(|s| s.to_string()),
        reason: reason.map(|s| s.to_string()),
        link: None,
    }
}

fn settings_with(url: &str, cookie: &str, user: &str, password: &str) -> Settings {
    Settings {
        server_url: url.to_string(),
        poll_interval_secs: 0,
        cookie_header: cookie.to_string(),
        basic_auth_user: user.to_string(),
        basic_auth_password: password.to_string(),
        sleep_guard_enabled: false,
        start_monitor_on_launch: true,
    }
}

#[test]
fn default_settings_poll_the_staff_server() {
    let s = Settings::default();
    assert_eq!(s.server_url, "https://staff.tkgse.ru");
    assert_eq!(s.poll_interval_secs, 2);
    assert!(s.cookie_header.is_empty() && s.basic_auth_user.is_empty() && s.basic_auth_password.is_empty());
    assert!(s.sleep_guard_enabled);
    assert!(!s.start_monitor_on_launch);
}

#[test]
fn normalization_trims_and_raises_interval() {
    let n = normalize_settings(settings_with(" \u{3000}https://host/api//\u{a0} ", "  a=b \t", "  bob ", " pw "));
    assert_eq!(n.server_url, "https://host/api");
    assert_eq!(n.poll_interval_secs, 1);
    assert_eq!(n.cookie_header, "a=b");
    assert_eq!(n.basic_auth_user, "bob");
    assert_eq!(n.basic_auth_password, " pw ");
    assert!(!n.sleep_guard_enabled);
    assert!(n.start_monitor_on_launch);
    assert_eq!(poll_wait_secs(&n), 1);
    let mut keep = Settings::default();
    keep.poll_interval_secs = 7;
    assert_eq!(poll_wait_secs(&keep), 7);
}

#[test]
fn normalizing_twice_changes_nothing() {
    let once = normalize_settings(settings_with(" https://host// ", " c ", " u ", "p"));
    let twice = normalize_settings(once.duplicate());
    assert_eq!(once.server_url, twice.server_url);
    assert_eq!(once.cookie_header, twice.cookie_header);
    assert_eq!(once.basic_auth_user, twice.basic_auth_user);
    assert_eq!(once.poll_interval_secs, twice.poll_interval_secs);
}

#[test]
fn address_ending_in_space_before_slash_is_trimmed_again() {
    let once = normalize_settings(settings_with("a /", "", "", ""));
    assert_eq!(once.server_url, "a ");
    let twice = normalize_settings(once);
    assert_eq!(twice.server_url, "a");
}

#[test]
fn base_url_gets_a_scheme_and_loses_trailing_slashes() {
    assert_eq!(normalize_base_url("staff.example.ru/").unwrap(), "https://staff.example.ru");
    assert_eq!(normalize_base_url(" http://host:8080// ").unwrap(), "http://host:8080");
    assert_eq!(normalize_base_url("https://x").unwrap(), "https://x");
    assert_eq!(normalize_base_url("HTTP://x").unwrap(), "https://HTTP://x");
    assert_eq!(normalize_base_url("").unwrap_err(), "Server URL is empty");
    assert_eq!(normalize_base_url("  ///  ").unwrap_err(), "Server URL is empty");
}

#[test]
fn text_helpers_follow_std() {
    for s in ["", "  ", " a b ", "\u{2003}x\u{85}", "\u{200b}y"] {
        assert_eq!(trim_text(s), s.trim());
        assert_eq!(trim_text(&trim_text(s)), trim_text(s));
        assert_eq!(trim_end_char(s, 'b'), s.trim_end_matches('b'));
    }
    assert!(starts_with_text("https://x", "https://"));
    assert!(!starts_with_text("http", "https://"));
    assert!(eq_ignore_ascii_case_text("GeNtLe", "gentle"));
    assert!(!eq_ignore_ascii_case_text("gentlé", "gentle"));
    assert!(!eq_ignore_ascii_case_text("gentl", "gentle"));
}

#[test]
fn poll_request_carries_cookie_and_basic_credentials() {
    let req = build_poll_request(&settings_with("host/", " a=b ", " bob ", "secret")).unwrap();
    assert_eq!(req.url, "https://host/rest/staff/alarm");
    let headers: Vec<(String, String)> =
        req.headers.iter().map(|h| (h.name.clone(), h.value.clone())).collect();
    assert_eq!(
        headers,
        vec![
            ("Accept".to_string(), "application/json".to_string()),
            ("User-Agent".to_string(), "KDS-Guard/0.1 Windows".to_string()),
            ("Cookie".to_string(), "a=b".to_string()),
            ("Authorization".to_string(), "Basic Ym9iOnNlY3JldA==".to_string()),
        ]
    );
}

#[test]
fn poll_request_without_credentials_has_two_headers() {
    let req = build_poll_request(&settings_with("http://h", "   ", "  ", "")).unwrap();
    assert_eq!(req.url, "http://h/rest/staff/alarm");
    assert_eq!(req.headers.len(), 2);
    let only_password = build_poll_request(&settings_with("h", "", "  ", "pw")).unwrap();
    assert_eq!(only_password.headers[2].value, "Basic OnB3");
    let unicode = build_poll_request(&settings_with("h", "", "jürgen", "päss")).unwrap();
    assert_eq!(unicode.headers[2].value, "Basic asO8cmdlbjpww6Rzcw==");
    assert_eq!(build_poll_request(&settings_with(" / ", "", "", "")).unwrap_err(), "Server URL is empty");
}

#[test]
fn poll_failures_are_reported_in_words() {
    let url = "https://h/rest/staff/alarm";
    assert_eq!(
        poll_failure_message(&PollFailure::Status(503), url),
        "Poll HTTP 503 from https://h/rest/staff/alarm"
    );
    assert_eq!(
        poll_failure_message(&PollFailure::Request("timeout".to_string()), url),
        "Poll request failed: timeout"
    );
    assert_eq!(
        poll_failure_message(&PollFailure::Read("eof".to_string()), url),
        "Poll response read failed: eof"
    );
    assert_eq!(
        poll_failure_message(&PollFailure::Parse("bad".to_string()), url),
        "Alarm JSON parse failed: bad"
    );
    assert_eq!(decimal_text(0), "0");
    assert_eq!(decimal_text(65535), "65535");
    assert_eq!(decimal_text(u64::MAX), u64::MAX.to_string());
    assert!(is_success_status(200) && is_success_status(299));
    assert!(!is_success_status(199) && !is_success_status(300) && !is_success_status(404));
}

#[test]
fn decisions_ignore_ascii_case_and_take_the_first_entry() {
    let d = parse_alarm_decision(&AlarmFeed {
        alarms: Some(vec![
            item(None, Some("no severity")),
            item(Some("GENTLE"), Some("g1")),
            item(Some("gentle"), Some("g2")),
            item(Some("Alarm"), None),
            item(Some("alarm"), Some("a2")),
        ]),
        reason: None,
    });
    assert!(d.active);
    assert_eq!(d.mode, Some(AlarmMode::Alarm));
    assert_eq!(d.text.as_deref(), Some("KDS"));
    assert_eq!(d.count, 5);

    let g = parse_alarm_decision(&AlarmFeed {
        alarms: Some(vec![item(Some("info"), None), item(Some("GENTLE"), Some("g1")), item(Some("gentle"), Some("g2"))]),
        reason: Some("top".to_string()),
    });
    assert_eq!(g.mode, Some(AlarmMode::Gentle));
    assert_eq!(g.text.as_deref(), Some("g1"));
    assert_eq!(g.count, 3);

    let none = parse_alarm_decision(&AlarmFeed { alarms: None, reason: Some("x".to_string()) });
    assert!(!none.active && none.mode.is_none() && none.text.is_none());
    assert_eq!(none.count, 0);
    assert!(none.fingerprint().is_none());
    assert_eq!(mode_name(AlarmMode::Gentle), "gentle");
}

#[test]
fn stopped_alarm_stays_silent_and_clearing_ends_the_silence() {
    let mut data = fresh();
    assert!(!update_alarm_status(&mut data, &alarm("A"), at(10)));
    stop_alarm(&mut data, at(11));
    assert!(data.status.sound_suppressed);
    assert!(data.dismissed_alarm.is_some());
    assert_eq!(data.logs.last().unwrap().message, "Alarm sound stopped until the current alarm changes or clears");
    assert!(update_alarm_status(&mut data, &alarm("A"), at(12)));
    assert!(data.status.sound_suppressed);

    assert!(!update_alarm_status(&mut data, &quiet(), at(13)));
    assert!(data.dismissed_alarm.is_none());
    assert!(status_fingerprint(&data.status).is_none());
    assert!(!update_alarm_status(&mut data, &alarm("A"), at(14)));
}

#[test]
fn stopping_without_an_alarm_silences_nothing() {
    let mut data = fresh();
    stop_alarm(&mut data, at(1));
    assert!(data.dismissed_alarm.is_none());
    assert!(!data.status.sound_suppressed);
}

#[test]
fn audio_follows_the_decision() {
    let mut data = fresh();
    assert_eq!(apply_alarm_decision(&mut data, &alarm("A"), at(0)), AudioAction::Play(AlarmMode::Alarm));
    assert_eq!(apply_alarm_decision(&mut data, &quiet(), at(0)), AudioAction::Stop);
    mute_for_minutes(&mut data, 5, at(0));
    assert_eq!(apply_alarm_decision(&mut data, &alarm("A"), at(299)), AudioAction::Stop);
    assert_eq!(apply_alarm_decision(&mut data, &alarm("A"), at(300)), AudioAction::Play(AlarmMode::Alarm));
    assert!(data.status.muted_until.is_none());
    assert!(audio_needs_start(None, AlarmMode::Gentle));
    assert!(audio_needs_start(Some(AlarmMode::Alarm), AlarmMode::Gentle));
    assert!(!audio_needs_start(Some(AlarmMode::Gentle), AlarmMode::Gentle));
}

#[test]
fn mute_lasts_at_least_a_minute_and_is_logged() {
    let mut data = fresh();
    mute_for_minutes(&mut data, 0, at(0));
    assert_eq!(data.status.muted_until, Some(at(60)));
    assert_eq!(data.logs[0].message, "Alarm muted until 1970-01-01 00:01:00 UTC");
    mute_for_minutes(&mut data, 30, at(1_700_000_000));
    assert_eq!(data.logs[1].message, "Alarm muted until 2023-11-14 22:43:20 UTC");
    assert_eq!(data.status.muted_until, Some(at(1_700_001_800)));
    assert!(update_alarm_status(&mut data, &alarm("A"), at(1_700_000_000)));
    assert!(update_alarm_status(&mut data, &alarm("A"), at(1_700_001_799)));
    assert!(!update_alarm_status(&mut data, &alarm("A"), at(1_700_001_800)));
    let leap = mute_deadline(UtcInstant { secs: 59, nanos: 1_500_000_000 }, 1);
    assert_eq!(leap, UtcInstant { secs: 119, nanos: 500_000_000 });
    let wrapped = mute_deadline(UtcInstant { secs: 59, nanos: 1_500_000_000 }, u64::MAX);
    assert_eq!(wrapped, UtcInstant { secs: 0, nanos: 500_000_000 });
    let mut past = fresh();
    mute_for_minutes(&mut past, u64::MAX, at(1000));
    assert_eq!(past.status.muted_until, Some(at(940)));
}

#[test]
fn log_keeps_the_newest_five_hundred_and_snapshot_the_newest_two_hundred() {
    let mut data = fresh();
    for i in 0..501 {
        append_log(&mut data, LogLevel::Info, i.to_string(), at(i));
    }
    assert_eq!(data.logs.len(), 500);
    assert_eq!(data.logs[0].message, "1");
    assert_eq!(data.logs[499].message, "500");
    let snap = snapshot(&data);
    assert_eq!(snap.logs.len(), 200);
    assert_eq!(snap.logs[0].message, "301");
    assert_eq!(snap.logs[199].message, "500");
    assert_eq!(snap.settings.server_url, data.settings.server_url);
}

#[test]
fn test_sound_shows_a_test_alarm() {
    assert_eq!(test_alarm_mode("GeNtle"), AlarmMode::Gentle);
    assert_eq!(test_alarm_mode("alarm"), AlarmMode::Alarm);
    assert_eq!(test_alarm_mode("notif"), AlarmMode::Alarm);
    let mut data = fresh();
    update_alarm_status(&mut data, &alarm("A"), at(0));
    stop_alarm(&mut data, at(0));
    start_test_alarm(&mut data, AlarmMode::Gentle, at(1));
    assert!(data.status.alarm_active);
    assert_eq!(data.status.alarm_mode, Some(AlarmMode::Gentle));
    assert_eq!(data.status.alarm_text.as_deref(), Some("Test alarm"));
    assert!(data.status.alarm_link.is_none());
    assert_eq!(data.status.alarm_count, 1);
    assert!(!data.status.sound_suppressed);
    assert!(data.dismissed_alarm.is_none());
    assert_eq!(data.logs.last().unwrap().message, "Test gentle sound started");
}

#[test]
fn watchdog_restarts_are_counted_and_explained() {
    assert!(watchdog_restart_reason(&WorkerOutcome::Finished, false).is_none());
    assert!(watchdog_restart_reason(&WorkerOutcome::Panicked, true).is_none());
    assert_eq!(
        watchdog_restart_reason(&WorkerOutcome::Panicked, false).unwrap(),
        "Monitor worker panicked"
    );
    assert_eq!(
        watchdog_restart_reason(&WorkerOutcome::SpawnFailed("no threads".to_string()), true).unwrap(),
        "Monitor worker could not start: no threads"
    );
    let mut data = fresh();
    record_watchdog_restart(&mut data, "boom", at(3));
    assert_eq!(data.status.watchdog_restarts, 1);
    assert_eq!(data.status.last_error.as_deref(), Some("boom"));
    assert_eq!(data.logs[0].message, "boom; watchdog restarting monitor");
    assert_eq!(data.logs[0].level, LogLevel::Error);
    data.status.watchdog_restarts = u64::MAX;
    record_watchdog_restart(&mut data, "again", at(4));
    assert_eq!(data.status.watchdog_restarts, u64::MAX);
}

#[test]
fn poll_outcomes_update_the_status() {
    let mut data = fresh();
    begin_poll(&mut data, at(5));
    assert_eq!(data.status.last_check, Some(at(5)));
    update_alarm_status(&mut data, &alarm("A"), at(5));
    record_poll_failure(&mut data, "Poll HTTP 500 from u".to_string(), at(6));
    assert!(!data.status.alarm_active && data.status.alarm_mode.is_none());
    assert_eq!(data.status.last_error.as_deref(), Some("Poll HTTP 500 from u"));
    assert_eq!(data.logs[0].level, LogLevel::Error);
    record_poll_success(&mut data, at(7));
    assert_eq!(data.status.last_success, Some(at(7)));
    assert!(data.status.last_error.is_none());
}

#[test]
fn monitor_start_stop_and_settings() {
    let mut data = fresh();
    assert!(mark_monitor_running(&mut data));
    assert!(data.status.running);
    record_sleep_guard(&mut data, true, at(0));
    assert!(data.status.sleep_guard_active);
    assert_eq!(data.logs[0].message, "Windows sleep guard enabled");
    log_notice(&mut data, Notice::MonitorStarted, at(0));
    assert_eq!(data.logs[1].message, "Monitor started");
    update_alarm_status(&mut data, &alarm("A"), at(1));
    stop_alarm(&mut data, at(1));
    mark_monitor_stopped(&mut data, at(2));
    assert!(!data.status.running && !data.status.alarm_active);
    assert!(data.dismissed_alarm.is_none());
    assert_eq!(data.logs.last().unwrap().message, "Monitor stopped");

    let saved = store_settings(&mut data, settings_with(" h/ ", "", "", ""));
    assert_eq!(saved.server_url, "h");
    assert_eq!(data.settings.server_url, "h");
    assert_eq!(data.settings.poll_interval_secs, 1);
    let written = set_sleep_guard_setting(&mut data, true);
    assert!(written.sleep_guard_enabled && data.settings.sleep_guard_enabled);
    record_sleep_guard(&mut data, false, at(3));
    assert_eq!(data.logs.last().unwrap().message, "Windows sleep guard disabled");
}

#[test]
fn sleep_guard_flags_and_result() {
    assert_eq!(sleep_guard_flags(true), 0x8000_0001);
    assert_eq!(sleep_guard_flags(false), 0x8000_0000);
    assert!(set_sleep_guard_os(0x8000_0000).is_ok());
    assert_eq!(set_sleep_guard_os(0).unwrap_err(), "SetThreadExecutionState failed");
}
