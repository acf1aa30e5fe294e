use kds_guard::alarm::{parse_alarm_decision, AlarmDecision, AlarmFeed, AlarmItem, AlarmMode};
use kds_guard::settings::Settings;
use kds_guard::status::{clear_alarm_status, update_alarm_status, AppData, RuntimeStatus};
use kds_guard::time::UtcInstant;

fn instant(t: chrono::DateTime<chrono::Utc>) -> UtcInstant {
    UtcInstant { secs: t.timestamp(), nanos: t.timestamp_subsec_nanos() }
}

fn app_data() -> AppData {
    AppData {
        settings: Settings::default(),
        status: RuntimeStatus::default(),
        logs: Vec::new(),
        dismissed_alarm: None,
    }
}

fn alarm(text: &str) -> AlarmDecision {
    AlarmDecision {
        active: true,
        mode: Some(AlarmMode::Alarm),
        text: Some(text.to_string()),
        link: Some("https://example.test/alarm".to_string()),
        count: 1,
    }
}

fn item(severity: Option<&str>, reason: Option<&str>, link: Option<&str>) -> AlarmItem {
    AlarmItem {
        severity: severity.map(|s| s.to_string()),
        reason: reason.map(|s| s.to_string()),
        link: link.map(|s| s.to_string()),
    }
}

#[test]
fn alarm_severity_has_priority_over_gentle() {
    // { "alarms": [ { "severity": "gentle", "reason": "Heads up" },
    //               { "severity": "alarm", "reason": "Act now",
    //                 "meta": { "link": "https://example.test/urgent" } } ] }
    let decision = parse_alarm_decision(&AlarmFeed {
        alarms: Some(vec![
            item(Some("gentle"), Some("Heads up"), None),
            item(Some("alarm"), Some("Act now"), Some("https://example.test/urgent")),
        ]),
        reason: None,
    });

    assert!(decision.active);
    assert_eq!(decision.mode, Some(AlarmMode::Alarm));
    assert_eq!(decision.text.as_deref(), Some("Act now"));
    assert_eq!(decision.link.as_deref(), Some("https://example.test/urgent"));
    assert_eq!(decision.count, 2);
}

#[test]
fn gentle_and_empty_responses_are_parsed() {
    // { "reason": "Fallback", "alarms": [ { "severity": "gentle" } ] }
    let gentle = parse_alarm_decision(&AlarmFeed {
        alarms: Some(vec![item(Some("gentle"), None, None)]),
        reason: Some("Fallback".to_string()),
    });
    assert_eq!(gentle.mode, Some(AlarmMode::Gentle));
    assert_eq!(gentle.text.as_deref(), Some("Fallback"));

    // { "alarms": [] }
    let empty = parse_alarm_decision(&AlarmFeed { alarms: Some(vec![]), reason: None });
    assert!(!empty.active);
    assert!(empty.mode.is_none());
    assert_eq!(empty.count, 0);
}

#[test]
fn manually_stopped_alarm_stays_silent_until_it_changes() {
    let mut data = app_data();
    let first = alarm("First");

    assert!(!update_alarm_status(&mut data, &first, instant(chrono::Utc::now())));
    data.dismissed_alarm = first.fingerprint();

    assert!(update_alarm_status(&mut data, &first, instant(chrono::Utc::now())));
    assert!(data.status.alarm_active);
    assert!(data.status.sound_suppressed);

    let changed = alarm("Changed");
    assert!(!update_alarm_status(&mut data, &changed, instant(chrono::Utc::now())));
    assert!(!data.status.sound_suppressed);
    assert!(data.dismissed_alarm.is_none());
}

#[test]
fn clearing_alarm_resets_visible_state() {
    let mut data = app_data();
    update_alarm_status(&mut data, &alarm("First"), instant(chrono::Utc::now()));

    clear_alarm_status(&mut data.status);

    assert!(!data.status.alarm_active);
    assert!(data.status.alarm_mode.is_none());
    assert!(data.status.alarm_text.is_none());
    assert!(data.status.alarm_link.is_none());
    assert_eq!(data.status.alarm_count, 0);
    assert!(!data.status.sound_suppressed);
}

#[test]
fn active_mute_suppresses_audio_and_expired_mute_does_not() {
    let now = chrono::Utc::now();
    let mut data = app_data();
    data.status.muted_until = Some(instant(now + chrono::Duration::minutes(1)));
    assert!(update_alarm_status(&mut data, &alarm("First"), instant(now)));

    data.status.muted_until = Some(instant(now - chrono::Duration::seconds(1)));
    assert!(!update_alarm_status(&mut data, &alarm("First"), instant(now)));
    assert!(data.status.muted_until.is_none());
}
