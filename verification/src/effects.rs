//! What each operation does to its inputs, stated field by field: the sound
//! that follows a decision, the entry that a decision is taken on, what the
//! status shows after a decision, the headers of a poll, what normalization
//! keeps, and what the commands change and keep.

use vstd::prelude::*;
use vstd::utf8::encode_utf8;
use crate::alarm::{
    decide, first_with_severity, has_severity, AlarmDecisionView, AlarmFeedView,
    AlarmFingerprintView, AlarmItemView, AlarmMode,
};
use crate::commands::{one_more, silenced, test_status, with_mute};
use crate::poll::{base64_spec, poll_headers};
use crate::settings::{base_url_of, normalized, SettingsView};
use crate::status::{
    after_decision, audio_for, cleared, AudioAction, last_n, logged, suppresses, DataView, LogView, StatusView,
};
use crate::commands::{restart_reason, WorkerOutcome};
use crate::text::{
    drop_char_before, drop_white_before, has_prefix, is_white_space, lemma_drop_char_before,
    lemma_drop_white_before, lemma_skip_white_from, lemma_trim_end_char_fixed,
    lemma_trim_end_char_shape, lemma_trim_fixed, lemma_trim_shape, skip_white_from,
    trim_end_char_spec, trim_spec,
};
use crate::time::{mute_minutes, UtcInstant, NANOS_PER_SEC};

verus! {

/// The sound after a decision is the decision's own mode unless it is held
/// back; a held-back decision, or one without a mode, stops the sound.
pub proof fn law_sound_follows_the_decision(d: AlarmDecisionView, suppressed: bool)
    ensures
        d.mode == Some(AlarmMode::Alarm) && !suppressed ==> audio_for(d, suppressed)
            == AudioAction::Play(AlarmMode::Alarm),
        d.mode == Some(AlarmMode::Gentle) && !suppressed ==> audio_for(d, suppressed)
            == AudioAction::Play(AlarmMode::Gentle),
        d.mode is None || suppressed ==> audio_for(d, suppressed) == AudioAction::Stop,
{
}

proof fn lemma_first_with_severity_at(items: Seq<AlarmItemView>, word: Seq<char>, k: int)
    requires
        0 <= k < items.len(),
        has_severity(items[k], word),
        forall|j: int| 0 <= j < k ==> !has_severity(#[trigger] items[j], word),
    ensures
        first_with_severity(items, word) == Some(k),
    decreases items.len(),
{
    let prefix = items.drop_last();
    if k == items.len() - 1 {
        lemma_first_with_severity_absent(prefix, word);
    } else {
        assert forall|j: int| 0 <= j < k implies !has_severity(#[trigger] prefix[j], word) by {
            assert(prefix[j] == items[j]);
        }
        assert(prefix[k] == items[k]);
        lemma_first_with_severity_at(prefix, word, k);
    }
}

proof fn lemma_first_with_severity_absent(items: Seq<AlarmItemView>, word: Seq<char>)
    requires
        forall|j: int| 0 <= j < items.len() ==> !has_severity(#[trigger] items[j], word),
    ensures
        first_with_severity(items, word) is None,
    decreases items.len(),
{
    if items.len() > 0 {
        let prefix = items.drop_last();
        assert forall|j: int| 0 <= j < prefix.len() implies !has_severity(#[trigger] prefix[j], word) by {
            assert(prefix[j] == items[j]);
        }
        lemma_first_with_severity_absent(prefix, word);
        assert(!has_severity(items[items.len() - 1], word));
    }
}

/// The text shown for `item` of a response whose top-level reason is `reason`.
pub open spec fn entry_text(item: AlarmItemView, reason: Option<Seq<char>>) -> Seq<char> {
    match item.reason {
        Some(r) => r,
        None => match reason {
            Some(r) => r,
            None => "KDS"@,
        },
    }
}

/// A response with an entry of severity `alarm` is decided on its first such
/// entry: an active alarm with that entry's text (or the response's reason, or
/// `KDS`), that entry's link, and the number of entries.
pub proof fn law_first_alarm_entry_is_decided_on(feed: AlarmFeedView, items: Seq<AlarmItemView>, k: int)
    requires
        feed.alarms == Some(items),
        0 <= k < items.len(),
        has_severity(items[k], "alarm"@),
        forall|j: int| 0 <= j < k ==> !has_severity(#[trigger] items[j], "alarm"@),
    ensures
        decide(feed) == (AlarmDecisionView {
            active: true,
            mode: Some(AlarmMode::Alarm),
            text: Some(entry_text(items[k], feed.reason)),
            link: items[k].link,
            count: items.len(),
        }),
{
    lemma_first_with_severity_at(items, "alarm"@, k);
}

/// A response without an entry of severity `alarm` but with one of severity
/// `gentle` is decided on its first gentle entry: an active gentle alarm with
/// that entry's text (or the response's reason, or `KDS`), that entry's link,
/// and the number of entries.
pub proof fn law_first_gentle_entry_is_decided_on(feed: AlarmFeedView, items: Seq<AlarmItemView>, k: int)
    requires
        feed.alarms == Some(items),
        0 <= k < items.len(),
        has_severity(items[k], "gentle"@),
        forall|j: int| 0 <= j < k ==> !has_severity(#[trigger] items[j], "gentle"@),
        forall|j: int| 0 <= j < items.len() ==> !has_severity(#[trigger] items[j], "alarm"@),
    ensures
        decide(feed) == (AlarmDecisionView {
            active: true,
            mode: Some(AlarmMode::Gentle),
            text: Some(entry_text(items[k], feed.reason)),
            link: items[k].link,
            count: items.len(),
        }),
{
    lemma_first_with_severity_absent(items, "alarm"@);
    lemma_first_with_severity_at(items, "gentle"@, k);
}

/// A response whose entries are neither `alarm` nor `gentle`, or that lists no
/// entries at all, raises nothing: no mode, text or link, and its count is the
/// number of entries (zero without a list).
pub proof fn law_quiet_response_raises_nothing(feed: AlarmFeedView)
    requires
        feed.alarms matches Some(items) ==> forall|j: int|
            0 <= j < items.len() ==> !has_severity(#[trigger] items[j], "alarm"@) && !has_severity(
                items[j],
                "gentle"@,
            ),
    ensures
        decide(feed) == (AlarmDecisionView {
            active: false,
            mode: None,
            text: None,
            link: None,
            count: match feed.alarms {
                Some(items) => items.len(),
                None => 0,
            },
        }),
{
    match feed.alarms {
        Some(items) => {
            lemma_first_with_severity_absent(items, "alarm"@);
            lemma_first_with_severity_absent(items, "gentle"@);
        },
        None => {
            lemma_first_with_severity_absent(Seq::<AlarmItemView>::empty(), "alarm"@);
            lemma_first_with_severity_absent(Seq::<AlarmItemView>::empty(), "gentle"@);
        },
    }
}

/// The fingerprint that a decision with a mode carries.
pub open spec fn fingerprint_of(d: AlarmDecisionView) -> Option<AlarmFingerprintView> {
    match d.mode {
        Some(m) => Some(AlarmFingerprintView { mode: m, text: d.text, link: d.link }),
        None => None,
    }
}

/// After a decision, whatever the status showed before, the status shows that
/// decision (active flag, mode, text, link and count). An alarm stays silenced
/// only while the decision is active and names exactly the silenced alarm, and
/// only then is it shown as held back. A mute whose end is not later than the
/// decision's time is dropped; any other mute stays. The sound is held back
/// when the alarm is silenced or a mute stays. Everything else is kept.
pub proof fn law_status_shows_the_decision(data: DataView, d: AlarmDecisionView, now: UtcInstant)
    ensures
        ({
            let after = after_decision(data, d, now);
            let keeps_silence = d.active && d.mode is Some && data.dismissed == fingerprint_of(d);
            &&& after.status.alarm_active == d.active
            &&& after.status.alarm_mode == d.mode
            &&& after.status.alarm_text == d.text
            &&& after.status.alarm_link == d.link
            &&& after.status.alarm_count == d.count
            &&& after.dismissed == (if keeps_silence {
                data.dismissed
            } else {
                None
            })
            &&& after.status.sound_suppressed == keeps_silence
            &&& after.status.muted_until == match data.status.muted_until {
                Some(u) => if u.secs < now.secs || (u.secs == now.secs && u.nanos <= now.nanos) {
                    None
                } else {
                    Some(u)
                },
                None => None,
            }
            &&& suppresses(data, d, now) == (keeps_silence || after.status.muted_until is Some)
            &&& after.status.running == data.status.running
            &&& after.status.sleep_guard_active == data.status.sleep_guard_active
            &&& after.status.watchdog_restarts == data.status.watchdog_restarts
            &&& after.status.last_check == data.status.last_check
            &&& after.status.last_success == data.status.last_success
            &&& after.status.last_error == data.status.last_error
            &&& after.settings == data.settings
            &&& after.logs == data.logs
        }),
{
}

/// The headers of a poll, listed: `Accept: application/json` and
/// `User-Agent: KDS-Guard/0.1 Windows` always; then `Cookie` with the trimmed
/// cookie whenever it is not blank, whether or not credentials are set; then,
/// when a user name that is not blank or a password is set, `Authorization`
/// with `Basic` and the base64 of the UTF-8 of `user:password` (the user name
/// trimmed).
pub proof fn law_poll_headers_listed(s: SettingsView)
    ensures
        ({
            let cookie = trim_spec(s.cookie_header);
            let user = trim_spec(s.basic_auth_user);
            let fixed = seq![("Accept"@, "application/json"@), ("User-Agent"@, "KDS-Guard/0.1 Windows"@)];
            let cookies = if cookie.len() > 0 {
                seq![("Cookie"@, cookie)]
            } else {
                Seq::empty()
            };
            let auth = seq![
                ("Authorization"@, "Basic "@ + base64_spec(encode_utf8(user + ":"@ + s.basic_auth_password))),
            ];
            &&& !(user.len() > 0 || s.basic_auth_password.len() > 0) ==> poll_headers(s) == fixed
                + cookies
            &&& (user.len() > 0 || s.basic_auth_password.len() > 0) ==> poll_headers(s) == fixed
                + cookies + auth
            &&& cookie.len() > 0 ==> poll_headers(s).contains(("Cookie"@, cookie))
            &&& poll_headers(s).len() >= 2
            &&& poll_headers(s)[0] == ("Accept"@, "application/json"@)
            &&& poll_headers(s)[1] == ("User-Agent"@, "KDS-Guard/0.1 Windows"@)
        }),
{
    let cookie = trim_spec(s.cookie_header);
    let user = trim_spec(s.basic_auth_user);
    let fixed = seq![("Accept"@, "application/json"@), ("User-Agent"@, "KDS-Guard/0.1 Windows"@)];
    let cookies = if cookie.len() > 0 {
        seq![("Cookie"@, cookie)]
    } else {
        Seq::<(Seq<char>, Seq<char>)>::empty()
    };
    let auth = seq![
        ("Authorization"@, "Basic "@ + base64_spec(encode_utf8(user + ":"@ + s.basic_auth_password))),
    ];
    let with_cookie = if cookie.len() > 0 {
        fixed.push(("Cookie"@, cookie))
    } else {
        fixed
    };
    assert(with_cookie =~= fixed + cookies);
    assert(with_cookie.push(auth[0]) =~= fixed + cookies + auth);
    if cookie.len() > 0 {
        assert(poll_headers(s)[2] == ("Cookie"@, cookie));
    }
}

/// Normalization keeps the password and both switches as given, keeps a poll
/// interval of at least one second and raises zero to one, and trims the
/// address (then strips its trailing slashes), the cookie and the user name.
pub proof fn law_normalization_keeps_the_rest(s: SettingsView)
    ensures
        normalized(s).basic_auth_password == s.basic_auth_password,
        normalized(s).sleep_guard_enabled == s.sleep_guard_enabled,
        normalized(s).start_monitor_on_launch == s.start_monitor_on_launch,
        s.poll_interval_secs >= 1 ==> normalized(s).poll_interval_secs == s.poll_interval_secs,
        s.poll_interval_secs == 0 ==> normalized(s).poll_interval_secs == 1,
        normalized(s).server_url == trim_end_char_spec(trim_spec(s.server_url), '/'),
        normalized(s).cookie_header == trim_spec(s.cookie_header),
        normalized(s).basic_auth_user == trim_spec(s.basic_auth_user),
{
}

/// A base address is its own base address, unless it ends in whitespace.
pub proof fn law_base_url_is_stable(raw: Seq<char>)
    requires
        base_url_of(raw) is Some,
        !is_white_space(base_url_of(raw)->0.last()),
    ensures
        base_url_of(base_url_of(raw)->0) == base_url_of(raw),
{
    let b = base_url_of(raw)->0;
    crate::laws::law_base_url_shape(raw);
    reveal_strlit("http://");
    reveal_strlit("https://");
    assert(b[0] == 'h') by {
        if has_prefix(b, "http://"@) {
            assert(b.subrange(0, 7)[0] == b[0]);
        } else {
            assert(b.subrange(0, 8)[0] == b[0]);
        }
    }
    assert(!is_white_space('h'));
    lemma_trim_fixed(b);
    lemma_trim_end_char_fixed(b, '/');
}

/// The log after an entry is added: the previous entries followed by the new
/// one, of which only the newest `MAX_LOG_ENTRIES` are kept, in order.
pub proof fn law_log_keeps_the_newest(logs: Seq<LogView>, entry: LogView)
    ensures
        ({
            let all = logs.push(entry);
            let kept = logged(logs, entry);
            &&& kept.len() == (if all.len() <= 500 {
                all.len()
            } else {
                500
            })
            &&& forall|i: int| 0 <= i < kept.len() ==> #[trigger] kept[i] == all[all.len() - kept.len() + i]
        }),
{
}

/// The entries of a snapshot: the newest of the log, at most two hundred, in order.
pub proof fn law_snapshot_keeps_the_newest(logs: Seq<LogView>)
    ensures
        ({
            let kept = last_n(logs, 200);
            &&& kept.len() == (if logs.len() <= 200 {
                logs.len()
            } else {
                200
            })
            &&& forall|i: int| 0 <= i < kept.len() ==> #[trigger] kept[i] == logs[logs.len() - kept.len() + i]
        }),
{
}

/// Clearing the status removes every sign of an alarm and keeps the rest.
pub proof fn law_clearing_removes_the_alarm(s: StatusView)
    ensures
        !cleared(s).alarm_active,
        cleared(s).alarm_mode is None,
        cleared(s).alarm_text is None,
        cleared(s).alarm_link is None,
        cleared(s).alarm_count == 0,
        !cleared(s).sound_suppressed,
        cleared(s).running == s.running,
        cleared(s).sleep_guard_active == s.sleep_guard_active,
        cleared(s).watchdog_restarts == s.watchdog_restarts,
        cleared(s).muted_until == s.muted_until,
        cleared(s).last_check == s.last_check,
        cleared(s).last_success == s.last_success,
        cleared(s).last_error == s.last_error,
{
}

/// Stopping the alarm silences exactly the alarm that the status shows (none
/// when no alarm is active), says that its sound is held back exactly when
/// there was one, and changes nothing else.
pub proof fn law_stop_silences_the_shown_alarm(d: DataView)
    ensures
        ({
            let shown = if d.status.alarm_active && d.status.alarm_mode is Some {
                Some(
                    AlarmFingerprintView {
                        mode: d.status.alarm_mode->0,
                        text: d.status.alarm_text,
                        link: d.status.alarm_link,
                    },
                )
            } else {
                None
            };
            &&& silenced(d).dismissed == shown
            &&& silenced(d).status.sound_suppressed == shown is Some
            &&& silenced(d).status == (StatusView { sound_suppressed: shown is Some, ..d.status })
            &&& silenced(d).settings == d.settings
            &&& silenced(d).logs == d.logs
        }),
{
}

/// A test sound shows an active alarm of its mode with the text `Test alarm`,
/// no link, a count of one and its sound not held back; the rest is kept.
pub proof fn law_test_sound_shows_a_test_alarm(s: StatusView, mode: AlarmMode)
    ensures
        test_status(s, mode).alarm_active,
        test_status(s, mode).alarm_mode == Some(mode),
        test_status(s, mode).alarm_text == Some("Test alarm"@),
        (test_status(s, mode).alarm_link is None),
        test_status(s, mode).alarm_count == 1,
        !test_status(s, mode).sound_suppressed,
        test_status(s, mode).running == s.running,
        test_status(s, mode).muted_until == s.muted_until,
        test_status(s, mode).last_error == s.last_error,
        test_status(s, mode).watchdog_restarts == s.watchdog_restarts,
{
}

/// A mute sets its end and changes nothing else.
pub proof fn law_mute_sets_only_its_end(d: DataView, until: UtcInstant)
    ensures
        with_mute(d, until).status.muted_until == Some(until),
        with_mute(d, until).status == (StatusView { muted_until: Some(until), ..d.status }),
        with_mute(d, until).settings == d.settings,
        with_mute(d, until).logs == d.logs,
        with_mute(d, until).dismissed == d.dismissed,
{
}

/// The restart count grows by one with each restart and stops at its maximum.
pub proof fn law_restart_count_grows(n: u64)
    ensures
        n < u64::MAX ==> one_more(n) == n + 1,
        n == u64::MAX ==> one_more(n) == n,
{
}

/// Trimming removes exactly the whitespace at both ends: the result is a
/// stretch of the text outside of which every character is whitespace, and
/// that does not itself begin or end with whitespace.
pub proof fn law_trim_removes_the_outer_whitespace(s: Seq<char>)
    ensures
        exists|a: int, b: int|
            {
                &&& 0 <= a <= b <= s.len()
                &&& trim_spec(s) == s.subrange(a, b)
                &&& forall|i: int| 0 <= i < a ==> is_white_space(#[trigger] s[i])
                &&& forall|i: int| b <= i < s.len() ==> is_white_space(#[trigger] s[i])
            },
        trim_spec(s).len() > 0 ==> !is_white_space(trim_spec(s)[0]) && !is_white_space(
            trim_spec(s).last(),
        ),
{
    lemma_trim_shape(s);
    lemma_skip_white_from(s, 0);
    lemma_drop_white_before(s, s.len() as int);
    let a = skip_white_from(s, 0);
    let b = drop_white_before(s, s.len() as int);
    if a < b {
        assert(trim_spec(s) == s.subrange(a, b));
    } else {
        assert(trim_spec(s) =~= s.subrange(0, 0));
        assert forall|i: int| 0 <= i < s.len() implies is_white_space(#[trigger] s[i]) by {
            if i >= a {
                assert(b <= i);
            }
        }
    }
}

/// Stripping a trailing character keeps the text up to the last character that
/// is not that one: a prefix followed only by that character.
pub proof fn law_trim_end_removes_the_trailing_run(s: Seq<char>, c: char)
    ensures
        exists|k: int|
            {
                &&& 0 <= k <= s.len()
                &&& trim_end_char_spec(s, c) == s.subrange(0, k)
                &&& forall|i: int| k <= i < s.len() ==> #[trigger] s[i] == c
                &&& k > 0 ==> s[k - 1] != c
            },
{
    lemma_drop_char_before(s, c, s.len() as int);
    let k = drop_char_before(s, c, s.len() as int);
    assert(trim_end_char_spec(s, c) == s.subrange(0, k));
}

/// An address is made a base address by trimming it and stripping its trailing
/// slashes; `https://` is put in front unless it then begins with `http://` or
/// `https://`; nothing is left from a blank address.
pub proof fn law_base_url_of_an_address(raw: Seq<char>)
    ensures
        ({
            let t = trim_end_char_spec(trim_spec(raw), '/');
            &&& t.len() == 0 <==> base_url_of(raw) is None
            &&& t.len() > 0 && (has_prefix(t, "http://"@) || has_prefix(t, "https://"@)) ==> base_url_of(raw) == Some(t)
            &&& t.len() > 0 && !(has_prefix(t, "http://"@) || has_prefix(t, "https://"@)) ==> base_url_of(raw) == Some("https://"@ + t)
        }),
{
}

/// The end of a mute: whole minutes after its start, at the same fraction of a
/// second, outside a leap second; zero minutes count as one, and counts up to
/// `i64::MAX` are taken as they are.
pub proof fn law_mute_end_is_minutes_later(now: UtcInstant, minutes: u64)
    requires
        now.nanos < NANOS_PER_SEC,
        i64::MIN <= now.secs + 60 * mute_minutes(minutes) <= i64::MAX,
    ensures
        now.plus_minutes(mute_minutes(minutes)) == (UtcInstant {
            secs: (now.secs + 60 * mute_minutes(minutes)) as i64,
            nanos: now.nanos,
        }),
        minutes == 0 ==> mute_minutes(minutes) == 1,
        1 <= minutes <= i64::MAX ==> mute_minutes(minutes) == minutes,
{
}

/// The watchdog stops after a worker that returned, and after one that
/// panicked while a stop was asked for; it restarts after any other panic and
/// after a failed start, saying why.
pub proof fn law_watchdog_restarts_on_failure(e: String, stop_requested: bool)
    ensures
        restart_reason(WorkerOutcome::Finished, stop_requested) is None,
        stop_requested ==> restart_reason(WorkerOutcome::Panicked, stop_requested) is None,
        !stop_requested ==> restart_reason(WorkerOutcome::Panicked, stop_requested) == Some(
            "Monitor worker panicked"@,
        ),
        restart_reason(WorkerOutcome::SpawnFailed(e), stop_requested) == Some(
            "Monitor worker could not start: "@ + e@,
        ),
{
}

} // verus!
