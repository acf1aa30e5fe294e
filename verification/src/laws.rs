//! Properties that hold across the operations of the library: how a silenced
//! alarm and a mute hold the sound back and when they stop doing so, which
//! entry of a response is decided on, the bound of the log, and what
//! normalization does to settings and addresses.

use vstd::prelude::*;
use crate::alarm::{
    decide, decision_fingerprint, feed_items, first_with_severity, has_severity, AlarmDecisionView,
    AlarmFeedView, AlarmItemView, AlarmMode,
};
use crate::commands::{alarm_stopped_text, silenced, with_mute};
use crate::settings::{base_url_of, normalized, SettingsView};
use crate::status::{
    after_decision, logged, manually_suppressed, muted_at, suppresses, with_log, DataView, LogLevel,
    last_n, LogView, MAX_LOG_ENTRIES, SNAPSHOT_LOG_ENTRIES,
};
use crate::text::{
    has_prefix, is_white_space, lemma_trim_end_char_fixed, lemma_trim_end_char_shape,
    lemma_trim_fixed, lemma_trim_shape, trim_end_char_spec, trim_spec,
};
use crate::time::{mute_minutes, UtcInstant};

verus! {

/// An alarm that the user silenced stays silent while polls keep deciding on
/// the same alarm: after a decision for an active alarm and the user's stop,
/// the next decision for that same alarm holds its sound back, shows it as held
/// back, and keeps it silenced.
pub proof fn law_silenced_alarm_stays_silent(
    data: DataView,
    d: AlarmDecisionView,
    decided_at: UtcInstant,
    stopped_at: UtcInstant,
    next_at: UtcInstant,
)
    requires
        d.active,
        d.mode is Some,
    ensures
        ({
            let stopped = with_log(
                silenced(after_decision(data, d, decided_at)),
                LogLevel::Info,
                alarm_stopped_text(),
                stopped_at,
            );
            &&& suppresses(stopped, d, next_at)
            &&& after_decision(stopped, d, next_at).status.sound_suppressed
            &&& after_decision(stopped, d, next_at).dismissed == decision_fingerprint(d)
        }),
{
}

/// Only the silenced alarm itself is held back: a decision for any other alarm
/// (another mode, text or link, or none) forgets the silenced alarm, and its
/// sound is held back only by a running mute.
pub proof fn law_changed_alarm_sounds_again(data: DataView, d: AlarmDecisionView, now: UtcInstant)
    requires
        data.dismissed != decision_fingerprint(d),
    ensures
        !manually_suppressed(data, d),
        after_decision(data, d, now).dismissed is None,
        !after_decision(data, d, now).status.sound_suppressed,
        suppresses(data, d, now) == muted_at(data, now),
{
}

/// An alarm that clears ends its silence: after a decision with no active
/// alarm, no later decision is held back by the earlier stop.
pub proof fn law_cleared_alarm_ends_silence(
    data: DataView,
    d: AlarmDecisionView,
    now: UtcInstant,
    later: AlarmDecisionView,
)
    requires
        !d.active,
    ensures
        after_decision(data, d, now).dismissed is None,
        !manually_suppressed(after_decision(data, d, now), later),
{
}

/// A mute holds every sound back until it ends: a decision at any instant
/// before the end of the mute is held back, and the mute stays in place.
pub proof fn law_mute_holds_until_its_end(
    data: DataView,
    until: UtcInstant,
    d: AlarmDecisionView,
    now: UtcInstant,
)
    requires
        !until.not_after(now),
    ensures
        suppresses(with_mute(data, until), d, now),
        after_decision(with_mute(data, until), d, now).status.muted_until == Some(until),
{
}

/// A mute ends at its end: a decision at or after that instant drops the mute,
/// is held back only if the user silenced that very alarm, and no later
/// decision is held back by the mute.
pub proof fn law_expired_mute_ends(
    data: DataView,
    until: UtcInstant,
    d: AlarmDecisionView,
    now: UtcInstant,
    later: UtcInstant,
)
    requires
        until.not_after(now),
    ensures
        after_decision(with_mute(data, until), d, now).status.muted_until is None,
        suppresses(with_mute(data, until), d, now) == manually_suppressed(with_mute(data, until), d),
        !muted_at(after_decision(with_mute(data, until), d, now), later),
{
}

/// A mute set at `now` for `minutes` minutes holds back every decision taken
/// at `now`, provided `minutes` is a positive signed 64-bit number (a larger
/// count wraps around to a negative span, which ends the mute in the past).
pub proof fn law_new_mute_holds_at_once(
    data: DataView,
    minutes: u64,
    now: UtcInstant,
    d: AlarmDecisionView,
)
    requires
        minutes <= i64::MAX,
        i64::MIN <= now.shifted_secs(mute_minutes(minutes)) <= i64::MAX,
    ensures
        suppresses(with_mute(data, now.plus_minutes(mute_minutes(minutes))), d, now),
{
}

/// The first entry of severity `word` is absent exactly when no entry has that severity.
proof fn lemma_first_with_severity_none(items: Seq<AlarmItemView>, word: Seq<char>)
    ensures
        first_with_severity(items, word) is None <==> forall|i: int|
            0 <= i < items.len() ==> !has_severity(#[trigger] items[i], word),
    decreases items.len(),
{
    if items.len() > 0 {
        lemma_first_with_severity_none(items.drop_last(), word);
        assert forall|i: int| 0 <= i < items.len() - 1 implies #[trigger] items.drop_last()[i]
            == items[i] by {}
        if first_with_severity(items, word) is None {
            assert forall|i: int| 0 <= i < items.len() implies !has_severity(
                #[trigger] items[i],
                word,
            ) by {
                if i < items.len() - 1 {
                    assert(items.drop_last()[i] == items[i]);
                }
            }
        }
        if forall|i: int| 0 <= i < items.len() ==> !has_severity(#[trigger] items[i], word) {
            assert(!has_severity(items[items.len() - 1], word));
            assert forall|i: int| 0 <= i < items.drop_last().len() implies !has_severity(
                #[trigger] items.drop_last()[i],
                word,
            ) by {
                assert(items.drop_last()[i] == items[i]);
            }
        }
    }
}

/// An entry of severity `alarm` outranks every entry of severity `gentle`:
/// whenever one is listed, the decision is an active alarm in alarm mode.
pub proof fn law_alarm_entries_outrank_gentle(feed: AlarmFeedView, k: int)
    requires
        0 <= k < feed_items(feed).len(),
        has_severity(feed_items(feed)[k], "alarm"@),
    ensures
        decide(feed).active,
        decide(feed).mode == Some(AlarmMode::Alarm),
{
    lemma_first_with_severity_none(feed_items(feed), "alarm"@);
}

/// Without an entry of severity `alarm`, an entry of severity `gentle` makes
/// the decision an active gentle alarm.
pub proof fn law_gentle_entries_sound_gently(feed: AlarmFeedView, k: int)
    requires
        0 <= k < feed_items(feed).len(),
        has_severity(feed_items(feed)[k], "gentle"@),
        forall|i: int|
            0 <= i < feed_items(feed).len() ==> !has_severity(#[trigger] feed_items(feed)[i], "alarm"@),
    ensures
        decide(feed).active,
        decide(feed).mode == Some(AlarmMode::Gentle),
{
    lemma_first_with_severity_none(feed_items(feed), "alarm"@);
    lemma_first_with_severity_none(feed_items(feed), "gentle"@);
}

/// Without an entry of severity `alarm` or `gentle` nothing is active.
pub proof fn law_other_entries_raise_no_alarm(feed: AlarmFeedView)
    requires
        forall|i: int|
            0 <= i < feed_items(feed).len() ==> !has_severity(#[trigger] feed_items(feed)[i], "alarm"@)
                && !has_severity(feed_items(feed)[i], "gentle"@),
    ensures
        !decide(feed).active,
        decide(feed).mode is None,
        decide(feed).text is None,
        decide(feed).link is None,
{
    lemma_first_with_severity_none(feed_items(feed), "alarm"@);
    lemma_first_with_severity_none(feed_items(feed), "gentle"@);
}

/// A decision is active exactly when it has a mode, and so a fingerprint; its
/// count is always the number of listed entries.
pub proof fn law_decision_is_consistent(feed: AlarmFeedView)
    ensures
        decide(feed).active == decide(feed).mode is Some,
        decide(feed).active == decision_fingerprint(decide(feed)) is Some,
        decide(feed).count == feed_items(feed).len(),
{
}

/// The log never holds more than `MAX_LOG_ENTRIES` entries, the newest entry
/// is always the last, and nothing is dropped while there is room.
pub proof fn law_log_is_bounded(logs: Seq<LogView>, entry: LogView)
    ensures
        logged(logs, entry).len() <= MAX_LOG_ENTRIES,
        logged(logs, entry).last() == entry,
        logs.len() < MAX_LOG_ENTRIES ==> logged(logs, entry) == logs.push(entry),
{
}

/// A snapshot carries at most `SNAPSHOT_LOG_ENTRIES` log entries, the newest
/// ones, in their order.
pub proof fn law_snapshot_is_bounded(logs: Seq<LogView>)
    ensures
        last_n(logs, SNAPSHOT_LOG_ENTRIES as nat).len() <= SNAPSHOT_LOG_ENTRIES,
        logs.len() > 0 ==> last_n(logs, SNAPSHOT_LOG_ENTRIES as nat).last() == logs.last(),
{
}

/// Trimming twice is trimming once.
pub proof fn law_trim_is_idempotent(s: Seq<char>)
    ensures
        trim_spec(trim_spec(s)) == trim_spec(s),
{
    lemma_trim_shape(s);
    lemma_trim_fixed(trim_spec(s));
}

/// Normalizing normalized settings changes nothing, provided the normalized
/// server address does not end in whitespace (stripping its trailing slashes
/// can leave whitespace at its end, which a second pass would trim).
pub proof fn law_normalize_is_idempotent(s: SettingsView)
    requires
        normalized(s).server_url.len() == 0 || !is_white_space(normalized(s).server_url.last()),
    ensures
        normalized(normalized(s)) == normalized(s),
{
    let t = trim_spec(s.server_url);
    let u = trim_end_char_spec(t, '/');
    lemma_trim_shape(s.server_url);
    lemma_trim_end_char_shape(t, '/');
    if u.len() > 0 {
        assert(u[0] == t[0]);
    }
    lemma_trim_fixed(u);
    lemma_trim_end_char_fixed(u, '/');
    law_trim_is_idempotent(s.cookie_header);
    law_trim_is_idempotent(s.basic_auth_user);
}

/// Every base address begins with `http://` or `https://` and does not end in a slash.
pub proof fn law_base_url_shape(raw: Seq<char>)
    ensures
        base_url_of(raw) matches Some(b) ==> {
            &&& has_prefix(b, "http://"@) || has_prefix(b, "https://"@)
            &&& b.last() != '/'
        },
{
    let t = trim_end_char_spec(trim_spec(raw), '/');
    lemma_trim_end_char_shape(trim_spec(raw), '/');
    if t.len() > 0 && !(has_prefix(t, "http://"@) || has_prefix(t, "https://"@)) {
        let b = "https://"@ + t;
        assert(b.subrange(0, "https://"@.len() as int) =~= "https://"@);
        assert(b.last() == t.last());
    }
}

} // verus!
