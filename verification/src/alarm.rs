//! Alarm responses and the decision that is taken on them: which alarm, if
//! any, is shown and sounded, and how an alarm is recognised again later.

use vstd::prelude::*;
use crate::text::{ascii_ci_eq, eq_ignore_ascii_case_text};

verus! {

/// How an alarm sounds.
#[derive(Clone, Copy, Debug, PartialEq, Eq, Structural)]
pub enum AlarmMode {
    /// The looping alarm sound.
    Alarm,
    /// The gentle sound.
    Gentle,
}

/// The name of a mode as the user interface and the log show it.
pub open spec fn mode_name_spec(mode: AlarmMode) -> Seq<char> {
    match mode {
        AlarmMode::Alarm => "alarm"@,
        AlarmMode::Gentle => "gentle"@,
    }
}

/// The name of a mode as the user interface and the log show it.
pub fn mode_name(mode: AlarmMode) -> (r: String)
    ensures
        r@ == mode_name_spec(mode),
{
    match mode {
        AlarmMode::Alarm => String::from_str("alarm"),
        AlarmMode::Gentle => String::from_str("gentle"),
    }
}

/// An optional text as a plain value.
pub open spec fn opt_text(o: Option<String>) -> Option<Seq<char>> {
    match o {
        Some(s) => Some(s@),
        None => None,
    }
}

/// A copy of an optional text.
pub fn copy_opt_text(o: &Option<String>) -> (r: Option<String>)
    ensures
        opt_text(r) == opt_text(*o),
{
    match o {
        Some(s) => Some(s.clone()),
        None => None,
    }
}

/// Whether two optional texts are equal.
pub fn same_opt_text(a: &Option<String>, b: &Option<String>) -> (r: bool)
    ensures
        r == (opt_text(*a) == opt_text(*b)),
{
    match (a, b) {
        (Some(x), Some(y)) => *x == *y,
        (None, None) => true,
        _ => false,
    }
}

/// One entry of the `alarms` list of an alarm response: its `severity` and
/// `reason` where they are strings, and the string `link` of its `meta` object.
#[derive(Debug)]
pub struct AlarmItem {
    pub severity: Option<String>,
    pub reason: Option<String>,
    pub link: Option<String>,
}

/// An alarm response: its `alarms` list where it is a list, and its top-level
/// `reason` where it is a string.
#[derive(Debug)]
pub struct AlarmFeed {
    pub alarms: Option<Vec<AlarmItem>>,
    pub reason: Option<String>,
}

/// An alarm entry as plain values.
pub struct AlarmItemView {
    pub severity: Option<Seq<char>>,
    pub reason: Option<Seq<char>>,
    pub link: Option<Seq<char>>,
}

/// An alarm response as plain values.
pub struct AlarmFeedView {
    pub alarms: Option<Seq<AlarmItemView>>,
    pub reason: Option<Seq<char>>,
}

impl View for AlarmItem {
    type V = AlarmItemView;

    open spec fn view(&self) -> AlarmItemView {
        AlarmItemView {
            severity: opt_text(self.severity),
            reason: opt_text(self.reason),
            link: opt_text(self.link),
        }
    }
}

/// A list of alarm entries as plain values.
pub open spec fn items_view(v: Vec<AlarmItem>) -> Seq<AlarmItemView> {
    v@.map_values(|it: AlarmItem| it@)
}

impl View for AlarmFeed {
    type V = AlarmFeedView;

    open spec fn view(&self) -> AlarmFeedView {
        AlarmFeedView {
            alarms: match self.alarms {
                Some(v) => Some(items_view(v)),
                None => None,
            },
            reason: opt_text(self.reason),
        }
    }
}

/// What a poll decided: whether an alarm is active, how it sounds, what it
/// says, where it links to, and how many entries the response listed.
#[derive(Debug)]
pub struct AlarmDecision {
    pub active: bool,
    pub mode: Option<AlarmMode>,
    pub text: Option<String>,
    pub link: Option<String>,
    pub count: usize,
}

/// A decision as plain values.
pub struct AlarmDecisionView {
    pub active: bool,
    pub mode: Option<AlarmMode>,
    pub text: Option<Seq<char>>,
    pub link: Option<Seq<char>>,
    pub count: nat,
}

impl View for AlarmDecision {
    type V = AlarmDecisionView;

    open spec fn view(&self) -> AlarmDecisionView {
        AlarmDecisionView {
            active: self.active,
            mode: self.mode,
            text: opt_text(self.text),
            link: opt_text(self.link),
            count: self.count as nat,
        }
    }
}

/// What identifies an alarm: its mode, text and link.
#[derive(Debug)]
pub struct AlarmFingerprint {
    pub mode: AlarmMode,
    pub text: Option<String>,
    pub link: Option<String>,
}

/// A fingerprint as plain values.
pub struct AlarmFingerprintView {
    pub mode: AlarmMode,
    pub text: Option<Seq<char>>,
    pub link: Option<Seq<char>>,
}

impl View for AlarmFingerprint {
    type V = AlarmFingerprintView;

    open spec fn view(&self) -> AlarmFingerprintView {
        AlarmFingerprintView { mode: self.mode, text: opt_text(self.text), link: opt_text(self.link) }
    }
}

/// An optional fingerprint as plain values.
pub open spec fn opt_fingerprint(o: Option<AlarmFingerprint>) -> Option<AlarmFingerprintView> {
    match o {
        Some(f) => Some(f@),
        None => None,
    }
}

/// The fingerprint of a decision: present exactly when the decision has a mode.
pub open spec fn decision_fingerprint(d: AlarmDecisionView) -> Option<AlarmFingerprintView> {
    match d.mode {
        Some(mode) => Some(AlarmFingerprintView { mode, text: d.text, link: d.link }),
        None => None,
    }
}

impl AlarmDecision {
    /// The fingerprint of this decision, if it has a mode.
    pub fn fingerprint(&self) -> (r: Option<AlarmFingerprint>)
        ensures
            opt_fingerprint(r) == decision_fingerprint(self@),
    {
        match self.mode {
            Some(mode) => Some(
                AlarmFingerprint {
                    mode,
                    text: copy_opt_text(&self.text),
                    link: copy_opt_text(&self.link),
                },
            ),
            None => None,
        }
    }
}

/// Whether two optional fingerprints name the same alarm (or are both absent).
pub fn same_fingerprint(a: &Option<AlarmFingerprint>, b: &Option<AlarmFingerprint>) -> (r: bool)
    ensures
        r == (opt_fingerprint(*a) == opt_fingerprint(*b)),
{
    match (a, b) {
        (Some(x), Some(y)) => x.mode == y.mode && same_opt_text(&x.text, &y.text)
            && same_opt_text(&x.link, &y.link),
        (None, None) => true,
        _ => false,
    }
}

/// The entry's severity is `word`, ignoring the case of ASCII letters. An entry
/// without a string severity has none.
pub open spec fn has_severity(item: AlarmItemView, word: Seq<char>) -> bool {
    item.severity is Some && ascii_ci_eq(item.severity->0, word)
}

/// The position of the first entry of severity `word`, if there is one.
pub open spec fn first_with_severity(items: Seq<AlarmItemView>, word: Seq<char>) -> Option<int>
    decreases items.len(),
{
    if items.len() == 0 {
        None
    } else {
        match first_with_severity(items.drop_last(), word) {
            Some(i) => Some(i),
            None => if has_severity(items.last(), word) {
                Some(items.len() - 1)
            } else {
                None
            },
        }
    }
}

/// The entries of a response: none when it has no list.
pub open spec fn feed_items(feed: AlarmFeedView) -> Seq<AlarmItemView> {
    match feed.alarms {
        Some(items) => items,
        None => Seq::empty(),
    }
}

/// The text that stands for an entry without a reason of its own: the
/// response's reason, else `KDS`.
pub open spec fn fallback_text(feed: AlarmFeedView) -> Seq<char> {
    match feed.reason {
        Some(r) => r,
        None => "KDS"@,
    }
}

/// The decision for an entry that sounds in `mode`.
pub open spec fn decision_for(feed: AlarmFeedView, item: AlarmItemView, mode: AlarmMode) -> AlarmDecisionView {
    AlarmDecisionView {
        active: true,
        mode: Some(mode),
        text: Some(
            match item.reason {
                Some(r) => r,
                None => fallback_text(feed),
            },
        ),
        link: item.link,
        count: feed_items(feed).len(),
    }
}

/// The decision for a response: the first entry of severity `alarm` wins; else
/// the first entry of severity `gentle`; else no alarm is active. The count is
/// the number of listed entries.
pub open spec fn decide(feed: AlarmFeedView) -> AlarmDecisionView {
    let items = feed_items(feed);
    match first_with_severity(items, "alarm"@) {
        Some(i) => decision_for(feed, items[i], AlarmMode::Alarm),
        None => match first_with_severity(items, "gentle"@) {
            Some(i) => decision_for(feed, items[i], AlarmMode::Gentle),
            None => AlarmDecisionView {
                active: false,
                mode: None,
                text: None,
                link: None,
                count: items.len(),
            },
        },
    }
}

/// Whether the entry's severity is `word`, ignoring ASCII case.
fn item_has_severity(item: &AlarmItem, word: &str) -> (r: bool)
    ensures
        r == has_severity(item@, word@),
{
    match &item.severity {
        Some(s) => eq_ignore_ascii_case_text(s.as_str(), word),
        None => false,
    }
}

proof fn lemma_first_with_severity_step(items: Seq<AlarmItemView>, word: Seq<char>, i: int)
    requires
        0 <= i < items.len(),
    ensures
        first_with_severity(items.take(i + 1), word) == match first_with_severity(items.take(i), word) {
            Some(k) => Some(k),
            None => if has_severity(items[i], word) {
                Some(i)
            } else {
                None
            },
        },
{
    assert(items.take(i + 1).drop_last() =~= items.take(i));
}

proof fn lemma_first_with_severity_bound(items: Seq<AlarmItemView>, word: Seq<char>)
    ensures
        first_with_severity(items, word) matches Some(k) ==> 0 <= k < items.len() && has_severity(
            items[k],
            word,
        ),
    decreases items.len(),
{
    if items.len() > 0 {
        lemma_first_with_severity_bound(items.drop_last(), word);
    }
}

/// The decision for an entry that sounds in `mode`.
fn decision_from_item(feed: &AlarmFeed, fallback: String, item: &AlarmItem, mode: AlarmMode, count: usize) -> (r: AlarmDecision)
    requires
        fallback@ == fallback_text(feed@),
        count == feed_items(feed@).len(),
    ensures
        r@ == decision_for(feed@, item@, mode),
{
    let text = match &item.reason {
        Some(t) => t.clone(),
        None => fallback,
    };
    AlarmDecision {
        active: true,
        mode: Some(mode),
        text: Some(text),
        link: copy_opt_text(&item.link),
        count,
    }
}

/// Decides on an alarm response: the first entry of severity `alarm` (any ASCII
/// case) is sounded as an alarm; failing that, the first entry of severity
/// `gentle` is sounded gently; otherwise nothing is active.
pub fn parse_alarm_decision(feed: &AlarmFeed) -> (r: AlarmDecision)
    ensures
        r@ == decide(feed@),
        r.active == r.mode is Some,
        r.count == match feed.alarms {
            Some(v) => v.len(),
            None => 0,
        },
{
    let fallback = match &feed.reason {
        Some(r) => r.clone(),
        None => String::from_str("KDS"),
    };
    match &feed.alarms {
        None => {
            assert(feed_items(feed@) =~= Seq::<AlarmItemView>::empty());
            AlarmDecision { active: false, mode: None, text: None, link: None, count: 0 }
        },
        Some(items) => {
            let ghost view = items_view(*items);
            assert(feed_items(feed@) == view);
            let n = items.len();
            let mut gentle: Option<usize> = None;
            let mut i: usize = 0;
            while i < n
                invariant
                    n == items.len(),
                    view == items_view(*items),
                    view.len() == n,
                    feed_items(feed@) == view,
                    fallback@ == fallback_text(feed@),
                    i <= n,
                    first_with_severity(view.take(i as int), "alarm"@) is None,
                    match gentle {
                        Some(g) => first_with_severity(view.take(i as int), "gentle"@) == Some(g as int),
                        None => first_with_severity(view.take(i as int), "gentle"@) is None,
                    },
                decreases n - i,
            {
                let item = &items[i];
                proof {
                    lemma_first_with_severity_step(view, "alarm"@, i as int);
                    lemma_first_with_severity_step(view, "gentle"@, i as int);
                    assert(view[i as int] == item@);
                }
                if item_has_severity(item, "alarm") {
                    proof {
                        assert(view.take(n as int) =~= view);
                        let k = i as int;
                        assert(first_with_severity(view.take(k + 1), "alarm"@) == Some(k));
                        lemma_prefix_first(view, "alarm"@, k + 1);
                    }
                    return decision_from_item(feed, fallback, item, AlarmMode::Alarm, n);
                }
                if gentle.is_none() && item_has_severity(item, "gentle") {
                    gentle = Some(i);
                }
                i = i + 1;
            }
            assert(view.take(n as int) =~= view);
            match gentle {
                Some(g) => {
                    proof {
                        lemma_first_with_severity_bound(view, "gentle"@);
                    }
                    decision_from_item(feed, fallback, &items[g], AlarmMode::Gentle, n)
                },
                None => AlarmDecision { active: false, mode: None, text: None, link: None, count: n },
            }
        },
    }
}

/// Once a prefix has a first entry of severity `word`, every longer prefix has the same one.
proof fn lemma_prefix_first(items: Seq<AlarmItemView>, word: Seq<char>, j: int)
    requires
        0 <= j <= items.len(),
        first_with_severity(items.take(j), word) is Some,
    ensures
        first_with_severity(items, word) == first_with_severity(items.take(j), word),
    decreases items.len() - j,
{
    if j < items.len() {
        lemma_first_with_severity_step(items, word, j);
        lemma_prefix_first(items, word, j + 1);
    } else {
        assert(items.take(j) =~= items);
    }
}

} // verus!
