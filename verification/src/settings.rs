//! The user's settings: their defaults, how they are normalized before use,
//! and how the server address becomes the base of every request.

use vstd::prelude::*;
use crate::text::{
    has_prefix, starts_with_text, trim_end_char, trim_end_char_spec, trim_spec, trim_text,
};

verus! {

/// What the user configures.
#[derive(Debug)]
pub struct Settings {
    pub server_url: String,
    pub poll_interval_secs: u64,
    pub cookie_header: String,
    pub basic_auth_user: String,
    pub basic_auth_password: String,
    pub sleep_guard_enabled: bool,
    pub start_monitor_on_launch: bool,
}

/// The settings as plain values.
pub struct SettingsView {
    pub server_url: Seq<char>,
    pub poll_interval_secs: u64,
    pub cookie_header: Seq<char>,
    pub basic_auth_user: Seq<char>,
    pub basic_auth_password: Seq<char>,
    pub sleep_guard_enabled: bool,
    pub start_monitor_on_launch: bool,
}

impl View for Settings {
    type V = SettingsView;

    open spec fn view(&self) -> SettingsView {
        SettingsView {
            server_url: self.server_url@,
            poll_interval_secs: self.poll_interval_secs,
            cookie_header: self.cookie_header@,
            basic_auth_user: self.basic_auth_user@,
            basic_auth_password: self.basic_auth_password@,
            sleep_guard_enabled: self.sleep_guard_enabled,
            start_monitor_on_launch: self.start_monitor_on_launch,
        }
    }
}

/// The server that a fresh installation polls.
pub open spec fn default_server_url() -> Seq<char> {
    "https://staff.tkgse.ru"@
}

/// The settings of a fresh installation: the staff server, a poll every two
/// seconds, no credentials, the sleep guard on and no monitoring at launch.
pub open spec fn default_settings() -> SettingsView {
    SettingsView {
        server_url: default_server_url(),
        poll_interval_secs: 2,
        cookie_header: Seq::empty(),
        basic_auth_user: Seq::empty(),
        basic_auth_password: Seq::empty(),
        sleep_guard_enabled: true,
        start_monitor_on_launch: false,
    }
}

impl Default for Settings {
    fn default() -> (r: Settings)
        ensures
            r@ == default_settings(),
    {
        Settings {
            server_url: String::from_str("https://staff.tkgse.ru"),
            poll_interval_secs: 2,
            cookie_header: String::new(),
            basic_auth_user: String::new(),
            basic_auth_password: String::new(),
            sleep_guard_enabled: true,
            start_monitor_on_launch: false,
        }
    }
}

impl Settings {
    /// A copy of these settings.
    pub fn duplicate(&self) -> (r: Settings)
        ensures
            r@ == self@,
    {
        Settings {
            server_url: self.server_url.clone(),
            poll_interval_secs: self.poll_interval_secs,
            cookie_header: self.cookie_header.clone(),
            basic_auth_user: self.basic_auth_user.clone(),
            basic_auth_password: self.basic_auth_password.clone(),
            sleep_guard_enabled: self.sleep_guard_enabled,
            start_monitor_on_launch: self.start_monitor_on_launch,
        }
    }
}

/// The poll interval that normalized settings carry: zero becomes one second.
pub open spec fn normalized_interval(secs: u64) -> u64 {
    if secs == 0 {
        1
    } else {
        secs
    }
}

/// The settings after normalization: the server address without surrounding
/// whitespace and trailing slashes, a poll interval of at least one second, and
/// the user name and cookie header without surrounding whitespace. The password
/// and the two switches are kept as given.
pub open spec fn normalized(s: SettingsView) -> SettingsView {
    SettingsView {
        server_url: trim_end_char_spec(trim_spec(s.server_url), '/'),
        poll_interval_secs: normalized_interval(s.poll_interval_secs),
        cookie_header: trim_spec(s.cookie_header),
        basic_auth_user: trim_spec(s.basic_auth_user),
        ..s
    }
}

/// Normalizes settings as given by the user before they are stored or used.
pub fn normalize_settings(settings: Settings) -> (r: Settings)
    ensures
        r@ == normalized(settings@),
        r.server_url@ == trim_end_char_spec(trim_spec(settings.server_url@), '/'),
        r.cookie_header@ == trim_spec(settings.cookie_header@),
        r.basic_auth_user@ == trim_spec(settings.basic_auth_user@),
        r.basic_auth_password@ == settings.basic_auth_password@,
        r.poll_interval_secs >= 1,
        settings.poll_interval_secs >= 1 ==> r.poll_interval_secs == settings.poll_interval_secs,
        r.sleep_guard_enabled == settings.sleep_guard_enabled,
        r.start_monitor_on_launch == settings.start_monitor_on_launch,
{
    let trimmed_url = trim_text(settings.server_url.as_str());
    let server_url = trim_end_char(trimmed_url.as_str(), '/');
    let poll_interval_secs = if settings.poll_interval_secs == 0 {
        1
    } else {
        settings.poll_interval_secs
    };
    let basic_auth_user = trim_text(settings.basic_auth_user.as_str());
    let cookie_header = trim_text(settings.cookie_header.as_str());
    Settings {
        server_url,
        poll_interval_secs,
        cookie_header,
        basic_auth_user,
        basic_auth_password: settings.basic_auth_password,
        sleep_guard_enabled: settings.sleep_guard_enabled,
        start_monitor_on_launch: settings.start_monitor_on_launch,
    }
}

/// How long the monitor waits between two polls, in seconds: at least one.
pub fn poll_wait_secs(settings: &Settings) -> (r: u64)
    ensures
        r == normalized_interval(settings.poll_interval_secs),
{
    if settings.poll_interval_secs == 0 {
        1
    } else {
        settings.poll_interval_secs
    }
}

/// The message for an empty server address.
pub open spec fn empty_url_message() -> Seq<char> {
    "Server URL is empty"@
}

/// The base address that `raw` names: without surrounding whitespace and
/// trailing slashes, with `https://` put in front unless it already begins with
/// `http://` or `https://`. `None` when nothing is left.
pub open spec fn base_url_of(raw: Seq<char>) -> Option<Seq<char>> {
    let t = trim_end_char_spec(trim_spec(raw), '/');
    if t.len() == 0 {
        None
    } else if has_prefix(t, "http://"@) || has_prefix(t, "https://"@) {
        Some(t)
    } else {
        Some("https://"@ + t)
    }
}

/// The base address of the server, or an error when the address is empty.
pub fn normalize_base_url(raw: &str) -> (r: Result<String, String>)
    ensures
        base_url_of(raw@) is Some ==> (r is Ok && r->Ok_0@ == base_url_of(raw@)->0),
        base_url_of(raw@) is None ==> (r is Err && r->Err_0@ == empty_url_message()),
{
    let trimmed = trim_text(raw);
    let base = trim_end_char(trimmed.as_str(), '/');
    if base.as_str().unicode_len() == 0 {
        return Err(String::from_str("Server URL is empty"));
    }
    if starts_with_text(base.as_str(), "http://") || starts_with_text(base.as_str(), "https://") {
        Ok(base)
    } else {
        Ok(String::from_str("https://").concat(base.as_str()))
    }
}

} // verus!
