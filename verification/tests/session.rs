use linkrusk::client::{probe_outcome, probe_request, Method};
use linkrusk::host::{Effects, Navigation, Session, StorageChange};
use linkrusk::session::{
    check_login_form, finish_login, logout, begin_check, require_session, Guard, GuardEvent, Missing,
    SessionStore,
};

fn session(url: &str, token: &str) -> Session {
    Session { url: url.to_string(), token: token.to_string() }
}

fn store(url: Option<&str>, token: Option<&str>) -> SessionStore {
    SessionStore::load(url.map(|s| s.to_string()), token.map(|s| s.to_string()))
}

fn notice(message: &str) -> Effects {
    Effects {
        storage: StorageChange::Keep,
        alert: Some(message.to_string()),
        navigation: Navigation::Stay,
    }
}

#[test]
fn login_happy_path() {
    let mut stored = store(None, None);
    let checked = check_login_form("https://l.example.com/", "abc");
    assert_eq!(checked, Ok(session("https://l.example.com", "abc")));
    let candidate = checked.unwrap();

    let probe = probe_request(&candidate);
    assert_eq!(probe.method, Method::Get);
    assert_eq!(probe.url, "https://l.example.com/api/v1/list");
    assert_eq!(probe.bearer, "abc");
    assert_eq!(probe.cursor, None);
    assert_eq!(probe.json, None);

    let effects = finish_login(candidate, probe_outcome(Some(200)));
    assert_eq!(effects.alert, Some("Login successful!".to_string()));
    assert_eq!(effects.navigation, Navigation::Reload);
    stored.apply(effects.storage);
    assert_eq!(stored.backend_url, Some("https://l.example.com".to_string()));
    assert_eq!(stored.token, Some("abc".to_string()));

    let guard = Guard::start();
    assert_eq!(guard, Guard::Checking);
    let found = begin_check(&stored).unwrap();
    assert_eq!(probe_request(&found).url, "https://l.example.com/api/v1/list");
    let guard = guard.on(GuardEvent::Probed(probe_outcome(Some(200))));
    assert_eq!(guard, Guard::Authenticated);
    assert!(guard.is_open());
}

#[test]
fn login_bad_scheme() {
    let before = store(Some("https://old.example.com"), Some("old"));
    let mut stored = before.clone();
    let effects = check_login_form("l.example.com", "abc").unwrap_err();
    assert_eq!(
        effects,
        notice("Please enter a valid URL starting with http:// or https://")
    );
    stored.apply(effects.storage);
    assert_eq!(stored, before);
}

#[test]
fn login_needs_both_fields() {
    assert_eq!(check_login_form("", "abc"), Err(notice("Please fill in both fields.")));
    assert_eq!(
        check_login_form("https://l.example.com", ""),
        Err(notice("Please fill in both fields."))
    );
    assert_eq!(check_login_form("", ""), Err(notice("Please fill in both fields.")));
}

#[test]
fn login_accepts_both_schemes() {
    assert_eq!(check_login_form("http://a", "t"), Ok(session("http://a", "t")));
    assert_eq!(check_login_form("https://a", "t"), Ok(session("https://a", "t")));
    assert!(check_login_form("HTTPS://a", "t").is_err());
    assert!(check_login_form("https:/a", "t").is_err());
}

#[test]
fn login_strips_one_trailing_slash() {
    assert_eq!(check_login_form("https://a/", "t").unwrap().url, "https://a");
    assert_eq!(check_login_form("https://a/b/", "t").unwrap().url, "https://a/b");
    assert_eq!(check_login_form("https://a//", "t").unwrap().url, "https://a/");
}

#[test]
fn login_refused_by_the_probe_changes_nothing() {
    let before = store(None, None);
    let mut stored = before.clone();
    for status in [None, Some(401), Some(204), Some(500)] {
        let effects = finish_login(session("https://a", "t"), probe_outcome(status));
        assert_eq!(effects, notice("Invalid login information. Please try again."));
        stored.apply(effects.storage);
        assert_eq!(stored, before);
    }
}

#[test]
fn probe_is_accepted_on_200_only() {
    assert!(probe_outcome(Some(200)));
    assert!(!probe_outcome(Some(201)));
    assert!(!probe_outcome(Some(199)));
    assert!(!probe_outcome(Some(404)));
    assert!(!probe_outcome(None));
}

#[test]
fn read_finds_a_session_only_with_both_keys() {
    assert_eq!(store(Some("https://a"), Some("t")).read(), Ok(session("https://a", "t")));
    assert_eq!(store(None, Some("t")).read(), Err(Missing::BackendUrl));
    assert_eq!(store(Some("https://a"), None).read(), Err(Missing::Token));
    assert_eq!(store(None, None).read(), Err(Missing::BackendUrl));
}

#[test]
fn a_key_alone_is_cleared_by_a_read() {
    for (url, token, message) in [
        (None, Some("t"), "Failed to fetch the backend URL. Please login again."),
        (Some("https://a"), None, "Failed to fetch the token. Please login again."),
        (None, None, "Failed to fetch the backend URL. Please login again."),
    ] {
        let mut stored = store(url, token);
        let effects = require_session(&stored).unwrap_err();
        assert_eq!(effects.storage, StorageChange::Clear);
        assert_eq!(effects.alert, Some(message.to_string()));
        assert_eq!(effects.navigation, Navigation::Visit("/".to_string()));
        stored.apply(effects.storage);
        assert_eq!(stored, store(None, None));

        let mut stored = store(url, token);
        let effects = begin_check(&stored).unwrap_err();
        assert_eq!(effects.alert, None);
        assert_eq!(effects.navigation, Navigation::Stay);
        stored.apply(effects.storage);
        assert_eq!(stored, store(None, None));
    }
}

#[test]
fn a_whole_session_is_read_and_kept() {
    let stored = store(Some("https://a"), Some("t"));
    assert_eq!(require_session(&stored), Ok(session("https://a", "t")));
    assert_eq!(begin_check(&stored), Ok(session("https://a", "t")));
}

#[test]
fn storage_changes() {
    let mut stored = store(Some("https://a"), Some("t"));
    stored.apply(StorageChange::Keep);
    assert_eq!(stored, store(Some("https://a"), Some("t")));
    stored.apply(StorageChange::Store(session("https://b", "u")));
    assert_eq!(stored, store(Some("https://b"), Some("u")));
    stored.apply(StorageChange::Clear);
    assert_eq!(stored, store(None, None));
    stored.write(session("https://c", "v"));
    assert_eq!(stored, store(Some("https://c"), Some("v")));
    stored.clear();
    assert_eq!(stored, store(None, None));
}

#[test]
fn logout_clears_and_reloads() {
    let effects = logout();
    assert_eq!(effects.storage, StorageChange::Clear);
    assert_eq!(effects.alert, None);
    assert_eq!(effects.navigation, Navigation::Reload);
    assert_eq!(Guard::Authenticated.on(GuardEvent::Logout), Guard::Unauthenticated);
}

#[test]
fn guard_transitions() {
    assert_eq!(Guard::Checking.on(GuardEvent::SessionMissing), Guard::Unauthenticated);
    assert_eq!(Guard::Checking.on(GuardEvent::Probed(true)), Guard::Authenticated);
    assert_eq!(Guard::Checking.on(GuardEvent::Probed(false)), Guard::Unauthenticated);
    assert_eq!(Guard::Checking.on(GuardEvent::Logout), Guard::Checking);
    assert_eq!(Guard::Authenticated.on(GuardEvent::Probed(false)), Guard::Authenticated);
    assert_eq!(Guard::Authenticated.on(GuardEvent::SessionMissing), Guard::Authenticated);
    for event in [
        GuardEvent::SessionMissing,
        GuardEvent::Probed(true),
        GuardEvent::Probed(false),
        GuardEvent::Logout,
    ] {
        assert_eq!(Guard::Unauthenticated.on(event), Guard::Unauthenticated);
    }
    assert!(!Guard::Checking.is_open());
    assert!(!Guard::Unauthenticated.is_open());
}

#[test]
fn guard_without_a_session_makes_no_probe() {
    let stored = store(None, None);
    assert!(begin_check(&stored).is_err());
    assert_eq!(Guard::start().on(GuardEvent::SessionMissing), Guard::Unauthenticated);
}
