//! The stored session, the login form and the guard in front of the link
//! views.

use vstd::prelude::*;
use crate::dto::text_of;
use crate::host::{
    notice, Effects, EffectsView, Navigation, NavigationView, Session, SessionView,
    StorageChange, StorageChangeView,
};
use crate::text::{has_prefix, strip_suffix, without_suffix};

verus! {

/// What the persistent storage holds under the keys `backendUrl` and
/// `token`. The host loads it before a decision and writes the decision's
/// change back.
#[derive(Debug, Clone, PartialEq, Eq)]
pub struct SessionStore {
    pub backend_url: Option<String>,
    pub token: Option<String>,
}

/// The mathematical value of a [`SessionStore`].
pub struct StoreView {
    pub backend_url: Option<Seq<char>>,
    pub token: Option<Seq<char>>,
}

impl View for SessionStore {
    type V = StoreView;

    open spec fn view(&self) -> StoreView {
        StoreView { backend_url: text_of(self.backend_url), token: text_of(self.token) }
    }
}

/// The key that a read of the storage did not find.
#[derive(Debug, Clone, Copy, PartialEq, Eq, Structural)]
pub enum Missing {
    BackendUrl,
    Token,
}

impl StoreView {
    /// A storage without keys.
    pub open spec fn empty() -> StoreView {
        StoreView { backend_url: None, token: None }
    }

    /// Whether both keys are there, or neither.
    pub open spec fn is_paired(self) -> bool {
        self.backend_url is Some <==> self.token is Some
    }

    /// What a read finds: the session where both keys are there, else the
    /// first key that is not, the URL before the token.
    pub open spec fn read(self) -> Result<SessionView, Missing> {
        match (self.backend_url, self.token) {
            (Some(url), Some(token)) => Ok(SessionView { url, token }),
            (None, _) => Err(Missing::BackendUrl),
            (Some(_), None) => Err(Missing::Token),
        }
    }

    /// The storage after `change`.
    pub open spec fn after(self, change: StorageChangeView) -> StoreView {
        match change {
            StorageChangeView::Keep => self,
            StorageChangeView::Clear => StoreView::empty(),
            StorageChangeView::Store(session) => StoreView {
                backend_url: Some(session.url),
                token: Some(session.token),
            },
        }
    }
}

/// The result of a read, by its mathematical value.
pub open spec fn read_view(r: Result<Session, Missing>) -> Result<SessionView, Missing> {
    match r {
        Ok(session) => Ok(session@),
        Err(missing) => Err(missing),
    }
}

impl SessionStore {
    /// The storage as the host found it.
    pub fn load(backend_url: Option<String>, token: Option<String>) -> (r: SessionStore)
        ensures
            r@.backend_url == text_of(backend_url),
            r@.token == text_of(token),
    {
        SessionStore { backend_url, token }
    }

    /// Reads the session: both keys, or the key that is missing.
    pub fn read(&self) -> (r: Result<Session, Missing>)
        ensures
            read_view(r) == self@.read(),
    {
        match &self.backend_url {
            None => Err(Missing::BackendUrl),
            Some(url) => match &self.token {
                None => Err(Missing::Token),
                Some(token) => Ok(Session { url: url.clone(), token: token.clone() }),
            },
        }
    }

    /// Writes both keys.
    pub fn write(&mut self, session: Session)
        ensures
            final(self)@ == old(self)@.after(StorageChangeView::Store(session@)),
            final(self)@.is_paired(),
    {
        self.backend_url = Some(session.url);
        self.token = Some(session.token);
    }

    /// Removes every key.
    pub fn clear(&mut self)
        ensures
            final(self)@ == StoreView::empty(),
            final(self)@.is_paired(),
    {
        self.backend_url = None;
        self.token = None;
    }

    /// Carries out `change`.
    pub fn apply(&mut self, change: StorageChange)
        ensures
            final(self)@ == old(self)@.after(change@),
    {
        match change {
            StorageChange::Keep => {},
            StorageChange::Clear => self.clear(),
            StorageChange::Store(session) => self.write(session),
        }
    }
}

/// Every change leaves a storage that holds both keys or neither as such a
/// storage again, and a change other than `Keep` leaves any storage so.
pub proof fn law_storage_stays_paired(store: StoreView, change: StorageChangeView)
    ensures
        store.is_paired() ==> store.after(change).is_paired(),
        !(change is Keep) ==> store.after(change).is_paired(),
{
}

/// The words that send the user back to the login after a read that did
/// not find `missing`.
pub open spec fn login_again_words(missing: Missing) -> Seq<char> {
    match missing {
        Missing::BackendUrl => "Failed to fetch the backend URL. Please login again."@,
        Missing::Token => "Failed to fetch the token. Please login again."@,
    }
}

/// What a link operation does where the storage holds no session: the
/// storage is cleared, the user is told to log in again and taken to the
/// root view.
pub open spec fn login_again(missing: Missing) -> EffectsView {
    EffectsView {
        storage: StorageChangeView::Clear,
        alert: Some(login_again_words(missing)),
        navigation: NavigationView::Visit("/"@),
    }
}

/// The session of a link operation, or what has to happen where there is
/// none.
pub open spec fn required_session(store: StoreView) -> Result<SessionView, EffectsView> {
    match store.read() {
        Ok(session) => Ok(session),
        Err(missing) => Err(login_again(missing)),
    }
}

/// A session or what the host does instead, by mathematical value.
pub open spec fn session_view(r: Result<Session, Effects>) -> Result<SessionView, EffectsView> {
    match r {
        Ok(session) => Ok(session@),
        Err(effects) => Err(effects@),
    }
}

/// Reads the session for a link operation. Without one the operation does
/// not go on: the host carries out the effects and gives the operation's
/// neutral result.
pub fn require_session(store: &SessionStore) -> (r: Result<Session, Effects>)
    ensures
        session_view(r) == required_session(store@),
{
    match store.read() {
        Ok(session) => Ok(session),
        Err(missing) => {
            let words = match missing {
                Missing::BackendUrl => "Failed to fetch the backend URL. Please login again.",
                Missing::Token => "Failed to fetch the token. Please login again.",
            };
            Err(
                Effects {
                    storage: StorageChange::Clear,
                    alert: Some(words.to_owned()),
                    navigation: Navigation::Visit("/".to_owned()),
                },
            )
        },
    }
}

/// A read that does not find both keys has the storage cleared: after the
/// effects of such a read the storage holds neither key, so no key stays
/// behind alone.
pub proof fn law_partial_session_is_cleared(store: StoreView)
    requires
        store.read() is Err,
    ensures
        required_session(store) matches Err(effects) && store.after(effects.storage)
            == StoreView::empty(),
        check_opening(store) matches Err(effects) && store.after(effects.storage)
            == StoreView::empty(),
{
}

/// Whether `url` starts with `http://` or `https://`.
pub open spec fn has_scheme(url: Seq<char>) -> bool {
    "http://"@.is_prefix_of(url) || "https://"@.is_prefix_of(url)
}

/// What the login form makes of its two fields: both must be filled in and
/// the URL must start with `http://` or `https://`; the session then holds
/// the URL without one trailing `/`.
pub open spec fn login_form_result(url: Seq<char>, token: Seq<char>) -> Result<
    SessionView,
    EffectsView,
> {
    if url.len() == 0 || token.len() == 0 {
        Err(notice("Please fill in both fields."@))
    } else if !has_scheme(url) {
        Err(notice("Please enter a valid URL starting with http:// or https://"@))
    } else {
        Ok(SessionView { url: without_suffix(url, "/"@), token })
    }
}

/// Checks the fields of the login form. The session that comes back is to
/// be probed before it is stored.
pub fn check_login_form(url: &str, token: &str) -> (r: Result<Session, Effects>)
    ensures
        session_view(r) == login_form_result(url@, token@),
{
    if url.is_empty() || token.is_empty() {
        return Err(Effects::notice("Please fill in both fields.".to_owned()));
    }
    if !has_prefix(url, "http://") && !has_prefix(url, "https://") {
        return Err(
            Effects::notice(
                "Please enter a valid URL starting with http:// or https://".to_owned(),
            ),
        );
    }
    Ok(Session { url: strip_suffix(url, "/").to_owned(), token: token.to_owned() })
}

/// What a login comes to once the backend was probed with `session`: where
/// it accepted, the session is stored and the page loaded again; where it
/// did not, or the probe failed, a message and nothing else.
pub open spec fn login_result(session: SessionView, accepted: bool) -> EffectsView {
    if accepted {
        EffectsView {
            storage: StorageChangeView::Store(session),
            alert: Some("Login successful!"@),
            navigation: NavigationView::Reload,
        }
    } else {
        notice("Invalid login information. Please try again."@)
    }
}

/// Ends a login whose probe found the session accepted or not.
pub fn finish_login(session: Session, accepted: bool) -> (r: Effects)
    ensures
        r@ == login_result(session@, accepted),
{
    if accepted {
        Effects {
            storage: StorageChange::Store(session),
            alert: Some("Login successful!".to_owned()),
            navigation: Navigation::Reload,
        }
    } else {
        Effects::notice("Invalid login information. Please try again.".to_owned())
    }
}

/// The URL that a login stores has no trailing `/`, for every URL that the
/// form accepts and that does not end in `//`.
pub proof fn law_stored_url_has_no_trailing_slash(url: Seq<char>, token: Seq<char>)
    requires
        login_form_result(url, token) is Ok,
        !"//"@.is_suffix_of(url),
    ensures
        login_result(login_form_result(url, token)->Ok_0, true).storage
            matches StorageChangeView::Store(session) && !"/"@.is_suffix_of(session.url),
{
    reveal_strlit("/");
    reveal_strlit("//");
    let n = url.len() as int;
    let stored = without_suffix(url, "/"@);
    if "/"@.is_suffix_of(url) && "/"@.is_suffix_of(stored) {
        assert(url.subrange(n - 1, n)[0] == '/');
        assert(stored.subrange(n - 2, n - 1)[0] == '/');
        assert(url.subrange(n - 2, n) =~= "//"@);
    }
}

/// What logging out does: the storage is cleared and the page loaded again.
pub open spec fn logout_result() -> EffectsView {
    EffectsView {
        storage: StorageChangeView::Clear,
        alert: None,
        navigation: NavigationView::Reload,
    }
}

/// Logs out.
pub fn logout() -> (r: Effects)
    ensures
        r@ == logout_result(),
{
    Effects { storage: StorageChange::Clear, alert: None, navigation: Navigation::Reload }
}

/// Where the guard in front of the link views stands.
#[derive(Debug, Clone, Copy, PartialEq, Eq, Structural)]
pub enum Guard {
    /// The stored session is being checked.
    Checking,
    /// The session was accepted: the link views are open.
    Authenticated,
    /// There is no accepted session: the login form is shown.
    Unauthenticated,
}

/// What can happen at the guard.
#[derive(Debug, Clone, Copy, PartialEq, Eq, Structural)]
pub enum GuardEvent {
    /// The storage holds no session.
    SessionMissing,
    /// The probe ended: the backend accepted the session, or it did not.
    Probed(bool),
    /// The user asked to log out.
    Logout,
}

impl Guard {
    /// Where the guard stands after `event`. The check ends with the first
    /// answer; an open guard closes on logout; a closed guard stays closed,
    /// since a login loads the page again and so starts a new check.
    pub open spec fn next(self, event: GuardEvent) -> Guard {
        match (self, event) {
            (Guard::Checking, GuardEvent::SessionMissing) => Guard::Unauthenticated,
            (Guard::Checking, GuardEvent::Probed(true)) => Guard::Authenticated,
            (Guard::Checking, GuardEvent::Probed(false)) => Guard::Unauthenticated,
            (Guard::Authenticated, GuardEvent::Logout) => Guard::Unauthenticated,
            _ => self,
        }
    }

    /// The guard of a page that was just loaded.
    pub fn start() -> (r: Guard)
        ensures
            r == Guard::Checking,
    {
        Guard::Checking
    }

    /// Where the guard stands after `event`.
    pub fn on(self, event: GuardEvent) -> (r: Guard)
        ensures
            r == self.next(event),
    {
        match self {
            Guard::Checking => match event {
                GuardEvent::SessionMissing => Guard::Unauthenticated,
                GuardEvent::Probed(accepted) => if accepted {
                    Guard::Authenticated
                } else {
                    Guard::Unauthenticated
                },
                GuardEvent::Logout => Guard::Checking,
            },
            Guard::Authenticated => match event {
                GuardEvent::Logout => Guard::Unauthenticated,
                _ => Guard::Authenticated,
            },
            Guard::Unauthenticated => Guard::Unauthenticated,
        }
    }

    /// Whether the link views are open.
    pub fn is_open(self) -> (r: bool)
        ensures
            r == (self == Guard::Authenticated),
    {
        match self {
            Guard::Authenticated => true,
            _ => false,
        }
    }
}

/// The guard opens only through a check whose probe was accepted, and a
/// closed guard never opens in place.
pub proof fn law_guard_opens_by_probe_only(guard: Guard, event: GuardEvent)
    ensures
        guard.next(event) == Guard::Authenticated ==> guard == Guard::Authenticated || (guard
            == Guard::Checking && event == GuardEvent::Probed(true)),
        Guard::Unauthenticated.next(event) == Guard::Unauthenticated,
{
}

/// How the guard's check begins: with the session to probe, or without a
/// probe where the storage holds none. The storage is then cleared, so that
/// no key stays behind alone.
pub open spec fn check_opening(store: StoreView) -> Result<SessionView, EffectsView> {
    match store.read() {
        Ok(session) => Ok(session),
        Err(_) => Err(
            EffectsView {
                storage: StorageChangeView::Clear,
                alert: None,
                navigation: NavigationView::Stay,
            },
        ),
    }
}

/// Begins the guard's check. With a session the host probes the backend and
/// tells the guard `Probed`; without one it carries out the effects and
/// tells the guard `SessionMissing`.
pub fn begin_check(store: &SessionStore) -> (r: Result<Session, Effects>)
    ensures
        session_view(r) == check_opening(store@),
{
    match store.read() {
        Ok(session) => Ok(session),
        Err(_) => Err(
            Effects { storage: StorageChange::Clear, alert: None, navigation: Navigation::Stay },
        ),
    }
}

} // verus!
