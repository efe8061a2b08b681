//! What the link views show, and what follows a submit.

use vstd::prelude::*;
use crate::client::{delete_body_text, delete_request, request_to, HttpRequest, Method};
use crate::dto::{text_of, Link};
use crate::host::{
    no_effects, Effects, EffectsView, Navigation, NavigationView, Session, StorageChange,
    StorageChangeView,
};
use crate::text::{join, same_text};
use crate::time::{expiration_format, expiration_text, timestamp_text};

verus! {

/// The path of the detail view of the link `key`.
pub open spec fn link_path_of(key: Seq<char>) -> Seq<char> {
    "/link/"@ + key
}

/// The path of the detail view of the link `key`.
pub fn link_path(key: &str) -> (r: String)
    ensures
        r@ == link_path_of(key@),
{
    join("/link/", key)
}

/// The long URL as a view shows it: the URL, or words in its place where
/// the backend gave none.
pub open spec fn shown_url_of(url: Option<Seq<char>>) -> Seq<char> {
    match url {
        Some(url) => url,
        None => "Failed to display"@,
    }
}

/// The long URL of `link` as a view shows it.
pub fn shown_url(link: &Link) -> (r: String)
    ensures
        r@ == shown_url_of(link@.url),
{
    match &link.url {
        Some(url) => url.clone(),
        None => "Failed to display".to_owned(),
    }
}

/// The card of a link in the list view.
#[derive(Debug, Clone, PartialEq, Eq)]
pub struct Card {
    /// Where the card leads.
    pub path: String,
    pub key: String,
    pub url: String,
}

/// The mathematical value of a [`Card`].
pub struct CardView {
    pub path: Seq<char>,
    pub key: Seq<char>,
    pub url: Seq<char>,
}

impl View for Card {
    type V = CardView;

    open spec fn view(&self) -> CardView {
        CardView { path: self.path@, key: self.key@, url: self.url@ }
    }
}

/// The card of `link`.
pub open spec fn card_of(link: Link) -> CardView {
    CardView {
        path: link_path_of(link.short.key@),
        key: link.short.key@,
        url: shown_url_of(link@.url),
    }
}

/// The cards of the list view: one for each link, in the order of the list.
pub fn list_cards(links: &Vec<Link>) -> (r: Vec<Card>)
    ensures
        r.len() == links.len(),
        forall|i: int| 0 <= i < links.len() ==> (#[trigger] r[i])@ == card_of(links[i]),
{
    let mut cards: Vec<Card> = Vec::new();
    let mut i: usize = 0;
    while i < links.len()
        invariant
            i <= links.len(),
            cards.len() == i,
            forall|j: int| 0 <= j < i ==> (#[trigger] cards[j])@ == card_of(links[j]),
        decreases links.len() - i,
    {
        let link = &links[i];
        cards.push(
            Card {
                path: link_path(link.short.key.as_str()),
                key: link.short.key.clone(),
                url: shown_url(link),
            },
        );
        i += 1;
    }
    cards
}

/// What the list view shows.
#[derive(Debug, Clone, Copy, PartialEq, Eq, Structural)]
pub enum ListState {
    /// The list is being fetched.
    Loading,
    /// The list was fetched and holds no link.
    Empty,
    /// The list was fetched: a card for each link.
    Cards,
}

/// What the list view shows for the list fetched so far: `None` while the
/// fetch is in flight.
pub fn list_state(links: Option<&Vec<Link>>) -> (r: ListState)
    ensures
        r == match links {
            None => ListState::Loading,
            Some(links) => if links.len() == 0 {
                ListState::Empty
            } else {
                ListState::Cards
            },
        },
{
    match links {
        None => ListState::Loading,
        Some(links) => if links.len() == 0 {
            ListState::Empty
        } else {
            ListState::Cards
        },
    }
}

impl ListState {
    /// The words that the view shows in place of cards.
    pub open spec fn words(self) -> Option<Seq<char>> {
        match self {
            ListState::Loading => Some("Loading..."@),
            ListState::Empty => Some("No links found."@),
            ListState::Cards => None,
        }
    }

    /// The words that the view shows in place of cards.
    pub fn notice(self) -> (r: Option<&'static str>)
        ensures
            match r {
                Some(words) => self.words() == Some(words@),
                None => self.words() is None,
            },
    {
        match self {
            ListState::Loading => Some("Loading..."),
            ListState::Empty => Some("No links found."),
            ListState::Cards => None,
        }
    }
}

/// Whether `link` has the short key `key`, character for character.
pub open spec fn has_key(link: Link, key: Seq<char>) -> bool {
    link.short.key@ == key
}

/// The first link of the list with the short key `key`, or `None` where no
/// link has it.
pub fn find_link<'a>(links: &'a Vec<Link>, key: &str) -> (r: Option<&'a Link>)
    ensures
        r is None <==> forall|i: int| 0 <= i < links.len() ==> !has_key(#[trigger] links[i], key@),
        r matches Some(link) ==> exists|i: int|
            0 <= i < links.len() && *link == #[trigger] links[i] && has_key(links[i], key@)
                && forall|j: int| 0 <= j < i ==> !has_key(#[trigger] links[j], key@),
{
    let mut i: usize = 0;
    while i < links.len()
        invariant
            i <= links.len(),
            forall|j: int| 0 <= j < i ==> !has_key(#[trigger] links[j], key@),
        decreases links.len() - i,
    {
        if same_text(links[i].short.key.as_str(), key) {
            return Some(&links[i]);
        }
        i += 1;
    }
    None
}

/// What the edit form of a link starts with.
#[derive(Debug, Clone, PartialEq, Eq)]
pub struct LinkDetail {
    pub key: String,
    /// The long URL, or words in its place.
    pub url: String,
    /// The expiration as a date, shown as a hint; empty where the link has
    /// none or it cannot be written as a date.
    pub expiration: String,
}

/// The mathematical value of a [`LinkDetail`].
pub struct LinkDetailView {
    pub key: Seq<char>,
    pub url: Seq<char>,
    pub expiration: Seq<char>,
}

impl View for LinkDetail {
    type V = LinkDetailView;

    open spec fn view(&self) -> LinkDetailView {
        LinkDetailView { key: self.key@, url: self.url@, expiration: self.expiration@ }
    }
}

/// What the edit form of `link` starts with, given its expiration written
/// as a date.
pub open spec fn detail_of(link: Link, expiration: Option<Seq<char>>) -> LinkDetailView {
    LinkDetailView {
        key: link.short.key@,
        url: shown_url_of(link@.url),
        expiration: match expiration {
            Some(text) => text,
            None => Seq::empty(),
        },
    }
}

/// The expiration of `link` written as a date, where it has one.
pub open spec fn expiration_hint(link: Link) -> Option<Seq<char>> {
    match link.expiration {
        Some(seconds) => timestamp_text(seconds as int, expiration_format()),
        None => None,
    }
}

/// What the edit form of `link` starts with, given its expiration written
/// as a date.
pub fn detail_with(link: &Link, expiration: Option<String>) -> (r: LinkDetail)
    ensures
        r@ == detail_of(*link, text_of(expiration)),
{
    LinkDetail {
        key: link.short.key.clone(),
        url: shown_url(link),
        expiration: match expiration {
            Some(text) => text,
            None => String::new(),
        },
    }
}

/// What the edit form of `link` starts with.
pub fn link_detail(link: &Link) -> (r: LinkDetail)
    ensures
        r@ == detail_of(*link, expiration_hint(*link)),
{
    let expiration = match link.expiration {
        Some(seconds) => expiration_text(seconds),
        None => None,
    };
    detail_with(link, expiration)
}

/// What the detail view shows.
#[derive(Debug, Clone, Copy, PartialEq, Eq, Structural)]
pub enum DetailState {
    /// The list is being fetched.
    Loading,
    /// The list was fetched and holds no link with the key.
    NotFound,
    /// The list holds the link: its edit form.
    Form,
}

/// What the detail view of the link `key` shows for the list fetched so
/// far: `None` while the fetch is in flight.
pub fn detail_state(links: Option<&Vec<Link>>, key: &str) -> (r: DetailState)
    ensures
        r == match links {
            None => DetailState::Loading,
            Some(links) => if exists|i: int|
                0 <= i < links.len() && has_key(#[trigger] links[i], key@) {
                DetailState::Form
            } else {
                DetailState::NotFound
            },
        },
{
    match links {
        None => DetailState::Loading,
        Some(links) => match find_link(links, key) {
            Some(_) => DetailState::Form,
            None => DetailState::NotFound,
        },
    }
}

impl DetailState {
    /// The words that the view shows in place of the form.
    pub open spec fn words(self) -> Option<Seq<char>> {
        match self {
            DetailState::Loading => Some("Loading..."@),
            DetailState::NotFound => Some("Link not found."@),
            DetailState::Form => None,
        }
    }

    /// The words that the view shows in place of the form.
    pub fn notice(self) -> (r: Option<&'static str>)
        ensures
            match r {
                Some(words) => self.words() == Some(words@),
                None => self.words() is None,
            },
    {
        match self {
            DetailState::Loading => Some("Loading..."),
            DetailState::NotFound => Some("Link not found."),
            DetailState::Form => None,
        }
    }
}

/// A message, then a move to another place; the storage stays as it is.
pub open spec fn notice_then(message: Seq<char>, navigation: NavigationView) -> EffectsView {
    EffectsView { storage: StorageChangeView::Keep, alert: Some(message), navigation }
}

/// A message, then a move to another place.
fn tell_then(message: String, navigation: Navigation) -> (r: Effects)
    ensures
        r@ == notice_then(message@, navigation@),
{
    Effects { storage: StorageChange::Keep, alert: Some(message), navigation }
}

/// What follows a create that gave `short`: with a key, the user is told
/// and taken to the new link; with the empty key, nothing.
pub open spec fn create_followup(short: Seq<char>) -> EffectsView {
    if short.len() == 0 {
        no_effects()
    } else {
        notice_then("Link created: "@ + short, NavigationView::Visit(link_path_of(short)))
    }
}

/// What the host does after a create that gave the short key `short`.
pub fn after_create(short: &str) -> (r: Effects)
    ensures
        r@ == create_followup(short@),
{
    if short.is_empty() {
        Effects::none()
    } else {
        tell_then(join("Link created: ", short), Navigation::Visit(link_path(short)))
    }
}

/// What follows an update: where the link was updated, the user is told
/// and the page loaded again.
pub open spec fn update_followup(updated: bool) -> EffectsView {
    if updated {
        notice_then("Link updated"@, NavigationView::Reload)
    } else {
        no_effects()
    }
}

/// What the host does after an update.
pub fn after_update(updated: bool) -> (r: Effects)
    ensures
        r@ == update_followup(updated),
{
    if updated {
        tell_then("Link updated".to_owned(), Navigation::Reload)
    } else {
        Effects::none()
    }
}

/// The question that stands before a delete.
pub fn delete_question() -> (r: &'static str)
    ensures
        r@ == "Are you sure you want to delete this link?"@,
{
    "Are you sure you want to delete this link?"
}

/// The request that deletes the link `key`, where the user said yes to the
/// question; no request where the user said no.
pub fn confirmed_delete(confirmed: bool, session: &Session, key: &str) -> (r: Option<HttpRequest>)
    ensures
        r is Some <==> confirmed,
        r matches Some(request) ==> request@ == request_to(
            Method::Delete,
            session@,
            "/api/v1/delete"@,
            None,
            Some(delete_body_text(key@)),
        ),
{
    if confirmed {
        Some(delete_request(session, key))
    } else {
        None
    }
}

/// What follows a delete: where the link was deleted, the user is told and
/// taken to the root view.
pub open spec fn delete_followup(deleted: bool) -> EffectsView {
    if deleted {
        notice_then("Link deleted"@, NavigationView::Visit("/"@))
    } else {
        no_effects()
    }
}

/// What the host does after a delete.
pub fn after_delete(deleted: bool) -> (r: Effects)
    ensures
        r@ == delete_followup(deleted),
{
    if deleted {
        tell_then("Link deleted".to_owned(), Navigation::Visit("/".to_owned()))
    } else {
        Effects::none()
    }
}

} // verus!
