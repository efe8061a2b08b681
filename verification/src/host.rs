//! What the library asks of its host: changes to the stored session, a
//! message for the user, and where to go next.

use vstd::prelude::*;
use crate::dto::text_of;

verus! {

/// The credentials of a session.
#[derive(Debug, Clone, PartialEq, Eq)]
pub struct Session {
    /// The base URL of the backend.
    pub url: String,
    /// The bearer token.
    pub token: String,
}

/// The mathematical value of a [`Session`].
pub struct SessionView {
    pub url: Seq<char>,
    pub token: Seq<char>,
}

impl View for Session {
    type V = SessionView;

    open spec fn view(&self) -> SessionView {
        SessionView { url: self.url@, token: self.token@ }
    }
}

/// What is to happen to the stored session.
#[derive(Debug, Clone, PartialEq, Eq)]
pub enum StorageChange {
    /// Nothing: the storage stays as it is.
    Keep,
    /// Every key is removed.
    Clear,
    /// Both keys are written.
    Store(Session),
}

/// The mathematical value of a [`StorageChange`].
pub enum StorageChangeView {
    Keep,
    Clear,
    Store(SessionView),
}

impl View for StorageChange {
    type V = StorageChangeView;

    open spec fn view(&self) -> StorageChangeView {
        match self {
            StorageChange::Keep => StorageChangeView::Keep,
            StorageChange::Clear => StorageChangeView::Clear,
            StorageChange::Store(session) => StorageChangeView::Store(session@),
        }
    }
}

/// Where the user is taken.
#[derive(Debug, Clone, PartialEq, Eq)]
pub enum Navigation {
    /// Nowhere: the view stays as it is.
    Stay,
    /// The page is loaded again.
    Reload,
    /// The given path is opened.
    Visit(String),
}

/// The mathematical value of a [`Navigation`].
pub enum NavigationView {
    Stay,
    Reload,
    Visit(Seq<char>),
}

impl View for Navigation {
    type V = NavigationView;

    open spec fn view(&self) -> NavigationView {
        match self {
            Navigation::Stay => NavigationView::Stay,
            Navigation::Reload => NavigationView::Reload,
            Navigation::Visit(path) => NavigationView::Visit(path@),
        }
    }
}

/// What the host does after a decision, in this order: change the storage,
/// show the message, navigate.
#[derive(Debug, Clone, PartialEq, Eq)]
pub struct Effects {
    pub storage: StorageChange,
    /// The text of a modal dialog, where one is shown.
    pub alert: Option<String>,
    pub navigation: Navigation,
}

/// The mathematical value of [`Effects`].
pub struct EffectsView {
    pub storage: StorageChangeView,
    pub alert: Option<Seq<char>>,
    pub navigation: NavigationView,
}

impl View for Effects {
    type V = EffectsView;

    open spec fn view(&self) -> EffectsView {
        EffectsView {
            storage: self.storage@,
            alert: text_of(self.alert),
            navigation: self.navigation@,
        }
    }
}

/// Nothing to do.
pub open spec fn no_effects() -> EffectsView {
    EffectsView {
        storage: StorageChangeView::Keep,
        alert: None,
        navigation: NavigationView::Stay,
    }
}

/// A message, and nothing else: the storage and the view stay as they are.
pub open spec fn notice(message: Seq<char>) -> EffectsView {
    EffectsView {
        storage: StorageChangeView::Keep,
        alert: Some(message),
        navigation: NavigationView::Stay,
    }
}

impl Effects {
    /// Nothing to do.
    pub fn none() -> (r: Effects)
        ensures
            r@ == no_effects(),
    {
        Effects { storage: StorageChange::Keep, alert: None, navigation: Navigation::Stay }
    }

    /// A message, and nothing else.
    pub fn notice(message: String) -> (r: Effects)
        ensures
            r@ == notice(message@),
    {
        Effects {
            storage: StorageChange::Keep,
            alert: Some(message),
            navigation: Navigation::Stay,
        }
    }
}

} // verus!
